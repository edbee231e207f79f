//! The specification of one value-taking option, built once from the
//! description that the application declares.

use std::rc::Rc;
use vec_map::VecMap;
use vstd::prelude::*;
use crate::any_arg::{AnyArg, DispOrder};
use crate::arg::{Arg, Validator, DEFAULT_VAL_DELIM, NO_DISPLAY_ORDER};
use crate::settings::{ArgFlags, ArgSettings};
use crate::text::{text_of, texts_of};
use crate::usage::{lemma_ellipsis_needs_single_slot, usage_fragment, usage_text};
use crate::val_names::{
    counts_entries,
    lemma_names_in_order_len,
    names_in_order,
    val_names_clone,
    val_names_len,
    val_names_view,
    value_names,
};

verus! {

/// The specification of an option that takes a value.
pub struct OptBuilder<'n, 'e> {
    /// The name that identifies the option.
    pub name: &'n str,
    /// The short switch, as in `-s`.
    pub short: Option<char>,
    /// The long switch, as in `--long`.
    pub long: Option<&'e str>,
    /// Other long switches for the option, each with whether it is shown.
    pub aliases: Option<Vec<(&'e str, bool)>>,
    /// The help text.
    pub help: Option<&'e str>,
    /// The arguments that the option conflicts with.
    pub blacklist: Option<Vec<&'e str>>,
    /// The values that are accepted, if the set is closed.
    pub possible_vals: Option<Vec<&'e str>>,
    /// The arguments that the option requires.
    pub requires: Option<Vec<&'e str>>,
    /// The exact number of values that one occurrence takes.
    pub num_vals: Option<u64>,
    /// The smallest number of values that one occurrence must take.
    pub min_vals: Option<u64>,
    /// The largest number of values that one occurrence may take.
    pub max_vals: Option<u64>,
    /// The names of the values, by position.
    pub val_names: Option<VecMap<&'e str>>,
    /// The validator of the values, shared with every copy.
    pub validator: Option<Rc<dyn Validator>>,
    /// The arguments that the option overrides.
    pub overrides: Option<Vec<&'e str>>,
    /// The settings that are switched on.
    pub settings: ArgFlags,
    /// The character at which one token is split into values.
    pub val_delim: Option<char>,
    /// The value that stands in when none is given.
    pub default_val: Option<&'n str>,
    /// The place of the option among the options in help text.
    pub disp_ord: usize,
    /// The place of the option among all arguments in help text.
    pub unified_ord: usize,
    /// The arguments in whose absence the option is required.
    pub r_unless: Option<Vec<&'e str>>,
}

/// What an option specification says, as plain values. The validator is a
/// function and has no place here: contracts speak of it by identity.
pub struct OptSpec {
    pub name: Seq<char>,
    pub short: Option<char>,
    pub long: Option<Seq<char>>,
    pub aliases: Option<Seq<(Seq<char>, bool)>>,
    pub help: Option<Seq<char>>,
    pub blacklist: Option<Seq<Seq<char>>>,
    pub possible_vals: Option<Seq<Seq<char>>>,
    pub requires: Option<Seq<Seq<char>>>,
    pub num_vals: Option<u64>,
    pub min_vals: Option<u64>,
    pub max_vals: Option<u64>,
    pub val_names: Option<Map<nat, Seq<char>>>,
    pub overrides: Option<Seq<Seq<char>>>,
    pub settings: Set<ArgSettings>,
    pub val_delim: Option<char>,
    pub default_val: Option<Seq<char>>,
    pub disp_ord: usize,
    pub unified_ord: usize,
    pub r_unless: Option<Seq<Seq<char>>>,
}

/// The texts and visibility of a list of aliases.
pub open spec fn alias_texts(aliases: Option<Vec<(&str, bool)>>) -> Option<Seq<(Seq<char>, bool)>> {
    match aliases {
        Some(aliases) => Some(aliases@.map_values(|alias: (&str, bool)| (alias.0@, alias.1))),
        None => None,
    }
}

/// What an optional map of value names holds.
pub open spec fn held_names(val_names: Option<VecMap<&str>>) -> Option<Map<nat, Seq<char>>> {
    match val_names {
        Some(names) => Some(val_names_view(names)),
        None => None,
    }
}

impl OptSpec {
    /// The specification of an option of which only the name is known.
    pub open spec fn named(name: Seq<char>) -> OptSpec {
        OptSpec {
            name,
            short: None,
            long: None,
            aliases: None,
            help: None,
            blacklist: None,
            possible_vals: None,
            requires: None,
            num_vals: None,
            min_vals: None,
            max_vals: None,
            val_names: None,
            overrides: None,
            settings: Set::empty(),
            val_delim: Some(DEFAULT_VAL_DELIM),
            default_val: None,
            disp_ord: NO_DISPLAY_ORDER,
            unified_ord: NO_DISPLAY_ORDER,
            r_unless: None,
        }
    }

    /// The number of values that an option built from a description takes:
    /// where more than one value is named, as many as are named; else as
    /// many as the description declares.
    pub open spec fn arity(named: Option<nat>, declared: Option<u64>) -> Option<u64> {
        match named {
            Some(count) => if count > 1 {
                Some(count as u64)
            } else {
                declared
            },
            None => declared,
        }
    }

    /// The number of values of an option built from a description that
    /// names the values `val_names` and declares `num_vals`.
    pub open spec fn inferred_num_vals(
        val_names: Option<Map<nat, Seq<char>>>,
        num_vals: Option<u64>,
    ) -> Option<u64> {
        Self::arity(
            match val_names {
                Some(held) => Some(held.dom().len()),
                None => None,
            },
            num_vals,
        )
    }

    /// A list of related arguments as a specification keeps it: a list that
    /// is present and empty declares nothing, and is kept as absent.
    pub open spec fn declared(list: Option<Seq<Seq<char>>>) -> Option<Seq<Seq<char>>> {
        match list {
            Some(names) => if names.len() > 0 {
                Some(names)
            } else {
                None
            },
            None => None,
        }
    }

    /// The specification that is built from the description `a`.
    pub open spec fn built_from(a: Arg) -> OptSpec {
        OptSpec {
            name: a.name@,
            short: a.short,
            long: text_of(a.long),
            aliases: alias_texts(a.aliases),
            help: text_of(a.help),
            blacklist: Self::declared(texts_of(a.blacklist)),
            possible_vals: texts_of(a.possible_vals),
            requires: Self::declared(texts_of(a.requires)),
            num_vals: Self::inferred_num_vals(held_names(a.val_names), a.num_vals),
            min_vals: a.min_vals,
            max_vals: a.max_vals,
            val_names: held_names(a.val_names),
            overrides: Self::declared(texts_of(a.overrides)),
            settings: a.settings@,
            val_delim: a.val_delim,
            default_val: text_of(a.default_val),
            disp_ord: a.disp_ord,
            unified_ord: NO_DISPLAY_ORDER,
            r_unless: Self::declared(texts_of(a.r_unless)),
        }
    }

    /// An option is given by a short or a long switch.
    pub open spec fn has_switch(self) -> bool {
        self.short is Some || self.long is Some
    }

    /// Where more than one value is named, the option takes as many values
    /// as are named.
    pub open spec fn arity_agrees(self) -> bool {
        match self.val_names {
            Some(held) => held.dom().len() > 1 ==> self.num_vals == Some(held.dom().len() as u64),
            None => true,
        }
    }

    /// A list of related arguments is absent or holds at least one name.
    pub open spec fn relation_declared(list: Option<Seq<Seq<char>>>) -> bool {
        match list {
            Some(names) => names.len() > 0,
            None => true,
        }
    }

    /// No list of related arguments is present and empty.
    pub open spec fn relations_declared(self) -> bool {
        &&& Self::relation_declared(self.blacklist)
        &&& Self::relation_declared(self.requires)
        &&& Self::relation_declared(self.overrides)
        &&& Self::relation_declared(self.r_unless)
    }

    /// What holds of every specification that was built from a description.
    pub open spec fn wf(self) -> bool {
        &&& self.has_switch()
        &&& self.arity_agrees()
        &&& self.relations_declared()
    }

    /// The value names in the order in which a usage fragment shows them.
    pub open spec fn shown_val_names(self) -> Option<Seq<Seq<char>>> {
        match self.val_names {
            Some(held) => Some(names_in_order(held)),
            None => None,
        }
    }

    /// The usage fragment of the option.
    pub open spec fn usage(self) -> Seq<char>
        recommends
            self.has_switch(),
    {
        usage_text(
            self.name,
            self.short,
            self.long,
            self.shown_val_names(),
            self.num_vals,
            self.settings.contains(ArgSettings::Multiple),
        )
    }
}

impl<'n, 'e> View for OptBuilder<'n, 'e> {
    type V = OptSpec;

    open spec fn view(&self) -> OptSpec {
        OptSpec {
            name: self.name@,
            short: self.short,
            long: text_of(self.long),
            aliases: alias_texts(self.aliases),
            help: text_of(self.help),
            blacklist: texts_of(self.blacklist),
            possible_vals: texts_of(self.possible_vals),
            requires: texts_of(self.requires),
            num_vals: self.num_vals,
            min_vals: self.min_vals,
            max_vals: self.max_vals,
            val_names: held_names(self.val_names),
            overrides: texts_of(self.overrides),
            settings: self.settings@,
            val_delim: self.val_delim,
            default_val: text_of(self.default_val),
            disp_ord: self.disp_ord,
            unified_ord: self.unified_ord,
            r_unless: texts_of(self.r_unless),
        }
    }
}

impl<'n, 'e> Default for OptBuilder<'n, 'e> {
    fn default() -> (ob: Self)
        ensures
            ob@ == OptSpec::named(Seq::empty()),
            ob.validator is None,
    {
        let name = "";
        proof {
            reveal_strlit("");
        }
        assert(name@ =~= Seq::<char>::empty());
        OptBuilder {
            name,
            short: None,
            long: None,
            aliases: None,
            help: None,
            blacklist: None,
            possible_vals: None,
            requires: None,
            num_vals: None,
            min_vals: None,
            max_vals: None,
            val_names: None,
            validator: None,
            overrides: None,
            settings: ArgFlags::new(),
            val_delim: Some(DEFAULT_VAL_DELIM),
            default_val: None,
            disp_ord: NO_DISPLAY_ORDER,
            unified_ord: NO_DISPLAY_ORDER,
            r_unless: None,
        }
    }
}

impl<'n, 'e> OptBuilder<'n, 'e> {
    /// The specification of an option of which only the name is known yet.
    /// It names no switch: `short` or `long` is set before it is used.
    pub fn new(name: &'n str) -> (ob: Self)
        ensures
            ob@ == OptSpec::named(name@),
            ob.name == name,
            ob.validator is None,
    {
        OptBuilder { name: name, ..Default::default() }
    }
}

/// The names that building from `a` adds to the list of required arguments:
/// those that `a` requires, if `a` is itself required.
pub open spec fn propagated_requirements<'n, 'e>(a: Arg<'n, 'e>) -> Seq<&'e str> {
    if a.settings@.contains(ArgSettings::Required) {
        match a.requires {
            Some(names) => names@,
            None => Seq::empty(),
        }
    } else {
        Seq::empty()
    }
}

/// `Clone::clone` of std for an optional `Rc`. `Rc::clone` makes another
/// pointer to the same allocation, so where there is a validator, the copy
/// holds the same one.
#[verifier::external_body]
fn share_validator(validator: &Option<Rc<dyn Validator>>) -> (shared: Option<Rc<dyn Validator>>)
    ensures
        shared == *validator,
{
    validator.clone()
}

fn copy_aliases<'e>(aliases: &Option<Vec<(&'e str, bool)>>) -> (copy: Option<Vec<(&'e str, bool)>>)
    ensures
        match *aliases {
            Some(list) => copy is Some && copy->0@ == list@,
            None => copy is None,
        },
{
    match aliases {
        Some(list) => {
            let mut copy: Vec<(&'e str, bool)> = Vec::new();
            let mut i: usize = 0;
            while i < list.len()
                invariant
                    0 <= i <= list.len(),
                    copy@ == list@.take(i as int),
                decreases list.len() - i,
            {
                copy.push(list[i]);
                assert(copy@ =~= list@.take(i + 1));
                i += 1;
            }
            assert(copy@ =~= list@);
            Some(copy)
        },
        None => None,
    }
}

fn copy_names<'e>(names: &Option<Vec<&'e str>>) -> (copy: Option<Vec<&'e str>>)
    ensures
        match *names {
            Some(list) => copy is Some && copy->0@ == list@,
            None => copy is None,
        },
{
    match names {
        Some(list) => Some(list.clone()),
        None => None,
    }
}

fn copy_declared<'e>(names: &Option<Vec<&'e str>>) -> (copy: Option<Vec<&'e str>>)
    ensures
        texts_of(copy) == OptSpec::declared(texts_of(*names)),
        match copy {
            Some(list) => *names is Some && list@ == names->0@ && list@.len() > 0,
            None => *names is None || names->0@.len() == 0,
        },
{
    match names {
        Some(list) => if list.len() > 0 {
            Some(list.clone())
        } else {
            None
        },
        None => None,
    }
}

fn copy_val_names<'e>(val_names: &Option<VecMap<&'e str>>) -> (copy: Option<VecMap<&'e str>>)
    ensures
        held_names(copy) == held_names(*val_names),
{
    match val_names {
        Some(names) => Some(val_names_clone(names)),
        None => None,
    }
}

/// The number of values that an option takes, given how many values the
/// description names, if it names any, and how many it declares: more than
/// one name overrides what is declared.
pub fn infer_num_vals(named: Option<usize>, declared: Option<u64>) -> (num_vals: Option<u64>)
    ensures
        num_vals == OptSpec::arity(
            match named {
                Some(count) => Some(count as nat),
                None => None,
            },
            declared,
        ),
{
    match named {
        Some(count) => if count > 1 {
            Some(count as u64)
        } else {
            declared
        },
        None => declared,
    }
}

impl<'n, 'e> OptBuilder<'n, 'e> {
    /// Builds the specification of an option from its description, and adds
    /// to `reqs`, the list of arguments that are required whatever is given,
    /// those that a required description requires in turn.
    ///
    /// The result is well formed: in particular, a list of related arguments
    /// that the description holds empty is kept as absent.
    ///
    /// The description must name a short or a long switch.
    pub fn from_arg(a: &Arg<'n, 'e>, reqs: &mut Vec<&'e str>) -> (ob: Self)
        requires
            a.short is Some || a.long is Some,
        ensures
            ob@ == OptSpec::built_from(*a),
            ob@.wf(),
            ob.validator == a.validator,
            final(reqs)@ == old(reqs)@ + propagated_requirements(*a),
    {
        let mut ob = OptBuilder {
            name: a.name,
            short: a.short,
            long: a.long,
            aliases: copy_aliases(&a.aliases),
            help: a.help,
            num_vals: a.num_vals,
            min_vals: a.min_vals,
            max_vals: a.max_vals,
            val_names: copy_val_names(&a.val_names),
            val_delim: a.val_delim,
            blacklist: copy_declared(&a.blacklist),
            overrides: copy_declared(&a.overrides),
            requires: copy_declared(&a.requires),
            possible_vals: copy_names(&a.possible_vals),
            settings: a.settings,
            default_val: a.default_val,
            disp_ord: a.disp_ord,
            r_unless: copy_declared(&a.r_unless),
            ..Default::default()
        };
        // Where values are named, their number is the number of names
        let named = match &ob.val_names {
            Some(names) => Some(val_names_len(names)),
            None => None,
        };
        ob.num_vals = infer_num_vals(named, ob.num_vals);
        ob.validator = share_validator(&a.validator);
        // If the argument is required, so is all that it requires
        if a.is_set(ArgSettings::Required) {
            if let Some(names) = &a.requires {
                let mut i: usize = 0;
                while i < names.len()
                    invariant
                        0 <= i <= names.len(),
                        reqs@ == old(reqs)@ + names@.take(i as int),
                    decreases names.len() - i,
                {
                    reqs.push(names[i]);
                    assert(reqs@ =~= old(reqs)@ + names@.take(i + 1));
                    i += 1;
                }
                assert(names@.take(names.len() as int) =~= names@);
            }
        }
        assert(reqs@ =~= old(reqs)@ + propagated_requirements(*a));
        ob
    }

    /// The usage fragment of the option, such as `--long <name>...`.
    ///
    /// The option must have a short or a long switch.
    pub fn usage(&self) -> (out: String)
        requires
            self.short is Some || self.long is Some,
        ensures
            out@ == self@.usage(),
    {
        let multiple = self.settings.is_set(ArgSettings::Multiple);
        match &self.val_names {
            Some(names) => {
                let shown = value_names(names);
                usage_fragment(
                    self.name,
                    self.short,
                    self.long,
                    Some(&shown),
                    self.num_vals,
                    multiple,
                )
            },
            None => usage_fragment(self.name, self.short, self.long, None, self.num_vals, multiple),
        }
    }
}

impl<'n, 'e> Clone for OptBuilder<'n, 'e> {
    /// A copy that owns its lists and shares the validator.
    fn clone(&self) -> (copy: Self)
        ensures
            copy@ == self@,
            copy.validator == self.validator,
    {
        OptBuilder {
            name: self.name,
            short: self.short,
            long: self.long,
            aliases: copy_aliases(&self.aliases),
            help: self.help,
            blacklist: copy_names(&self.blacklist),
            overrides: copy_names(&self.overrides),
            requires: copy_names(&self.requires),
            settings: self.settings,
            disp_ord: self.disp_ord,
            unified_ord: self.unified_ord,
            num_vals: self.num_vals,
            min_vals: self.min_vals,
            max_vals: self.max_vals,
            val_names: copy_val_names(&self.val_names),
            val_delim: self.val_delim,
            possible_vals: copy_names(&self.possible_vals),
            default_val: self.default_val,
            validator: share_validator(&self.validator),
            r_unless: copy_names(&self.r_unless),
        }
    }
}

/// The names of the aliases that are marked visible, in the order of `aliases`.
pub open spec fn visible_aliases<'e>(aliases: Seq<(&'e str, bool)>) -> Seq<&'e str> {
    aliases.filter_map(
        |alias: (&'e str, bool)|
            if alias.1 {
                Some(alias.0)
            } else {
                None
            },
    )
}

/// What the accessor of a list of related arguments returns for `list`.
pub open spec fn lends<'e>(list: Option<Vec<&'e str>>, lent: Option<&[&'e str]>) -> bool {
    match list {
        Some(names) => lent is Some && lent->0@ == names@,
        None => lent is None,
    }
}

fn lend<'a, 'e>(list: &'a Option<Vec<&'e str>>) -> (lent: Option<&'a [&'e str]>)
    ensures
        lends(*list, lent),
{
    match list {
        Some(names) => Some(names.as_slice()),
        None => None,
    }
}

impl<'n, 'e> AnyArg<'n, 'e> for OptBuilder<'n, 'e> {
    fn name(&self) -> (name: &'n str)
        ensures
            name == self.name,
    {
        self.name
    }

    fn overrides(&self) -> (lent: Option<&[&'e str]>)
        ensures
            lends(self.overrides, lent),
    {
        lend(&self.overrides)
    }

    fn requirements(&self) -> (lent: Option<&[&'e str]>)
        ensures
            lends(self.requires, lent),
    {
        lend(&self.requires)
    }

    fn blacklist(&self) -> (lent: Option<&[&'e str]>)
        ensures
            lends(self.blacklist, lent),
    {
        lend(&self.blacklist)
    }

    fn required_unless(&self) -> (lent: Option<&[&'e str]>)
        ensures
            lends(self.r_unless, lent),
    {
        lend(&self.r_unless)
    }

    fn val_names(&self) -> (names: Option<&VecMap<&'e str>>)
        ensures
            match self.val_names {
                Some(held) => names == Some(&held),
                None => names is None,
            },
    {
        self.val_names.as_ref()
    }

    fn is_set(&self, s: ArgSettings) -> (on: bool)
        ensures
            on == self@.settings.contains(s),
    {
        self.settings.is_set(s)
    }

    /// An option is always given by a switch.
    fn has_switch(&self) -> (yes: bool)
        ensures
            yes,
    {
        true
    }

    fn set(&mut self, s: ArgSettings)
        ensures
            final(self)@ == (OptSpec { settings: old(self)@.settings.insert(s), ..old(self)@ }),
            final(self)@.wf() == old(self)@.wf(),
            final(self).validator == old(self).validator,
    {
        self.settings.set(s)
    }

    fn max_vals(&self) -> (count: Option<u64>)
        ensures
            count == self.max_vals,
    {
        self.max_vals
    }

    fn num_vals(&self) -> (count: Option<u64>)
        ensures
            count == self.num_vals,
    {
        self.num_vals
    }

    fn possible_vals(&self) -> (lent: Option<&[&'e str]>)
        ensures
            lends(self.possible_vals, lent),
    {
        lend(&self.possible_vals)
    }

    fn validator(&self) -> (validator: Option<&Rc<dyn Validator>>)
        ensures
            match self.validator {
                Some(held) => validator == Some(&held),
                None => validator is None,
            },
    {
        self.validator.as_ref()
    }

    fn min_vals(&self) -> (count: Option<u64>)
        ensures
            count == self.min_vals,
    {
        self.min_vals
    }

    fn short(&self) -> (short: Option<char>)
        ensures
            short == self.short,
    {
        self.short
    }

    fn long(&self) -> (long: Option<&'e str>)
        ensures
            long == self.long,
    {
        self.long
    }

    fn val_delim(&self) -> (delim: Option<char>)
        ensures
            delim == self.val_delim,
    {
        self.val_delim
    }

    /// An option always takes a value.
    fn takes_value(&self) -> (yes: bool)
        ensures
            yes,
    {
        true
    }

    fn help(&self) -> (help: Option<&'e str>)
        ensures
            help == self.help,
    {
        self.help
    }

    fn default_val(&self) -> (value: Option<&'n str>)
        ensures
            value == self.default_val,
    {
        self.default_val
    }

    /// An option always counts when the longest switch is looked for.
    fn longest_filter(&self) -> (yes: bool)
        ensures
            yes,
    {
        true
    }

    /// The aliases that are marked visible, in the order in which they were
    /// declared; `None` where no alias is visible, whether none was declared
    /// or all are hidden.
    fn aliases(&self) -> (shown: Option<Vec<&'e str>>)
        ensures
            match self.aliases {
                Some(list) => if visible_aliases(list@).len() > 0 {
                    shown is Some && shown->0@ == visible_aliases(list@)
                } else {
                    shown is None
                },
                None => shown is None,
            },
    {
        if let Some(list) = &self.aliases {
            let mut visible: Vec<&'e str> = Vec::new();
            let mut i: usize = 0;
            while i < list.len()
                invariant
                    0 <= i <= list.len(),
                    visible@ == visible_aliases(list@.take(i as int)),
                decreases list.len() - i,
            {
                let (name, is_visible) = list[i];
                assert(list@.take(i + 1).drop_last() =~= list@.take(i as int));
                if is_visible {
                    visible.push(name);
                }
                assert(visible@ =~= visible_aliases(list@.take(i + 1)));
                i += 1;
            }
            assert(list@.take(list.len() as int) =~= list@);
            if visible.is_empty() {
                None
            } else {
                Some(visible)
            }
        } else {
            None
        }
    }
}

impl<'n, 'e> DispOrder for OptBuilder<'n, 'e> {
    fn disp_ord(&self) -> (order: usize)
        ensures
            order == self.disp_ord,
    {
        self.disp_ord
    }
}

/// A specification built from a description that names a switch is well
/// formed, whatever else the description holds.
pub proof fn lemma_built_is_well_formed(a: Arg)
    requires
        a.short is Some || a.long is Some,
    ensures
        OptSpec::built_from(a).wf(),
{
}

/// A list of related arguments is kept as it is declared, but for the empty
/// list, which is kept as absent: what is kept is never present and empty.
pub proof fn lemma_declared_is_never_empty(list: Option<Seq<Seq<char>>>)
    ensures
        OptSpec::relation_declared(OptSpec::declared(list)),
        OptSpec::relation_declared(list) ==> OptSpec::declared(list) == list,
        OptSpec::declared(list) is Some <==> list is Some && list->0.len() > 0,
{
}

/// Where more than one value is named, the names decide how many values the
/// option takes, whatever number the description declares.
pub proof fn lemma_named_values_decide_arity(held: Map<nat, Seq<char>>, declared: Option<u64>)
    requires
        held.dom().len() > 1,
    ensures
        OptSpec::inferred_num_vals(Some(held), declared) == Some(held.dom().len() as u64),
        OptSpec::inferred_num_vals(Some(held), declared) == OptSpec::inferred_num_vals(
            Some(held),
            None,
        ),
{
}

/// Building twice from a required description adds its requirements twice,
/// in their order: nothing is left out because it is already there.
pub proof fn lemma_requirements_accumulate<'n, 'e>(reqs: Seq<&'e str>, a: Arg<'n, 'e>)
    requires
        a.settings@.contains(ArgSettings::Required),
        a.requires is Some,
    ensures
        propagated_requirements(a) == a.requires->0@,
        reqs + propagated_requirements(a) + propagated_requirements(a) == reqs + a.requires->0@
            + a.requires->0@,
        (reqs + propagated_requirements(a) + propagated_requirements(a)).len() == reqs.len() + 2
            * a.requires->0@.len(),
{
}

/// Building from a description that is not required leaves the list of
/// required arguments as it is.
pub proof fn lemma_optional_propagates_nothing<'n, 'e>(reqs: Seq<&'e str>, a: Arg<'n, 'e>)
    requires
        !a.settings@.contains(ArgSettings::Required),
    ensures
        reqs + propagated_requirements(a) == reqs,
{
    assert(reqs + propagated_requirements(a) =~= reqs);
}

/// The usage fragment does not depend on the aliases of an option.
pub proof fn lemma_usage_ignores_aliases(spec: OptSpec, aliases: Option<Seq<(Seq<char>, bool)>>)
    ensures
        (OptSpec { aliases, ..spec }).usage() == spec.usage(),
{
}

/// An option that names more than one value or none is shown in the same
/// way whether or not it may occur more than once: the mark of repetition
/// is for a single value slot.
pub proof fn lemma_usage_marks_single_slot_only(spec: OptSpec, count: usize)
    requires
        spec.val_names is Some,
        counts_entries(spec.val_names->0, count),
        count != 1,
    ensures
        (OptSpec { settings: spec.settings.insert(ArgSettings::Multiple), ..spec }).usage() == (
        OptSpec { settings: spec.settings.remove(ArgSettings::Multiple), ..spec }).usage(),
{
    lemma_names_in_order_len(spec.val_names->0, count);
    lemma_ellipsis_needs_single_slot(spec.name, spec.shown_val_names(), spec.num_vals);
}

/// Where every alias is hidden, none is visible.
pub proof fn lemma_hidden_aliases(aliases: Seq<(&str, bool)>)
    requires
        forall|i: int| 0 <= i < aliases.len() ==> !(#[trigger] aliases[i]).1,
    ensures
        visible_aliases(aliases).len() == 0,
    decreases aliases.len(),
{
    if aliases.len() > 0 {
        lemma_hidden_aliases(aliases.drop_last());
        assert(!aliases.last().1);
    }
}

/// Where one alias among several is visible, it is the only one shown.
pub proof fn lemma_single_visible_alias(aliases: Seq<(&str, bool)>, at: int)
    requires
        0 <= at < aliases.len(),
        forall|i: int| 0 <= i < aliases.len() ==> ((#[trigger] aliases[i]).1 <==> i == at),
    ensures
        visible_aliases(aliases) == seq![aliases[at].0],
    decreases aliases.len(),
{
    let before = aliases.drop_last();
    if at == aliases.len() - 1 {
        lemma_hidden_aliases(before);
        assert(aliases.last().1);
        assert(visible_aliases(aliases) =~= seq![aliases[at].0]);
    } else {
        assert(forall|i: int| 0 <= i < before.len() ==> before[i] == aliases[i]);
        lemma_single_visible_alias(before, at);
        assert(!aliases.last().1);
    }
}

} // verus!
