//! The declarative description of an argument, from which the specification
//! of an option is built.

use std::rc::Rc;
use vec_map::VecMap;
use vstd::prelude::*;
use crate::settings::{ArgFlags, ArgSettings};

verus! {

/// The display order of an argument for which none was declared: such
/// arguments are shown in the order in which they were declared.
pub const NO_DISPLAY_ORDER: usize = 999;

/// The character at which one token is split into values, unless another is declared.
pub const DEFAULT_VAL_DELIM: char = ',';

/// Judges whether a value given on the command line is acceptable.
///
/// A validator is attached to a description behind an `Rc`, so that every
/// specification built or cloned from it runs the same validator.
pub trait Validator {
    /// `Ok` if `value` is accepted, else the message to show to the user.
    fn validate(&self, value: String) -> Result<(), String>;
}

/// The description of one argument, as the application declares it.
pub struct Arg<'n, 'e> {
    /// The name that identifies the argument.
    pub name: &'n str,
    /// The short switch, as in `-s`.
    pub short: Option<char>,
    /// The long switch, as in `--long`.
    pub long: Option<&'e str>,
    /// Other long switches for the argument, each with whether it is shown.
    pub aliases: Option<Vec<(&'e str, bool)>>,
    /// The help text.
    pub help: Option<&'e str>,
    /// The arguments that this one conflicts with.
    pub blacklist: Option<Vec<&'e str>>,
    /// The values that are accepted, if the set is closed.
    pub possible_vals: Option<Vec<&'e str>>,
    /// The arguments that this one requires.
    pub requires: Option<Vec<&'e str>>,
    /// The exact number of values that one occurrence takes.
    pub num_vals: Option<u64>,
    /// The smallest number of values that one occurrence must take.
    pub min_vals: Option<u64>,
    /// The largest number of values that one occurrence may take.
    pub max_vals: Option<u64>,
    /// The names of the values, by position.
    pub val_names: Option<VecMap<&'e str>>,
    /// The validator of the values.
    pub validator: Option<Rc<dyn Validator>>,
    /// The arguments that this one overrides.
    pub overrides: Option<Vec<&'e str>>,
    /// The settings that are switched on.
    pub settings: ArgFlags,
    /// The character at which one token is split into values.
    pub val_delim: Option<char>,
    /// The value that stands in when none is given.
    pub default_val: Option<&'n str>,
    /// The place of the argument in help text.
    pub disp_ord: usize,
    /// The arguments in whose absence this one is required.
    pub r_unless: Option<Vec<&'e str>>,
}

impl<'n, 'e> Arg<'n, 'e> {
    /// The description of an argument of which only the name is declared:
    /// no switch, no relation to other arguments, no setting switched on,
    /// values split at `,`, and no display order.
    pub fn with_name(name: &'n str) -> (a: Self)
        ensures
            a.name == name,
            a.short is None && a.long is None && a.help is None && a.default_val is None,
            a.aliases is None && a.possible_vals is None && a.val_names is None,
            a.blacklist is None && a.requires is None && a.overrides is None && a.r_unless is None,
            a.num_vals is None && a.min_vals is None && a.max_vals is None,
            a.validator is None,
            a.settings@ == Set::<ArgSettings>::empty(),
            a.val_delim == Some(DEFAULT_VAL_DELIM),
            a.disp_ord == NO_DISPLAY_ORDER,
    {
        Arg {
            name,
            short: None,
            long: None,
            aliases: None,
            help: None,
            blacklist: None,
            possible_vals: None,
            requires: None,
            num_vals: None,
            min_vals: None,
            max_vals: None,
            val_names: None,
            validator: None,
            overrides: None,
            settings: ArgFlags::new(),
            val_delim: Some(DEFAULT_VAL_DELIM),
            default_val: None,
            disp_ord: NO_DISPLAY_ORDER,
            r_unless: None,
        }
    }

    /// Whether `s` is switched on for this argument.
    pub fn is_set(&self, s: ArgSettings) -> (on: bool)
        ensures
            on == self.settings@.contains(s),
    {
        self.settings.is_set(s)
    }
}

} // verus!
