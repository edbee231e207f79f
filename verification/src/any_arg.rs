//! What every kind of argument specification answers, so that matching,
//! validation and help generation can treat options, flags and positional
//! arguments alike.

use std::rc::Rc;
use vec_map::VecMap;
use vstd::prelude::*;
use crate::arg::Validator;
use crate::settings::ArgSettings;

verus! {

/// The questions that can be asked of any argument specification.
pub trait AnyArg<'n, 'e> {
    /// The name that identifies the argument.
    fn name(&self) -> &'n str;

    /// The arguments that this one overrides, if any were declared.
    fn overrides(&self) -> Option<&[&'e str]>;

    /// The aliases that are shown to the user, or `None` if there is none to show.
    fn aliases(&self) -> Option<Vec<&'e str>>;

    /// The arguments that this one requires, if any were declared.
    fn requirements(&self) -> Option<&[&'e str]>;

    /// The arguments that this one conflicts with, if any were declared.
    fn blacklist(&self) -> Option<&[&'e str]>;

    /// The arguments in whose absence this one is required, if any were declared.
    fn required_unless(&self) -> Option<&[&'e str]>;

    /// Whether `s` is switched on.
    fn is_set(&self, s: ArgSettings) -> bool;

    /// Switches `s` on.
    fn set(&mut self, s: ArgSettings);

    /// Whether the argument is given by a switch.
    fn has_switch(&self) -> bool;

    /// The largest number of values that one occurrence may take.
    fn max_vals(&self) -> Option<u64>;

    /// The smallest number of values that one occurrence must take.
    fn min_vals(&self) -> Option<u64>;

    /// The exact number of values that one occurrence takes.
    fn num_vals(&self) -> Option<u64>;

    /// The values that are accepted, if the set is closed.
    fn possible_vals(&self) -> Option<&[&'e str]>;

    /// The validator of the argument's values.
    fn validator(&self) -> Option<&Rc<dyn Validator>>;

    /// The short switch.
    fn short(&self) -> Option<char>;

    /// The long switch.
    fn long(&self) -> Option<&'e str>;

    /// The character at which one token is split into values.
    fn val_delim(&self) -> Option<char>;

    /// Whether the argument takes a value.
    fn takes_value(&self) -> bool;

    /// The names of the argument's values, by position.
    fn val_names(&self) -> Option<&VecMap<&'e str>>;

    /// The help text.
    fn help(&self) -> Option<&'e str>;

    /// The value that stands in when none is given.
    fn default_val(&self) -> Option<&'n str>;

    /// Whether the argument counts when the longest switch is looked for.
    fn longest_filter(&self) -> bool;
}

/// The place of an argument in help text.
pub trait DispOrder {
    /// The display order of the argument.
    fn disp_ord(&self) -> usize;
}

} // verus!
