//! The boolean traits of an argument, kept as a set of flags.

use vstd::prelude::*;

verus! {

/// The traits that can be switched on for an argument.
#[derive(Debug, Clone, Copy, PartialEq, Eq, Structural)]
pub enum ArgSettings {
    /// The argument must be present.
    Required,
    /// The argument may occur, or take values, more than once.
    Multiple,
    /// The argument accepts an empty value.
    EmptyValues,
    /// The argument is handed down to every subcommand.
    Global,
    /// The argument is left out of help text.
    Hidden,
    /// The argument takes a value.
    TakesValue,
    /// One token is split into several values at the delimiter.
    UseValueDelimiter,
    /// The help text starts on the line after the argument.
    NextLineHelp,
    /// The argument is required unless all of the named others are present.
    RequiredUnlessAll,
}

impl ArgSettings {
    /// The position of this setting's bit in a flag set.
    pub open spec fn index(self) -> u16 {
        match self {
            ArgSettings::Required => 0,
            ArgSettings::Multiple => 1,
            ArgSettings::EmptyValues => 2,
            ArgSettings::Global => 3,
            ArgSettings::Hidden => 4,
            ArgSettings::TakesValue => 5,
            ArgSettings::UseValueDelimiter => 6,
            ArgSettings::NextLineHelp => 7,
            ArgSettings::RequiredUnlessAll => 8,
        }
    }

    /// The one-bit mask of this setting.
    pub open spec fn mask(self) -> u16 {
        1u16 << self.index()
    }

    fn bit(self) -> (m: u16)
        ensures
            m == self.mask(),
    {
        assert(1u16 << 0u16 == 0x001) by (bit_vector);
        assert(1u16 << 1u16 == 0x002) by (bit_vector);
        assert(1u16 << 2u16 == 0x004) by (bit_vector);
        assert(1u16 << 3u16 == 0x008) by (bit_vector);
        assert(1u16 << 4u16 == 0x010) by (bit_vector);
        assert(1u16 << 5u16 == 0x020) by (bit_vector);
        assert(1u16 << 6u16 == 0x040) by (bit_vector);
        assert(1u16 << 7u16 == 0x080) by (bit_vector);
        assert(1u16 << 8u16 == 0x100) by (bit_vector);
        match self {
            ArgSettings::Required => 0x001,
            ArgSettings::Multiple => 0x002,
            ArgSettings::EmptyValues => 0x004,
            ArgSettings::Global => 0x008,
            ArgSettings::Hidden => 0x010,
            ArgSettings::TakesValue => 0x020,
            ArgSettings::UseValueDelimiter => 0x040,
            ArgSettings::NextLineHelp => 0x080,
            ArgSettings::RequiredUnlessAll => 0x100,
        }
    }
}

/// A set of [`ArgSettings`], one bit for each.
#[derive(Debug, Clone, Copy)]
pub struct ArgFlags {
    bits: u16,
}

impl View for ArgFlags {
    type V = Set<ArgSettings>;

    /// The settings that are switched on.
    closed spec fn view(&self) -> Set<ArgSettings> {
        Set::new(|s: ArgSettings| self.bits & s.mask() != 0)
    }
}

proof fn lemma_set_bit(bits: u16, i: u16, j: u16)
    requires
        i < 16,
        j < 16,
    ensures
        ((bits | (1u16 << i)) & (1u16 << j) != 0) == (i == j || bits & (1u16 << j) != 0),
{
    assert(i < 16 && j < 16 ==> (((bits | (1u16 << i)) & (1u16 << j) != 0) == (i == j || bits & (
        1u16 << j) != 0))) by (bit_vector);
}

proof fn lemma_clear_bit(bits: u16, i: u16, j: u16)
    requires
        i < 16,
        j < 16,
    ensures
        ((bits & !(1u16 << i)) & (1u16 << j) != 0) == (i != j && bits & (1u16 << j) != 0),
{
    assert(i < 16 && j < 16 ==> (((bits & !(1u16 << i)) & (1u16 << j) != 0) == (i != j && bits & (
        1u16 << j) != 0))) by (bit_vector);
}

impl ArgFlags {
    /// A flag set with every setting switched off.
    pub fn new() -> (flags: ArgFlags)
        ensures
            flags@ == Set::<ArgSettings>::empty(),
    {
        let flags = ArgFlags { bits: 0 };
        assert forall|s: ArgSettings| !flags@.contains(s) by {
            let m = s.mask();
            assert(0u16 & m == 0) by (bit_vector);
        }
        assert(flags@ =~= Set::<ArgSettings>::empty());
        flags
    }

    /// Switches `s` on and leaves every other setting as it is.
    pub fn set(&mut self, s: ArgSettings)
        ensures
            final(self)@ == old(self)@.insert(s),
    {
        let ghost before = self.bits;
        self.bits = self.bits | s.bit();
        assert forall|t: ArgSettings| self@.contains(t) == old(self)@.insert(s).contains(t) by {
            lemma_set_bit(before, s.index(), t.index());
        }
        assert(self@ =~= old(self)@.insert(s));
    }

    /// Switches `s` off and leaves every other setting as it is.
    pub fn unset(&mut self, s: ArgSettings)
        ensures
            final(self)@ == old(self)@.remove(s),
    {
        let ghost before = self.bits;
        self.bits = self.bits & !s.bit();
        assert forall|t: ArgSettings| self@.contains(t) == old(self)@.remove(s).contains(t) by {
            lemma_clear_bit(before, s.index(), t.index());
        }
        assert(self@ =~= old(self)@.remove(s));
    }

    /// Whether `s` is switched on.
    pub fn is_set(&self, s: ArgSettings) -> (on: bool)
        ensures
            on == self@.contains(s),
    {
        self.bits & s.bit() != 0
    }
}

impl Default for ArgFlags {
    fn default() -> (flags: ArgFlags)
        ensures
            flags@ == Set::<ArgSettings>::empty(),
    {
        ArgFlags::new()
    }
}

} // verus!
