//! The usage fragment of a value-taking option, as shown in help text:
//! the switch, then a placeholder for each value.

use vstd::prelude::*;
use vstd::string::StringExecFns;
use crate::text::{text_of, texts};

verus! {

/// `String::push` of std: appends the character to the end of the string.
pub assume_specification[ String::push ](s: &mut String, ch: char)
    ensures
        final(s)@ == old(s)@.push(ch),
;

/// The placeholder of one value: its name in angle brackets.
pub open spec fn placeholder(name: Seq<char>) -> Seq<char> {
    seq!['<'] + name + seq!['>']
}

/// The placeholders of `names`, separated by single spaces.
pub open spec fn placeholders(names: Seq<Seq<char>>) -> Seq<char>
    decreases names.len(),
{
    if names.len() == 0 {
        Seq::empty()
    } else if names.len() == 1 {
        placeholder(names[0])
    } else {
        placeholders(names.drop_last()) + seq![' '] + placeholder(names.last())
    }
}

/// The mark of a value slot that may be repeated.
pub open spec fn ellipsis() -> Seq<char> {
    seq!['.', '.', '.']
}

/// The switch of an option, with the space that follows it: `--long ` if
/// there is a long name, else `-s `.
pub open spec fn switch_text(short: Option<char>, long: Option<Seq<char>>) -> Seq<char>
    recommends
        short is Some || long is Some,
{
    match long {
        Some(l) => seq!['-', '-'] + l + seq![' '],
        None => seq!['-', short->0, ' '],
    }
}

/// The value part of a usage fragment. Value names, where present, are shown
/// one by one; else a count of values repeats the option's own name; else
/// the option's name stands once. A single slot is marked as repeatable when
/// `multiple` is set.
pub open spec fn values_text(
    name: Seq<char>,
    val_names: Option<Seq<Seq<char>>>,
    num_vals: Option<u64>,
    multiple: bool,
) -> Seq<char> {
    match val_names {
        Some(names) => placeholders(names) + if names.len() == 1 && multiple {
            ellipsis()
        } else {
            Seq::empty()
        },
        None => match num_vals {
            Some(count) => placeholders(Seq::new(count as nat, |i: int| name)),
            None => placeholder(name) + if multiple {
                ellipsis()
            } else {
                Seq::empty()
            },
        },
    }
}

/// The usage fragment of an option.
pub open spec fn usage_text(
    name: Seq<char>,
    short: Option<char>,
    long: Option<Seq<char>>,
    val_names: Option<Seq<Seq<char>>>,
    num_vals: Option<u64>,
    multiple: bool,
) -> Seq<char>
    recommends
        short is Some || long is Some,
{
    switch_text(short, long) + values_text(name, val_names, num_vals, multiple)
}

/// The texts of an optional list of value names.
pub open spec fn shown_names(val_names: Option<&Vec<&str>>) -> Option<Seq<Seq<char>>> {
    match val_names {
        Some(names) => Some(texts(names@)),
        None => None,
    }
}

fn push_placeholder(out: &mut String, name: &str)
    ensures
        final(out)@ == old(out)@ + placeholder(name@),
{
    out.push('<');
    out.append(name);
    out.push('>');
    assert(out@ =~= old(out)@ + placeholder(name@));
}

fn push_ellipsis(out: &mut String)
    ensures
        final(out)@ == old(out)@ + ellipsis(),
{
    out.push('.');
    out.push('.');
    out.push('.');
    assert(out@ =~= old(out)@ + ellipsis());
}

/// Writes the usage fragment of an option from its parts: `val_names` are
/// the value names in the order in which they are shown.
pub fn usage_fragment(
    name: &str,
    short: Option<char>,
    long: Option<&str>,
    val_names: Option<&Vec<&str>>,
    num_vals: Option<u64>,
    multiple: bool,
) -> (out: String)
    requires
        short is Some || long is Some,
    ensures
        out@ == usage_text(name@, short, text_of(long), shown_names(val_names), num_vals, multiple),
{
    let mut out = String::new();
    // The switch, such as --long or -s
    match long {
        Some(l) => {
            out.push('-');
            out.push('-');
            out.append(l);
            out.push(' ');
        },
        None => {
            out.push('-');
            out.push(short.unwrap());
            out.push(' ');
        },
    }
    assert(out@ =~= switch_text(short, text_of(long)));
    let ghost switch = out@;

    // The values, such as <name1> <name2>
    match val_names {
        Some(names) => {
            let ghost shown = texts(names@);
            let mut i: usize = 0;
            while i < names.len()
                invariant
                    0 <= i <= names.len(),
                    shown == texts(names@),
                    out@ == switch + placeholders(shown.take(i as int)),
                decreases names.len() - i,
            {
                if i > 0 {
                    out.push(' ');
                }
                push_placeholder(&mut out, names[i]);
                proof {
                    let next = shown.take(i + 1);
                    assert(next.drop_last() =~= shown.take(i as int));
                    assert(next.last() == names@[i as int]@);
                    assert(out@ =~= switch + placeholders(next));
                }
                i += 1;
            }
            assert(shown.take(names.len() as int) =~= shown);
            if multiple && names.len() == 1 {
                push_ellipsis(&mut out);
            }
            assert(out@ =~= switch + values_text(name@, Some(shown), num_vals, multiple));
        },
        None => match num_vals {
            Some(count) => {
                let mut i: u64 = 0;
                while i < count
                    invariant
                        0 <= i <= count,
                        out@ == switch + placeholders(Seq::new(i as nat, |k: int| name@)),
                    decreases count - i,
                {
                    if i > 0 {
                        out.push(' ');
                    }
                    push_placeholder(&mut out, name);
                    proof {
                        let next = Seq::new((i + 1) as nat, |k: int| name@);
                        assert(next.drop_last() =~= Seq::new(i as nat, |k: int| name@));
                        assert(next.last() == name@);
                        assert(out@ =~= switch + placeholders(next));
                    }
                    i += 1;
                }
            },
            None => {
                push_placeholder(&mut out, name);
                if multiple {
                    push_ellipsis(&mut out);
                }
                assert(out@ =~= switch + values_text(name@, None, None, multiple));
            },
        },
    }
    out
}

/// Only a single value slot is marked as repeatable: with no name or with
/// more than one, and with a count of values, the fragment is the same
/// whether or not the option may occur more than once.
pub proof fn lemma_ellipsis_needs_single_slot(
    name: Seq<char>,
    val_names: Option<Seq<Seq<char>>>,
    num_vals: Option<u64>,
)
    requires
        match val_names {
            Some(names) => names.len() != 1,
            None => num_vals is Some,
        },
    ensures
        values_text(name, val_names, num_vals, true) == values_text(
            name,
            val_names,
            num_vals,
            false,
        ),
{
}

/// Where values are named, the names are shown whatever the count of values.
pub proof fn lemma_names_take_precedence(
    name: Seq<char>,
    names: Seq<Seq<char>>,
    num_vals: Option<u64>,
    multiple: bool,
)
    ensures
        values_text(name, Some(names), num_vals, multiple) == values_text(
            name,
            Some(names),
            None,
            multiple,
        ),
{
}

} // verus!
