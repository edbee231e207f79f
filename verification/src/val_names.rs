//! The placeholder names of an option's values, keyed by position.
//!
//! The names are kept in a `vec_map::VecMap`. This module states what the
//! library relies on from that map and derives from it the names in the order
//! in which a usage fragment shows them.

use vec_map::VecMap;
use vstd::prelude::*;
use crate::text::texts;

verus! {

/// `vec_map::VecMap`, a map from small integer keys to values.
#[verifier::external_type_specification]
#[verifier::external_body]
#[verifier::reject_recursive_types(V)]
pub struct ExVecMap<V>(VecMap<V>);

/// What a map of value names holds: the placeholder at each occupied position.
pub uninterp spec fn val_names_view(names: VecMap<&str>) -> Map<nat, Seq<char>>;

/// `count` is the number of entries of `held`, which are finitely many and
/// all at positions that a `usize` can index.
pub open spec fn counts_entries(held: Map<nat, Seq<char>>, count: usize) -> bool {
    &&& held.dom().finite()
    &&& held.dom().len() == count
    &&& forall|k: nat| held.dom().contains(k) ==> k <= usize::MAX
}

/// `entries` lists `held`: every entry once, in ascending order of position.
pub open spec fn lists_entries(held: Map<nat, Seq<char>>, entries: Seq<(usize, &str)>) -> bool {
    &&& forall|i: int, j: int|
        0 <= i < j < entries.len() ==> (#[trigger] entries[i]).0 < (#[trigger] entries[j]).0
    &&& forall|i: int|
        0 <= i < entries.len() ==> held.contains_pair(
            (#[trigger] entries[i]).0 as nat,
            entries[i].1@,
        )
    &&& forall|k: nat| #[trigger]
        held.dom().contains(k) ==> exists|i: int|
            0 <= i < entries.len() && (#[trigger] entries[i]).0 == k
}

/// `VecMap::len`: the number of entries in the map.
#[verifier::external_body]
pub(crate) fn val_names_len(names: &VecMap<&str>) -> (count: usize)
    ensures
        counts_entries(val_names_view(*names), count),
{
    names.len()
}

/// `VecMap::clone`: a map that holds the same entries.
#[verifier::external_body]
pub(crate) fn val_names_clone<'e>(names: &VecMap<&'e str>) -> (copy: VecMap<&'e str>)
    ensures
        val_names_view(copy) == val_names_view(*names),
{
    names.clone()
}

/// `VecMap::iter`: all key-value pairs, in ascending order of the keys.
#[verifier::external_body]
pub(crate) fn val_names_entries<'e>(names: &VecMap<&'e str>) -> (entries: Vec<(usize, &'e str)>)
    ensures
        lists_entries(val_names_view(*names), entries@),
{
    names.iter().map(|(position, name)| (position, *name)).collect()
}

/// The names held at positions below `bound`, in ascending order of position.
pub open spec fn names_below(held: Map<nat, Seq<char>>, bound: nat) -> Seq<Seq<char>>
    decreases bound,
{
    if bound == 0 {
        Seq::empty()
    } else {
        let position = (bound - 1) as nat;
        let before = names_below(held, position);
        if held.dom().contains(position) {
            before.push(held[position])
        } else {
            before
        }
    }
}

/// All names of `held`, in ascending order of position.
pub open spec fn names_in_order(held: Map<nat, Seq<char>>) -> Seq<Seq<char>> {
    names_below(held, (usize::MAX + 1) as nat)
}

/// Positions that hold nothing add nothing: if no position in `lo..hi` is
/// occupied, the names below `hi` are the names below `lo`.
pub proof fn lemma_names_below_gap(held: Map<nat, Seq<char>>, lo: nat, hi: nat)
    requires
        lo <= hi,
        forall|k: nat| lo <= k < hi ==> !held.dom().contains(k),
    ensures
        names_below(held, hi) == names_below(held, lo),
    decreases hi - lo,
{
    if lo < hi {
        lemma_names_below_gap(held, lo, (hi - 1) as nat);
    }
}

/// The position just after entry `upto - 1` of a listing, or 0 before the first.
spec fn bound_after(entries: Seq<(usize, &str)>, upto: int) -> nat {
    if upto <= 0 {
        0
    } else {
        (entries[upto - 1].0 + 1) as nat
    }
}

proof fn lemma_listing_prefix(held: Map<nat, Seq<char>>, entries: Seq<(usize, &str)>, upto: int)
    requires
        lists_entries(held, entries),
        0 <= upto <= entries.len(),
    ensures
        names_below(held, bound_after(entries, upto)) == Seq::new(
            upto as nat,
            |i: int| entries[i].1@,
        ),
    decreases upto,
{
    let listed = Seq::new(upto as nat, |i: int| entries[i].1@);
    if upto == 0 {
        assert(names_below(held, 0) =~= listed);
    } else {
        let last = entries[upto - 1];
        let lo = bound_after(entries, upto - 1);
        lemma_listing_prefix(held, entries, upto - 1);
        assert(lo <= last.0) by {
            if upto - 1 > 0 {
                assert(entries[upto - 2].0 < entries[upto - 1].0);
            }
        }
        assert forall|k: nat| lo <= k < last.0 implies !held.dom().contains(k) by {
            if held.dom().contains(k) {
                let i = choose|i: int| 0 <= i < entries.len() && (#[trigger] entries[i]).0 == k;
                if i < upto - 1 {
                    if i < upto - 2 {
                        assert(entries[i].0 < entries[upto - 2].0);
                    }
                } else if i > upto - 1 {
                    assert(entries[upto - 1].0 < entries[i].0);
                }
            }
        }
        lemma_names_below_gap(held, lo, last.0 as nat);
        assert(held.contains_pair(last.0 as nat, last.1@));
        assert(names_below(held, (last.0 + 1) as nat) == names_below(held, last.0 as nat).push(
            held[last.0 as nat],
        ));
        assert(names_below(held, bound_after(entries, upto)) =~= listed);
    }
}

/// A listing of a map gives its names in order.
pub proof fn lemma_listing_names(held: Map<nat, Seq<char>>, entries: Seq<(usize, &str)>)
    requires
        lists_entries(held, entries),
    ensures
        names_in_order(held) == Seq::new(entries.len(), |i: int| entries[i].1@),
{
    let n = entries.len() as int;
    let top = (usize::MAX + 1) as nat;
    lemma_listing_prefix(held, entries, n);
    let lo = bound_after(entries, n);
    assert forall|k: nat| lo <= k < top implies !held.dom().contains(k) by {
        if held.dom().contains(k) {
            let i = choose|i: int| 0 <= i < entries.len() && (#[trigger] entries[i]).0 == k;
            if i < n - 1 {
                assert(entries[i].0 < entries[n - 1].0);
            }
        }
    }
    lemma_names_below_gap(held, lo, top);
}

/// The placeholder names of `names`, in ascending order of position.
pub fn value_names<'e>(names: &VecMap<&'e str>) -> (ordered: Vec<&'e str>)
    ensures
        texts(ordered@) == names_in_order(val_names_view(*names)),
{
    let entries = val_names_entries(names);
    let mut ordered: Vec<&'e str> = Vec::new();
    let mut i: usize = 0;
    while i < entries.len()
        invariant
            0 <= i <= entries.len(),
            ordered@.len() == i,
            forall|j: int| 0 <= j < i ==> ordered@[j] == entries@[j].1,
        decreases entries.len() - i,
    {
        ordered.push(entries[i].1);
        i += 1;
    }
    proof {
        lemma_listing_names(val_names_view(*names), entries@);
        assert(texts(ordered@) =~= Seq::new(entries@.len(), |i: int| entries@[i].1@));
    }
    ordered
}

/// The occupied positions of `held` below `bound`.
spec fn positions_below(held: Map<nat, Seq<char>>, bound: nat) -> Set<nat> {
    held.dom().intersect(Set::new(|k: nat| k < bound))
}

proof fn lemma_names_below_len(held: Map<nat, Seq<char>>, bound: nat)
    requires
        held.dom().finite(),
    ensures
        positions_below(held, bound).finite(),
        names_below(held, bound).len() == positions_below(held, bound).len(),
    decreases bound,
{
    if bound == 0 {
        assert(positions_below(held, bound) =~= Set::<nat>::empty());
    } else {
        let position = (bound - 1) as nat;
        lemma_names_below_len(held, position);
        if held.dom().contains(position) {
            assert(positions_below(held, bound) =~= positions_below(held, position).insert(
                position,
            ));
        } else {
            assert(positions_below(held, bound) =~= positions_below(held, position));
        }
    }
}

/// There are as many names in order as the map has entries.
pub proof fn lemma_names_in_order_len(held: Map<nat, Seq<char>>, count: usize)
    requires
        counts_entries(held, count),
    ensures
        names_in_order(held).len() == count,
{
    let top = (usize::MAX + 1) as nat;
    lemma_names_below_len(held, top);
    assert(positions_below(held, top) =~= held.dom());
}

} // verus!
