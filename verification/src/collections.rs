//! Hash sets with the Fx hasher, as the logic uses them.
//!
//! The sets are those of the standard library, built with the hasher of
//! the `fxhash` crate. The verifier does not look into them: what a set
//! holds has a name here, and each operation that the logic uses is stated
//! over that name and taken on trust. The items are integers and pairs of
//! integers, whose equality and hashing the standard library defines.

use fxhash::FxHashSet;
use vstd::prelude::*;

verus! {

#[verifier::external_type_specification]
#[verifier::external_body]
pub struct ExFxHasher(fxhash::FxHasher);

#[verifier::external_type_specification]
#[verifier::external_body]
#[verifier::reject_recursive_types(H)]
pub struct ExBuildHasherDefault<H>(std::hash::BuildHasherDefault<H>);

/// The cells that a set of cells holds.
pub uninterp spec fn cells_of(s: FxHashSet<(i32, i32)>) -> Set<(i32, i32)>;

/// The identifiers that a set of identifiers holds.
pub uninterp spec fn ids_of(s: FxHashSet<u128>) -> Set<u128>;

/// The handles, as pairs of index and generation, that a set of handles
/// holds.
pub uninterp spec fn handles_of(s: FxHashSet<(u32, u32)>) -> Set<(u32, u32)>;

/// `FxHashSet::default` for cells: a set that holds nothing.
#[verifier::external_body]
pub(crate) fn cells_new() -> (s: FxHashSet<(i32, i32)>)
    ensures
        cells_of(s) == Set::<(i32, i32)>::empty(),
{
    FxHashSet::default()
}

/// `HashSet::is_empty` for cells: whether the set holds nothing.
#[verifier::external_body]
pub(crate) fn cells_is_empty(s: &FxHashSet<(i32, i32)>) -> (b: bool)
    ensures
        b == (cells_of(*s) == Set::<(i32, i32)>::empty()),
{
    s.is_empty()
}

/// `HashSet::len` for cells: how many cells the set holds.
#[verifier::external_body]
pub(crate) fn cells_len(s: &FxHashSet<(i32, i32)>) -> (n: usize)
    ensures
        n == cells_of(*s).len(),
{
    s.len()
}

/// `HashSet::insert` for cells: the set holds `cell` afterwards, and what
/// it held; the result says whether `cell` is new to it.
#[verifier::external_body]
pub(crate) fn cells_insert(s: &mut FxHashSet<(i32, i32)>, cell: (i32, i32)) -> (fresh: bool)
    ensures
        cells_of(*final(s)) == cells_of(*old(s)).insert(cell),
        fresh == !cells_of(*old(s)).contains(cell),
{
    s.insert(cell)
}

/// `HashSet::clear` for cells: the set holds nothing afterwards.
#[verifier::external_body]
pub(crate) fn cells_clear(s: &mut FxHashSet<(i32, i32)>)
    ensures
        cells_of(*final(s)) == Set::<(i32, i32)>::empty(),
{
    s.clear()
}

/// `HashSet::iter` for cells: every cell of the set once, in an order that
/// is not stated.
#[verifier::external_body]
pub(crate) fn cells_items(s: &FxHashSet<(i32, i32)>) -> (v: Vec<(i32, i32)>)
    ensures
        v@.no_duplicates(),
        v@.to_set() == cells_of(*s),
{
    s.iter().copied().collect()
}

/// `FxHashSet::default` for identifiers: a set that holds nothing.
#[verifier::external_body]
pub(crate) fn ids_new() -> (s: FxHashSet<u128>)
    ensures
        ids_of(s) == Set::<u128>::empty(),
{
    FxHashSet::default()
}

/// `HashSet::insert` for identifiers: the set holds `id` afterwards, and
/// what it held; the result says whether `id` is new to it.
#[verifier::external_body]
pub(crate) fn ids_insert(s: &mut FxHashSet<u128>, id: u128) -> (fresh: bool)
    ensures
        ids_of(*final(s)) == ids_of(*old(s)).insert(id),
        fresh == !ids_of(*old(s)).contains(id),
{
    s.insert(id)
}

/// `HashSet::remove` for identifiers: the set holds what it held but for
/// `id`; the result says whether it held `id`.
#[verifier::external_body]
pub(crate) fn ids_remove(s: &mut FxHashSet<u128>, id: u128) -> (found: bool)
    ensures
        ids_of(*final(s)) == ids_of(*old(s)).remove(id),
        found == ids_of(*old(s)).contains(id),
{
    s.remove(&id)
}

/// `HashSet::contains` for identifiers.
#[verifier::external_body]
pub(crate) fn ids_contains(s: &FxHashSet<u128>, id: u128) -> (b: bool)
    ensures
        b == ids_of(*s).contains(id),
{
    s.contains(&id)
}

/// `HashSet::iter` for identifiers: every identifier of the set once, in an
/// order that is not stated.
#[verifier::external_body]
pub(crate) fn ids_items(s: &FxHashSet<u128>) -> (v: Vec<u128>)
    ensures
        v@.no_duplicates(),
        v@.to_set() == ids_of(*s),
{
    s.iter().copied().collect()
}

/// `FxHashSet::default` for handles: a set that holds nothing.
#[verifier::external_body]
pub(crate) fn handles_new() -> (s: FxHashSet<(u32, u32)>)
    ensures
        handles_of(s) == Set::<(u32, u32)>::empty(),
{
    FxHashSet::default()
}

/// `HashSet::insert` for handles: the set holds `h` afterwards, and what
/// it held; the result says whether `h` is new to it.
#[verifier::external_body]
pub(crate) fn handles_insert(s: &mut FxHashSet<(u32, u32)>, h: (u32, u32)) -> (fresh: bool)
    ensures
        handles_of(*final(s)) == handles_of(*old(s)).insert(h),
        fresh == !handles_of(*old(s)).contains(h),
{
    s.insert(h)
}

/// `HashSet::remove` for handles: the set holds what it held but for `h`;
/// the result says whether it held `h`.
#[verifier::external_body]
pub(crate) fn handles_remove(s: &mut FxHashSet<(u32, u32)>, h: (u32, u32)) -> (found: bool)
    ensures
        handles_of(*final(s)) == handles_of(*old(s)).remove(h),
        found == handles_of(*old(s)).contains(h),
{
    s.remove(&h)
}

/// `HashSet::contains` for handles.
#[verifier::external_body]
pub(crate) fn handles_contains(s: &FxHashSet<(u32, u32)>, h: (u32, u32)) -> (b: bool)
    ensures
        b == handles_of(*s).contains(h),
{
    s.contains(&h)
}

/// `HashSet::iter` for handles: every handle of the set once, in an order
/// that is not stated.
#[verifier::external_body]
pub(crate) fn handles_items(s: &FxHashSet<(u32, u32)>) -> (v: Vec<(u32, u32)>)
    ensures
        v@.no_duplicates(),
        v@.to_set() == handles_of(*s),
{
    s.iter().copied().collect()
}

} // verus!
