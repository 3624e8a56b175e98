//! Selecting positions of a sequence in order.
//!
//! Buckets of fields, constructor arguments and payload parameters are all
//! "the items that meet a condition, in declaration order". This module
//! states that once, over a mask of booleans.

use vstd::prelude::*;

verus! {

/// The positions at which `mask` holds, in increasing order.
pub open spec fn positions(mask: Seq<bool>) -> Seq<int>
    decreases mask.len(),
{
    if mask.len() == 0 {
        Seq::empty()
    } else {
        let before = positions(mask.drop_last());
        if mask.last() {
            before.push(mask.len() - 1)
        } else {
            before
        }
    }
}

/// Lengthening a mask by one item adds its position if the item holds.
pub proof fn lemma_positions_push(mask: Seq<bool>, last: bool)
    ensures
        positions(mask.push(last)) == if last {
            positions(mask).push(mask.len() as int)
        } else {
            positions(mask)
        },
{
    assert(mask.push(last).drop_last() =~= mask);
}

/// One more item of a mask taken into account.
pub proof fn lemma_positions_take(mask: Seq<bool>, i: int)
    requires
        0 <= i < mask.len(),
    ensures
        positions(mask.take(i + 1)) == if mask[i] {
            positions(mask.take(i)).push(i)
        } else {
            positions(mask.take(i))
        },
{
    assert(mask.take(i + 1) =~= mask.take(i).push(mask[i]));
    lemma_positions_push(mask.take(i), mask[i]);
}

/// There are at most as many positions as the mask has items.
pub proof fn lemma_positions_len(mask: Seq<bool>)
    ensures
        positions(mask).len() <= mask.len(),
    decreases mask.len(),
{
    if mask.len() > 0 {
        lemma_positions_len(mask.drop_last());
    }
}

/// Every selected position lies in the mask, and the mask holds there.
pub proof fn lemma_positions_sound(mask: Seq<bool>, j: int)
    requires
        0 <= j < positions(mask).len(),
    ensures
        0 <= positions(mask)[j] < mask.len(),
        mask[positions(mask)[j]],
    decreases mask.len(),
{
    if mask.len() > 0 {
        let before = positions(mask.drop_last());
        if j < before.len() {
            lemma_positions_sound(mask.drop_last(), j);
        }
    }
}

/// The selected positions increase strictly: declaration order is kept and
/// no position is selected twice.
pub proof fn lemma_positions_increasing(mask: Seq<bool>, j: int, k: int)
    requires
        0 <= j < k < positions(mask).len(),
    ensures
        positions(mask)[j] < positions(mask)[k],
    decreases mask.len(),
{
    if mask.len() > 0 {
        let before = positions(mask.drop_last());
        if k < before.len() {
            lemma_positions_increasing(mask.drop_last(), j, k);
        } else {
            lemma_positions_sound(mask.drop_last(), j);
        }
    }
}

/// Every position at which the mask holds is selected.
pub proof fn lemma_positions_complete(mask: Seq<bool>, i: int)
    requires
        0 <= i < mask.len(),
        mask[i],
    ensures
        positions(mask).contains(i),
    decreases mask.len(),
{
    let before = positions(mask.drop_last());
    if i == mask.len() - 1 {
        assert(positions(mask)[before.len() as int] == i);
    } else {
        lemma_positions_complete(mask.drop_last(), i);
        let j = choose|j: int| 0 <= j < before.len() && before[j] == i;
        assert(positions(mask)[j] == i);
    }
}

/// Where nothing holds, nothing is selected.
pub proof fn lemma_positions_none(mask: Seq<bool>)
    requires
        forall|i: int| 0 <= i < mask.len() ==> !mask[i],
    ensures
        positions(mask) == Seq::<int>::empty(),
    decreases mask.len(),
{
    if mask.len() > 0 {
        lemma_positions_none(mask.drop_last());
    }
}

/// The positions selected among the first `j` items are the first of those
/// selected in the whole mask.
pub proof fn lemma_positions_prefix(mask: Seq<bool>, j: int)
    requires
        0 <= j <= mask.len(),
    ensures
        positions(mask.take(j)).len() <= positions(mask).len(),
        positions(mask.take(j)) == positions(mask).take(positions(mask.take(j)).len() as int),
    decreases mask.len(),
{
    if j == mask.len() {
        assert(mask.take(j) =~= mask);
        assert(positions(mask).take(positions(mask).len() as int) =~= positions(mask));
    } else {
        let shorter = mask.drop_last();
        assert(shorter.take(j) =~= mask.take(j));
        lemma_positions_prefix(shorter, j);
        let n = positions(mask.take(j)).len() as int;
        assert(positions(mask).take(n) =~= positions(shorter).take(n));
    }
}

/// An item at which the mask holds is selected at the rank it has among the
/// items before it.
pub proof fn lemma_positions_rank(mask: Seq<bool>, i: int)
    requires
        0 <= i < mask.len(),
        mask[i],
    ensures
        positions(mask.take(i)).len() < positions(mask).len(),
        positions(mask)[positions(mask.take(i)).len() as int] == i,
{
    lemma_positions_take(mask, i);
    lemma_positions_prefix(mask, i + 1);
    let r = positions(mask.take(i)).len() as int;
    assert(positions(mask.take(i + 1))[r] == i);
}

} // verus!
