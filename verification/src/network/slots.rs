//! Which slots of the connection table are taken, and which one comes next.
//!
//! The table is looked at here as a sequence of flags, one per slot, `true`
//! where a connection lives. Slot identifiers are indices into it.

use vstd::prelude::*;

verus! {

/// Identifier of a connection: the index of its slot in the table.
pub type Id = u8;

/// A table never has more slots than there are identifiers.
pub const MAX_SLOTS: usize = 256;

/// `gap` is where the next connection goes: every slot below it is taken,
/// and it is itself free, or it is the first index past the end.
pub open spec fn first_gap(slots: Seq<bool>, gap: int) -> bool {
    &&& 0 <= gap <= slots.len()
    &&& forall|j: int| 0 <= j < gap ==> slots[j]
    &&& gap < slots.len() ==> !slots[gap]
}

/// The table after slot `slot` was taken. A slot past the end makes the
/// table grow up to it; the slots in between stay free.
pub open spec fn occupy(slots: Seq<bool>, slot: int) -> Seq<bool> {
    if slot < slots.len() {
        slots.update(slot, true)
    } else {
        Seq::new(
            (slot + 1) as nat,
            |j: int|
                if j < slots.len() {
                    slots[j]
                } else {
                    j == slot
                },
        )
    }
}

/// The table after slot `slot` was given up. The table keeps its length.
pub open spec fn vacate(slots: Seq<bool>, slot: int) -> Seq<bool> {
    if 0 <= slot < slots.len() {
        slots.update(slot, false)
    } else {
        slots
    }
}

/// A table of `count` slots, all taken.
pub open spec fn dense(count: nat) -> Seq<bool> {
    Seq::new(count, |j: int| true)
}

/// The slot that the next connection gets.
pub open spec fn next_slot(slots: Seq<bool>) -> int {
    choose|gap: int| first_gap(slots, gap)
}

/// The table after `count` connections were accepted one after the other
/// into an empty table, each into the slot that was next, none of them
/// leaving.
pub open spec fn accepted(count: nat) -> Seq<bool>
    decreases count,
{
    if count == 0 {
        Seq::empty()
    } else {
        let before = accepted((count - 1) as nat);
        occupy(before, next_slot(before))
    }
}

proof fn gap_in_prefix(slots: Seq<bool>, upto: int) -> (gap: int)
    requires
        0 <= upto <= slots.len(),
    ensures
        0 <= gap <= upto,
        forall|j: int| 0 <= j < gap ==> slots[j],
        gap < upto ==> !slots[gap],
    decreases upto,
{
    if upto == 0 {
        0
    } else {
        let before = gap_in_prefix(slots, upto - 1);
        if before == upto - 1 && slots[upto - 1] {
            upto
        } else {
            before
        }
    }
}

/// At most one slot can be next.
pub proof fn first_gap_is_unique(slots: Seq<bool>, one: int, other: int)
    requires
        first_gap(slots, one),
        first_gap(slots, other),
    ensures
        one == other,
{
    if one < other {
        assert(slots[one]);
    } else if other < one {
        assert(slots[other]);
    }
}

/// Every table has a slot that is next.
pub proof fn next_slot_is_first_gap(slots: Seq<bool>)
    ensures
        first_gap(slots, next_slot(slots)),
{
    let gap = gap_in_prefix(slots, slots.len() as int);
    assert(first_gap(slots, gap));
}

/// Slot reuse: once the connection in slot `freed` has left, the next
/// connection gets a slot no higher than `freed`, and exactly `freed` where
/// every slot below it is taken. With `freed == 0` it gets slot 0.
pub proof fn slot_is_reused(slots: Seq<bool>, freed: int, gap: int)
    requires
        0 <= freed < slots.len(),
        first_gap(vacate(slots, freed), gap),
    ensures
        gap <= freed,
        (forall|j: int| 0 <= j < freed ==> slots[j]) ==> gap == freed,
{
    let after = vacate(slots, freed);
    if freed < gap {
        assert(after[freed]);
    }
}

/// Growth without leavers: while no connection leaves, the table stays
/// dense, so the connection accepted after `count` others gets slot `count`;
/// the Nth one gets `N - 1`. A table holds this up to `MAX_SLOTS`
/// connections: after that no identifier is left to give.
pub proof fn slots_grow_in_order(count: nat)
    ensures
        accepted(count) == dense(count),
        next_slot(accepted(count)) == count,
    decreases count,
{
    if count > 0 {
        slots_grow_in_order((count - 1) as nat);
        assert(occupy(dense((count - 1) as nat), count - 1) =~= dense(count));
    }
    assert(first_gap(dense(count), count as int));
    next_slot_is_first_gap(dense(count));
    first_gap_is_unique(dense(count), count as int, next_slot(dense(count)));
}

} // verus!
