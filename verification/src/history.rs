use vstd::prelude::*;

verus! {

/// The value a flag cell holds once a sequence of writes has completed.
///
/// Writers hold the cell exclusively, so the writes to one cell are totally
/// ordered and its history is the initial value followed by the written
/// values in that order. A read observes the value left by the latest write
/// that completed before it was granted shared access.
pub open spec fn value_after(initial: bool, writes: Seq<bool>) -> bool {
    if writes.len() == 0 {
        initial
    } else {
        writes.last()
    }
}

/// Read-after-write: once a write of `v` has completed and no later write
/// has, a read observes `v` — never a value from earlier in the history.
pub proof fn lemma_read_after_write(initial: bool, writes: Seq<bool>, v: bool)
    ensures
        value_after(initial, writes.push(v)) == v,
{
    assert(writes.push(v).last() == v);
}

/// Only the latest completed write matters: neither the initial value nor
/// any overwritten value can resurface later.
pub proof fn lemma_latest_write_wins(initial_a: bool, initial_b: bool, writes: Seq<bool>)
    requires
        writes.len() > 0,
    ensures
        value_after(initial_a, writes) == writes.last(),
        value_after(initial_a, writes) == value_after(initial_b, writes),
{
}

/// A fresh cell holds what it was constructed with: before any write has
/// completed, every read observes the initial value.
pub proof fn lemma_fresh_cell_value(initial: bool)
    ensures
        value_after(initial, Seq::empty()) == initial,
{
}

} // verus!
