use crate::history::value_after;
use std::sync::Arc;
use vstd::prelude::*;
use vstd::rwlock::RwLock;
use vstd::rwlock::RwLockPredicate;

verus! {

/// What a flag cell stores: the boolean itself, together with the ghost
/// history of the writes that have completed on the cell, in the order the
/// lock granted them exclusive access.
struct CellState {
    value: bool,
    history: Ghost<Seq<bool>>,
}

/// The lock invariant of a flag cell: the stored boolean is the one the
/// cell's history prescribes — the initial value until a write completes,
/// and from then on always the latest completed write. Every acquire and
/// release of the lock is checked against it.
struct HistoryInv {
    init: bool,
}

impl RwLockPredicate<CellState> for HistoryInv {
    closed spec fn inv(self, s: CellState) -> bool {
        s.value == value_after(self.init, s.history@)
    }
}

/// A handle to a shared boolean cell.
///
/// Any number of handles may refer to the same cell: [`Flag::clone`] hands
/// out a new handle to it, and the cell is freed when the last handle is
/// dropped. Reads take shared access, so they may proceed together; a write
/// holds the cell exclusively, so writes are totally ordered and a read
/// never observes a half-finished write. The reader/writer discipline is the
/// verified lock of `vstd::rwlock`, and the cell carries its invariant:
/// the stored boolean always equals `value_after(initial value, completed
/// writes)`, over the ghost history kept beside it.
///
/// At the specification level a handle is identified with the cell it refers
/// to, so a duplicated handle is equal to the original and every contract
/// that holds of one holds of the other.
pub struct Flag {
    cell: Arc<RwLock<CellState, HistoryInv>>,
    init: Ghost<bool>,
}

/// Relies on `std::sync::Arc::clone`: the duplicate points to the very same
/// allocation as the original, and an `Arc` is identified with the value it
/// points to.
#[verifier::external_body]
fn duplicate_cell(cell: &Arc<RwLock<CellState, HistoryInv>>) -> (r: Arc<
    RwLock<CellState, HistoryInv>,
>)
    ensures
        r == *cell,
{
    Arc::clone(cell)
}

impl Flag {
    /// Every handle's ghost record of the initial value names the one the
    /// cell's lock invariant is anchored to.
    #[verifier::type_invariant]
    spec fn wf(self) -> bool {
        (*self.cell).pred() == (HistoryInv { init: self.init@ })
    }

    /// The value the cell was constructed with; every duplicate of a handle
    /// records the same one. The cell's lock invariant keeps the stored
    /// boolean at `value_after(self.initial_value(), h)`, where `h` is the
    /// ghost history of completed writes.
    pub closed spec fn initial_value(self) -> bool {
        self.init@
    }

    /// Creates a new `Flag`: a fresh cell holding `value`, with an empty
    /// write history and this handle as its only reference.
    pub fn new(value: bool) -> (r: Flag)
        ensures
            r.initial_value() == value,
    {
        let history: Ghost<Seq<bool>> = Ghost(Seq::empty());
        let state = CellState { value, history };
        let cell = Arc::new(RwLock::new(state, Ghost(HistoryInv { init: value })));
        Flag { cell, init: Ghost(value) }
    }

    /// Reads the boolean value of the `Flag` without keeping other readers
    /// out: any number of reads may hold shared access at once. If a writer
    /// holds the cell, the read waits until the writer releases it; the lock
    /// invariant makes the value it then observes the latest completed
    /// write, or the initial value if no write has completed.
    pub fn read(&self) -> bool {
        let handle = self.cell.acquire_read();
        let value = handle.borrow().value;
        handle.release_read();
        value
    }

    /// Writes a new boolean value to the `Flag`. The writer holds the cell
    /// exclusively: the write waits until every reader and any other writer
    /// has released the cell, appends `value` to the cell's ghost history,
    /// and is checked against the lock invariant — the cell now holds the
    /// latest completed write, `value`, until a later write replaces it.
    pub fn write(&self, value: bool) {
        let (state, handle) = self.cell.acquire_write();
        let new_state = CellState { value, history: Ghost(state.history@.push(value)) };
        handle.release_write(new_state);
    }

    /// Creates a new reference to the same cell, for handing to another
    /// thread. The new handle equals the original, so the two are
    /// interchangeable: operations through either observe and affect the
    /// same boolean.
    pub fn clone(&self) -> (r: Flag)
        ensures
            r == *self,
    {
        proof {
            use_type_invariant(self);
        }
        Flag { cell: duplicate_cell(&self.cell), init: self.init }
    }

    /// Duplication is idempotent: handles duplicated from a common original —
    /// in any number of steps — are all equal to it and so to each other, and
    /// every contract that holds of one holds of any other.
    pub proof fn lemma_duplicates_interchangeable(original: Flag, a: Flag, b: Flag)
        requires
            a == original,
            b == original,
        ensures
            a == b,
            a.initial_value() == b.initial_value(),
    {
    }
}

} // verus!
