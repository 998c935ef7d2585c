//! A shared boolean flag for concurrent programs.
//!
//! A [`Flag`](flag::Flag) is a handle to a single boolean cell that many
//! threads may hold at once. Reads take shared access and may proceed
//! together; writes take exclusive access and are totally ordered. The cell
//! lives behind a reference count, so it outlives every handle and is freed
//! with the last one.

mod flag;
mod history;

pub use flag::Flag;
pub use history::lemma_fresh_cell_value;
pub use history::lemma_latest_write_wins;
pub use history::lemma_read_after_write;
pub use history::value_after;
