//! Unit creation for a DAG-based Byzantine-fault-tolerant consensus protocol.
//!
//! Each participating node repeatedly produces units, the vertices of its
//! local view of a shared directed acyclic graph. The [`creator::Creator`]
//! state machine records the units seen so far and decides when the node may
//! create its next unit and which units qualify as its parents; the
//! [`runner::Runner`] state machine sequences round-by-round creation and
//! reacts to pacing, inbound units and cancellation. The asynchronous glue
//! that feeds events into these state machines lives outside this library.

pub mod creator;
pub mod io;
pub mod runner;
pub mod units;
