//! A source-level debugger core for ACIR circuits with embedded Brillig blocks.
//!
//! - `location`: two-level opcode addresses and moving them by a number of
//!   atomic instructions.
//! - `artifact`: debug symbols, mapping opcode locations to source locations.
//! - `breakpoints`: the set of locations at which execution pauses.
//! - `context`: the session's view of the solvers, and its reaction to each
//!   report of the ACVM, the Brillig solver and the foreign call executor.
//! - `stepping`: the stepping commands, as stopping rules told the result of
//!   each tick.
//! - `note_hash`: the generated `compute_note_hash_and_nullifier` of a
//!   contract, and the check for a user-written one.
pub mod artifact;
pub mod breakpoints;
pub mod context;
pub mod location;
pub mod note_hash;
pub mod stepping;
