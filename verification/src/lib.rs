//! Control of one CPU sampling session for a whole process, as three
//! operations that a host calls: start, stop and results.
//!
//! - `cursor`: the state of one call, which yields its rows on the first
//!   invocation and none afterwards.
//! - `registry`: the slot that holds at most one session.
//! - `controller`: the three operations on a cursor and a registry.
//! - `materializer`: the status of an export and the listing of a report.
//! - `rows`: the text that can be handed to the host.
//! - `text`: lines and substring search on character sequences.
//! - `sampler`: the profiler itself, an outside crate behind declarations
//!   that are believed, not proved.
//! - `history`: what holds of every sequence of calls.
//!
//! The library takes no lock, contains no fault and touches no file. Its
//! caller keeps the registry under a lock, makes the calls that may fault
//! inside a boundary of its own, writes the profile, and hands the results
//! back to be turned into rows.

pub mod controller;
pub mod cursor;
pub mod history;
pub mod materializer;
pub mod registry;
pub mod rows;
pub mod sampler;
pub mod text;
