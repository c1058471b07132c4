//! Usage monitoring for China Unicom accounts: the commit policy that decides
//! when a reading replaces the stored reference points, the report that goes
//! with it, and the bookkeeping of one repeating task per user.
//!
//! The library decides and computes; it neither asks the usage source nor
//! touches a database nor sends a message. Whoever does that hands the
//! library plain values and carries out what it answers: the changes to the
//! store that [`utils::china_unicom::reconcile`] lists, the next step of a
//! query that [`utils::china_unicom::QueryStep`] names, the next action of a
//! task that [`utils::task::RetryState`] gives.
//!
//! Data volumes are whole numbers of bytes and are shown in gigabytes with
//! two decimal places. Points in time are whole seconds since the Unix
//! epoch, together with the offset of the clock that took them, which
//! decides on which civil day they fall.
//!
//! Every function is verified against its contract. What is taken on trust
//! is marked as such where it stands: the calendar of chrono, the word
//! splitting of shlex, the map of dashmap that holds the task handles of
//! tokio, and a few questions about text that the standard library answers.

pub mod cli;
pub mod handler;
pub mod model;
pub mod utils;
