//! Core of a system-wide text-expansion engine.
//!
//! The engine watches every keystroke typed anywhere on the machine, keeps a
//! bounded record of recently typed characters, recognizes a completed
//! `/tag ` trigger at the record's tail, and decides whether to replace the
//! trigger with a stored message, show a selection popup, or do nothing.
//! This crate holds the verified pipeline: the input buffer, the trigger
//! detector, the keystroke monitor's per-event step, the expansion
//! coordinator, the injection planner, and the popup visibility state.
//! Reading the OS keyboard stream, querying the message store, and
//! synthesizing keystrokes are left to the unverified shell around the crate,
//! which hands plain values in and carries plans out.

pub mod buffer;
pub mod detector;
pub mod keys;
pub mod popup;
pub mod injector;
pub mod coordinator;
pub mod monitor;
