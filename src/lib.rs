//! Trusted core of a realm management monitor: classification of the
//! exceptions taken by the monitor, the granule ownership state machine, the
//! realm descriptor handle and the realm management command handlers.
pub mod context;
pub mod granule;
pub mod rd;
pub mod rmi;
pub mod syndrome;
pub mod trap;
