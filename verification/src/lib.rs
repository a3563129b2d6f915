//! Navigation and data-loading core of a terminal browser for an
//! append-only event-log database.
//!
//! The library owns the browsing model (recently created and recently
//! changed streams, the event list of one selected stream), a four-stage
//! navigation state machine driven by logical key codes, the bounded
//! scroll arithmetic of the payload preview, and the rules that turn the
//! outcomes of remote reads into model updates or an error overlay.
//! The host shell performs the terminal I/O and the remote reads and
//! feeds their plain results to this crate.

pub mod keys;
pub mod loader;
pub mod model;
pub mod nav;
pub mod preview;
pub mod state;
pub mod text;
