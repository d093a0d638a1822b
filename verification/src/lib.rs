//! Core state engine of a keyboard-driven terminal file browser.
//!
//! The library owns the in-memory model of the browser: the current
//! directory, its entries, the parent panel, the selection cursor, the
//! interaction mode, the clipboard, modal popups, the input buffer, the
//! transient notification and the preview panel.  Every user-triggered
//! operation is a verified function over that state.
//!
//! Filesystem access itself (listing, reading, copying, deleting) is left
//! to the caller: an operation either returns a description of the I/O it
//! needs, or takes the outcome of that I/O as a plain value and applies it
//! to the state.  Paths are modelled as `/`-separated absolute strings and
//! instants as milliseconds.

pub mod engine;
pub mod keys;
pub mod laws;
pub mod mime;
pub mod model;
pub mod ops;
pub mod paths;
pub mod textfmt;
