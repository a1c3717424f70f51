//! Core of a background service that follows the pointer across displays and
//! asks a remote scene controller to switch scenes when the pointer enters a
//! mapped display.
//!
//! The crate holds the decisions only; every function is verified against its
//! contract. Sampling the pointer, listing the displays, watching the
//! configuration file, parsing it and talking to the remote service are the
//! caller's business: the caller hands in plain values and carries out what
//! comes back.
//!
//! - [`locator`]: which display a point is on.
//! - [`model`]: the configuration, and the scene it gives for a display.
//! - [`store`]: loading a configuration, and holding the one in force.
//! - [`transition`]: what one tick of the polling loop decides.
//! - [`guarantees`]: what holds of every run of the loop.
//! - [`search`]: the "first match wins" search that the others share.

pub mod guarantees;
pub mod locator;
pub mod model;
pub mod search;
pub mod store;
pub mod transition;
