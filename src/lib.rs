//! Capture registry and session bridge of a screenshot and clipboard capture
//! application: the decisions behind listing captures, resolving the capture
//! directory, consuming the one-shot clipboard event and reading the capture
//! identifier from launch arguments. The filesystem and process work stays
//! with the caller, which hands plain values in and acts on what comes back.
use vstd::prelude::*;

pub mod capture;
pub mod clipboard;
pub mod content;
pub mod session;
pub mod settings;

verus! {

} // verus!
