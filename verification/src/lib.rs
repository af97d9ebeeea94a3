//! Inspection and control helpers for a directory-based process-supervision
//! layout: one directory per service, holding a handful of small control and
//! status files.  The crate reconstructs each service's state from the raw
//! file contents, renders fixed-width status rows, and decides the outcome of
//! enable/disable operations.  All filesystem and process I/O stays outside;
//! callers hand in plain values (file contents, directory listings, elapsed
//! seconds) and receive plain values back.

use vstd::prelude::*;

pub mod arguments;
pub mod commands;
pub mod config;
pub mod errors;
pub mod runit;
pub mod service;
pub mod strutil;
pub mod utils;

verus! {

} // verus!
