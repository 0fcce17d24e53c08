//! Access to NTFS alternate data streams, addressed as `path:name`.
//!
//! The library holds everything that decides: how a stream's name is built
//! and encoded for the file API, which open mode each operation asks for,
//! how every backend answer is turned into the next step or a typed failure,
//! and how the read buffer is sized and cut. Performing the file calls
//! themselves is left to the caller, who drives a [`Session`] step by step.

use vstd::prelude::*;

pub mod naming;
pub mod session;

pub use naming::{stream_name, stream_path_wide};
pub use session::{
    deliver, keep_transferred, read_buffer, Access, Action, AdsError, Disposition, Event, OpenMode, Operation,
    Outcome, Phase, Session, Sharing,
};

verus! {

} // verus!
