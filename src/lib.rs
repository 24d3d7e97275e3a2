//! A readable and writable handle to the terminal of the current process.
//!
//! The library holds the decisions that stand between the process and its
//! terminal: which standard stream (if any) is reused, whether its descriptor
//! is borrowed or the device is reopened, which standard streams alias the
//! terminal and must be locked with it, how a cached resolution is read back,
//! and the raw-mode state machine with its guaranteed restore.
use vstd::prelude::*;

pub mod cache;
pub mod console_mode;
pub mod error;
pub mod lock;
pub mod msys;
pub mod raw_mode;
pub mod resolve;
pub mod stdio;

pub use error::{shared_io_error, PoisonError};
pub use stdio::{StdStream, StdioFlags};

verus! {

/// The supertrait that marks the terminal's handles.
pub trait Sealed {}

/// A handle to the terminal that is both readable and writable.
pub trait Transceive: Sealed {}

} // verus!
