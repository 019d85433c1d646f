//! Primitives for overlapped I/O: ownership of OS handles, per-operation
//! descriptors and completion-port outcomes, with the conversions between
//! the operating system's sentinels and this crate's vocabulary.

pub mod error;
pub mod handle;
pub mod iocp;
pub mod overlapped;
pub mod timeout;

pub use crate::error::{cvt, cvt_code, issue_outcome, OsError};
pub use crate::handle::{Handle, HandleView};
pub use crate::iocp::{CompletionPort, CompletionStatus, GetManyOutcome, GetOutcome};
pub use crate::overlapped::{OpState, Overlapped, StateError};
pub use crate::timeout::{dur2ms, WaitDuration};
