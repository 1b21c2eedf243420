//! What the library asks its caller to do: the calls into the native library,
//! each with the arguments to pass, and the reasons for which an operation is
//! turned down before any call is made.

use vstd::prelude::*;
use crate::info::SndInfo;

verus! {

/// The representation of one sample in the caller's buffer. The native
/// library converts between it and the encoding of the file.
#[derive(Clone, Copy, Debug, PartialEq, Eq, PartialOrd, Structural)]
pub enum SampleType {
    /// 16 bit signed integers
    I16,
    /// 32 bit signed integers
    I32,
    /// 32 bit floating point numbers
    F32,
    /// 64 bit floating point numbers
    F64,
}

/// The unit in which a transfer is counted.
#[derive(Clone, Copy, Debug, PartialEq, Eq, PartialOrd, Structural)]
pub enum TransferUnit {
    /// Single samples, whatever channel they belong to
    Items,
    /// Frames: one sample for each channel
    Frames,
}

/// One call into the native library, with every integer argument that it
/// takes. Paths, tag texts and sample buffers stay with the caller, who passes
/// them along when making the call.
#[derive(Clone, Copy, Debug, PartialEq, Eq, Structural)]
pub enum NativeCall {
    /// Open the file at a path. `info` is the record that the native library
    /// reads and fills in.
    Open { mode: i32, info: SndInfo },
    /// Open an already open file descriptor. `close_desc` is a native boolean:
    /// whether closing the handle closes the descriptor too.
    OpenFd { fd: i32, mode: i32, info: SndInfo, close_desc: i32 },
    /// Ask whether `info` describes a format that can be written.
    FormatCheck { info: SndInfo },
    /// Ask for the text that describes an error code.
    ErrorNumber { code: i32 },
    /// Ask for the error code recorded for a handle; with the null handle, for
    /// the one recorded by the last failed open.
    Error { handle: usize },
    /// Read a tag.
    GetString { handle: usize, kind: i32 },
    /// Set a tag to the text that the caller holds.
    SetString { handle: usize, kind: i32 },
    /// Release the handle.
    Close { handle: usize },
    /// Force buffered data to disk.
    WriteSync { handle: usize },
    /// Move the frame cursor.
    Seek { handle: usize, frames: i64, whence: i32 },
    /// Fill the caller's buffer with up to `count` items or frames.
    Read { handle: usize, sample: SampleType, unit: TransferUnit, count: i64 },
    /// Write `count` items or frames from the caller's buffer.
    Write { handle: usize, sample: SampleType, unit: TransferUnit, count: i64 },
}

/// Why an operation was turned down without a call into the native library.
#[derive(Clone, Copy, Debug, PartialEq, Eq, PartialOrd, Structural)]
pub enum UsageError {
    /// The handle has been closed.
    Closed,
    /// The count is negative, or the buffer cannot hold that many samples.
    CountOutOfRange,
}

impl NativeCall {
    /// The native handle that the call is made on, for the calls that take
    /// one.
    pub open spec fn spec_handle(&self) -> Option<usize> {
        match *self {
            NativeCall::Open { .. } => None,
            NativeCall::OpenFd { .. } => None,
            NativeCall::FormatCheck { .. } => None,
            NativeCall::ErrorNumber { .. } => None,
            NativeCall::Error { handle } => Some(handle),
            NativeCall::GetString { handle, .. } => Some(handle),
            NativeCall::SetString { handle, .. } => Some(handle),
            NativeCall::Close { handle } => Some(handle),
            NativeCall::WriteSync { handle } => Some(handle),
            NativeCall::Seek { handle, .. } => Some(handle),
            NativeCall::Read { handle, .. } => Some(handle),
            NativeCall::Write { handle, .. } => Some(handle),
        }
    }

    /// Returns the native handle that the call is made on, or `None` for a
    /// call that takes no handle.
    #[verifier::when_used_as_spec(spec_handle)]
    pub fn handle(&self) -> (h: Option<usize>)
        ensures
            h == self.spec_handle(),
    {
        match self {
            NativeCall::Open { .. } => None,
            NativeCall::OpenFd { .. } => None,
            NativeCall::FormatCheck { .. } => None,
            NativeCall::ErrorNumber { .. } => None,
            NativeCall::Error { handle } => Some(*handle),
            NativeCall::GetString { handle, .. } => Some(*handle),
            NativeCall::SetString { handle, .. } => Some(*handle),
            NativeCall::Close { handle } => Some(*handle),
            NativeCall::WriteSync { handle } => Some(*handle),
            NativeCall::Seek { handle, .. } => Some(*handle),
            NativeCall::Read { handle, .. } => Some(*handle),
            NativeCall::Write { handle, .. } => Some(*handle),
        }
    }
}

} // verus!
