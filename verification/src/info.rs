//! The record that describes an audio stream.

use vstd::prelude::*;

verus! {

/// What the native library reports of a stream when it opens it, and what it
/// is told of a stream that is to be written.
///
/// A value is a snapshot: a handle keeps the one taken when it was opened and
/// never changes it.
#[derive(Clone, Copy, Debug, PartialEq, Eq, PartialOrd, Structural)]
pub struct SndInfo {
    /// The number of frames
    pub frames: i64,
    /// The sample rate
    pub samplerate: i32,
    /// The number of channels
    pub channels: i32,
    /// The combined format identifier: container, sample encoding, byte order
    pub format: i32,
    /// The sections
    pub sections: i32,
    /// Is the stream seekable (a native boolean)
    pub seekable: i32,
}

impl SndInfo {
    /// The record with every field zero, which is what an open call starts
    /// from.
    pub open spec fn spec_zeroed() -> SndInfo {
        SndInfo { frames: 0, samplerate: 0, channels: 0, format: 0, sections: 0, seekable: 0 }
    }

    /// Returns the record with every field zero.
    #[verifier::when_used_as_spec(spec_zeroed)]
    pub fn zeroed() -> (info: SndInfo)
        ensures
            info == SndInfo::spec_zeroed(),
    {
        SndInfo { frames: 0, samplerate: 0, channels: 0, format: 0, sections: 0, seekable: 0 }
    }
}

} // verus!
