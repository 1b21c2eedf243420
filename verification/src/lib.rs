//! Typed vocabulary and call discipline for libsndfile, the library for
//! reading and writing files of sampled sound.
//!
//! This crate makes no native call itself. It decides, for every operation on
//! a sound file, whether the native library is to be called and with exactly
//! which arguments, and it interprets the integer codes that come back. The
//! caller makes the call in between. What is decided here is proved: the
//! mapping between the enumerations and the native constants, the mapping
//! from error codes to errors, the decomposition of format identifiers, and
//! the rule that a handle is released once and never used afterwards.

pub mod call;
pub mod error;
pub mod format;
pub mod handle;
pub mod info;
pub mod modes;
pub mod native;

pub use call::{NativeCall, SampleType, TransferUnit, UsageError};
pub use error::{SndFileError, SndFileResult};
pub use format::{FormatClass, FormatIdentifier, FormatType};
pub use handle::SndFile;
pub use info::SndInfo;
pub use modes::{OpenMode, SeekMode, StringSoundType};
