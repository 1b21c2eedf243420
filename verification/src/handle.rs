//! The handle of an open sound file.
//!
//! A `SndFile` stands for one handle of the native library. It is made from
//! what a successful open call returned, it is open until `close` is called
//! on it, and it is closed ever after. Each operation returns the native call
//! to make, with its arguments, or turns the operation down without a call:
//! always once the handle is closed, and for a transfer that the caller's
//! buffer cannot hold.

use vstd::prelude::*;
use crate::call::{NativeCall, SampleType, TransferUnit, UsageError};
use crate::info::SndInfo;
use crate::modes::{OpenMode, SeekMode, StringSoundType};
use crate::native::{SF_FALSE, SF_TRUE};

verus! {

/// SndFile object, used to load/store sound from a file path or an fd.
#[derive(Debug, PartialEq, Eq)]
pub struct SndFile {
    /// The address of the native handle; zero once it has been released.
    handle: usize,
    /// What the native library reported when the file was opened.
    info: SndInfo,
}

/// Whether a buffer of `capacity` samples can take part in a transfer of
/// `count` units, on a stream with `channels` channels. A frame is `channels`
/// samples, so frames cannot be counted on a stream without channels.
pub open spec fn transfer_fits(channels: i32, unit: TransferUnit, capacity: usize, count: i64)
    -> bool {
    match unit {
        TransferUnit::Items => 0 <= count <= capacity,
        TransferUnit::Frames => 0 <= count && 1 <= channels && count * channels <= capacity,
    }
}

/// The native boolean that stands for a `bool`.
pub open spec fn native_bool(b: bool) -> i32 {
    if b {
        SF_TRUE
    } else {
        SF_FALSE
    }
}

impl SndFile {
    /// The address of the native handle, zero once the handle is closed.
    pub closed spec fn native_handle(&self) -> usize {
        self.handle
    }

    /// The snapshot taken when the file was opened.
    pub closed spec fn info(&self) -> SndInfo {
        self.info
    }

    /// Whether the handle is open: whether operations on it reach the native
    /// library.
    pub open spec fn spec_is_open(&self) -> bool {
        self.native_handle() != 0
    }

    /// The handle after `close`: it holds no native handle any more, and the
    /// same snapshot.
    pub closed spec fn released(self) -> SndFile {
        SndFile { handle: 0, info: self.info }
    }

    /// What an operation that needs nothing but an open handle returns: the
    /// call while the handle is open, a refusal once it is closed.
    pub open spec fn gate(&self, call: NativeCall) -> Result<NativeCall, UsageError> {
        if self.spec_is_open() {
            Ok(call)
        } else {
            Err(UsageError::Closed)
        }
    }

    /// What a read or a write returns: a refusal once the handle is closed,
    /// a refusal where the count is negative or more than the buffer holds,
    /// else the call with the count unchanged.
    pub open spec fn spec_transfer(
        &self,
        reading: bool,
        sample: SampleType,
        unit: TransferUnit,
        capacity: usize,
        count: i64,
    ) -> Result<NativeCall, UsageError> {
        if !self.spec_is_open() {
            Err(UsageError::Closed)
        } else if !transfer_fits(self.info().channels, unit, capacity, count) {
            Err(UsageError::CountOutOfRange)
        } else if reading {
            Ok(NativeCall::Read { handle: self.native_handle(), sample, unit, count })
        } else {
            Ok(NativeCall::Write { handle: self.native_handle(), sample, unit, count })
        }
    }

    /// The call that opens the file at a path. The path stays with the
    /// caller. The record handed to the native library is all zero, whatever
    /// the mode.
    ///
    /// What the call returns goes to `opened`.
    pub fn new(mode: OpenMode) -> (call: NativeCall)
        ensures
            call == (NativeCall::Open { mode: mode.spec_code(), info: SndInfo::spec_zeroed() }),
    {
        NativeCall::Open { mode: mode.code(), info: SndInfo::zeroed() }
    }

    /// The call that opens a file descriptor. `close_desc` says whether the
    /// native library is to close the descriptor when the handle is closed.
    ///
    /// What the call returns goes to `opened`.
    pub fn new_with_fd(fd: i32, mode: OpenMode, close_desc: bool) -> (call: NativeCall)
        ensures
            call == (NativeCall::OpenFd {
                fd,
                mode: mode.spec_code(),
                info: SndInfo::spec_zeroed(),
                close_desc: native_bool(close_desc),
            }),
    {
        let flag: i32 = match close_desc {
            true => SF_TRUE,
            false => SF_FALSE,
        };
        NativeCall::OpenFd { fd, mode: mode.code(), info: SndInfo::zeroed(), close_desc: flag }
    }

    /// Takes what an open call returned: the address of the native handle,
    /// zero for null, and the record as the native library left it.
    ///
    /// A handle that is not null gives an open `SndFile` around it. A null
    /// handle gives the call to make next: the error query on the null
    /// handle, whose answer `SndFileError::open_failure` turns into the error
    /// of the open.
    pub fn opened(handle: usize, info: SndInfo) -> (result: Result<SndFile, NativeCall>)
        ensures
            handle != 0 ==> (result matches Ok(file) && file.spec_is_open()
                && file.native_handle() == handle && file.info() == info),
            handle == 0 ==> result == Err::<SndFile, NativeCall>(NativeCall::Error { handle: 0 }),
    {
        if handle == 0 {
            Err(NativeCall::Error { handle: 0 })
        } else {
            Ok(SndFile { handle, info })
        }
    }

    /// Returns whether the handle is open.
    #[verifier::when_used_as_spec(spec_is_open)]
    pub fn is_open(&self) -> (open: bool)
        ensures
            open == self.spec_is_open(),
    {
        self.handle != 0
    }

    /// Return the SndInfo struct of the current music.
    ///
    /// It is the snapshot taken when the file was opened, on an open handle
    /// and on a closed one, and no operation changes it.
    pub fn get_sndinfo(&self) -> (info: SndInfo)
        ensures
            info == self.info(),
    {
        self.info
    }

    /// Wraps `call` for an open handle, and refuses for a closed one.
    fn forward(&self, call: NativeCall) -> (result: Result<NativeCall, UsageError>)
        ensures
            result == self.gate(call),
    {
        if self.handle != 0 {
            Ok(call)
        } else {
            Err(UsageError::Closed)
        }
    }

    /// Retrieve a tag contained by the music.
    ///
    /// Returns the call that reads the tag. It returns the text, or null
    /// where the file has no such tag, which is no error.
    pub fn get_string(&self, string_type: StringSoundType) -> (result: Result<
        NativeCall,
        UsageError,
    >)
        ensures
            result == self.gate(
                NativeCall::GetString { handle: self.native_handle(), kind: string_type.spec_code() },
            ),
    {
        self.forward(NativeCall::GetString { handle: self.handle, kind: string_type.code() })
    }

    /// Set a tag on the music file.
    ///
    /// Returns the call that sets the tag to the text that the caller holds.
    /// The status that it returns goes to `SndFileError::code_to_result`.
    pub fn set_string(&mut self, string_type: StringSoundType) -> (result: Result<
        NativeCall,
        UsageError,
    >)
        ensures
            *final(self) == *old(self),
            result == old(self).gate(
                NativeCall::SetString {
                    handle: old(self).native_handle(),
                    kind: string_type.spec_code(),
                },
            ),
    {
        self.forward(NativeCall::SetString { handle: self.handle, kind: string_type.code() })
    }

    /// Check if the format of the SndInfo struct is valid.
    ///
    /// Returns the call that asks the native library. It needs no handle.
    /// The answer goes to `format_accepted`.
    pub fn check_format(info: &SndInfo) -> (call: NativeCall)
        ensures
            call == (NativeCall::FormatCheck { info: *info }),
    {
        NativeCall::FormatCheck { info: *info }
    }

    /// Reads the answer to a format check: `Some(true)` for the native
    /// "true", `Some(false)` for the native "false", and `None` for any other
    /// number, which the native library does not return.
    pub fn format_accepted(answer: i32) -> (valid: Option<bool>)
        ensures
            answer == SF_TRUE ==> valid == Some(true),
            answer == SF_FALSE ==> valid == Some(false),
            answer != SF_TRUE && answer != SF_FALSE ==> valid is None,
    {
        if answer == SF_TRUE {
            Some(true)
        } else if answer == SF_FALSE {
            Some(false)
        } else {
            None
        }
    }

    /// Close the SndFile object.
    ///
    /// Returns the call that releases the native handle, and marks the handle
    /// closed at once: whatever status the call returns, the native handle is
    /// gone after it. A second `close` is refused, so that the call is made
    /// once. The status goes to `SndFileError::code_to_result`.
    pub fn close(&mut self) -> (result: Result<NativeCall, UsageError>)
        ensures
            *final(self) == old(self).released(),
            !final(self).spec_is_open(),
            final(self).info() == old(self).info(),
            result == old(self).gate(NativeCall::Close { handle: old(self).native_handle() }),
    {
        let result = self.forward(NativeCall::Close { handle: self.handle });
        self.handle = 0;
        result
    }

    /// If the file is opened Write or ReadWrite, call the operating system's
    /// function to force the writing of all file cache buffers to disk.
    /// If the file is opened Read no action is taken.
    ///
    /// Returns the call that does so. It returns nothing.
    pub fn write_sync(&mut self) -> (result: Result<NativeCall, UsageError>)
        ensures
            *final(self) == *old(self),
            result == old(self).gate(NativeCall::WriteSync { handle: old(self).native_handle() }),
    {
        self.forward(NativeCall::WriteSync { handle: self.handle })
    }

    /// Move in the audio file
    ///
    /// Returns the call that moves the cursor by `frames` frames from the
    /// place that `whence` names. It returns the new position, counted in
    /// frames from the start, or a negative number where the seek failed.
    pub fn seek(&mut self, frames: i64, whence: SeekMode) -> (result: Result<
        NativeCall,
        UsageError,
    >)
        ensures
            *final(self) == *old(self),
            result == old(self).gate(
                NativeCall::Seek {
                    handle: old(self).native_handle(),
                    frames,
                    whence: whence.spec_code(),
                },
            ),
    {
        self.forward(NativeCall::Seek { handle: self.handle, frames, whence: whence.code() })
    }

    /// Get the last error if one exists or `None` if there has not been an
    /// error.
    ///
    /// Returns the call that asks for the code of the last error on this
    /// handle. The code goes to `SndFileError::from_code`.
    pub fn error(&self) -> (result: Result<NativeCall, UsageError>)
        ensures
            result == self.gate(NativeCall::Error { handle: self.native_handle() }),
    {
        self.forward(NativeCall::Error { handle: self.handle })
    }

    /// Decides a transfer of `count` units between the file and a buffer of
    /// `capacity` samples.
    fn transfer(
        &self,
        reading: bool,
        sample: SampleType,
        unit: TransferUnit,
        capacity: usize,
        count: i64,
    ) -> (result: Result<NativeCall, UsageError>)
        ensures
            result == self.spec_transfer(reading, sample, unit, capacity, count),
    {
        if self.handle == 0 {
            return Err(UsageError::Closed);
        }
        if count < 0 {
            return Err(UsageError::CountOutOfRange);
        }
        let wanted: u128 = count as u128;
        let room: u128 = capacity as u128;
        let fits = match unit {
            TransferUnit::Items => wanted <= room,
            TransferUnit::Frames => {
                let channels = self.info.channels;
                if channels < 1 {
                    false
                } else {
                    let per_frame: u128 = channels as u128;
                    assert(wanted * per_frame <= 0x7fff_ffff_ffff_ffff * 0x7fff_ffff)
                        by (nonlinear_arith)
                        requires
                            0 <= wanted <= 0x7fff_ffff_ffff_ffff,
                            0 <= per_frame <= 0x7fff_ffff,
                    ;
                    wanted * per_frame <= room
                }
            },
        };
        if !fits {
            Err(UsageError::CountOutOfRange)
        } else if reading {
            Ok(NativeCall::Read { handle: self.handle, sample, unit, count })
        } else {
            Ok(NativeCall::Write { handle: self.handle, sample, unit, count })
        }
    }

    /// Read items of type i16
    ///
    /// `capacity` is the length of the buffer to fill, `items` the number of
    /// items asked for. The call returns the count of items read; fewer than
    /// asked for means that the stream ended.
    pub fn read_i16(&mut self, capacity: usize, items: i64) -> (result: Result<
        NativeCall,
        UsageError,
    >)
        ensures
            *final(self) == *old(self),
            result == old(self).spec_transfer(
                true,
                SampleType::I16,
                TransferUnit::Items,
                capacity,
                items,
            ),
    {
        self.transfer(true, SampleType::I16, TransferUnit::Items, capacity, items)
    }

    /// Read items of type i32
    pub fn read_i32(&mut self, capacity: usize, items: i64) -> (result: Result<
        NativeCall,
        UsageError,
    >)
        ensures
            *final(self) == *old(self),
            result == old(self).spec_transfer(
                true,
                SampleType::I32,
                TransferUnit::Items,
                capacity,
                items,
            ),
    {
        self.transfer(true, SampleType::I32, TransferUnit::Items, capacity, items)
    }

    /// Read items of type f32
    pub fn read_f32(&mut self, capacity: usize, items: i64) -> (result: Result<
        NativeCall,
        UsageError,
    >)
        ensures
            *final(self) == *old(self),
            result == old(self).spec_transfer(
                true,
                SampleType::F32,
                TransferUnit::Items,
                capacity,
                items,
            ),
    {
        self.transfer(true, SampleType::F32, TransferUnit::Items, capacity, items)
    }

    /// Read items of type f64
    pub fn read_f64(&mut self, capacity: usize, items: i64) -> (result: Result<
        NativeCall,
        UsageError,
    >)
        ensures
            *final(self) == *old(self),
            result == old(self).spec_transfer(
                true,
                SampleType::F64,
                TransferUnit::Items,
                capacity,
                items,
            ),
    {
        self.transfer(true, SampleType::F64, TransferUnit::Items, capacity, items)
    }

    /// Read frames of type i16
    ///
    /// `capacity` is the length of the buffer to fill, in samples, `frames`
    /// the number of frames asked for. The call returns the count of frames
    /// read; fewer than asked for means that the stream ended.
    pub fn readf_i16(&mut self, capacity: usize, frames: i64) -> (result: Result<
        NativeCall,
        UsageError,
    >)
        ensures
            *final(self) == *old(self),
            result == old(self).spec_transfer(
                true,
                SampleType::I16,
                TransferUnit::Frames,
                capacity,
                frames,
            ),
    {
        self.transfer(true, SampleType::I16, TransferUnit::Frames, capacity, frames)
    }

    /// Read frames of type i32
    pub fn readf_i32(&mut self, capacity: usize, frames: i64) -> (result: Result<
        NativeCall,
        UsageError,
    >)
        ensures
            *final(self) == *old(self),
            result == old(self).spec_transfer(
                true,
                SampleType::I32,
                TransferUnit::Frames,
                capacity,
                frames,
            ),
    {
        self.transfer(true, SampleType::I32, TransferUnit::Frames, capacity, frames)
    }

    /// Read frames of type f32
    pub fn readf_f32(&mut self, capacity: usize, frames: i64) -> (result: Result<
        NativeCall,
        UsageError,
    >)
        ensures
            *final(self) == *old(self),
            result == old(self).spec_transfer(
                true,
                SampleType::F32,
                TransferUnit::Frames,
                capacity,
                frames,
            ),
    {
        self.transfer(true, SampleType::F32, TransferUnit::Frames, capacity, frames)
    }

    /// Read frames of type f64
    pub fn readf_f64(&mut self, capacity: usize, frames: i64) -> (result: Result<
        NativeCall,
        UsageError,
    >)
        ensures
            *final(self) == *old(self),
            result == old(self).spec_transfer(
                true,
                SampleType::F64,
                TransferUnit::Frames,
                capacity,
                frames,
            ),
    {
        self.transfer(true, SampleType::F64, TransferUnit::Frames, capacity, frames)
    }

    /// Write items of type i16
    ///
    /// `capacity` is the length of the buffer to write from, `items` the
    /// number of items to write. The call returns the count of items written;
    /// fewer than asked for means that the write failed.
    pub fn write_i16(&mut self, capacity: usize, items: i64) -> (result: Result<
        NativeCall,
        UsageError,
    >)
        ensures
            *final(self) == *old(self),
            result == old(self).spec_transfer(
                false,
                SampleType::I16,
                TransferUnit::Items,
                capacity,
                items,
            ),
    {
        self.transfer(false, SampleType::I16, TransferUnit::Items, capacity, items)
    }

    /// Write items of type i32
    pub fn write_i32(&mut self, capacity: usize, items: i64) -> (result: Result<
        NativeCall,
        UsageError,
    >)
        ensures
            *final(self) == *old(self),
            result == old(self).spec_transfer(
                false,
                SampleType::I32,
                TransferUnit::Items,
                capacity,
                items,
            ),
    {
        self.transfer(false, SampleType::I32, TransferUnit::Items, capacity, items)
    }

    /// Write items of type f32
    pub fn write_f32(&mut self, capacity: usize, items: i64) -> (result: Result<
        NativeCall,
        UsageError,
    >)
        ensures
            *final(self) == *old(self),
            result == old(self).spec_transfer(
                false,
                SampleType::F32,
                TransferUnit::Items,
                capacity,
                items,
            ),
    {
        self.transfer(false, SampleType::F32, TransferUnit::Items, capacity, items)
    }

    /// Write items of type f64
    pub fn write_f64(&mut self, capacity: usize, items: i64) -> (result: Result<
        NativeCall,
        UsageError,
    >)
        ensures
            *final(self) == *old(self),
            result == old(self).spec_transfer(
                false,
                SampleType::F64,
                TransferUnit::Items,
                capacity,
                items,
            ),
    {
        self.transfer(false, SampleType::F64, TransferUnit::Items, capacity, items)
    }

    /// Write frames of type i16
    ///
    /// `capacity` is the length of the buffer to write from, in samples,
    /// `frames` the number of frames to write. The call returns the count of
    /// frames written; fewer than asked for means that the write failed.
    pub fn writef_i16(&mut self, capacity: usize, frames: i64) -> (result: Result<
        NativeCall,
        UsageError,
    >)
        ensures
            *final(self) == *old(self),
            result == old(self).spec_transfer(
                false,
                SampleType::I16,
                TransferUnit::Frames,
                capacity,
                frames,
            ),
    {
        self.transfer(false, SampleType::I16, TransferUnit::Frames, capacity, frames)
    }

    /// Write frames of type i32
    pub fn writef_i32(&mut self, capacity: usize, frames: i64) -> (result: Result<
        NativeCall,
        UsageError,
    >)
        ensures
            *final(self) == *old(self),
            result == old(self).spec_transfer(
                false,
                SampleType::I32,
                TransferUnit::Frames,
                capacity,
                frames,
            ),
    {
        self.transfer(false, SampleType::I32, TransferUnit::Frames, capacity, frames)
    }

    /// Write frames of type f32
    pub fn writef_f32(&mut self, capacity: usize, frames: i64) -> (result: Result<
        NativeCall,
        UsageError,
    >)
        ensures
            *final(self) == *old(self),
            result == old(self).spec_transfer(
                false,
                SampleType::F32,
                TransferUnit::Frames,
                capacity,
                frames,
            ),
    {
        self.transfer(false, SampleType::F32, TransferUnit::Frames, capacity, frames)
    }

    /// Write frames of type f64
    pub fn writef_f64(&mut self, capacity: usize, frames: i64) -> (result: Result<
        NativeCall,
        UsageError,
    >)
        ensures
            *final(self) == *old(self),
            result == old(self).spec_transfer(
                false,
                SampleType::F64,
                TransferUnit::Frames,
                capacity,
                frames,
            ),
    {
        self.transfer(false, SampleType::F64, TransferUnit::Frames, capacity, frames)
    }
}

/// Once a handle has been closed nothing reaches the native library through
/// it: every operation on it is refused as a use after close, whatever its
/// arguments, and so is a second close.
pub proof fn lemma_closed_handle_refuses(
    file: SndFile,
    call: NativeCall,
    reading: bool,
    sample: SampleType,
    unit: TransferUnit,
    capacity: usize,
    count: i64,
)
    ensures
        !file.released().spec_is_open(),
        file.released().native_handle() == 0,
        file.released().gate(call) == Err::<NativeCall, UsageError>(UsageError::Closed),
        file.released().spec_transfer(reading, sample, unit, capacity, count) == Err::<
            NativeCall,
            UsageError,
        >(UsageError::Closed),
        file.released().released() == file.released(),
{
}

/// The snapshot of a handle is the one it was opened with for as long as the
/// value lives: closing keeps it.
pub proof fn lemma_snapshot_is_kept(file: SndFile)
    ensures
        file.released().info() == file.info(),
{
}

/// While a handle is open, every call it issues is made on its own native
/// handle, which is not null.
pub proof fn lemma_calls_carry_the_handle(
    file: SndFile,
    reading: bool,
    sample: SampleType,
    unit: TransferUnit,
    capacity: usize,
    count: i64,
)
    requires
        file.spec_is_open(),
    ensures
        file.spec_transfer(reading, sample, unit, capacity, count) matches Ok(call)
            ==> call.spec_handle() == Some(file.native_handle()) && file.native_handle() != 0,
{
}

/// A transfer that is let through stays inside the caller's buffer: the
/// samples it may touch, `count` for items and `count` times the number of
/// channels for frames, are at most `capacity`.
pub proof fn lemma_transfer_stays_in_buffer(
    file: SndFile,
    reading: bool,
    sample: SampleType,
    unit: TransferUnit,
    capacity: usize,
    count: i64,
)
    requires
        file.spec_transfer(reading, sample, unit, capacity, count) is Ok,
    ensures
        0 <= count,
        unit == TransferUnit::Items ==> count <= capacity,
        unit == TransferUnit::Frames ==> file.info().channels >= 1 && count * file.info().channels
            <= capacity,
{
}

} // verus!
