//! The integer constants of libsndfile's public header, under the names that
//! the header gives them.
//!
//! Everything that crosses the boundary to the native library is one of these
//! numbers; the typed enumerations of this crate are mapped onto them by their
//! `code` methods and nowhere else.

use vstd::prelude::*;

verus! {

/// The native library's boolean "false".
pub const SF_FALSE: i32 = 0;

/// The native library's boolean "true".
pub const SF_TRUE: i32 = 1;

/// Open for reading only.
pub const SFM_READ: i32 = 0x10;

/// Open for writing only.
pub const SFM_WRITE: i32 = 0x20;

/// Open for reading and writing.
pub const SFM_RDWR: i32 = 0x30;

/// Seek relative to the start of the audio data.
pub const SEEK_SET: i32 = 0;

/// Seek relative to the current position.
pub const SEEK_CUR: i32 = 1;

/// Seek relative to the end of the audio data.
pub const SEEK_END: i32 = 2;

pub const SF_ERR_NO_ERROR: i32 = 0;

pub const SF_ERR_UNRECOGNISED_FORMAT: i32 = 1;

pub const SF_ERR_SYSTEM: i32 = 2;

pub const SF_ERR_MALFORMED_FILE: i32 = 3;

pub const SF_ERR_UNSUPPORTED_ENCODING: i32 = 4;

pub const SF_STR_TITLE: i32 = 0x01;

pub const SF_STR_COPYRIGHT: i32 = 0x02;

pub const SF_STR_SOFTWARE: i32 = 0x03;

pub const SF_STR_ARTIST: i32 = 0x04;

pub const SF_STR_COMMENT: i32 = 0x05;

pub const SF_STR_DATE: i32 = 0x06;

pub const SF_STR_ALBUM: i32 = 0x07;

pub const SF_STR_LICENSE: i32 = 0x08;

pub const SF_STR_TRACKNUMBER: i32 = 0x09;

pub const SF_STR_GENRE: i32 = 0x10;

// Container formats: the bits under `SF_FORMAT_TYPEMASK`.
pub const SF_FORMAT_WAV: i32 = 0x010000;

pub const SF_FORMAT_AIFF: i32 = 0x020000;

pub const SF_FORMAT_AU: i32 = 0x030000;

pub const SF_FORMAT_RAW: i32 = 0x040000;

pub const SF_FORMAT_PAF: i32 = 0x050000;

pub const SF_FORMAT_SVX: i32 = 0x060000;

pub const SF_FORMAT_NIST: i32 = 0x070000;

pub const SF_FORMAT_VOC: i32 = 0x080000;

pub const SF_FORMAT_IRCAM: i32 = 0x0A0000;

pub const SF_FORMAT_W64: i32 = 0x0B0000;

pub const SF_FORMAT_MAT4: i32 = 0x0C0000;

pub const SF_FORMAT_MAT5: i32 = 0x0D0000;

pub const SF_FORMAT_PVF: i32 = 0x0E0000;

pub const SF_FORMAT_XI: i32 = 0x0F0000;

pub const SF_FORMAT_HTK: i32 = 0x100000;

pub const SF_FORMAT_SDS: i32 = 0x110000;

pub const SF_FORMAT_AVR: i32 = 0x120000;

pub const SF_FORMAT_WAVEX: i32 = 0x130000;

pub const SF_FORMAT_SD2: i32 = 0x160000;

pub const SF_FORMAT_FLAC: i32 = 0x170000;

pub const SF_FORMAT_CAF: i32 = 0x180000;

pub const SF_FORMAT_WVE: i32 = 0x190000;

pub const SF_FORMAT_OGG: i32 = 0x200000;

pub const SF_FORMAT_MPC2K: i32 = 0x210000;

pub const SF_FORMAT_RF64: i32 = 0x220000;

// Sample encodings: the bits under `SF_FORMAT_SUBMASK`.
pub const SF_FORMAT_PCM_S8: i32 = 0x0001;

pub const SF_FORMAT_PCM_16: i32 = 0x0002;

pub const SF_FORMAT_PCM_24: i32 = 0x0003;

pub const SF_FORMAT_PCM_32: i32 = 0x0004;

pub const SF_FORMAT_PCM_U8: i32 = 0x0005;

pub const SF_FORMAT_FLOAT: i32 = 0x0006;

pub const SF_FORMAT_DOUBLE: i32 = 0x0007;

pub const SF_FORMAT_ULAW: i32 = 0x0010;

pub const SF_FORMAT_ALAW: i32 = 0x0011;

pub const SF_FORMAT_IMA_ADPCM: i32 = 0x0012;

pub const SF_FORMAT_MS_ADPCM: i32 = 0x0013;

pub const SF_FORMAT_GSM610: i32 = 0x0020;

pub const SF_FORMAT_VOX_ADPCM: i32 = 0x0021;

pub const SF_FORMAT_G721_32: i32 = 0x0030;

pub const SF_FORMAT_G723_24: i32 = 0x0031;

pub const SF_FORMAT_G723_40: i32 = 0x0032;

pub const SF_FORMAT_DWVW_12: i32 = 0x0040;

pub const SF_FORMAT_DWVW_16: i32 = 0x0041;

pub const SF_FORMAT_DWVW_24: i32 = 0x0042;

pub const SF_FORMAT_DWVW_N: i32 = 0x0043;

pub const SF_FORMAT_DPCM_8: i32 = 0x0050;

pub const SF_FORMAT_DPCM_16: i32 = 0x0051;

pub const SF_FORMAT_VORBIS: i32 = 0x0060;

// Byte order overrides: the bits under `SF_FORMAT_ENDMASK`.
pub const SF_ENDIAN_FILE: i32 = 0x00000000;

pub const SF_ENDIAN_LITTLE: i32 = 0x10000000;

pub const SF_ENDIAN_BIG: i32 = 0x20000000;

pub const SF_ENDIAN_CPU: i32 = 0x30000000;

/// Selects the sample encoding of a combined format identifier.
pub const SF_FORMAT_SUBMASK: i32 = 0x0000FFFF;

/// Selects the container format of a combined format identifier.
pub const SF_FORMAT_TYPEMASK: i32 = 0x0FFF0000;

/// Selects the byte order override of a combined format identifier.
pub const SF_FORMAT_ENDMASK: i32 = 0x30000000;

} // verus!
