//! The small enumerations that select how a file is opened, which tag is
//! meant and from where a seek is measured, each with its native code.

use vstd::prelude::*;
use crate::native::{
    SEEK_CUR, SEEK_END, SEEK_SET, SFM_RDWR, SFM_READ, SFM_WRITE, SF_STR_ALBUM, SF_STR_ARTIST,
    SF_STR_COMMENT, SF_STR_COPYRIGHT, SF_STR_DATE, SF_STR_GENRE, SF_STR_LICENSE,
    SF_STR_SOFTWARE, SF_STR_TITLE, SF_STR_TRACKNUMBER,
};

verus! {

/// Modes availables for the open function.
#[derive(Clone, Copy, Debug, PartialEq, Eq, PartialOrd, Structural)]
pub enum OpenMode {
    /// Read only mode
    Read,
    /// Write only mode
    Write,
    /// Read and Write mode
    ReadWrite,
}

/// Type of strings available for method get_string()
#[derive(Clone, Copy, Debug, PartialEq, Eq, PartialOrd, Structural)]
pub enum StringSoundType {
    /// Get the title of the audio content
    Title,
    /// Get the copyright of the audio content
    Copyright,
    /// Get the software name used to create the audio content
    Software,
    /// Get the artist of the audio content
    Artist,
    /// Get the comment on the audio file
    Comment,
    /// Get the date of creation
    Date,
    /// The name of the album
    Album,
    /// The licence of the content
    License,
    /// The track number of the audio content in an album
    TrackNumber,
    /// The genre of the audio content
    Genre,
}

/// Enum to set the offset with method seek
#[derive(Clone, Copy, Debug, PartialEq, Eq, PartialOrd, Structural)]
pub enum SeekMode {
    /// The offset is set to the start of the audio data plus offset (multichannel) frames.
    SeekSet,
    /// The offset is set to its current location plus offset (multichannel) frames.
    SeekCur,
    /// The offset is set to the end of the data plus offset (multichannel) frames.
    SeekEnd,
}

impl OpenMode {
    /// The native code of the mode.
    pub open spec fn spec_code(self) -> i32 {
        match self {
            OpenMode::Read => SFM_READ,
            OpenMode::Write => SFM_WRITE,
            OpenMode::ReadWrite => SFM_RDWR,
        }
    }

    /// Returns the native code of the mode.
    #[verifier::when_used_as_spec(spec_code)]
    pub fn code(self) -> (code: i32)
        ensures
            code == self.spec_code(),
    {
        match self {
            OpenMode::Read => SFM_READ,
            OpenMode::Write => SFM_WRITE,
            OpenMode::ReadWrite => SFM_RDWR,
        }
    }
}

impl StringSoundType {
    /// The native code of the tag.
    pub open spec fn spec_code(self) -> i32 {
        match self {
            StringSoundType::Title => SF_STR_TITLE,
            StringSoundType::Copyright => SF_STR_COPYRIGHT,
            StringSoundType::Software => SF_STR_SOFTWARE,
            StringSoundType::Artist => SF_STR_ARTIST,
            StringSoundType::Comment => SF_STR_COMMENT,
            StringSoundType::Date => SF_STR_DATE,
            StringSoundType::Album => SF_STR_ALBUM,
            StringSoundType::License => SF_STR_LICENSE,
            StringSoundType::TrackNumber => SF_STR_TRACKNUMBER,
            StringSoundType::Genre => SF_STR_GENRE,
        }
    }

    /// Returns the native code of the tag.
    #[verifier::when_used_as_spec(spec_code)]
    pub fn code(self) -> (code: i32)
        ensures
            code == self.spec_code(),
    {
        match self {
            StringSoundType::Title => SF_STR_TITLE,
            StringSoundType::Copyright => SF_STR_COPYRIGHT,
            StringSoundType::Software => SF_STR_SOFTWARE,
            StringSoundType::Artist => SF_STR_ARTIST,
            StringSoundType::Comment => SF_STR_COMMENT,
            StringSoundType::Date => SF_STR_DATE,
            StringSoundType::Album => SF_STR_ALBUM,
            StringSoundType::License => SF_STR_LICENSE,
            StringSoundType::TrackNumber => SF_STR_TRACKNUMBER,
            StringSoundType::Genre => SF_STR_GENRE,
        }
    }
}

impl SeekMode {
    /// The native code of the seek mode.
    pub open spec fn spec_code(self) -> i32 {
        match self {
            SeekMode::SeekSet => SEEK_SET,
            SeekMode::SeekCur => SEEK_CUR,
            SeekMode::SeekEnd => SEEK_END,
        }
    }

    /// Returns the native code of the seek mode.
    #[verifier::when_used_as_spec(spec_code)]
    pub fn code(self) -> (code: i32)
        ensures
            code == self.spec_code(),
    {
        match self {
            SeekMode::SeekSet => SEEK_SET,
            SeekMode::SeekCur => SEEK_CUR,
            SeekMode::SeekEnd => SEEK_END,
        }
    }
}

/// Each enumeration maps one to one onto its native codes: two values with
/// the same code are the same value.
pub proof fn lemma_codes_are_distinct(
    m1: OpenMode,
    m2: OpenMode,
    t1: StringSoundType,
    t2: StringSoundType,
    s1: SeekMode,
    s2: SeekMode,
)
    ensures
        m1.spec_code() == m2.spec_code() ==> m1 == m2,
        t1.spec_code() == t2.spec_code() ==> t1 == t2,
        s1.spec_code() == s2.spec_code() ==> s1 == s2,
{
}

} // verus!
