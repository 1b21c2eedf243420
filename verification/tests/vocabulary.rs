use sndfile::native::{SF_FALSE, SF_TRUE};
use sndfile::{NativeCall, OpenMode, SampleType, SeekMode, SndInfo, StringSoundType, TransferUnit};

#[test]
fn open_modes_have_the_native_codes() {
    assert_eq!(OpenMode::Read.code(), 0x10);
    assert_eq!(OpenMode::Write.code(), 0x20);
    assert_eq!(OpenMode::ReadWrite.code(), 0x30);
}

#[test]
fn seek_modes_have_the_native_codes() {
    assert_eq!(SeekMode::SeekSet.code(), 0);
    assert_eq!(SeekMode::SeekCur.code(), 1);
    assert_eq!(SeekMode::SeekEnd.code(), 2);
}

#[test]
fn tags_have_the_native_codes() {
    assert_eq!(StringSoundType::Title.code(), 0x01);
    assert_eq!(StringSoundType::Copyright.code(), 0x02);
    assert_eq!(StringSoundType::Software.code(), 0x03);
    assert_eq!(StringSoundType::Artist.code(), 0x04);
    assert_eq!(StringSoundType::Comment.code(), 0x05);
    assert_eq!(StringSoundType::Date.code(), 0x06);
    assert_eq!(StringSoundType::Album.code(), 0x07);
    assert_eq!(StringSoundType::License.code(), 0x08);
    assert_eq!(StringSoundType::TrackNumber.code(), 0x09);
    assert_eq!(StringSoundType::Genre.code(), 0x10);
}

#[test]
fn tag_codes_are_distinct() {
    let tags = [
        StringSoundType::Title,
        StringSoundType::Copyright,
        StringSoundType::Software,
        StringSoundType::Artist,
        StringSoundType::Comment,
        StringSoundType::Date,
        StringSoundType::Album,
        StringSoundType::License,
        StringSoundType::TrackNumber,
        StringSoundType::Genre,
    ];
    for (i, a) in tags.iter().enumerate() {
        for (j, b) in tags.iter().enumerate() {
            assert_eq!(a.code() == b.code(), i == j);
        }
    }
}

#[test]
fn native_booleans() {
    assert_eq!(SF_FALSE, 0);
    assert_eq!(SF_TRUE, 1);
}

#[test]
fn zeroed_info_is_all_zero() {
    let info = SndInfo::zeroed();
    assert_eq!(info.frames, 0);
    assert_eq!(info.samplerate, 0);
    assert_eq!(info.channels, 0);
    assert_eq!(info.format, 0);
    assert_eq!(info.sections, 0);
    assert_eq!(info.seekable, 0);
}

#[test]
fn calls_without_a_handle_report_none() {
    let info = SndInfo::zeroed();
    assert_eq!(NativeCall::Open { mode: 0x10, info }.handle(), None);
    assert_eq!(NativeCall::OpenFd { fd: 3, mode: 0x10, info, close_desc: 1 }.handle(), None);
    assert_eq!(NativeCall::FormatCheck { info }.handle(), None);
    assert_eq!(NativeCall::ErrorNumber { code: 2 }.handle(), None);
}

#[test]
fn calls_on_a_handle_report_it() {
    assert_eq!(NativeCall::Error { handle: 0 }.handle(), Some(0));
    assert_eq!(NativeCall::GetString { handle: 7, kind: 1 }.handle(), Some(7));
    assert_eq!(NativeCall::SetString { handle: 8, kind: 1 }.handle(), Some(8));
    assert_eq!(NativeCall::Close { handle: 9 }.handle(), Some(9));
    assert_eq!(NativeCall::WriteSync { handle: 10 }.handle(), Some(10));
    assert_eq!(NativeCall::Seek { handle: 11, frames: 0, whence: 0 }.handle(), Some(11));
    let read = NativeCall::Read {
        handle: 12,
        sample: SampleType::F32,
        unit: TransferUnit::Items,
        count: 4,
    };
    assert_eq!(read.handle(), Some(12));
    let write = NativeCall::Write {
        handle: 13,
        sample: SampleType::I32,
        unit: TransferUnit::Frames,
        count: 4,
    };
    assert_eq!(write.handle(), Some(13));
}
