use sndfile::{NativeCall, SampleType, SndFile, SndInfo, TransferUnit, UsageError};

fn with_channels(channels: i32) -> SndFile {
    let info = SndInfo { frames: 64, samplerate: 8000, channels, format: 0x010002, sections: 1, seekable: 1 };
    match SndFile::opened(0x900, info) {
        Ok(file) => file,
        Err(call) => panic!("no handle: {:?}", call),
    }
}

fn read(sample: SampleType, unit: TransferUnit, count: i64) -> Result<NativeCall, UsageError> {
    Ok(NativeCall::Read { handle: 0x900, sample, unit, count })
}

fn write(sample: SampleType, unit: TransferUnit, count: i64) -> Result<NativeCall, UsageError> {
    Ok(NativeCall::Write { handle: 0x900, sample, unit, count })
}

#[test]
fn each_read_names_its_sample_type_and_unit() {
    let mut file = with_channels(2);
    assert_eq!(file.read_i16(16, 8), read(SampleType::I16, TransferUnit::Items, 8));
    assert_eq!(file.read_i32(16, 8), read(SampleType::I32, TransferUnit::Items, 8));
    assert_eq!(file.read_f32(16, 8), read(SampleType::F32, TransferUnit::Items, 8));
    assert_eq!(file.read_f64(16, 8), read(SampleType::F64, TransferUnit::Items, 8));
    assert_eq!(file.readf_i16(16, 8), read(SampleType::I16, TransferUnit::Frames, 8));
    assert_eq!(file.readf_i32(16, 8), read(SampleType::I32, TransferUnit::Frames, 8));
    assert_eq!(file.readf_f32(16, 8), read(SampleType::F32, TransferUnit::Frames, 8));
    assert_eq!(file.readf_f64(16, 8), read(SampleType::F64, TransferUnit::Frames, 8));
}

#[test]
fn each_write_names_its_sample_type_and_unit() {
    let mut file = with_channels(2);
    assert_eq!(file.write_i16(16, 8), write(SampleType::I16, TransferUnit::Items, 8));
    assert_eq!(file.write_i32(16, 8), write(SampleType::I32, TransferUnit::Items, 8));
    assert_eq!(file.write_f32(16, 8), write(SampleType::F32, TransferUnit::Items, 8));
    assert_eq!(file.write_f64(16, 8), write(SampleType::F64, TransferUnit::Items, 8));
    assert_eq!(file.writef_i16(16, 8), write(SampleType::I16, TransferUnit::Frames, 8));
    assert_eq!(file.writef_i32(16, 8), write(SampleType::I32, TransferUnit::Frames, 8));
    assert_eq!(file.writef_f32(16, 8), write(SampleType::F32, TransferUnit::Frames, 8));
    assert_eq!(file.writef_f64(16, 8), write(SampleType::F64, TransferUnit::Frames, 8));
}

#[test]
fn items_up_to_the_capacity_pass() {
    let mut file = with_channels(2);
    assert_eq!(file.read_i16(10, 10), read(SampleType::I16, TransferUnit::Items, 10));
    assert_eq!(file.read_i16(10, 11), Err(UsageError::CountOutOfRange));
    assert_eq!(file.write_f32(10, 10), write(SampleType::F32, TransferUnit::Items, 10));
    assert_eq!(file.write_f32(10, 11), Err(UsageError::CountOutOfRange));
}

#[test]
fn frames_count_once_per_channel() {
    let mut file = with_channels(2);
    assert_eq!(file.readf_i32(10, 5), read(SampleType::I32, TransferUnit::Frames, 5));
    assert_eq!(file.readf_i32(10, 6), Err(UsageError::CountOutOfRange));
    assert_eq!(file.readf_i32(11, 5), read(SampleType::I32, TransferUnit::Frames, 5));
    assert_eq!(file.readf_i32(11, 6), Err(UsageError::CountOutOfRange));
    assert_eq!(file.writef_f64(12, 6), write(SampleType::F64, TransferUnit::Frames, 6));
    let mut surround = with_channels(6);
    assert_eq!(surround.readf_i16(12, 2), read(SampleType::I16, TransferUnit::Frames, 2));
    assert_eq!(surround.readf_i16(12, 3), Err(UsageError::CountOutOfRange));
}

#[test]
fn a_count_of_zero_passes_even_into_an_empty_buffer() {
    let mut file = with_channels(2);
    assert_eq!(file.read_i16(0, 0), read(SampleType::I16, TransferUnit::Items, 0));
    assert_eq!(file.readf_f32(0, 0), read(SampleType::F32, TransferUnit::Frames, 0));
    assert_eq!(file.write_i32(0, 0), write(SampleType::I32, TransferUnit::Items, 0));
    assert_eq!(file.writef_f64(0, 0), write(SampleType::F64, TransferUnit::Frames, 0));
}

#[test]
fn negative_counts_are_refused() {
    let mut file = with_channels(2);
    assert_eq!(file.read_i16(10, -1), Err(UsageError::CountOutOfRange));
    assert_eq!(file.readf_i16(10, -1), Err(UsageError::CountOutOfRange));
    assert_eq!(file.write_f64(10, i64::MIN), Err(UsageError::CountOutOfRange));
    assert_eq!(file.writef_f64(10, i64::MIN), Err(UsageError::CountOutOfRange));
}

#[test]
fn frames_need_a_channel() {
    let mut silent = with_channels(0);
    assert_eq!(silent.readf_i16(10, 1), Err(UsageError::CountOutOfRange));
    assert_eq!(silent.readf_i16(10, 0), Err(UsageError::CountOutOfRange));
    assert_eq!(silent.writef_i32(10, 1), Err(UsageError::CountOutOfRange));
    assert_eq!(silent.read_i16(10, 1), read(SampleType::I16, TransferUnit::Items, 1));
    let mut broken = with_channels(-2);
    assert_eq!(broken.readf_f32(10, 1), Err(UsageError::CountOutOfRange));
    assert_eq!(broken.write_f32(10, 10), write(SampleType::F32, TransferUnit::Items, 10));
}

#[test]
fn huge_requests_do_not_wrap_around() {
    let mut file = with_channels(i32::MAX);
    assert_eq!(file.readf_i16(usize::MAX, i64::MAX), Err(UsageError::CountOutOfRange));
    assert_eq!(file.readf_i16(i32::MAX as usize, 1), read(SampleType::I16, TransferUnit::Frames, 1));
    assert_eq!(file.readf_i16(i32::MAX as usize - 1, 1), Err(UsageError::CountOutOfRange));
    let mut stereo = with_channels(2);
    assert_eq!(stereo.writef_i16(16, i64::MAX), Err(UsageError::CountOutOfRange));
    assert_eq!(stereo.write_i16(16, i64::MAX), Err(UsageError::CountOutOfRange));
}

#[test]
fn a_refused_transfer_leaves_the_handle_usable() {
    let mut file = with_channels(2);
    assert_eq!(file.read_i16(4, 5), Err(UsageError::CountOutOfRange));
    assert!(file.is_open());
    assert_eq!(file.read_i16(4, 4), read(SampleType::I16, TransferUnit::Items, 4));
}

#[test]
fn asking_for_more_than_the_stream_holds_is_forwarded() {
    let mut file = with_channels(2);
    let frames = file.get_sndinfo().frames + 36;
    assert_eq!(file.readf_i16(200, frames), read(SampleType::I16, TransferUnit::Frames, 100));
}
