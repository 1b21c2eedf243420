use sndfile::native::{SF_FORMAT_ENDMASK, SF_FORMAT_SUBMASK, SF_FORMAT_TYPEMASK};
use sndfile::{FormatClass, FormatIdentifier, FormatType};

const CONTAINERS: [(FormatType, i32); 25] = [
    (FormatType::FormatWav, 0x010000),
    (FormatType::FormatAiff, 0x020000),
    (FormatType::FormatAu, 0x030000),
    (FormatType::FormatRaw, 0x040000),
    (FormatType::FormatPaf, 0x050000),
    (FormatType::FormatSvx, 0x060000),
    (FormatType::FormatNist, 0x070000),
    (FormatType::FormatVoc, 0x080000),
    (FormatType::FormatIrcam, 0x0A0000),
    (FormatType::FormatW64, 0x0B0000),
    (FormatType::FormatMat4, 0x0C0000),
    (FormatType::FormatMat5, 0x0D0000),
    (FormatType::FormatPvf, 0x0E0000),
    (FormatType::FormatXi, 0x0F0000),
    (FormatType::FormatHtk, 0x100000),
    (FormatType::FormatSds, 0x110000),
    (FormatType::FormatAvr, 0x120000),
    (FormatType::FormatWavex, 0x130000),
    (FormatType::FormatSd2, 0x160000),
    (FormatType::FormatFlac, 0x170000),
    (FormatType::FormatCaf, 0x180000),
    (FormatType::FormatWve, 0x190000),
    (FormatType::FormatOgg, 0x200000),
    (FormatType::FormatMpc2k, 0x210000),
    (FormatType::FormatRf64, 0x220000),
];

const ENCODINGS: [(FormatType, i32); 23] = [
    (FormatType::FormatPcmS8, 0x0001),
    (FormatType::FormatPcm16, 0x0002),
    (FormatType::FormatPcm24, 0x0003),
    (FormatType::FormatPcm32, 0x0004),
    (FormatType::FormatPcmU8, 0x0005),
    (FormatType::FormatFloat, 0x0006),
    (FormatType::FormatDouble, 0x0007),
    (FormatType::FormatUlaw, 0x0010),
    (FormatType::FormatAlaw, 0x0011),
    (FormatType::FormatImaAdpcm, 0x0012),
    (FormatType::FormatApcm, 0x0013),
    (FormatType::FormatGsm610, 0x0020),
    (FormatType::FormatVoxAdpcm, 0x0021),
    (FormatType::FormatG72132, 0x0030),
    (FormatType::FormatG72324, 0x0031),
    (FormatType::FormatG72340, 0x0032),
    (FormatType::FormatDww12, 0x0040),
    (FormatType::FormatDww16, 0x0041),
    (FormatType::FormatDww24, 0x0042),
    (FormatType::FormatDwwN, 0x0043),
    (FormatType::FormatDpcm8, 0x0050),
    (FormatType::FormatDpcm16, 0x0051),
    (FormatType::FormatVorbis, 0x0060),
];

const ENDIANS: [(FormatType, i32); 4] = [
    (FormatType::EndianFile, 0x00000000),
    (FormatType::EndianLittle, 0x10000000),
    (FormatType::EndianBig, 0x20000000),
    (FormatType::EndianCpu, 0x30000000),
];

#[test]
fn containers_have_the_native_codes() {
    for (format, code) in CONTAINERS {
        assert_eq!(format.code(), code);
        assert_eq!(format.class(), FormatClass::Container);
    }
}

#[test]
fn encodings_have_the_native_codes() {
    for (format, code) in ENCODINGS {
        assert_eq!(format.code(), code);
        assert_eq!(format.class(), FormatClass::Encoding);
    }
}

#[test]
fn endians_have_the_native_codes() {
    for (format, code) in ENDIANS {
        assert_eq!(format.code(), code);
        assert_eq!(format.class(), FormatClass::Endian);
    }
}

#[test]
fn masks_have_the_native_codes() {
    assert_eq!(FormatType::FormatSubMask.code(), 0x0000FFFF);
    assert_eq!(FormatType::FormatTypeMask.code(), 0x0FFF0000);
    assert_eq!(FormatType::FormatSubMask.class(), FormatClass::Mask);
    assert_eq!(FormatType::FormatTypeMask.class(), FormatClass::Mask);
    assert_eq!(SF_FORMAT_SUBMASK, 0x0000FFFF);
    assert_eq!(SF_FORMAT_TYPEMASK, 0x0FFF0000);
    assert_eq!(SF_FORMAT_ENDMASK, 0x30000000);
}

#[test]
fn lookups_invert_the_codes() {
    for (format, code) in CONTAINERS {
        assert_eq!(FormatType::container_from_code(code), Some(format));
        assert_eq!(FormatType::encoding_from_code(code), None);
    }
    for (format, code) in ENCODINGS {
        assert_eq!(FormatType::encoding_from_code(code), Some(format));
        assert_eq!(FormatType::container_from_code(code), None);
    }
    for (format, code) in ENDIANS {
        assert_eq!(FormatType::endian_from_code(code), Some(format));
    }
}

#[test]
fn lookups_find_nothing_for_other_codes() {
    assert_eq!(FormatType::container_from_code(0), None);
    assert_eq!(FormatType::container_from_code(0x090000), None);
    assert_eq!(FormatType::container_from_code(0x140000), None);
    assert_eq!(FormatType::container_from_code(0x0FFF0000), None);
    assert_eq!(FormatType::encoding_from_code(0), None);
    assert_eq!(FormatType::encoding_from_code(0x0008), None);
    assert_eq!(FormatType::encoding_from_code(0xFFFF), None);
    assert_eq!(FormatType::endian_from_code(0x40000000), None);
    assert_eq!(FormatType::endian_from_code(1), None);
    assert_eq!(FormatType::endian_from_code(-1), None);
}

#[test]
fn wav_pcm16_is_taken_apart() {
    let id = FormatIdentifier::from_bits(0x010002);
    assert_eq!(
        id,
        FormatIdentifier::Known {
            container: FormatType::FormatWav,
            encoding: FormatType::FormatPcm16,
            endian: FormatType::EndianFile,
        }
    );
    assert_eq!(id.bits(), 0x010002);
}

#[test]
fn ogg_vorbis_big_endian_is_taken_apart() {
    let id = FormatIdentifier::from_bits(0x20200060);
    assert_eq!(
        id,
        FormatIdentifier::Known {
            container: FormatType::FormatOgg,
            encoding: FormatType::FormatVorbis,
            endian: FormatType::EndianBig,
        }
    );
    assert_eq!(id.bits(), 0x20200060);
}

#[test]
fn every_known_combination_goes_round() {
    for (container, c) in CONTAINERS {
        for (encoding, e) in ENCODINGS {
            for (endian, n) in ENDIANS {
                let known = FormatIdentifier::Known { container, encoding, endian };
                assert_eq!(FormatIdentifier::new(container, encoding, endian), Some(known));
                assert_eq!(known.bits(), c | e | n);
                assert_eq!(FormatIdentifier::from_bits(c | e | n), known);
            }
        }
    }
}

#[test]
fn unknown_identifiers_are_kept_as_they_are() {
    let unknown = [
        0,
        0x010000,
        0x0002,
        0x090002,
        0x010008,
        0x230001,
        0x40010002,
        -1,
        i32::MIN,
        i32::MAX,
        i32::MIN | 0x010002,
    ];
    for bits in unknown {
        assert_eq!(FormatIdentifier::from_bits(bits), FormatIdentifier::Raw(bits));
        assert_eq!(FormatIdentifier::from_bits(bits).bits(), bits);
    }
}

#[test]
fn every_identifier_is_rebuilt_exactly() {
    let mut bits: i32 = i32::MIN;
    loop {
        assert_eq!(FormatIdentifier::from_bits(bits).bits(), bits);
        match bits.checked_add(0x000F_4243) {
            Some(next) => bits = next,
            None => break,
        }
    }
    for bits in 0x00FF_FF00..0x0101_0100 {
        assert_eq!(FormatIdentifier::from_bits(bits).bits(), bits);
    }
}

#[test]
fn new_refuses_parts_in_the_wrong_place() {
    assert_eq!(
        FormatIdentifier::new(FormatType::FormatPcm16, FormatType::FormatWav, FormatType::EndianFile),
        None
    );
    assert_eq!(
        FormatIdentifier::new(FormatType::FormatWav, FormatType::FormatPcm16, FormatType::FormatPcm16),
        None
    );
    assert_eq!(
        FormatIdentifier::new(FormatType::FormatTypeMask, FormatType::FormatSubMask, FormatType::EndianCpu),
        None
    );
    assert_eq!(
        FormatIdentifier::new(FormatType::FormatWav, FormatType::EndianBig, FormatType::EndianBig),
        None
    );
}

#[test]
fn raw_holds_any_number() {
    assert_eq!(FormatIdentifier::Raw(0x010002).bits(), 0x010002);
    assert_eq!(FormatIdentifier::Raw(-5).bits(), -5);
}
