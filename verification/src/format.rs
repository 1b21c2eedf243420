//! Format identifiers: the enumeration of the native format constants, and
//! the decomposition of a combined identifier into container, sample encoding
//! and byte order.
//!
//! A combined identifier is a bit mask. Its container is the part under
//! `SF_FORMAT_TYPEMASK`, its sample encoding the part under
//! `SF_FORMAT_SUBMASK`, its byte order the part under `SF_FORMAT_ENDMASK`.
//! Whether a combination can be written is for the native library to say;
//! nothing here judges that.

use vstd::prelude::*;
use crate::native::{
    SF_ENDIAN_BIG, SF_ENDIAN_CPU, SF_ENDIAN_FILE, SF_ENDIAN_LITTLE, SF_FORMAT_AIFF,
    SF_FORMAT_ALAW, SF_FORMAT_AU, SF_FORMAT_AVR, SF_FORMAT_CAF, SF_FORMAT_DOUBLE,
    SF_FORMAT_DPCM_16, SF_FORMAT_DPCM_8, SF_FORMAT_DWVW_12, SF_FORMAT_DWVW_16,
    SF_FORMAT_DWVW_24, SF_FORMAT_DWVW_N, SF_FORMAT_ENDMASK, SF_FORMAT_FLAC, SF_FORMAT_FLOAT,
    SF_FORMAT_G721_32, SF_FORMAT_G723_24, SF_FORMAT_G723_40, SF_FORMAT_GSM610, SF_FORMAT_HTK,
    SF_FORMAT_IMA_ADPCM, SF_FORMAT_IRCAM, SF_FORMAT_MAT4, SF_FORMAT_MAT5, SF_FORMAT_MPC2K,
    SF_FORMAT_MS_ADPCM, SF_FORMAT_NIST, SF_FORMAT_OGG, SF_FORMAT_PAF, SF_FORMAT_PCM_16,
    SF_FORMAT_PCM_24, SF_FORMAT_PCM_32, SF_FORMAT_PCM_S8, SF_FORMAT_PCM_U8, SF_FORMAT_PVF,
    SF_FORMAT_RAW, SF_FORMAT_RF64, SF_FORMAT_SD2, SF_FORMAT_SDS, SF_FORMAT_SUBMASK,
    SF_FORMAT_SVX, SF_FORMAT_TYPEMASK, SF_FORMAT_ULAW, SF_FORMAT_VOC, SF_FORMAT_VORBIS,
    SF_FORMAT_VOX_ADPCM, SF_FORMAT_W64, SF_FORMAT_WAV, SF_FORMAT_WAVEX, SF_FORMAT_WVE,
    SF_FORMAT_XI,
};

verus! {

/// Enum who contains the list of the supported audio format
#[derive(Clone, Copy, Debug, PartialEq, Eq, PartialOrd, Structural)]
pub enum FormatType {
    /// Microsoft WAV format (little endian)
    FormatWav,
    /// Apple/SGI AIFF format (big endian)
    FormatAiff,
    /// Sun/NeXT AU format (big endian)
    FormatAu,
    /// RAW PCM data
    FormatRaw,
    /// Ensoniq PARIS file format
    FormatPaf,
    /// Amiga IFF / SVX8 / SV16 format
    FormatSvx,
    /// Sphere NIST format
    FormatNist,
    /// VOC files
    FormatVoc,
    /// Berkeley/IRCAM/CARL
    FormatIrcam,
    /// Sonic Foundry's 64 bit RIFF/WAV
    FormatW64,
    /// Matlab (tm) V4.2 / GNU Octave 2.0
    FormatMat4,
    /// Matlab (tm) V5.0 / GNU Octave 2.1
    FormatMat5,
    /// Portable Voice Format
    FormatPvf,
    /// Fasttracker 2 Extended Instrument
    FormatXi,
    /// HMM Tool Kit format
    FormatHtk,
    /// Midi Sample Dump Standard
    FormatSds,
    /// Audio Visual Research
    FormatAvr,
    /// MS WAVE with WAVEFORMATEX
    FormatWavex,
    /// Sound Designer 2
    FormatSd2,
    /// FLAC lossless file format
    FormatFlac,
    /// Core Audio File format
    FormatCaf,
    /// Psion WVE format
    FormatWve,
    /// Xiph OGG container
    FormatOgg,
    /// Akai MPC 2000 sampler
    FormatMpc2k,
    /// RF64 WAV file
    FormatRf64,
    /// Signed 8 bit data
    FormatPcmS8,
    /// Signed 16 bit data
    FormatPcm16,
    /// Signed 24 bit data
    FormatPcm24,
    /// Signed 32 bit data
    FormatPcm32,
    /// Unsigned 8 bit data (WAV and RAW only)
    FormatPcmU8,
    /// 32 bit float data
    FormatFloat,
    /// 64 bit float data
    FormatDouble,
    /// U-Law encoded
    FormatUlaw,
    /// A-Law encoded
    FormatAlaw,
    /// IMA ADPCM
    FormatImaAdpcm,
    /// Microsoft ADPCM
    FormatApcm,
    /// GSM 6.10 encoding
    FormatGsm610,
    /// Oki Dialogic ADPCM encoding
    FormatVoxAdpcm,
    /// 32kbs G721 ADPCM encoding
    FormatG72132,
    /// 24kbs G723 ADPCM encoding
    FormatG72324,
    /// 40kbs G723 ADPCM encoding
    FormatG72340,
    /// 12 bit Delta Width Variable Word encoding
    FormatDww12,
    /// 16 bit Delta Width Variable Word encoding
    FormatDww16,
    /// 24 bit Delta Width Variable Word encoding
    FormatDww24,
    /// N bit Delta Width Variable Word encoding
    FormatDwwN,
    /// 8 bit differential PCM (XI only)
    FormatDpcm8,
    /// 16 bit differential PCM (XI only)
    FormatDpcm16,
    /// Xiph Vorbis encoding
    FormatVorbis,
    /// Default file endian-ness
    EndianFile,
    /// Force little endian-ness
    EndianLittle,
    /// Force big endian-ness
    EndianBig,
    /// Force CPU endian-ness
    EndianCpu,
    /// Sub mask
    FormatSubMask,
    /// Type mask
    FormatTypeMask,
}

/// The part of a combined identifier that a format constant belongs to.
#[derive(Clone, Copy, Debug, PartialEq, Eq, PartialOrd, Structural)]
pub enum FormatClass {
    /// A container format, such as WAV
    Container,
    /// A sample encoding, such as 16 bit PCM
    Encoding,
    /// A byte order override
    Endian,
    /// One of the two masks that select a part
    Mask,
}

impl FormatType {
    /// The native constant of the value.
    pub open spec fn spec_code(&self) -> i32 {
        match *self {
            FormatType::FormatWav => SF_FORMAT_WAV,
            FormatType::FormatAiff => SF_FORMAT_AIFF,
            FormatType::FormatAu => SF_FORMAT_AU,
            FormatType::FormatRaw => SF_FORMAT_RAW,
            FormatType::FormatPaf => SF_FORMAT_PAF,
            FormatType::FormatSvx => SF_FORMAT_SVX,
            FormatType::FormatNist => SF_FORMAT_NIST,
            FormatType::FormatVoc => SF_FORMAT_VOC,
            FormatType::FormatIrcam => SF_FORMAT_IRCAM,
            FormatType::FormatW64 => SF_FORMAT_W64,
            FormatType::FormatMat4 => SF_FORMAT_MAT4,
            FormatType::FormatMat5 => SF_FORMAT_MAT5,
            FormatType::FormatPvf => SF_FORMAT_PVF,
            FormatType::FormatXi => SF_FORMAT_XI,
            FormatType::FormatHtk => SF_FORMAT_HTK,
            FormatType::FormatSds => SF_FORMAT_SDS,
            FormatType::FormatAvr => SF_FORMAT_AVR,
            FormatType::FormatWavex => SF_FORMAT_WAVEX,
            FormatType::FormatSd2 => SF_FORMAT_SD2,
            FormatType::FormatFlac => SF_FORMAT_FLAC,
            FormatType::FormatCaf => SF_FORMAT_CAF,
            FormatType::FormatWve => SF_FORMAT_WVE,
            FormatType::FormatOgg => SF_FORMAT_OGG,
            FormatType::FormatMpc2k => SF_FORMAT_MPC2K,
            FormatType::FormatRf64 => SF_FORMAT_RF64,
            FormatType::FormatPcmS8 => SF_FORMAT_PCM_S8,
            FormatType::FormatPcm16 => SF_FORMAT_PCM_16,
            FormatType::FormatPcm24 => SF_FORMAT_PCM_24,
            FormatType::FormatPcm32 => SF_FORMAT_PCM_32,
            FormatType::FormatPcmU8 => SF_FORMAT_PCM_U8,
            FormatType::FormatFloat => SF_FORMAT_FLOAT,
            FormatType::FormatDouble => SF_FORMAT_DOUBLE,
            FormatType::FormatUlaw => SF_FORMAT_ULAW,
            FormatType::FormatAlaw => SF_FORMAT_ALAW,
            FormatType::FormatImaAdpcm => SF_FORMAT_IMA_ADPCM,
            FormatType::FormatApcm => SF_FORMAT_MS_ADPCM,
            FormatType::FormatGsm610 => SF_FORMAT_GSM610,
            FormatType::FormatVoxAdpcm => SF_FORMAT_VOX_ADPCM,
            FormatType::FormatG72132 => SF_FORMAT_G721_32,
            FormatType::FormatG72324 => SF_FORMAT_G723_24,
            FormatType::FormatG72340 => SF_FORMAT_G723_40,
            FormatType::FormatDww12 => SF_FORMAT_DWVW_12,
            FormatType::FormatDww16 => SF_FORMAT_DWVW_16,
            FormatType::FormatDww24 => SF_FORMAT_DWVW_24,
            FormatType::FormatDwwN => SF_FORMAT_DWVW_N,
            FormatType::FormatDpcm8 => SF_FORMAT_DPCM_8,
            FormatType::FormatDpcm16 => SF_FORMAT_DPCM_16,
            FormatType::FormatVorbis => SF_FORMAT_VORBIS,
            FormatType::EndianFile => SF_ENDIAN_FILE,
            FormatType::EndianLittle => SF_ENDIAN_LITTLE,
            FormatType::EndianBig => SF_ENDIAN_BIG,
            FormatType::EndianCpu => SF_ENDIAN_CPU,
            FormatType::FormatSubMask => SF_FORMAT_SUBMASK,
            FormatType::FormatTypeMask => SF_FORMAT_TYPEMASK,
        }
    }

    /// The part of a combined identifier that the value belongs to.
    pub open spec fn spec_class(&self) -> FormatClass {
        match *self {
            FormatType::FormatWav | FormatType::FormatAiff | FormatType::FormatAu
            | FormatType::FormatRaw | FormatType::FormatPaf | FormatType::FormatSvx
            | FormatType::FormatNist | FormatType::FormatVoc | FormatType::FormatIrcam
            | FormatType::FormatW64 | FormatType::FormatMat4 | FormatType::FormatMat5
            | FormatType::FormatPvf | FormatType::FormatXi | FormatType::FormatHtk
            | FormatType::FormatSds | FormatType::FormatAvr | FormatType::FormatWavex
            | FormatType::FormatSd2 | FormatType::FormatFlac | FormatType::FormatCaf
            | FormatType::FormatWve | FormatType::FormatOgg | FormatType::FormatMpc2k
            | FormatType::FormatRf64 => FormatClass::Container,
            FormatType::FormatPcmS8 | FormatType::FormatPcm16 | FormatType::FormatPcm24
            | FormatType::FormatPcm32 | FormatType::FormatPcmU8 | FormatType::FormatFloat
            | FormatType::FormatDouble | FormatType::FormatUlaw | FormatType::FormatAlaw
            | FormatType::FormatImaAdpcm | FormatType::FormatApcm | FormatType::FormatGsm610
            | FormatType::FormatVoxAdpcm | FormatType::FormatG72132 | FormatType::FormatG72324
            | FormatType::FormatG72340 | FormatType::FormatDww12 | FormatType::FormatDww16
            | FormatType::FormatDww24 | FormatType::FormatDwwN | FormatType::FormatDpcm8
            | FormatType::FormatDpcm16 | FormatType::FormatVorbis => FormatClass::Encoding,
            FormatType::EndianFile | FormatType::EndianLittle | FormatType::EndianBig
            | FormatType::EndianCpu => FormatClass::Endian,
            FormatType::FormatSubMask | FormatType::FormatTypeMask => FormatClass::Mask,
        }
    }

    /// Returns the native constant of the value.
    #[verifier::when_used_as_spec(spec_code)]
    pub fn code(&self) -> (code: i32)
        ensures
            code == self.spec_code(),
    {
        match *self {
            FormatType::FormatWav => SF_FORMAT_WAV,
            FormatType::FormatAiff => SF_FORMAT_AIFF,
            FormatType::FormatAu => SF_FORMAT_AU,
            FormatType::FormatRaw => SF_FORMAT_RAW,
            FormatType::FormatPaf => SF_FORMAT_PAF,
            FormatType::FormatSvx => SF_FORMAT_SVX,
            FormatType::FormatNist => SF_FORMAT_NIST,
            FormatType::FormatVoc => SF_FORMAT_VOC,
            FormatType::FormatIrcam => SF_FORMAT_IRCAM,
            FormatType::FormatW64 => SF_FORMAT_W64,
            FormatType::FormatMat4 => SF_FORMAT_MAT4,
            FormatType::FormatMat5 => SF_FORMAT_MAT5,
            FormatType::FormatPvf => SF_FORMAT_PVF,
            FormatType::FormatXi => SF_FORMAT_XI,
            FormatType::FormatHtk => SF_FORMAT_HTK,
            FormatType::FormatSds => SF_FORMAT_SDS,
            FormatType::FormatAvr => SF_FORMAT_AVR,
            FormatType::FormatWavex => SF_FORMAT_WAVEX,
            FormatType::FormatSd2 => SF_FORMAT_SD2,
            FormatType::FormatFlac => SF_FORMAT_FLAC,
            FormatType::FormatCaf => SF_FORMAT_CAF,
            FormatType::FormatWve => SF_FORMAT_WVE,
            FormatType::FormatOgg => SF_FORMAT_OGG,
            FormatType::FormatMpc2k => SF_FORMAT_MPC2K,
            FormatType::FormatRf64 => SF_FORMAT_RF64,
            FormatType::FormatPcmS8 => SF_FORMAT_PCM_S8,
            FormatType::FormatPcm16 => SF_FORMAT_PCM_16,
            FormatType::FormatPcm24 => SF_FORMAT_PCM_24,
            FormatType::FormatPcm32 => SF_FORMAT_PCM_32,
            FormatType::FormatPcmU8 => SF_FORMAT_PCM_U8,
            FormatType::FormatFloat => SF_FORMAT_FLOAT,
            FormatType::FormatDouble => SF_FORMAT_DOUBLE,
            FormatType::FormatUlaw => SF_FORMAT_ULAW,
            FormatType::FormatAlaw => SF_FORMAT_ALAW,
            FormatType::FormatImaAdpcm => SF_FORMAT_IMA_ADPCM,
            FormatType::FormatApcm => SF_FORMAT_MS_ADPCM,
            FormatType::FormatGsm610 => SF_FORMAT_GSM610,
            FormatType::FormatVoxAdpcm => SF_FORMAT_VOX_ADPCM,
            FormatType::FormatG72132 => SF_FORMAT_G721_32,
            FormatType::FormatG72324 => SF_FORMAT_G723_24,
            FormatType::FormatG72340 => SF_FORMAT_G723_40,
            FormatType::FormatDww12 => SF_FORMAT_DWVW_12,
            FormatType::FormatDww16 => SF_FORMAT_DWVW_16,
            FormatType::FormatDww24 => SF_FORMAT_DWVW_24,
            FormatType::FormatDwwN => SF_FORMAT_DWVW_N,
            FormatType::FormatDpcm8 => SF_FORMAT_DPCM_8,
            FormatType::FormatDpcm16 => SF_FORMAT_DPCM_16,
            FormatType::FormatVorbis => SF_FORMAT_VORBIS,
            FormatType::EndianFile => SF_ENDIAN_FILE,
            FormatType::EndianLittle => SF_ENDIAN_LITTLE,
            FormatType::EndianBig => SF_ENDIAN_BIG,
            FormatType::EndianCpu => SF_ENDIAN_CPU,
            FormatType::FormatSubMask => SF_FORMAT_SUBMASK,
            FormatType::FormatTypeMask => SF_FORMAT_TYPEMASK,
        }
    }

    /// Returns the part of a combined identifier that the value belongs to.
    #[verifier::when_used_as_spec(spec_class)]
    pub fn class(&self) -> (class: FormatClass)
        ensures
            class == self.spec_class(),
    {
        match *self {
            FormatType::FormatWav | FormatType::FormatAiff | FormatType::FormatAu
            | FormatType::FormatRaw | FormatType::FormatPaf | FormatType::FormatSvx
            | FormatType::FormatNist | FormatType::FormatVoc | FormatType::FormatIrcam
            | FormatType::FormatW64 | FormatType::FormatMat4 | FormatType::FormatMat5
            | FormatType::FormatPvf | FormatType::FormatXi | FormatType::FormatHtk
            | FormatType::FormatSds | FormatType::FormatAvr | FormatType::FormatWavex
            | FormatType::FormatSd2 | FormatType::FormatFlac | FormatType::FormatCaf
            | FormatType::FormatWve | FormatType::FormatOgg | FormatType::FormatMpc2k
            | FormatType::FormatRf64 => FormatClass::Container,
            FormatType::FormatPcmS8 | FormatType::FormatPcm16 | FormatType::FormatPcm24
            | FormatType::FormatPcm32 | FormatType::FormatPcmU8 | FormatType::FormatFloat
            | FormatType::FormatDouble | FormatType::FormatUlaw | FormatType::FormatAlaw
            | FormatType::FormatImaAdpcm | FormatType::FormatApcm | FormatType::FormatGsm610
            | FormatType::FormatVoxAdpcm | FormatType::FormatG72132 | FormatType::FormatG72324
            | FormatType::FormatG72340 | FormatType::FormatDww12 | FormatType::FormatDww16
            | FormatType::FormatDww24 | FormatType::FormatDwwN | FormatType::FormatDpcm8
            | FormatType::FormatDpcm16 | FormatType::FormatVorbis => FormatClass::Encoding,
            FormatType::EndianFile | FormatType::EndianLittle | FormatType::EndianBig
            | FormatType::EndianCpu => FormatClass::Endian,
            FormatType::FormatSubMask | FormatType::FormatTypeMask => FormatClass::Mask,
        }
    }

    /// Whether the value is the constant of class `class` whose code is
    /// `code`.
    pub open spec fn names(&self, class: FormatClass, code: i32) -> bool {
        self.spec_class() == class && self.spec_code() == code
    }

    /// Returns the container format whose constant is `code`, if there is one.
    pub fn container_from_code(code: i32) -> (found: Option<FormatType>)
        ensures
            match found {
                Some(format) => format.names(FormatClass::Container, code),
                None => forall|format: FormatType| !#[trigger] format.names(FormatClass::Container, code),
            },
    {
        if code == SF_FORMAT_WAV {
            Some(FormatType::FormatWav)
        } else if code == SF_FORMAT_AIFF {
            Some(FormatType::FormatAiff)
        } else if code == SF_FORMAT_AU {
            Some(FormatType::FormatAu)
        } else if code == SF_FORMAT_RAW {
            Some(FormatType::FormatRaw)
        } else if code == SF_FORMAT_PAF {
            Some(FormatType::FormatPaf)
        } else if code == SF_FORMAT_SVX {
            Some(FormatType::FormatSvx)
        } else if code == SF_FORMAT_NIST {
            Some(FormatType::FormatNist)
        } else if code == SF_FORMAT_VOC {
            Some(FormatType::FormatVoc)
        } else if code == SF_FORMAT_IRCAM {
            Some(FormatType::FormatIrcam)
        } else if code == SF_FORMAT_W64 {
            Some(FormatType::FormatW64)
        } else if code == SF_FORMAT_MAT4 {
            Some(FormatType::FormatMat4)
        } else if code == SF_FORMAT_MAT5 {
            Some(FormatType::FormatMat5)
        } else if code == SF_FORMAT_PVF {
            Some(FormatType::FormatPvf)
        } else if code == SF_FORMAT_XI {
            Some(FormatType::FormatXi)
        } else if code == SF_FORMAT_HTK {
            Some(FormatType::FormatHtk)
        } else if code == SF_FORMAT_SDS {
            Some(FormatType::FormatSds)
        } else if code == SF_FORMAT_AVR {
            Some(FormatType::FormatAvr)
        } else if code == SF_FORMAT_WAVEX {
            Some(FormatType::FormatWavex)
        } else if code == SF_FORMAT_SD2 {
            Some(FormatType::FormatSd2)
        } else if code == SF_FORMAT_FLAC {
            Some(FormatType::FormatFlac)
        } else if code == SF_FORMAT_CAF {
            Some(FormatType::FormatCaf)
        } else if code == SF_FORMAT_WVE {
            Some(FormatType::FormatWve)
        } else if code == SF_FORMAT_OGG {
            Some(FormatType::FormatOgg)
        } else if code == SF_FORMAT_MPC2K {
            Some(FormatType::FormatMpc2k)
        } else if code == SF_FORMAT_RF64 {
            Some(FormatType::FormatRf64)
        } else {
            None
        }
    }

    /// Returns the sample encoding whose constant is `code`, if there is one.
    pub fn encoding_from_code(code: i32) -> (found: Option<FormatType>)
        ensures
            match found {
                Some(format) => format.names(FormatClass::Encoding, code),
                None => forall|format: FormatType| !#[trigger] format.names(FormatClass::Encoding, code),
            },
    {
        if code == SF_FORMAT_PCM_S8 {
            Some(FormatType::FormatPcmS8)
        } else if code == SF_FORMAT_PCM_16 {
            Some(FormatType::FormatPcm16)
        } else if code == SF_FORMAT_PCM_24 {
            Some(FormatType::FormatPcm24)
        } else if code == SF_FORMAT_PCM_32 {
            Some(FormatType::FormatPcm32)
        } else if code == SF_FORMAT_PCM_U8 {
            Some(FormatType::FormatPcmU8)
        } else if code == SF_FORMAT_FLOAT {
            Some(FormatType::FormatFloat)
        } else if code == SF_FORMAT_DOUBLE {
            Some(FormatType::FormatDouble)
        } else if code == SF_FORMAT_ULAW {
            Some(FormatType::FormatUlaw)
        } else if code == SF_FORMAT_ALAW {
            Some(FormatType::FormatAlaw)
        } else if code == SF_FORMAT_IMA_ADPCM {
            Some(FormatType::FormatImaAdpcm)
        } else if code == SF_FORMAT_MS_ADPCM {
            Some(FormatType::FormatApcm)
        } else if code == SF_FORMAT_GSM610 {
            Some(FormatType::FormatGsm610)
        } else if code == SF_FORMAT_VOX_ADPCM {
            Some(FormatType::FormatVoxAdpcm)
        } else if code == SF_FORMAT_G721_32 {
            Some(FormatType::FormatG72132)
        } else if code == SF_FORMAT_G723_24 {
            Some(FormatType::FormatG72324)
        } else if code == SF_FORMAT_G723_40 {
            Some(FormatType::FormatG72340)
        } else if code == SF_FORMAT_DWVW_12 {
            Some(FormatType::FormatDww12)
        } else if code == SF_FORMAT_DWVW_16 {
            Some(FormatType::FormatDww16)
        } else if code == SF_FORMAT_DWVW_24 {
            Some(FormatType::FormatDww24)
        } else if code == SF_FORMAT_DWVW_N {
            Some(FormatType::FormatDwwN)
        } else if code == SF_FORMAT_DPCM_8 {
            Some(FormatType::FormatDpcm8)
        } else if code == SF_FORMAT_DPCM_16 {
            Some(FormatType::FormatDpcm16)
        } else if code == SF_FORMAT_VORBIS {
            Some(FormatType::FormatVorbis)
        } else {
            None
        }
    }

    /// Returns the byte order override whose constant is `code`, if there is one.
    pub fn endian_from_code(code: i32) -> (found: Option<FormatType>)
        ensures
            match found {
                Some(format) => format.names(FormatClass::Endian, code),
                None => forall|format: FormatType| !#[trigger] format.names(FormatClass::Endian, code),
            },
    {
        if code == SF_ENDIAN_FILE {
            Some(FormatType::EndianFile)
        } else if code == SF_ENDIAN_LITTLE {
            Some(FormatType::EndianLittle)
        } else if code == SF_ENDIAN_BIG {
            Some(FormatType::EndianBig)
        } else if code == SF_ENDIAN_CPU {
            Some(FormatType::EndianCpu)
        } else {
            None
        }
    }

}

/// Whether the three values can stand together in a combined identifier: a
/// container, a sample encoding and a byte order override, in that order.
pub open spec fn well_classed(container: FormatType, encoding: FormatType, endian: FormatType)
    -> bool {
    &&& container.spec_class() == FormatClass::Container
    &&& encoding.spec_class() == FormatClass::Encoding
    &&& endian.spec_class() == FormatClass::Endian
}

/// The combined identifier of a container, a sample encoding and a byte
/// order: the three constants joined bit by bit.
pub open spec fn compose(container: FormatType, encoding: FormatType, endian: FormatType) -> i32 {
    container.spec_code() | encoding.spec_code() | endian.spec_code()
}

/// A combined format identifier, taken apart.
///
/// An identifier made of three constants that this crate knows is `Known`.
/// Every other one is kept as the number it is, so that an identifier which
/// the native library understands and this crate does not is passed on
/// unharmed.
#[derive(Clone, Copy, Debug, PartialEq, Eq, Structural)]
pub enum FormatIdentifier {
    /// A container, a sample encoding and a byte order override
    Known { container: FormatType, encoding: FormatType, endian: FormatType },
    /// An identifier that is not made of three known constants
    Raw(i32),
}

impl FormatIdentifier {
    /// Whether the value is the one form that its identifier has: the parts
    /// of `Known` are of the right classes, and `Raw` holds a number that no
    /// three constants compose.
    pub open spec fn wf(&self) -> bool {
        match *self {
            FormatIdentifier::Known { container, encoding, endian } => well_classed(
                container,
                encoding,
                endian,
            ),
            FormatIdentifier::Raw(bits) => forall|
                container: FormatType,
                encoding: FormatType,
                endian: FormatType,
            |
                well_classed(container, encoding, endian) ==> #[trigger] compose(
                    container,
                    encoding,
                    endian,
                ) != bits,
        }
    }

    /// The combined identifier, as the native library takes it.
    pub open spec fn spec_bits(&self) -> i32 {
        match *self {
            FormatIdentifier::Known { container, encoding, endian } => compose(
                container,
                encoding,
                endian,
            ),
            FormatIdentifier::Raw(bits) => bits,
        }
    }

    /// Joins a container, a sample encoding and a byte order override.
    /// Returns `None` unless each of the three is of the class that its place
    /// asks for.
    pub fn new(container: FormatType, encoding: FormatType, endian: FormatType) -> (id: Option<
        FormatIdentifier,
    >)
        ensures
            well_classed(container, encoding, endian) ==> id == Some(
                FormatIdentifier::Known { container, encoding, endian },
            ),
            !well_classed(container, encoding, endian) ==> id is None,
            id matches Some(known) ==> known.wf(),
    {
        match (container.class(), encoding.class(), endian.class()) {
            (FormatClass::Container, FormatClass::Encoding, FormatClass::Endian) => Some(
                FormatIdentifier::Known { container, encoding, endian },
            ),
            _ => None,
        }
    }

    /// Takes a combined identifier apart. The result is well formed and has
    /// `bits` as its identifier; there is one such value, so it is `Known`
    /// exactly for the identifiers that three known constants compose.
    pub fn from_bits(bits: i32) -> (id: FormatIdentifier)
        ensures
            id.wf(),
            id.spec_bits() == bits,
    {
        let container = FormatType::container_from_code(bits & SF_FORMAT_TYPEMASK);
        let encoding = FormatType::encoding_from_code(bits & SF_FORMAT_SUBMASK);
        let endian = FormatType::endian_from_code(bits & SF_FORMAT_ENDMASK);
        proof {
            assert forall|c: FormatType, e: FormatType, n: FormatType|
                well_classed(c, e, n) && #[trigger] compose(c, e, n) == bits implies container
                == Some(c) && encoding == Some(e) && endian == Some(n) by {
                lemma_parts_of_composed(c, e, n);
                assert(c.names(FormatClass::Container, bits & SF_FORMAT_TYPEMASK));
                assert(e.names(FormatClass::Encoding, bits & SF_FORMAT_SUBMASK));
                assert(n.names(FormatClass::Endian, bits & SF_FORMAT_ENDMASK));
                lemma_code_names_one(c, container.unwrap());
                lemma_code_names_one(e, encoding.unwrap());
                lemma_code_names_one(n, endian.unwrap());
            }
        }
        match (container, encoding, endian) {
            (Some(c), Some(e), Some(n)) => {
                if (c.code() | e.code() | n.code()) == bits {
                    FormatIdentifier::Known { container: c, encoding: e, endian: n }
                } else {
                    FormatIdentifier::Raw(bits)
                }
            },
            _ => FormatIdentifier::Raw(bits),
        }
    }

    /// Returns the combined identifier, as the native library takes it.
    #[verifier::when_used_as_spec(spec_bits)]
    pub fn bits(&self) -> (bits: i32)
        ensures
            bits == self.spec_bits(),
    {
        match *self {
            FormatIdentifier::Known { container, encoding, endian } => container.code()
                | encoding.code() | endian.code(),
            FormatIdentifier::Raw(bits) => bits,
        }
    }
}

/// The constants of one class have distinct codes: two values of the same
/// class with the same code are the same value.
pub proof fn lemma_code_names_one(a: FormatType, b: FormatType)
    requires
        a.spec_class() == b.spec_class(),
        a.spec_code() == b.spec_code(),
    ensures
        a == b,
{
}

/// The bits of a container constant lie under the type mask, and those of an
/// encoding and of a byte order under theirs.
proof fn lemma_constant_under_its_mask(format: FormatType)
    ensures
        format.spec_class() == FormatClass::Container ==> format.spec_code() & SF_FORMAT_TYPEMASK
            == format.spec_code(),
        format.spec_class() == FormatClass::Encoding ==> format.spec_code() & SF_FORMAT_SUBMASK
            == format.spec_code(),
        format.spec_class() == FormatClass::Endian ==> format.spec_code() & SF_FORMAT_ENDMASK
            == format.spec_code(),
{
    let x = format.spec_code();
    assert(0 <= x <= 0x0FFF0000i32 && x % 0x10000i32 == 0 ==> x & 0x0FFF0000i32 == x)
        by (bit_vector);
    assert(0 <= x <= 0xFFFFi32 ==> x & 0x0000FFFFi32 == x) by (bit_vector);
    assert(x == 0i32 || x == 0x10000000i32 || x == 0x20000000i32 || x == 0x30000000i32 ==> x
        & 0x30000000i32 == x) by (bit_vector);
}

/// Each part of a composed identifier is found again under its mask, and the
/// identifier has no bit outside the three masks.
pub proof fn lemma_parts_of_composed(
    container: FormatType,
    encoding: FormatType,
    endian: FormatType,
)
    requires
        well_classed(container, encoding, endian),
    ensures
        compose(container, encoding, endian) & SF_FORMAT_TYPEMASK == container.spec_code(),
        compose(container, encoding, endian) & SF_FORMAT_SUBMASK == encoding.spec_code(),
        compose(container, encoding, endian) & SF_FORMAT_ENDMASK == endian.spec_code(),
{
    lemma_constant_under_its_mask(container);
    lemma_constant_under_its_mask(encoding);
    lemma_constant_under_its_mask(endian);
    let a = container.spec_code();
    let b = encoding.spec_code();
    let c = endian.spec_code();
    assert((a | b | c) & 0x0FFF0000i32 == a && (a | b | c) & 0x0000FFFFi32 == b && (a | b | c)
        & 0x30000000i32 == c) by (bit_vector)
        requires
            a & 0x0FFF0000i32 == a,
            b & 0x0000FFFFi32 == b,
            c & 0x30000000i32 == c,
    ;
}

/// An identifier has one well-formed form: two well-formed values with the
/// same identifier are the same value. So taking the identifier of a
/// well-formed value apart gives that value back, and every identifier, known
/// or not, is rebuilt exactly from what it was taken apart into.
pub proof fn lemma_identifier_has_one_form(a: FormatIdentifier, b: FormatIdentifier)
    requires
        a.wf(),
        b.wf(),
        a.spec_bits() == b.spec_bits(),
    ensures
        a == b,
{
    match (a, b) {
        (
            FormatIdentifier::Known { container: c1, encoding: e1, endian: n1 },
            FormatIdentifier::Known { container: c2, encoding: e2, endian: n2 },
        ) => {
            lemma_parts_of_composed(c1, e1, n1);
            lemma_parts_of_composed(c2, e2, n2);
            lemma_code_names_one(c1, c2);
            lemma_code_names_one(e1, e2);
            lemma_code_names_one(n1, n2);
        },
        (FormatIdentifier::Known { container, encoding, endian }, FormatIdentifier::Raw(_)) => {
            assert(compose(container, encoding, endian) == a.spec_bits());
        },
        (FormatIdentifier::Raw(_), FormatIdentifier::Known { container, encoding, endian }) => {
            assert(compose(container, encoding, endian) == b.spec_bits());
        },
        (FormatIdentifier::Raw(_), FormatIdentifier::Raw(_)) => {},
    }
}

} // verus!
