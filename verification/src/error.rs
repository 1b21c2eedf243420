//! The errors of the native library, and the mapping between them and the
//! integer codes that the native library reports.

use vstd::prelude::*;
use crate::call::NativeCall;
use crate::native::{
    SF_ERR_MALFORMED_FILE, SF_ERR_NO_ERROR, SF_ERR_SYSTEM, SF_ERR_UNRECOGNISED_FORMAT,
    SF_ERR_UNSUPPORTED_ENCODING,
};

verus! {

/// Types of error who can be return by API functions
#[derive(Clone, Copy, Debug, PartialEq, Eq, PartialOrd, Structural)]
pub enum SndFileError {
    /// The file format is not recognized
    UnrecognisedFormat,
    /// There is an internal system error
    SystemError,
    /// The file is malformed
    MalformedFile,
    /// The encoding of the file is not supported by sndfile
    UnsupportedEncoding,
    /// Any internal error code
    InternalError(i32),
}

pub type SndFileResult<T> = Result<T, SndFileError>;

impl SndFileError {
    /// The error that stands for a code, whatever the code: the four codes
    /// that have a name give their variant, every other code is carried along
    /// in `InternalError`.
    pub open spec fn classify(code: i32) -> SndFileError {
        if code == SF_ERR_UNRECOGNISED_FORMAT {
            SndFileError::UnrecognisedFormat
        } else if code == SF_ERR_SYSTEM {
            SndFileError::SystemError
        } else if code == SF_ERR_MALFORMED_FILE {
            SndFileError::MalformedFile
        } else if code == SF_ERR_UNSUPPORTED_ENCODING {
            SndFileError::UnsupportedEncoding
        } else {
            SndFileError::InternalError(code)
        }
    }

    /// What a code reported by the native library means: no error for zero,
    /// else the error that stands for the code.
    pub open spec fn spec_from_code(code: i32) -> Option<SndFileError> {
        if code == SF_ERR_NO_ERROR {
            None
        } else {
            Some(SndFileError::classify(code))
        }
    }

    /// The native code of an error.
    pub open spec fn spec_code(&self) -> i32 {
        match *self {
            SndFileError::UnrecognisedFormat => SF_ERR_UNRECOGNISED_FORMAT,
            SndFileError::SystemError => SF_ERR_SYSTEM,
            SndFileError::MalformedFile => SF_ERR_MALFORMED_FILE,
            SndFileError::UnsupportedEncoding => SF_ERR_UNSUPPORTED_ENCODING,
            SndFileError::InternalError(err) => err,
        }
    }

    /// Whether the error is one that a native code is mapped to. The others
    /// are `InternalError` around a code that has a variant of its own, or
    /// around the code for "no error".
    pub open spec fn is_canonical(self) -> bool {
        self matches SndFileError::InternalError(err) ==> !(SF_ERR_NO_ERROR <= err
            <= SF_ERR_UNSUPPORTED_ENCODING)
    }

    /// Returns the native code of the error.
    #[verifier::when_used_as_spec(spec_code)]
    pub fn code(&self) -> (code: i32)
        ensures
            code == self.spec_code(),
    {
        match *self {
            SndFileError::UnrecognisedFormat => SF_ERR_UNRECOGNISED_FORMAT,
            SndFileError::SystemError => SF_ERR_SYSTEM,
            SndFileError::MalformedFile => SF_ERR_MALFORMED_FILE,
            SndFileError::UnsupportedEncoding => SF_ERR_UNSUPPORTED_ENCODING,
            SndFileError::InternalError(err) => err,
        }
    }

    /// The call that fetches the native library's description of the error.
    /// The text that the call returns is the description.
    pub fn desc(&self) -> (call: NativeCall)
        ensures
            call == (NativeCall::ErrorNumber { code: self.spec_code() }),
    {
        NativeCall::ErrorNumber { code: self.code() }
    }

    /// Maps a code reported by the native library to the error it means:
    /// `None` for zero, one of the four named errors for its code, and
    /// `InternalError` around any other code.
    pub fn from_code(code: i32) -> (error: Option<SndFileError>)
        ensures
            error == SndFileError::spec_from_code(code),
    {
        if code == SF_ERR_NO_ERROR {
            None
        } else if code == SF_ERR_UNRECOGNISED_FORMAT {
            Some(SndFileError::UnrecognisedFormat)
        } else if code == SF_ERR_SYSTEM {
            Some(SndFileError::SystemError)
        } else if code == SF_ERR_MALFORMED_FILE {
            Some(SndFileError::MalformedFile)
        } else if code == SF_ERR_UNSUPPORTED_ENCODING {
            Some(SndFileError::UnsupportedEncoding)
        } else {
            Some(SndFileError::InternalError(code))
        }
    }

    /// Turns the status code that a native call returned into a result: `ok`
    /// for zero, else the error that the code means.
    pub fn code_to_result<T>(code: i32, ok: T) -> (result: SndFileResult<T>)
        ensures
            result == match SndFileError::spec_from_code(code) {
                Some(err) => Err::<T, SndFileError>(err),
                None => Ok::<T, SndFileError>(ok),
            },
    {
        match SndFileError::from_code(code) {
            Some(err) => Err(err),
            None => Ok(ok),
        }
    }

    /// The error of an open call that returned no handle, from the code that
    /// the error query gave afterwards. Where the native library reports no
    /// error although it returned no handle, the failure is reported as
    /// `InternalError` around the code for "no error": no other path yields
    /// that value.
    pub fn open_failure(code: i32) -> (error: SndFileError)
        ensures
            error == SndFileError::classify(code),
            code != SF_ERR_NO_ERROR ==> Some(error) == SndFileError::spec_from_code(code),
            code == SF_ERR_NO_ERROR ==> error == SndFileError::InternalError(SF_ERR_NO_ERROR),
    {
        match SndFileError::from_code(code) {
            Some(err) => err,
            None => SndFileError::InternalError(SF_ERR_NO_ERROR),
        }
    }
}

/// A code means "no error" exactly when it is zero.
pub proof fn lemma_no_error_iff_zero(code: i32)
    ensures
        SndFileError::spec_from_code(code) is None <==> code == SF_ERR_NO_ERROR,
{
}

/// No code is lost: the error that a code is mapped to has that code.
pub proof fn lemma_code_is_kept(code: i32)
    ensures
        SndFileError::classify(code).spec_code() == code,
        SndFileError::classify(code).is_canonical() || code == SF_ERR_NO_ERROR,
        SndFileError::spec_from_code(code) matches Some(err) ==> err.spec_code() == code
            && err.is_canonical(),
{
}

/// Every canonical error is the meaning of its own code, and of no other
/// code.
pub proof fn lemma_error_from_own_code(error: SndFileError, code: i32)
    requires
        error.is_canonical(),
    ensures
        SndFileError::spec_from_code(error.spec_code()) == Some(error),
        SndFileError::spec_from_code(code) == Some(error) <==> code == error.spec_code(),
{
}

/// The four named errors are told apart from every `InternalError` that a
/// code is mapped to: a code outside the named ones never gives a named
/// error.
pub proof fn lemma_named_codes(code: i32)
    ensures
        SndFileError::spec_from_code(code) matches Some(SndFileError::InternalError(err))
            <==> !(SF_ERR_NO_ERROR <= code <= SF_ERR_UNSUPPORTED_ENCODING),
{
}

} // verus!
