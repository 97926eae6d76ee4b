use vstd::prelude::*;
use vstd::utf8::{decode_utf8, valid_utf8};

verus! {

/// Code of the error raised when a text value holds an interior NUL byte.
pub const NUL_ERROR_CODE: i32 = 1;

/// Code of the error raised when a native message is not valid UTF-8.
pub const UTF8_ERROR_CODE: i32 = 2;

/// Code given to a native failure whose handle reports code zero, which is
/// reserved for success.
pub const UNREPORTED_ERROR_CODE: i32 = -1;

/// Code of the errors raised when a factory hands back a null handle.
pub const CONSTRUCTION_ERROR_CODE: i32 = 1;

/// A failure, as a self-contained snapshot: a nonzero code and its message.
#[derive(Debug, Clone)]
pub struct PressioError {
    pub error_code: i32,
    pub message: String,
}

/// A handle's error state, read right after a call on it and before any other:
/// its numeric code and the bytes of its message, without the terminator.
#[derive(Debug)]
pub struct ErrorState {
    pub code: i32,
    pub message: Vec<u8>,
}

/// The code that a failure reported with `code` carries: never zero.
pub open spec fn failure_code(code: i32) -> i32 {
    if code == 0 {
        UNREPORTED_ERROR_CODE
    } else {
        code
    }
}

pub open spec fn nul_error_message() -> Seq<char> {
    "nul error"@
}

pub open spec fn utf8_error_message() -> Seq<char> {
    "utf8 error"@
}

pub open spec fn init_error_message() -> Seq<char> {
    "failed to init library"@
}

pub open spec fn alloc_error_message() -> Seq<char> {
    "failed to allocate options"@
}

impl PressioError {
    /// The error of a text value that cannot be marshaled because of an interior NUL.
    pub open spec fn is_nul_error(self) -> bool {
        self.error_code == NUL_ERROR_CODE && self.message@ == nul_error_message()
    }

    /// The error of a native message that is not valid UTF-8.
    pub open spec fn is_utf8_error(self) -> bool {
        self.error_code == UTF8_ERROR_CODE && self.message@ == utf8_error_message()
    }

    /// What a handle's error state (its code and the bytes of its message) becomes.
    pub open spec fn is_native_error(self, code: i32, message: Seq<u8>) -> bool {
        if valid_utf8(message) {
            self.error_code == failure_code(code) && self.message@ == decode_utf8(message)
        } else {
            self.is_utf8_error()
        }
    }

    pub fn nul_error() -> (r: PressioError)
        ensures
            r.is_nul_error(),
    {
        proof {
            reveal_strlit("nul error");
        }
        PressioError { error_code: NUL_ERROR_CODE, message: "nul error".to_owned() }
    }

    pub fn utf8_error() -> (r: PressioError)
        ensures
            r.is_utf8_error(),
    {
        proof {
            reveal_strlit("utf8 error");
        }
        PressioError { error_code: UTF8_ERROR_CODE, message: "utf8 error".to_owned() }
    }

    /// The error of a library instance that could not be created.
    pub fn init_failed() -> (r: PressioError)
        ensures
            r.error_code == CONSTRUCTION_ERROR_CODE,
            r.message@ == init_error_message(),
    {
        proof {
            reveal_strlit("failed to init library");
        }
        PressioError {
            error_code: CONSTRUCTION_ERROR_CODE,
            message: "failed to init library".to_owned(),
        }
    }

    /// The error of an option dictionary that could not be allocated.
    pub fn alloc_failed() -> (r: PressioError)
        ensures
            r.error_code == CONSTRUCTION_ERROR_CODE,
            r.message@ == alloc_error_message(),
    {
        proof {
            reveal_strlit("failed to allocate options");
        }
        PressioError {
            error_code: CONSTRUCTION_ERROR_CODE,
            message: "failed to allocate options".to_owned(),
        }
    }

    /// Builds the error from a code and the already decoded message, if
    /// decoding succeeded. A code of zero becomes `UNREPORTED_ERROR_CODE`.
    pub fn from_decoded(code: i32, decoded: Option<String>) -> (r: PressioError)
        ensures
            r.error_code != 0,
            match decoded {
                Some(m) => r.error_code == failure_code(code) && r.message@ == m@,
                None => r.is_utf8_error(),
            },
    {
        match decoded {
            Some(m) => {
                let error_code = if code == 0 {
                    UNREPORTED_ERROR_CODE
                } else {
                    code
                };
                PressioError { error_code, message: m }
            },
            None => PressioError::utf8_error(),
        }
    }

    /// Builds the error from a handle's error state, read right after the failing call:
    /// its numeric code and the bytes of its message (without the terminator).
    pub fn from_native(code: i32, message: &[u8]) -> (r: PressioError)
        ensures
            r.error_code != 0,
            r.is_native_error(code, message@),
    {
        let decoded = decode_text(message);
        PressioError::from_decoded(code, decoded)
    }

    /// Builds the error from a captured error state.
    pub fn from_state(state: &ErrorState) -> (r: PressioError)
        ensures
            r.error_code != 0,
            r.is_native_error(state.code, state.message@),
    {
        PressioError::from_native(state.code, state.message.as_slice())
    }
}

/// Relies on `std::str::from_utf8`: it accepts exactly the valid UTF-8 byte
/// sequences, and the text it returns is the one those bytes encode.
#[verifier::external_body]
pub(crate) fn decode_text(b: &[u8]) -> (r: Option<String>)
    ensures
        r is Some <==> valid_utf8(b@),
        r matches Some(s) ==> s@ == decode_utf8(b@),
{
    match std::str::from_utf8(b) {
        Ok(s) => Some(s.to_owned()),
        Err(_) => None,
    }
}

} // verus!
