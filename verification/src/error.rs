//! Mapping of libhackrf status codes to [`Error`].
use vstd::prelude::*;

use crate::hackrf_wrapper::hackrf_error;

verus! {

/// An error reported by libhackrf: a status code it names, or one it does not.
#[derive(Debug, Clone, Copy, PartialEq, Eq, Structural)]
pub enum Error {
    Known(hackrf_error),
    Unknown(i32),
}

/// Whether `code` is the number of some `hackrf_error`.
pub open spec fn is_error_code(code: int) -> bool {
    exists|e: hackrf_error| e.code() == code
}

/// The error a failing status code stands for.
pub open spec fn error_for_code(code: i32) -> Error {
    if is_error_code(code as int) {
        Error::Known(choose|e: hackrf_error| e.code() == code)
    } else {
        Error::Unknown(code)
    }
}

/// The result a status code stands for: success is `0`, anything else fails.
pub open spec fn result_for_code(code: i32) -> Result<(), Error> {
    if code == 0 {
        Ok(())
    } else {
        Err(error_for_code(code))
    }
}

/// Distinct error kinds have distinct numbers.
pub proof fn lemma_error_code_injective(a: hackrf_error, b: hackrf_error)
    ensures
        a.code() == b.code() ==> a == b,
{
}

/// The named error whose number is `code`, if there is one.
pub fn known_error(code: i32) -> (r: Option<hackrf_error>)
    ensures
        forall|e: hackrf_error| e.code() == code ==> r == Some(e),
        !is_error_code(code as int) ==> r is None,
{
    let r = match code {
        0 => Some(hackrf_error::HACKRF_SUCCESS),
        1 => Some(hackrf_error::HACKRF_TRUE),
        -2 => Some(hackrf_error::HACKRF_ERROR_INVALID_PARAM),
        -5 => Some(hackrf_error::HACKRF_ERROR_NOT_FOUND),
        -6 => Some(hackrf_error::HACKRF_ERROR_BUSY),
        -11 => Some(hackrf_error::HACKRF_ERROR_NO_MEM),
        -1000 => Some(hackrf_error::HACKRF_ERROR_LIBUSB),
        -1001 => Some(hackrf_error::HACKRF_ERROR_THREAD),
        -1002 => Some(hackrf_error::HACKRF_ERROR_STREAMING_THREAD_ERR),
        -1003 => Some(hackrf_error::HACKRF_ERROR_STREAMING_STOPPED),
        -1004 => Some(hackrf_error::HACKRF_ERROR_STREAMING_EXIT_CALLED),
        -1005 => Some(hackrf_error::HACKRF_ERROR_USB_API_VERSION),
        -2000 => Some(hackrf_error::HACKRF_ERROR_NOT_LAST_DEVICE),
        -9999 => Some(hackrf_error::HACKRF_ERROR_OTHER),
        _ => None,
    };
    proof {
        if let Some(e) = r {
            assert(e.code() == code);
        }
    }
    r
}

/// The error for a status code that is not success.
fn error_from_code(code: i32) -> (r: Error)
    ensures
        r == error_for_code(code),
{
    match known_error(code) {
        Some(e) => {
            proof {
                let c = choose|x: hackrf_error| x.code() == code;
                lemma_error_code_injective(c, e);
            }
            Error::Known(e)
        },
        None => Error::Unknown(code),
    }
}

/// Turns a libhackrf status code into a `Result`: `0` succeeds, every other
/// code fails with the error it names, or `Unknown` if it names none.
pub fn check(code: i32) -> (r: Result<(), Error>)
    ensures
        r == result_for_code(code),
{
    if code == 0 {
        return Ok(());
    }
    Err(error_from_code(code))
}

/// What a streaming query's status code says: streaming (`HACKRF_TRUE`),
/// not streaming (one of the three codes libhackrf gives for a stream that
/// has ended), or an error.
pub open spec fn streaming_for_code(code: i32) -> Result<bool, Error> {
    if code == hackrf_error::HACKRF_TRUE.code() {
        Ok(true)
    } else if code == hackrf_error::HACKRF_ERROR_STREAMING_THREAD_ERR.code()
        || code == hackrf_error::HACKRF_ERROR_STREAMING_STOPPED.code()
        || code == hackrf_error::HACKRF_ERROR_STREAMING_EXIT_CALLED.code() {
        Ok(false)
    } else {
        Err(error_for_code(code))
    }
}

/// Interprets the status code of `hackrf_is_streaming`.
pub fn is_streaming(code: i32) -> (r: Result<bool, Error>)
    ensures
        r == streaming_for_code(code),
{
    if code == hackrf_error::HACKRF_TRUE.code() {
        Ok(true)
    } else if code == hackrf_error::HACKRF_ERROR_STREAMING_THREAD_ERR.code()
        || code == hackrf_error::HACKRF_ERROR_STREAMING_STOPPED.code()
        || code == hackrf_error::HACKRF_ERROR_STREAMING_EXIT_CALLED.code() {
        Ok(false)
    } else {
        Err(error_from_code(code))
    }
}

impl Error {
    /// The error kind whose name describes this error: its own kind, or
    /// `HACKRF_ERROR_OTHER` for a code libhackrf does not name.
    pub open spec fn spec_display_kind(&self) -> hackrf_error {
        match *self {
            Error::Known(e) => e,
            Error::Unknown(_) => hackrf_error::HACKRF_ERROR_OTHER,
        }
    }

    /// The status code this error was made from.
    pub open spec fn spec_raw_code(&self) -> i32 {
        match *self {
            Error::Known(e) => e.code(),
            Error::Unknown(c) => c,
        }
    }

    /// The error kind whose name describes this error: its own kind, or
    /// `HACKRF_ERROR_OTHER` for a code libhackrf does not name.
    #[verifier::when_used_as_spec(spec_display_kind)]
    pub fn display_kind(&self) -> (k: hackrf_error)
        ensures
            k == self.spec_display_kind(),
    {
        match self {
            Error::Known(e) => *e,
            Error::Unknown(_) => hackrf_error::HACKRF_ERROR_OTHER,
        }
    }

    /// The status code this error was made from, shown beside its name.
    #[verifier::when_used_as_spec(spec_raw_code)]
    pub fn raw_code(&self) -> (c: i32)
        ensures
            c == self.spec_raw_code(),
    {
        match self {
            Error::Known(e) => e.code(),
            Error::Unknown(c) => *c,
        }
    }
}

/// Law: a named error kind's own number fails with exactly that kind.
pub proof fn law_known_code_round_trip(e: hackrf_error)
    ensures
        e != hackrf_error::HACKRF_SUCCESS ==> result_for_code(e.code()) == Err::<(), Error>(
            Error::Known(e),
        ),
        error_for_code(e.code()) == Error::Known(e),
{
    let c = choose|x: hackrf_error| x.code() == e.code();
    lemma_error_code_injective(c, e);
}

/// Law: every failing status code keeps its number in the error it becomes,
/// and it becomes `Unknown` exactly when libhackrf names no such code.
pub proof fn law_error_keeps_code(code: i32)
    requires
        code != 0,
    ensures
        result_for_code(code) is Err,
        error_for_code(code).raw_code() == code,
        error_for_code(code) is Unknown <==> !is_error_code(code as int),
{
    if is_error_code(code as int) {
        let c = choose|x: hackrf_error| x.code() == code;
        assert(c.code() == code);
    }
}

} // verus!
