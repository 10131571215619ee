use vstd::prelude::*;

use crate::error::Error;

verus! {

/// The engine's status code for success.
pub const STATUS_OK: isize = 0;

/// The engine's status code for an operation stopped by its own callback.
pub const STATUS_ABORT: isize = 4;

/// The error a failed native call surfaces: the engine's own report when it
/// gave one, else a bare error carrying the status code.
pub open spec fn spec_native_error(code: isize, engine_error: Option<Error>) -> Error {
    match engine_error {
        Some(error) => error,
        None => (Error { code: Some(code), message: None }),
    }
}

/// Translate the status code of a native call into this layer's result. A
/// non-success code becomes the error the engine itself reported when it
/// reported one, else a bare error carrying the code.
pub fn status_to_result(code: isize, engine_error: Option<Error>) -> (result: Result<(), Error>)
    ensures
        code == STATUS_OK <==> result is Ok,
        code != STATUS_OK ==> result == Err::<(), Error>(spec_native_error(code, engine_error)),
{
    if code == STATUS_OK {
        Ok(())
    } else {
        match engine_error {
            Some(error) => Err(error),
            None => Err(Error { code: Some(code), message: None }),
        }
    }
}

/// Translate the status code of a callback-driven execution. A run that the
/// caller's callback stopped early reports the abort code at the native
/// level, but is success to the caller, not an error.
pub fn iterate_status_to_result(
    code: isize,
    stopped_by_callback: bool,
    engine_error: Option<Error>,
) -> (result: Result<(), Error>)
    ensures
        (code == STATUS_OK || (stopped_by_callback && code == STATUS_ABORT)) <==> result is Ok,
        result is Err ==> result == Err::<(), Error>(spec_native_error(code, engine_error)),
{
    if code == STATUS_OK || (stopped_by_callback && code == STATUS_ABORT) {
        Ok(())
    } else {
        match engine_error {
            Some(error) => Err(error),
            None => Err(Error { code: Some(code), message: None }),
        }
    }
}

/// The primitive reply a busy handler's decision translates to at the C
/// boundary: nonzero to retry the blocked operation, zero to give up.
pub fn busy_reply(retry: bool) -> (reply: i32)
    ensures
        reply == (if retry {
            1i32
        } else {
            0i32
        }),
{
    if retry {
        1
    } else {
        0
    }
}

/// The primitive reply the row callback's decision translates to at the C
/// boundary: zero to keep producing rows, nonzero to stop immediately.
pub fn row_callback_reply(proceed: bool) -> (reply: i32)
    ensures
        reply == (if proceed {
            0i32
        } else {
            1i32
        }),
{
    if proceed {
        0
    } else {
        1
    }
}

} // verus!
