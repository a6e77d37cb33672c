//! The structured error taxonomy, and the translation of raw driver status
//! codes into it. A status of zero or more is success; every negative status
//! is translated at the point of the call, so no raw code crosses the
//! component boundary untyped.

use vstd::prelude::*;

verus! {

/// Driver status code: the named model was not found.
pub const STATUS_MODEL_NOT_FOUND: i32 = -105;

/// Driver status code: the named folder was not found on the device.
pub const STATUS_DIRECTORY_NOT_FOUND: i32 = -107;

/// Driver status code: the named file was not found on the device.
pub const STATUS_FILE_NOT_FOUND: i32 = -108;

/// Driver status code: the operation exists in the driver but this device
/// does not support it.
pub const STATUS_NOT_SUPPORTED: i32 = -6;

/// Everything a public operation can fail with.
#[derive(Clone, Debug)]
pub enum Error {
    /// A negative driver status with no more specific meaning, carrying the
    /// code and the driver-supplied description.
    DriverError { code: i32, message: String },
    /// A named configuration key, model, folder or file is absent.
    NotFound,
    /// The operation is valid for this driver but not for this device.
    NotSupported,
    /// A kind-specific accessor was used on a widget of another kind.
    WrongWidgetType,
    /// A choice value is not in the widget's declared option set.
    InvalidChoice,
    /// A range value lies outside [min, max] or is misaligned to the step.
    OutOfRange,
    /// A whole-tree configuration write was given a root that is not a
    /// window.
    TypeMismatch,
}

/// Driver status code: a request whose parameters the driver rejects.
/// A single-key configuration read reports an absent key this way.
pub const STATUS_BAD_PARAMETERS: i32 = -2;

/// The error that a negative driver status translates to.
pub open spec fn status_error(code: i32, message: String) -> Error {
    if code == STATUS_NOT_SUPPORTED {
        Error::NotSupported
    } else if code == STATUS_MODEL_NOT_FOUND || code == STATUS_DIRECTORY_NOT_FOUND
        || code == STATUS_FILE_NOT_FOUND {
        Error::NotFound
    } else {
        Error::DriverError { code, message }
    }
}

/// Translates a raw driver status: zero or positive is success, any negative
/// status becomes exactly one structured error.
pub fn check_status(code: i32, message: String) -> (r: Result<(), Error>)
    ensures
        code >= 0 ==> r == Ok::<(), Error>(()),
        code < 0 ==> r == Err::<(), Error>(status_error(code, message)),
{
    if code >= 0 {
        Ok(())
    } else if code == STATUS_NOT_SUPPORTED {
        Err(Error::NotSupported)
    } else if code == STATUS_MODEL_NOT_FOUND || code == STATUS_DIRECTORY_NOT_FOUND
        || code == STATUS_FILE_NOT_FOUND {
        Err(Error::NotFound)
    } else {
        Err(Error::DriverError { code, message })
    }
}

/// Translates the status of a single-key configuration read. The driver
/// reports an absent key as a parameter error, which is `NotFound` to the
/// caller; every other status is translated as usual.
pub fn check_config_key_status(code: i32, message: String) -> (r: Result<(), Error>)
    ensures
        code >= 0 ==> r == Ok::<(), Error>(()),
        code == STATUS_BAD_PARAMETERS ==> r == Err::<(), Error>(Error::NotFound),
        code < 0 && code != STATUS_BAD_PARAMETERS ==> r == Err::<(), Error>(
            status_error(code, message),
        ),
{
    if code == STATUS_BAD_PARAMETERS {
        Err(Error::NotFound)
    } else {
        check_status(code, message)
    }
}

} // verus!
