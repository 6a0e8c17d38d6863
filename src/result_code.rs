//! Status codes reported by the fingerprint sensor and the errors built
//! from them.

use vstd::prelude::*;

verus! {

/// The closed set of status codes the sensor protocol reports.
#[derive(Clone, Copy, Debug, PartialEq, Eq, Structural)]
pub enum ResultCode {
    Success,
    GeneralError,
    InternalError,
    InvalidArgument,
    NotImplemented,
    Cancelled,
    NoMemory,
    NoResource,
    IoError,
    BrokenSensor,
    WrongState,
    Timeout,
    IdNotUnique,
    IdNotFound,
    InvalidFormat,
    ImageCaptureError,
    SensorMismatch,
    InvalidParameter,
    MissingTemplate,
    InvalidCalibration,
    StorageNotFormatted,
    SensorNotInitialized,
    TooManyBadImages,
    CryptoError,
    NotSupported,
    FingerNotStable,
    NotInitialized,
    Unknown(i32),
}

/// The raw value of the success status.
pub const STATUS_OK: i32 = 0;

/// The raw value of the transient "general error" status.
pub const STATUS_GENERAL_ERROR: i32 = -1;

/// The raw value the sensor protocol uses for each status code.
pub open spec fn raw_value(rc: ResultCode) -> int {
    match rc {
        ResultCode::Success => 0,
        ResultCode::GeneralError => -1,
        ResultCode::InternalError => -2,
        ResultCode::InvalidArgument => -3,
        ResultCode::NotImplemented => -4,
        ResultCode::Cancelled => -5,
        ResultCode::NoMemory => -6,
        ResultCode::NoResource => -7,
        ResultCode::IoError => -8,
        ResultCode::BrokenSensor => -9,
        ResultCode::WrongState => -10,
        ResultCode::Timeout => -11,
        ResultCode::IdNotUnique => -12,
        ResultCode::IdNotFound => -13,
        ResultCode::InvalidFormat => -14,
        ResultCode::ImageCaptureError => -15,
        ResultCode::SensorMismatch => -16,
        ResultCode::InvalidParameter => -17,
        ResultCode::MissingTemplate => -18,
        ResultCode::InvalidCalibration => -19,
        ResultCode::StorageNotFormatted => -20,
        ResultCode::SensorNotInitialized => -21,
        ResultCode::TooManyBadImages => -22,
        ResultCode::CryptoError => -23,
        ResultCode::NotSupported => -24,
        ResultCode::FingerNotStable => -25,
        ResultCode::NotInitialized => -26,
        ResultCode::Unknown(c) => c as int,
    }
}

/// Whether a raw value names one of the known status codes.
pub open spec fn is_known(code: i32) -> bool {
    -26 <= code <= 0
}

/// The status code that a raw value stands for: the known code with that raw
/// value, or `Unknown` carrying the value.
pub open spec fn decode(code: i32) -> ResultCode {
    if is_known(code) {
        known_code(code)
    } else {
        ResultCode::Unknown(code)
    }
}

/// Decimal text of an integer, with a leading minus sign when negative.
pub open spec fn decimal(n: int) -> Seq<char> {
    if n < 0 {
        seq!['-'] + unsigned_decimal((-n) as nat)
    } else {
        unsigned_decimal(n as nat)
    }
}

pub open spec fn unsigned_decimal(n: nat) -> Seq<char>
    decreases n,
{
    if n < 10 {
        seq![digit_char(n)]
    } else {
        unsigned_decimal(n / 10) + seq![digit_char(n % 10)]
    }
}

pub open spec fn digit_char(d: nat) -> char {
    if d == 0 { '0' }
    else if d == 1 { '1' }
    else if d == 2 { '2' }
    else if d == 3 { '3' }
    else if d == 4 { '4' }
    else if d == 5 { '5' }
    else if d == 6 { '6' }
    else if d == 7 { '7' }
    else if d == 8 { '8' }
    else { '9' }
}

/// The human-readable diagnostic of each status code.
pub open spec fn message(rc: ResultCode) -> Seq<char> {
    match rc {
        ResultCode::Success => "OK."@,
        ResultCode::GeneralError => "General error."@,
        ResultCode::InternalError => "Internal error."@,
        ResultCode::InvalidArgument => "Invalid argument."@,
        ResultCode::NotImplemented => "Functionality is not implemented."@,
        ResultCode::Cancelled => "Operation was cancelled."@,
        ResultCode::NoMemory => "Out of memory."@,
        ResultCode::NoResource => "Resources are not available."@,
        ResultCode::IoError => "An I/O error occurred."@,
        ResultCode::BrokenSensor => "Sensor is broken."@,
        ResultCode::WrongState => "Operation cannot be performed in current state."@,
        ResultCode::Timeout => "Operation timed out."@,
        ResultCode::IdNotUnique => "ID is not unique."@,
        ResultCode::IdNotFound => "ID is not found."@,
        ResultCode::InvalidFormat => "Invalid format."@,
        ResultCode::ImageCaptureError => "Image capture error occurred."@,
        ResultCode::SensorMismatch => "Sensor hardware ID or sensor configuration mismatch."@,
        ResultCode::InvalidParameter => "Invalid parameter."@,
        ResultCode::MissingTemplate => "Missing Template."@,
        ResultCode::InvalidCalibration => "Invalid Calibration."@,
        ResultCode::StorageNotFormatted => "Calibration/template storage not formatted."@,
        ResultCode::SensorNotInitialized => "Sensor not initialized."@,
        ResultCode::TooManyBadImages => "Enroll failed after too many bad images."@,
        ResultCode::CryptoError => "Cryptographic operation failed."@,
        ResultCode::NotSupported => "Functionality is not supported."@,
        ResultCode::FingerNotStable => "Finger not stable during image capture."@,
        ResultCode::NotInitialized => "Functionality cannot be used before it's initialized."@,
        ResultCode::Unknown(c) => "Unknown result code: "@ + decimal(c as int),
    }
}

impl ResultCode {
    /// Maps a raw status value to its code; values outside the known range
    /// become `Unknown`.
    pub fn from_raw(code: i32) -> (r: ResultCode)
        ensures
            raw_value(r) == code,
            r is Unknown <==> !is_known(code),
            r == decode(code),
    {
        let r = match code {
            0 => ResultCode::Success,
            -1 => ResultCode::GeneralError,
            -2 => ResultCode::InternalError,
            -3 => ResultCode::InvalidArgument,
            -4 => ResultCode::NotImplemented,
            -5 => ResultCode::Cancelled,
            -6 => ResultCode::NoMemory,
            -7 => ResultCode::NoResource,
            -8 => ResultCode::IoError,
            -9 => ResultCode::BrokenSensor,
            -10 => ResultCode::WrongState,
            -11 => ResultCode::Timeout,
            -12 => ResultCode::IdNotUnique,
            -13 => ResultCode::IdNotFound,
            -14 => ResultCode::InvalidFormat,
            -15 => ResultCode::ImageCaptureError,
            -16 => ResultCode::SensorMismatch,
            -17 => ResultCode::InvalidParameter,
            -18 => ResultCode::MissingTemplate,
            -19 => ResultCode::InvalidCalibration,
            -20 => ResultCode::StorageNotFormatted,
            -21 => ResultCode::SensorNotInitialized,
            -22 => ResultCode::TooManyBadImages,
            -23 => ResultCode::CryptoError,
            -24 => ResultCode::NotSupported,
            -25 => ResultCode::FingerNotStable,
            -26 => ResultCode::NotInitialized,
            _ => ResultCode::Unknown(code),
        };
        r
    }

    /// The raw value of this code.
    pub fn raw(&self) -> (r: i32)
        ensures
            r == raw_value(*self),
    {
        match self {
            ResultCode::Success => 0,
            ResultCode::GeneralError => -1,
            ResultCode::InternalError => -2,
            ResultCode::InvalidArgument => -3,
            ResultCode::NotImplemented => -4,
            ResultCode::Cancelled => -5,
            ResultCode::NoMemory => -6,
            ResultCode::NoResource => -7,
            ResultCode::IoError => -8,
            ResultCode::BrokenSensor => -9,
            ResultCode::WrongState => -10,
            ResultCode::Timeout => -11,
            ResultCode::IdNotUnique => -12,
            ResultCode::IdNotFound => -13,
            ResultCode::InvalidFormat => -14,
            ResultCode::ImageCaptureError => -15,
            ResultCode::SensorMismatch => -16,
            ResultCode::InvalidParameter => -17,
            ResultCode::MissingTemplate => -18,
            ResultCode::InvalidCalibration => -19,
            ResultCode::StorageNotFormatted => -20,
            ResultCode::SensorNotInitialized => -21,
            ResultCode::TooManyBadImages => -22,
            ResultCode::CryptoError => -23,
            ResultCode::NotSupported => -24,
            ResultCode::FingerNotStable => -25,
            ResultCode::NotInitialized => -26,
            ResultCode::Unknown(c) => *c,
        }
    }
}

/// The known code with a raw value in the known range.
pub open spec fn known_code(code: i32) -> ResultCode {
    if code == 0 { ResultCode::Success }
    else if code == -1 { ResultCode::GeneralError }
    else if code == -2 { ResultCode::InternalError }
    else if code == -3 { ResultCode::InvalidArgument }
    else if code == -4 { ResultCode::NotImplemented }
    else if code == -5 { ResultCode::Cancelled }
    else if code == -6 { ResultCode::NoMemory }
    else if code == -7 { ResultCode::NoResource }
    else if code == -8 { ResultCode::IoError }
    else if code == -9 { ResultCode::BrokenSensor }
    else if code == -10 { ResultCode::WrongState }
    else if code == -11 { ResultCode::Timeout }
    else if code == -12 { ResultCode::IdNotUnique }
    else if code == -13 { ResultCode::IdNotFound }
    else if code == -14 { ResultCode::InvalidFormat }
    else if code == -15 { ResultCode::ImageCaptureError }
    else if code == -16 { ResultCode::SensorMismatch }
    else if code == -17 { ResultCode::InvalidParameter }
    else if code == -18 { ResultCode::MissingTemplate }
    else if code == -19 { ResultCode::InvalidCalibration }
    else if code == -20 { ResultCode::StorageNotFormatted }
    else if code == -21 { ResultCode::SensorNotInitialized }
    else if code == -22 { ResultCode::TooManyBadImages }
    else if code == -23 { ResultCode::CryptoError }
    else if code == -24 { ResultCode::NotSupported }
    else if code == -25 { ResultCode::FingerNotStable }
    else { ResultCode::NotInitialized }
}

/// An error reported by the sensor, identified by its status code.
#[derive(Clone, Copy, Debug, PartialEq, Eq, Structural)]
pub struct SensorError {
    pub code: ResultCode,
}

/// The error that a raw status value reports.
pub open spec fn sensor_error(code: i32) -> SensorError {
    SensorError { code: decode(code) }
}

impl SensorError {
    /// The error for a raw status value.
    pub fn from_raw(code: i32) -> (e: SensorError)
        ensures
            e == sensor_error(code),
    {
        SensorError { code: ResultCode::from_raw(code) }
    }

    /// The diagnostic text of this error.
    pub fn message(&self) -> (r: String)
        ensures
            r@ == message(self.code),
    {
        describe(self.code)
    }
}

/// Relies on std's `Display` for `i32` (through `to_string`): the decimal
/// digits of the value, preceded by `-` when it is negative.
#[verifier::external_body]
fn decimal_text(n: i32) -> (r: String)
    ensures
        r@ == decimal(n as int),
{
    n.to_string()
}

/// The diagnostic text of a raw status value.
pub fn debug(res: i32) -> (r: String)
    ensures
        r@ == message(decode(res)),
{
    describe(ResultCode::from_raw(res))
}

/// The diagnostic text of a status code.
pub fn describe(rc: ResultCode) -> (r: String)
    ensures
        r@ == message(rc),
{
    let text = match rc {
        ResultCode::Success => "OK.",
        ResultCode::GeneralError => "General error.",
        ResultCode::InternalError => "Internal error.",
        ResultCode::InvalidArgument => "Invalid argument.",
        ResultCode::NotImplemented => "Functionality is not implemented.",
        ResultCode::Cancelled => "Operation was cancelled.",
        ResultCode::NoMemory => "Out of memory.",
        ResultCode::NoResource => "Resources are not available.",
        ResultCode::IoError => "An I/O error occurred.",
        ResultCode::BrokenSensor => "Sensor is broken.",
        ResultCode::WrongState => "Operation cannot be performed in current state.",
        ResultCode::Timeout => "Operation timed out.",
        ResultCode::IdNotUnique => "ID is not unique.",
        ResultCode::IdNotFound => "ID is not found.",
        ResultCode::InvalidFormat => "Invalid format.",
        ResultCode::ImageCaptureError => "Image capture error occurred.",
        ResultCode::SensorMismatch => "Sensor hardware ID or sensor configuration mismatch.",
        ResultCode::InvalidParameter => "Invalid parameter.",
        ResultCode::MissingTemplate => "Missing Template.",
        ResultCode::InvalidCalibration => "Invalid Calibration.",
        ResultCode::StorageNotFormatted => "Calibration/template storage not formatted.",
        ResultCode::SensorNotInitialized => "Sensor not initialized.",
        ResultCode::TooManyBadImages => "Enroll failed after too many bad images.",
        ResultCode::CryptoError => "Cryptographic operation failed.",
        ResultCode::NotSupported => "Functionality is not supported.",
        ResultCode::FingerNotStable => "Finger not stable during image capture.",
        ResultCode::NotInitialized => "Functionality cannot be used before it's initialized.",
        ResultCode::Unknown(c) => {
            let prefix = String::from_str("Unknown result code: ");
            let digits = decimal_text(c);
            return prefix.concat(digits.as_str());
        },
    };
    text.to_owned()
}

} // verus!
