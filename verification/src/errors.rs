//! Error taxonomy for opening file handles and creating memory mappings.
//!
//! Every error carries the native error code reported by the operating
//! system, and — where a path was involved — the offending path, so that
//! callers can diagnose failures without re-running the operation.

use vstd::prelude::*;
use vstd::string::StringExecFns;

verus! {

/// Decimal digit character for `0 <= d < 10`.
pub open spec fn spec_digit(d: int) -> char {
    if d == 0 {
        '0'
    } else if d == 1 {
        '1'
    } else if d == 2 {
        '2'
    } else if d == 3 {
        '3'
    } else if d == 4 {
        '4'
    } else if d == 5 {
        '5'
    } else if d == 6 {
        '6'
    } else if d == 7 {
        '7'
    } else if d == 8 {
        '8'
    } else {
        '9'
    }
}

/// Decimal representation of a nonnegative integer, most significant
/// digit first and without leading zeros (`0` itself is `"0"`).
pub open spec fn spec_decimal_nat(n: nat) -> Seq<char>
    decreases n,
{
    if n < 10 {
        seq![spec_digit(n as int)]
    } else {
        spec_decimal_nat(n / 10).push(spec_digit((n % 10) as int))
    }
}

/// Decimal representation of an integer: a `-` sign for negative values,
/// then the digits of its magnitude.
pub open spec fn spec_decimal(v: int) -> Seq<char> {
    if v < 0 {
        seq!['-'] + spec_decimal_nat((-v) as nat)
    } else {
        spec_decimal_nat(v as nat)
    }
}

/// Relies on `itoa::Buffer::format` at `i64`: it writes exactly the decimal
/// digits of its argument, with a leading `-` for negative values.
#[verifier::external_body]
fn format_decimal(v: i64) -> (r: String)
    ensures
        r@ == spec_decimal(v as int),
{
    let mut buffer = itoa::Buffer::new();
    String::from(buffer.format(v))
}

/// An error raised while opening a file handle or adjusting the file it
/// refers to.
#[derive(Debug, PartialEq, Eq)]
pub enum HandleOpenError {
    /// The path could not be converted to the native wide representation.
    /// Carries the native error code and the offending path.
    FailedToConvertPath(u32, String),
    /// The open or create call failed. Carries the native error code and
    /// the offending path.
    FailedToOpenFileHandle(i32, String),
    /// The file size query failed. Carries the native error code.
    FailedToGetFileSize(i32),
    /// Resizing the file failed. Carries the native error code.
    FailedToSetFileSize(i32),
    /// Creating the native file-mapping object failed. Carries the native
    /// error code and the offending path.
    FailedToCreateFileMapping(u32, String),
}

/// The diagnostic text of a [`HandleOpenError`].
pub open spec fn spec_handle_error_message(e: HandleOpenError) -> Seq<char> {
    match e {
        HandleOpenError::FailedToConvertPath(code, path) => "Failed to convert path to wide string. Error code: "@
            + spec_decimal(code as int) + ", Path: "@ + path@,
        HandleOpenError::FailedToOpenFileHandle(code, path) => "Failed to open file handle. Error code: "@
            + spec_decimal(code as int) + ", Path: "@ + path@,
        HandleOpenError::FailedToGetFileSize(code) => "Failed to get file size. Error code: "@
            + spec_decimal(code as int),
        HandleOpenError::FailedToSetFileSize(code) => "Failed to set file size. Error code: "@
            + spec_decimal(code as int),
        HandleOpenError::FailedToCreateFileMapping(code, path) => "Failed to create file mapping. Error code: "@
            + spec_decimal(code as int) + ", Path: "@ + path@,
    }
}

impl HandleOpenError {
    /// Error for a failed path conversion, keeping the native code and path.
    pub fn failed_to_convert_path(err_code: u32, path: &str) -> (e: Self)
        ensures
            e matches HandleOpenError::FailedToConvertPath(c, p) && c == err_code && p@ == path@,
    {
        HandleOpenError::FailedToConvertPath(err_code, String::from_str(path))
    }

    /// Error for a failed open or create call, keeping the native code and
    /// path.
    pub fn failed_to_open_file_handle(err_code: i32, path: &str) -> (e: Self)
        ensures
            e matches HandleOpenError::FailedToOpenFileHandle(c, p) && c == err_code && p@ == path@,
    {
        HandleOpenError::FailedToOpenFileHandle(err_code, String::from_str(path))
    }

    /// Error for a failed open or create call reported through `errno`.
    pub fn failed_to_open_file_handle_unix(err_code: i32, path: &str) -> (e: Self)
        ensures
            e matches HandleOpenError::FailedToOpenFileHandle(c, p) && c == err_code && p@ == path@,
    {
        HandleOpenError::FailedToOpenFileHandle(err_code, String::from_str(path))
    }

    /// Error for a failed resize of the file.
    pub fn failed_to_set_file_size(err_code: i32) -> (e: Self)
        ensures
            e == HandleOpenError::FailedToSetFileSize(err_code),
    {
        HandleOpenError::FailedToSetFileSize(err_code)
    }

    /// Error for a failed creation of the native file-mapping object,
    /// keeping the native code and path.
    pub fn failed_to_create_file_mapping(err_code: u32, path: &str) -> (e: Self)
        ensures
            e matches HandleOpenError::FailedToCreateFileMapping(c, p) && c == err_code && p@ == path@,
    {
        HandleOpenError::FailedToCreateFileMapping(err_code, String::from_str(path))
    }

    /// The diagnostic text for this error.
    pub fn message(&self) -> (r: String)
        ensures
            r@ == spec_handle_error_message(*self),
    {
        match self {
            HandleOpenError::FailedToConvertPath(code, path) => {
                let mut s = String::from_str("Failed to convert path to wide string. Error code: ");
                let digits = format_decimal(*code as i64);
                s.append(digits.as_str());
                s.append(", Path: ");
                s.append(path.as_str());
                proof {
                    assert(s@ =~= spec_handle_error_message(*self));
                }
                s
            },
            HandleOpenError::FailedToOpenFileHandle(code, path) => {
                let mut s = String::from_str("Failed to open file handle. Error code: ");
                let digits = format_decimal(*code as i64);
                s.append(digits.as_str());
                s.append(", Path: ");
                s.append(path.as_str());
                proof {
                    assert(s@ =~= spec_handle_error_message(*self));
                }
                s
            },
            HandleOpenError::FailedToGetFileSize(code) => {
                let mut s = String::from_str("Failed to get file size. Error code: ");
                let digits = format_decimal(*code as i64);
                s.append(digits.as_str());
                s
            },
            HandleOpenError::FailedToSetFileSize(code) => {
                let mut s = String::from_str("Failed to set file size. Error code: ");
                let digits = format_decimal(*code as i64);
                s.append(digits.as_str());
                s
            },
            HandleOpenError::FailedToCreateFileMapping(code, path) => {
                let mut s = String::from_str("Failed to create file mapping. Error code: ");
                let digits = format_decimal(*code as i64);
                s.append(digits.as_str());
                s.append(", Path: ");
                s.append(path.as_str());
                proof {
                    assert(s@ =~= spec_handle_error_message(*self));
                }
                s
            },
        }
    }
}

/// An error raised while creating a memory mapping.
#[derive(Debug, PartialEq, Eq)]
pub enum MmapError {
    /// The native mapping call failed. Carries the native error code.
    FailedToMapMemory(i32),
    /// The mapping could not be constructed for a reason not tied to a
    /// single native call. Carries a description.
    MappingFailed(String),
    /// The file size query needed to trim the request failed.
    FailedToGetFileSize,
}

/// The diagnostic text of a [`MmapError`].
pub open spec fn spec_mmap_error_message(e: MmapError) -> Seq<char> {
    match e {
        MmapError::FailedToMapMemory(code) => "Failed to map memory. Error code: "@ + spec_decimal(
            code as int,
        ),
        MmapError::MappingFailed(msg) => "Mapping failed: "@ + msg@,
        MmapError::FailedToGetFileSize => "Failed to get file size"@,
    }
}

impl MmapError {
    /// Error for a failed native mapping call.
    pub fn failed_to_map_memory(error_code: i32) -> (e: Self)
        ensures
            e == MmapError::FailedToMapMemory(error_code),
    {
        MmapError::FailedToMapMemory(error_code)
    }

    /// Error for a failed native mapping call reported through `errno`.
    pub fn failed_to_map_memory_unix(error_code: i32) -> (e: Self)
        ensures
            e == MmapError::FailedToMapMemory(error_code),
    {
        MmapError::FailedToMapMemory(error_code)
    }

    /// Error for a mapping failure described only by a message.
    pub fn mapping_failed(message: &str) -> (e: Self)
        ensures
            e matches MmapError::MappingFailed(m) && m@ == message@,
    {
        MmapError::MappingFailed(String::from_str(message))
    }

    /// Error for a failed file size query made on behalf of a mapping.
    pub fn failed_to_get_file_size() -> (e: Self)
        ensures
            e == MmapError::FailedToGetFileSize,
    {
        MmapError::FailedToGetFileSize
    }

    /// The diagnostic text for this error.
    pub fn message(&self) -> (r: String)
        ensures
            r@ == spec_mmap_error_message(*self),
    {
        match self {
            MmapError::FailedToMapMemory(code) => {
                let mut s = String::from_str("Failed to map memory. Error code: ");
                let digits = format_decimal(*code as i64);
                s.append(digits.as_str());
                s
            },
            MmapError::MappingFailed(msg) => {
                let mut s = String::from_str("Mapping failed: ");
                s.append(msg.as_str());
                s
            },
            MmapError::FailedToGetFileSize => String::from_str("Failed to get file size"),
        }
    }
}

} // verus!
