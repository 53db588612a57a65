//! The errors raised by the library.
use vstd::prelude::*;
use vstd::string::*;

verus! {

/// An error raised by the library.
///
/// It can be turned into a `std::io::Error` with [`Error::into_io`].
#[derive(Clone, Copy, PartialEq, Eq, Hash, Debug, Structural)]
pub enum Error {
    /// Input requirements not met. For example, a pointer is not aligned to the page size, or
    /// a size is not a multiple of the page size.
    InvalidInput,
    /// Error returned by the OS.
    Os(OsError),
}

/// An error raised by the OS, holding the system error code.
#[derive(Clone, Copy, PartialEq, Eq, Hash, Debug, Structural)]
pub struct OsError(pub i32);

/// The result of the library's operations.
pub type Result<T> = core::result::Result<T, Error>;

/// What a `std::io::Error` made from an [`Error`] is built from.
#[derive(Clone, Copy, PartialEq, Eq, Hash, Debug, Structural)]
pub enum IoErrorSource {
    /// An error of kind `std::io::ErrorKind::InvalidInput`.
    InvalidInput,
    /// An error carrying this raw OS error code.
    RawOs(i32),
}

/// `std::io::Error`, held as an opaque value: the contracts here speak of
/// which value it is, never of what is inside it.
#[verifier::external_type_specification]
#[verifier::external_body]
pub struct ExIoError(std::io::Error);

/// Calls `std::io::Error::from(std::io::ErrorKind::InvalidInput)`. By std's
/// documentation its `kind()` is `InvalidInput` and its `raw_os_error()` is
/// `None`, so it is none of the errors built from a raw code: that much is
/// stated. Its kind is not, as the value is opaque here.
#[verifier::external_body]
fn io_error_invalid_input() -> (e: std::io::Error)
    ensures
        forall|code: i32| #[trigger] raw_os_io_error(code) != e,
{
    std::io::Error::from(std::io::ErrorKind::InvalidInput)
}

/// The `std::io::Error` that `std::io::Error::from_raw_os_error(code)` builds:
/// a function of the code alone (by std's documentation, its `raw_os_error()`
/// is `Some(code)`).
pub uninterp spec fn raw_os_io_error(code: i32) -> std::io::Error;

/// Calls `std::io::Error::from_raw_os_error`; its result is named
/// [`raw_os_io_error`] of the code, and nothing more is stated of it.
#[verifier::external_body]
fn io_error_from_raw_os_error(code: i32) -> (e: std::io::Error)
    ensures
        e == raw_os_io_error(code),
{
    std::io::Error::from_raw_os_error(code)
}

impl OsError {
    /// The system error code.
    pub fn code(self) -> (code: i32)
        ensures
            code == self.0,
    {
        self.0
    }

    /// Transform this error into `std::io::Error`, built from the raw code.
    pub fn into_io(self) -> (e: std::io::Error)
        ensures
            e == raw_os_io_error(self.0),
    {
        io_error_from_raw_os_error(self.code())
    }
}

impl Error {
    /// What the `std::io::Error` made from this error is built from: its kind
    /// for an invalid input, its raw code for an OS error.
    pub open spec fn io_source_spec(self) -> IoErrorSource {
        match self {
            Error::InvalidInput => IoErrorSource::InvalidInput,
            Error::Os(e) => IoErrorSource::RawOs(e.0),
        }
    }

    /// What the `std::io::Error` made from this error is built from.
    pub fn io_source(self) -> (source: IoErrorSource)
        ensures
            source == self.io_source_spec(),
    {
        match self {
            Error::InvalidInput => IoErrorSource::InvalidInput,
            Error::Os(e) => IoErrorSource::RawOs(e.code()),
        }
    }

    /// Transform this error into `std::io::Error`, built from [`Error::io_source`]:
    /// for an OS error, the one built from its raw code; for an invalid input,
    /// one of kind `InvalidInput`, built from no raw code.
    pub fn into_io(self) -> (e: std::io::Error)
        ensures
            self matches Error::Os(os) ==> e == raw_os_io_error(os.0),
            self is InvalidInput ==> forall|code: i32| #[trigger] raw_os_io_error(code) != e,
    {
        match self.io_source() {
            IoErrorSource::InvalidInput => io_error_invalid_input(),
            IoErrorSource::RawOs(code) => io_error_from_raw_os_error(code),
        }
    }
}

impl From<OsError> for Error {
    fn from(e: OsError) -> (r: Error) {
        Error::Os(e)
    }
}

impl vstd::std_specs::convert::FromSpecImpl<OsError> for Error {
    open spec fn obeys_from_spec() -> bool {
        true
    }

    open spec fn from_spec(e: OsError) -> Error {
        Error::Os(e)
    }
}

impl From<OsError> for std::io::Error {
    fn from(e: OsError) -> (r: std::io::Error) {
        e.into_io()
    }
}

impl vstd::std_specs::convert::FromSpecImpl<OsError> for std::io::Error {
    open spec fn obeys_from_spec() -> bool {
        true
    }

    open spec fn from_spec(e: OsError) -> std::io::Error {
        raw_os_io_error(e.0)
    }
}

/// Calls `errno::errno()` and hands out its code: the calling thread's last
/// system error (`errno` on Unix, `GetLastError()` on Windows). It depends on
/// the thread's state, so nothing is stated of it.
#[verifier::external_body]
fn last_errno() -> (code: i32) {
    errno::errno().0
}

/// The error the system reported for the calling thread's last failed call.
pub fn last_os_error() -> (e: Error)
    ensures
        e is Os,
{
    Error::from(OsError(last_errno()))
}

/// The upper-case hexadecimal digits.
pub open spec fn hex_digits() -> Seq<char> {
    seq!['0', '1', '2', '3', '4', '5', '6', '7', '8', '9', 'A', 'B', 'C', 'D', 'E', 'F']
}

/// The upper-case hexadecimal notation of `n`, without leading zeros.
pub open spec fn hex_upper(n: nat) -> Seq<char>
    decreases n,
{
    if n < 16 {
        seq![hex_digits()[n as int]]
    } else {
        hex_upper(n / 16) + seq![hex_digits()[(n % 16) as int]]
    }
}

/// The message of an OS error: its code in upper-case hexadecimal, the code
/// read as its 32 bits (as `{:X}` prints an `i32`).
pub open spec fn os_error_message(e: OsError) -> Seq<char> {
    "system error code 0x"@ + hex_upper((e.0 as u32) as nat)
}

/// The debugging text of an OS error: `OsError(0x...)`, the code in
/// upper-case hexadecimal.
pub open spec fn os_error_debug(e: OsError) -> Seq<char> {
    "OsError(0x"@ + hex_upper((e.0 as u32) as nat) + ")"@
}

/// The debugging text of an error: `InvalidInput`, or `Os(...)` around the
/// OS error's debugging text.
pub open spec fn error_debug(e: Error) -> Seq<char> {
    match e {
        Error::InvalidInput => "InvalidInput"@,
        Error::Os(os) => "Os("@ + os_error_debug(os) + ")"@,
    }
}

/// The message of an error.
pub open spec fn error_message(e: Error) -> Seq<char> {
    match e {
        Error::InvalidInput => "invalid input"@,
        Error::Os(os) => os_error_message(os),
    }
}

/// The digit `d` in upper-case hexadecimal.
fn hex_digit(d: u32) -> (s: &'static str)
    requires
        d < 16,
    ensures
        s@ == seq![hex_digits()[d as int]],
{
    proof {
        reveal_strlit("0");
        reveal_strlit("1");
        reveal_strlit("2");
        reveal_strlit("3");
        reveal_strlit("4");
        reveal_strlit("5");
        reveal_strlit("6");
        reveal_strlit("7");
        reveal_strlit("8");
        reveal_strlit("9");
        reveal_strlit("A");
        reveal_strlit("B");
        reveal_strlit("C");
        reveal_strlit("D");
        reveal_strlit("E");
        reveal_strlit("F");
    }
    match d {
        0 => "0",
        1 => "1",
        2 => "2",
        3 => "3",
        4 => "4",
        5 => "5",
        6 => "6",
        7 => "7",
        8 => "8",
        9 => "9",
        10 => "A",
        11 => "B",
        12 => "C",
        13 => "D",
        14 => "E",
        _ => "F",
    }
}

/// Appends `n` in upper-case hexadecimal to `s`.
fn push_hex_upper(s: &mut String, n: u32)
    ensures
        final(s)@ == old(s)@ + hex_upper(n as nat),
    decreases n,
{
    let digit = hex_digit(n % 16);
    if n >= 16 {
        push_hex_upper(s, n / 16);
        s.append(digit);
        proof {
            assert(old(s)@ + hex_upper((n / 16) as nat) + seq![hex_digits()[(n % 16) as int]]
                =~= old(s)@ + hex_upper(n as nat));
        }
    } else {
        s.append(digit);
    }
}

impl OsError {
    /// The message of this error: "system error code 0x" and the code in
    /// upper-case hexadecimal.
    pub fn to_string(&self) -> (s: String)
        ensures
            s@ == os_error_message(*self),
    {
        let mut s = String::from_str("system error code 0x");
        push_hex_upper(&mut s, self.0 as u32);
        s
    }

    /// The debugging text of this error: "OsError(0x" and the code in
    /// upper-case hexadecimal, then ")".
    pub fn debug_string(&self) -> (s: String)
        ensures
            s@ == os_error_debug(*self),
    {
        let mut s = String::from_str("OsError(0x");
        push_hex_upper(&mut s, self.0 as u32);
        s.append(")");
        s
    }
}

impl Error {
    /// The debugging text of this error: "InvalidInput", or "Os(" and the OS
    /// error's debugging text, then ")".
    pub fn debug_string(&self) -> (s: String)
        ensures
            s@ == error_debug(*self),
    {
        match self {
            Error::InvalidInput => String::from_str("InvalidInput"),
            Error::Os(e) => {
                let mut s = String::from_str("Os(");
                let inner = e.debug_string();
                s.append(inner.as_str());
                s.append(")");
                s
            },
        }
    }

    /// The message of this error: "invalid input", or the OS error's message.
    pub fn to_string(&self) -> (s: String)
        ensures
            s@ == error_message(*self),
    {
        match self {
            Error::InvalidInput => String::from_str("invalid input"),
            Error::Os(e) => e.to_string(),
        }
    }
}

/// An OS error keeps its code through the conversion into [`Error`], and two
/// OS errors with different codes stay different.
pub proof fn os_error_conversion_keeps_code(e: OsError, f: OsError)
    ensures
        <Error as vstd::std_specs::convert::FromSpec<OsError>>::from_spec(e) == Error::Os(e),
        Error::Os(e).io_source_spec() == IoErrorSource::RawOs(e.0),
        Error::Os(e) == Error::Os(f) <==> e.0 == f.0,
        Error::Os(e) != Error::InvalidInput,
{
}

} // verus!
