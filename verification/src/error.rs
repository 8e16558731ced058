//! The closed set of failure kinds surfaced by every fallible operation.

use vstd::prelude::*;
use vstd::string::StringExecFns;

verus! {

/// The kind of a driver failure.
#[derive(Debug, PartialEq, Eq, Structural)]
pub enum ErrorType {
    /// A structural violation of a status frame (bad magic, bad length,
    /// wrong marker, truncated input).
    Parsing,
    /// A register width outside {1, 2}, reached during encode or decode.
    UnsupportedRegister,
    /// A well-formed status frame whose error byte is non-zero; the payload
    /// is the raw byte, interpreted by the servo hardware documentation.
    StatusError(u8),
    /// A CRC mismatch on a complete-looking frame.
    InvalidChecksum,
    /// The per-byte deadline was exceeded while receiving.
    Timeout,
}

/// An error returned by the driver, carrying its kind.
#[derive(Debug, PartialEq, Eq, Structural)]
pub struct DynamixelError {
    /// The kind of failure.
    pub error: ErrorType,
}

impl DynamixelError {
    /// A structural violation of a status frame.
    pub fn parsing_error() -> (r: DynamixelError)
        ensures
            r.error == ErrorType::Parsing,
    {
        DynamixelError { error: ErrorType::Parsing }
    }

    /// A register width outside {1, 2}.
    pub fn unsupported_register() -> (r: DynamixelError)
        ensures
            r.error == ErrorType::UnsupportedRegister,
    {
        DynamixelError { error: ErrorType::UnsupportedRegister }
    }

    /// A non-zero error byte `e` carried by a well-formed status frame.
    pub fn status_error_code(e: u8) -> (r: DynamixelError)
        ensures
            r.error == ErrorType::StatusError(e),
    {
        DynamixelError { error: ErrorType::StatusError(e) }
    }

    /// A CRC mismatch on a complete-looking frame.
    pub fn invalid_checksum() -> (r: DynamixelError)
        ensures
            r.error == ErrorType::InvalidChecksum,
    {
        DynamixelError { error: ErrorType::InvalidChecksum }
    }

    /// The per-byte deadline was exceeded while receiving.
    pub fn timeout() -> (r: DynamixelError)
        ensures
            r.error == ErrorType::Timeout,
    {
        DynamixelError { error: ErrorType::Timeout }
    }

    /// A short human-readable rendering: the failure kind, with the raw
    /// status error byte in decimal for `StatusError`.
    pub fn description(&self) -> (r: String)
        ensures
            r@ == self.spec_description(),
    {
        match self.error {
            ErrorType::Parsing => "Dynamixel Error: Parsing".to_owned(),
            ErrorType::UnsupportedRegister => "Dynamixel Error: UnsupportedRegister".to_owned(),
            ErrorType::StatusError(e) => {
                let mut s = String::from_str("Dynamixel Error: StatusError(");
                if e >= 100 {
                    s.append(digit_str(e / 100));
                }
                if e >= 10 {
                    s.append(digit_str((e / 10) % 10));
                }
                s.append(digit_str(e % 10));
                s.append(")");
                proof {
                    assert(s@ =~= self.spec_description());
                }
                s
            },
            ErrorType::InvalidChecksum => "Dynamixel Error: InvalidChecksum".to_owned(),
            ErrorType::Timeout => "Dynamixel Error: Timeout".to_owned(),
        }
    }

    /// What `description` returns, per failure kind.
    pub open spec fn spec_description(&self) -> Seq<char> {
        match self.error {
            ErrorType::Parsing => "Dynamixel Error: Parsing"@,
            ErrorType::UnsupportedRegister => "Dynamixel Error: UnsupportedRegister"@,
            ErrorType::StatusError(e) => "Dynamixel Error: StatusError("@ + spec_decimal(e)
                + ")"@,
            ErrorType::InvalidChecksum => "Dynamixel Error: InvalidChecksum"@,
            ErrorType::Timeout => "Dynamixel Error: Timeout"@,
        }
    }
}

/// The character of one decimal digit.
pub open spec fn spec_digit_str(d: u8) -> Seq<char>
    recommends
        d < 10,
{
    if d == 0 {
        "0"@
    } else if d == 1 {
        "1"@
    } else if d == 2 {
        "2"@
    } else if d == 3 {
        "3"@
    } else if d == 4 {
        "4"@
    } else if d == 5 {
        "5"@
    } else if d == 6 {
        "6"@
    } else if d == 7 {
        "7"@
    } else if d == 8 {
        "8"@
    } else {
        "9"@
    }
}

/// The decimal rendering of a byte, without leading zeros.
pub open spec fn spec_decimal(n: u8) -> Seq<char> {
    if n < 10 {
        spec_digit_str(n)
    } else if n < 100 {
        spec_digit_str(n / 10) + spec_digit_str(n % 10)
    } else {
        spec_digit_str(n / 100) + spec_digit_str((n / 10) % 10) + spec_digit_str(n % 10)
    }
}

/// Renders one decimal digit.
fn digit_str(d: u8) -> (r: &'static str)
    requires
        d < 10,
    ensures
        r@ == spec_digit_str(d),
{
    if d == 0 {
        "0"
    } else if d == 1 {
        "1"
    } else if d == 2 {
        "2"
    } else if d == 3 {
        "3"
    } else if d == 4 {
        "4"
    } else if d == 5 {
        "5"
    } else if d == 6 {
        "6"
    } else if d == 7 {
        "7"
    } else if d == 8 {
        "8"
    } else {
        "9"
    }
}

} // verus!
