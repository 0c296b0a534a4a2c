//! The ways in which what the user typed can be refused.

use vstd::prelude::*;

verus! {

/// Why a line of input was refused.
#[derive(Clone, Copy, Debug, PartialEq, Eq, Structural)]
pub enum InputError {
    /// The menu line is not a number.
    InvalidChoice,
    /// The menu line is a number that names no city.
    OutOfRange,
    /// The latitude line is not a number.
    InvalidLatitude,
    /// The longitude line is not a number.
    InvalidLongitude,
    /// The report line names no kind of report.
    InvalidReportKind,
}

impl InputError {
    /// The words in which the error is told to the user.
    pub open spec fn message_text(self) -> Seq<char> {
        match self {
            InputError::InvalidChoice => "Invalid choice"@,
            InputError::OutOfRange => "Choice out of range"@,
            InputError::InvalidLatitude => "Invalid latitude"@,
            InputError::InvalidLongitude => "Invalid longitude"@,
            InputError::InvalidReportKind => "Invalid option"@,
        }
    }

    /// The status with which a run ends on the error: a latitude or a
    /// longitude that is no number fails the run, the other errors end it
    /// without failure.
    pub open spec fn exit_status_spec(self) -> i32 {
        match self {
            InputError::InvalidLatitude | InputError::InvalidLongitude => 1,
            _ => 0,
        }
    }

    /// The status with which a run ends on the error.
    pub fn exit_status(&self) -> (r: i32)
        ensures
            r == self.exit_status_spec(),
    {
        match self {
            InputError::InvalidLatitude | InputError::InvalidLongitude => 1,
            _ => 0,
        }
    }

    /// The words in which the error is told to the user.
    pub fn message(&self) -> (r: String)
        ensures
            r@ == self.message_text(),
    {
        match self {
            InputError::InvalidChoice => String::from_str("Invalid choice"),
            InputError::OutOfRange => String::from_str("Choice out of range"),
            InputError::InvalidLatitude => String::from_str("Invalid latitude"),
            InputError::InvalidLongitude => String::from_str("Invalid longitude"),
            InputError::InvalidReportKind => String::from_str("Invalid option"),
        }
    }
}

} // verus!
