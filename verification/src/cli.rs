//! Small helpers shared by the command-line parsers of the harness
//! programs.

use vstd::prelude::*;

verus! {

/// Why a command line was rejected.
#[derive(Clone, Copy, PartialEq, Eq, Debug)]
pub enum ArgsError {
    /// `-help` was asked for; the caller prints usage and stops.
    WrongUsage,
    /// An option that no program of the harness knows.
    InvalidArgument,
    /// An option that needs a value stood last on the line.
    MissingValue,
    /// A numeric option whose value is not a number in range.
    InvalidNumber,
}

impl ArgsError {
    /// A short description, as the harness prints it.
    pub fn describe(&self) -> (r: &'static str)
        ensures
            *self is WrongUsage ==> r@ == "wrong usage"@,
            *self is InvalidArgument ==> r@ == "invalid argument"@,
            *self is MissingValue ==> r@ == "missing value for argument"@,
            *self is InvalidNumber ==> r@ == "invalid number"@,
    {
        match self {
            ArgsError::WrongUsage => "wrong usage",
            ArgsError::InvalidArgument => "invalid argument",
            ArgsError::MissingValue => "missing value for argument",
            ArgsError::InvalidNumber => "invalid number",
        }
    }
}

/// Compares an argument against an option name.
pub fn string_is(s: &String, t: &str) -> (r: bool)
    ensures
        r == (s@ == t@),
{
    let u: String = t.to_owned();
    *s == u
}

} // verus!
