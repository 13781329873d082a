//! The platform configuration file and its integer-coded flags.
use vstd::prelude::*;

verus! {

/// A setting that the platform reports periodically.
#[derive(Debug)]
pub struct Reported {
    pub component_name: String,
    pub object_name: String,
}

/// The platform configuration.
#[derive(Debug)]
pub struct Config {
    pub command_logging: bool,
    pub full_logging: bool,
    pub model_version: u32,
    pub reported: Vec<Reported>,
    pub reporting_interval: u32,
}

/// A flag written as an integer other than zero or one.
#[derive(Debug, PartialEq, Eq, Structural)]
pub struct InvalidFlag {
    pub value: u8,
}

/// The flag that an integer stands for: zero is false, one is true, anything else is refused.
pub open spec fn flag_of(value: u8) -> Result<bool, InvalidFlag> {
    if value == 0 {
        Ok(false)
    } else if value == 1 {
        Ok(true)
    } else {
        Err(InvalidFlag { value })
    }
}

/// The integer that a flag is written as.
pub open spec fn flag_value(b: bool) -> u8 {
    if b {
        1
    } else {
        0
    }
}

/// Reads a flag written as an integer.
pub fn bool_from_int(value: u8) -> (r: Result<bool, InvalidFlag>)
    ensures
        r == flag_of(value),
{
    match value {
        0 => Ok(false),
        1 => Ok(true),
        other => Err(InvalidFlag { value: other }),
    }
}

/// Writes a flag as an integer.
pub fn bool_to_int(boolean: bool) -> (r: u8)
    ensures
        r == flag_value(boolean),
{
    if boolean {
        1
    } else {
        0
    }
}

/// A flag written as an integer reads back as the same flag, and an integer that reads as a
/// flag is the one that the flag is written as.
pub proof fn law_flag_round_trip(b: bool, v: u8)
    ensures
        flag_of(flag_value(b)) == Ok::<bool, InvalidFlag>(b),
        flag_of(v) matches Ok(x) ==> flag_value(x) == v,
{
}

} // verus!
