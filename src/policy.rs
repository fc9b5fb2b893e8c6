//! The control policy: a fan duty for each temperature.
//!
//! Temperatures are in milli-degrees Celsius, as the sensor attribute holds
//! them; a bracket bound of 40.0 °C is 40000 here. Each bound belongs to the
//! bracket below it.
use vstd::prelude::*;

verus! {

pub const DUTY_COOL: u8 = 80;

pub const DUTY_WARM: u8 = 128;

pub const DUTY_HOT: u8 = 180;

pub const DUTY_FULL: u8 = 255;

/// The duty for a temperature of `milli` milli-degrees Celsius.
pub open spec fn duty_spec(milli: int) -> u8 {
    if milli <= 40000 {
        DUTY_COOL
    } else if milli <= 50000 {
        DUTY_WARM
    } else if milli <= 60000 {
        DUTY_HOT
    } else {
        DUTY_FULL
    }
}

/// Maps a temperature in milli-degrees Celsius to a fan duty: 80 up to
/// 40 °C, 128 up to 50 °C, 180 up to 60 °C, and 255 above.
pub fn duty_for(milli: i32) -> (r: u8)
    ensures
        r == duty_spec(milli as int),
        milli <= 40000 ==> r == 80,
        40000 < milli <= 50000 ==> r == 128,
        50000 < milli <= 60000 ==> r == 180,
        60000 < milli ==> r == 255,
{
    if milli <= 40000 {
        DUTY_COOL
    } else if milli <= 50000 {
        DUTY_WARM
    } else if milli <= 60000 {
        DUTY_HOT
    } else {
        DUTY_FULL
    }
}

/// The policy is a total function of the temperature alone: every reading
/// gets one of the four duties, and equal readings get equal duties.
pub proof fn duty_is_total_and_pure(a: int, b: int)
    ensures
        duty_spec(a) == 80 || duty_spec(a) == 128 || duty_spec(a) == 180 || duty_spec(a) == 255,
        a == b ==> duty_spec(a) == duty_spec(b),
{
}

/// A hotter reading never gets a lower duty.
pub proof fn duty_is_monotone(a: int, b: int)
    requires
        a <= b,
    ensures
        duty_spec(a) <= duty_spec(b),
{
}

} // verus!
