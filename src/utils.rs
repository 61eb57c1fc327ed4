use vstd::prelude::*;

verus! {

/// `value` held within `[min, max]`: `min` below it, `max` above it.
pub open spec fn clamp_spec(value: int, min: int, max: int) -> int {
    if value < min {
        min
    } else if value > max {
        max
    } else {
        value
    }
}

pub open spec fn abs_spec(value: int) -> int {
    if value < 0 {
        -value
    } else {
        value
    }
}

/// Clamps a value between a minimum and a maximum.
pub fn clamp(value: i64, min: i64, max: i64) -> (r: i64)
    ensures
        value < min ==> r == min,
        value >= min && value > max ==> r == max,
        min <= value && value <= max ==> r == value,
        r == clamp_spec(value as int, min as int, max as int),
{
    if value < min {
        min
    } else if value > max {
        max
    } else {
        value
    }
}

/// Validates an identifier handed over by a host as a 32-bit integer: it is
/// taken as a byte when it fits in one, and rejected otherwise.
pub fn host_id(id: i32) -> (r: Result<u8, crate::error::HwError>)
    ensures
        0 <= id <= 255 ==> r == Ok::<u8, crate::error::HwError>(id as u8),
        !(0 <= id <= 255) ==> r == Err::<u8, crate::error::HwError>(
            crate::error::HwError::InvalidArgument,
        ),
{
    if 0 <= id && id <= 255 {
        Ok(id as u8)
    } else {
        Err(crate::error::HwError::InvalidArgument)
    }
}

} // verus!
