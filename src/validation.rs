use vstd::prelude::*;

use crate::state::text_ok;
use crate::types::LumentixError;

verus! {

pub fn validate_string_not_empty(s: &String) -> (r: Result<(), LumentixError>)
    ensures
        r is Ok <==> text_ok(s@),
        r is Err ==> r == Err::<(), LumentixError>(LumentixError::EmptyString),
{
    if s.as_str().is_empty() {
        Err(LumentixError::EmptyString)
    } else {
        Ok(())
    }
}

pub fn validate_positive_amount(amount: i128) -> (r: Result<(), LumentixError>)
    ensures
        r is Ok <==> amount > 0,
        r is Err ==> r == Err::<(), LumentixError>(LumentixError::InvalidAmount),
{
    if amount <= 0 {
        Err(LumentixError::InvalidAmount)
    } else {
        Ok(())
    }
}

pub fn validate_positive_capacity(capacity: u32) -> (r: Result<(), LumentixError>)
    ensures
        r is Ok <==> capacity > 0,
        r is Err ==> r == Err::<(), LumentixError>(LumentixError::InvalidCapacity),
{
    if capacity == 0 {
        Err(LumentixError::InvalidCapacity)
    } else {
        Ok(())
    }
}

pub fn validate_time_range(start_time: u64, end_time: u64) -> (r: Result<(), LumentixError>)
    ensures
        r is Ok <==> start_time < end_time,
        r is Err ==> r == Err::<(), LumentixError>(LumentixError::InvalidTimeRange),
{
    if start_time >= end_time {
        Err(LumentixError::InvalidTimeRange)
    } else {
        Ok(())
    }
}

} // verus!
