//! Integer variates, uniform on a range that the caller gives.
//!
//! The draws themselves are made by the simulation library. What is stated
//! here holds of every draw: when one is made at all, and where it lies.

use vstd::prelude::*;
use crate::error::{ErrorModel, XPyError, XPyResult};

verus! {

/// Whether the range from `low` to `high` holds at least one integer; `high`
/// itself belongs to the range only if `end` is set.
pub open spec fn range_is_inhabited(low: i64, high: i64, end: bool) -> bool {
    if end {
        low <= high
    } else {
        low < high
    }
}

/// Whether `value` lies in the range from `low` to `high`; `high` itself
/// belongs to the range only if `end` is set.
pub open spec fn in_range(low: i64, high: i64, end: bool, value: i64) -> bool {
    low <= value && if end {
        value <= high
    } else {
        value < high
    }
}

/// Whether a vector of `count` eight-byte items can be allocated at all.
pub open spec fn count_is_allocatable(count: usize) -> bool {
    count * 8 <= isize::MAX
}

/// `diffusionx::random::uniform::range_rand` on `low..high`. It fails exactly
/// when the range is empty, and a value that it draws is at least `low` and
/// below `high`.
#[verifier::external_body]
fn range_rand(low: i64, high: i64) -> (drawn: Result<i64, diffusionx::XError>)
    ensures
        drawn is Ok <==> low < high,
        drawn matches Ok(value) ==> low <= value < high,
{
    diffusionx::random::uniform::range_rand(low..high)
}

/// `diffusionx::random::uniform::inclusive_range_rand` on `low..=high`. It
/// fails exactly when `low` is above `high`, and a value that it draws is at
/// least `low` and at most `high`.
#[verifier::external_body]
fn inclusive_range_rand(low: i64, high: i64) -> (drawn: Result<i64, diffusionx::XError>)
    ensures
        drawn is Ok <==> low <= high,
        drawn matches Ok(value) ==> low <= value <= high,
{
    diffusionx::random::uniform::inclusive_range_rand(low..=high)
}

/// `diffusionx::random::uniform::range_rands` on `low..high`. It fails
/// exactly when the range is empty; otherwise it hands back `count` values,
/// each at least `low` and below `high`.
#[verifier::external_body]
fn range_rands(low: i64, high: i64, count: usize) -> (drawn: Result<Vec<i64>, diffusionx::XError>)
    requires
        count_is_allocatable(count),
    ensures
        drawn is Ok <==> low < high,
        drawn matches Ok(values) ==> values@.len() == count && forall|i: int|
            0 <= i < values@.len() ==> low <= #[trigger] values@[i] < high,
{
    diffusionx::random::uniform::range_rands(low..high, count)
}

/// `diffusionx::random::uniform::inclusive_range_rands` on `low..=high`. It
/// fails exactly when `low` is above `high`; otherwise it hands back `count`
/// values, each at least `low` and at most `high`.
#[verifier::external_body]
fn inclusive_range_rands(low: i64, high: i64, count: usize) -> (drawn: Result<
    Vec<i64>,
    diffusionx::XError,
>)
    requires
        count_is_allocatable(count),
    ensures
        drawn is Ok <==> low <= high,
        drawn matches Ok(values) ==> values@.len() == count && forall|i: int|
            0 <= i < values@.len() ==> low <= #[trigger] values@[i] <= high,
{
    diffusionx::random::uniform::inclusive_range_rands(low..=high, count)
}

/// One integer drawn uniformly from `low` up to `high`, with `high` itself
/// among the candidates only if `end` is set.
///
/// A value is drawn exactly when the range holds one, and it lies in the
/// range. An empty range is a `ValueError`.
pub fn uniform_rand_int(low: i64, high: i64, end: bool) -> (drawn: XPyResult<i64>)
    ensures
        drawn is Ok <==> range_is_inhabited(low, high, end),
        drawn matches Ok(value) ==> in_range(low, high, end, value),
        drawn matches Err(error) ==> error@ is Value,
{
    let outcome = if end {
        inclusive_range_rand(low, high)
    } else {
        range_rand(low, high)
    };
    match outcome {
        Ok(value) => Ok(value),
        Err(error) => Err(XPyError::from_x_error(error)),
    }
}

/// `n` integers, each drawn uniformly from `low` up to `high`, with `high`
/// itself among the candidates only if `end` is set.
///
/// The values are drawn exactly when the range holds one; there are `n` of
/// them and each lies in the range. An empty range is a `ValueError`,
/// whatever `n` is.
pub fn uniform_rands_int(n: usize, low: i64, high: i64, end: bool) -> (drawn: XPyResult<Vec<i64>>)
    requires
        count_is_allocatable(n),
    ensures
        drawn is Ok <==> range_is_inhabited(low, high, end),
        drawn matches Ok(values) ==> values@.len() == n && forall|i: int|
            0 <= i < values@.len() ==> in_range(low, high, end, #[trigger] values@[i]),
        drawn matches Err(error) ==> error@ is Value,
{
    let outcome = if end {
        inclusive_range_rands(low, high, n)
    } else {
        range_rands(low, high, n)
    };
    match outcome {
        Ok(values) => Ok(values),
        Err(error) => Err(XPyError::from_x_error(error)),
    }
}

} // verus!
