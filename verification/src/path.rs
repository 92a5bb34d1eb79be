//! The positions of a drawn path that an estimate reads.
//!
//! A path is the list of positions that one run of a process visits, in the
//! order of time. What a position holds is of no concern here, so the
//! functions take paths of any kind of value.

use vstd::prelude::*;
use crate::error::{ErrorModel, XPyError, XPyResult};

verus! {

/// The detail of the error for a path without a position.
pub open spec fn empty_path_text() -> Seq<char> {
    "Failed to get last element"@
}

/// The detail of the error for a path that is shorter than the window.
pub open spec fn short_path_text() -> Seq<char> {
    "Failed to get last element or slag position"@
}

/// The position that ends a path of `len` positions, if the path has one.
pub open spec fn last_position(len: int) -> Option<int> {
    if len >= 1 {
        Some(len - 1)
    } else {
        None
    }
}

/// The position at which the last window of `lag_steps` steps begins in a
/// path of `len` positions, if the path is long enough to hold the window.
pub open spec fn window_start(len: int, lag_steps: int) -> Option<int> {
    if 0 <= lag_steps < len {
        Some(len - 1 - lag_steps)
    } else {
        None
    }
}

/// The position of a path whose value an ensemble estimate reads: the last
/// one. A path without positions is a `ValueError`.
pub fn terminal_index(len: usize) -> (found: XPyResult<usize>)
    ensures
        found is Ok <==> last_position(len as int) is Some,
        found matches Ok(index) ==> last_position(len as int) == Some(index as int),
        found matches Err(error) ==> error@ == ErrorModel::Value(empty_path_text()),
{
    if len == 0 {
        Err(XPyError::invalid("Failed to get last element"))
    } else {
        Ok(len - 1)
    }
}

/// The two positions of a path between which a mean squared displacement is
/// taken: the path's own first position, and its last.
pub fn displacement_indices(len: usize) -> (found: XPyResult<(usize, usize)>)
    ensures
        found is Ok <==> last_position(len as int) is Some,
        found matches Ok(ends) ==> ends.0 == 0 && last_position(len as int) == Some(
            ends.1 as int,
        ),
        found matches Err(error) ==> error@ == ErrorModel::Value(empty_path_text()),
{
    match terminal_index(len) {
        Ok(last) => Ok((0, last)),
        Err(error) => Err(error),
    }
}

/// The two positions of a path between which a time average takes its
/// displacement: the one `lag_steps` steps before the end, and the end.
///
/// A path that does not reach back `lag_steps` steps from its end is a
/// `ValueError`: the window is never shortened to fit.
pub fn window_indices(len: usize, lag_steps: usize) -> (found: XPyResult<(usize, usize)>)
    ensures
        found is Ok <==> window_start(len as int, lag_steps as int) is Some,
        found matches Ok(ends) ==> window_start(len as int, lag_steps as int) == Some(
            ends.0 as int,
        ) && last_position(len as int) == Some(ends.1 as int),
        found matches Err(error) ==> error@ == ErrorModel::Value(short_path_text()),
{
    if lag_steps < len {
        Ok((len - 1 - lag_steps, len - 1))
    } else {
        Err(XPyError::invalid("Failed to get last element or slag position"))
    }
}

/// The value that a path contributes to an ensemble estimate: the one at its
/// last position. A path without positions is a `ValueError`.
pub fn terminal_value<T: Copy>(positions: &Vec<T>) -> (found: XPyResult<T>)
    ensures
        found is Ok <==> last_position(positions@.len() as int) is Some,
        found matches Ok(value) ==> value == positions@[positions@.len() - 1],
        found matches Err(error) ==> error@ == ErrorModel::Value(empty_path_text()),
{
    match terminal_index(positions.len()) {
        Ok(last) => Ok(positions[last]),
        Err(error) => Err(error),
    }
}

/// The two values of a path between which a mean squared displacement is
/// taken: the one at the path's own first position, and the one at its last.
pub fn displacement_ends<T: Copy>(positions: &Vec<T>) -> (found: XPyResult<(T, T)>)
    ensures
        found is Ok <==> last_position(positions@.len() as int) is Some,
        found matches Ok(ends) ==> ends.0 == positions@[0] && ends.1 == positions@[positions@.len()
            - 1],
        found matches Err(error) ==> error@ == ErrorModel::Value(empty_path_text()),
{
    match displacement_indices(positions.len()) {
        Ok(ends) => Ok((positions[ends.0], positions[ends.1])),
        Err(error) => Err(error),
    }
}

/// The two values of a path between which a time average takes its
/// displacement: the one `lag_steps` steps before the end, and the one at the
/// end.
///
/// A path that does not reach back `lag_steps` steps from its end is a
/// `ValueError`: the window is never shortened to fit.
pub fn window_ends<T: Copy>(positions: &Vec<T>, lag_steps: usize) -> (found: XPyResult<(T, T)>)
    ensures
        found is Ok <==> window_start(positions@.len() as int, lag_steps as int) is Some,
        found matches Ok(ends) ==> ends.0 == positions@[positions@.len() - 1 - lag_steps]
            && ends.1 == positions@[positions@.len() - 1],
        found matches Err(error) ==> error@ == ErrorModel::Value(short_path_text()),
{
    match window_indices(positions.len(), lag_steps) {
        Ok(ends) => Ok((positions[ends.0], positions[ends.1])),
        Err(error) => Err(error),
    }
}

/// A window always ends at the path's last position, and begins `lag_steps`
/// positions before it.
pub proof fn lemma_window_spans_lag(len: int, lag_steps: int)
    requires
        window_start(len, lag_steps) is Some,
    ensures
        last_position(len) is Some,
        window_start(len, lag_steps)->0 + lag_steps == last_position(len)->0,
        0 <= window_start(len, lag_steps)->0 <= last_position(len)->0 < len,
{
}

/// A window of no steps begins where it ends, on every path.
pub proof fn lemma_empty_window_is_last_position(len: int)
    ensures
        window_start(len, 0) == last_position(len),
{
}

} // verus!
