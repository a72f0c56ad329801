//! Reading the integer that every control call of the controller returns.

use vstd::prelude::*;

verus! {

/// What a control call's return code means: zero is success, and every other
/// value is a failure that carries the code unchanged.
pub open spec fn outcome_of(code: i32) -> Result<i32, i32> {
    if code == 0 {
        Ok(code)
    } else {
        Err(code)
    }
}

/// Turns the return code of a control call into a `Result`.
pub fn interpret(code: i32) -> (r: Result<i32, i32>)
    ensures
        r == outcome_of(code),
{
    if code == 0 {
        Ok(code)
    } else {
        Err(code)
    }
}

/// What a status of the manipulator means, for the five values that the
/// library documents.
#[derive(Clone, Copy, Debug, PartialEq, Eq, Structural)]
pub enum Condition {
    Moving,
    Done,
    Aborted,
    Error,
    NoStatus,
}

/// The meaning of a status value: 0 moving, 1 done, 2 aborted, 3 error,
/// 4 no status. No other value has one.
pub open spec fn condition_of(status: i32) -> Option<Condition> {
    if status == 0 {
        Some(Condition::Moving)
    } else if status == 1 {
        Some(Condition::Done)
    } else if status == 2 {
        Some(Condition::Aborted)
    } else if status == 3 {
        Some(Condition::Error)
    } else if status == 4 {
        Some(Condition::NoStatus)
    } else {
        None
    }
}

/// Looks up what a status value means. A value outside the documented range
/// is no error: it has no meaning here and is shown as the number it is.
pub fn condition(status: i32) -> (c: Option<Condition>)
    ensures
        c == condition_of(status),
        c is Some <==> 0 <= status <= 4,
{
    match status {
        0 => Some(Condition::Moving),
        1 => Some(Condition::Done),
        2 => Some(Condition::Aborted),
        3 => Some(Condition::Error),
        4 => Some(Condition::NoStatus),
        _ => None,
    }
}

/// The axis count that a report of the library stands for: the report read
/// as an unsigned machine word. A report below zero wraps around to the top
/// of the range, as the plain conversion of a signed integer does.
pub open spec fn axis_count_of(raw: i32) -> usize {
    if raw >= 0 {
        raw as usize
    } else {
        (usize::MAX + 1 + raw) as usize
    }
}

/// Turns the library's report of its axis count into a count.
pub fn axis_count(raw: i32) -> (count: usize)
    ensures
        count == axis_count_of(raw),
        raw >= 0 ==> count == raw,
        raw < 0 ==> count == usize::MAX + 1 + raw,
{
    if raw >= 0 {
        raw as usize
    } else {
        let below: i32 = -(raw + 1);
        usize::MAX - (below as usize)
    }
}

} // verus!
