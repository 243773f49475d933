//! The mathematical model of a history: a sequence of values, oldest first.

use vstd::prelude::*;

verus! {

/// The value a history exposes: its newest entry, or nothing while it is empty.
pub open spec fn current_of<T>(history: Seq<T>) -> Option<T> {
    if history.len() == 0 {
        None
    } else {
        Some(history.last())
    }
}

/// The history that results from appending `values` to `start` one at a time,
/// first to last.
pub open spec fn after_appends<T>(start: Seq<T>, values: Seq<T>) -> Seq<T>
    decreases values.len(),
{
    if values.len() == 0 {
        start
    } else {
        after_appends(start, values.drop_last()).push(values.last())
    }
}

/// The history that results from overwriting the current value of a non-empty
/// `history` with `value`.
pub open spec fn with_current<T>(history: Seq<T>, value: T) -> Seq<T>
    recommends
        history.len() > 0,
{
    history.update(history.len() - 1, value)
}

} // verus!
