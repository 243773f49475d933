//! What holds of every history, however it was built.

use vstd::prelude::*;

use crate::model::{after_appends, current_of, with_current};

verus! {

/// Appending values one at a time puts them, in order, after what was there.
pub proof fn lemma_appends_concatenate<T>(start: Seq<T>, values: Seq<T>)
    ensures
        after_appends(start, values) == start + values,
    decreases values.len(),
{
    if values.len() > 0 {
        lemma_appends_concatenate(start, values.drop_last());
        assert(start + values == (start + values.drop_last()).push(values.last()));
    }
}

/// After each append of a run, the current value is exactly the value that
/// was just appended.
pub proof fn lemma_current_follows_each_append<T>(start: Seq<T>, values: Seq<T>, i: int)
    requires
        0 <= i < values.len(),
    ensures
        current_of(after_appends(start, values.take(i + 1))) == Some(values[i]),
{
    lemma_appends_concatenate(start, values.take(i + 1));
}

/// Appends never remove or change an entry: whatever was in the history
/// before a run of appends is found afterwards at the same position, and
/// the history has grown by the number of values appended.
pub proof fn lemma_appends_keep_earlier_entries<T>(start: Seq<T>, values: Seq<T>)
    ensures
        after_appends(start, values).len() == start.len() + values.len(),
        after_appends(start, values).take(start.len() as int) == start,
        forall|i: int| 0 <= i < start.len() ==> after_appends(start, values)[i] == start[i],
{
    lemma_appends_concatenate(start, values);
}

/// A value that was current before an append is still in the history after
/// it, unchanged, just below the new current value.
pub proof fn lemma_former_current_survives_append<T>(history: Seq<T>, value: T)
    requires
        history.len() > 0,
    ensures
        current_of(history) == Some(history.push(value)[history.len() - 1]),
        current_of(history.push(value)) == Some(value),
{
}

/// A history that has a current value has one after any run of appends: it
/// never becomes empty again.
pub proof fn lemma_populated_stays_populated<T>(start: Seq<T>, values: Seq<T>)
    requires
        current_of(start).is_some(),
    ensures
        current_of(after_appends(start, values)).is_some(),
{
    lemma_appends_concatenate(start, values);
}

/// An empty history gets a current value with the first append.
pub proof fn lemma_first_append_populates<T>(values: Seq<T>)
    ensures
        current_of(after_appends(Seq::<T>::empty(), values)).is_some() <==> values.len() > 0,
{
    lemma_appends_concatenate(Seq::<T>::empty(), values);
}

/// Overwriting the current value happens in place: the new value is current,
/// the history keeps its length, and every other entry is untouched.
pub proof fn lemma_overwrite_is_in_place<T>(history: Seq<T>, value: T)
    requires
        history.len() > 0,
    ensures
        current_of(with_current(history, value)) == Some(value),
        with_current(history, value).len() == history.len(),
        with_current(history, value).drop_last() == history.drop_last(),
{
}

/// Two reads of the same history give the same value: without an append or
/// an overwrite in between, the current value does not change.
pub proof fn lemma_reads_agree<T>(history: Seq<T>, first: Option<T>, second: Option<T>)
    requires
        first == current_of(history),
        second == current_of(history),
    ensures
        first == second,
{
}

} // verus!
