//! The container: an ordered history of individually boxed values and the
//! position of the newest one.

use core::fmt::Write;
use vstd::prelude::*;

use crate::model::{current_of, with_current};
use crate::render::{entry_texts, render_entries, rendering};

verus! {

/// Holds every value ever appended, oldest first, and exposes the newest.
///
/// Each value lives in its own heap allocation, so growing the history never
/// moves a value that is already stored.
pub struct HistoryBox<T> {
    current: Option<usize>,
    history: Vec<Box<T>>,
}

impl<T> View for HistoryBox<T> {
    type V = Seq<T>;

    /// Every value appended so far, oldest first.
    closed spec fn view(&self) -> Seq<T> {
        self.history@.map_values(|b: Box<T>| *b)
    }
}

impl<T> HistoryBox<T> {
    /// `current` is absent exactly while the history is empty, and otherwise
    /// is the position of the last entry.
    #[verifier::type_invariant]
    spec fn well_formed(self) -> bool {
        match self.current {
            None => self.history@.len() == 0,
            Some(i) => self.history@.len() > 0 && i == self.history@.len() - 1,
        }
    }

    /// An empty container: no history and no current value.
    pub fn new() -> (s: Self)
        ensures
            s@ == Seq::<T>::empty(),
            current_of(s@).is_none(),
    {
        Self { current: None, history: Vec::new() }
    }

    /// A container whose history is `value` alone, which is also current.
    pub fn new_with(value: T) -> (s: Self)
        ensures
            s@ == Seq::<T>::empty().push(value),
            current_of(s@) == Some(value),
    {
        let mut s = Self::new();
        s.set(value);
        s
    }

    /// Appends `value` to the end of the history and makes it the current
    /// value. Every earlier entry stays where it was, unchanged.
    pub fn set(&mut self, value: T)
        ensures
            final(self)@ == old(self)@.push(value),
            current_of(final(self)@) == Some(value),
    {
        // The invariant has to hold whenever the container is whole, so the
        // fields are moved out, changed, and put back together.
        let mut taken = Self::new();
        std::mem::swap(self, &mut taken);
        proof {
            use_type_invariant(&taken);
        }
        let HistoryBox { current: _, mut history } = taken;
        history.push(Box::new(value));
        let newest: usize = history.len() - 1;
        *self = HistoryBox { current: Some(newest), history };
    }

    /// Exclusive access to the current value, for changing it in place, or
    /// `None` while nothing has been appended.
    ///
    /// Whatever the caller writes through the reference replaces the newest
    /// entry; the history keeps its length and all its other entries.
    pub fn get_mut(&mut self) -> (r: Option<&mut T>)
        ensures
            match r {
                Some(v) => {
                    &&& current_of(old(self)@) == Some(*v)
                    &&& final(self)@ == with_current(old(self)@, *final(v))
                },
                None => current_of(old(self)@).is_none() && final(self)@ == old(self)@,
            },
    {
        proof {
            use_type_invariant(&*self);
        }
        match self.current {
            None => None,
            Some(i) => Some(&mut *self.history[i]),
        }
    }

    /// The current value: the newest entry, or `None` while nothing has been
    /// appended.
    pub fn get(&self) -> (r: Option<&T>)
        ensures
            match r {
                Some(v) => current_of(self@) == Some(*v),
                None => current_of(self@).is_none(),
            },
    {
        proof {
            use_type_invariant(self);
        }
        match self.current {
            None => None,
            Some(i) => Some(&*self.history[i]),
        }
    }
}

impl<T: core::fmt::Debug> HistoryBox<T> {
    /// The diagnostic text: the current value, then the whole history, oldest
    /// first, or `None` when the `Debug` formatting of an entry reported an
    /// error.
    ///
    /// Each entry reads as its own `Debug` formatting gives it, about which
    /// nothing is known here: the text is the rendering of some list of entry
    /// texts, one per entry. An empty container has no entry to format, so it
    /// always has a text.
    pub fn render(&self) -> (r: Option<String>)
        ensures
            self@.len() == 0 ==> r.is_some(),
            match r {
                Some(text) => exists|texts: Seq<Seq<char>>|
                    texts.len() == self@.len() && text@ == #[trigger] rendering(texts),
                None => self@.len() > 0,
            },
    {
        let mut entries: Vec<String> = Vec::new();
        let mut i: usize = 0;
        while i < self.history.len()
            invariant
                i <= self.history.len(),
                entries.len() == i,
            decreases self.history.len() - i,
        {
            match debug_text(&*self.history[i]) {
                Some(entry) => entries.push(entry),
                None => return None,
            }
            i += 1;
        }
        let text = render_entries(&entries);
        assert(entry_texts(entries@).len() == self@.len());
        Some(text)
    }
}

impl<T> Default for HistoryBox<T> {
    /// The empty container.
    fn default() -> (s: Self)
        ensures
            s@ == Seq::<T>::empty(),
    {
        Self::new()
    }
}

/// `write!(out, "{:?}", value)` into a fresh `String`: the text that `T`'s
/// own `Debug` formatting writes for one value, or `None` when that formatting
/// returned an error. The formatting is the element type's code, so nothing is
/// claimed of the text nor of when it fails.
#[verifier::external_body]
fn debug_text<T: core::fmt::Debug>(value: &T) -> (text: Option<String>) {
    let mut out = String::new();
    match write!(out, "{:?}", value) {
        Ok(()) => Some(out),
        Err(_) => None,
    }
}

} // verus!
