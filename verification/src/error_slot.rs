//! The one place where the application shows what last went wrong.

use vstd::prelude::*;

verus! {

/// The most recent error, until the user dismisses it.
///
/// Failures of the pipeline and failures of mutation actions all end here. A
/// later error replaces an earlier one; a success leaves the slot as it is.
#[derive(Debug, Clone)]
pub struct ErrorSlot<E> {
    last_error: Option<E>,
}

impl<E> ErrorSlot<E> {
    /// What the slot shows.
    pub closed spec fn shown(&self) -> Option<E> {
        self.last_error
    }

    /// An empty slot.
    pub fn new() -> (slot: Self)
        ensures
            slot.shown() is None,
    {
        ErrorSlot { last_error: None }
    }

    /// The error on display, if there is one.
    pub fn last_error(&self) -> (shown: Option<&E>)
        ensures
            match shown {
                Some(err) => self.shown() == Some(*err),
                None => self.shown() is None,
            },
    {
        self.last_error.as_ref()
    }

    /// Puts `err` on display.
    pub fn handle_error(&mut self, err: E)
        ensures
            final(self).shown() == Some(err),
    {
        self.last_error = Some(err);
    }

    /// Takes in the result of an operation: a failure goes on display, a
    /// success changes nothing. Either way the caller goes on with the rest
    /// of the frame.
    pub fn handle_result<T>(&mut self, result: Result<T, E>)
        ensures
            final(self).shown() == (match result {
                Ok(_) => old(self).shown(),
                Err(err) => Some(err),
            }),
    {
        match result {
            Ok(_) => {},
            Err(err) => {
                self.last_error = Some(err);
            },
        }
    }

    /// Clears the slot, as the user asked.
    pub fn dismiss(&mut self)
        ensures
            final(self).shown() is None,
    {
        self.last_error = None;
    }
}

} // verus!
