//! The analysis engine: drains the transfer buffer into the window and hands
//! the window out once it is complete.

use vstd::prelude::*;
use crate::buffer::{try_pop, Consumer, TRANSFER_CAPACITY};
use crate::window::{emitted, retained, Window};

verus! {

/// Whether `after` and `result` are what a poll leaves behind and hands out
/// when it starts from the window `before` and drains some run of samples.
pub open spec fn poll_outcome<T>(before: Seq<T>, after: Seq<T>, result: Option<Seq<T>>) -> bool {
    exists|drained: Seq<T>|
        after == #[trigger] retained(before, drained) && result == emitted(before, drained)
}

/// The consumer side of a capture session.
#[verifier::reject_recursive_types(T)]
pub struct AnalysisEngine<T> {
    source: Consumer<T, TRANSFER_CAPACITY>,
    window: Window<T>,
}

impl<T> AnalysisEngine<T> {
    /// The samples gathered since the last window was handed out.
    pub closed spec fn window(&self) -> Seq<T> {
        self.window@
    }

    /// An engine that reads from `source` and has gathered nothing yet.
    pub fn new(source: Consumer<T, TRANSFER_CAPACITY>) -> (engine: Self)
        ensures
            engine.window() == Seq::<T>::empty(),
    {
        AnalysisEngine { source, window: Window::new() }
    }

    /// Number of samples gathered since the last window was handed out.
    pub fn pending(&self) -> (n: usize)
        ensures
            n == self.window().len(),
    {
        self.window.len()
    }

    /// Moves whatever the transfer buffer holds into the window, one sample
    /// at a time until the buffer reports that it is empty, then hands the
    /// window out if it is complete. A window handed out holds every sample
    /// gathered since the last one, however many polls ago that was.
    pub fn poll(&mut self) -> (r: Option<Vec<T>>)
        ensures
            poll_outcome(
                old(self).window(),
                final(self).window(),
                match r {
                    Some(w) => Some(w@),
                    None => None,
                },
            ),
    {
        let ghost before = self.window@;
        let ghost mut drained = Seq::<T>::empty();
        while self.window.len() < usize::MAX
            invariant
                self.window@ == before + drained,
            decreases usize::MAX - self.window@.len(),
        {
            match try_pop(&mut self.source) {
                Some(sample) => {
                    self.window.push(sample);
                    proof {
                        drained = drained.push(sample);
                    }
                },
                None => {
                    break ;
                },
            }
        }
        let r = self.window.take_ready();
        assert(self.window@ == retained(before, drained));
        r
    }
}

} // verus!
