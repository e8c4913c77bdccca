//! The analysis window: samples gathered between two emitted metrics.

use vstd::prelude::*;

verus! {

/// Number of samples at which a window is ready for analysis.
pub const WINDOW_THRESHOLD: usize = 1024;

/// Room reserved for a fresh window, so that ordinary polling does not reallocate.
pub const WINDOW_RESERVE: usize = 2048;

/// Whether the samples gathered so far make up a complete window.
pub open spec fn is_ready<T>(samples: Seq<T>) -> bool {
    samples.len() >= WINDOW_THRESHOLD
}

/// What one poll hands out, given the window before it and the samples it drained:
/// everything gathered, once that is a complete window, and nothing before.
pub open spec fn emitted<T>(window: Seq<T>, drained: Seq<T>) -> Option<Seq<T>> {
    if is_ready(window + drained) {
        Some(window + drained)
    } else {
        None
    }
}

/// What the window holds after one poll: nothing once a window was handed out,
/// and everything gathered so far otherwise.
pub open spec fn retained<T>(window: Seq<T>, drained: Seq<T>) -> Seq<T> {
    if is_ready(window + drained) {
        Seq::empty()
    } else {
        window + drained
    }
}

/// Staging buffer of the analysis engine.
pub struct Window<T> {
    samples: Vec<T>,
}

impl<T> View for Window<T> {
    type V = Seq<T>;

    closed spec fn view(&self) -> Seq<T> {
        self.samples@
    }
}

impl<T> Window<T> {
    /// An empty window.
    pub fn new() -> (w: Self)
        ensures
            w@ == Seq::<T>::empty(),
    {
        Window { samples: Vec::with_capacity(WINDOW_RESERVE) }
    }

    /// Number of samples gathered so far.
    pub fn len(&self) -> (n: usize)
        ensures
            n == self@.len(),
    {
        self.samples.len()
    }

    /// Whether the window is complete.
    pub fn ready(&self) -> (b: bool)
        ensures
            b == is_ready(self@),
    {
        self.samples.len() >= WINDOW_THRESHOLD
    }

    /// Appends one sample.
    pub fn push(&mut self, sample: T)
        ensures
            final(self)@ == old(self)@.push(sample),
    {
        self.samples.push(sample);
    }

    /// Hands out the gathered samples and starts over, if the window is complete;
    /// leaves the window as it is otherwise.
    pub fn take_ready(&mut self) -> (r: Option<Vec<T>>)
        ensures
            match r {
                Some(w) => is_ready(old(self)@) && w@ == old(self)@ && final(self)@
                    == Seq::<T>::empty(),
                None => !is_ready(old(self)@) && final(self)@ == old(self)@,
            },
    {
        if self.samples.len() >= WINDOW_THRESHOLD {
            let mut out: Vec<T> = Vec::with_capacity(WINDOW_RESERVE);
            core::mem::swap(&mut self.samples, &mut out);
            Some(out)
        } else {
            None
        }
    }
}

/// The samples of a run of drains, in the order in which they were drained.
pub open spec fn gathered<T>(drains: Seq<Seq<T>>) -> Seq<T>
    decreases drains.len(),
{
    if drains.len() == 0 {
        Seq::empty()
    } else {
        gathered(drains.drop_last()) + drains.last()
    }
}

/// What the window holds after a run of polls that started from `start`,
/// the k-th of them draining `drains[k]`.
pub open spec fn window_after<T>(start: Seq<T>, drains: Seq<Seq<T>>) -> Seq<T>
    decreases drains.len(),
{
    if drains.len() == 0 {
        start
    } else {
        retained(window_after(start, drains.drop_last()), drains.last())
    }
}

/// What the last poll of such a run hands out.
pub open spec fn last_emitted<T>(start: Seq<T>, drains: Seq<Seq<T>>) -> Option<Seq<T>>
    recommends
        drains.len() > 0,
{
    emitted(window_after(start, drains.drop_last()), drains.last())
}

/// Threshold gating, below the threshold: as long as fewer samples than the
/// threshold have been gathered, no poll hands anything out and the window
/// keeps every sample, in order.
pub proof fn lemma_nothing_below_threshold<T>(start: Seq<T>, drains: Seq<Seq<T>>)
    requires
        !is_ready(start + gathered(drains)),
    ensures
        window_after(start, drains) == start + gathered(drains),
        forall|k: int| 0 < k <= drains.len() ==> #[trigger] last_emitted(start, drains.take(k)) is None,
    decreases drains.len(),
{
    if drains.len() > 0 {
        let front = drains.drop_last();
        lemma_nothing_below_threshold(start, front);
        assert forall|k: int| 0 < k <= drains.len() implies #[trigger] last_emitted(
            start,
            drains.take(k),
        ) is None by {
            if k < drains.len() {
                assert(drains.take(k) =~= front.take(k));
            } else {
                assert(drains.take(k) =~= drains);
            }
        }
    }
}

/// Threshold gating, at the threshold: the poll whose samples complete the
/// window hands out everything gathered since the start, leaves the window
/// empty, and a poll that finds nothing new right after it hands out nothing.
pub proof fn lemma_one_window_at_threshold<T>(start: Seq<T>, drains: Seq<Seq<T>>, last: Seq<T>)
    requires
        !is_ready(start + gathered(drains)),
        is_ready(start + gathered(drains) + last),
    ensures
        last_emitted(start, drains.push(last)) == Some(start + gathered(drains) + last),
        window_after(start, drains.push(last)) == Seq::<T>::empty(),
        last_emitted(start, drains.push(last).push(Seq::empty())) is None,
{
    lemma_nothing_below_threshold(start, drains);
    let run = drains.push(last);
    assert(run.drop_last() =~= drains);
}

/// No leakage between windows: once a window was handed out, what the polls
/// after it hold and hand out is what they would on a fresh engine, whatever
/// was gathered before.
pub proof fn lemma_window_starts_afresh<T>(window: Seq<T>, drained: Seq<T>, later: Seq<Seq<T>>)
    requires
        emitted(window, drained) is Some,
    ensures
        window_after(retained(window, drained), later) == window_after(Seq::empty(), later),
        later.len() > 0 ==> last_emitted(retained(window, drained), later) == last_emitted(
            Seq::empty(),
            later,
        ),
{
}

/// No leakage between windows: the window that follows one that was handed
/// out is made of the samples drained after it and of nothing else.
pub proof fn lemma_next_window_is_new_samples<T>(
    window: Seq<T>,
    drained: Seq<T>,
    later: Seq<Seq<T>>,
    last: Seq<T>,
)
    requires
        emitted(window, drained) is Some,
        !is_ready(gathered(later)),
        is_ready(gathered(later) + last),
    ensures
        last_emitted(retained(window, drained), later.push(last)) == Some(gathered(later) + last),
{
    lemma_one_window_at_threshold(Seq::<T>::empty(), later, last);
}

} // verus!
