//! Assembling a capture session.

use vstd::prelude::*;
use crate::buffer::{transfer_buffer, Producer, TRANSFER_CAPACITY};
use crate::engine::AnalysisEngine;

verus! {

/// Assembles the two sides of a session for samples carried as `T`: the
/// producer to bind to the device's input stream, and the engine to poll.
/// The engine owns the reading half of a fresh transfer buffer and has
/// gathered nothing yet.
pub fn init<T>() -> (session: (Producer<T, TRANSFER_CAPACITY>, AnalysisEngine<T>))
    ensures
        session.1.window() == Seq::<T>::empty(),
{
    let (producer, consumer) = transfer_buffer();
    (producer, AnalysisEngine::new(consumer))
}

} // verus!
