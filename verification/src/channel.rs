//! Trusted boundary to the channels that carry completions and events.
//!
//! The native driver thread pushes into these channels concurrently with the
//! application's own thread, so what a non-blocking receive or send returns
//! depends on cross-thread state the library cannot observe. The wrappers
//! therefore promise nothing of their results; every guarantee the library
//! makes is proved from its own bookkeeping over whatever these calls return.

use vstd::prelude::*;

use crate::callbacks::Completion;
use crate::event::Event;

verus! {

#[verifier::external_type_specification]
#[verifier::external_body]
#[verifier::reject_recursive_types(T)]
pub struct ExSender<T>(crossbeam_channel::Sender<T>);

#[verifier::external_type_specification]
#[verifier::external_body]
#[verifier::reject_recursive_types(T)]
pub struct ExReceiver<T>(crossbeam_channel::Receiver<T>);

/// Relies on `crossbeam_channel::bounded` with capacity 1: a fresh
/// single-slot channel pair backing one pending callback entry, so that at
/// most one completion can ever sit in it.
#[verifier::external_body]
pub(crate) fn new_completion_channel() -> (r: (
    crossbeam_channel::Sender<Completion>,
    crossbeam_channel::Receiver<Completion>,
))
{
    crossbeam_channel::bounded(1)
}

/// Relies on `crossbeam_channel::unbounded`: a fresh channel pair for one
/// event category, on which a send never blocks for want of capacity.
#[verifier::external_body]
pub(crate) fn new_event_channel() -> (r: (
    crossbeam_channel::Sender<Event>,
    crossbeam_channel::Receiver<Event>,
))
{
    crossbeam_channel::unbounded()
}

/// Relies on `crossbeam_channel::Sender::try_send`: non-blocking; the message
/// is dropped when the channel is full or its receiver is gone, which only
/// the receiving side determines, so nothing is promised of the outcome.
#[verifier::external_body]
pub(crate) fn try_send_completion(s: &crossbeam_channel::Sender<Completion>, c: Completion) {
    let _ = s.try_send(c);
}

/// Relies on `crossbeam_channel::Receiver::try_recv`: non-blocking; returns a
/// message if one is currently buffered. Whether one is depends on what the
/// driver thread has sent so far, so nothing is promised of the outcome.
#[verifier::external_body]
pub(crate) fn try_recv_completion(r: &crossbeam_channel::Receiver<Completion>) -> (c: Option<
    Completion,
>)
{
    r.try_recv().ok()
}

/// Relies on `crossbeam_channel::Sender::try_send`: non-blocking event
/// delivery; an unbounded channel refuses a message only when its receiver is
/// gone, and such a message is dropped.
#[verifier::external_body]
pub(crate) fn try_send_event(s: &crossbeam_channel::Sender<Event>, ev: Event) {
    let _ = s.try_send(ev);
}

/// Relies on `crossbeam_channel::Receiver::try_recv`: non-blocking; returns a
/// buffered event if one is present. Whether one is depends on what has been
/// sent so far, so nothing is promised of the outcome.
#[verifier::external_body]
pub(crate) fn try_recv_event(r: &crossbeam_channel::Receiver<Event>) -> (ev: Option<Event>) {
    r.try_recv().ok()
}

/// Relies on `crossbeam_channel::Receiver::len`: the number of events
/// buffered at the moment of the call; the driver thread may change it right
/// afterwards, so nothing is promised of the result.
#[verifier::external_body]
pub(crate) fn event_queue_len(r: &crossbeam_channel::Receiver<Event>) -> (n: usize) {
    r.len()
}

} // verus!
