//! The events of the transport, first in, first out, and how a waiting
//! client reads them.
//!
//! The buffer is for a transport that reports each event to its listener: the
//! listener puts the event in, and the client waits by `wait_step`, one look
//! at the clock and the buffer at a time. A transport that waits for a whole
//! message itself needs neither.

use crate::error::TransportError;
use std::collections::VecDeque;
use vstd::prelude::*;

verus! {

/// What the transport reports while a message is on its way in.
#[derive(Clone, Debug, PartialEq, Eq)]
pub enum IsoTpEvent {
    /// The peer asked for more time.
    Wait,
    /// The first frame of a segmented message arrived.
    FirstFrameReceived,
    /// A whole message arrived.
    DataReceived(Vec<u8>),
    ErrorOccurred(TransportError),
}

/// The events that were reported and not yet read, oldest first.
#[derive(Debug)]
pub struct IsoTpBuffer {
    inner: VecDeque<IsoTpEvent>,
}

impl View for IsoTpBuffer {
    type V = Seq<IsoTpEvent>;

    closed spec fn view(&self) -> Seq<IsoTpEvent> {
        self.inner@
    }
}

impl Default for IsoTpBuffer {
    fn default() -> (b: IsoTpBuffer)
        ensures
            b@ == Seq::<IsoTpEvent>::empty(),
    {
        IsoTpBuffer { inner: VecDeque::new() }
    }
}

impl IsoTpBuffer {
    /// Forgets every event, so that a new exchange starts clean.
    pub fn clear(&mut self)
        ensures
            final(self)@ == Seq::<IsoTpEvent>::empty(),
    {
        self.inner.clear();
    }

    /// Adds an event behind those that wait.
    pub fn set(&mut self, event: IsoTpEvent)
        ensures
            final(self)@ == old(self)@.push(event),
    {
        self.inner.push_back(event);
    }

    /// Takes the oldest event, if any.
    pub fn get(&mut self) -> (event: Option<IsoTpEvent>)
        ensures
            old(self)@.len() == 0 ==> event is None && final(self)@ == old(self)@,
            old(self)@.len() > 0 ==> event == Some(old(self)@[0]) && final(self)@ == old(
                self,
            )@.skip(1),
    {
        let event = self.inner.pop_front();
        proof {
            if old(self)@.len() > 0 {
                assert(self.inner@ == old(self)@.skip(1));
            }
        }
        event
    }

    pub fn len(&self) -> (n: usize)
        ensures
            n == self@.len(),
    {
        self.inner.len()
    }
}

/// What a waiting client does after one look at the clock and the buffer.
#[derive(Debug, PartialEq, Eq)]
pub enum WaitStep {
    /// The message is here.
    Deliver(Vec<u8>),
    /// The wait is over without a message.
    Fail(TransportError),
    /// Keep waiting; the time is counted from `start`.
    Continue { start: u64 },
}

/// The time that has passed since `start`, in milliseconds; none where the
/// clock reads less than `start`.
pub open spec fn elapsed(start: u64, now: u64) -> int {
    if now >= start {
        now - start
    } else {
        0
    }
}

/// Whether `step`, with the buffer left as `after`, is what one look at the
/// clock and the buffer `before` leads to. Time that has run out ends the
/// wait and empties the buffer; a sign of progress starts the time anew; a
/// message ends the wait; an error ends it and empties the buffer.
pub open spec fn wait_decision(
    before: Seq<IsoTpEvent>,
    after: Seq<IsoTpEvent>,
    start: u64,
    now: u64,
    timeout_ms: u64,
    step: WaitStep,
) -> bool {
    if elapsed(start, now) > timeout_ms {
        &&& step matches WaitStep::Fail(TransportError::Timeout { value, unit })
        &&& value == timeout_ms
        &&& unit@ == "ms"@
        &&& after == Seq::<IsoTpEvent>::empty()
    } else if before.len() == 0 {
        step == (WaitStep::Continue { start }) && after == before
    } else {
        match before[0] {
            IsoTpEvent::Wait => step == (WaitStep::Continue { start: now }) && after
                == before.skip(1),
            IsoTpEvent::FirstFrameReceived => step == (WaitStep::Continue { start: now })
                && after == before.skip(1),
            IsoTpEvent::DataReceived(data) => step == WaitStep::Deliver(data) && after
                == before.skip(1),
            IsoTpEvent::ErrorOccurred(e) => step == WaitStep::Fail(e) && after == Seq::<
                IsoTpEvent,
            >::empty(),
        }
    }
}

/// One look of a waiting client at the clock and the buffer.
pub fn wait_step(buffer: &mut IsoTpBuffer, start: u64, now: u64, timeout_ms: u64) -> (step:
    WaitStep)
    ensures
        wait_decision(old(buffer)@, final(buffer)@, start, now, timeout_ms, step),
{
    if now >= start && now - start > timeout_ms {
        buffer.clear();
        return WaitStep::Fail(TransportError::Timeout { value: timeout_ms, unit: "ms".to_owned() });
    }
    match buffer.get() {
        None => WaitStep::Continue { start },
        Some(IsoTpEvent::Wait) => WaitStep::Continue { start: now },
        Some(IsoTpEvent::FirstFrameReceived) => WaitStep::Continue { start: now },
        Some(IsoTpEvent::DataReceived(data)) => WaitStep::Deliver(data),
        Some(IsoTpEvent::ErrorOccurred(e)) => {
            buffer.clear();
            WaitStep::Fail(e)
        },
    }
}

} // verus!
