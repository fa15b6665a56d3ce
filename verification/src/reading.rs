//! Decisions of the reading loops: where to start, and what to do with each message.

use vstd::prelude::*;

use crate::error::AppError;

verus! {

/// How many messages a reading loop handles before it stops, and how many a producer sends.
pub const MESSAGE_LIMIT: u64 = 100_000;

/// Progress is reported every this many messages.
pub const REPORT_INTERVAL: u64 = 10_000;

/// Where a stream consumer starts reading.
#[derive(PartialEq, Eq, Structural, Clone, Copy, Debug)]
pub enum StartOffset {
    /// From the first message of the stream.
    First,
    /// From the message at this offset.
    Offset(u64),
}

/// The start position for a consumer, given what reading the stored offset gave:
/// the stored offset when one was read, the start of the stream otherwise
/// (nothing stored, or the read failed).
pub fn start_offset(read: &Result<Option<u64>, AppError>) -> (r: StartOffset)
    ensures
        read matches Ok(Some(offset)) ==> r == StartOffset::Offset(*offset),
        !(read matches Ok(Some(_))) ==> r == StartOffset::First,
{
    match read {
        Ok(Some(offset)) => StartOffset::Offset(*offset),
        _ => StartOffset::First,
    }
}

/// What to do with one message of the stream.
#[derive(PartialEq, Eq, Structural, Clone, Copy, Debug)]
pub struct MessageStep {
    /// Pass the message's text on (and, when tracking, persist its offset).
    pub forward: bool,
    /// Report progress.
    pub report: bool,
    /// Stop reading after this message.
    pub stop: bool,
}

/// The number of messages with a body handled so far by a reading loop.
pub struct ReadProgress {
    counter: u64,
}

impl ReadProgress {
    pub closed spec fn count(&self) -> nat {
        self.counter as nat
    }

    /// No message handled yet.
    pub fn new() -> (r: Self)
        ensures
            r.count() == 0,
    {
        ReadProgress { counter: 0 }
    }

    /// The number of messages with a body handled so far.
    pub fn counted(&self) -> (r: u64)
        ensures
            r == self.count(),
    {
        self.counter
    }

    /// Handles one message, which may or may not carry a body. A message with a body
    /// is counted and forwarded; progress is reported when the count reaches a multiple
    /// of `REPORT_INTERVAL`; the loop stops once `MESSAGE_LIMIT` messages have been counted.
    pub fn on_message(&mut self, has_body: bool) -> (step: MessageStep)
        requires
            old(self).count() < MESSAGE_LIMIT,
        ensures
            final(self).count() == old(self).count() + if has_body {
                1nat
            } else {
                0nat
            },
            final(self).count() <= MESSAGE_LIMIT,
            step.forward == has_body,
            step.report == (has_body && final(self).count() % (REPORT_INTERVAL as nat) == 0),
            step.stop == (final(self).count() >= MESSAGE_LIMIT),
    {
        if has_body {
            self.counter = self.counter + 1;
        }
        MessageStep {
            forward: has_body,
            report: has_body && self.counter % REPORT_INTERVAL == 0,
            stop: self.counter >= MESSAGE_LIMIT,
        }
    }
}

/// Whether a producer reports progress after sending message `i` (counting from zero).
pub fn production_report_due(i: u64) -> (r: bool)
    ensures
        r == (i % REPORT_INTERVAL == 0),
{
    i % REPORT_INTERVAL == 0
}

} // verus!
