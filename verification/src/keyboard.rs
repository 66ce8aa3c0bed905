//! Interrupt-fed scancode pipeline: a bounded byte queue plus a single-slot
//! wake registry, consumed through a pollable stream.
//!
//! The interrupt handler calls [`add_scancode`](InputChannel::add_scancode)
//! with one raw byte; it never blocks.  The consumer task polls through
//! [`ScancodeStream`], handing in its own task id as the "resume me"
//! capability.  The poll checks the queue before registering the waiter, and
//! checks it once more after registering: a byte queued between those two
//! steps is therefore observed by the same poll instead of depending on a wake
//! signal that had no one to hit ([`lemma_no_lost_wakeup`]).

use vstd::prelude::*;

use crate::executor::TaskId;
use crate::queue::EventQueue;

verus! {

/// Bytes the backing queue holds at most, chosen when the stream is created.
pub const SCANCODE_QUEUE_CAPACITY: usize = 100;

/// What one interrupt-side byte delivery did.
#[derive(PartialEq, Eq, Structural, Clone, Copy, Debug)]
pub enum AddOutcome {
    /// The byte was queued; if a waiter was registered it has been taken out
    /// and must now be woken.
    Queued { wake: Option<TaskId> },
    /// The queue was full: the byte was dropped, everything already queued is
    /// intact.  Reported as a warning by the caller, never escalated.
    Dropped,
    /// The queue was never initialized: a logic error, reported as a warning
    /// and treated as a no-op.
    Uninitialized,
}

/// Result of polling the stream.
#[derive(PartialEq, Eq, Structural, Clone, Copy, Debug)]
pub enum PollByte {
    /// The oldest queued byte.
    Ready(u8),
    /// Nothing queued; the poller's id is registered and a later
    /// [`AddOutcome::Queued`] wake will resume it.
    Pending,
}

/// What one delivery does to an initialized channel, over its queued bytes and
/// waiter slot: queue the byte and take the waiter out for waking, or drop the
/// byte when full, touching nothing.
pub open spec fn add_model(bytes: Seq<u8>, cap: nat, waiter: Option<TaskId>, code: u8) -> (
    Seq<u8>,
    Option<TaskId>,
    AddOutcome,
) {
    if bytes.len() < cap {
        (bytes.push(code), None, AddOutcome::Queued { wake: waiter })
    } else {
        (bytes, waiter, AddOutcome::Dropped)
    }
}

/// What the second poll step does: register the waiter, then look again; a
/// byte found by the re-check is returned at once and the registration is
/// cleared, since it is no longer needed.
pub open spec fn register_recheck_model(bytes: Seq<u8>, me: TaskId) -> (
    Seq<u8>,
    Option<TaskId>,
    PollByte,
) {
    if bytes.len() == 0 {
        (bytes, Some(me), PollByte::Pending)
    } else {
        (bytes.skip(1), None, PollByte::Ready(bytes[0]))
    }
}

/// The state shared between the interrupt handler and the consumer task: the
/// scancode queue (absent until the stream is created, exactly once) and the
/// single waiter slot.
pub struct InputChannel {
    scancodes: Option<EventQueue>,
    waiter: Option<TaskId>,
}

impl InputChannel {
    /// Queue present: the stream has been created.
    pub closed spec fn is_initialized(&self) -> bool {
        self.scancodes is Some
    }

    /// The queued bytes, oldest first (empty while uninitialized).
    pub closed spec fn bytes(&self) -> Seq<u8> {
        match self.scancodes {
            Some(q) => q@,
            None => Seq::empty(),
        }
    }

    pub closed spec fn cap(&self) -> nat {
        match self.scancodes {
            Some(q) => q.cap(),
            None => 0,
        }
    }

    /// The registered waiter, if any.
    pub closed spec fn waiting(&self) -> Option<TaskId> {
        self.waiter
    }

    pub closed spec fn wf(&self) -> bool {
        match self.scancodes {
            Some(q) => q.wf(),
            None => true,
        }
    }

    /// The channel as it stands at boot: no queue yet, no waiter.
    pub fn new() -> (c: InputChannel)
        ensures
            c.wf(),
            !c.is_initialized(),
            c.waiting() is None,
    {
        InputChannel { scancodes: None, waiter: None }
    }

    pub fn initialized(&self) -> (r: bool)
        ensures
            r == self.is_initialized(),
    {
        self.scancodes.is_some()
    }

    /// Interrupt-side entry point: deliver one raw scancode.  Never blocks;
    /// on success the previously registered waiter (if any) is returned so the
    /// caller can wake it.  Delivery to an uninitialized channel is a no-op
    /// reported as [`AddOutcome::Uninitialized`].
    pub fn add_scancode(&mut self, code: u8) -> (out: AddOutcome)
        requires
            old(self).wf(),
        ensures
            final(self).wf(),
            final(self).is_initialized() == old(self).is_initialized(),
            final(self).cap() == old(self).cap(),
            !old(self).is_initialized() ==> out == AddOutcome::Uninitialized && final(self).bytes()
                == old(self).bytes() && final(self).waiting() == old(self).waiting(),
            old(self).is_initialized() ==> {
                let m = add_model(old(self).bytes(), old(self).cap(), old(self).waiting(), code);
                final(self).bytes() == m.0 && final(self).waiting() == m.1 && out == m.2
            },
    {
        match &mut self.scancodes {
            None => AddOutcome::Uninitialized,
            Some(q) => {
                if q.try_push(code) {
                    let wake = self.waiter;
                    self.waiter = None;
                    AddOutcome::Queued { wake }
                } else {
                    AddOutcome::Dropped
                }
            },
        }
    }
}

/// Single-consumer pollable stream over the scancode queue.  Creating it
/// initializes the channel's queue, which may happen only once.
pub struct ScancodeStream {
    _private: (),
}

impl ScancodeStream {
    /// Creates the stream and its backing queue.  Calling this twice on one
    /// channel is a broken singleton assumption and is ruled out outright; a
    /// caller that cannot rule it out uses [`ScancodeStream::try_new`].
    pub fn new(channel: &mut InputChannel) -> (s: ScancodeStream)
        requires
            old(channel).wf(),
            !old(channel).is_initialized(),
        ensures
            final(channel).wf(),
            final(channel).is_initialized(),
            final(channel).bytes() == Seq::<u8>::empty(),
            final(channel).cap() == SCANCODE_QUEUE_CAPACITY as nat,
            final(channel).waiting() == old(channel).waiting(),
    {
        channel.scancodes = Some(EventQueue::with_capacity(SCANCODE_QUEUE_CAPACITY));
        ScancodeStream { _private: () }
    }

    /// Initialize-once with explicit failure on reuse: `None`, and a channel
    /// left untouched, when the queue already exists.
    pub fn try_new(channel: &mut InputChannel) -> (s: Option<ScancodeStream>)
        requires
            old(channel).wf(),
        ensures
            final(channel).wf(),
            old(channel).is_initialized() ==> s is None && *final(channel) == *old(channel),
            !old(channel).is_initialized() ==> s is Some && final(channel).is_initialized()
                && final(channel).bytes() == Seq::<u8>::empty() && final(channel).cap()
                == SCANCODE_QUEUE_CAPACITY as nat && final(channel).waiting() == old(channel).waiting(),
    {
        if channel.initialized() {
            None
        } else {
            Some(ScancodeStream::new(channel))
        }
    }

    /// First poll step: look for a byte before registering anything, so that a
    /// non-empty queue costs no registration churn.
    pub fn poll_check(&self, channel: &mut InputChannel) -> (r: Option<u8>)
        requires
            old(channel).wf(),
            old(channel).is_initialized(),
        ensures
            final(channel).wf(),
            final(channel).is_initialized(),
            final(channel).cap() == old(channel).cap(),
            final(channel).waiting() == old(channel).waiting(),
            old(channel).bytes().len() == 0 ==> r is None && final(channel).bytes() == old(channel).bytes(),
            old(channel).bytes().len() > 0 ==> r == Some(old(channel).bytes()[0]) && final(channel).bytes() == old(channel).bytes().skip(1),
    {
        match &mut channel.scancodes {
            Some(q) => q.try_pop(),
            None => None,
        }
    }

    /// Second poll step, run only after a failed first check: register the
    /// poller, then re-check the queue once more before reporting `Pending`.
    pub fn poll_register_recheck(&self, channel: &mut InputChannel, me: TaskId) -> (r: PollByte)
        requires
            old(channel).wf(),
            old(channel).is_initialized(),
        ensures
            final(channel).wf(),
            final(channel).is_initialized(),
            final(channel).cap() == old(channel).cap(),
            ({
                let m = register_recheck_model(old(channel).bytes(), me);
                final(channel).bytes() == m.0 && final(channel).waiting() == m.1 && r == m.2
            }),
    {
        channel.waiter = Some(me);
        match &mut channel.scancodes {
            Some(q) => {
                match q.try_pop() {
                    Some(code) => {
                        channel.waiter = None;
                        PollByte::Ready(code)
                    },
                    None => PollByte::Pending,
                }
            },
            None => PollByte::Pending,
        }
    }

    /// Poll for the next scancode, handing in the poller's task id.  Returns
    /// the oldest queued byte, or registers the poller and reports `Pending`;
    /// responsibility for resumption then lies with the wake that the next
    /// successful [`InputChannel::add_scancode`] hands out.
    pub fn poll_next(&self, channel: &mut InputChannel, me: TaskId) -> (r: PollByte)
        requires
            old(channel).wf(),
            old(channel).is_initialized(),
        ensures
            final(channel).wf(),
            final(channel).is_initialized(),
            final(channel).cap() == old(channel).cap(),
            old(channel).bytes().len() > 0 ==> r == PollByte::Ready(old(channel).bytes()[0])
                && final(channel).bytes() == old(channel).bytes().skip(1) && final(channel).waiting() == old(channel).waiting(),
            old(channel).bytes().len() == 0 ==> r == PollByte::Pending && final(channel).bytes()
                == old(channel).bytes() && final(channel).waiting() == Some(me),
    {
        match self.poll_check(channel) {
            Some(code) => PollByte::Ready(code),
            None => self.poll_register_recheck(channel, me),
        }
    }
}

/// Lost-wakeup freedom.  Suppose a poll finds the queue empty at its first
/// check, and the interrupt handler then delivers a byte — at that moment no
/// waiter is registered yet, so the wake it hands out misses the poller.  The
/// re-check that follows registration still observes the byte: the poll
/// returns it immediately and leaves neither a stale waiter nor the byte
/// behind, so the poller is never stuck waiting for a wake that has already
/// fired.
pub proof fn lemma_no_lost_wakeup(
    bytes: Seq<u8>,
    cap: nat,
    waiter: Option<TaskId>,
    code: u8,
    me: TaskId,
)
    requires
        bytes.len() == 0,
        cap > 0,
    ensures
        ({
            let m = add_model(bytes, cap, waiter, code);
            let p = register_recheck_model(m.0, me);
            &&& m.2 == (AddOutcome::Queued { wake: waiter })
            &&& p.2 == PollByte::Ready(code)
            &&& p.1 is None
            &&& p.0.len() == 0
        }),
{
    let m = add_model(bytes, cap, waiter, code);
    assert(m.0 == bytes.push(code));
    assert(m.0[0] == code);
    let p = register_recheck_model(m.0, me);
    assert(p.0 == m.0.skip(1));
    assert(p.0.len() == 0);
}

} // verus!
