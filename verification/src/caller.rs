//! The caller's side of a request/response exchange: the envelope it
//! submits, the error taxonomy it sees, and the one atomic step that
//! settles a finished wait.

use vstd::prelude::*;
use crate::messages::Message;
use crate::registry::{
    has_handle, index_of_handle, spec_taken, Matcher, RegState, Registration, Registry,
};

verus! {

/// A unit of submission: the outbound message, and how to route its reply
/// back, if a reply is awaited at all. An envelope without a matcher is
/// fire-and-forget.
#[derive(Debug, PartialEq)]
pub struct Envelope {
    pub message: Message,
    pub matcher: Option<Matcher>,
}

/// How a request/response call can fail. Transport failure and timeout are
/// deliberately distinct: the first means the request never left, the
/// second that it left and no reply arrived in time.
#[derive(Clone, Copy, Debug, PartialEq, Eq, Structural)]
pub enum CorrelationError {
    /// The outbound send to the bus never completed; no wait was attempted.
    TransportSendFailed,
    /// The deadline elapsed with no matching inbound message.
    ResponseTimeout,
    /// The caller's own task ended the wait before either of the above.
    Cancelled,
}

/// What ended a caller's wait. Exactly one of these reaches `settle`, on
/// every exit path of the wait, cancellation included.
#[derive(Clone, Copy, Debug, PartialEq, Eq, Structural)]
pub enum WaitEvent {
    /// The transport refused the outbound message.
    SendFailed,
    /// The delivery channel was signalled: the dispatcher resolved a reply
    /// to this registration.
    Received,
    /// The deadline elapsed first.
    TimerFired,
    /// The caller abandoned the wait.
    Cancelled,
}

impl Registry {
    /// Registers the envelope's matcher, if it carries one, and returns the
    /// handle the caller will settle with; a fire-and-forget envelope
    /// registers nothing.
    pub fn register_envelope(&mut self, env: &Envelope, now: u64) -> (h: Option<u64>)
        requires
            old(self).wf(),
            old(self).next_handle < u64::MAX,
        ensures
            final(self).wf(),
            match env.matcher {
                Some(m) => h == Some(old(self).next_handle) && final(self).regs@ == old(
                    self,
                ).regs@.push(
                    Registration {
                        handle: old(self).next_handle,
                        matcher: m,
                        created_at: now,
                        state: RegState::Pending,
                    },
                ) && final(self).next_handle == old(self).next_handle + 1,
                None => h is None && *final(self) == *old(self),
            },
    {
        match &env.matcher {
            Some(m) => Some(self.register(*m, now)),
            None => None,
        }
    }

    /// Settles a finished wait in one atomic step. Whatever raced against
    /// the caller, the registration is taken out here exactly once, and the
    /// event that ended the wait decides the outcome:
    ///
    /// - a transport failure is `TransportSendFailed`, before any wait;
    /// - an elapsed deadline is `ResponseTimeout`, even when a delivery slid
    ///   into the slot after the timer fired — the timer won the race and
    ///   the late message is discarded with the registration;
    /// - an abandoned wait is `Cancelled`;
    /// - a delivery signal yields the message in the slot; a signal with an
    ///   empty slot (a wakeup nothing was delivered for) resolves as
    ///   `ResponseTimeout`, since no reply is available to hand out.
    ///
    /// Afterwards the handle is gone from the registry on every path.
    pub fn settle(&mut self, h: u64, event: WaitEvent) -> (r: Result<Message, CorrelationError>)
        requires
            old(self).wf(),
        ensures
            final(self).wf(),
            final(self).next_handle == old(self).next_handle,
            !has_handle(final(self).regs@, h),
            has_handle(old(self).regs@, h) ==> final(self).regs@ == old(self).regs@.remove(
                index_of_handle(old(self).regs@, h),
            ),
            !has_handle(old(self).regs@, h) ==> *final(self) == *old(self),
            event == WaitEvent::SendFailed ==> r == Err::<Message, CorrelationError>(
                CorrelationError::TransportSendFailed,
            ),
            event == WaitEvent::TimerFired ==> r == Err::<Message, CorrelationError>(
                CorrelationError::ResponseTimeout,
            ),
            event == WaitEvent::Cancelled ==> r == Err::<Message, CorrelationError>(
                CorrelationError::Cancelled,
            ),
            event == WaitEvent::Received ==> match spec_taken(old(self).regs@, h) {
                Some(reg) => match reg.state {
                    RegState::Delivered(m) => r == Ok::<Message, CorrelationError>(m),
                    RegState::Pending => r == Err::<Message, CorrelationError>(
                        CorrelationError::ResponseTimeout,
                    ),
                },
                None => r == Err::<Message, CorrelationError>(CorrelationError::ResponseTimeout),
            },
    {
        let taken = self.take_registration(h);
        match event {
            WaitEvent::SendFailed => Err(CorrelationError::TransportSendFailed),
            WaitEvent::TimerFired => Err(CorrelationError::ResponseTimeout),
            WaitEvent::Cancelled => Err(CorrelationError::Cancelled),
            WaitEvent::Received => match taken {
                Some(reg) => match reg.state {
                    RegState::Delivered(m) => Ok(m),
                    RegState::Pending => Err(CorrelationError::ResponseTimeout),
                },
                None => Err(CorrelationError::ResponseTimeout),
            },
        }
    }
}

} // verus!
