use vstd::prelude::*;

use crate::error::Error;

verus! {

/// Parameter of the pairing decision: the device asking to pair and the PIN
/// that the user confirms.
pub struct RequestParamPairing {
    pub device_name: String,
    pub pin: String,
}

/// What a caller can observe of a call slot.
pub struct SlotModel {
    /// Whether a handler is installed.
    pub registered: bool,
    /// The ticket of the call that waits for its reply, if any.
    pub outstanding: Option<u64>,
    /// The ticket that the next call will get.
    pub next_ticket: u64,
}

/// The ticket after `t`; tickets wrap around.
pub open spec fn ticket_after(t: u64) -> u64 {
    if t == u64::MAX {
        0
    } else {
        (t + 1) as u64
    }
}

/// Issuing a call: it fails while another call is open or while no handler is
/// installed; otherwise the slot becomes occupied by a fresh ticket.
pub open spec fn slot_call(m: SlotModel) -> (SlotModel, Result<u64, Error>) {
    if m.outstanding is Some {
        (m, Err(Error::CallAlreadyInFlight))
    } else if !m.registered {
        (m, Err(Error::CallNotRegistered))
    } else {
        (
            SlotModel {
                outstanding: Some(m.next_ticket),
                next_ticket: ticket_after(m.next_ticket),
                ..m
            },
            Ok(m.next_ticket),
        )
    }
}

/// A reply from the handler: it completes the open call, if there is one, and
/// is dropped otherwise.
pub open spec fn slot_resolve(m: SlotModel) -> (SlotModel, Option<u64>) {
    (SlotModel { outstanding: None, ..m }, m.outstanding)
}

/// The timeout of the call with ticket `t` elapsed: if that call is still open
/// it fails with `CallTimeout` and frees the slot; if it was resolved in time,
/// nothing changes.
pub open spec fn slot_expire(m: SlotModel, t: u64) -> (SlotModel, Result<(), Error>) {
    if m.outstanding == Some(t) {
        (SlotModel { outstanding: None, ..m }, Err(Error::CallTimeout))
    } else {
        (m, Ok(()))
    }
}

/// A single-flight gateway for calls into a handler installed by the host,
/// each awaiting exactly one reply.
///
/// `F` is the host's handler. The slot decides; the host runs the handler,
/// waits for the reply and keeps time.
pub struct NonBlockingThreadsafeFunctionWithReturn<F> {
    func: Option<F>,
    outstanding: Option<u64>,
    next_ticket: u64,
}

impl<F> View for NonBlockingThreadsafeFunctionWithReturn<F> {
    type V = SlotModel;

    closed spec fn view(&self) -> SlotModel {
        SlotModel {
            registered: self.func is Some,
            outstanding: self.outstanding,
            next_ticket: self.next_ticket,
        }
    }
}

impl<F> NonBlockingThreadsafeFunctionWithReturn<F> {
    /// The installed handler.
    pub closed spec fn callback(&self) -> Option<F> {
        self.func
    }

    /// An empty slot: no handler and no open call.
    pub fn new() -> (r: Self)
        ensures
            r@ == (SlotModel { registered: false, outstanding: None, next_ticket: 0 }),
            r.callback() is None,
    {
        NonBlockingThreadsafeFunctionWithReturn { func: None, outstanding: None, next_ticket: 0 }
    }

    /// Installs the handler, replacing any earlier one. An open call stays open.
    pub fn set_callback(&mut self, tsfn: F)
        ensures
            final(self)@ == (SlotModel { registered: true, ..old(self)@ }),
            final(self).callback() == Some(tsfn),
    {
        self.func = Some(tsfn);
    }

    /// The installed handler, which the host runs on the call's parameter.
    pub fn handler(&self) -> (r: Option<&F>)
        ensures
            r matches Some(f) ==> self.callback() == Some(*f),
            r is None <==> self.callback() is None,
    {
        match &self.func {
            Some(f) => Some(f),
            None => None,
        }
    }

    /// Opens a call and returns its ticket.
    pub fn call(&mut self) -> (r: Result<u64, Error>)
        ensures
            (final(self)@, r) == slot_call(old(self)@),
            final(self).callback() == old(self).callback(),
    {
        if self.outstanding.is_some() {
            return Err(Error::CallAlreadyInFlight);
        }
        if self.func.is_none() {
            return Err(Error::CallNotRegistered);
        }
        let t: u64 = self.next_ticket;
        self.outstanding = Some(t);
        self.next_ticket = if t == u64::MAX {
            0
        } else {
            t + 1
        };
        Ok(t)
    }

    /// Hands a reply to the open call. Returns the call's ticket with the reply,
    /// or `None` where no call is open, in which case the reply is dropped.
    pub fn send_result<R>(&mut self, result: R) -> (r: Option<(u64, R)>)
        ensures
            final(self)@ == slot_resolve(old(self)@).0,
            final(self).callback() == old(self).callback(),
            r is None <==> slot_resolve(old(self)@).1 is None,
            r matches Some((t, v)) ==> slot_resolve(old(self)@).1 == Some(t) && v == result,
    {
        match self.outstanding.take() {
            Some(t) => Some((t, result)),
            None => None,
        }
    }

    /// The timeout of the call with ticket `ticket` elapsed.
    pub fn expire(&mut self, ticket: u64) -> (r: Result<(), Error>)
        ensures
            (final(self)@, r) == slot_expire(old(self)@, ticket),
            final(self).callback() == old(self).callback(),
    {
        match self.outstanding {
            Some(t) => {
                if t == ticket {
                    self.outstanding = None;
                    Err(Error::CallTimeout)
                } else {
                    Ok(())
                }
            },
            None => Ok(()),
        }
    }
}

/// A second call on a slot before the first is resolved fails with
/// `CallAlreadyInFlight`; once the first is resolved, a new call succeeds.
pub proof fn lemma_single_flight(m: SlotModel)
    requires
        m.registered,
        m.outstanding is None,
    ensures
        slot_call(m).1 is Ok,
        slot_call(slot_call(m).0).1 == Err::<u64, Error>(Error::CallAlreadyInFlight),
        slot_resolve(slot_call(m).0).1 == Some(m.next_ticket),
        slot_call(slot_resolve(slot_call(m).0).0).1 is Ok,
{
}

/// A call that is not resolved within its timeout fails with `CallTimeout`;
/// a reply that comes afterwards reaches nobody, and the slot takes new calls.
pub proof fn lemma_late_reply_dropped(m: SlotModel)
    requires
        m.registered,
        m.outstanding is None,
    ensures
        ({
            let (m1, r1) = slot_call(m);
            let t: u64 = r1->Ok_0;
            let (m2, r2) = slot_expire(m1, t);
            &&& r2 == Err::<(), Error>(Error::CallTimeout)
            &&& slot_resolve(m2).1 is None
            &&& slot_resolve(m2).0 == m2
            &&& slot_call(slot_resolve(m2).0).1 is Ok
        }),
{
}

} // verus!
