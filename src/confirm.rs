//! Waiting for a submitted transaction and its confirmation event, under a timeout.
//!
//! The submission and the event wait run side by side; whichever of them reports, and
//! the timer, are handed in here one at a time as events. An operation succeeds only
//! once both the submission was accepted and the event was seen, before the timer fired.
use crate::amount::{be_value, Amount};
use crate::error::BridgeError;
use crate::pricing::decode_amount;
use vstd::prelude::*;

verus! {

/// Which confirmation event is awaited.
#[derive(Clone, Copy, Debug, PartialEq, Eq)]
pub enum Awaited {
    /// A swap's purchase event; its fourth topic holds the amount bought.
    Purchase,
    /// An approval event; nothing is read from it.
    Approval,
}

/// What has been observed so far of one submitted operation.
#[derive(Clone, Copy, Debug, PartialEq, Eq)]
pub struct Confirmation {
    pub awaited: Awaited,
    /// The network accepted the transaction.
    pub submitted: bool,
    /// The confirmation event was seen.
    pub observed: bool,
    /// The amount the event reported (zero for an approval).
    pub bought: Amount,
}

/// Something that happened while waiting.
#[derive(Clone, Debug, PartialEq, Eq)]
pub enum WaitEvent {
    /// The network accepted the transaction.
    Submitted,
    /// The submission failed, with the collaborator's message.
    SubmitFailed(String),
    /// A matching event arrived, with its topics.
    EventObserved(Vec<Vec<u8>>),
    /// The event subscription failed, with the collaborator's message.
    EventFailed(String),
    /// The timeout elapsed.
    Elapsed,
}

/// Where the wait stands after an event.
#[derive(Debug, PartialEq, Eq)]
pub enum WaitStep {
    Waiting(Confirmation),
    Done(Result<Amount, BridgeError>),
}

/// The amount a purchase event reports in its fourth topic, if that topic holds one.
pub open spec fn purchase_amount(topics: Seq<Seq<u8>>) -> Option<nat> {
    if topics.len() >= 4 && topics[3].len() >= 32 {
        Some(be_value(topics[3].subrange(0, 32)))
    } else {
        None
    }
}

/// `r` is what follows from state `c` on event `ev`.
pub open spec fn step_result(c: Confirmation, ev: WaitEvent, r: WaitStep) -> bool {
    match ev {
        WaitEvent::Elapsed => r == WaitStep::Done(Err(BridgeError::Timeout)),
        WaitEvent::SubmitFailed(m) => r == WaitStep::Done(Err(BridgeError::TransportFailure(m))),
        WaitEvent::EventFailed(m) => r == WaitStep::Done(Err(BridgeError::TransportFailure(m))),
        WaitEvent::Submitted => if c.observed {
            r == WaitStep::Done(Ok(c.bought))
        } else {
            r == WaitStep::Waiting(Confirmation { submitted: true, ..c })
        },
        WaitEvent::EventObserved(topics) => match c.awaited {
            Awaited::Approval => if c.submitted {
                r == WaitStep::Done(Ok(c.bought))
            } else {
                r == WaitStep::Waiting(Confirmation { observed: true, ..c })
            },
            Awaited::Purchase => match purchase_amount(topics.deep_view()) {
                None => r == WaitStep::Done(Err(BridgeError::MalformedResponse)),
                Some(v) => if c.submitted {
                    r matches WaitStep::Done(Ok(a)) && a.value() == v
                } else {
                    r matches WaitStep::Waiting(n) && n.awaited == c.awaited && n.submitted
                        == c.submitted && n.observed && n.bought.value() == v
                },
            },
        },
    }
}

/// `r` is where the wait stands after the events `evs`, one at a time, from `c`; the
/// events that follow the end of the wait are not looked at.
pub open spec fn run_result(c: Confirmation, evs: Seq<WaitEvent>, r: WaitStep) -> bool
    decreases evs.len(),
{
    if evs.len() == 0 {
        r == WaitStep::Waiting(c)
    } else {
        exists|s: WaitStep|
            #[trigger] step_result(c, evs[0], s) && match s {
                WaitStep::Waiting(n) => run_result(n, evs.drop_first(), r),
                WaitStep::Done(_) => r == s,
            }
    }
}

impl Confirmation {
    /// Nothing observed yet.
    pub fn new(awaited: Awaited) -> (r: Confirmation)
        ensures
            r.awaited == awaited,
            !r.submitted,
            !r.observed,
            r.bought.value() == 0,
    {
        Confirmation { awaited, submitted: false, observed: false, bought: Amount::zero() }
    }

    /// Takes one event into account.
    pub fn step(&self, ev: WaitEvent) -> (r: WaitStep)
        ensures
            step_result(*self, ev, r),
    {
        match ev {
            WaitEvent::Elapsed => WaitStep::Done(Err(BridgeError::Timeout)),
            WaitEvent::SubmitFailed(m) => WaitStep::Done(Err(BridgeError::TransportFailure(m))),
            WaitEvent::EventFailed(m) => WaitStep::Done(Err(BridgeError::TransportFailure(m))),
            WaitEvent::Submitted => {
                if self.observed {
                    WaitStep::Done(Ok(self.bought))
                } else {
                    WaitStep::Waiting(Confirmation { submitted: true, ..*self })
                }
            },
            WaitEvent::EventObserved(topics) => {
                let bought = match self.awaited {
                    Awaited::Approval => self.bought,
                    Awaited::Purchase => {
                        proof {
                            assert(topics.deep_view().len() == topics@.len());
                        }
                        if topics.len() < 4 {
                            return WaitStep::Done(Err(BridgeError::MalformedResponse));
                        }
                        proof {
                            assert(topics.deep_view()[3] == topics@[3]@);
                        }
                        match decode_amount(topics[3].as_slice()) {
                            Ok(a) => a,
                            Err(e) => return WaitStep::Done(Err(e)),
                        }
                    },
                };
                if self.submitted {
                    WaitStep::Done(Ok(bought))
                } else {
                    WaitStep::Waiting(Confirmation { observed: true, bought, ..*self })
                }
            },
        }
    }
}

/// Once the timer fires the operation has failed with `Timeout`, whatever was
/// observed before: a submission that never resolved, or an event that never came.
pub proof fn lemma_elapsed_is_timeout(c: Confirmation, r: WaitStep)
    requires
        step_result(c, WaitEvent::Elapsed, r),
    ensures
        r == WaitStep::Done(Err::<Amount, BridgeError>(BridgeError::Timeout)),
{
}

/// An operation succeeds only where the submission was accepted and the event seen:
/// one of the two before this event, the other on it.
pub proof fn lemma_success_needs_both(c: Confirmation, ev: WaitEvent, r: WaitStep)
    requires
        step_result(c, ev, r),
        r matches WaitStep::Done(Ok(_)),
    ensures
        (c.submitted && ev is EventObserved) || (c.observed && ev is Submitted),
{
}

/// Where the timer fires before the confirmation event has arrived, the operation
/// fails, whatever came before or after it: with `Timeout`, unless a collaborator
/// failed first. A transaction mined later does not change that.
pub proof fn lemma_no_event_in_time_fails(c: Confirmation, evs: Seq<WaitEvent>, k: int, r: WaitStep)
    requires
        run_result(c, evs, r),
        0 <= k < evs.len(),
        evs[k] is Elapsed,
        !c.observed,
        forall|i: int| 0 <= i < k ==> !(evs[i] is EventObserved),
    ensures
        r matches WaitStep::Done(Err(_)),
        (forall|i: int| 0 <= i < k ==> !(evs[i] is SubmitFailed) && !(evs[i] is EventFailed)) ==> r
            == WaitStep::Done(Err::<Amount, BridgeError>(BridgeError::Timeout)),
    decreases k,
{
    let s = choose|s: WaitStep|
        #[trigger] step_result(c, evs[0], s) && match s {
            WaitStep::Waiting(n) => run_result(n, evs.drop_first(), r),
            WaitStep::Done(_) => r == s,
        };
    if k > 0 {
        assert(!(evs[0] is EventObserved));
        if let WaitStep::Waiting(n) = s {
            let rest = evs.drop_first();
            assert forall|i: int| 0 <= i < k - 1 implies !(rest[i] is EventObserved) by {
                assert(rest[i] == evs[i + 1]);
            }
            lemma_no_event_in_time_fails(n, rest, k - 1, r);
            if forall|i: int| 0 <= i < k ==> !(evs[i] is SubmitFailed) && !(evs[i] is EventFailed) {
                assert forall|i: int| 0 <= i < k - 1 implies !(rest[i] is SubmitFailed) && !(
                rest[i] is EventFailed) by {
                    assert(rest[i] == evs[i + 1]);
                }
            }
        }
    }
}

/// Where the timer fires before the network has accepted the transaction, the operation
/// fails, whatever came before or after it: with `Timeout`, unless a collaborator
/// failed first. A submission that never resolves ends in `Timeout`.
pub proof fn lemma_no_submission_in_time_fails(
    c: Confirmation,
    evs: Seq<WaitEvent>,
    k: int,
    r: WaitStep,
)
    requires
        run_result(c, evs, r),
        0 <= k < evs.len(),
        evs[k] is Elapsed,
        !c.submitted,
        forall|i: int| 0 <= i < k ==> !(evs[i] is Submitted),
    ensures
        r matches WaitStep::Done(Err(_)),
        (forall|i: int|
            0 <= i < k ==> !(evs[i] is SubmitFailed) && !(evs[i] is EventFailed) && !(
            evs[i] is EventObserved && c.awaited == Awaited::Purchase)) ==> r == WaitStep::Done(
            Err::<Amount, BridgeError>(BridgeError::Timeout),
        ),
    decreases k,
{
    let s = choose|s: WaitStep|
        #[trigger] step_result(c, evs[0], s) && match s {
            WaitStep::Waiting(n) => run_result(n, evs.drop_first(), r),
            WaitStep::Done(_) => r == s,
        };
    if k > 0 {
        assert(!(evs[0] is Submitted));
        if let WaitStep::Waiting(n) = s {
            let rest = evs.drop_first();
            assert forall|i: int| 0 <= i < k - 1 implies !(rest[i] is Submitted) by {
                assert(rest[i] == evs[i + 1]);
            }
            lemma_no_submission_in_time_fails(n, rest, k - 1, r);
            if forall|i: int|
                0 <= i < k ==> !(evs[i] is SubmitFailed) && !(evs[i] is EventFailed) && !(
                evs[i] is EventObserved && c.awaited == Awaited::Purchase) {
                assert forall|i: int|
                    0 <= i < k - 1 implies !(rest[i] is SubmitFailed) && !(rest[i] is EventFailed)
                    && !(rest[i] is EventObserved && n.awaited == Awaited::Purchase) by {
                    assert(rest[i] == evs[i + 1]);
                }
            }
        }
    }
}

/// A step that keeps waiting never forgets what was observed, and records no more than
/// the event brought.
pub proof fn lemma_waiting_keeps_progress(c: Confirmation, ev: WaitEvent, n: Confirmation)
    requires
        step_result(c, ev, WaitStep::Waiting(n)),
    ensures
        n.awaited == c.awaited,
        c.submitted ==> n.submitted,
        c.observed ==> n.observed,
        n.submitted != c.submitted ==> ev is Submitted,
        n.observed != c.observed ==> ev is EventObserved,
{
}

} // verus!
