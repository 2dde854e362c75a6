//! The open/error handshake as a state machine.
//!
//! A handshake starts in [`Phase::Connecting`] with a guard around a fresh
//! handle. It suspends until the driver reports which of the two signals the
//! race observed first, and that first signal settles it for good: `Ready`
//! opens the connection and keeps the guard, `Error` fails it and hands the
//! handle out for closing. Whatever arrives later is discarded.
//!
//! The driver registers the transient `open` and `error` handlers while the
//! phase is `Connecting` and clears both as soon as it is not.

use vstd::prelude::*;
use crate::error::Error;
use crate::safe_ws::SafeWebSocket;

verus! {

/// Which of the two handshake signals was observed.
#[derive(Debug, Clone, Copy, PartialEq, Eq, Structural)]
pub enum Signal {
    /// The platform reported that the connection is ready.
    Ready,
    /// The platform reported an error.
    Error,
}

/// Where a handshake stands.
#[derive(Debug, Clone, Copy, PartialEq, Eq, Structural)]
pub enum Phase {
    /// Neither signal has been observed yet.
    Connecting,
    /// The ready signal came first. Terminal.
    Open,
    /// The error signal came first, or the handshake was abandoned. Terminal.
    Failed,
}

/// A handshake as contracts see it.
pub struct HandshakeView<H> {
    /// The handle that the guard owns, if it still owns one.
    pub handle: Option<H>,
    /// The phase.
    pub phase: Phase,
}

impl<H> HandshakeView<H> {
    /// A handshake that has just begun on the handle `h`.
    pub open spec fn fresh(h: H) -> Self {
        HandshakeView { handle: Some(h), phase: Phase::Connecting }
    }

    /// The state after the signal `s` has been reported.
    pub open spec fn resolved(self, s: Signal) -> Self {
        match (self.phase, s) {
            (Phase::Connecting, Signal::Ready) => HandshakeView {
                handle: self.handle,
                phase: Phase::Open,
            },
            (Phase::Connecting, Signal::Error) => HandshakeView {
                handle: None,
                phase: Phase::Failed,
            },
            _ => self,
        }
    }

    /// The handle that reporting `s` hands out for closing, if any.
    pub open spec fn closes_on(self, s: Signal) -> Option<H> {
        if self.phase == Phase::Connecting && s == Signal::Error {
            self.handle
        } else {
            None
        }
    }

    /// Whether the transient `open` and `error` handlers are registered:
    /// they are exactly while the handshake is connecting.
    pub open spec fn listening(self) -> bool {
        self.phase == Phase::Connecting
    }

    /// The state after teardown.
    pub open spec fn abandoned(self) -> Self {
        HandshakeView { handle: None, phase: Phase::Failed }
    }

    /// What the awaiting caller is told: nothing while connecting, then
    /// success or `ConnectionClosed`.
    pub open spec fn outcome(self) -> Option<Result<(), Error>> {
        match self.phase {
            Phase::Connecting => None,
            Phase::Open => Some(Ok(())),
            Phase::Failed => Some(Err(Error::ConnectionClosed)),
        }
    }

    /// The state after the signals of `signals` have been reported in order.
    pub open spec fn after(self, signals: Seq<Signal>) -> Self
        decreases signals.len(),
    {
        if signals.len() == 0 {
            self
        } else {
            self.resolved(signals[0]).after(signals.drop_first())
        }
    }

    /// How many handles reporting `signals` in order hands out for closing.
    pub open spec fn closes_during(self, signals: Seq<Signal>) -> nat
        decreases signals.len(),
    {
        if signals.len() == 0 {
            0
        } else {
            (if self.closes_on(signals[0]) is Some {
                1nat
            } else {
                0nat
            }) + self.resolved(signals[0]).closes_during(signals.drop_first())
        }
    }
}

/// A handshake in progress or settled, with the guard it was built on.
pub struct Handshake<H> {
    ws: SafeWebSocket<H>,
    phase: Phase,
}

impl<H> View for Handshake<H> {
    type V = HandshakeView<H>;

    closed spec fn view(&self) -> HandshakeView<H> {
        HandshakeView { handle: self.ws@, phase: self.phase }
    }
}

impl<H> Handshake<H> {
    /// Begins a handshake on the outcome of asking the platform for a handle.
    ///
    /// A refused address fails with [`Error::UnsupportedUrlScheme`] before any
    /// state is entered. Otherwise the handshake is `Connecting` and owns the
    /// handle.
    pub fn begin<E>(created: Result<H, E>) -> (r: Result<Self, Error>)
        ensures
            match created {
                Ok(h) => r matches Ok(hs) && hs@ == HandshakeView::fresh(h),
                Err(_) => r == Err::<Self, Error>(Error::UnsupportedUrlScheme),
            },
    {
        match SafeWebSocket::new(created) {
            Ok(ws) => Ok(Handshake { ws, phase: Phase::Connecting }),
            Err(e) => Err(e),
        }
    }

    /// The current phase.
    pub fn phase(&self) -> (p: Phase)
        ensures
            p == self@.phase,
    {
        self.phase
    }

    /// Whether the transient `open` and `error` handlers belong on the
    /// handle. The driver clears both as soon as this is `false`.
    pub fn is_listening(&self) -> (b: bool)
        ensures
            b == self@.listening(),
    {
        match self.phase {
            Phase::Connecting => true,
            _ => false,
        }
    }

    /// Borrows the handle, as long as the guard still owns it.
    pub fn data(&self) -> (r: Option<&H>)
        ensures
            match self@.handle {
                Some(h) => r matches Some(b) && *b == h,
                None => r is None,
            },
    {
        self.ws.data()
    }

    /// What the awaiting caller is told at this point: `None` while the
    /// handshake is still connecting.
    pub fn outcome(&self) -> (r: Option<Result<(), Error>>)
        ensures
            r == self@.outcome(),
    {
        match self.phase {
            Phase::Connecting => None,
            Phase::Open => Some(Ok(())),
            Phase::Failed => Some(Err(Error::ConnectionClosed)),
        }
    }

    /// Reports a signal.
    ///
    /// While connecting, `Ready` opens the connection and `Error` fails it;
    /// on failure the handle leaves the guard and is returned for closing.
    /// Once the handshake is settled a signal is discarded: nothing changes
    /// and nothing is returned.
    pub fn resolve(&mut self, s: Signal) -> (r: Option<H>)
        ensures
            final(self)@ == old(self)@.resolved(s),
            r == old(self)@.closes_on(s),
    {
        match self.phase {
            Phase::Connecting => match s {
                Signal::Ready => {
                    self.phase = Phase::Open;
                    None
                },
                Signal::Error => {
                    self.phase = Phase::Failed;
                    self.ws.release()
                },
            },
            _ => None,
        }
    }

    /// Tears the handshake down, whatever its phase: it ends `Failed`, and the
    /// handle, if the guard still owned it, is returned for closing.
    pub fn abandon(&mut self) -> (r: Option<H>)
        ensures
            final(self)@ == old(self)@.abandoned(),
            r == old(self)@.handle,
    {
        self.phase = Phase::Failed;
        self.ws.release()
    }

    /// Gives up the guard of an open handshake.
    ///
    /// Only a handshake that is `Open` yields its guard, which then still owns
    /// the handle. In any other phase the handshake comes back unchanged.
    pub fn into_guard(self) -> (r: Result<SafeWebSocket<H>, Self>)
        ensures
            match r {
                Ok(ws) => self@.phase == Phase::Open && ws@ == self@.handle,
                Err(hs) => self@.phase != Phase::Open && hs@ == self@,
            },
    {
        match self.phase {
            Phase::Open => Ok(self.ws),
            _ => Err(self),
        }
    }
}

/// Once a handshake has left `Connecting`, no signal changes it or closes
/// anything.
pub proof fn lemma_settled_is_final<H>(v: HandshakeView<H>, signals: Seq<Signal>)
    requires
        v.phase != Phase::Connecting,
    ensures
        v.after(signals) == v,
        v.closes_during(signals) == 0,
    decreases signals.len(),
{
    if signals.len() > 0 {
        lemma_settled_is_final(v, signals.drop_first());
    }
}

/// The race is settled by the signal that is observed first, and by nothing
/// else.
///
/// With no signal the handshake stays `Connecting` and says nothing to the
/// caller. After any signal the transient handlers are off. If `Ready` comes
/// first the handshake is `Open`, still owns its
/// handle, and nothing was closed. If `Error` comes first the caller is told
/// `ConnectionClosed`, and the handle was handed out for closing exactly once.
pub proof fn lemma_first_signal_wins<H>(h: H, signals: Seq<Signal>)
    ensures
        signals.len() == 0 ==> {
            &&& HandshakeView::fresh(h).after(signals) == HandshakeView::fresh(h)
            &&& HandshakeView::fresh(h).after(signals).outcome() is None
            &&& HandshakeView::fresh(h).closes_during(signals) == 0
        },
        signals.len() > 0 ==> !HandshakeView::fresh(h).after(signals).listening(),
        signals.len() > 0 && signals[0] == Signal::Ready ==> {
            &&& HandshakeView::fresh(h).after(signals) == (HandshakeView {
                handle: Some(h),
                phase: Phase::Open,
            })
            &&& HandshakeView::fresh(h).after(signals).outcome() == Some(Ok::<(), Error>(()))
            &&& HandshakeView::fresh(h).closes_during(signals) == 0
        },
        signals.len() > 0 && signals[0] == Signal::Error ==> {
            &&& HandshakeView::fresh(h).after(signals) == (HandshakeView::<H> {
                handle: None,
                phase: Phase::Failed,
            })
            &&& HandshakeView::fresh(h).after(signals).outcome() == Some(
                Err::<(), Error>(Error::ConnectionClosed),
            )
            &&& HandshakeView::fresh(h).closes_during(signals) == 1
        },
{
    if signals.len() > 0 {
        let next = HandshakeView::fresh(h).resolved(signals[0]);
        lemma_settled_is_final(next, signals.drop_first());
    }
}

/// From its beginning to its teardown a handshake hands its handle out for
/// closing exactly once, whatever signals were reported in between: either
/// the failing signal did, or the teardown does, never both and never
/// neither.
pub proof fn lemma_handshake_closes_once<H>(h: H, signals: Seq<Signal>)
    ensures
        HandshakeView::fresh(h).closes_during(signals) + (if HandshakeView::fresh(h).after(
            signals,
        ).handle is Some {
            1nat
        } else {
            0nat
        }) == 1,
        HandshakeView::fresh(h).after(signals).abandoned().handle is None,
{
    lemma_first_signal_wins(h, signals);
}

} // verus!
