//! Exclusive ownership of one native socket handle.
//!
//! A [`SafeWebSocket`] is the only path to the handle it owns. The handle
//! leaves the guard at most once, through [`SafeWebSocket::release`], and is
//! handed to the caller for closing; from then on the guard is closed and
//! gives the handle to nobody.

use vstd::prelude::*;
use crate::error::Error;

verus! {

/// Guard around a native handle of type `H`.
///
/// The guard is move-only: it has no `Clone`, and its field is private, so no
/// second owner of the handle can be made from it.
pub struct SafeWebSocket<H> {
    ws: Option<H>,
}

impl<H> View for SafeWebSocket<H> {
    type V = Option<H>;

    /// `Some(h)` while the guard owns the open handle `h`, `None` once the
    /// handle has been released for closing.
    closed spec fn view(&self) -> Option<H> {
        self.ws
    }
}

/// What a guard in state `g` hands out when it is released, and the state it
/// is left in: the handle the first time, nothing afterwards.
pub open spec fn released<H>(g: Option<H>) -> (Option<H>, Option<H>) {
    (None, g)
}

/// How many handles come out of `n` successive releases of a guard in state
/// `g`.
pub open spec fn handles_released<H>(g: Option<H>, n: nat) -> nat
    decreases n,
{
    if n == 0 {
        0
    } else {
        let (after, out) = released(g);
        (if out is Some { 1nat } else { 0nat }) + handles_released(after, (n - 1) as nat)
    }
}

impl<H> SafeWebSocket<H> {
    /// Wraps the outcome of asking the platform for a handle.
    ///
    /// A refused address becomes [`Error::UnsupportedUrlScheme`] and no guard
    /// is made; a fresh handle gets a guard that owns it.
    pub fn new<E>(created: Result<H, E>) -> (r: Result<Self, Error>)
        ensures
            match created {
                Ok(h) => r matches Ok(g) && g@ == Some(h),
                Err(_) => r == Err::<Self, Error>(Error::UnsupportedUrlScheme),
            },
    {
        match created {
            Ok(h) => Ok(SafeWebSocket { ws: Some(h) }),
            Err(_) => Err(Error::UnsupportedUrlScheme),
        }
    }

    /// Borrows the handle, as long as it has not been released.
    pub fn data(&self) -> (r: Option<&H>)
        ensures
            match self@ {
                Some(h) => r matches Some(b) && *b == h,
                None => r is None,
            },
    {
        self.ws.as_ref()
    }

    /// Whether the handle has been released for closing.
    pub fn is_closed(&self) -> (b: bool)
        ensures
            b == (self@ is None),
    {
        self.ws.is_none()
    }

    /// Tears the guard down: hands the handle out for closing, once.
    ///
    /// The first call returns the handle and leaves the guard closed. Every
    /// later call returns nothing and changes nothing, so the handle can be
    /// closed only once however often teardown runs.
    pub fn release(&mut self) -> (r: Option<H>)
        ensures
            (final(self)@, r) == released(old(self)@),
    {
        self.ws.take()
    }
}

/// However often a guard is torn down, its handle is handed out for closing
/// exactly once: never twice, and never not at all once teardown has run.
/// A guard that was closed before hands out nothing.
pub proof fn lemma_closed_exactly_once<H>(g: Option<H>, n: nat)
    ensures
        handles_released(g, n) == (if g is Some && n >= 1 { 1nat } else { 0nat }),
    decreases n,
{
    if n > 0 {
        lemma_closed_exactly_once::<H>(None, (n - 1) as nat);
    }
}

} // verus!
