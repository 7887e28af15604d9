//! The walk over registered push tokens when a notification is sent: what
//! each APNs answer leads to, and which tokens are tried.

use vstd::prelude::*;

verus! {

/// The answer of APNs to one push.
#[derive(Clone, Debug, PartialEq, Eq)]
pub enum ApnsPushResult {
    Success,
    /// The token is no longer valid.
    Gone,
    /// The server's APNs credentials were refused.
    AuthError,
    /// APNs asks to slow down.
    Retry,
    OtherError(String),
}

/// What follows an APNs answer.
#[derive(Clone, Copy, Debug, PartialEq, Eq)]
pub enum PushFollowUp {
    /// Go on with the next token.
    Next,
    /// Delete the token from the store, then go on with the next token.
    RemoveTokenThenNext,
    /// Skip all remaining tokens.
    Stop,
}

/// A gone token is removed, a rate limit stops the walk, and every other
/// answer moves on to the next token.
pub open spec fn follow_up_for(result: ApnsPushResult) -> PushFollowUp {
    match result {
        ApnsPushResult::Gone => PushFollowUp::RemoveTokenThenNext,
        ApnsPushResult::Retry => PushFollowUp::Stop,
        _ => PushFollowUp::Next,
    }
}

/// Decides `follow_up_for`.
pub fn push_follow_up(result: &ApnsPushResult) -> (r: PushFollowUp)
    ensures
        r == follow_up_for(*result),
{
    match result {
        ApnsPushResult::Gone => PushFollowUp::RemoveTokenThenNext,
        ApnsPushResult::Retry => PushFollowUp::Stop,
        _ => PushFollowUp::Next,
    }
}

/// A registered push token and the APNs environment it belongs to.
#[derive(Clone, Debug, PartialEq, Eq)]
pub struct PushTarget {
    pub token: String,
    /// Whether the token uses the APNs sandbox.
    pub sandbox: bool,
}

/// A walk over the push tokens of one notification: the tokens are tried in
/// order, each once, until they run out or APNs asks to slow down.
pub struct PushDispatch {
    tokens: Vec<PushTarget>,
    next: usize,
    stopped: bool,
}

impl PushDispatch {
    /// The tokens of the walk.
    pub closed spec fn tokens(&self) -> Seq<PushTarget> {
        self.tokens@
    }

    /// How many tokens have been tried.
    pub closed spec fn tried(&self) -> nat {
        self.next as nat
    }

    /// Whether APNs asked to slow down.
    pub closed spec fn stopped(&self) -> bool {
        self.stopped
    }

    /// The walk never tries more tokens than it has.
    #[verifier::type_invariant]
    spec fn tried_within_tokens(self) -> bool {
        self.next <= self.tokens@.len()
    }

    /// The token to try next: none once the walk stopped or ran out.
    pub open spec fn pending(&self) -> Option<PushTarget> {
        if !self.stopped() && self.tried() < self.tokens().len() {
            Some(self.tokens()[self.tried() as int])
        } else {
            None
        }
    }

    /// Starts a walk over `tokens`.
    pub fn new(tokens: Vec<PushTarget>) -> (r: Self)
        ensures
            r.tokens() == tokens@,
            r.tried() == 0,
            !r.stopped(),
    {
        PushDispatch { tokens, next: 0, stopped: false }
    }

    /// The token to try next, if any.
    pub fn next_token(&self) -> (r: Option<&PushTarget>)
        ensures
            match r {
                Some(t) => self.pending() == Some(*t),
                None => self.pending() is None,
            },
            !self.stopped() && self.tried() < self.tokens().len() ==> (r matches Some(t) && *t
                == self.tokens()[self.tried() as int]),
            r is None ==> self.stopped() || self.tried() >= self.tokens().len(),
    {
        if !self.stopped && self.next < self.tokens.len() {
            Some(&self.tokens[self.next])
        } else {
            None
        }
    }

    /// Records APNs' answer for the pending token and says what follows.
    pub fn record(&mut self, result: &ApnsPushResult) -> (r: PushFollowUp)
        requires
            old(self).pending() is Some,
        ensures
            r == follow_up_for(*result),
            final(self).tokens() == old(self).tokens(),
            final(self).tried() == old(self).tried() + 1,
            final(self).stopped() == (r == PushFollowUp::Stop),
    {
        let r = push_follow_up(result);
        let n = self.tokens.len();
        assert(self.next < n);
        self.next = self.next + 1;
        match r {
            PushFollowUp::Stop => {
                self.stopped = true;
            },
            _ => {},
        }
        r
    }
}

/// Until APNs asks to slow down, every token is offered in turn: while the
/// walk has not stopped and some token is untried, the pending token is the
/// first untried one; nothing is pending only once the walk stopped or every
/// token was tried.
pub proof fn every_token_offered_until_stopped(d: PushDispatch)
    ensures
        !d.stopped() && d.tried() < d.tokens().len() ==> d.pending() == Some(
            d.tokens()[d.tried() as int],
        ),
        d.pending() is None ==> d.stopped() || d.tried() >= d.tokens().len(),
        d.pending() matches Some(t) ==> (!d.stopped() && d.tried() < d.tokens().len() && t
            == d.tokens()[d.tried() as int]),
{
}

/// Once APNs asks to slow down, no further token of the walk is tried.
pub proof fn retry_ends_dispatch(before: PushDispatch, after: PushDispatch, result: ApnsPushResult)
    requires
        before.pending() is Some,
        result == ApnsPushResult::Retry,
        after.tokens() == before.tokens(),
        after.tried() == before.tried() + 1,
        after.stopped() == (follow_up_for(result) == PushFollowUp::Stop),
    ensures
        after.pending() is None,
{
}

} // verus!
