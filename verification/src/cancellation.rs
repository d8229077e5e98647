//! Cancellation handles: a `tokio_util` cancellation token together with
//! the library's record of whether cancellation was signalled through it
//! and of which token it belongs to.
use vstd::prelude::*;

use tokio_util::sync::CancellationToken;

verus! {

/// `tokio_util::sync::CancellationToken`, carried through opaquely.
#[verifier::external_type_specification]
#[verifier::external_body]
pub struct ExCancellationToken(CancellationToken);

/// A handle to a cancellation token. Handles made by `share` belong to the
/// same token as the handle they were made from (they have the same
/// `origin`); cancelling through one cancels them all. The record of
/// whether cancellation was signalled is only written by `new`, `share` and
/// `signal`.
pub struct Cancellation {
    token: CancellationToken,
    signalled: Ghost<bool>,
    origin: Ghost<int>,
}

impl Cancellation {
    /// Cancellation was signalled through this handle (or through the one
    /// it was shared from, before it was shared).
    pub closed spec fn is_signalled(&self) -> bool {
        self.signalled@
    }

    /// The token this handle belongs to.
    pub closed spec fn origin(&self) -> int {
        self.origin@
    }

    /// Calls `CancellationToken::new`: a fresh token, not cancelled. The
    /// claim: the new handle has not signalled cancellation. Its `origin` is
    /// left unstated.
    #[verifier::external_body]
    pub(crate) fn new() -> (r: Self)
        ensures
            !r.is_signalled(),
    {
        Cancellation { token: CancellationToken::new(), signalled: Ghost(false), origin: Ghost(0) }
    }

    /// Calls `<CancellationToken as Clone>::clone`: a handle to the same
    /// token, cancelled whenever the original is. The claim: the new handle
    /// belongs to the same token and carries the same record.
    #[verifier::external_body]
    pub(crate) fn share(&self) -> (r: Self)
        ensures
            r.origin() == self.origin(),
            r.is_signalled() == self.is_signalled(),
    {
        Cancellation { token: self.token.clone(), signalled: self.signalled, origin: self.origin }
    }

    /// Calls `CancellationToken::cancel`, which cancels the token and every
    /// handle to it. The claim: the handle records that cancellation was
    /// signalled, and still belongs to the same token.
    #[verifier::external_body]
    pub(crate) fn signal(&mut self)
        ensures
            final(self).is_signalled(),
            final(self).origin() == old(self).origin(),
    {
        self.token.cancel();
    }

    /// The token, for waiting on it.
    pub fn token(&self) -> &CancellationToken {
        &self.token
    }

    /// The token itself.
    pub fn into_token(self) -> CancellationToken {
        self.token
    }
}

} // verus!
