//! The cancellation token the runtime distributes along the scope tree.
//!
//! The token type comes from an outside crate and is shared mutable
//! state across tasks, so nothing is promised of what `is_cancelled`
//! returns; the verified model of the cancellation lineage itself lives
//! in the cancellation-tree module.

use vstd::prelude::*;

use tokio_util::sync::CancellationToken;

verus! {

#[verifier::external_type_specification]
#[verifier::external_body]
pub struct ExCancellationToken(CancellationToken);

/// Relies on tokio_util::sync::CancellationToken::new: a fresh root
/// token, not yet cancelled.
#[verifier::external_body]
pub(crate) fn new_token() -> (r: CancellationToken) {
    CancellationToken::new()
}

/// Relies on tokio_util::sync::CancellationToken::child_token: a token
/// that is cancelled when its parent is, while cancelling it does not
/// cancel the parent.
#[verifier::external_body]
pub(crate) fn child_token(token: &CancellationToken) -> (r: CancellationToken) {
    token.child_token()
}

/// Relies on tokio_util::sync::CancellationToken::cancel: cancels the
/// token and all tokens derived from it; level-triggered, so cancelling
/// twice is the same as cancelling once.
#[verifier::external_body]
pub(crate) fn cancel_token(token: &CancellationToken) {
    token.cancel()
}

/// Relies on tokio_util::sync::CancellationToken::is_cancelled. The
/// answer reflects shared state other tasks may change, so nothing is
/// promised of it.
#[verifier::external_body]
pub(crate) fn token_is_cancelled(token: &CancellationToken) -> (r: bool) {
    token.is_cancelled()
}

/// Relies on the Clone impl of tokio_util::sync::CancellationToken:
/// a clone is the same token, not a child.
#[verifier::external_body]
pub(crate) fn clone_token(token: &CancellationToken) -> (r: CancellationToken) {
    token.clone()
}

} // verus!
