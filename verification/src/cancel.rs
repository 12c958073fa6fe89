//! The stop signal shared by every task of the node.
//!
//! The signal is `tokio_util`'s cancellation token. A token is a handle on a
//! flag that all its clones share, so nothing about the flag can be read off
//! one handle's value: the declarations below let verified code create,
//! copy, raise and read the signal, and promise nothing about what it reads.

use vstd::prelude::*;
use tokio_util::sync::CancellationToken;

verus! {

/// `tokio_util::sync::CancellationToken`, taken as an opaque handle.
#[verifier::external_type_specification]
#[verifier::external_body]
pub struct ExCancellationToken(CancellationToken);

/// `CancellationToken::new`: a fresh token. Nothing is claimed of it.
pub assume_specification[ CancellationToken::new ]() -> (token: CancellationToken);

/// `CancellationToken::clone`: another handle on the same signal. Nothing is
/// claimed of it.
pub assume_specification[ <CancellationToken as Clone>::clone ](
    token: &CancellationToken,
) -> (copy: CancellationToken);

/// `CancellationToken::cancel`: raises the signal; raising it again has no
/// further effect. It returns nothing, and nothing is claimed.
pub assume_specification[ CancellationToken::cancel ](token: &CancellationToken);

/// `CancellationToken::is_cancelled`: whether the signal was raised by the
/// time of the call. Another task may raise it at any moment, so nothing is
/// claimed of the answer.
pub assume_specification[ CancellationToken::is_cancelled ](token: &CancellationToken) -> (raised:
    bool);

} // verus!
