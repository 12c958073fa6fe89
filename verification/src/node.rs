//! A node between the stages of its start: initialised, then bootstrapped.
//!
//! The handles on storage, chain state and the like are the caller's own
//! types; the node carries them from one stage to the next.

use vstd::prelude::*;
use tokio_util::sync::CancellationToken;
use crate::error::Error;
use crate::services::Services;
use crate::settings::Settings;

verus! {

/// A node whose storage and genesis block are ready. `B` is the genesis
/// block, `S` the storage, `X` the handle on the status record and `G` what
/// keeps the log output alive.
pub struct InitializedNode<B, S, X, G> {
    pub settings: Settings,
    pub block0: B,
    pub storage: S,
    pub rest_context: Option<X>,
    pub services: Services,
    pub cancellation_token: CancellationToken,
    pub _logger_guards: Vec<G>,
}

/// What the bootstrap is given to work on.
pub struct BootstrapInput<B, S, X> {
    pub rest_context: Option<X>,
    pub block0: B,
    pub storage: S,
    pub settings: Settings,
    pub cancellation_token: CancellationToken,
}

/// What a completed bootstrap hands out. `C` is the handle on the chain
/// state, `T` on the chain tip, `H` the hash of the genesis block and `E`
/// the handle on the chain index.
pub struct BootstrapData<C, T, H, E, X> {
    pub blockchain: C,
    pub blockchain_tip: T,
    pub block0_hash: H,
    pub explorer_db: Option<E>,
    pub rest_context: Option<X>,
    pub settings: Settings,
}

/// A node that has completed its bootstrap and whose tasks can be started.
pub struct BootstrappedNode<C, T, H, E, X, G> {
    pub settings: Settings,
    pub blockchain: C,
    pub blockchain_tip: T,
    pub block0_hash: H,
    pub explorer_db: Option<E>,
    pub rest_context: Option<X>,
    pub services: Services,
    pub _logger_guards: Vec<G>,
}

/// What the bootstrap of `node` is given to work on.
pub open spec fn input_of<B, S, X, G>(node: InitializedNode<B, S, X, G>) -> BootstrapInput<B, S, X> {
    BootstrapInput {
        rest_context: node.rest_context,
        block0: node.block0,
        storage: node.storage,
        settings: node.settings,
        cancellation_token: node.cancellation_token,
    }
}

/// The node that `node` becomes by a bootstrap that ended with `outcome`:
/// the bootstrapped node keeps the supervisor and the log output of the
/// initialised one and takes everything else from the bootstrap; an error
/// of the bootstrap is the error of the whole.
pub open spec fn bootstrapped<B, S, X, G, C, T, H, E>(
    node: InitializedNode<B, S, X, G>,
    outcome: Result<BootstrapData<C, T, H, E, X>, Error>,
) -> Result<BootstrappedNode<C, T, H, E, X, G>, Error> {
    match outcome {
        Ok(data) => Ok(
            BootstrappedNode {
                settings: data.settings,
                blockchain: data.blockchain,
                blockchain_tip: data.blockchain_tip,
                block0_hash: data.block0_hash,
                explorer_db: data.explorer_db,
                rest_context: data.rest_context,
                services: node.services,
                _logger_guards: node._logger_guards,
            },
        ),
        Err(e) => Err(e),
    }
}

/// Takes an initialised node through its bootstrap. The bootstrap itself is
/// `bootstrap_internal`, which the supervisor runs to its end under the name
/// "bootstrap"; what it hands out makes the bootstrapped node.
pub fn bootstrap<B, S, X, G, C, T, H, E, F>(
    initialized_node: InitializedNode<B, S, X, G>,
    bootstrap_internal: F,
) -> (r: Result<BootstrappedNode<C, T, H, E, X, G>, Error>) where
    F: FnOnce(BootstrapInput<B, S, X>) -> Result<BootstrapData<C, T, H, E, X>, Error>,

    requires
        bootstrap_internal.requires((input_of(initialized_node),)),
    ensures
        exists|outcome: Result<BootstrapData<C, T, H, E, X>, Error>|
            bootstrap_internal.ensures((input_of(initialized_node),), outcome) && r
                == bootstrapped(initialized_node, outcome),
{
    let InitializedNode {
        settings,
        block0,
        storage,
        rest_context,
        services,
        cancellation_token,
        _logger_guards,
    } = initialized_node;
    let input = BootstrapInput { rest_context, block0, storage, settings, cancellation_token };
    let task = |name: &str| -> (out: Result<BootstrapData<C, T, H, E, X>, Error>)
        requires
            bootstrap_internal.requires((input,)),
        ensures
            bootstrap_internal.ensures((input,), out),
        { bootstrap_internal(input) };
    let outcome = services.run_to_completion("bootstrap", task);
    let ghost handed_out = outcome;
    let r = match outcome {
        Ok(data) => Ok(
            BootstrappedNode {
                settings: data.settings,
                blockchain: data.blockchain,
                blockchain_tip: data.blockchain_tip,
                block0_hash: data.block0_hash,
                explorer_db: data.explorer_db,
                rest_context: data.rest_context,
                services,
                _logger_guards,
            },
        ),
        Err(e) => Err(e),
    };
    proof {
        assert(r == bootstrapped(initialized_node, handed_out));
    }
    r
}

} // verus!
