//! The status record of a node: its phase, and the handles that become
//! available while it starts.
//!
//! The record is filled step by step. A reader may see any part of it
//! missing and takes that as "not yet available". The caller guards the
//! record by one lock: every `&mut self` method is a write under that lock.

use vstd::prelude::*;
use tokio_util::sync::CancellationToken;
use crate::lifecycle::LifecycleState;

verus! {

/// The status record as contracts speak of it.
pub struct ContextView<D, C, T, F> {
    pub node_state: LifecycleState,
    pub diagnostic: Option<D>,
    pub blockchain: Option<C>,
    pub blockchain_tip: Option<T>,
    pub bootstrap_stopper: Option<CancellationToken>,
    pub full: Option<F>,
}

impl<D, C, T, F> ContextView<D, C, T, F> {
    /// A stop signal for the bootstrap is attached only while the node is
    /// bootstrapping.
    pub open spec fn wf(self) -> bool {
        self.bootstrap_stopper is Some ==> self.node_state == LifecycleState::Bootstrapping
    }

    /// The record after a write of `state`: a phase that lies before the
    /// current one is not taken. With the phase of bootstrapping behind it,
    /// the record lets go of the stop signal of the bootstrap.
    pub open spec fn advanced(self, state: LifecycleState) -> ContextView<D, C, T, F> {
        if self.node_state.precedes_or_is(state) {
            ContextView {
                node_state: state,
                bootstrap_stopper: if state == LifecycleState::Bootstrapping {
                    self.bootstrap_stopper
                } else {
                    None
                },
                ..self
            }
        } else {
            self
        }
    }

    /// The record after the writes of `states`, one after the other.
    pub open spec fn advanced_through(self, states: Seq<LifecycleState>) -> ContextView<D, C, T, F>
        decreases states.len(),
    {
        if states.len() == 0 {
            self
        } else {
            self.advanced_through(states.drop_last()).advanced(states.last())
        }
    }
}

/// The status record of a node. `D` is the diagnostic snapshot, `C` the
/// handle on the chain state, `T` the handle on the chain tip and `F` the
/// bundle of handles into the running tasks.
pub struct Context<D, C, T, F> {
    node_state: LifecycleState,
    diagnostic: Option<D>,
    blockchain: Option<C>,
    blockchain_tip: Option<T>,
    bootstrap_stopper: Option<CancellationToken>,
    full: Option<F>,
}

impl<D, C, T, F> View for Context<D, C, T, F> {
    type V = ContextView<D, C, T, F>;

    closed spec fn view(&self) -> ContextView<D, C, T, F> {
        ContextView {
            node_state: self.node_state,
            diagnostic: self.diagnostic,
            blockchain: self.blockchain,
            blockchain_tip: self.blockchain_tip,
            bootstrap_stopper: self.bootstrap_stopper,
            full: self.full,
        }
    }
}

/// What a reader sees of an optional part of the record.
pub open spec fn seen<V>(stored: Option<V>, read: Option<&V>) -> bool {
    match read {
        Some(v) => stored == Some(*v),
        None => stored is None,
    }
}

impl<D, C, T, F> Context<D, C, T, F> {
    /// The record of a node that has just begun to prepare its storage.
    pub fn new() -> (c: Context<D, C, T, F>)
        ensures
            c@ == (ContextView::<D, C, T, F> {
                node_state: LifecycleState::PreparingStorage,
                diagnostic: None,
                blockchain: None,
                blockchain_tip: None,
                bootstrap_stopper: None,
                full: None,
            }),
            c@.wf(),
    {
        Context {
            node_state: LifecycleState::PreparingStorage,
            diagnostic: None,
            blockchain: None,
            blockchain_tip: None,
            bootstrap_stopper: None,
            full: None,
        }
    }

    /// The current phase.
    pub fn node_state(&self) -> (s: LifecycleState)
        ensures
            s == self@.node_state,
    {
        self.node_state
    }

    /// Moves the node to `state`. The phase only moves forward: a write that
    /// would take it back is refused, and the answer is `false`. A node
    /// that moves past its bootstrap can no longer be stopped through the
    /// stop signal of the bootstrap: the record lets go of it.
    pub fn set_node_state(&mut self, state: LifecycleState) -> (taken: bool)
        ensures
            taken == old(self)@.node_state.precedes_or_is(state),
            final(self)@ == old(self)@.advanced(state),
            old(self)@.node_state.precedes_or_is(final(self)@.node_state),
            old(self)@.wf() ==> final(self)@.wf(),
    {
        if state.has_reached(self.node_state) {
            self.node_state = state;
            match state {
                LifecycleState::Bootstrapping => {},
                _ => {
                    self.bootstrap_stopper = None;
                },
            }
            true
        } else {
            false
        }
    }

    /// Stores the diagnostic snapshot. It is written once: a second snapshot
    /// is handed back and the first one stays.
    pub fn set_diagnostic_data(&mut self, diagnostic: D) -> (r: Result<(), D>)
        ensures
            match old(self)@.diagnostic {
                Some(_) => r == Err::<(), D>(diagnostic) && final(self)@ == old(self)@,
                None => r is Ok && final(self)@ == (ContextView {
                    diagnostic: Some(diagnostic),
                    ..old(self)@
                }),
            },
    {
        if self.diagnostic.is_some() {
            Err(diagnostic)
        } else {
            self.diagnostic = Some(diagnostic);
            Ok(())
        }
    }

    /// The diagnostic snapshot, once it is there.
    pub fn diagnostic(&self) -> (r: Option<&D>)
        ensures
            seen(self@.diagnostic, r),
    {
        self.diagnostic.as_ref()
    }

    /// Attaches the handle on the chain state.
    pub fn set_blockchain(&mut self, blockchain: C)
        ensures
            final(self)@ == (ContextView { blockchain: Some(blockchain), ..old(self)@ }),
    {
        self.blockchain = Some(blockchain);
    }

    /// Detaches the handle on the chain state.
    pub fn clear_blockchain(&mut self)
        ensures
            final(self)@ == (ContextView { blockchain: None, ..old(self)@ }),
    {
        self.blockchain = None;
    }

    /// The handle on the chain state, once it is there.
    pub fn blockchain(&self) -> (r: Option<&C>)
        ensures
            seen(self@.blockchain, r),
    {
        self.blockchain.as_ref()
    }

    /// Attaches the handle on the chain tip.
    pub fn set_blockchain_tip(&mut self, blockchain_tip: T)
        ensures
            final(self)@ == (ContextView { blockchain_tip: Some(blockchain_tip), ..old(self)@ }),
    {
        self.blockchain_tip = Some(blockchain_tip);
    }

    /// Detaches the handle on the chain tip.
    pub fn clear_blockchain_tip(&mut self)
        ensures
            final(self)@ == (ContextView { blockchain_tip: None, ..old(self)@ }),
    {
        self.blockchain_tip = None;
    }

    /// The handle on the chain tip, once it is there.
    pub fn blockchain_tip(&self) -> (r: Option<&T>)
        ensures
            seen(self@.blockchain_tip, r),
    {
        self.blockchain_tip.as_ref()
    }

    /// Attaches the signal by which a running bootstrap can be stopped. It
    /// is taken only while the node is bootstrapping: at any other time the
    /// signal is handed back and the record stays as it is.
    pub fn set_bootstrap_stopper(&mut self, bootstrap_stopper: CancellationToken) -> (r: Result<
        (),
        CancellationToken,
    >)
        ensures
            old(self)@.node_state == LifecycleState::Bootstrapping ==> r is Ok && final(self)@ == (
            ContextView { bootstrap_stopper: Some(bootstrap_stopper), ..old(self)@ }),
            old(self)@.node_state != LifecycleState::Bootstrapping ==> r == Err::<
                (),
                CancellationToken,
            >(bootstrap_stopper) && final(self)@ == old(self)@,
            old(self)@.wf() ==> final(self)@.wf(),
    {
        match self.node_state {
            LifecycleState::Bootstrapping => {
                self.bootstrap_stopper = Some(bootstrap_stopper);
                Ok(())
            },
            _ => Err(bootstrap_stopper),
        }
    }

    /// Detaches the stop signal of the bootstrap without raising it.
    pub fn remove_bootstrap_stopper(&mut self)
        ensures
            final(self)@ == (ContextView { bootstrap_stopper: None, ..old(self)@ }),
            final(self)@.wf(),
    {
        self.bootstrap_stopper = None;
    }

    /// Whether a bootstrap that can be stopped is under way.
    pub fn has_bootstrap_stopper(&self) -> (b: bool)
        ensures
            b == (self@.bootstrap_stopper is Some),
    {
        self.bootstrap_stopper.is_some()
    }

    /// Stops the bootstrap that is under way: raises its stop signal and
    /// detaches it. The answer says whether there was one to stop.
    pub fn stop_bootstrap(&mut self) -> (stopped: bool)
        ensures
            stopped == (old(self)@.bootstrap_stopper is Some),
            final(self)@ == (ContextView { bootstrap_stopper: None, ..old(self)@ }),
            final(self)@.wf(),
    {
        match self.bootstrap_stopper.take() {
            Some(token) => {
                token.cancel();
                true
            },
            None => false,
        }
    }

    /// Attaches the bundle of handles into the running tasks. It is written
    /// once: a second bundle is handed back and the first one stays.
    pub fn set_full(&mut self, full: F) -> (r: Result<(), F>)
        ensures
            match old(self)@.full {
                Some(_) => r == Err::<(), F>(full) && final(self)@ == old(self)@,
                None => r is Ok && final(self)@ == (ContextView { full: Some(full), ..old(self)@ }),
            },
    {
        if self.full.is_some() {
            Err(full)
        } else {
            self.full = Some(full);
            Ok(())
        }
    }

    /// The bundle of handles into the running tasks, once it is there.
    pub fn try_full(&self) -> (r: Option<&F>)
        ensures
            seen(self@.full, r),
    {
        self.full.as_ref()
    }
}

/// Whatever phases are written, in whatever order, the phase of the record
/// never goes back; besides the phase only the stop signal of the bootstrap
/// can change, and only by being let go of; and a record in which the stop
/// signal is attached only while the node is bootstrapping stays so.
pub proof fn lemma_phase_never_goes_back<D, C, T, F>(
    before: ContextView<D, C, T, F>,
    writes: Seq<LifecycleState>,
)
    ensures
        before.node_state.precedes_or_is(before.advanced_through(writes).node_state),
        before.advanced_through(writes) == (ContextView {
            node_state: before.advanced_through(writes).node_state,
            bootstrap_stopper: before.advanced_through(writes).bootstrap_stopper,
            ..before
        }),
        before.advanced_through(writes).bootstrap_stopper is None
            || before.advanced_through(writes).bootstrap_stopper == before.bootstrap_stopper,
        before.wf() ==> before.advanced_through(writes).wf(),
    decreases writes.len(),
{
    if writes.len() > 0 {
        lemma_phase_never_goes_back(before, writes.drop_last());
    }
}

/// A reader that looks twice, with any writes in between, never sees an
/// earlier phase the second time.
pub proof fn lemma_readers_see_no_regression<D, C, T, F>(
    start: ContextView<D, C, T, F>,
    earlier: Seq<LifecycleState>,
    later: Seq<LifecycleState>,
)
    ensures
        start.advanced_through(earlier).node_state.precedes_or_is(
            start.advanced_through(earlier).advanced_through(later).node_state,
        ),
{
    lemma_phase_never_goes_back(start.advanced_through(earlier), later);
}

} // verus!
