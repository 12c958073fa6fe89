//! The standard fragment load scenarios of the load generator.
//!
//! A command says which load to put on a node; generating the fragments and
//! sending them is the caller's.

use vstd::prelude::*;

verus! {

/// The kinds of fragment that a load is made of.
#[derive(Clone, Copy, Debug, PartialEq, Eq, Structural)]
pub enum FragmentMix {
    /// Transactions only.
    TransactionsOnly,
    /// Every kind of fragment that the node takes.
    All,
}

/// Puts load on an endpoint with transactions only.
#[derive(Debug)]
pub struct TxOnly {
    /// Number of threads that send.
    pub count: usize,
    /// Address of the node, as in `127.0.0.1:8000`.
    pub endpoint: String,
    /// Milliseconds between two requests of a thread.
    pub pace: u64,
    /// Seconds for which the load lasts.
    pub duration: u64,
    /// Whether the outcome is measured against thresholds.
    pub measure: bool,
}

/// Puts load on an endpoint with all kinds of fragment.
#[derive(Debug)]
pub struct AllFragments {
    /// Number of threads that send.
    pub count: usize,
    /// Address of the node, as in `127.0.0.1:8000`.
    pub endpoint: String,
    /// Milliseconds between two requests of a thread.
    pub pace: u64,
    /// Seconds for which the load lasts.
    pub duration: u64,
    /// Whether the outcome is measured against thresholds.
    pub measure: bool,
}

/// The standard load scenarios.
#[derive(Debug)]
pub enum Standard {
    /// Put load on the endpoint using transaction fragments only.
    TxOnly(TxOnly),
    /// Put load on the endpoint using all supported fragment types.
    All(AllFragments),
}

/// A load to generate.
#[derive(Debug)]
pub struct Load {
    pub mix: FragmentMix,
    pub threads: usize,
    pub endpoint: String,
    pub pace: u64,
    pub duration: u64,
    pub measure: bool,
}

/// A load as contracts speak of it.
pub struct LoadView {
    pub mix: FragmentMix,
    pub threads: usize,
    pub endpoint: Seq<char>,
    pub pace: u64,
    pub duration: u64,
    pub measure: bool,
}

impl View for Load {
    type V = LoadView;

    open spec fn view(&self) -> LoadView {
        LoadView {
            mix: self.mix,
            threads: self.threads,
            endpoint: self.endpoint@,
            pace: self.pace,
            duration: self.duration,
            measure: self.measure,
        }
    }
}

impl TxOnly {
    /// The load that the command asks for.
    pub open spec fn load(self) -> LoadView {
        LoadView {
            mix: FragmentMix::TransactionsOnly,
            threads: self.count,
            endpoint: self.endpoint@,
            pace: self.pace,
            duration: self.duration,
            measure: self.measure,
        }
    }

    /// The load that the command asks for.
    pub fn exec(&self) -> (load: Load)
        ensures
            load@ == self.load(),
    {
        Load {
            mix: FragmentMix::TransactionsOnly,
            threads: self.count,
            endpoint: self.endpoint.clone(),
            pace: self.pace,
            duration: self.duration,
            measure: self.measure,
        }
    }
}

impl AllFragments {
    /// The load that the command asks for.
    pub open spec fn load(self) -> LoadView {
        LoadView {
            mix: FragmentMix::All,
            threads: self.count,
            endpoint: self.endpoint@,
            pace: self.pace,
            duration: self.duration,
            measure: self.measure,
        }
    }

    /// The load that the command asks for.
    pub fn exec(&self) -> (load: Load)
        ensures
            load@ == self.load(),
    {
        Load {
            mix: FragmentMix::All,
            threads: self.count,
            endpoint: self.endpoint.clone(),
            pace: self.pace,
            duration: self.duration,
            measure: self.measure,
        }
    }
}

impl Standard {
    /// The load that the scenario asks for.
    pub open spec fn load(self) -> LoadView {
        match self {
            Standard::TxOnly(command) => command.load(),
            Standard::All(command) => command.load(),
        }
    }

    /// The load that the scenario asks for.
    pub fn exec(&self) -> (load: Load)
        ensures
            load@ == self.load(),
    {
        match self {
            Standard::TxOnly(tx_only_command) => tx_only_command.exec(),
            Standard::All(all_command) => all_command.exec(),
        }
    }
}

} // verus!
