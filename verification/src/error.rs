//! Errors that end a node, their exit codes and how they are reported.

use vstd::prelude::*;
use vstd::string::*;

verus! {

/// The kinds of failure that stop a node.
#[derive(Clone, Copy, Debug, PartialEq, Eq, Structural, Hash)]
pub enum ErrorKind {
    /// The log output could not be set up.
    Logging,
    /// The configuration cannot be used.
    Configuration,
    /// The system diagnostic could not be collected.
    Diagnostic,
    /// The storage could not be opened.
    Storage,
    /// The genesis block could not be obtained.
    Block0,
    /// The chain state could not be loaded.
    Blockchain,
    /// A leader identity could not be loaded.
    NodeSecrets,
    /// The chain index could not be rebuilt.
    ExplorerBootstrap,
    /// A stop was requested while the node was starting.
    Interrupted,
    /// A task ended with an error.
    ServiceTerminated,
}

impl ErrorKind {
    /// The exit code of the kind: never zero, and different for different kinds.
    pub open spec fn spec_code(self) -> int {
        match self {
            ErrorKind::Logging => 1,
            ErrorKind::Configuration => 2,
            ErrorKind::Diagnostic => 3,
            ErrorKind::Storage => 4,
            ErrorKind::Block0 => 5,
            ErrorKind::Blockchain => 6,
            ErrorKind::NodeSecrets => 7,
            ErrorKind::ExplorerBootstrap => 8,
            ErrorKind::Interrupted => 9,
            ErrorKind::ServiceTerminated => 10,
        }
    }

    /// The exit code of the kind.
    pub fn code(&self) -> (c: i32)
        ensures
            c as int == self.spec_code(),
            c != 0,
    {
        match self {
            ErrorKind::Logging => 1,
            ErrorKind::Configuration => 2,
            ErrorKind::Diagnostic => 3,
            ErrorKind::Storage => 4,
            ErrorKind::Block0 => 5,
            ErrorKind::Blockchain => 6,
            ErrorKind::NodeSecrets => 7,
            ErrorKind::ExplorerBootstrap => 8,
            ErrorKind::Interrupted => 9,
            ErrorKind::ServiceTerminated => 10,
        }
    }
}

/// Different kinds of error leave with different codes.
pub proof fn lemma_codes_tell_kinds_apart(a: ErrorKind, b: ErrorKind)
    requires
        a.spec_code() == b.spec_code(),
    ensures
        a == b,
{
}

/// The texts of a sequence of strings.
pub open spec fn texts(strings: Seq<String>) -> Seq<Seq<char>> {
    strings.map_values(|s: String| s@)
}

/// What is written in front of every underlying cause in a report.
pub open spec fn cause_prefix() -> Seq<char> {
    seq![' ', '|', '-', '>', ' ']
}

/// The lines of a report: the message, then every cause behind its prefix.
pub open spec fn report_of(message: Seq<char>, causes: Seq<Seq<char>>) -> Seq<Seq<char>> {
    seq![message] + causes.map_values(|c: Seq<char>| cause_prefix() + c)
}

/// An error that ends the node: what happened, and the chain of causes
/// underneath it, outermost first.
#[derive(Debug)]
pub struct Error {
    pub kind: ErrorKind,
    pub message: String,
    pub causes: Vec<String>,
}

/// An error as contracts speak of it.
pub struct ErrorView {
    pub kind: ErrorKind,
    pub message: Seq<char>,
    pub causes: Seq<Seq<char>>,
}

impl View for Error {
    type V = ErrorView;

    open spec fn view(&self) -> ErrorView {
        ErrorView { kind: self.kind, message: self.message@, causes: texts(self.causes@) }
    }
}

impl ErrorView {
    /// The error that wraps `self` as the reason for which a task ended.
    pub open spec fn wrapped(self, message: Seq<char>) -> ErrorView {
        ErrorView {
            kind: ErrorKind::ServiceTerminated,
            message: message,
            causes: seq![self.message] + self.causes,
        }
    }
}

impl Error {
    /// An error without underlying causes.
    pub fn new(kind: ErrorKind, message: &str) -> (e: Error)
        ensures
            e@ == (ErrorView { kind: kind, message: message@, causes: Seq::empty() }),
    {
        let e = Error { kind, message: String::from_str(message), causes: Vec::new() };
        assert(texts(e.causes@) =~= Seq::empty());
        e
    }

    /// The exit code of the process that ends with this error.
    pub fn code(&self) -> (c: i32)
        ensures
            c as int == self@.kind.spec_code(),
            c != 0,
    {
        self.kind.code()
    }

    /// Puts `cause` underneath everything this error already holds.
    pub fn caused_by(self, cause: &str) -> (e: Error)
        ensures
            e@ == (ErrorView { causes: self@.causes.push(cause@), ..self@ }),
    {
        let mut e = self;
        let ghost before = e.causes@;
        e.causes.push(String::from_str(cause));
        assert(texts(e.causes@) =~= texts(before).push(cause@));
        e
    }

    /// Wraps the error with which a task ended into the error that ends the
    /// node, keeping the whole chain of causes.
    pub fn service_terminated(message: &str, source: Error) -> (e: Error)
        ensures
            e@ == source@.wrapped(message@),
    {
        let Error { kind: _, message: inner, causes: inner_causes } = source;
        let ghost inner_text = inner@;
        let ghost inner_seq = inner_causes@;
        let mut causes: Vec<String> = Vec::new();
        causes.push(inner);
        let mut inner_causes = inner_causes;
        causes.append(&mut inner_causes);
        let e = Error {
            kind: ErrorKind::ServiceTerminated,
            message: String::from_str(message),
            causes,
        };
        assert(texts(e.causes@) =~= seq![inner_text] + texts(inner_seq));
        e
    }

    /// The lines to print when the process ends with this error.
    pub fn report_lines(&self) -> (lines: Vec<String>)
        ensures
            texts(lines@) == report_of(self@.message, self@.causes),
    {
        let mut lines: Vec<String> = Vec::new();
        lines.push(self.message.clone());
        let mut i: usize = 0;
        while i < self.causes.len()
            invariant
                i <= self.causes.len(),
                lines@.len() == i + 1,
                lines@[0]@ == self.message@,
                forall|k: int| 0 <= k < i ==> (#[trigger] lines@[k + 1])@ == cause_prefix() + self.causes@[k]@,
            decreases self.causes.len() - i,
        {
            let line = String::from_str(" |-> ").concat(self.causes[i].as_str());
            proof {
                reveal_strlit(" |-> ");
            }
            lines.push(line);
            i += 1;
        }
        proof {
            let target = report_of(self@.message, self@.causes);
            assert forall|k: int| 0 <= k < lines@.len() implies texts(lines@)[k] == target[k] by {
                if k > 0 {
                    assert(lines@[(k - 1) + 1]@ == cause_prefix() + self.causes@[k - 1]@);
                }
            }
        }
        lines
    }
}

/// The exit code of a process that ends with `outcome`: 0 for a node that
/// ended normally, and the code of the error for one that did not.
pub open spec fn exit_code_of(outcome: Result<(), Error>) -> int {
    match outcome {
        Ok(_) => 0,
        Err(e) => e@.kind.spec_code(),
    }
}

/// The exit code of a process that ends with `outcome`.
pub fn exit_code(outcome: &Result<(), Error>) -> (code: i32)
    ensures
        code as int == exit_code_of(*outcome),
        code == 0 <==> outcome is Ok,
{
    match outcome {
        Ok(_) => 0,
        Err(e) => e.code(),
    }
}

} // verus!
