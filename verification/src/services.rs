//! The task supervisor: a registry of named tasks and of the order in which
//! they ended.
//!
//! Every task that ends posts its result once; the supervisor keeps the
//! results in the order of their arrival. Joining on the first task to end
//! is then reading the head of that record.

use vstd::prelude::*;
use vstd::string::*;
use crate::error::{Error, ErrorView};

verus! {

/// A task known to the supervisor.
#[derive(Debug)]
pub struct TaskRecord {
    pub name: String,
    /// Whether the task may end with an error.
    pub fallible: bool,
}

/// The end of one task: which one, and how.
#[derive(Debug)]
pub struct Completion {
    pub task: usize,
    pub result: Result<(), Error>,
}

/// How a task stands.
#[derive(Clone, Copy, Debug, PartialEq, Eq, Structural)]
pub enum TaskOutcome {
    Running,
    Finished,
    Failed,
}

/// A task as contracts speak of it.
pub struct TaskView {
    pub name: Seq<char>,
    pub fallible: bool,
}

/// The end of a task as contracts speak of it: `error` is `None` for a task
/// that ended normally.
pub struct CompletionView {
    pub task: nat,
    pub error: Option<ErrorView>,
}

/// The supervisor as contracts speak of it: the tasks in the order in which
/// they were spawned, and the ends of tasks in the order in which they were
/// posted.
pub struct ServicesView {
    pub tasks: Seq<TaskView>,
    pub completions: Seq<CompletionView>,
}

/// The error of a result, if it has one.
pub open spec fn error_of(result: Result<(), Error>) -> Option<ErrorView> {
    match result {
        Ok(_) => None,
        Err(e) => Some(e@),
    }
}

impl View for TaskRecord {
    type V = TaskView;

    open spec fn view(&self) -> TaskView {
        TaskView { name: self.name@, fallible: self.fallible }
    }
}

impl View for Completion {
    type V = CompletionView;

    open spec fn view(&self) -> CompletionView {
        CompletionView { task: self.task as nat, error: error_of(self.result) }
    }
}

impl ServicesView {
    /// Whether the end of task `id` has been posted.
    pub open spec fn has_ended(self, id: nat) -> bool {
        exists|k: int| 0 <= k < self.completions.len() && (#[trigger] self.completions[k]).task == id
    }

    /// Whether the supervisor takes the end of task `id`: the task exists, has
    /// not ended before, and only a fallible task ends with an error.
    pub open spec fn accepts(self, id: nat, failed: bool) -> bool {
        &&& id < self.tasks.len()
        &&& !self.has_ended(id)
        &&& failed ==> self.tasks[id as int].fallible
    }

    /// The registry after another task has been spawned.
    pub open spec fn spawned(self, name: Seq<char>, fallible: bool) -> ServicesView {
        ServicesView { tasks: self.tasks.push(TaskView { name, fallible }), ..self }
    }

    /// The registry after the end of task `id` has been posted.
    pub open spec fn completed(self, id: nat, error: Option<ErrorView>) -> ServicesView {
        if self.accepts(id, error is Some) {
            ServicesView {
                completions: self.completions.push(CompletionView { task: id, error }),
                ..self
            }
        } else {
            self
        }
    }

    /// The end of the task that ended first, if any task has ended.
    pub open spec fn first(self) -> Option<CompletionView> {
        if self.completions.len() > 0 {
            Some(self.completions[0])
        } else {
            None
        }
    }

    /// How task `id` stands.
    pub open spec fn outcome(self, id: nat) -> TaskOutcome {
        if exists|k: int|
            0 <= k < self.completions.len() && (#[trigger] self.completions[k]).task == id
                && self.completions[k].error is Some {
            TaskOutcome::Failed
        } else if self.has_ended(id) {
            TaskOutcome::Finished
        } else {
            TaskOutcome::Running
        }
    }

    /// Every posted end belongs to a spawned task, no task ended twice, and
    /// only fallible tasks ended with an error.
    pub open spec fn wf(self) -> bool {
        &&& forall|k: int|
            0 <= k < self.completions.len() ==> (#[trigger] self.completions[k]).task
                < self.tasks.len()
        &&& forall|k: int|
            0 <= k < self.completions.len() && (#[trigger] self.completions[k]).error is Some
                ==> self.tasks[self.completions[k].task as int].fallible
        &&& forall|j: int, k: int|
            0 <= j < k < self.completions.len() ==> (#[trigger] self.completions[j]).task != (
            #[trigger] self.completions[k]).task
    }
}

/// The task supervisor.
pub struct Services {
    tasks: Vec<TaskRecord>,
    completions: Vec<Completion>,
}

impl View for Services {
    type V = ServicesView;

    closed spec fn view(&self) -> ServicesView {
        ServicesView {
            tasks: self.tasks@.map_values(|t: TaskRecord| t@),
            completions: self.completions@.map_values(|c: Completion| c@),
        }
    }
}

impl Services {
    /// A supervisor without tasks.
    pub fn new() -> (s: Services)
        ensures
            s@.tasks.len() == 0,
            s@.completions.len() == 0,
            s@.wf(),
    {
        Services { tasks: Vec::new(), completions: Vec::new() }
    }

    fn register(&mut self, name: &str, fallible: bool) -> (id: usize)
        ensures
            final(self)@ == old(self)@.spawned(name@, fallible),
            id == old(self)@.tasks.len(),
            old(self)@.wf() ==> final(self)@.wf(),
    {
        let id = self.tasks.len();
        self.tasks.push(TaskRecord { name: String::from_str(name), fallible });
        assert(self@.tasks =~= old(self)@.tasks.push(TaskView { name: name@, fallible }));
        id
    }

    /// Registers a task that can only end normally, and returns the number
    /// under which the supervisor knows it.
    pub fn spawn(&mut self, name: &str) -> (id: usize)
        ensures
            final(self)@ == old(self)@.spawned(name@, false),
            id == old(self)@.tasks.len(),
            old(self)@.wf() ==> final(self)@.wf(),
    {
        self.register(name, false)
    }

    /// Registers a task that ends normally or with an error, and returns the
    /// number under which the supervisor knows it.
    pub fn spawn_fallible(&mut self, name: &str) -> (id: usize)
        ensures
            final(self)@ == old(self)@.spawned(name@, true),
            id == old(self)@.tasks.len(),
            old(self)@.wf() ==> final(self)@.wf(),
    {
        self.register(name, true)
    }

    /// Runs a one-off computation under a task name and hands its result
    /// back. The registry is not touched: the computation is no task.
    pub fn run_to_completion<R, F: FnOnce(&str) -> R>(&self, name: &str, computation: F) -> (r: R)
        requires
            computation.requires((name,)),
        ensures
            computation.ensures((name,), r),
    {
        computation(name)
    }

    /// Number of tasks spawned so far.
    pub fn task_count(&self) -> (n: usize)
        ensures
            n == self@.tasks.len(),
    {
        self.tasks.len()
    }

    /// The record of task `id`, if there is such a task.
    pub fn task(&self, id: usize) -> (r: Option<&TaskRecord>)
        ensures
            match r {
                Some(t) => id < self@.tasks.len() && t@ == self@.tasks[id as int],
                None => id >= self@.tasks.len(),
            },
    {
        if id < self.tasks.len() {
            Some(&self.tasks[id])
        } else {
            None
        }
    }

    fn position_of(&self, id: usize) -> (r: Option<usize>)
        ensures
            match r {
                Some(k) => k < self@.completions.len() && self@.completions[k as int].task == id,
                None => !self@.has_ended(id as nat),
            },
    {
        let mut k: usize = 0;
        while k < self.completions.len()
            invariant
                k <= self.completions.len(),
                forall|j: int| 0 <= j < k ==> (#[trigger] self@.completions[j]).task != id,
            decreases self.completions.len() - k,
        {
            if self.completions[k].task == id {
                return Some(k);
            }
            k += 1;
        }
        None
    }

    /// Posts the end of task `id`. The answer says whether the supervisor took
    /// it; what it does not take changes nothing.
    pub fn complete(&mut self, id: usize, result: Result<(), Error>) -> (taken: bool)
        ensures
            taken == old(self)@.accepts(id as nat, result is Err),
            final(self)@ == old(self)@.completed(id as nat, error_of(result)),
            old(self)@.wf() ==> final(self)@.wf(),
    {
        if id >= self.tasks.len() {
            return false;
        }
        if result.is_err() && !self.tasks[id].fallible {
            return false;
        }
        if self.position_of(id).is_some() {
            return false;
        }
        let ghost before = self@;
        self.completions.push(Completion { task: id, result });
        proof {
            let entry = CompletionView { task: id as nat, error: error_of(result) };
            assert(self@.completions =~= before.completions.push(entry));
            if before.wf() {
                lemma_wf_is_kept(before, Seq::empty(), false, id as nat, error_of(result));
            }
        }
        true
    }

    /// The end of the task that ended first, or `None` while every task is
    /// still running.
    pub fn join_first(&self) -> (r: Option<&Completion>)
        ensures
            match r {
                Some(c) => self@.first() == Some(c@),
                None => self@.first() is None,
            },
    {
        if self.completions.len() > 0 {
            Some(&self.completions[0])
        } else {
            None
        }
    }

    /// How task `id` stands. A number that names no task is answered with
    /// `None`.
    pub fn outcome(&self, id: usize) -> (r: Option<TaskOutcome>)
        requires
            self@.wf(),
        ensures
            match r {
                Some(o) => id < self@.tasks.len() && o == self@.outcome(id as nat),
                None => id >= self@.tasks.len(),
            },
    {
        if id >= self.tasks.len() {
            return None;
        }
        match self.position_of(id) {
            None => Some(TaskOutcome::Running),
            Some(k) => {
                if self.completions[k].result.is_err() {
                    Some(TaskOutcome::Failed)
                } else {
                    Some(TaskOutcome::Finished)
                }
            },
        }
    }
}

/// Once a task has ended, the supervisor has its first end, and nothing that
/// is posted later changes which one that is.
pub proof fn lemma_first_end_is_kept(
    s: ServicesView,
    id: nat,
    error: Option<ErrorView>,
)
    requires
        s.first() is Some,
    ensures
        s.completed(id, error).first() == s.first(),
{
}

/// While every task is running, the task that ends is the one that the join
/// reports, with the error it ended with, whatever the other tasks do.
pub proof fn lemma_first_to_end_wins(s: ServicesView, id: nat, error: Option<ErrorView>)
    requires
        s.completions.len() == 0,
        id < s.tasks.len(),
        error is Some ==> s.tasks[id as int].fallible,
    ensures
        s.completed(id, error).first() == Some(CompletionView { task: id, error }),
        forall|other: nat, later: Option<ErrorView>|
            (#[trigger] s.completed(id, error).completed(other, later)).first() == Some(
                CompletionView { task: id, error },
            ),
{
}

/// Spawning and posting keep the registry well formed.
pub proof fn lemma_wf_is_kept(s: ServicesView, name: Seq<char>, fallible: bool, id: nat, error: Option<ErrorView>)
    requires
        s.wf(),
    ensures
        s.spawned(name, fallible).wf(),
        s.completed(id, error).wf(),
{
}

} // verus!
