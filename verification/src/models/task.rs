//! The state of an asynchronous task on the cluster.

use crate::text::str_eq;
use vstd::prelude::*;

verus! {

/// What the task-status endpoint reports about one task.
#[derive(Debug, PartialEq, Eq)]
pub struct TaskStatus {
    pub status: String,
    pub exitstatus: String,
    pub node: String,
    pub task_type: String,
}

/// A task status as plain values.
pub ghost struct TaskView {
    pub status: Seq<char>,
    pub exitstatus: Seq<char>,
    pub node: Seq<char>,
    pub task_type: Seq<char>,
}

impl TaskView {
    /// The task has not finished.
    pub open spec fn running(self) -> bool {
        self.status == "running"@
    }

    /// The task is not running and its exit indicator is exactly `OK`.
    pub open spec fn succeeded(self) -> bool {
        !self.running() && self.exitstatus == "OK"@
    }

    /// The task is not running and has any other exit indicator.
    pub open spec fn failed(self) -> bool {
        !self.running() && self.exitstatus != "OK"@
    }

    /// The exit indicator of a failed task, which is its error message.
    pub open spec fn failure(self) -> Option<Seq<char>> {
        if self.failed() {
            Some(self.exitstatus)
        } else {
            None
        }
    }
}

impl View for TaskStatus {
    type V = TaskView;

    open spec fn view(&self) -> TaskView {
        TaskView {
            status: self.status@,
            exitstatus: self.exitstatus@,
            node: self.node@,
            task_type: self.task_type@,
        }
    }
}

impl DeepView for TaskStatus {
    type V = TaskView;

    open spec fn deep_view(&self) -> TaskView {
        self@
    }
}

impl Clone for TaskStatus {
    fn clone(&self) -> (copy: Self)
        ensures
            copy == *self,
    {
        TaskStatus {
            status: self.status.clone(),
            exitstatus: self.exitstatus.clone(),
            node: self.node.clone(),
            task_type: self.task_type.clone(),
        }
    }
}

impl TaskStatus {
    /// Whether the task is still running.
    pub fn is_running(&self) -> (yes: bool)
        ensures
            yes == self@.running(),
    {
        str_eq(self.status.as_str(), "running")
    }

    /// Whether the task has finished with the exit indicator `OK`.
    pub fn is_success(&self) -> (yes: bool)
        ensures
            yes == self@.succeeded(),
    {
        !self.is_running() && str_eq(self.exitstatus.as_str(), "OK")
    }

    /// Whether the task has finished with any exit indicator other than `OK`.
    pub fn is_failed(&self) -> (yes: bool)
        ensures
            yes == self@.failed(),
    {
        !self.is_running() && !str_eq(self.exitstatus.as_str(), "OK")
    }

    /// The exit indicator of a failed task; `None` for a running or a
    /// successful one.
    pub fn error_message(&self) -> (message: Option<&str>)
        ensures
            match message {
                Some(text) => self@.failure() == Some(text@),
                None => self@.failure() is None,
            },
    {
        if self.is_failed() {
            Some(self.exitstatus.as_str())
        } else {
            None
        }
    }
}

/// A task is in exactly one of the states running, succeeded and failed. It
/// has succeeded exactly when it is not running and its exit indicator is
/// `OK`; a failed task's message is its exit indicator, letter for letter.
pub proof fn lemma_task_states(task: TaskView)
    ensures
        task.running() || task.succeeded() || task.failed(),
        !(task.running() && task.succeeded()),
        !(task.running() && task.failed()),
        !(task.succeeded() && task.failed()),
        task.succeeded() <==> (!task.running() && task.exitstatus == "OK"@),
        task.failed() <==> task.failure() == Some(task.exitstatus),
        task.failed() <==> task.failure() is Some,
{
}

} // verus!
