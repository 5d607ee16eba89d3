//! The three-state life cycle of a task and its persisted encoding.

use vstd::prelude::*;

verus! {

/// Where a task stands. A task only ever moves forward through these states.
#[derive(Debug, Clone, Copy, PartialEq, Eq, Structural)]
pub enum TaskStatus {
    Pending,
    InProgress,
    Done,
}

impl TaskStatus {
    /// The status that a stored code stands for: 0 is pending, 1 is in progress,
    /// and every other code is done.
    pub open spec fn of_code(value: int) -> TaskStatus {
        if value == 0 {
            TaskStatus::Pending
        } else if value == 1 {
            TaskStatus::InProgress
        } else {
            TaskStatus::Done
        }
    }

    /// The code under which a status is stored.
    pub open spec fn code(self) -> int {
        match self {
            TaskStatus::Pending => 0,
            TaskStatus::InProgress => 1,
            TaskStatus::Done => 2,
        }
    }

    /// The word for a status in detailed output.
    pub open spec fn name(self) -> Seq<char> {
        match self {
            TaskStatus::Pending => "pending"@,
            TaskStatus::InProgress => "in_progress"@,
            TaskStatus::Done => "done"@,
        }
    }

    /// The one-character mark for a status in list output.
    pub open spec fn mark(self) -> Seq<char> {
        match self {
            TaskStatus::Pending => " "@,
            TaskStatus::InProgress => ">"@,
            TaskStatus::Done => "x"@,
        }
    }

    pub fn from_int(value: i32) -> (status: TaskStatus)
        ensures
            status == TaskStatus::of_code(value as int),
    {
        match value {
            0 => TaskStatus::Pending,
            1 => TaskStatus::InProgress,
            _ => TaskStatus::Done,
        }
    }

    pub fn to_int(self) -> (value: i32)
        ensures
            value as int == self.code(),
    {
        match self {
            TaskStatus::Pending => 0,
            TaskStatus::InProgress => 1,
            TaskStatus::Done => 2,
        }
    }

    pub fn as_str(self) -> (text: &'static str)
        ensures
            text@ == self.name(),
    {
        match self {
            TaskStatus::Pending => "pending",
            TaskStatus::InProgress => "in_progress",
            TaskStatus::Done => "done",
        }
    }

    pub fn marker(self) -> (text: &'static str)
        ensures
            text@ == self.mark(),
    {
        match self {
            TaskStatus::Pending => " ",
            TaskStatus::InProgress => ">",
            TaskStatus::Done => "x",
        }
    }
}

} // verus!
