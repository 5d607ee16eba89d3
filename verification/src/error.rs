//! What can go wrong in a store operation, by kind, with the text shown to
//! the user.

use vstd::prelude::*;
use vstd::string::*;
use crate::text::{decimal, decimal_string};

verus! {

/// The broad classes that every failure falls into.
#[derive(Debug, Clone, Copy, PartialEq, Eq, Structural)]
pub enum ErrorKind {
    /// A malformed identifier.
    Validation,
    /// The task or memory that the operation names does not exist.
    NotFound,
    /// The operation would break a rule between tasks or a status rule.
    Constraint,
    /// No free identifier was found within the retry bound.
    Exhaustion,
    /// The persisted store itself reported a failure.
    Storage,
}

/// A failed store operation.
#[derive(Debug, PartialEq, Eq)]
pub enum StoreError {
    /// The identifier is not six characters of `a-z0-9`.
    InvalidId { id: String },
    /// No task has this identifier.
    TaskNotFound { id: String },
    /// A listing was restricted to the children of a task that does not exist.
    ParentNotFound { id: String },
    /// No memory has this identifier.
    MemoryNotFound { id: String },
    /// A new task names a parent that does not exist.
    MissingParent { id: String },
    /// A new task names a dependency that does not exist.
    MissingDependency { id: String },
    /// The task was started before.
    AlreadyInProgress { id: String },
    /// The task is finished.
    AlreadyDone { id: String },
    /// The task depends on `id`, which exists and is not done.
    DependencyNotDone { id: String },
    /// `count` unfinished tasks depend on the task `id`.
    ActiveDependents { id: String, count: usize },
    /// `count` tasks have the task `id` as parent.
    HasChildren { id: String, count: usize },
    /// Every candidate identifier was taken.
    IdsExhausted,
    /// The persisted store failed; `message` is its own report.
    Storage { message: String },
}

/// A failure as a mathematical value: strings by their characters.
pub enum StoreErrorView {
    InvalidId { id: Seq<char> },
    TaskNotFound { id: Seq<char> },
    ParentNotFound { id: Seq<char> },
    MemoryNotFound { id: Seq<char> },
    MissingParent { id: Seq<char> },
    MissingDependency { id: Seq<char> },
    AlreadyInProgress { id: Seq<char> },
    AlreadyDone { id: Seq<char> },
    DependencyNotDone { id: Seq<char> },
    ActiveDependents { id: Seq<char>, count: nat },
    HasChildren { id: Seq<char>, count: nat },
    IdsExhausted,
    Storage { message: Seq<char> },
}

impl StoreErrorView {
    /// The class of a failure.
    pub open spec fn kind(self) -> ErrorKind {
        match self {
            StoreErrorView::InvalidId { .. } => ErrorKind::Validation,
            StoreErrorView::TaskNotFound { .. } => ErrorKind::NotFound,
            StoreErrorView::ParentNotFound { .. } => ErrorKind::NotFound,
            StoreErrorView::MemoryNotFound { .. } => ErrorKind::NotFound,
            StoreErrorView::MissingParent { .. } => ErrorKind::Constraint,
            StoreErrorView::MissingDependency { .. } => ErrorKind::Constraint,
            StoreErrorView::AlreadyInProgress { .. } => ErrorKind::Constraint,
            StoreErrorView::AlreadyDone { .. } => ErrorKind::Constraint,
            StoreErrorView::DependencyNotDone { .. } => ErrorKind::Constraint,
            StoreErrorView::ActiveDependents { .. } => ErrorKind::Constraint,
            StoreErrorView::HasChildren { .. } => ErrorKind::Constraint,
            StoreErrorView::IdsExhausted => ErrorKind::Exhaustion,
            StoreErrorView::Storage { .. } => ErrorKind::Storage,
        }
    }

    /// The text shown for a failure.
    pub open spec fn message(self) -> Seq<char> {
        match self {
            StoreErrorView::InvalidId { id } => "Invalid task ID '"@ + id
                + "'. Must be 6 characters [a-z0-9]."@,
            StoreErrorView::TaskNotFound { id } => "Task '"@ + id + "' not found."@,
            StoreErrorView::ParentNotFound { id } => "Parent task '"@ + id + "' not found."@,
            StoreErrorView::MemoryNotFound { id } => "Memory '"@ + id + "' not found."@,
            StoreErrorView::MissingParent { id } => "Parent task '"@ + id + "' not found."@,
            StoreErrorView::MissingDependency { id } => "Dependency task '"@ + id
                + "' not found."@,
            StoreErrorView::AlreadyInProgress { id } => "Task '"@ + id
                + "' is already in progress."@,
            StoreErrorView::AlreadyDone { id } => "Task '"@ + id + "' is already done."@,
            StoreErrorView::DependencyNotDone { id } => "Cannot complete: depends on '"@ + id
                + "' which is not done."@,
            StoreErrorView::ActiveDependents { id, count } => "Cannot remove: "@ + decimal(count)
                + " active task(s) depend on '"@ + id + "'."@,
            StoreErrorView::HasChildren { id, count } => "Cannot remove: "@ + decimal(count)
                + " task(s) have '"@ + id + "' as parent."@,
            StoreErrorView::IdsExhausted => "Failed to generate unique ID after 100 attempts"@,
            StoreErrorView::Storage { message } => message,
        }
    }
}

impl View for StoreError {
    type V = StoreErrorView;

    open spec fn view(&self) -> StoreErrorView {
        match *self {
            StoreError::InvalidId { id } => StoreErrorView::InvalidId { id: id@ },
            StoreError::TaskNotFound { id } => StoreErrorView::TaskNotFound { id: id@ },
            StoreError::ParentNotFound { id } => StoreErrorView::ParentNotFound { id: id@ },
            StoreError::MemoryNotFound { id } => StoreErrorView::MemoryNotFound { id: id@ },
            StoreError::MissingParent { id } => StoreErrorView::MissingParent { id: id@ },
            StoreError::MissingDependency { id } => StoreErrorView::MissingDependency { id: id@ },
            StoreError::AlreadyInProgress { id } => StoreErrorView::AlreadyInProgress { id: id@ },
            StoreError::AlreadyDone { id } => StoreErrorView::AlreadyDone { id: id@ },
            StoreError::DependencyNotDone { id } => StoreErrorView::DependencyNotDone { id: id@ },
            StoreError::ActiveDependents { id, count } => StoreErrorView::ActiveDependents {
                id: id@,
                count: count as nat,
            },
            StoreError::HasChildren { id, count } => StoreErrorView::HasChildren {
                id: id@,
                count: count as nat,
            },
            StoreError::IdsExhausted => StoreErrorView::IdsExhausted,
            StoreError::Storage { message } => StoreErrorView::Storage { message: message@ },
        }
    }
}

impl Clone for StoreError {
    fn clone(&self) -> (copy: StoreError)
        ensures
            copy == *self,
    {
        match self {
            StoreError::InvalidId { id } => StoreError::InvalidId { id: id.clone() },
            StoreError::TaskNotFound { id } => StoreError::TaskNotFound { id: id.clone() },
            StoreError::ParentNotFound { id } => StoreError::ParentNotFound { id: id.clone() },
            StoreError::MemoryNotFound { id } => StoreError::MemoryNotFound { id: id.clone() },
            StoreError::MissingParent { id } => StoreError::MissingParent { id: id.clone() },
            StoreError::MissingDependency { id } => StoreError::MissingDependency {
                id: id.clone(),
            },
            StoreError::AlreadyInProgress { id } => StoreError::AlreadyInProgress {
                id: id.clone(),
            },
            StoreError::AlreadyDone { id } => StoreError::AlreadyDone { id: id.clone() },
            StoreError::DependencyNotDone { id } => StoreError::DependencyNotDone {
                id: id.clone(),
            },
            StoreError::ActiveDependents { id, count } => StoreError::ActiveDependents {
                id: id.clone(),
                count: *count,
            },
            StoreError::HasChildren { id, count } => StoreError::HasChildren {
                id: id.clone(),
                count: *count,
            },
            StoreError::IdsExhausted => StoreError::IdsExhausted,
            StoreError::Storage { message } => StoreError::Storage { message: message.clone() },
        }
    }
}

/// `before`, then `id`, then `after`.
fn around(before: &str, id: &str, after: &str) -> (text: String)
    ensures
        text@ == before@ + id@ + after@,
{
    let mut text = String::from_str(before);
    text.append(id);
    text.append(after);
    text
}

/// `before`, the count in decimal, `middle`, `id`, `after`.
fn counted(before: &str, count: usize, middle: &str, id: &str, after: &str) -> (text: String)
    ensures
        text@ == before@ + decimal(count as nat) + middle@ + id@ + after@,
{
    let mut text = String::from_str(before);
    let number = decimal_string(count);
    text.append(number.as_str());
    text.append(middle);
    text.append(id);
    text.append(after);
    text
}

impl StoreError {
    /// The class of this failure.
    pub fn kind(&self) -> (kind: ErrorKind)
        ensures
            kind == self@.kind(),
    {
        match self {
            StoreError::InvalidId { .. } => ErrorKind::Validation,
            StoreError::TaskNotFound { .. } => ErrorKind::NotFound,
            StoreError::ParentNotFound { .. } => ErrorKind::NotFound,
            StoreError::MemoryNotFound { .. } => ErrorKind::NotFound,
            StoreError::MissingParent { .. } => ErrorKind::Constraint,
            StoreError::MissingDependency { .. } => ErrorKind::Constraint,
            StoreError::AlreadyInProgress { .. } => ErrorKind::Constraint,
            StoreError::AlreadyDone { .. } => ErrorKind::Constraint,
            StoreError::DependencyNotDone { .. } => ErrorKind::Constraint,
            StoreError::ActiveDependents { .. } => ErrorKind::Constraint,
            StoreError::HasChildren { .. } => ErrorKind::Constraint,
            StoreError::IdsExhausted => ErrorKind::Exhaustion,
            StoreError::Storage { .. } => ErrorKind::Storage,
        }
    }

    /// The text shown for this failure.
    pub fn message(&self) -> (text: String)
        ensures
            text@ == self@.message(),
    {
        match self {
            StoreError::InvalidId { id } => around(
                "Invalid task ID '",
                id.as_str(),
                "'. Must be 6 characters [a-z0-9].",
            ),
            StoreError::TaskNotFound { id } => around("Task '", id.as_str(), "' not found."),
            StoreError::ParentNotFound { id } => around(
                "Parent task '",
                id.as_str(),
                "' not found.",
            ),
            StoreError::MemoryNotFound { id } => around("Memory '", id.as_str(), "' not found."),
            StoreError::MissingParent { id } => around(
                "Parent task '",
                id.as_str(),
                "' not found.",
            ),
            StoreError::MissingDependency { id } => around(
                "Dependency task '",
                id.as_str(),
                "' not found.",
            ),
            StoreError::AlreadyInProgress { id } => around(
                "Task '",
                id.as_str(),
                "' is already in progress.",
            ),
            StoreError::AlreadyDone { id } => around("Task '", id.as_str(), "' is already done."),
            StoreError::DependencyNotDone { id } => around(
                "Cannot complete: depends on '",
                id.as_str(),
                "' which is not done.",
            ),
            StoreError::ActiveDependents { id, count } => counted(
                "Cannot remove: ",
                *count,
                " active task(s) depend on '",
                id.as_str(),
                "'.",
            ),
            StoreError::HasChildren { id, count } => counted(
                "Cannot remove: ",
                *count,
                " task(s) have '",
                id.as_str(),
                "' as parent.",
            ),
            StoreError::IdsExhausted => String::from_str(
                "Failed to generate unique ID after 100 attempts",
            ),
            StoreError::Storage { message } => message.clone(),
        }
    }
}

} // verus!
