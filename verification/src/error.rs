//! The failures that the connection layer reports.

use vstd::prelude::*;

verus! {

/// Why an operation on a manager, a handle or a path failed.
#[derive(Debug, Clone, PartialEq, Eq)]
pub enum ErrorKind {
    /// The write slot is checked out, or a sync handle is already active.
    ConnectionAlreadyOpen,
    /// A handle was returned to a manager that did not issue it.
    WrongManagerForClose,
    /// The path cannot be brought into an absolute, canonical form.
    IllegalPath(String),
    /// The schema on disk has a version that cannot be used or migrated.
    SchemaUpgradeError,
    /// The operation was cancelled through an interrupt handle.
    Interrupted,
    /// The storage engine reported a failure.
    SqlError(String),
    /// The file system reported a failure.
    IoError(String),
}

/// An [`ErrorKind`] as a mathematical value.
pub enum ErrorView {
    ConnectionAlreadyOpen,
    WrongManagerForClose,
    IllegalPath(Seq<char>),
    SchemaUpgradeError,
    Interrupted,
    SqlError(Seq<char>),
    IoError(Seq<char>),
}

impl View for ErrorKind {
    type V = ErrorView;

    open spec fn view(&self) -> ErrorView {
        match self {
            ErrorKind::ConnectionAlreadyOpen => ErrorView::ConnectionAlreadyOpen,
            ErrorKind::WrongManagerForClose => ErrorView::WrongManagerForClose,
            ErrorKind::IllegalPath(p) => ErrorView::IllegalPath(p@),
            ErrorKind::SchemaUpgradeError => ErrorView::SchemaUpgradeError,
            ErrorKind::Interrupted => ErrorView::Interrupted,
            ErrorKind::SqlError(m) => ErrorView::SqlError(m@),
            ErrorKind::IoError(m) => ErrorView::IoError(m@),
        }
    }
}

impl ErrorKind {
    /// Whether this failure asks for the one destructive recovery attempt.
    pub fn is_schema_upgrade_error(&self) -> (r: bool)
        ensures
            r == (self@ == ErrorView::SchemaUpgradeError),
    {
        match self {
            ErrorKind::SchemaUpgradeError => true,
            _ => false,
        }
    }
}

} // verus!
