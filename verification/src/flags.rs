//! The flags with which the storage engine opens a connection.

use crate::db::ConnectionType;
use rusqlite::OpenFlags;
use vstd::prelude::*;

verus! {

/// `rusqlite::OpenFlags`, carried through as a value of which only
/// [`flags_in`] speaks.
#[verifier::external_type_specification]
#[verifier::external_body]
pub struct ExOpenFlags(OpenFlags);

/// One flag for opening a connection.
#[derive(Debug, Clone, Copy, PartialEq, Eq, Structural)]
pub enum OpenFlag {
    /// The database is opened for reading only, and must exist.
    ReadOnly,
    /// The database is opened for reading and writing, and must exist unless
    /// it may be created.
    ReadWrite,
    /// The database is created if it does not exist.
    Create,
    /// The name of the database may be a URI.
    Uri,
    /// The connection does without its own mutex.
    NoMutex,
}

/// Which of the flags above `flags` holds.
pub uninterp spec fn flags_in(flags: OpenFlags) -> Set<OpenFlag>;

/// Takes the constant `SQLITE_OPEN_READ_ONLY` of `rusqlite::OpenFlags`: the
/// value that holds this flag and no other.
#[verifier::external_body]
fn read_only() -> (r: OpenFlags)
    ensures
        flags_in(r) == set![OpenFlag::ReadOnly],
{
    OpenFlags::SQLITE_OPEN_READ_ONLY
}

/// Takes the constant `SQLITE_OPEN_READ_WRITE` of `rusqlite::OpenFlags`: the
/// value that holds this flag and no other.
#[verifier::external_body]
fn read_write() -> (r: OpenFlags)
    ensures
        flags_in(r) == set![OpenFlag::ReadWrite],
{
    OpenFlags::SQLITE_OPEN_READ_WRITE
}

/// Takes the constant `SQLITE_OPEN_CREATE` of `rusqlite::OpenFlags`: the
/// value that holds this flag and no other.
#[verifier::external_body]
fn create() -> (r: OpenFlags)
    ensures
        flags_in(r) == set![OpenFlag::Create],
{
    OpenFlags::SQLITE_OPEN_CREATE
}

/// Takes the constant `SQLITE_OPEN_URI` of `rusqlite::OpenFlags`: the value
/// that holds this flag and no other.
#[verifier::external_body]
fn uri() -> (r: OpenFlags)
    ensures
        flags_in(r) == set![OpenFlag::Uri],
{
    OpenFlags::SQLITE_OPEN_URI
}

/// Takes the constant `SQLITE_OPEN_NO_MUTEX` of `rusqlite::OpenFlags`: the
/// value that holds this flag and no other.
#[verifier::external_body]
fn no_mutex() -> (r: OpenFlags)
    ensures
        flags_in(r) == set![OpenFlag::NoMutex],
{
    OpenFlags::SQLITE_OPEN_NO_MUTEX
}

/// Calls the `|` of `rusqlite::OpenFlags`: the value that holds the flags of
/// both.
#[verifier::external_body]
fn union(a: OpenFlags, b: OpenFlags) -> (r: OpenFlags)
    ensures
        flags_in(r) == flags_in(a).union(flags_in(b)),
{
    a | b
}

impl ConnectionType {
    /// The flags for a connection of this kind. Every kind takes URIs and
    /// does without a mutex; only the read-write kind may create the
    /// database.
    pub open spec fn flags(self) -> Set<OpenFlag> {
        match self {
            ConnectionType::ReadOnly => set![OpenFlag::NoMutex, OpenFlag::Uri, OpenFlag::ReadOnly],
            ConnectionType::ReadWrite => set![
                OpenFlag::NoMutex,
                OpenFlag::Uri,
                OpenFlag::Create,
                OpenFlag::ReadWrite,
            ],
            ConnectionType::Sync => set![OpenFlag::NoMutex, OpenFlag::Uri, OpenFlag::ReadWrite],
        }
    }

    /// The flags with which a connection of this kind is opened.
    pub fn rusqlite_flags(self) -> (r: OpenFlags)
        ensures
            flags_in(r) == self.flags(),
    {
        let common_flags = union(no_mutex(), uri());
        match self {
            ConnectionType::ReadOnly => union(common_flags, read_only()),
            ConnectionType::ReadWrite => union(union(common_flags, create()), read_write()),
            ConnectionType::Sync => union(common_flags, read_write()),
        }
    }
}

impl crate::suggest::ConnectionType {
    /// The flags for a connection of this kind to a suggestions database.
    /// Both kinds take URIs; only the writing one may create the database.
    pub open spec fn flags(self) -> Set<OpenFlag> {
        match self {
            crate::suggest::ConnectionType::ReadOnly => set![OpenFlag::Uri, OpenFlag::ReadOnly],
            crate::suggest::ConnectionType::ReadWrite => set![
                OpenFlag::Uri,
                OpenFlag::Create,
                OpenFlag::ReadWrite,
            ],
        }
    }

    /// The flags with which a connection of this kind is opened.
    pub fn open_flags(self) -> (r: OpenFlags)
        ensures
            flags_in(r) == self.flags(),
    {
        match self {
            crate::suggest::ConnectionType::ReadOnly => union(
                uri(),
                read_only(),
            ),
            crate::suggest::ConnectionType::ReadWrite => union(
                union(uri(), create()),
                read_write(),
            ),
        }
    }
}

} // verus!
