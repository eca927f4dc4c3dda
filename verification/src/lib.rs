//! Stores that share one embedded database across the threads of an
//! application and across a synchronization subsystem.
//!
//! The library holds the rules, as state that is changed step by step and
//! never behind the caller's back. Talking to the storage engine, to the
//! file system and to the remote service is left to the caller: where such
//! work is needed, the library says which, and takes the outcome.
//!
//! The connection layer:
//! - [`db`]: the manager of one database, which hands out one writer, one
//!   syncer and any number of readers;
//! - [`registry`]: the managers of a process, at most one per database;
//! - [`paths`]: the names of databases and their canonical form;
//! - [`flags`]: the flags with which the engine opens a connection;
//! - [`interrupt`]: cancellation of the operation that runs on a handle;
//! - [`arena`]: shared ownership with strong and weak references, on which
//!   the registries rest;
//! - [`error`]: the failures of this layer.
//!
//! Syncing:
//! - [`sync_manager`]: the slot in which a store offers itself to the sync
//!   manager;
//! - [`orchestrator`]: one run of several engines against the remote
//!   service, and what the application is told of it.
//!
//! The stores:
//! - [`logins`], [`tabs`], [`suggest`], [`webext_storage`]: one store per
//!   kind of data;
//! - [`hosts`]: hosts of origins, for looking up logins by domain;
//! - [`records`]: records of other kinds of data.
//!
//! Beside them:
//! - [`remote_tab`]: the command that closes a tab on another device;
//! - [`contentsignature`], [`pkixc`]: reading and checking the material of a
//!   content signature.

pub mod arena;
pub mod contentsignature;
pub mod db;
pub mod error;
pub mod flags;
pub mod hosts;
pub mod interrupt;
pub mod logins;
pub mod orchestrator;
pub mod paths;
pub mod pkixc;
pub mod records;
pub mod registry;
pub mod remote_tab;
pub mod suggest;
pub mod sync_manager;
pub mod tabs;
pub mod webext_storage;
