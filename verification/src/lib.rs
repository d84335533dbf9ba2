//! An isolated key-value state that operations run against, that can be
//! captured in a snapshot and put back from one, and on which an operation can
//! be tried out without a trace.
//!
//! * [`sandbox`] holds the [`Sandbox`] and its operations, with the
//!   [`SandboxState`] that their contracts speak of.
//! * [`snapshot`] holds the [`Snapshot`], an owned capture of a keyspace.
//! * [`raw_storage`] holds the raw entries of a keyspace, the rule that tells
//!   live entries from tombstones, and the filter that applies it.
//! * [`laws`] holds what follows for every sandbox: dry runs leave no trace and
//!   nest, and a restored snapshot comes back when the sandbox is captured
//!   again.
//! * [`externalities`] holds the storage machinery underneath, and what is
//!   taken on trust about it.

pub mod externalities;
pub mod laws;
pub mod raw_storage;
pub mod sandbox;
pub mod snapshot;

pub use sandbox::{Sandbox, SandboxState};
pub use snapshot::Snapshot;
