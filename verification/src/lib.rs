//! Host-side services for a compiled guest program: the decisions behind a
//! size-tracking allocator, the tagged values that cross the host/guest
//! boundary, and the classification of platform results.
//!
//! Nothing here touches raw memory or the platform. A host calls these
//! functions before and after it does so: to learn how many bytes to ask for
//! and where the header of a block goes, to encode what an operation
//! returned, and to settle the exit code of the process.

pub mod abi;
pub mod allocator;
pub mod hosted;
pub mod layout;
pub mod lifecycle;
pub mod roc_command;
pub mod roc_io_error;
pub mod roc_random;

pub use abi::{PathType, RocSingleTagWrapper, RocTry};
