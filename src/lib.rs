//! A storage back-end overlay that checks, before each operation, that the
//! acting user holds the permission that the operation needs, and only then
//! hands the operation on to the wrapped back-end.

pub mod permissions;
pub mod policy;
pub mod restrict;

pub use permissions::{UserWithPermissions, VfsOperations};
pub use policy::{Operation, is_permitted};
pub use restrict::RestrictingVfs;
