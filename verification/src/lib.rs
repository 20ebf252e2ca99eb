//! Typed introspection of a ZFS-like storage manager's metadata.
//!
//! The core of the crate is a verified decoder that turns a generic,
//! self-describing attribute list (a "named-value list") into a
//! strongly-typed tree describing a storage pool's virtual-device
//! topology, together with the typed property query layer built on the
//! same attribute-list model.

pub mod decode;
pub mod error;
pub mod guid;
pub mod laws;
pub mod nvl;
pub mod state;
pub mod vdev;
pub mod zfs;
pub mod zpool;

pub use decode::enumerate_vdev_tree;
pub use error::LibZfsError;
pub use nvl::{NvList, NvPair, NvValue};
pub use vdev::VDev;
pub use zfs::Zfs;
pub use zpool::Zpool;
