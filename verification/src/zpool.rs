//! The pool query layer.
//!
//! A `Zpool` holds, as plain values, what the typed getters read from a
//! native pool handle: its name, state code, the integer and string
//! properties, and its configuration attribute list.  Every getter is
//! specified exactly over those values.

use vstd::prelude::*;

use crate::decode::{decode_result_model, enumerate_vdev_tree, spec_decode};
use crate::error::LibZfsError;
use crate::guid::{format_guid, spec_hex18};
use crate::nvl::{model_lookup_list, model_lookup_str, model_lookup_u64, NvEntry, NvList};
use crate::vdev::{VDev, VdevModel};

verus! {

/// Integer-valued pool properties, by enumerant.
#[derive(Clone, Copy, Debug, PartialEq, Eq, Structural)]
pub enum ZpoolIntProp {
    Guid,
    Size,
    ReadOnly,
}

/// String-valued pool properties, by enumerant.
#[derive(Clone, Copy, Debug, PartialEq, Eq, Structural)]
pub enum ZpoolStrProp {
    Health,
}

/// The name of a pool-state code, in the native numbering order.
pub open spec fn spec_pool_state_name(c: u64) -> Seq<char> {
    if c == 0 {
        "ACTIVE"@
    } else if c == 1 {
        "EXPORTED"@
    } else if c == 2 {
        "DESTROYED"@
    } else if c == 3 {
        "SPARE"@
    } else if c == 4 {
        "L2CACHE"@
    } else if c == 5 {
        "UNINITIALIZED"@
    } else if c == 6 {
        "UNAVAIL"@
    } else if c == 7 {
        "POTENTIALLY_ACTIVE"@
    } else {
        "UNKNOWN"@
    }
}

/// Maps a pool-state code to its name.
pub fn pool_state_name(c: u64) -> (r: String)
    ensures
        r@ == spec_pool_state_name(c),
{
    if c == 0 {
        String::from_str("ACTIVE")
    } else if c == 1 {
        String::from_str("EXPORTED")
    } else if c == 2 {
        String::from_str("DESTROYED")
    } else if c == 3 {
        String::from_str("SPARE")
    } else if c == 4 {
        String::from_str("L2CACHE")
    } else if c == 5 {
        String::from_str("UNINITIALIZED")
    } else if c == 6 {
        String::from_str("UNAVAIL")
    } else if c == 7 {
        String::from_str("POTENTIALLY_ACTIVE")
    } else {
        String::from_str("UNKNOWN")
    }
}

/// The decode of a pool configuration: its `vdev_tree` nested list,
/// decoded as a vdev node.
pub open spec fn spec_vdev_tree(config: Seq<NvEntry>) -> Result<VdevModel, LibZfsError> {
    match model_lookup_list(config, "vdev_tree"@) {
        Some(t) => spec_decode(t),
        None => Err(LibZfsError::NotFound),
    }
}

/// One storage pool, as read from its native handle.
#[derive(Debug, PartialEq)]
pub struct Zpool {
    pub name: String,
    pub state_code: u64,
    pub guid: u64,
    pub size: u64,
    pub read_only_raw: u64,
    pub health: String,
    pub config: NvList,
}

impl Zpool {
    /// An integer property, by enumerant.
    pub open spec fn spec_prop_int(&self, prop: ZpoolIntProp) -> u64 {
        match prop {
            ZpoolIntProp::Guid => self.guid,
            ZpoolIntProp::Size => self.size,
            ZpoolIntProp::ReadOnly => self.read_only_raw,
        }
    }

    /// A string property, by enumerant.
    pub open spec fn spec_prop_str(&self, prop: ZpoolStrProp) -> Seq<char> {
        match prop {
            ZpoolStrProp::Health => self.health@,
        }
    }

    /// The pool's name.
    pub fn name(&self) -> (r: String)
        ensures
            r@ == self.name@,
    {
        self.name.clone()
    }

    /// The pool's raw state code.
    pub fn state(&self) -> (r: u64)
        ensures
            r == self.state_code,
    {
        self.state_code
    }

    /// The name of the pool's state.
    pub fn state_name(&self) -> (r: String)
        ensures
            r@ == spec_pool_state_name(self.state_code),
    {
        pool_state_name(self.state_code)
    }

    /// Reads an integer property from the property table.
    pub fn prop_int(&self, prop: ZpoolIntProp) -> (r: u64)
        ensures
            r == self.spec_prop_int(prop),
    {
        match prop {
            ZpoolIntProp::Guid => self.guid,
            ZpoolIntProp::Size => self.size,
            ZpoolIntProp::ReadOnly => self.read_only_raw,
        }
    }

    /// Reads a string property from the property table.
    pub fn prop_str(&self, prop: ZpoolStrProp) -> (r: Result<String, LibZfsError>)
        ensures
            r is Ok,
            r->Ok_0@ == self.spec_prop_str(prop),
    {
        match prop {
            ZpoolStrProp::Health => Ok(self.health.clone()),
        }
    }

    /// The pool's health: the state name of its root vdev.
    pub fn health(&self) -> (r: Result<String, LibZfsError>)
        ensures
            r is Ok,
            r->Ok_0@ == self.health@,
    {
        self.prop_str(ZpoolStrProp::Health)
    }

    /// The hostname recorded in the pool's configuration.
    pub fn hostname(&self) -> (r: Result<String, LibZfsError>)
        ensures
            match r {
                Ok(s) => model_lookup_str(self.config@, "hostname"@) == Some(s@),
                Err(e) => e == LibZfsError::NotFound && model_lookup_str(
                    self.config@,
                    "hostname"@,
                ) is None,
            },
    {
        self.config.lookup_string("hostname")
    }

    /// The host id recorded in the pool's configuration.
    pub fn hostid(&self) -> (r: Result<u64, LibZfsError>)
        ensures
            match r {
                Ok(x) => model_lookup_u64(self.config@, "hostid"@) == Some(x),
                Err(e) => e == LibZfsError::NotFound && model_lookup_u64(
                    self.config@,
                    "hostid"@,
                ) is None,
            },
    {
        self.config.lookup_uint64("hostid")
    }

    /// The pool's raw guid.
    pub fn guid(&self) -> (r: u64)
        ensures
            r == self.guid,
    {
        self.prop_int(ZpoolIntProp::Guid)
    }

    /// The pool's guid in its 18-character `0x`-prefixed form.
    pub fn guid_hex(&self) -> (r: String)
        ensures
            r@ == spec_hex18(self.guid),
    {
        format_guid(self.guid())
    }

    /// The pool's size in bytes.
    pub fn size(&self) -> (r: u64)
        ensures
            r == self.size,
    {
        self.prop_int(ZpoolIntProp::Size)
    }

    /// Whether the pool is read-only.
    pub fn read_only(&self) -> (r: bool)
        ensures
            r == (self.read_only_raw != 0),
    {
        self.prop_int(ZpoolIntProp::ReadOnly) != 0
    }

    /// The pool's configuration, as a borrowed view tied to the pool.
    pub fn get_config(&self) -> (r: &NvList)
        ensures
            r == &self.config,
    {
        &self.config
    }

    /// Decodes the pool's vdev topology from its configuration.
    pub fn vdev_tree(&self) -> (r: Result<VDev, LibZfsError>)
        ensures
            decode_result_model(r) == spec_vdev_tree(self.config@),
    {
        let tree = match self.config.lookup_nv_list("vdev_tree") {
            Ok(t) => t,
            Err(e) => {
                return Err(e);
            },
        };
        enumerate_vdev_tree(tree)
    }
}

} // verus!
