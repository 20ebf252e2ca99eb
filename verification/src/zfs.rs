//! The dataset query layer.
//!
//! A `Zfs` holds, as plain values, what the typed getters read from a
//! native dataset handle: its name, the name of its type, its property
//! table and its user-property table, each an attribute list whose
//! entries are nested lists carrying the property value under the
//! `value` key.

use vstd::prelude::*;

use crate::nvl::{model_lookup_list, model_lookup_str, model_lookup_u64, NvEntry, NvList};
use crate::vdev::opt_str_model;

verus! {

/// The string value of a property: the nested list stored under the
/// property's name, read at its `value` key.
pub open spec fn spec_string_prop(props: Seq<NvEntry>, name: Seq<char>) -> Option<Seq<char>> {
    match model_lookup_list(props, name) {
        Some(p) => model_lookup_str(p, "value"@),
        None => None,
    }
}

/// The integer value of a property, read the same way.
pub open spec fn spec_uint64_prop(props: Seq<NvEntry>, name: Seq<char>) -> Option<u64> {
    match model_lookup_list(props, name) {
        Some(p) => model_lookup_u64(p, "value"@),
        None => None,
    }
}

/// One dataset (filesystem or volume), as read from its native handle.
#[derive(Debug, PartialEq)]
pub struct Zfs {
    pub name: String,
    pub kind_name: String,
    pub props: NvList,
    pub user_props: NvList,
}

impl Zfs {
    /// The dataset's name.
    pub fn name(&self) -> (r: String)
        ensures
            r@ == self.name@,
    {
        self.name.clone()
    }

    /// The name of the dataset's type, such as `filesystem`.
    pub fn zfs_type_name(&self) -> (r: String)
        ensures
            r@ == self.kind_name@,
    {
        self.kind_name.clone()
    }

    /// The dataset's property table, as a borrowed view.
    pub fn props(&self) -> (r: &NvList)
        ensures
            r == &self.props,
    {
        &self.props
    }

    /// The dataset's user-property table, as a borrowed view.
    pub fn user_props(&self) -> (r: &NvList)
        ensures
            r == &self.user_props,
    {
        &self.user_props
    }

    /// The string value of the named property, or `None` when the
    /// property is absent or not a string.
    pub fn lookup_string_prop(&self, name: &str) -> (r: Option<String>)
        ensures
            opt_str_model(r) == spec_string_prop(self.props@, name@),
    {
        match self.props.lookup_nv_list(name) {
            Ok(p) => match p.lookup_string("value") {
                Ok(s) => Some(s),
                Err(_) => None,
            },
            Err(_) => None,
        }
    }

    /// The integer value of the named property, or `None` when the
    /// property is absent or not an integer.
    pub fn lookup_uint64_prop(&self, name: &str) -> (r: Option<u64>)
        ensures
            r == spec_uint64_prop(self.props@, name@),
    {
        match self.props.lookup_nv_list(name) {
            Ok(p) => match p.lookup_uint64("value") {
                Ok(x) => Some(x),
                Err(_) => None,
            },
            Err(_) => None,
        }
    }
}

} // verus!
