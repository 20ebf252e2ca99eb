//! The recursive vdev-tree decoder.
//!
//! `enumerate_vdev_tree` maps one attribute-list node to one typed vdev
//! variant, dispatching on the node's `type` tag and recursing into the
//! nested-list arrays of container variants.  Any missing required
//! field, type mismatch, out-of-range status code or unrecognized tag
//! aborts the decode of the whole tree: there is no partial result.

use vstd::prelude::*;

use crate::error::LibZfsError;
use crate::guid::{format_guid, spec_hex18};
use crate::nvl::{
    lemma_lists_model,
    lemma_lookup_list_arr_decreases,
    lists_model,
    model_lookup_list_arr,
    model_lookup_str,
    model_lookup_u64,
    model_lookup_u64_arr,
    NvEntry,
    NvList,
};
use crate::state::{
    aux_from_code,
    spec_aux_from_code,
    spec_state_from_code,
    spec_state_name,
    state_from_code,
    state_name,
};
use crate::vdev::{lemma_vdevs_model, opt_str_model, vdevs_model, VDev, VdevModel};

verus! {

/// An optional boolean field: a stored integer read as equality with 1,
/// absent or mismatched giving `None`.
pub open spec fn spec_opt_flag(m: Seq<NvEntry>, key: Seq<char>) -> Option<bool> {
    match model_lookup_u64(m, key) {
        Some(x) => Some(x == 1),
        None => None,
    }
}

/// An optional guid field, rendered in its `0x`-prefixed form.
pub open spec fn spec_guid(m: Seq<NvEntry>) -> Option<Seq<char>> {
    match model_lookup_u64(m, "guid"@) {
        Some(x) => Some(spec_hex18(x)),
        None => None,
    }
}

/// The derived state name of a leaf node: the primary and auxiliary
/// status codes are read from the packed statistics array and combined;
/// a missing or short array is `NotFound`, a code outside its domain is
/// `InvalidState`.
pub open spec fn spec_state(m: Seq<NvEntry>) -> Result<Seq<char>, LibZfsError> {
    match model_lookup_u64_arr(m, "vdev_stats"@) {
        Some(a) => if a.len() < 3 {
            Err(LibZfsError::NotFound)
        } else {
            match (spec_state_from_code(a[1]), spec_aux_from_code(a[2])) {
                (Some(s), Some(x)) => Ok(spec_state_name(s, x)),
                _ => Err(LibZfsError::InvalidState),
            }
        },
        None => Err(LibZfsError::NotFound),
    }
}

/// The decode of a `disk` node: `path` and the derived state are
/// mandatory, every other field is optional.
pub open spec fn spec_decode_disk(m: Seq<NvEntry>) -> Result<VdevModel, LibZfsError> {
    match model_lookup_str(m, "path"@) {
        Some(p) => match spec_state(m) {
            Ok(st) => Ok(
                VdevModel::Disk {
                    guid: spec_guid(m),
                    state: st,
                    path: p,
                    dev_id: model_lookup_str(m, "dev_id"@),
                    phys_path: model_lookup_str(m, "phys_path"@),
                    whole_disk: spec_opt_flag(m, "whole_disk"@),
                    is_log: spec_opt_flag(m, "is_log"@),
                },
            ),
            Err(e) => Err(e),
        },
        None => Err(LibZfsError::NotFound),
    }
}

/// The decode of a `file` node: `path` and the derived state are
/// mandatory, guid and the log flag optional.
pub open spec fn spec_decode_file(m: Seq<NvEntry>) -> Result<VdevModel, LibZfsError> {
    match model_lookup_str(m, "path"@) {
        Some(p) => match spec_state(m) {
            Ok(st) => Ok(
                VdevModel::File {
                    guid: spec_guid(m),
                    state: st,
                    path: p,
                    is_log: spec_opt_flag(m, "is_log"@),
                },
            ),
            Err(e) => Err(e),
        },
        None => Err(LibZfsError::NotFound),
    }
}

/// The decode of one node, dispatching on its `type` tag.
pub open spec fn spec_decode(m: Seq<NvEntry>) -> Result<VdevModel, LibZfsError>
    decreases m,
    via spec_decode_dec
{
    match model_lookup_str(m, "type"@) {
        Some(t) => if t == "disk"@ {
            spec_decode_disk(m)
        } else if t == "file"@ {
            spec_decode_file(m)
        } else if t == "mirror"@ {
            match model_lookup_list_arr(m, "children"@) {
                Some(cs) => match spec_decode_seq(cs) {
                    Ok(ch) => Ok(
                        VdevModel::Mirror { children: ch, is_log: spec_opt_flag(m, "is_log"@) },
                    ),
                    Err(e) => Err(e),
                },
                None => Err(LibZfsError::NotFound),
            }
        } else if t == "raidz"@ {
            match model_lookup_list_arr(m, "children"@) {
                Some(cs) => match spec_decode_seq(cs) {
                    Ok(ch) => Ok(VdevModel::RaidZ { children: ch }),
                    Err(e) => Err(e),
                },
                None => Err(LibZfsError::NotFound),
            }
        } else if t == "replacing"@ {
            match model_lookup_list_arr(m, "children"@) {
                Some(cs) => match spec_decode_seq(cs) {
                    Ok(ch) => Ok(VdevModel::Replacing { children: ch }),
                    Err(e) => Err(e),
                },
                None => Err(LibZfsError::NotFound),
            }
        } else if t == "root"@ {
            match model_lookup_list_arr(m, "children"@) {
                Some(cs) => match spec_decode_seq(cs) {
                    Ok(ch) => {
                        let sp = match model_lookup_list_arr(m, "spares"@) {
                            Some(ss) => spec_decode_seq(ss),
                            None => Ok(Seq::<VdevModel>::empty()),
                        };
                        match sp {
                            Ok(spares) => {
                                let ca = match model_lookup_list_arr(m, "l2cache"@) {
                                    Some(ls) => spec_decode_seq(ls),
                                    None => Ok(Seq::<VdevModel>::empty()),
                                };
                                match ca {
                                    Ok(cache) => Ok(
                                        VdevModel::Root { children: ch, spares, cache },
                                    ),
                                    Err(e) => Err(e),
                                }
                            },
                            Err(e) => Err(e),
                        }
                    },
                    Err(e) => Err(e),
                },
                None => Err(LibZfsError::NotFound),
            }
        } else {
            Err(LibZfsError::UnknownVdevType)
        },
        None => Err(LibZfsError::UnknownVdevType),
    }
}

/// The decode of an array of nodes, in source order, aborting at the
/// first failure.
pub open spec fn spec_decode_seq(cs: Seq<Seq<NvEntry>>) -> Result<Seq<VdevModel>, LibZfsError>
    decreases cs,
{
    if cs.len() == 0 {
        Ok(Seq::empty())
    } else {
        match spec_decode(cs[0]) {
            Ok(v) => match spec_decode_seq(cs.drop_first()) {
                Ok(rest) => Ok(seq![v] + rest),
                Err(e) => Err(e),
            },
            Err(e) => Err(e),
        }
    }
}

#[via_fn]
proof fn spec_decode_dec(m: Seq<NvEntry>) {
    if model_lookup_list_arr(m, "children"@) is Some {
        lemma_lookup_list_arr_decreases(m, "children"@);
    }
    if model_lookup_list_arr(m, "spares"@) is Some {
        lemma_lookup_list_arr_decreases(m, "spares"@);
    }
    if model_lookup_list_arr(m, "l2cache"@) is Some {
        lemma_lookup_list_arr_decreases(m, "l2cache"@);
    }
}

/// The model of a decode result.
pub open spec fn decode_result_model(r: Result<VDev, LibZfsError>) -> Result<
    VdevModel,
    LibZfsError,
> {
    match r {
        Ok(v) => Ok(v@),
        Err(e) => Err(e),
    }
}

/// The model of an array-decode result.
pub open spec fn decode_seq_result_model(r: Result<Vec<VDev>, LibZfsError>) -> Result<
    Seq<VdevModel>,
    LibZfsError,
> {
    match r {
        Ok(v) => Ok(vdevs_model(v@)),
        Err(e) => Err(e),
    }
}

/// When every node of an array decodes, the array decodes to exactly
/// those nodes, in source order.
pub proof fn lemma_spec_decode_seq_ok(cs: Seq<Seq<NvEntry>>, vs: Seq<VdevModel>)
    requires
        cs.len() == vs.len(),
        forall|j: int|
            0 <= j < cs.len() ==> spec_decode(cs[j]) == Ok::<VdevModel, LibZfsError>(vs[j]),
    ensures
        spec_decode_seq(cs) == Ok::<Seq<VdevModel>, LibZfsError>(vs),
    decreases cs.len(),
{
    if cs.len() == 0 {
        assert(vs =~= Seq::<VdevModel>::empty());
    } else {
        assert(forall|j: int|
            0 <= j < cs.drop_first().len() ==> cs.drop_first()[j] == cs[j + 1] && vs.drop_first()[j]
                == vs[j + 1]);
        lemma_spec_decode_seq_ok(cs.drop_first(), vs.drop_first());
        assert(seq![vs[0]] + vs.drop_first() =~= vs);
    }
}

/// Fail-fast: the first failing node of an array aborts the whole array
/// decode with its error, and no partial result is produced.
pub proof fn lemma_spec_decode_seq_err(cs: Seq<Seq<NvEntry>>, i: int, e: LibZfsError)
    requires
        0 <= i < cs.len(),
        forall|j: int| 0 <= j < i ==> spec_decode(#[trigger] cs[j]) is Ok,
        spec_decode(cs[i]) == Err::<VdevModel, LibZfsError>(e),
    ensures
        spec_decode_seq(cs) == Err::<Seq<VdevModel>, LibZfsError>(e),
    decreases i,
{
    if i > 0 {
        assert(forall|j: int|
            0 <= j < cs.drop_first().len() ==> cs.drop_first()[j] == cs[j + 1]);
        lemma_spec_decode_seq_err(cs.drop_first(), i - 1, e);
    }
}

/// Reads an optional string field.
fn lookup_opt_string(tree: &NvList, key: &str) -> (r: Option<String>)
    ensures
        opt_str_model(r) == model_lookup_str(tree@, key@),
{
    match tree.lookup_string(key) {
        Ok(s) => Some(s),
        Err(_) => None,
    }
}

/// Reads an optional boolean field stored as an integer equal to 1.
fn lookup_opt_flag(tree: &NvList, key: &str) -> (r: Option<bool>)
    ensures
        r == spec_opt_flag(tree@, key@),
{
    match tree.lookup_uint64(key) {
        Ok(x) => Some(x == 1),
        Err(_) => None,
    }
}

/// Reads the optional guid field and renders it.
fn lookup_guid(tree: &NvList) -> (r: Option<String>)
    ensures
        opt_str_model(r) == spec_guid(tree@),
{
    match tree.lookup_uint64("guid") {
        Ok(x) => Some(format_guid(x)),
        Err(_) => None,
    }
}

/// Derives the state name of a leaf node from its statistics array.
fn lookup_state(tree: &NvList) -> (r: Result<String, LibZfsError>)
    ensures
        match r {
            Ok(s) => spec_state(tree@) == Ok::<Seq<char>, LibZfsError>(s@),
            Err(e) => spec_state(tree@) == Err::<Seq<char>, LibZfsError>(e),
        },
{
    let stats = match tree.lookup_uint64_array("vdev_stats") {
        Ok(a) => a,
        Err(e) => {
            return Err(e);
        },
    };
    if stats.len() < 3 {
        return Err(LibZfsError::NotFound);
    }
    let st = stats[1];
    let aux = stats[2];
    match (state_from_code(st), aux_from_code(aux)) {
        (Some(s), Some(x)) => Ok(state_name(s, x)),
        _ => Err(LibZfsError::InvalidState),
    }
}

/// Decodes a `disk` node.
fn decode_disk(tree: &NvList) -> (r: Result<VDev, LibZfsError>)
    ensures
        decode_result_model(r) == spec_decode_disk(tree@),
{
    let path = match tree.lookup_string("path") {
        Ok(p) => p,
        Err(e) => {
            return Err(e);
        },
    };
    let state = match lookup_state(tree) {
        Ok(s) => s,
        Err(e) => {
            return Err(e);
        },
    };
    Ok(
        VDev::Disk {
            guid: lookup_guid(tree),
            state,
            path,
            dev_id: lookup_opt_string(tree, "dev_id"),
            phys_path: lookup_opt_string(tree, "phys_path"),
            whole_disk: lookup_opt_flag(tree, "whole_disk"),
            is_log: lookup_opt_flag(tree, "is_log"),
        },
    )
}

/// Decodes a `file` node.
fn decode_file(tree: &NvList) -> (r: Result<VDev, LibZfsError>)
    ensures
        decode_result_model(r) == spec_decode_file(tree@),
{
    let path = match tree.lookup_string("path") {
        Ok(p) => p,
        Err(e) => {
            return Err(e);
        },
    };
    let state = match lookup_state(tree) {
        Ok(s) => s,
        Err(e) => {
            return Err(e);
        },
    };
    Ok(VDev::File { guid: lookup_guid(tree), state, path, is_log: lookup_opt_flag(tree, "is_log") })
}

/// Decodes every node of a nested-list array, in source order, aborting
/// at the first failure.
fn decode_vdev_array(ls: &Vec<NvList>) -> (r: Result<Vec<VDev>, LibZfsError>)
    ensures
        decode_seq_result_model(r) == spec_decode_seq(lists_model(ls@)),
    decreases lists_model(ls@),
{
    let ghost cs = lists_model(ls@);
    proof {
        lemma_lists_model(ls@);
    }
    let mut out: Vec<VDev> = Vec::new();
    let n = ls.len();
    let mut i: usize = 0;
    while i < n
        invariant
            n == ls@.len(),
            i <= n,
            cs == lists_model(ls@),
            cs.len() == n,
            forall|j: int| 0 <= j < n ==> cs[j] == (#[trigger] ls@[j])@,
            out@.len() == i,
            forall|j: int|
                0 <= j < i ==> spec_decode(cs[j]) == Ok::<VdevModel, LibZfsError>(
                    (#[trigger] out@[j])@,
                ),
        decreases n - i,
    {
        proof {
            assert(decreases_to!(cs => cs[i as int]));
        }
        match enumerate_vdev_tree(&ls[i]) {
            Ok(v) => {
                out.push(v);
            },
            Err(e) => {
                proof {
                    assert forall|j: int| 0 <= j < i as int implies spec_decode(
                        #[trigger] cs[j],
                    ) is Ok by {
                        assert(spec_decode(cs[j]) == Ok::<VdevModel, LibZfsError>(out@[j]@));
                    }
                    lemma_spec_decode_seq_err(cs, i as int, e);
                }
                return Err(e);
            },
        }
        i = i + 1;
    }
    proof {
        lemma_vdevs_model(out@);
        lemma_spec_decode_seq_ok(cs, vdevs_model(out@));
    }
    Ok(out)
}

/// Decodes one attribute-list node into its typed vdev variant,
/// recursing into the nested-list arrays of container variants.
pub fn enumerate_vdev_tree(tree: &NvList) -> (r: Result<VDev, LibZfsError>)
    ensures
        decode_result_model(r) == spec_decode(tree@),
    decreases tree@,
{
    let tag = match tree.lookup_string("type") {
        Ok(t) => t,
        Err(_) => {
            return Err(LibZfsError::UnknownVdevType);
        },
    };
    if tag == String::from_str("disk") {
        decode_disk(tree)
    } else if tag == String::from_str("file") {
        decode_file(tree)
    } else if tag == String::from_str("mirror") {
        let children = match tree.lookup_nv_list_array("children") {
            Ok(ls) => ls,
            Err(_) => {
                return Err(LibZfsError::NotFound);
            },
        };
        proof {
            lemma_lookup_list_arr_decreases(tree@, "children"@);
        }
        match decode_vdev_array(children) {
            Ok(ch) => {
                let is_log = lookup_opt_flag(tree, "is_log");
                Ok(VDev::Mirror { children: ch, is_log })
            },
            Err(e) => Err(e),
        }
    } else if tag == String::from_str("raidz") {
        let children = match tree.lookup_nv_list_array("children") {
            Ok(ls) => ls,
            Err(_) => {
                return Err(LibZfsError::NotFound);
            },
        };
        proof {
            lemma_lookup_list_arr_decreases(tree@, "children"@);
        }
        match decode_vdev_array(children) {
            Ok(ch) => Ok(VDev::RaidZ { children: ch }),
            Err(e) => Err(e),
        }
    } else if tag == String::from_str("replacing") {
        let children = match tree.lookup_nv_list_array("children") {
            Ok(ls) => ls,
            Err(_) => {
                return Err(LibZfsError::NotFound);
            },
        };
        proof {
            lemma_lookup_list_arr_decreases(tree@, "children"@);
        }
        match decode_vdev_array(children) {
            Ok(ch) => Ok(VDev::Replacing { children: ch }),
            Err(e) => Err(e),
        }
    } else if tag == String::from_str("root") {
        let children = match tree.lookup_nv_list_array("children") {
            Ok(ls) => ls,
            Err(_) => {
                return Err(LibZfsError::NotFound);
            },
        };
        proof {
            lemma_lookup_list_arr_decreases(tree@, "children"@);
        }
        let ch = match decode_vdev_array(children) {
            Ok(c) => c,
            Err(e) => {
                return Err(e);
            },
        };
        let spares = match tree.lookup_nv_list_array("spares") {
            Ok(ls) => {
                proof {
                    lemma_lookup_list_arr_decreases(tree@, "spares"@);
                }
                match decode_vdev_array(ls) {
                    Ok(s) => s,
                    Err(e) => {
                        return Err(e);
                    },
                }
            },
            Err(_) => Vec::new(),
        };
        let cache = match tree.lookup_nv_list_array("l2cache") {
            Ok(ls) => {
                proof {
                    lemma_lookup_list_arr_decreases(tree@, "l2cache"@);
                }
                match decode_vdev_array(ls) {
                    Ok(c) => c,
                    Err(e) => {
                        return Err(e);
                    },
                }
            },
            Err(_) => Vec::new(),
        };
        proof {
            assert(vdevs_model(Seq::<VDev>::empty()) =~= Seq::<VdevModel>::empty());
        }
        Ok(VDev::Root { children: ch, spares, cache })
    } else {
        Err(LibZfsError::UnknownVdevType)
    }
}

} // verus!
