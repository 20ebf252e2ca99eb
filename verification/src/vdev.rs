//! The typed virtual-device topology tree and its mathematical model.

use vstd::prelude::*;

verus! {

broadcast use vstd::std_specs::vec::group_vec_axioms;

/// One node of a pool's device topology.  The tree of a decoded pool
/// configuration is rooted at exactly one `Root` node.
#[derive(Debug, PartialEq)]
pub enum VDev {
    Mirror { children: Vec<VDev>, is_log: Option<bool> },
    RaidZ { children: Vec<VDev> },
    Replacing { children: Vec<VDev> },
    Root { children: Vec<VDev>, spares: Vec<VDev>, cache: Vec<VDev> },
    Disk {
        guid: Option<String>,
        state: String,
        path: String,
        dev_id: Option<String>,
        phys_path: Option<String>,
        whole_disk: Option<bool>,
        is_log: Option<bool>,
    },
    File { guid: Option<String>, state: String, path: String, is_log: Option<bool> },
}

/// Mathematical model of one vdev node.
pub enum VdevModel {
    Mirror { children: Seq<VdevModel>, is_log: Option<bool> },
    RaidZ { children: Seq<VdevModel> },
    Replacing { children: Seq<VdevModel> },
    Root { children: Seq<VdevModel>, spares: Seq<VdevModel>, cache: Seq<VdevModel> },
    Disk {
        guid: Option<Seq<char>>,
        state: Seq<char>,
        path: Seq<char>,
        dev_id: Option<Seq<char>>,
        phys_path: Option<Seq<char>>,
        whole_disk: Option<bool>,
        is_log: Option<bool>,
    },
    File {
        guid: Option<Seq<char>>,
        state: Seq<char>,
        path: Seq<char>,
        is_log: Option<bool>,
    },
}

/// The model of an optional string.
pub open spec fn opt_str_model(o: Option<String>) -> Option<Seq<char>> {
    match o {
        Some(s) => Some(s@),
        None => None,
    }
}

pub open spec fn vdev_model(v: VDev) -> VdevModel
    decreases v,
{
    match v {
        VDev::Mirror { children, is_log } => VdevModel::Mirror {
            children: vdevs_model(children@),
            is_log,
        },
        VDev::RaidZ { children } => VdevModel::RaidZ { children: vdevs_model(children@) },
        VDev::Replacing { children } => VdevModel::Replacing { children: vdevs_model(children@) },
        VDev::Root { children, spares, cache } => VdevModel::Root {
            children: vdevs_model(children@),
            spares: vdevs_model(spares@),
            cache: vdevs_model(cache@),
        },
        VDev::Disk { guid, state, path, dev_id, phys_path, whole_disk, is_log } => VdevModel::Disk {
            guid: opt_str_model(guid),
            state: state@,
            path: path@,
            dev_id: opt_str_model(dev_id),
            phys_path: opt_str_model(phys_path),
            whole_disk,
            is_log,
        },
        VDev::File { guid, state, path, is_log } => VdevModel::File {
            guid: opt_str_model(guid),
            state: state@,
            path: path@,
            is_log,
        },
    }
}

pub open spec fn vdevs_model(s: Seq<VDev>) -> Seq<VdevModel>
    decreases s,
{
    if s.len() == 0 {
        Seq::empty()
    } else {
        seq![vdev_model(s[0])] + vdevs_model(s.drop_first())
    }
}

impl View for VDev {
    type V = VdevModel;

    open spec fn view(&self) -> VdevModel {
        vdev_model(*self)
    }
}

/// `vdevs_model` maps the nodes elementwise.
pub proof fn lemma_vdevs_model(s: Seq<VDev>)
    ensures
        vdevs_model(s).len() == s.len(),
        forall|i: int| 0 <= i < s.len() ==> vdevs_model(s)[i] == vdev_model(s[i]),
    decreases s.len(),
{
    if s.len() > 0 {
        lemma_vdevs_model(s.drop_first());
        assert forall|i: int| 0 <= i < s.len() implies vdevs_model(s)[i] == vdev_model(s[i]) by {
            if i > 0 {
                assert(s.drop_first()[i - 1] == s[i]);
            }
        }
    }
}

} // verus!
