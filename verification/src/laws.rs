//! General properties of the decoder, stated and proved once for all
//! inputs.

use vstd::prelude::*;

use crate::decode::{
    lemma_spec_decode_seq_err,
    lemma_spec_decode_seq_ok,
    spec_decode,
    spec_decode_seq,
    spec_guid,
    spec_opt_flag,
    spec_state,
};
use crate::error::LibZfsError;
use crate::nvl::{
    lemma_lookup_list_arr_decreases,
    model_lookup_list_arr,
    model_lookup_str,
    model_lookup_u64_arr,
    NvEntry,
};
use crate::state::{spec_aux_from_code, spec_state_from_code};
use crate::vdev::VdevModel;

verus! {

/// The elementwise decode of an array whose nodes all decode.
pub open spec fn decoded_elems(cs: Seq<Seq<NvEntry>>) -> Seq<VdevModel> {
    Seq::new(cs.len(), |j: int| spec_decode(cs[j])->Ok_0)
}

/// Every node of the array decodes.
pub open spec fn all_decode_ok(cs: Seq<Seq<NvEntry>>) -> bool {
    forall|j: int| 0 <= j < cs.len() ==> spec_decode(#[trigger] cs[j]) is Ok
}

/// An array whose nodes all decode decodes to exactly their decodes, in
/// source order.
pub proof fn lemma_decode_seq_elems(cs: Seq<Seq<NvEntry>>)
    requires
        all_decode_ok(cs),
    ensures
        spec_decode_seq(cs) == Ok::<Seq<VdevModel>, LibZfsError>(decoded_elems(cs)),
{
    assert forall|j: int| 0 <= j < cs.len() implies spec_decode(cs[j]) == Ok::<
        VdevModel,
        LibZfsError,
    >(decoded_elems(cs)[j]) by {
        assert(spec_decode(cs[j]) is Ok);
    }
    lemma_spec_decode_seq_ok(cs, decoded_elems(cs));
}

/// The six recognized type tags are pairwise distinct strings.
proof fn lemma_tags_distinct()
    ensures
        "root"@ != "disk"@,
        "root"@ != "file"@,
        "root"@ != "mirror"@,
        "root"@ != "raidz"@,
        "root"@ != "replacing"@,
        "mirror"@ != "disk"@,
        "mirror"@ != "file"@,
        "raidz"@ != "disk"@,
        "raidz"@ != "file"@,
        "raidz"@ != "mirror"@,
        "replacing"@ != "disk"@,
        "replacing"@ != "file"@,
        "replacing"@ != "mirror"@,
        "replacing"@ != "raidz"@,
{
    reveal_strlit("disk");
    reveal_strlit("file");
    reveal_strlit("mirror");
    reveal_strlit("raidz");
    reveal_strlit("replacing");
    reveal_strlit("root");
    assert("disk"@.len() == 4);
    assert("file"@.len() == 4);
    assert("mirror"@.len() == 6);
    assert("raidz"@.len() == 5);
    assert("replacing"@.len() == 9);
    assert("root"@.len() == 4);
    assert("disk"@[0] == 'd');
    assert("file"@[0] == 'f');
    assert("root"@[0] == 'r');
}

/// Round-trip shape: decoding a `root` node whose children, spares and
/// cache arrays are present and whose every element decodes yields a
/// `Root` whose three sequences have the source arrays' lengths and
/// hold the source elements' decodes in source order.
pub proof fn lemma_decode_root_shape(
    m: Seq<NvEntry>,
    cs: Seq<Seq<NvEntry>>,
    sp: Seq<Seq<NvEntry>>,
    ca: Seq<Seq<NvEntry>>,
)
    requires
        model_lookup_str(m, "type"@) == Some("root"@),
        model_lookup_list_arr(m, "children"@) == Some(cs),
        model_lookup_list_arr(m, "spares"@) == Some(sp),
        model_lookup_list_arr(m, "l2cache"@) == Some(ca),
        all_decode_ok(cs),
        all_decode_ok(sp),
        all_decode_ok(ca),
    ensures
        spec_decode(m) == Ok::<VdevModel, LibZfsError>(
            VdevModel::Root {
                children: decoded_elems(cs),
                spares: decoded_elems(sp),
                cache: decoded_elems(ca),
            },
        ),
        decoded_elems(cs).len() == cs.len(),
        decoded_elems(sp).len() == sp.len(),
        decoded_elems(ca).len() == ca.len(),
{
    lemma_tags_distinct();
    lemma_decode_seq_elems(cs);
    lemma_decode_seq_elems(sp);
    lemma_decode_seq_elems(ca);
}

/// Idempotent empty collections: a `root` node without a spares key and
/// without a cache key decodes to a `Root` with empty spares and cache,
/// without error.
pub proof fn lemma_decode_root_absent_collections(m: Seq<NvEntry>, cs: Seq<Seq<NvEntry>>)
    requires
        model_lookup_str(m, "type"@) == Some("root"@),
        model_lookup_list_arr(m, "children"@) == Some(cs),
        all_decode_ok(cs),
        model_lookup_list_arr(m, "spares"@) is None,
        model_lookup_list_arr(m, "l2cache"@) is None,
    ensures
        spec_decode(m) == Ok::<VdevModel, LibZfsError>(
            VdevModel::Root {
                children: decoded_elems(cs),
                spares: Seq::empty(),
                cache: Seq::empty(),
            },
        ),
{
    lemma_tags_distinct();
    lemma_decode_seq_elems(cs);
}

/// Fail-fast at one node: an absent or unrecognized `type` tag fails
/// the node's decode with `UnknownVdevType`, whatever else it holds.
pub proof fn lemma_decode_unknown_type(m: Seq<NvEntry>)
    requires
        match model_lookup_str(m, "type"@) {
            Some(t) => t != "disk"@ && t != "file"@ && t != "mirror"@ && t != "raidz"@ && t
                != "replacing"@ && t != "root"@,
            None => true,
        },
    ensures
        spec_decode(m) == Err::<VdevModel, LibZfsError>(LibZfsError::UnknownVdevType),
{
}

/// Fail-fast through containers: in a container node whose first
/// failing child fails with error `e`, the whole node's decode fails
/// with `e`, and no partial tree is produced.
pub proof fn lemma_decode_container_err(
    m: Seq<NvEntry>,
    t: Seq<char>,
    cs: Seq<Seq<NvEntry>>,
    i: int,
    e: LibZfsError,
)
    requires
        model_lookup_str(m, "type"@) == Some(t),
        t == "mirror"@ || t == "raidz"@ || t == "replacing"@ || t == "root"@,
        model_lookup_list_arr(m, "children"@) == Some(cs),
        0 <= i < cs.len(),
        forall|j: int| 0 <= j < i ==> spec_decode(#[trigger] cs[j]) is Ok,
        spec_decode(cs[i]) == Err::<VdevModel, LibZfsError>(e),
    ensures
        spec_decode(m) == Err::<VdevModel, LibZfsError>(e),
{
    lemma_tags_distinct();
    lemma_spec_decode_seq_err(cs, i, e);
}

/// Whether a type tag belongs to the recognized vocabulary.
pub open spec fn recognized_tag(t: Seq<char>) -> bool {
    t == "disk"@ || t == "file"@ || t == "mirror"@ || t == "raidz"@ || t == "replacing"@ || t
        == "root"@
}

/// Whether a tag names a container variant, whose children are decoded
/// recursively.
pub open spec fn container_tag(t: Seq<char>) -> bool {
    t == "mirror"@ || t == "raidz"@ || t == "replacing"@ || t == "root"@
}

/// Whether this node's own type tag is absent or unrecognized.
pub open spec fn bad_tag(m: Seq<NvEntry>) -> bool {
    match model_lookup_str(m, "type"@) {
        Some(t) => !recognized_tag(t),
        None => true,
    }
}

/// Whether this node, or any node the decoder would reach below it,
/// has an absent or unrecognized type tag.
pub open spec fn has_unknown_node(m: Seq<NvEntry>) -> bool
    decreases m,
    via has_unknown_node_dec
{
    bad_tag(m) || (match model_lookup_str(m, "type"@) {
        Some(t) => (container_tag(t) && match model_lookup_list_arr(m, "children"@) {
            Some(cs) => seq_has_unknown_node(cs),
            None => false,
        }) || (t == "root"@ && match model_lookup_list_arr(m, "spares"@) {
            Some(ss) => seq_has_unknown_node(ss),
            None => false,
        }) || (t == "root"@ && match model_lookup_list_arr(m, "l2cache"@) {
            Some(ls) => seq_has_unknown_node(ls),
            None => false,
        }),
        None => false,
    })
}

/// Whether any node of the array, or below it, has a bad type tag.
pub open spec fn seq_has_unknown_node(cs: Seq<Seq<NvEntry>>) -> bool
    decreases cs,
{
    cs.len() > 0 && (has_unknown_node(cs[0]) || seq_has_unknown_node(cs.drop_first()))
}

#[via_fn]
proof fn has_unknown_node_dec(m: Seq<NvEntry>) {
    if model_lookup_list_arr(m, "children"@) is Some {
        lemma_lookup_list_arr_decreases(m, "children"@);
    }
    if model_lookup_list_arr(m, "spares"@) is Some {
        lemma_lookup_list_arr_decreases(m, "spares"@);
    }
    if model_lookup_list_arr(m, "l2cache"@) is Some {
        lemma_lookup_list_arr_decreases(m, "l2cache"@);
    }
}

/// Fail-fast over the whole tree: when this node, or any node the
/// decoder reaches below it, has an absent or unrecognized type tag,
/// the decode of the whole tree fails, and no partial tree is returned.
pub proof fn lemma_unknown_descendant_fails(m: Seq<NvEntry>)
    requires
        has_unknown_node(m),
    ensures
        spec_decode(m) is Err,
    decreases m,
{
    lemma_tags_distinct();
    if bad_tag(m) {
    } else {
        let t = model_lookup_str(m, "type"@)->Some_0;
        if container_tag(t) && model_lookup_list_arr(m, "children"@) is Some
            && seq_has_unknown_node(model_lookup_list_arr(m, "children"@)->Some_0) {
            lemma_lookup_list_arr_decreases(m, "children"@);
            lemma_seq_unknown_fails(model_lookup_list_arr(m, "children"@)->Some_0);
        } else if t == "root"@ && model_lookup_list_arr(m, "spares"@) is Some
            && seq_has_unknown_node(model_lookup_list_arr(m, "spares"@)->Some_0) {
            lemma_lookup_list_arr_decreases(m, "spares"@);
            lemma_seq_unknown_fails(model_lookup_list_arr(m, "spares"@)->Some_0);
        } else {
            lemma_lookup_list_arr_decreases(m, "l2cache"@);
            lemma_seq_unknown_fails(model_lookup_list_arr(m, "l2cache"@)->Some_0);
        }
    }
}

/// Fail-fast over an array: when any node of the array, or below it,
/// has a bad type tag, the array's decode fails.
pub proof fn lemma_seq_unknown_fails(cs: Seq<Seq<NvEntry>>)
    requires
        seq_has_unknown_node(cs),
    ensures
        spec_decode_seq(cs) is Err,
    decreases cs,
{
    if has_unknown_node(cs[0]) {
        lemma_unknown_descendant_fails(cs[0]);
    } else {
        lemma_seq_unknown_fails(cs.drop_first());
    }
}

/// Optional-field independence of a `disk` node: `path` and the derived
/// state are mandatory and their absence fails the decode, while the
/// optional fields decode independently, absent ones to `None`.
pub proof fn lemma_decode_disk_fields(m: Seq<NvEntry>)
    requires
        model_lookup_str(m, "type"@) == Some("disk"@),
    ensures
        model_lookup_str(m, "path"@) is None ==> spec_decode(m) == Err::<VdevModel, LibZfsError>(
            LibZfsError::NotFound,
        ),
        model_lookup_str(m, "path"@) is Some && spec_state(m) is Err ==> spec_decode(m) == Err::<
            VdevModel,
            LibZfsError,
        >(spec_state(m)->Err_0),
        model_lookup_str(m, "path"@) is Some && spec_state(m) is Ok ==> spec_decode(m) == Ok::<
            VdevModel,
            LibZfsError,
        >(
            VdevModel::Disk {
                guid: spec_guid(m),
                state: spec_state(m)->Ok_0,
                path: model_lookup_str(m, "path"@)->Some_0,
                dev_id: model_lookup_str(m, "dev_id"@),
                phys_path: model_lookup_str(m, "phys_path"@),
                whole_disk: spec_opt_flag(m, "whole_disk"@),
                is_log: spec_opt_flag(m, "is_log"@),
            },
        ),
{
}

/// State derivation: a healthy status with no auxiliary reason derives
/// the state name `ONLINE`; a status or auxiliary code outside its
/// enumerated domain derives `InvalidState`.
pub proof fn lemma_state_derivation(m: Seq<NvEntry>, a: Seq<u64>)
    requires
        model_lookup_u64_arr(m, "vdev_stats"@) == Some(a),
        3 <= a.len(),
    ensures
        (a[1] == 7 && a[2] == 0) ==> spec_state(m) == Ok::<Seq<char>, LibZfsError>("ONLINE"@),
        (spec_state_from_code(a[1]) is None || spec_aux_from_code(a[2]) is None) ==> spec_state(m)
            == Err::<Seq<char>, LibZfsError>(LibZfsError::InvalidState),
{
}

} // verus!
