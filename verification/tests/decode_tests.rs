use libzfs::{enumerate_vdev_tree, LibZfsError, NvList, NvPair, NvValue, VDev};
use libzfs::guid::format_guid;
use libzfs::state::{state_name, VdevAux, VdevState};

fn nv(pairs: Vec<NvPair>) -> NvList {
    NvList { pairs }
}

fn p(key: &str, value: NvValue) -> NvPair {
    NvPair { key: key.to_string(), value }
}

fn st(v: &str) -> NvValue {
    NvValue::Str(v.to_string())
}

fn u(v: u64) -> NvValue {
    NvValue::Uint64(v)
}

fn stats(state: u64, aux: u64) -> NvValue {
    NvValue::Uint64Array(vec![0, state, aux])
}

fn disk(path: &str, guid: u64) -> NvList {
    nv(vec![
        p("type", st("disk")),
        p("path", st(path)),
        p("dev_id", st("ata-disk-part1")),
        p("phys_path", st("pci-0000:00:01.0")),
        p("whole_disk", u(1)),
        p("guid", u(guid)),
        p("vdev_stats", stats(7, 0)),
    ])
}

fn list_array(lists: Vec<NvList>) -> NvValue {
    NvValue::ListArray(lists)
}

fn assert_online_disk(v: &VDev, want_path: &str) {
    match v {
        VDev::Disk { guid, state, path, dev_id, phys_path, whole_disk, is_log } => {
            assert!(guid.is_some());
            assert_eq!(state, "ONLINE");
            assert_eq!(path, want_path);
            assert!(dev_id.is_some());
            assert!(phys_path.is_some());
            assert_eq!(*whole_disk, Some(true));
            assert!(is_log.is_none());
        }
        _ => panic!("did not find disk"),
    }
}

#[test]
fn decode_root_shape_preserves_lengths_and_order() {
    let children = vec![
        nv(vec![
            p("type", st("mirror")),
            p("children", list_array(vec![disk("/dev/sda1", 1), disk("/dev/sdb1", 2)])),
        ]),
        nv(vec![p("type", st("mirror")), p("children", list_array(vec![disk("/dev/sdc1", 3)]))]),
    ];
    let spares = vec![disk("/dev/sdd1", 4), disk("/dev/sde1", 5), disk("/dev/sdf1", 6)];
    let cache = vec![disk("/dev/sdg1", 7)];
    let root = nv(vec![
        p("type", st("root")),
        p("children", list_array(children)),
        p("spares", list_array(spares)),
        p("l2cache", list_array(cache)),
    ]);

    match enumerate_vdev_tree(&root).unwrap() {
        VDev::Root { children, spares, cache } => {
            assert_eq!(children.len(), 2);
            assert_eq!(spares.len(), 3);
            assert_eq!(cache.len(), 1);
            assert_online_disk(&spares[0], "/dev/sdd1");
            assert_online_disk(&spares[1], "/dev/sde1");
            assert_online_disk(&spares[2], "/dev/sdf1");
            assert_online_disk(&cache[0], "/dev/sdg1");
        }
        _ => panic!("did not find root device"),
    }
}

#[test]
fn decode_fails_fast_on_unknown_descendant_type() {
    let bad = nv(vec![p("type", st("quorum")), p("path", st("/dev/sdz1"))]);
    let root = nv(vec![
        p("type", st("root")),
        p(
            "children",
            list_array(vec![nv(vec![
                p("type", st("mirror")),
                p("children", list_array(vec![disk("/dev/sda1", 1), bad])),
            ])]),
        ),
    ]);
    assert_eq!(enumerate_vdev_tree(&root), Err(LibZfsError::UnknownVdevType));
}

#[test]
fn decode_fails_on_absent_type_tag() {
    let node = nv(vec![p("path", st("/dev/sda1"))]);
    assert_eq!(enumerate_vdev_tree(&node), Err(LibZfsError::UnknownVdevType));
}

#[test]
fn disk_optional_fields_decode_independently() {
    let node = nv(vec![
        p("type", st("disk")),
        p("path", st("/dev/sda1")),
        p("vdev_stats", stats(7, 0)),
    ]);
    match enumerate_vdev_tree(&node).unwrap() {
        VDev::Disk { guid, state, path, dev_id, phys_path, whole_disk, is_log } => {
            assert!(guid.is_none());
            assert_eq!(state, "ONLINE");
            assert_eq!(path, "/dev/sda1");
            assert!(dev_id.is_none());
            assert!(phys_path.is_none());
            assert!(whole_disk.is_none());
            assert!(is_log.is_none());
        }
        _ => panic!("did not find disk"),
    }
}

#[test]
fn disk_without_path_fails() {
    let node = nv(vec![p("type", st("disk")), p("vdev_stats", stats(7, 0))]);
    assert_eq!(enumerate_vdev_tree(&node), Err(LibZfsError::NotFound));
}

#[test]
fn disk_without_stats_fails() {
    let node = nv(vec![p("type", st("disk")), p("path", st("/dev/sda1"))]);
    assert_eq!(enumerate_vdev_tree(&node), Err(LibZfsError::NotFound));
}

#[test]
fn guid_renders_zero_padded_uppercase() {
    assert_eq!(format_guid(0x1A), "0x000000000000001A");
    assert_eq!(format_guid(0), "0x0000000000000000");
    assert_eq!(format_guid(u64::MAX), "0xFFFFFFFFFFFFFFFF");
    assert_eq!(format_guid(0x0123456789ABCDEF), "0x0123456789ABCDEF");
}

#[test]
fn decoded_guid_uses_rendered_form() {
    let node = disk("/dev/sda1", 0x1A);
    match enumerate_vdev_tree(&node).unwrap() {
        VDev::Disk { guid, .. } => assert_eq!(guid.as_deref(), Some("0x000000000000001A")),
        _ => panic!("did not find disk"),
    }
}

#[test]
fn state_names_follow_the_native_table() {
    assert_eq!(state_name(VdevState::Healthy, VdevAux::NoAux), "ONLINE");
    assert_eq!(state_name(VdevState::Offline, VdevAux::NoAux), "OFFLINE");
    assert_eq!(state_name(VdevState::Closed, VdevAux::NoAux), "OFFLINE");
    assert_eq!(state_name(VdevState::Removed, VdevAux::NoAux), "REMOVED");
    assert_eq!(state_name(VdevState::Faulted, VdevAux::NoAux), "FAULTED");
    assert_eq!(state_name(VdevState::Degraded, VdevAux::NoAux), "DEGRADED");
    assert_eq!(state_name(VdevState::Unknown, VdevAux::NoAux), "UNKNOWN");
    assert_eq!(state_name(VdevState::CantOpen, VdevAux::CorruptData), "FAULTED");
    assert_eq!(state_name(VdevState::CantOpen, VdevAux::BadLog), "FAULTED");
    assert_eq!(state_name(VdevState::CantOpen, VdevAux::SplitPool), "SPLIT");
    assert_eq!(state_name(VdevState::CantOpen, VdevAux::OpenFailed), "UNAVAIL");
}

#[test]
fn out_of_domain_status_codes_fail_with_invalid_state() {
    let bad_state = nv(vec![
        p("type", st("disk")),
        p("path", st("/dev/sda1")),
        p("vdev_stats", stats(99, 0)),
    ]);
    assert_eq!(enumerate_vdev_tree(&bad_state), Err(LibZfsError::InvalidState));

    let bad_aux = nv(vec![
        p("type", st("file")),
        p("path", st("/vdev0.img")),
        p("vdev_stats", stats(7, 99)),
    ]);
    assert_eq!(enumerate_vdev_tree(&bad_aux), Err(LibZfsError::InvalidState));
}

#[test]
fn root_without_spares_and_cache_keys_decodes_to_empty() {
    let root = nv(vec![
        p("type", st("root")),
        p("children", list_array(vec![disk("/dev/sda1", 1)])),
    ]);
    match enumerate_vdev_tree(&root).unwrap() {
        VDev::Root { children, spares, cache } => {
            assert_eq!(children.len(), 1);
            assert!(spares.is_empty());
            assert!(cache.is_empty());
        }
        _ => panic!("did not find root device"),
    }
}

#[test]
fn file_and_raidz_and_replacing_decode() {
    let file = nv(vec![
        p("type", st("file")),
        p("path", st("/vdev0.img")),
        p("guid", u(9)),
        p("is_log", u(0)),
        p("vdev_stats", stats(6, 0)),
    ]);
    match enumerate_vdev_tree(&file).unwrap() {
        VDev::File { guid, state, path, is_log } => {
            assert!(guid.is_some());
            assert_eq!(state, "DEGRADED");
            assert_eq!(path, "/vdev0.img");
            assert_eq!(is_log, Some(false));
        }
        _ => panic!("did not find file vdev"),
    }

    let raidz = nv(vec![
        p("type", st("raidz")),
        p("children", list_array(vec![disk("/dev/sda1", 1), disk("/dev/sdb1", 2)])),
    ]);
    match enumerate_vdev_tree(&raidz).unwrap() {
        VDev::RaidZ { children } => assert_eq!(children.len(), 2),
        _ => panic!("did not find raidz"),
    }

    let replacing = nv(vec![
        p("type", st("replacing")),
        p("children", list_array(vec![disk("/dev/sda1", 1), disk("/dev/sdb1", 2)])),
    ]);
    match enumerate_vdev_tree(&replacing).unwrap() {
        VDev::Replacing { children } => assert_eq!(children.len(), 2),
        _ => panic!("did not find replacing"),
    }
}

#[test]
fn mirror_is_log_flag_is_read_from_the_node() {
    let mirror = nv(vec![
        p("type", st("mirror")),
        p("is_log", u(1)),
        p("children", list_array(vec![disk("/dev/sda1", 1)])),
    ]);
    match enumerate_vdev_tree(&mirror).unwrap() {
        VDev::Mirror { children, is_log } => {
            assert_eq!(children.len(), 1);
            assert_eq!(is_log, Some(true));
        }
        _ => panic!("did not find mirror"),
    }
}

#[test]
fn type_tag_stored_as_integer_is_not_recognized() {
    let node = nv(vec![p("type", u(1)), p("path", st("/dev/sda1"))]);
    assert_eq!(enumerate_vdev_tree(&node), Err(LibZfsError::UnknownVdevType));
}
