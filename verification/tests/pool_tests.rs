use libzfs::{LibZfsError, NvList, NvPair, NvValue, VDev, Zfs, Zpool};

fn nv(pairs: Vec<NvPair>) -> NvList {
    NvList { pairs }
}

fn p(key: &str, value: NvValue) -> NvPair {
    NvPair { key: key.to_string(), value }
}

fn st(v: &str) -> NvValue {
    NvValue::Str(v.to_string())
}

fn u(v: u64) -> NvValue {
    NvValue::Uint64(v)
}

fn online_disk(path: &str, guid: u64) -> NvList {
    nv(vec![
        p("type", st("disk")),
        p("path", st(path)),
        p("dev_id", st("ata-disk-part1")),
        p("phys_path", st("pci-0000:00:01.0")),
        p("whole_disk", u(1)),
        p("guid", u(guid)),
        p("vdev_stats", NvValue::Uint64Array(vec![0, 7, 0])),
    ])
}

fn test_pool() -> Zpool {
    let tree = nv(vec![
        p("type", st("root")),
        p(
            "children",
            NvValue::ListArray(vec![nv(vec![
                p("type", st("mirror")),
                p(
                    "children",
                    NvValue::ListArray(vec![
                        online_disk("/dev/sdb1", 0xB1),
                        online_disk("/dev/sdc1", 0xC1),
                    ]),
                ),
            ])]),
        ),
        p("spares", NvValue::ListArray(vec![
            online_disk("/dev/sde1", 0xE1),
            online_disk("/dev/sdf1", 0xF1),
        ])),
        p("l2cache", NvValue::ListArray(vec![online_disk("/dev/sdd1", 0xD1)])),
    ]);
    let config = nv(vec![
        p("hostname", st("localhost.localdomain")),
        p("hostid", u(0x007F0200)),
        p("vdev_tree", NvValue::List(tree)),
    ]);
    Zpool {
        name: "test".to_string(),
        state_code: 0,
        guid: 0x1A,
        size: 83886080,
        read_only_raw: 0,
        health: "ONLINE".to_string(),
        config,
    }
}

#[test]
fn get_pool_health() {
    let pool = test_pool();
    assert_eq!(pool.health().unwrap(), "ONLINE");
}

#[test]
fn get_pool_state() {
    let pool = test_pool();
    assert_eq!(pool.state_name(), "ACTIVE");
}

#[test]
fn get_pool_size() {
    let pool = test_pool();
    assert_eq!(pool.size(), 83886080);
}

#[test]
fn get_pool_read_only() {
    let pool = test_pool();
    assert_eq!(pool.read_only(), false);
}

#[test]
fn get_pool_hostname() {
    let pool = test_pool();
    assert_eq!(pool.hostname().unwrap(), "localhost.localdomain");
}

#[test]
fn get_pool_hostid() {
    let pool = test_pool();
    assert!(pool.hostid().is_ok());
}

#[test]
fn pool_name_and_guid_render() {
    let pool = test_pool();
    assert_eq!(pool.name(), "test");
    assert_eq!(pool.guid(), 0x1A);
    assert_eq!(pool.guid_hex(), "0x000000000000001A");
}

#[test]
fn hostname_is_not_found_without_the_key() {
    let pool = Zpool { config: nv(vec![]), ..test_pool() };
    assert_eq!(pool.hostname(), Err(LibZfsError::NotFound));
    assert_eq!(pool.hostid(), Err(LibZfsError::NotFound));
}

#[test]
fn vdev_tree_requires_the_config_key() {
    let pool = Zpool { config: nv(vec![p("hostname", st("h"))]), ..test_pool() };
    assert_eq!(pool.vdev_tree(), Err(LibZfsError::NotFound));
}

#[test]
fn test_vdev_tree() {
    let pool = test_pool();
    let (mirror, cache_vdevs, spare_vdevs) = match pool.vdev_tree().unwrap() {
        VDev::Root { children, cache, spares } => (children, cache, spares),
        _ => panic!("did not find root device"),
    };

    let mirror_vdevs = match &mirror[0] {
        VDev::Mirror { children, .. } => children,
        _ => panic!("did not find mirror"),
    };

    let expected = [
        (&mirror_vdevs[0], "/dev/sdb1"),
        (&mirror_vdevs[1], "/dev/sdc1"),
        (&cache_vdevs[0], "/dev/sdd1"),
        (&spare_vdevs[0], "/dev/sde1"),
        (&spare_vdevs[1], "/dev/sdf1"),
    ];
    for (vdev, want_path) in expected {
        match vdev {
            VDev::Disk { guid, state, path, dev_id, phys_path, whole_disk, is_log } => {
                assert!(guid.is_some());
                assert_eq!(state, "ONLINE");
                assert_eq!(path, want_path);
                assert!(dev_id.is_some());
                assert!(phys_path.is_some());
                assert_eq!(*whole_disk, Some(true));
                assert!(is_log.is_none());
            }
            _ => panic!("did not find disk"),
        }
    }
    assert_eq!(mirror.len(), 1);
    assert_eq!(mirror_vdevs.len(), 2);
    assert_eq!(cache_vdevs.len(), 1);
    assert_eq!(spare_vdevs.len(), 2);
}

#[test]
fn dataset_getters_read_the_model() {
    let props = nv(vec![
        p("compression", NvValue::List(nv(vec![p("value", st("on"))]))),
        p("quota", NvValue::List(nv(vec![p("value", u(1024))]))),
        p("mountpoint", NvValue::List(nv(vec![p("source", st("local"))]))),
    ]);
    let ds = Zfs {
        name: "test/ds".to_string(),
        kind_name: "filesystem".to_string(),
        props,
        user_props: nv(vec![]),
    };
    assert_eq!(ds.name(), "test/ds");
    assert_eq!(ds.zfs_type_name(), "filesystem");
    assert_eq!(ds.lookup_string_prop("compression").as_deref(), Some("on"));
    assert_eq!(ds.lookup_uint64_prop("quota"), Some(1024));
    assert_eq!(ds.lookup_string_prop("mountpoint"), None);
    assert_eq!(ds.lookup_string_prop("missing"), None);
    assert_eq!(ds.lookup_uint64_prop("compression"), None);
}

#[test]
fn lookup_returns_the_first_matching_key() {
    let l = nv(vec![p("k", st("first")), p("k", st("second"))]);
    assert_eq!(l.lookup_string("k").unwrap(), "first");
}

#[test]
fn built_list_enumerates_in_insertion_order() {
    let mut l = NvList::new();
    l.push("alpha".to_string(), NvValue::Uint64(1));
    l.push("beta".to_string(), NvValue::Str("two".to_string()));
    assert_eq!(l.len(), 2);
    assert_eq!(l.pair_at(0).key, "alpha");
    assert_eq!(l.pair_at(1).key, "beta");
    assert_eq!(l.lookup_uint64("alpha"), Ok(1));
    assert_eq!(l.lookup_string("beta").unwrap(), "two");
    assert_eq!(l.lookup_string("gamma"), Err(LibZfsError::NotFound));
}

#[test]
fn lookup_type_mismatch_is_not_found() {
    let l = nv(vec![p("k", st("v"))]);
    assert_eq!(l.lookup_uint64("k"), Err(LibZfsError::NotFound));
    assert_eq!(l.lookup_string("k").unwrap(), "v");
}
