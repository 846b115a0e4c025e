use nix_install_zfs::disks::{
    collect_disk_warnings, flatten_labels, flatten_mount_flags, has_existing_configuration,
    interpret_boolish, is_probable_system_disk, load_disks, pool_status_needed, root_source, zpool_uses_disk,
    BlockDevice, JsonFlag,
};
use nix_install_zfs::types::Disk;

fn dev(path: &str) -> BlockDevice {
    BlockDevice {
        path: Some(path.to_string()),
        size: None,
        model: None,
        dev_type: None,
        rm: None,
        ro: None,
        partlabel: None,
        mountpoints: None,
        children: None,
    }
}

fn disk(path: &str, size: Option<&str>, model: Option<&str>) -> BlockDevice {
    BlockDevice {
        size: size.map(str::to_string),
        model: model.map(str::to_string),
        dev_type: Some("disk".to_string()),
        rm: Some(false),
        ro: Some(false),
        ..dev(path)
    }
}

#[test]
fn offers_writable_fixed_disks() {
    let mut removable = disk("/dev/sdb", Some("32G"), Some("Stick"));
    removable.rm = Some(true);
    let mut readonly = disk("/dev/sr0", Some("1G"), Some("DVD"));
    readonly.ro = Some(true);
    let mut part = disk("/dev/sda1", Some("1G"), None);
    part.dev_type = Some("part".to_string());
    let mut no_path = disk("", Some("1G"), None);
    no_path.path = None;
    let devices = vec![
        disk("/dev/sda", Some("500G"), Some("  Samsung SSD  ")),
        removable,
        readonly,
        part,
        no_path,
        disk("/dev/nvme0n1", Some(""), Some("   ")),
        disk("/dev/vda", None, None),
    ];
    assert_eq!(
        load_disks(&devices),
        vec![
            Disk {
                path: "/dev/sda".to_string(),
                size: "500G".to_string(),
                model: "Samsung SSD".to_string(),
            },
            Disk {
                path: "/dev/nvme0n1".to_string(),
                size: "?".to_string(),
                model: "(unknown model)".to_string(),
            },
            Disk {
                path: "/dev/vda".to_string(),
                size: "?".to_string(),
                model: "(unknown model)".to_string(),
            },
        ]
    );
}

#[test]
fn boolish_columns() {
    assert_eq!(interpret_boolish(&JsonFlag::Absent), None);
    assert_eq!(interpret_boolish(&JsonFlag::Null), None);
    assert_eq!(interpret_boolish(&JsonFlag::Bool(true)), Some(true));
    assert_eq!(interpret_boolish(&JsonFlag::Number(Some(0))), Some(false));
    assert_eq!(interpret_boolish(&JsonFlag::Number(Some(2))), Some(true));
    assert_eq!(interpret_boolish(&JsonFlag::Number(None)), Some(false));
    assert_eq!(interpret_boolish(&JsonFlag::Text(" YES ".to_string())), Some(true));
    assert_eq!(interpret_boolish(&JsonFlag::Text("1".to_string())), Some(true));
    assert_eq!(interpret_boolish(&JsonFlag::Text("no".to_string())), Some(false));
    assert_eq!(interpret_boolish(&JsonFlag::Text("maybe".to_string())), Some(false));
    assert_eq!(interpret_boolish(&JsonFlag::Text(String::new())), Some(false));
    assert_eq!(interpret_boolish(&JsonFlag::Other), Some(false));
}

fn labelled(path: &str, label: Option<&str>, children: Option<Vec<BlockDevice>>) -> BlockDevice {
    BlockDevice { partlabel: label.map(str::to_string), children, ..dev(path) }
}

#[test]
fn labels_depth_first() {
    let tree = vec![labelled(
        "/dev/sda",
        None,
        Some(vec![
            labelled("/dev/sda1", Some("EFI"), None),
            labelled("/dev/sda2", Some("data"), Some(vec![labelled("/dev/dm-0", Some("inner"), None)])),
        ]),
    )];
    let mut labels = vec!["seed".to_string()];
    flatten_labels(&tree, &mut labels);
    assert_eq!(labels, vec!["seed", "EFI", "data", "inner"]);
}

#[test]
fn mount_flags() {
    let mounted = BlockDevice { mountpoints: Some(vec![None, Some("/boot".to_string())]), ..dev("/dev/sda1") };
    let empty_mount = BlockDevice { mountpoints: Some(vec![Some(String::new()), None]), ..dev("/dev/sda2") };
    let mut flag = false;
    flatten_mount_flags(&vec![empty_mount], &mut flag);
    assert!(!flag);
    let tree = vec![BlockDevice { children: Some(vec![mounted]), ..dev("/dev/sda") }];
    flatten_mount_flags(&tree, &mut flag);
    assert!(flag);
    // An earlier finding is kept.
    let mut already = true;
    flatten_mount_flags(&vec![], &mut already);
    assert!(already);
}

#[test]
fn zpool_status_lines() {
    let status = "  pool: zroot\n state: ONLINE\nconfig:\n\tNAME        STATE\n\tzroot       ONLINE\n\t  /dev/nvme0n1p3  ONLINE\n";
    assert!(zpool_uses_disk(status, "/dev/nvme0n1"));
    assert!(!zpool_uses_disk(status, "/dev/sda"));
    assert!(zpool_uses_disk("\r\n   /dev/sda3 ONLINE\r\n", "/dev/sda"));
    assert!(!zpool_uses_disk("", "/dev/sda"));
}

#[test]
fn existing_installations() {
    let with_label = vec![labelled("/dev/sda", None, Some(vec![labelled("/dev/sda3", Some("NIXROOT"), None)]))];
    assert!(has_existing_configuration(&with_label, None, "/dev/sda"));
    let plain = vec![labelled("/dev/sda", None, Some(vec![labelled("/dev/sda1", Some("EFI"), None)]))];
    assert!(!has_existing_configuration(&plain, None, "/dev/sda"));
    assert!(has_existing_configuration(&plain, Some("\t/dev/sda3 ONLINE\n"), "/dev/sda"));
    assert!(!has_existing_configuration(&plain, Some("\t/dev/sdb3 ONLINE\n"), "/dev/sda"));
}

#[test]
fn warnings_before_erasing() {
    let mounted = vec![BlockDevice { mountpoints: Some(vec![Some("/".to_string())]), ..dev("/dev/sda2") }];
    assert_eq!(
        collect_disk_warnings(&mounted, true),
        vec![
            "One or more partitions on this disk are mounted right now.",
            "Selected disk appears to back the currently mounted root filesystem.",
        ]
    );
    assert_eq!(collect_disk_warnings(&vec![dev("/dev/sda")], false), Vec::<String>::new());
}

#[test]
fn system_disk_detection() {
    assert_eq!(root_source("/dev/sda2\n"), Some("/dev/sda2".to_string()));
    assert_eq!(root_source("  \n"), None);
    assert!(is_probable_system_disk(Some("sda\n"), "/dev/sda"));
    assert!(!is_probable_system_disk(Some("sdb\n"), "/dev/sda"));
    assert!(!is_probable_system_disk(Some("  "), "/dev/"));
    assert!(!is_probable_system_disk(None, "/dev/sda"));
}

#[test]
fn pool_is_asked_only_without_labels() {
    let with_label = vec![labelled("/dev/sda", None, Some(vec![labelled("/dev/sda2", Some("NIXSWAP"), None)]))];
    assert!(!pool_status_needed(&with_label));
    let plain = vec![labelled("/dev/sda", Some("EFI"), None)];
    assert!(pool_status_needed(&plain));
}

#[test]
fn added_lines_keep_a_match() {
    let a = "\t/dev/sda3 ONLINE";
    assert!(zpool_uses_disk(a, "/dev/sda"));
    assert!(zpool_uses_disk(&format!("{a}\nerrors: none"), "/dev/sda"));
    assert!(zpool_uses_disk(&format!("pool: zroot\r\n{a}"), "/dev/sda"));
    assert!(!zpool_uses_disk("", "/dev/sdb"));
    assert!(!zpool_uses_disk("", ""));
}
