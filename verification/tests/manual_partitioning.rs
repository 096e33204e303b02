use pika_installer::fstab::{
    crypttab_entry, needs_crypttab_prompt, release_row, select_partition, update_subvol_declarations,
    validate_filesystem_table,
};
use pika_installer::model::{FstabEntry, Partition, SubvolDeclaration};
use pika_installer::mount_rows::{
    classify_partition_row, hardcoded_rows, new_extra_row, on_mountpoint_changed, on_partition_changed,
    DriveMountRow, PartitionRowState, RowKind, RowSubtitle, Usage, FIRST_EXTRA_ROW_ID,
};
use pika_installer::probe::PartitionProbe;
use pika_installer::sorting::{sort_fstab_entries, sort_keymaps, sort_locales};
use pika_installer::model::{KBDMap, PikaKeymap, PikaLocale};

fn part(name: &str, fs: &str, size: u64) -> Partition {
    Partition {
        part_name: name.to_string(),
        part_fs: fs.to_string(),
        part_uuid: format!("uuid-{}", name),
        has_encryption: false,
        need_mapper: false,
        part_size: size,
        part_size_pretty: String::new(),
    }
}

fn entry(p: Partition, mountpoint: &str, opts: &str, row: i32) -> FstabEntry {
    FstabEntry { partition: p, mountpoint: mountpoint.to_string(), mountopts: opts.to_string(), used_by: row }
}

fn subvol(name: &str, row: i32) -> SubvolDeclaration {
    SubvolDeclaration { part_name: name.to_string(), made_by: row }
}

#[test]
fn mapper_partitions_are_never_offered() {
    let mut p = part("sda5", "crypto_LUKS", 100000000000);
    p.need_mapper = true;
    let s = classify_partition_row(RowKind::Extra, &p, &vec![], &vec![], &String::new());
    assert!(!s.sensitive);
    assert!(s.never);
    assert_eq!(s.subtitle, RowSubtitle::NeedsMapper);
}

#[test]
fn fixed_rows_check_filesystem_and_size() {
    let none = String::new();
    let check = |kind, p: &Partition| classify_partition_row(kind, p, &vec![], &vec![], &none);

    let s = check(RowKind::Efi, &part("sda1", "ext4", 600000000));
    assert_eq!((s.subtitle, s.sensitive, s.hardcode_fs_error, s.never), (RowSubtitle::EfiFsBad, false, true, true));
    let s = check(RowKind::Efi, &part("sda1", "vfat", 100000000));
    assert_eq!(s.subtitle, RowSubtitle::EfiFsSmall);
    let s = check(RowKind::Efi, &part("sda1", "vfat", 500000000));
    assert_eq!((s.subtitle, s.sensitive, s.usage), (RowSubtitle::FsAndSize, true, Usage::Free));

    assert_eq!(check(RowKind::Boot, &part("sda2", "vfat", 2000000000)).subtitle, RowSubtitle::BootFsBad);
    assert_eq!(check(RowKind::Boot, &part("sda2", "ext4", 999999999)).subtitle, RowSubtitle::BootFsSmall);
    assert!(check(RowKind::Boot, &part("sda2", "ext4", 1000000000)).sensitive);

    assert_eq!(check(RowKind::Root, &part("sda3", "ntfs", 100000000000)).subtitle, RowSubtitle::RootFsBad);
    assert_eq!(check(RowKind::Root, &part("sda3", "exfat", 100000000000)).subtitle, RowSubtitle::RootFsBad);
    assert_eq!(check(RowKind::Root, &part("sda3", "ext4", 20000000000)).subtitle, RowSubtitle::RootFsSmall);
    assert!(check(RowKind::Root, &part("sda3", "btrfs", 100000000000)).sensitive);

    // rows the user adds accept any filesystem and size
    assert!(check(RowKind::Extra, &part("sda9", "ntfs", 1)).sensitive);
}

#[test]
fn partitions_held_by_other_rows() {
    let used = vec![entry(part("sda3", "btrfs", 100000000000), "/", "", 2)];
    let p = part("sda3", "btrfs", 100000000000);

    let s = classify_partition_row(RowKind::Extra, &p, &used, &vec![], &String::new());
    assert_eq!((s.sensitive, s.usage), (false, Usage::Taken));

    let s = classify_partition_row(RowKind::Extra, &p, &used, &vec![subvol("sda3", 2)], &String::new());
    assert_eq!((s.sensitive, s.usage), (true, Usage::Shared));

    // the row that holds the partition still sees it as its own
    let s = classify_partition_row(RowKind::Root, &p, &used, &vec![], &"sda3".to_string());
    assert_eq!((s.sensitive, s.usage), (true, Usage::Free));
}

#[test]
fn swap_rows_need_swap_partitions() {
    let mut s = classify_partition_row(RowKind::Extra, &part("sda4", "ext4", 8000000000), &vec![], &vec![], &String::new());
    assert!(s.sensitive);
    let release = on_mountpoint_changed(&mut s, "[SWAP]", "ext4");
    assert!(release);
    assert!(s.swap_fs_error);
    assert!(!s.sensitive);

    let release = on_mountpoint_changed(&mut s, "/data", "ext4");
    assert!(!release);
    assert!(!s.swap_fs_error);
    assert!(s.sensitive);

    let mut w = classify_partition_row(RowKind::Extra, &part("sda6", "swap", 8000000000), &vec![], &vec![], &String::new());
    assert!(!on_mountpoint_changed(&mut w, "[SWAP]", "swap"));
    assert!(w.sensitive);
    assert!(!on_mountpoint_changed(&mut w, "[SWAP]", "linux-swap"));
}

#[test]
fn offered_partitions_follow_the_holdings() {
    let mut s = PartitionRowState {
        sensitive: true,
        subtitle: RowSubtitle::FsAndSize,
        swap_fs_error: false,
        hardcode_fs_error: false,
        usage: Usage::Free,
        never: false,
    };
    let name = "sda3".to_string();
    let used = vec![entry(part("sda3", "btrfs", 1), "/data", "", 5)];

    // another row takes the partition this row holds: this row lets go
    let clear = on_partition_changed(&mut s, &name, &name, 4, &used, &vec![]);
    assert!(clear);
    assert_eq!((s.sensitive, s.usage), (false, Usage::Taken));

    // a subvolume on it lets every row pick it again
    let clear = on_partition_changed(&mut s, &name, &String::new(), 4, &used, &vec![subvol("sda3", 5)]);
    assert!(!clear);
    assert_eq!((s.sensitive, s.usage), (true, Usage::Shared));

    // it becomes free once no row holds it
    let clear = on_partition_changed(&mut s, &name, &String::new(), 4, &vec![], &vec![]);
    assert!(!clear);
    assert_eq!((s.sensitive, s.usage), (true, Usage::Free));

    // a partition that can never be picked stays insensitive
    let mut n = PartitionRowState { never: true, sensitive: false, ..s };
    on_partition_changed(&mut n, &name, &String::new(), 4, &vec![], &vec![]);
    assert!(!n.sensitive);
}

#[test]
fn mount_rows() {
    let rows = hardcoded_rows();
    assert_eq!(rows.len(), 3);
    assert_eq!(rows[0].0, RowKind::Efi);
    assert_eq!(rows[0].1.mountpoint, "/boot/efi");
    assert_eq!(rows[1].1.mountpoint, "/boot");
    assert_eq!(rows[2].1.mountpoint, "/");
    for (i, (_, r)) in rows.iter().enumerate() {
        assert_eq!(r.id, i as i32);
        assert!(!r.deletable);
        assert!(r.partition.is_empty());
    }

    let mut next = FIRST_EXTRA_ROW_ID;
    let a = new_extra_row(&mut next);
    let b = new_extra_row(&mut next);
    assert_eq!((a.id, b.id, next), (3, 4, 5));
    assert!(a.deletable && b.deletable);

    let r = DriveMountRow::new();
    assert_eq!(r.id, 0);
    assert!(!r.deletable);
    assert!(!r.has_partition());
}

#[test]
fn row_entries() {
    let mut r = DriveMountRow::new();
    r.partition = "  ".to_string();
    assert!(!r.has_partition());
    assert_eq!(r.partition_subtitle(), None);
    r.partition = "nvme0n1p2".to_string();
    r.mountpoint = "/home".to_string();
    r.mountopts = "subvol=@home".to_string();
    r.id = 7;
    assert!(r.has_partition());
    assert_eq!(r.partition_subtitle(), Some("nvme0n1p2".to_string()));
    let e = r.get_fstab_entry(PartitionProbe {
        part_fs: "btrfs".to_string(),
        part_uuid: "u".to_string(),
        has_encryption: false,
        part_size: 42,
        part_size_pretty: "42 B".to_string(),
    });
    assert_eq!(e.partition.part_name, "nvme0n1p2");
    assert_eq!(e.partition.part_fs, "btrfs");
    assert_eq!(e.partition.part_size, 42);
    assert!(!e.partition.need_mapper);
    assert_eq!(e.mountpoint, "/home");
    assert_eq!(e.mountopts, "subvol=@home");
    assert_eq!(e.used_by, 7);
}

#[test]
fn selecting_keeps_each_partition_once() {
    let mut used = Vec::new();
    select_partition(&mut used, entry(part("sda1", "vfat", 1), "/boot/efi", "", 0));
    select_partition(&mut used, entry(part("sda2", "ext4", 1), "/boot", "", 1));
    select_partition(&mut used, entry(part("sda1", "vfat", 1), "/other", "", 3));
    assert_eq!(used.len(), 2);
    assert_eq!(used[0].used_by, 0);
    assert_eq!(used[1].partition.part_name, "sda2");
}

#[test]
fn releasing_removes_exactly_the_row() {
    let mut used = vec![
        entry(part("sda1", "vfat", 1), "/boot/efi", "", 0),
        entry(part("sda2", "ext4", 1), "/boot", "", 4),
        entry(part("sda3", "btrfs", 1), "/", "", 2),
        entry(part("sda4", "btrfs", 1), "/home", "", 4),
    ];
    release_row(&mut used, 4);
    let names: Vec<&str> = used.iter().map(|e| e.partition.part_name.as_str()).collect();
    assert_eq!(names, vec!["sda1", "sda3"]);
    release_row(&mut used, 9);
    assert_eq!(used.len(), 2);
}

#[test]
fn subvolume_declarations() {
    let mut subvols = vec![subvol("sdb1", 3)];
    update_subvol_declarations(&mut subvols, 5, &"sda3".to_string(), "subvol=@home,compress=zstd");
    assert_eq!(subvols.len(), 2);
    assert_eq!((subvols[1].part_name.as_str(), subvols[1].made_by), ("sda3", 5));
    update_subvol_declarations(&mut subvols, 5, &"sda3".to_string(), "subvolid=256");
    assert_eq!(subvols.len(), 3);
    update_subvol_declarations(&mut subvols, 5, &"sda3".to_string(), "defaults");
    assert_eq!(subvols.len(), 1);
    assert_eq!(subvols[0].made_by, 3);
}

fn good_table() -> Vec<FstabEntry> {
    vec![
        entry(part("sda1", "vfat", 1), "/boot/efi", "", 0),
        entry(part("sda2", "ext4", 1), "/boot", "", 1),
        entry(part("sda3", "btrfs", 1), "/", "", 2),
        entry(part("sda4", "swap", 1), "[SWAP]", "", 3),
    ]
}

#[test]
fn valid_table_passes() {
    let r = validate_filesystem_table(&good_table(), true);
    assert!(!r.errored);
    assert!(!r.mountpoint_empty && !r.mountpoint_invalid && !r.partition_empty && !r.mountpoint_duplicate);
}

#[test]
fn table_errors() {
    let mut t = good_table();
    t.push(entry(part("sda5", "ext4", 1), "/", "", 4));
    let r = validate_filesystem_table(&t, true);
    assert!(r.errored && r.mountpoint_duplicate);

    let mut t = good_table();
    t[3].partition.part_fs = "ext4".to_string();
    let r = validate_filesystem_table(&t, true);
    assert!(r.errored);
    assert!(!r.mountpoint_invalid && !r.mountpoint_duplicate && !r.partition_empty && !r.mountpoint_empty);

    let mut t = good_table();
    t.push(entry(part("sda5", "ext4", 1), "home", "", 4));
    let r = validate_filesystem_table(&t, true);
    assert!(r.errored && r.mountpoint_invalid);

    let mut t = good_table();
    t.push(entry(part("sda5", "ext4", 1), "/dev/shm", "", 4));
    assert!(validate_filesystem_table(&t, true).mountpoint_invalid);

    let mut t = good_table();
    t.push(entry(part("sda5", "ext4", 1), "", "", 4));
    let r = validate_filesystem_table(&t, true);
    assert!(r.errored && r.mountpoint_empty && r.mountpoint_invalid);

    let mut t = good_table();
    t.push(entry(part("", "", 1), "/data", "", 4));
    let r = validate_filesystem_table(&t, true);
    assert!(r.errored && r.partition_empty);
}

#[test]
fn repeated_partition_needs_a_subvolume() {
    let mut t = good_table();
    t.push(entry(part("sda3", "btrfs", 1), "/home", "subvol=@home", 4));
    assert!(validate_filesystem_table(&t, true).errored);
    assert!(!validate_filesystem_table(&t, false).errored);
}

#[test]
fn crypttab_entries() {
    let e = crypttab_entry("mapper/luks-1", "abcd".to_string(), true, "pw".to_string());
    assert_eq!(e.partition, "mapper/luks-1");
    assert_eq!(e.map, "luks-1");
    assert_eq!(e.uuid, "abcd");
    assert_eq!(e.password, Some("pw".to_string()));
    let e = crypttab_entry("sda3", "abcd".to_string(), false, "pw".to_string());
    assert_eq!(e.map, "sda3");
    assert_eq!(e.password, None);
}

#[test]
fn each_encrypted_partition_is_asked_once() {
    let mut seen = Vec::new();
    let mut locked = part("sda3", "crypto_LUKS", 1);
    locked.has_encryption = true;
    let a = entry(locked.clone(), "/", "subvol=@", 2);
    let b = entry(locked, "/home", "subvol=@home", 4);
    let c = entry(part("sda1", "vfat", 1), "/boot/efi", "", 0);
    assert!(needs_crypttab_prompt(&a, &mut seen));
    assert!(!needs_crypttab_prompt(&b, &mut seen));
    assert!(!needs_crypttab_prompt(&c, &mut seen));
    assert_eq!(seen, vec!["sda3".to_string()]);
}

#[test]
fn mounts_sorted_parents_first() {
    let t = vec![
        entry(part("sda4", "btrfs", 1), "/home", "", 3),
        entry(part("sda3", "btrfs", 1), "/", "", 2),
        entry(part("sda1", "vfat", 1), "/boot/efi", "", 0),
        entry(part("sda2", "ext4", 1), "/boot", "", 1),
        entry(part("sda5", "swap", 1), "[SWAP]", "", 4),
    ];
    let sorted = sort_fstab_entries(t);
    let mps: Vec<&str> = sorted.iter().map(|e| e.mountpoint.as_str()).collect();
    assert_eq!(mps, vec!["/", "/boot", "/boot/efi", "/home", "[SWAP]"]);
}

#[test]
fn sorting_is_stable() {
    let t = vec![
        entry(part("b", "ext4", 1), "/x", "", 1),
        entry(part("a", "ext4", 1), "/", "", 0),
        entry(part("c", "ext4", 1), "/x", "", 2),
    ];
    let sorted = sort_fstab_entries(t);
    let ids: Vec<i32> = sorted.iter().map(|e| e.used_by).collect();
    assert_eq!(ids, vec![0, 1, 2]);
}

#[test]
fn languages_and_layouts_sorted_by_name() {
    let locales = vec![
        PikaLocale { name: "fr_FR".to_string(), pretty_name: "French".to_string() },
        PikaLocale { name: "de_DE".to_string(), pretty_name: "German".to_string() },
        PikaLocale { name: "en_US".to_string(), pretty_name: "English".to_string() },
    ];
    let names: Vec<String> = sort_locales(locales).into_iter().map(|l| l.name).collect();
    assert_eq!(names, vec!["en_US", "fr_FR", "de_DE"]);

    let km = |layout: &str, pretty: &str| PikaKeymap {
        kbdmap: KBDMap { console: layout.to_string(), layout: layout.to_string(), variant: String::new() },
        pretty_name: pretty.to_string(),
    };
    let sorted = sort_keymaps(vec![km("us", "English (US)"), km("de", "German"), km("ara", "Arabic")]);
    let layouts: Vec<&str> = sorted.iter().map(|k| k.kbdmap.layout.as_str()).collect();
    assert_eq!(layouts, vec!["ara", "us", "de"]);
}
