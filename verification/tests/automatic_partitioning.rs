use pika_installer::auto_partition::{
    check_for_errors, chosen_disk_title, default_root_size, disk_check, disk_row_subtitle, luks_check,
    root_size_range, separation_after_filesystem_choice, AutoPartitionChecks, LayoutChoice,
};
use pika_installer::script::AutoFilesystem::{Btrfs, Ext4, Xfs};
use pika_installer::script::HomeSeparation::{NoSeparation, Partition, Subvol};
use pika_installer::model::MINIMUM_ROOT_BYTE_SIZE;

#[test]
fn disk_size_limit() {
    assert!(disk_check(38999999999));
    assert!(!disk_check(39000000000));
    assert!(disk_check(0));
    assert!(!disk_check(u64::MAX));
}

#[test]
fn passphrase_errors() {
    let a = "a".to_string();
    let b = "b".to_string();
    let empty = String::new();
    assert_eq!(luks_check(true, &a, &b), (true, false));
    assert_eq!(luks_check(true, &empty, &empty), (false, true));
    assert_eq!(luks_check(true, &empty, &a), (true, true));
    assert_eq!(luks_check(true, &a, &a), (false, false));
    assert_eq!(luks_check(false, &a, &b), (false, false));
    assert_eq!(luks_check(false, &empty, &empty), (false, false));
}

#[test]
fn error_lines() {
    assert!(check_for_errors(&[false, false, false]));
    assert!(!check_for_errors(&[false, true]));
    assert!(check_for_errors(&[]));
}

#[test]
fn disk_titles() {
    assert_eq!(chosen_disk_title("Samsung SSD", "sda", "500 GB"), "Samsung SSD: sda 500 GB");
    assert_eq!(disk_row_subtitle("nvme0n1", "1 TB"), "nvme0n1 1 TB");
}

#[test]
fn page_opens_blocked() {
    let s = AutoPartitionChecks::new();
    assert!(s.nodisk_error);
    assert!(!s.next_sensitive());
}

#[test]
fn page_checks_follow_events() {
    let mut s = AutoPartitionChecks::new();
    s.on_device_toggled(true, 50000000000);
    assert_eq!(s.chosen_size, Some(50000000000));
    assert!(!s.nodisk_error);
    assert!(!s.small_error);
    assert!(s.next_sensitive());

    s.on_luks_toggled(true);
    assert!(s.luks_empty_error);
    assert!(!s.luks_mismatch_error);
    assert!(!s.next_sensitive());

    s.on_luks_password_changed("secret".to_string(), "secrex".to_string());
    assert!(s.luks_mismatch_error);
    assert!(!s.luks_empty_error);
    assert!(!s.next_sensitive());

    s.on_luks_password_changed("secret".to_string(), "secret".to_string());
    assert!(s.next_sensitive());

    s.on_device_toggled(true, 1000);
    assert!(s.small_error);
    assert!(!s.next_sensitive());

    // a button turning off keeps the disk that was chosen last
    s.on_device_toggled(false, 99999999999);
    assert_eq!(s.chosen_size, Some(1000));
    assert!(s.small_error);

    s.on_device_toggled(true, 64000000000);
    s.on_luks_toggled(false);
    assert!(!s.luks_empty_error && !s.luks_mismatch_error);
    assert!(s.next_sensitive());
}

#[test]
fn next_enabled_exactly_when_installable() {
    // law: the error lines agree with the state, and next follows them
    let sizes = [0u64, 38999999999, 39000000000, 120000000000];
    let passwords = [("", ""), ("x", "y"), ("pw", "pw")];
    for size in sizes {
        for luks in [false, true] {
            for (p, c) in passwords {
                let mut s = AutoPartitionChecks::new();
                s.on_device_toggled(true, size);
                s.on_luks_toggled(luks);
                s.on_luks_password_changed(p.to_string(), c.to_string());
                let installable = size >= MINIMUM_ROOT_BYTE_SIZE && (!luks || (!p.is_empty() && p == c));
                assert_eq!(s.next_sensitive(), installable);
            }
        }
    }
}

#[test]
fn default_root_sizes() {
    assert_eq!(default_root_size(100000000000), 39400000000);
    assert_eq!(default_root_size(500000000000), 100000000000);
    assert_eq!(default_root_size(50000000000), MINIMUM_ROOT_BYTE_SIZE);
    assert_eq!(default_root_size(1000000000), MINIMUM_ROOT_BYTE_SIZE);
    assert_eq!(default_root_size(251500000000), 100000000000);
    assert_eq!(default_root_size(100000000003), 39400000001);
}

#[test]
fn root_slider_range() {
    assert_eq!(root_size_range(100000000000), (39000000000, 88500000000));
    assert_eq!(root_size_range(0), (39000000000, -11500000000));
}

#[test]
fn only_btrfs_keeps_home_on_a_subvolume() {
    assert_eq!(separation_after_filesystem_choice(Ext4, Subvol), Partition);
    assert_eq!(separation_after_filesystem_choice(Xfs, Subvol), Partition);
    assert_eq!(separation_after_filesystem_choice(Btrfs, Subvol), Subvol);
    assert_eq!(separation_after_filesystem_choice(Ext4, NoSeparation), NoSeparation);
    assert_eq!(separation_after_filesystem_choice(Btrfs, Partition), Partition);
    for fs in [Btrfs, Ext4, Xfs] {
        for sep in [Subvol, Partition, NoSeparation] {
            let r = separation_after_filesystem_choice(fs, sep);
            assert!(r != Subvol || fs == Btrfs);
        }
    }
}

#[test]
fn next_waits_for_a_large_enough_disk() {
    let mut s = AutoPartitionChecks::new();
    assert!(!s.next_sensitive());
    s.on_luks_toggled(true);
    s.on_luks_password_changed("pw".to_string(), "pw".to_string());
    assert!(!s.next_sensitive());
    s.on_luks_toggled(false);
    assert!(!s.next_sensitive());
    s.on_device_toggled(true, 38999999999);
    assert!(!s.next_sensitive());
    s.on_device_toggled(false, 38999999999);
    assert!(!s.next_sensitive());
    s.on_device_toggled(true, 39000000000);
    assert!(s.next_sensitive());
}

#[test]
fn the_page_opens_with_btrfs_and_a_home_subvolume() {
    let c = LayoutChoice::new();
    assert_eq!(c.filesystem, Btrfs);
    assert_eq!(c.separation, Subvol);
    assert!(c.subvol_sensitive());
}

#[test]
fn filesystem_clicks_keep_the_subvolume_with_btrfs() {
    let mut c = LayoutChoice::new();
    c.choose_filesystem(Ext4);
    assert_eq!((c.filesystem, c.separation), (Ext4, Partition));
    assert!(!c.subvol_sensitive());
    c.choose_separation(Subvol);
    assert_eq!((c.filesystem, c.separation), (Ext4, Partition));
    c.choose_separation(NoSeparation);
    c.choose_filesystem(Btrfs);
    assert_eq!((c.filesystem, c.separation), (Btrfs, NoSeparation));
    c.choose_separation(Subvol);
    assert_eq!((c.filesystem, c.separation), (Btrfs, Subvol));
    c.choose_filesystem(Xfs);
    assert_eq!((c.filesystem, c.separation), (Xfs, Partition));
}
