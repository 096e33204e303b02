use pika_installer::install_plan::{
    auto_confirm_lines, auto_install_sizes, manual_confirm_title, manual_luks_file, manual_mount_file, partition_device, record_probe,
    should_probe_encryption,
};
use pika_installer::mount_check::{distinct_partition_rows, partition_err_check, CheckedMount, DriveMount, ErrorLine};
use pika_installer::partitioning_checks::{
    boot_error, boot_error_text, chroot_error, chroot_error_text, disk_error_text, efi_error_text, BootError, ChrootChecks,
    ChrootError, DiskChoicePage, MountVerdicts,
};
use pika_installer::sorting::sort_drive_mounts;

fn mount(partition: &str, mountpoint: &str) -> DriveMount {
    DriveMount { partition: partition.to_string(), mountpoint: mountpoint.to_string(), mountopt: String::new() }
}

fn checked(partition: &str, mountpoint: &str, size: u64, fs: &str) -> CheckedMount {
    CheckedMount {
        partition: partition.to_string(),
        mountpoint: mountpoint.to_string(),
        mountopt: String::new(),
        size,
        fs: fs.to_string(),
    }
}

fn hidden() -> ErrorLine {
    ErrorLine { visible: false, code: None, detail: String::new() }
}

#[test]
fn good_table_is_valid() {
    let mounts = vec![mount("sda1", "/boot/efi"), mount("sda2", "/boot"), mount("sda3", "/")];
    let rows = vec![
        checked("sda1", "/boot/efi", 536870912, "vfat"),
        checked("sda2", "/boot", 1073741824, "ext4"),
        checked("sda3", "/", 50000000000, "btrfs"),
    ];
    let mut line = hidden();
    assert!(partition_err_check(&mut line, false, &mounts, &rows));
    assert!(!line.visible);
}

#[test]
fn small_efi_partition_is_reported() {
    let mounts = vec![mount("sda1", "/boot/efi")];
    let rows = vec![checked("sda1", "/boot/efi", 100000000, "vfat")];
    let mut line = hidden();
    assert!(!partition_err_check(&mut line, true, &mounts, &rows));
    assert!(line.visible);
    assert_eq!(line.code, Some(3));
    assert_eq!(line.detail, "sda1");
}

#[test]
fn each_row_rule_has_its_code() {
    let cases = [
        (checked("sda1", "/boot/efi", 600000000, "ext4"), 4u8, "sda1"),
        (checked("sda2", "/boot", 100, "ext4"), 5, "sda2"),
        (checked("sda2", "/boot", 2000000000, "vfat"), 6, "sda2"),
        (checked("sda3", "/", 1000, "btrfs"), 7, "sda3"),
        (checked("sda3", "/", 30000000000, "ntfs"), 8, "sda3"),
        (checked("sda4", "/home", 1000, "ext4"), 9, "sda4"),
        (checked("sda4", "/home", 20000000000, "exfat"), 10, "sda4"),
        (checked("sda5", "[SWAP]", 1000, "ext4"), 11, "sda5"),
        (checked("sda6", "data", 1000, "ext4"), 12, "data"),
    ];
    for (row, code, detail) in cases {
        let mounts = vec![mount(&row.partition, &row.mountpoint)];
        let mut line = hidden();
        let valid = partition_err_check(&mut line, true, &mounts, &vec![row]);
        assert!(!valid);
        assert!(line.visible);
        assert_eq!(line.code, Some(code));
        assert_eq!(line.detail, detail);
    }
}

#[test]
fn table_rules() {
    let mut line = hidden();
    let mounts = vec![mount("sda1", "/"), mount("sda2", "/")];
    let rows = vec![checked("sda1", "/", 50000000000, "btrfs"), checked("sda2", "/", 50000000000, "btrfs")];
    assert!(!partition_err_check(&mut line, true, &mounts, &rows));
    assert_eq!((line.visible, line.code), (true, Some(0)));

    let mut line = hidden();
    let mounts = vec![mount("sda1", "")];
    let rows = vec![checked("sda1", "", 1, "ext4")];
    let valid = partition_err_check(&mut line, true, &mounts, &rows);
    assert_eq!((line.visible, line.code), (true, Some(1)));
    assert!(!valid);

    // no row has a partition, so no row is visited and the valid line is kept
    let mut line = hidden();
    let mounts = vec![mount("", "/data")];
    let valid = partition_err_check(&mut line, true, &mounts, &vec![]);
    assert_eq!((line.visible, line.code), (true, Some(2)));
    assert!(valid);
}

#[test]
fn each_distinct_row_with_a_partition_is_visited_once() {
    let mut with_opts = mount("sda1", "/");
    with_opts.mountopt = "compress=zstd".to_string();
    let mounts = vec![mount("sda1", "/"), mount("", "/data"), mount("sda1", "/"), with_opts, mount("sda2", "/home")];
    let rows = distinct_partition_rows(&mounts);
    let keys: Vec<(&str, &str, &str)> =
        rows.iter().map(|m| (m.partition.as_str(), m.mountpoint.as_str(), m.mountopt.as_str())).collect();
    assert_eq!(keys, vec![("sda1", "/", ""), ("sda1", "/", "compress=zstd"), ("sda2", "/home", "")]);
}

#[test]
fn an_error_shown_stays_until_its_own_rule_passes() {
    // the first problem found keeps the line; a later row with another problem does not replace it
    let mounts = vec![mount("sda1", "/boot/efi"), mount("sda3", "/")];
    let rows = vec![checked("sda1", "/boot/efi", 1, "vfat"), checked("sda3", "/", 1, "btrfs")];
    let mut line = hidden();
    assert!(!partition_err_check(&mut line, false, &mounts, &rows));
    assert_eq!((line.code, line.detail.as_str()), (Some(3), "sda1"));
}

#[test]
fn a_later_row_can_hide_an_error_shown_before() {
    // the check hides the line when a row passes the rule whose error it shows
    let mounts = vec![mount("sda5", "data"), mount("sda3", "/")];
    let rows = vec![checked("sda5", "data", 1, "ext4"), checked("sda3", "/", 50000000000, "btrfs")];
    let mut line = hidden();
    assert!(partition_err_check(&mut line, false, &mounts, &rows));
    assert!(!line.visible);
}

#[test]
fn drive_mounts_sorted_by_mountpoint() {
    let sorted = sort_drive_mounts(vec![mount("a", "/home"), mount("b", "/"), mount("c", "/boot")]);
    let parts: Vec<&str> = sorted.iter().map(|m| m.partition.as_str()).collect();
    assert_eq!(parts, vec!["b", "c", "a"]);
}

#[test]
fn encrypted_partitions_are_asked_about_once() {
    let mut unlocked: Vec<String> = Vec::new();
    let root = mount("sda3", "/");
    assert!(!should_probe_encryption(&root, &unlocked));

    let home = mount("sda4", "/home");
    assert!(should_probe_encryption(&home, &unlocked));
    assert!(record_probe(&home, &mut unlocked, true));
    assert_eq!(unlocked, vec!["sda4".to_string()]);

    let home_again = mount("sda4", "/home/shared");
    assert!(!should_probe_encryption(&home_again, &unlocked));

    let data = mount("sda5", "/data");
    assert!(should_probe_encryption(&data, &unlocked));
    assert!(!record_probe(&data, &mut unlocked, false));
    assert_eq!(unlocked.len(), 1);
}

#[test]
fn handover_files() {
    assert_eq!(manual_mount_file(0), "/tmp/pika-installer-gtk4-target-manual-p0.json");
    assert_eq!(manual_mount_file(12), "/tmp/pika-installer-gtk4-target-manual-p12.json");
    assert_eq!(manual_luks_file(3), "/tmp/pika-installer-gtk4-target-manual-luks-p3.json");
}

#[test]
fn partition_devices() {
    assert_eq!(partition_device("nvme0n1", 1), "nvme0n1p1");
    assert_eq!(partition_device("sda", 3), "sda3");
    assert_eq!(partition_device("mmcblk0", 10), "mmcblk010");
}

#[test]
fn confirmation_lines() {
    assert_eq!(manual_confirm_title(&mount("sda3", "/home"), " mounted on "), "/dev/sda3 mounted on /home");
    let lines = auto_confirm_lines("nvme0n1", "40 GB", "58.5 GB");
    assert_eq!(
        lines,
        vec![
            "512 MB nvme0n1p1 as fat32 on /boot/efi".to_string(),
            "1 GB nvme0n1p2 as ext4 on /boot".to_string(),
            "40 GB nvme0n1p3 as btrfs on /".to_string(),
            "58.5 GB nvme0n1p4 as btrfs on /home".to_string(),
        ]
    );
    let lines = auto_confirm_lines("sdb", "36.5 GB", "1 TB");
    assert_eq!(lines[0], "512 MB sdb1 as fat32 on /boot/efi");
    assert_eq!(lines[3], "1 TB sdb4 as btrfs on /home");
}

#[test]
fn disk_choice_checks() {
    let mut p = DiskChoicePage::new();
    assert!(!p.flags.next);
    p.on_device_toggled(true, "sda", 39000000000, "");
    assert!(p.flags.disk_error && !p.flags.next);
    assert_eq!(p.target, "");
    p.on_device_toggled(true, "sdb", 39000000001, "");
    assert!(!p.flags.disk_error && p.flags.next);
    assert_eq!(p.target, "sdb");
    p.on_luks_toggled(true, "");
    assert!(p.flags.luks_error && !p.flags.next);
    // a larger disk does not enable next while the passphrase error shows,
    // and with encryption on it is not recorded
    p.on_device_toggled(true, "sdc", 500000000000, "");
    assert!(!p.flags.next);
    assert_eq!(p.target, "sdb");
    p.on_password_changed(true, "pw");
    assert!(!p.flags.luks_error && p.flags.next);
    assert_eq!(p.luks_password, "pw");
    p.on_device_toggled(true, "sdd", 10, "pw");
    assert!(p.flags.disk_error && !p.flags.next);
    // with the size error shown, a passphrase edit keeps next and records nothing
    p.on_password_changed(true, "pw2");
    assert!(!p.flags.next);
    assert_eq!(p.luks_password, "pw");
    p.on_luks_toggled(false, "");
    assert!(!p.flags.luks_error && !p.flags.next);
    // a button turning off changes nothing
    let before = p.flags;
    p.on_device_toggled(false, "sde", 500000000000, "");
    assert_eq!(p.flags, before);
    assert_eq!(p.target, "sdb");
    assert_eq!(disk_error_text(), "Disk Size too small, PikaOS needs 40GB Disk");
}

#[test]
fn disk_choice_next_before_any_disk() {
    let mut p = DiskChoicePage::new();
    p.on_luks_toggled(false, "");
    assert!(p.flags.next);
    assert_eq!(p.target, "");
}

#[test]
fn directory_errors() {
    assert_eq!(chroot_error(""), Some(ChrootError::Empty));
    assert_eq!(chroot_error("/dev/sda1"), Some(ChrootError::Device));
    assert_eq!(chroot_error("/mnt/dev"), Some(ChrootError::Device));
    assert_eq!(chroot_error("/mnt/target"), None);
    assert_eq!(chroot_error_text(ChrootError::Empty), "No mountpoint specified.");
    assert_eq!(chroot_error_text(ChrootError::Device), "This Installer Takes mountpoints not devices.");
}

fn verdicts(home_not_root: bool, home_not_boot: bool, root_not_boot: bool, boot_not_efi: bool, root_not_efi: bool) -> MountVerdicts {
    MountVerdicts { home_not_root, home_not_boot, root_not_boot, boot_not_efi, root_not_efi }
}

#[test]
fn boot_line_shows_only_a_missing_boot_partition() {
    assert_eq!(boot_error(verdicts(true, true, true, true, true)), None);
    assert_eq!(boot_error(verdicts(true, false, true, true, true)), None);
    assert_eq!(boot_error(verdicts(true, true, true, false, true)), None);
    assert_eq!(boot_error(verdicts(true, false, false, false, true)), Some(BootError::NoBoot));
    assert_eq!(boot_error(verdicts(true, true, false, true, true)), Some(BootError::NoBoot));
    assert_eq!(boot_error_text(BootError::NoBoot), "No boot partition found in chroot, mount (CUSTOM_ROOT)/boot.");
    assert_eq!(boot_error_text(BootError::HomeIsBoot), "the /home and /boot partitions are the same.");
    assert_eq!(boot_error_text(BootError::EfiIsBoot), "the /boot/efi and /boot partitions are the same.");
    assert_eq!(efi_error_text(), "No EFI partition found in chroot, mount (CUSTOM_ROOT)/boot/efi.");
}

#[test]
fn chroot_directory_checks() {
    let mut s = ChrootChecks::new();
    assert!(!s.on_directory_checked("", verdicts(false, true, true, true, true)));
    assert_eq!(s.chroot_error, Some(ChrootError::Empty));
    assert!(!s.next);

    assert!(s.on_directory_checked("/mnt", verdicts(true, true, true, true, true)));
    assert!(s.next);
    assert_eq!(s.target, "/mnt");

    s.on_home_encryption(true);
    assert!(s.luks_entry_sensitive);
    s.on_home_passphrase(false);
    assert!(s.luks_error && !s.next);

    s.on_directory_checked("/mnt2", verdicts(true, true, true, true, false));
    assert!(s.efi_error && !s.next);
    assert_eq!(s.target, "/mnt");

    // a passphrase that unlocks enables next even while another line shows
    s.on_home_passphrase(true);
    assert!(!s.luks_error && s.next && s.efi_error);
}

#[test]
fn automatic_install_sizes() {
    let s = auto_install_sizes(100000000000);
    assert_eq!((s.root_size, s.home_size, s.root_end), (40000000000, 59999998464, 40000001537));
    let s = auto_install_sizes(100000000001);
    assert_eq!(s.root_size, 40000000000);
    let s = auto_install_sizes(1000000000000);
    assert_eq!((s.root_size, s.home_size, s.root_end), (150000000000, 849999998464, 150000001537));
    let s = auto_install_sizes(375000000000);
    assert_eq!(s.root_size, 150000000000);
    let s = auto_install_sizes(91268055040);
    assert_eq!(s.root_size, 36507222016);
    let s = auto_install_sizes(0);
    assert_eq!((s.root_size, s.home_size, s.root_end), (36507222016, -36507223552, 36507223553));
    let s = auto_install_sizes(u64::MAX);
    assert_eq!((s.root_size, s.home_size), (150000000000, 18446743923709550079));
}
