use pika_installer::model::{BlockDevice, CrypttabEntry, FstabEntry, KBDMap, Partition, PikaKeymap, PikaLocale};
use pika_installer::script::{AutoFilesystem, HomeSeparation, InstallSettings, PartitionMethod};
use pika_installer::summary::{
    home_part_size, rounded_percent_of, signed_decimal_string, summary_rows, SubtitleKey, SummaryRow, SummaryTexts,
    SummaryTitle,
};

fn texts() -> SummaryTexts {
    SummaryTexts {
        automatic_target: "{DISK_NAME} ({DISK_SIZE})".to_string(),
        automatic_ratio: "root {ROOT_PER}% {ROOT_SIZE}, home {HOME_PER}% {HOME_SIZE}".to_string(),
        crypttab_auto: "{LUKS_NAME} unlocks by key".to_string(),
        crypttab_manual: "{LUKS_NAME} unlocks by hand".to_string(),
        fstab_entry: "{PART_NAME} {PART_SIZE} {PART_FS} on {MOUNTPOINT}".to_string(),
        root_size_pretty: "39.4 GB".to_string(),
        home_size_pretty: "59.1 GB".to_string(),
    }
}

fn settings(method: PartitionMethod) -> InstallSettings {
    InstallSettings {
        locale: PikaLocale { name: "de_DE".to_string(), pretty_name: "German".to_string() },
        keymap: PikaKeymap {
            kbdmap: KBDMap { console: "de".to_string(), layout: "de".to_string(), variant: String::new() },
            pretty_name: "German".to_string(),
        },
        timezone: "Europe/Berlin".to_string(),
        method,
        auto_target: BlockDevice {
            block_name: "nvme0n1".to_string(),
            block_model: "Disk".to_string(),
            block_size: 100000000000,
            block_size_pretty: "100 GB".to_string(),
        },
        auto_filesystem: AutoFilesystem::Ext4,
        auto_luks_enabled: false,
        auto_luks_password: String::new(),
        auto_root_size: 39400000000,
        auto_separation: HomeSeparation::Partition,
        manual_fstab: Vec::new(),
        manual_luks_enabled: false,
        manual_crypttab: Vec::new(),
    }
}

fn plain(rows: &[SummaryRow]) -> Vec<(SummaryTitle, Option<SubtitleKey>, String)> {
    rows.iter().map(|r| (r.title, r.subtitle_key, r.subtitle.clone())).collect()
}

#[test]
fn automatic_summary_with_home_partition() {
    let rows = summary_rows(&settings(PartitionMethod::Automatic), &texts()).unwrap();
    assert_eq!(
        plain(&rows),
        vec![
            (SummaryTitle::Language, None, "German".to_string()),
            (SummaryTitle::Keymap, None, "German".to_string()),
            (SummaryTitle::Timezone, None, "Europe/Berlin".to_string()),
            (SummaryTitle::PartitionMethodType, Some(SubtitleKey::MethodAutomatic), String::new()),
            (SummaryTitle::AutomaticTarget, None, "nvme0n1 (100 GB)".to_string()),
            (SummaryTitle::AutomaticTargetFs, None, "EXT4".to_string()),
            (SummaryTitle::AutomaticSeperation, Some(SubtitleKey::SeparationPartition), String::new()),
            (SummaryTitle::AutomaticRatio, None, "root 40% 39.4 GB, home 60% 59.1 GB".to_string()),
        ]
    );
}

#[test]
fn automatic_summary_without_home() {
    let mut s = settings(PartitionMethod::Automatic);
    s.auto_separation = HomeSeparation::Subvol;
    s.auto_filesystem = AutoFilesystem::Btrfs;
    s.auto_luks_enabled = true;
    let rows = plain(&summary_rows(&s, &texts()).unwrap());
    assert_eq!(rows.len(), 7);
    assert_eq!(rows[3].1, Some(SubtitleKey::MethodAutomaticLuks));
    assert_eq!(rows[5].2, "BTRFS");
    assert_eq!(rows[6], (SummaryTitle::AutomaticSeperation, Some(SubtitleKey::SeparationSubvol), String::new()));

    s.auto_separation = HomeSeparation::NoSeparation;
    s.auto_filesystem = AutoFilesystem::Xfs;
    let rows = plain(&summary_rows(&s, &texts()).unwrap());
    assert_eq!(rows[5].2, "XFS");
    assert_eq!(rows[6].1, Some(SubtitleKey::SeparationNone));
}

#[test]
fn manual_summary() {
    let mut s = settings(PartitionMethod::Manual);
    s.manual_luks_enabled = true;
    s.manual_crypttab = vec![
        CrypttabEntry { partition: "sda3".to_string(), map: "sda3".to_string(), uuid: String::new(), password: Some("x".to_string()) },
        CrypttabEntry { partition: "sda4".to_string(), map: "sda4".to_string(), uuid: String::new(), password: None },
    ];
    s.manual_fstab = vec![FstabEntry {
        partition: Partition {
            part_name: "sda3".to_string(),
            part_fs: "btrfs".to_string(),
            part_uuid: String::new(),
            has_encryption: true,
            need_mapper: false,
            part_size: 1,
            part_size_pretty: "60 GB".to_string(),
        },
        mountpoint: "/".to_string(),
        mountopts: String::new(),
        used_by: 2,
    }];
    let rows = plain(&summary_rows(&s, &texts()).unwrap());
    assert_eq!(rows.len(), 7);
    assert_eq!(rows[3].1, Some(SubtitleKey::MethodManualLuks));
    assert_eq!(rows[4], (SummaryTitle::ManualCrypttabEntry, None, "sda3 unlocks by key".to_string()));
    assert_eq!(rows[5], (SummaryTitle::ManualCrypttabEntry, None, "sda4 unlocks by hand".to_string()));
    assert_eq!(rows[6], (SummaryTitle::ManualFstabEntry, None, "sda3 60 GB btrfs on /".to_string()));

    s.manual_luks_enabled = false;
    let rows = plain(&summary_rows(&s, &texts()).unwrap());
    assert_eq!(rows.len(), 5);
    assert_eq!(rows[3].1, Some(SubtitleKey::MethodManual));
}

#[test]
fn broken_template_gives_no_summary() {
    let mut t = texts();
    t.automatic_target = "{DISK_NAME".to_string();
    assert!(summary_rows(&settings(PartitionMethod::Automatic), &t).is_none());
    let mut t = texts();
    t.fstab_entry = "{UNKNOWN}".to_string();
    let mut s = settings(PartitionMethod::Manual);
    assert!(summary_rows(&s, &t).is_some());
    s.manual_fstab = vec![FstabEntry {
        partition: Partition {
            part_name: "sda1".to_string(),
            part_fs: String::new(),
            part_uuid: String::new(),
            has_encryption: false,
            need_mapper: false,
            part_size: 0,
            part_size_pretty: String::new(),
        },
        mountpoint: "/".to_string(),
        mountopts: String::new(),
        used_by: 0,
    }];
    assert!(summary_rows(&s, &t).is_none());
}

#[test]
fn shares_of_an_oversized_root() {
    let mut s = settings(PartitionMethod::Automatic);
    s.auto_target.block_size = 50000000000;
    s.auto_root_size = 50000000000;
    let rows = plain(&summary_rows(&s, &texts()).unwrap());
    assert_eq!(rows[7].2, "root 103% 39.4 GB, home -3% 59.1 GB");
}

#[test]
fn summary_of_a_disk_smaller_than_the_boot_partitions() {
    let mut s = settings(PartitionMethod::Automatic);
    s.auto_target.block_size = 1000000000;
    s.auto_root_size = 0;
    let rows = plain(&summary_rows(&s, &texts()).unwrap());
    assert_eq!(rows[7].2, "root 0% 39.4 GB, home 100% 59.1 GB");
    s.auto_target.block_size = 1500000000;
    s.auto_root_size = 10;
    let rows = plain(&summary_rows(&s, &texts()).unwrap());
    assert_eq!(rows[7].2, "root 9223372036854775807% 39.4 GB, home -9223372036854775808% 59.1 GB");
}

#[test]
fn huge_disks_are_summarised() {
    let mut s = settings(PartitionMethod::Automatic);
    s.auto_target.block_size = u64::MAX;
    s.auto_root_size = 0;
    let rows = plain(&summary_rows(&s, &texts()).unwrap());
    assert_eq!(rows[7].2, "root 0% 39.4 GB, home 100% 59.1 GB");
}

#[test]
fn numbers() {
    assert_eq!(signed_decimal_string(-42), "-42");
    assert_eq!(signed_decimal_string(0), "0");
    assert_eq!(signed_decimal_string(i64::MAX), i64::MAX.to_string());
    assert_eq!(signed_decimal_string(i64::MIN), i64::MIN.to_string());
    assert_eq!(rounded_percent_of(-1, 3), -33);
    assert_eq!(rounded_percent_of(-1, 2), -50);
    assert_eq!(rounded_percent_of(1, 2), 50);
    assert_eq!(home_part_size(100000000000, 39400000000), 59100000000);
    assert_eq!(home_part_size(1000000000, 0), -500000000);
    assert_eq!(home_part_size(u64::MAX, 0), u64::MAX as i128 - 1500000000);
    assert_eq!(home_part_size(0, u64::MAX), -1500000000 - u64::MAX as i128);
    // a negative whole gives the share of the negated part
    assert_eq!(rounded_percent_of(1, -3), -33);
    assert_eq!(rounded_percent_of(-2, -3), 67);
    // an empty whole saturates by the sign of the part
    assert_eq!(rounded_percent_of(5, 0), i64::MAX);
    assert_eq!(rounded_percent_of(-5, 0), i64::MIN);
    assert_eq!(rounded_percent_of(0, 0), 0);
    // shares beyond the i64 range are held at its ends
    assert_eq!(rounded_percent_of(u64::MAX as i128, 1), i64::MAX);
    assert_eq!(rounded_percent_of(-(u64::MAX as i128), 1), i64::MIN);
}
