use pika_installer::model::{BlockDevice, CrypttabEntry, FstabEntry, KBDMap, Partition, PikaKeymap, PikaLocale};
use pika_installer::script::{
    create_installation_script, decimal_string, fill_template, layout_template, AutoFilesystem, HomeSeparation,
    InstallSettings, LayoutTemplates, PartitionMethod, ScriptError,
};
use pika_installer::templates::{
    AUTOMATIC_HOME_NONE_EXT4_LOCKED_INSTALLATION_PROG, AUTOMATIC_HOME_NONE_EXT4_OPEN_INSTALLATION_PROG,
    AUTOMATIC_HOME_PART_EXT4_LOCKED_INSTALLATION_PROG, AUTOMATIC_HOME_PART_EXT4_OPEN_INSTALLATION_PROG,
    AUTOMATIC_LOCKED_PART_PIKAINSTALL_PROG, AUTOMATIC_OPEN_PART_PIKAINSTALL_PROG, AUTOMATIC_STANDARD_INSTALLATION_PROG,
    MANUAL_CRYPTTAB_PREPARE_PROG, MANUAL_CRYPT_ENTRY, MANUAL_CRYPT_ENTRY_WITH_KEYFILE, MANUAL_LOCKED_PART_PIKAINSTALL_PROG,
    MANUAL_OPEN_PART_PIKAINSTALL_PROG, MANUAL_PARTITION_MOUNT_PROG, MANUAL_PARTITION_MOUNT_WITH_OPTS_PROG,
    MANUAL_SWAP_LIST_PREPARE_PROG, MANUAL_SWAP_MOUNT_PROG, STANDARD_INSTALLATION_PROG,
};

fn vars(pairs: &[(&str, &str)]) -> Vec<(String, String)> {
    pairs.iter().map(|(k, v)| (k.to_string(), v.to_string())).collect()
}

/// Fills the simple templates of the installer by plain substitution.
fn subst(template: &str, pairs: &[(&str, &str)]) -> String {
    let mut s = template.to_string();
    for (k, v) in pairs {
        s = s.replace(&format!("{{{}}}", k), v);
    }
    s
}

fn part(name: &str, fs: &str) -> Partition {
    Partition {
        part_name: name.to_string(),
        part_fs: fs.to_string(),
        part_uuid: String::new(),
        has_encryption: false,
        need_mapper: false,
        part_size: 1,
        part_size_pretty: String::new(),
    }
}

fn entry(name: &str, fs: &str, mountpoint: &str, opts: &str) -> FstabEntry {
    FstabEntry { partition: part(name, fs), mountpoint: mountpoint.to_string(), mountopts: opts.to_string(), used_by: 0 }
}

fn settings(method: PartitionMethod) -> InstallSettings {
    InstallSettings {
        locale: PikaLocale { name: "en_US".to_string(), pretty_name: "English".to_string() },
        keymap: PikaKeymap {
            kbdmap: KBDMap { console: "us".to_string(), layout: "us".to_string(), variant: "intl".to_string() },
            pretty_name: "English (US, intl.)".to_string(),
        },
        timezone: "Europe/Berlin".to_string(),
        method,
        auto_target: BlockDevice {
            block_name: "sda".to_string(),
            block_model: "Disk".to_string(),
            block_size: 100000000000,
            block_size_pretty: "100 GB".to_string(),
        },
        auto_filesystem: AutoFilesystem::Ext4,
        auto_luks_enabled: false,
        auto_luks_password: String::new(),
        auto_root_size: 50000000000,
        auto_separation: HomeSeparation::NoSeparation,
        manual_fstab: Vec::new(),
        manual_luks_enabled: false,
        manual_crypttab: Vec::new(),
    }
}

/// Stand-in layout scripts, each naming its layout and using the variables
/// its layout receives.
fn layouts() -> LayoutTemplates {
    LayoutTemplates {
        btrfs_subvol_open: "btrfs subvol open {CHROOT_PATH}\n".to_string(),
        btrfs_subvol_locked: "btrfs subvol locked {CHROOT_PATH} '{AUTO_LUKS_PASSWORD}'\n".to_string(),
        btrfs_partition_open: "btrfs part open {ROOT_PART_SIZE_AS_I64_MIB}\n".to_string(),
        btrfs_partition_locked: "btrfs part locked '{AUTO_LUKS_PASSWORD}' {ROOT_PART_SIZE_AS_I64_MIB}\n".to_string(),
        btrfs_none_open: "btrfs none open\n".to_string(),
        btrfs_none_locked: "btrfs none locked '{AUTO_LUKS_PASSWORD}'\n".to_string(),
        xfs_partition_open: "xfs part open {ROOT_PART_SIZE_AS_I64_MIB}\n".to_string(),
        xfs_partition_locked: "xfs part locked '{AUTO_LUKS_PASSWORD}' {ROOT_PART_SIZE_AS_I64_MIB}\n".to_string(),
        xfs_none_open: "xfs none open\n".to_string(),
        xfs_none_locked: "xfs none locked '{AUTO_LUKS_PASSWORD}'\n".to_string(),
    }
}

fn header() -> String {
    subst(
        STANDARD_INSTALLATION_PROG,
        &[
            ("CHROOT_PATH", "/media/pikaos/installation"),
            ("LOCALE", "en_US"),
            ("KEYMAP_BASE", "us"),
            ("KEYMAP_VARIANT", "intl"),
            ("TIMEZONE", "Europe/Berlin"),
        ],
    )
}

#[test]
fn templates_are_filled_by_name() {
    assert_eq!(fill_template("Hello {NAME}!", &vars(&[("NAME", "you")])), Ok("Hello you!".to_string()));
    assert_eq!(fill_template("{A}{B}{A}", &vars(&[("A", "1"), ("B", "2")])), Ok("121".to_string()));
    assert_eq!(fill_template("{{literal}}", &vars(&[])), Ok("{literal}".to_string()));
    assert_eq!(fill_template("no names", &vars(&[("UNUSED", "x")])), Ok("no names".to_string()));
}

#[test]
fn unknown_names_are_format_errors() {
    assert_eq!(fill_template("{MISSING}", &vars(&[])), Err(ScriptError::Format));
    assert_eq!(fill_template("{unclosed", &vars(&[])), Err(ScriptError::Format));
}

#[test]
fn decimals() {
    assert_eq!(decimal_string(0), "0");
    assert_eq!(decimal_string(7), "7");
    assert_eq!(decimal_string(1234567), "1234567");
    assert_eq!(decimal_string(u64::MAX), u64::MAX.to_string());
}

#[test]
fn layout_templates() {
    let l = layouts();
    assert_eq!(layout_template(AutoFilesystem::Ext4, HomeSeparation::Subvol, false, &l), None);
    assert_eq!(layout_template(AutoFilesystem::Xfs, HomeSeparation::Subvol, true, &l), None);
    assert_eq!(layout_template(AutoFilesystem::Btrfs, HomeSeparation::Subvol, false, &l), Some(l.btrfs_subvol_open.as_str()));
    assert_eq!(layout_template(AutoFilesystem::Btrfs, HomeSeparation::Subvol, true, &l), Some(l.btrfs_subvol_locked.as_str()));
    assert_eq!(layout_template(AutoFilesystem::Btrfs, HomeSeparation::Partition, true, &l), Some(l.btrfs_partition_locked.as_str()));
    assert_eq!(layout_template(AutoFilesystem::Btrfs, HomeSeparation::NoSeparation, false, &l), Some(l.btrfs_none_open.as_str()));
    assert_eq!(layout_template(AutoFilesystem::Xfs, HomeSeparation::Partition, false, &l), Some(l.xfs_partition_open.as_str()));
    assert_eq!(layout_template(AutoFilesystem::Xfs, HomeSeparation::NoSeparation, true, &l), Some(l.xfs_none_locked.as_str()));
    assert_eq!(
        layout_template(AutoFilesystem::Ext4, HomeSeparation::Partition, true, &l),
        Some(AUTOMATIC_HOME_PART_EXT4_LOCKED_INSTALLATION_PROG)
    );
    assert_eq!(
        layout_template(AutoFilesystem::Ext4, HomeSeparation::Partition, false, &l),
        Some(AUTOMATIC_HOME_PART_EXT4_OPEN_INSTALLATION_PROG)
    );
    assert_eq!(
        layout_template(AutoFilesystem::Ext4, HomeSeparation::NoSeparation, true, &l),
        Some(AUTOMATIC_HOME_NONE_EXT4_LOCKED_INSTALLATION_PROG)
    );
    assert_eq!(
        layout_template(AutoFilesystem::Ext4, HomeSeparation::NoSeparation, false, &l),
        Some(AUTOMATIC_HOME_NONE_EXT4_OPEN_INSTALLATION_PROG)
    );
}

#[test]
fn manual_script() {
    let mut s = settings(PartitionMethod::Manual);
    s.manual_fstab = vec![
        entry("sda3", "btrfs", "/", "subvol=@"),
        entry("sda2", "ext4", "/boot", ""),
        entry("sda5", "swap", "[SWAP]", ""),
        entry("sda6", "swap", "[SWAP]", ""),
    ];
    let expected = header()
        + &subst(MANUAL_PARTITION_MOUNT_WITH_OPTS_PROG, &[("PART", "sda3"), ("MOUNTPOINT", "/"), ("OPTS", "subvol=@")])
        + &subst(MANUAL_PARTITION_MOUNT_PROG, &[("PART", "sda2"), ("MOUNTPOINT", "/boot")])
        + MANUAL_SWAP_LIST_PREPARE_PROG
        + &subst(MANUAL_SWAP_MOUNT_PROG, &[("PART", "sda5")])
        + &subst(MANUAL_SWAP_MOUNT_PROG, &[("PART", "sda6")])
        + MANUAL_OPEN_PART_PIKAINSTALL_PROG;
    assert_eq!(create_installation_script(&s, &layouts()), Ok(expected));
}

#[test]
fn manual_script_with_crypttab() {
    let mut s = settings(PartitionMethod::Manual);
    s.manual_luks_enabled = true;
    s.manual_crypttab = vec![
        CrypttabEntry {
            partition: "sda3".to_string(),
            map: "sda3".to_string(),
            uuid: "u-1".to_string(),
            password: Some("it's".to_string()),
        },
        CrypttabEntry { partition: "sda4".to_string(), map: "sda4".to_string(), uuid: "u-2".to_string(), password: None },
    ];
    s.manual_fstab = vec![entry("mapper/sda3", "btrfs", "/", "")];
    let expected = header()
        + MANUAL_CRYPTTAB_PREPARE_PROG
        + &subst(MANUAL_CRYPT_ENTRY_WITH_KEYFILE, &[("MAP", "sda3"), ("UUID", "u-1"), ("LUKS_PASSWD", "it'\"'\"'s")])
        + &subst(MANUAL_CRYPT_ENTRY, &[("MAP", "sda4"), ("UUID", "u-2")])
        + &subst(MANUAL_PARTITION_MOUNT_PROG, &[("PART", "mapper/sda3"), ("MOUNTPOINT", "/")])
        + MANUAL_LOCKED_PART_PIKAINSTALL_PROG;
    assert_eq!(create_installation_script(&s, &layouts()), Ok(expected));
}

#[test]
fn automatic_script_without_home() {
    let s = settings(PartitionMethod::Automatic);
    let expected = header()
        + &subst(AUTOMATIC_STANDARD_INSTALLATION_PROG, &[("AUTO_INSTALL_TARGET_DISK", "sda")])
        + AUTOMATIC_HOME_NONE_EXT4_OPEN_INSTALLATION_PROG
        + AUTOMATIC_OPEN_PART_PIKAINSTALL_PROG;
    assert_eq!(create_installation_script(&s, &layouts()), Ok(expected));
}

#[test]
fn automatic_encrypted_script_with_home_partition() {
    let mut s = settings(PartitionMethod::Automatic);
    s.auto_separation = HomeSeparation::Partition;
    s.auto_luks_enabled = true;
    s.auto_luks_password = "p'w".to_string();
    s.auto_root_size = 52428800000;
    let expected = header()
        + &subst(AUTOMATIC_STANDARD_INSTALLATION_PROG, &[("AUTO_INSTALL_TARGET_DISK", "sda")])
        + &subst(
            AUTOMATIC_HOME_PART_EXT4_LOCKED_INSTALLATION_PROG,
            &[
                ("CHROOT_PATH", "/media/pikaos/installation"),
                ("AUTO_LUKS_PASSWORD", "p'\"'\"'w"),
                ("ROOT_PART_SIZE_AS_I64_MIB", "50000"),
            ],
        )
        + AUTOMATIC_LOCKED_PART_PIKAINSTALL_PROG;
    assert_eq!(create_installation_script(&s, &layouts()), Ok(expected));
}

#[test]
fn root_size_is_written_in_whole_mebibytes() {
    let mut s = settings(PartitionMethod::Automatic);
    s.auto_separation = HomeSeparation::Partition;
    s.auto_root_size = 39000000000;
    let script = create_installation_script(&s, &layouts()).unwrap();
    assert!(script.contains("PIKA_INSTALL_AUTO_ROOT_SIZE=37193\n"));
}

#[test]
fn btrfs_and_xfs_scripts() {
    let prepare = subst(AUTOMATIC_STANDARD_INSTALLATION_PROG, &[("AUTO_INSTALL_TARGET_DISK", "sda")]);
    let mut s = settings(PartitionMethod::Automatic);
    s.auto_filesystem = AutoFilesystem::Btrfs;
    s.auto_separation = HomeSeparation::Subvol;
    assert_eq!(
        create_installation_script(&s, &layouts()),
        Ok(header() + &prepare + "btrfs subvol open /media/pikaos/installation\n" + AUTOMATIC_OPEN_PART_PIKAINSTALL_PROG)
    );
    s.auto_luks_enabled = true;
    s.auto_luks_password = "a'b".to_string();
    assert_eq!(
        create_installation_script(&s, &layouts()),
        Ok(header() + &prepare + "btrfs subvol locked /media/pikaos/installation 'a'\"'\"'b'\n" + AUTOMATIC_LOCKED_PART_PIKAINSTALL_PROG)
    );
    s.auto_separation = HomeSeparation::Partition;
    s.auto_root_size = 52428800000;
    assert_eq!(
        create_installation_script(&s, &layouts()),
        Ok(header() + &prepare + "btrfs part locked 'a'\"'\"'b' 50000\n" + AUTOMATIC_LOCKED_PART_PIKAINSTALL_PROG)
    );
    s.auto_filesystem = AutoFilesystem::Xfs;
    s.auto_luks_enabled = false;
    assert_eq!(
        create_installation_script(&s, &layouts()),
        Ok(header() + &prepare + "xfs part open 50000\n" + AUTOMATIC_OPEN_PART_PIKAINSTALL_PROG)
    );
    s.auto_separation = HomeSeparation::NoSeparation;
    assert_eq!(
        create_installation_script(&s, &layouts()),
        Ok(header() + &prepare + "xfs none open\n" + AUTOMATIC_OPEN_PART_PIKAINSTALL_PROG)
    );
    s.auto_filesystem = AutoFilesystem::Btrfs;
    s.auto_luks_enabled = true;
    assert_eq!(
        create_installation_script(&s, &layouts()),
        Ok(header() + &prepare + "btrfs none locked 'a'\"'\"'b'\n" + AUTOMATIC_LOCKED_PART_PIKAINSTALL_PROG)
    );
}

#[test]
fn broken_layout_is_a_format_error() {
    let mut l = layouts();
    l.btrfs_none_open = "{UNKNOWN}".to_string();
    let mut s = settings(PartitionMethod::Automatic);
    s.auto_filesystem = AutoFilesystem::Btrfs;
    s.auto_separation = HomeSeparation::NoSeparation;
    assert_eq!(create_installation_script(&s, &l), Err(ScriptError::Format));
}

#[test]
fn script_escapes_user_text() {
    let mut s = settings(PartitionMethod::Manual);
    s.timezone = "It's/Here".to_string();
    let script = create_installation_script(&s, &layouts()).unwrap();
    assert!(script.contains("PIKA_INSTALL_TIMEZONE='It'\"'\"'s/Here'"));
    assert!(script.starts_with("#! /bin/bash\n"));
    assert!(script.ends_with(MANUAL_OPEN_PART_PIKAINSTALL_PROG));
}
