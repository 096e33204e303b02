//! The installation script run once the user confirms: an opening that sets
//! locale, keymap and timezone, then either automatic partitioning of a disk
//! or the mounting of the partitions chosen by hand, then the installer call.
use vstd::prelude::*;

use crate::model::{BlockDevice, CrypttabEntry, FstabEntry, PikaKeymap, PikaLocale};
use crate::templates::{
    STANDARD_INSTALLATION_PROG,
    AUTOMATIC_STANDARD_INSTALLATION_PROG,
    AUTOMATIC_OPEN_PART_PIKAINSTALL_PROG,
    AUTOMATIC_LOCKED_PART_PIKAINSTALL_PROG,
    AUTOMATIC_HOME_PART_EXT4_OPEN_INSTALLATION_PROG,
    AUTOMATIC_HOME_PART_EXT4_LOCKED_INSTALLATION_PROG,
    AUTOMATIC_HOME_NONE_EXT4_OPEN_INSTALLATION_PROG,
    AUTOMATIC_HOME_NONE_EXT4_LOCKED_INSTALLATION_PROG,
    MANUAL_PARTITION_MOUNT_PROG,
    MANUAL_PARTITION_MOUNT_WITH_OPTS_PROG,
    MANUAL_SWAP_MOUNT_PROG,
    MANUAL_CRYPT_ENTRY,
    MANUAL_CRYPT_ENTRY_WITH_KEYFILE,
    MANUAL_OPEN_PART_PIKAINSTALL_PROG,
    MANUAL_LOCKED_PART_PIKAINSTALL_PROG,
    MANUAL_CRYPTTAB_PREPARE_PROG,
    MANUAL_SWAP_LIST_PREPARE_PROG,
};
use crate::text::{shell_escape, shell_escaped, str_eq};

verus! {

#[verifier::external_type_specification]
#[verifier::external_body]
pub struct ExFmtError(strfmt::FmtError);

/// What `strfmt::strfmt` gives for `template` with the variables `vars`
/// (name and value of each), or `None` where it reports an error.
pub uninterp spec fn strfmt_output(template: Seq<char>, vars: Seq<(Seq<char>, Seq<char>)>) -> Option<Seq<char>>;

/// The variables as pairs of character sequences.
pub open spec fn vars_view(vars: Seq<(String, String)>) -> Seq<(Seq<char>, Seq<char>)> {
    vars.map_values(|p: (String, String)| (p.0@, p.1@))
}

/// Calls `strfmt::strfmt` with the variables gathered into a `HashMap`.
/// The contract names the outcome and claims nothing else about it: success
/// exactly when the call returns `Ok`, and then the returned text.
#[verifier::external_body]
fn strfmt_call(template: &str, vars: &Vec<(String, String)>) -> (r: Result<String, strfmt::FmtError>)
    ensures
        r is Ok <==> strfmt_output(template@, vars_view(vars@)) is Some,
        r matches Ok(s) ==> s@ == strfmt_output(template@, vars_view(vars@))->0,
{
    let map: std::collections::HashMap<String, &str> = vars.iter().map(|(k, v)| (k.clone(), v.as_str())).collect();
    strfmt::strfmt(template, &map)
}

/// Why no installation script could be written.
#[derive(Clone, Copy, Debug, PartialEq, Eq, Structural)]
pub enum ScriptError {
    /// `strfmt` rejected a template.
    Format,
    /// The filesystem cannot hold `/home` in the chosen way: a subvolume
    /// needs btrfs.
    UnsupportedLayout,
}

/// The layout scripts of the btrfs and xfs layouts, which the installer
/// reads when it writes the script; the ext4 layouts ship with the library
/// (`templates`). Each partitions, formats and mounts the disk in one way.
pub struct LayoutTemplates {
    /// btrfs, `/home` on a subvolume, unencrypted.
    pub btrfs_subvol_open: String,
    /// btrfs, `/home` on a subvolume, encrypted; uses `AUTO_LUKS_PASSWORD`.
    pub btrfs_subvol_locked: String,
    /// btrfs, `/home` on a partition, unencrypted; uses `ROOT_PART_SIZE_AS_I64_MIB`.
    pub btrfs_partition_open: String,
    /// btrfs, `/home` on a partition, encrypted.
    pub btrfs_partition_locked: String,
    /// btrfs, no separate `/home`, unencrypted.
    pub btrfs_none_open: String,
    /// btrfs, no separate `/home`, encrypted.
    pub btrfs_none_locked: String,
    /// xfs, `/home` on a partition, unencrypted.
    pub xfs_partition_open: String,
    /// xfs, `/home` on a partition, encrypted.
    pub xfs_partition_locked: String,
    /// xfs, no separate `/home`, unencrypted.
    pub xfs_none_open: String,
    /// xfs, no separate `/home`, encrypted.
    pub xfs_none_locked: String,
}

/// Fills `template` with `vars`.
pub fn fill_template(template: &str, vars: &Vec<(String, String)>) -> (r: Result<String, ScriptError>)
    ensures
        r is Ok <==> strfmt_output(template@, vars_view(vars@)) is Some,
        r matches Ok(s) ==> s@ == strfmt_output(template@, vars_view(vars@))->0,
        r matches Err(e) ==> e == ScriptError::Format,
{
    match strfmt_call(template, vars) {
        Ok(s) => Ok(s),
        Err(_) => Err(ScriptError::Format),
    }
}

/// How the disk is to be partitioned.
#[derive(Clone, Copy, Debug, PartialEq, Eq, Structural)]
pub enum PartitionMethod {
    Automatic,
    Manual,
}

/// The filesystem of automatic partitioning.
#[derive(Clone, Copy, Debug, PartialEq, Eq, Structural)]
pub enum AutoFilesystem {
    Btrfs,
    Ext4,
    Xfs,
}

/// Where automatic partitioning puts `/home`.
#[derive(Clone, Copy, Debug, PartialEq, Eq, Structural)]
pub enum HomeSeparation {
    /// A btrfs subvolume on the root partition.
    Subvol,
    /// A partition of its own.
    Partition,
    /// No separate `/home`.
    NoSeparation,
}

/// Everything the pages collected that the script needs.
pub struct InstallSettings {
    pub locale: PikaLocale,
    pub keymap: PikaKeymap,
    pub timezone: String,
    pub method: PartitionMethod,
    /// The disk of automatic partitioning.
    pub auto_target: BlockDevice,
    pub auto_filesystem: AutoFilesystem,
    pub auto_luks_enabled: bool,
    pub auto_luks_password: String,
    /// The size of the root partition when `/home` has a partition, in bytes.
    pub auto_root_size: u64,
    pub auto_separation: HomeSeparation,
    pub manual_fstab: Vec<FstabEntry>,
    pub manual_luks_enabled: bool,
    pub manual_crypttab: Vec<CrypttabEntry>,
}

/// The directory the target system is mounted at during installation.
pub open spec fn chroot_path() -> Seq<char> {
    "/media/pikaos/installation"@
}

/// Number of bytes in a mebibyte.
pub const MIB: u64 = 1048576;

/// The decimal digits of `n`.
pub open spec fn decimal(n: nat) -> Seq<char>
    decreases n,
{
    if n < 10 {
        seq![digit_char(n)]
    } else {
        decimal(n / 10).push(digit_char(n % 10))
    }
}

pub open spec fn digit_char(d: nat) -> char {
    if d == 0 { '0' }
    else if d == 1 { '1' }
    else if d == 2 { '2' }
    else if d == 3 { '3' }
    else if d == 4 { '4' }
    else if d == 5 { '5' }
    else if d == 6 { '6' }
    else if d == 7 { '7' }
    else if d == 8 { '8' }
    else { '9' }
}

fn digit(d: u64) -> (c: char)
    requires
        d < 10,
    ensures
        c == digit_char(d as nat),
{
    if d == 0 { '0' }
    else if d == 1 { '1' }
    else if d == 2 { '2' }
    else if d == 3 { '3' }
    else if d == 4 { '4' }
    else if d == 5 { '5' }
    else if d == 6 { '6' }
    else if d == 7 { '7' }
    else if d == 8 { '8' }
    else { '9' }
}

/// The decimal representation of `n`.
pub fn decimal_string(n: u64) -> (r: String)
    ensures
        r@ == decimal(n as nat),
    decreases n,
{
    if n < 10 {
        let mut s = String::new();
        crate::text::push_char(&mut s, digit(n));
        assert(s@ =~= seq![digit_char(n as nat)]);
        s
    } else {
        let mut s = decimal_string(n / 10);
        crate::text::push_char(&mut s, digit(n % 10));
        s
    }
}

/// The text `a` followed by `b`, when both exist.
pub open spec fn cat(a: Option<Seq<char>>, b: Option<Seq<char>>) -> Option<Seq<char>> {
    match (a, b) {
        (Some(x), Some(y)) => Some(x + y),
        _ => None,
    }
}

/// The opening of the script.
pub open spec fn spec_header(s: InstallSettings) -> Option<Seq<char>> {
    strfmt_output(
        STANDARD_INSTALLATION_PROG@,
        seq![
            ("CHROOT_PATH"@, chroot_path()),
            ("LOCALE"@, shell_escaped(s.locale.name@)),
            ("KEYMAP_BASE"@, shell_escaped(s.keymap.kbdmap.layout@)),
            ("KEYMAP_VARIANT"@, shell_escaped(s.keymap.kbdmap.variant@)),
            ("TIMEZONE"@, shell_escaped(s.timezone@)),
        ],
    )
}

/// The template that partitions, formats and mounts the disk in automatic
/// mode; `None` where the filesystem cannot hold `/home` that way (a
/// subvolume on ext4 or xfs).
pub open spec fn spec_layout_template(fs: AutoFilesystem, sep: HomeSeparation, locked: bool, l: LayoutTemplates) -> Option<Seq<char>> {
    match (fs, sep) {
        (AutoFilesystem::Btrfs, HomeSeparation::Subvol) => Some(
            if locked { l.btrfs_subvol_locked@ } else { l.btrfs_subvol_open@ },
        ),
        (AutoFilesystem::Btrfs, HomeSeparation::Partition) => Some(
            if locked { l.btrfs_partition_locked@ } else { l.btrfs_partition_open@ },
        ),
        (AutoFilesystem::Btrfs, HomeSeparation::NoSeparation) => Some(
            if locked { l.btrfs_none_locked@ } else { l.btrfs_none_open@ },
        ),
        (AutoFilesystem::Ext4, HomeSeparation::Partition) => Some(
            if locked {
                AUTOMATIC_HOME_PART_EXT4_LOCKED_INSTALLATION_PROG@
            } else {
                AUTOMATIC_HOME_PART_EXT4_OPEN_INSTALLATION_PROG@
            },
        ),
        (AutoFilesystem::Ext4, HomeSeparation::NoSeparation) => Some(
            if locked {
                AUTOMATIC_HOME_NONE_EXT4_LOCKED_INSTALLATION_PROG@
            } else {
                AUTOMATIC_HOME_NONE_EXT4_OPEN_INSTALLATION_PROG@
            },
        ),
        (AutoFilesystem::Xfs, HomeSeparation::Partition) => Some(
            if locked { l.xfs_partition_locked@ } else { l.xfs_partition_open@ },
        ),
        (AutoFilesystem::Xfs, HomeSeparation::NoSeparation) => Some(
            if locked { l.xfs_none_locked@ } else { l.xfs_none_open@ },
        ),
        (_, HomeSeparation::Subvol) => None,
    }
}

/// The variables of the layout template.
pub open spec fn spec_layout_vars(s: InstallSettings) -> Seq<(Seq<char>, Seq<char>)> {
    let base = seq![("CHROOT_PATH"@, chroot_path())];
    let with_password = if s.auto_luks_enabled {
        base.push(("AUTO_LUKS_PASSWORD"@, shell_escaped(s.auto_luks_password@)))
    } else {
        base
    };
    if s.auto_separation == HomeSeparation::Partition {
        with_password.push(
            ("ROOT_PART_SIZE_AS_I64_MIB"@, shell_escaped(decimal((s.auto_root_size / MIB) as nat))),
        )
    } else {
        with_password
    }
}

/// The automatic part of the script: freeing the disk, then the layout,
/// then the installer call.
pub open spec fn spec_automatic(s: InstallSettings, l: LayoutTemplates) -> Result<Seq<char>, ScriptError> {
    let prepare = strfmt_output(
        AUTOMATIC_STANDARD_INSTALLATION_PROG@,
        seq![("AUTO_INSTALL_TARGET_DISK"@, shell_escaped(s.auto_target.block_name@))],
    );
    let tail = if s.auto_luks_enabled {
        AUTOMATIC_LOCKED_PART_PIKAINSTALL_PROG@
    } else {
        AUTOMATIC_OPEN_PART_PIKAINSTALL_PROG@
    };
    match prepare {
        None => Err(ScriptError::Format),
        Some(p) => match spec_layout_template(s.auto_filesystem, s.auto_separation, s.auto_luks_enabled, l) {
            None => Err(ScriptError::UnsupportedLayout),
            Some(t) => match strfmt_output(t, spec_layout_vars(s)) {
                None => Err(ScriptError::Format),
                Some(l) => Ok(p + l + tail),
            },
        },
    }
}

/// The crypttab line for one encrypted partition.
pub open spec fn spec_crypt_entry(e: CrypttabEntry) -> Option<Seq<char>> {
    match e.password {
        Some(p) => strfmt_output(
            MANUAL_CRYPT_ENTRY_WITH_KEYFILE@,
            seq![
                ("MAP"@, shell_escaped(e.map@)),
                ("UUID"@, shell_escaped(e.uuid@)),
                ("LUKS_PASSWD"@, shell_escaped(p@)),
            ],
        ),
        None => strfmt_output(
            MANUAL_CRYPT_ENTRY@,
            seq![("MAP"@, shell_escaped(e.map@)), ("UUID"@, shell_escaped(e.uuid@))],
        ),
    }
}

/// The crypttab lines of all entries, in order.
pub open spec fn spec_crypt_entries(es: Seq<CrypttabEntry>) -> Option<Seq<char>>
    decreases es.len(),
{
    if es.len() == 0 {
        Some(Seq::<char>::empty())
    } else {
        cat(spec_crypt_entries(es.drop_last()), spec_crypt_entry(es.last()))
    }
}

/// The entry mounts swap.
pub open spec fn is_swap_entry(e: FstabEntry) -> bool {
    e.mountpoint@ == "[SWAP]"@
}

/// Some entry mounts swap.
pub open spec fn has_swap_entry(es: Seq<FstabEntry>) -> bool {
    exists|i: int| 0 <= i < es.len() && is_swap_entry(#[trigger] es[i])
}

/// The script lines for one mount entry; `swap_list_ready` tells whether an
/// entry before it already created the swap list.
pub open spec fn spec_mount_entry(e: FstabEntry, swap_list_ready: bool) -> Option<Seq<char>> {
    let part = shell_escaped(e.partition.part_name@);
    if is_swap_entry(e) {
        let prepare = if swap_list_ready {
            Seq::<char>::empty()
        } else {
            MANUAL_SWAP_LIST_PREPARE_PROG@
        };
        cat(Some(prepare), strfmt_output(MANUAL_SWAP_MOUNT_PROG@, seq![("PART"@, part)]))
    } else if e.mountopts@.len() > 0 {
        strfmt_output(
            MANUAL_PARTITION_MOUNT_WITH_OPTS_PROG@,
            seq![
                ("PART"@, part),
                ("MOUNTPOINT"@, shell_escaped(e.mountpoint@)),
                ("OPTS"@, shell_escaped(e.mountopts@)),
            ],
        )
    } else {
        strfmt_output(
            MANUAL_PARTITION_MOUNT_PROG@,
            seq![("PART"@, part), ("MOUNTPOINT"@, shell_escaped(e.mountpoint@))],
        )
    }
}

/// The script lines for all mount entries, in order.
pub open spec fn spec_mount_entries(es: Seq<FstabEntry>) -> Option<Seq<char>>
    decreases es.len(),
{
    if es.len() == 0 {
        Some(Seq::<char>::empty())
    } else {
        cat(
            spec_mount_entries(es.drop_last()),
            spec_mount_entry(es.last(), has_swap_entry(es.drop_last())),
        )
    }
}

/// The manual part of the script: crypttab lines when encryption is used,
/// the mounts, then the installer call.
pub open spec fn spec_manual(s: InstallSettings) -> Option<Seq<char>> {
    let crypt = if s.manual_luks_enabled {
        cat(Some(MANUAL_CRYPTTAB_PREPARE_PROG@), spec_crypt_entries(s.manual_crypttab@))
    } else {
        Some(Seq::<char>::empty())
    };
    let tail = if s.manual_luks_enabled {
        MANUAL_LOCKED_PART_PIKAINSTALL_PROG@
    } else {
        MANUAL_OPEN_PART_PIKAINSTALL_PROG@
    };
    cat(cat(crypt, spec_mount_entries(s.manual_fstab@)), Some(tail))
}

/// The whole installation script for the settings.
pub open spec fn spec_script(s: InstallSettings, l: LayoutTemplates) -> Result<Seq<char>, ScriptError> {
    match spec_header(s) {
        None => Err(ScriptError::Format),
        Some(h) => match s.method {
            PartitionMethod::Automatic => match spec_automatic(s, l) {
                Ok(a) => Ok(h + a),
                Err(e) => Err(e),
            },
            PartitionMethod::Manual => match spec_manual(s) {
                Some(m) => Ok(h + m),
                None => Err(ScriptError::Format),
            },
        },
    }
}

/// Combinations of filesystem and home separation the pages can produce:
/// only btrfs offers a subvolume for `/home`.
pub open spec fn layout_supported(s: InstallSettings) -> bool {
    s.method == PartitionMethod::Automatic && s.auto_separation == HomeSeparation::Subvol ==> s.auto_filesystem
        == AutoFilesystem::Btrfs
}

fn pair(name: &str, value: String) -> (r: (String, String))
    ensures
        r.0@ == name@,
        r.1@ == value@,
{
    (name.to_owned(), value)
}

fn header_text(s: &InstallSettings) -> (r: Result<String, ScriptError>)
    ensures
        r is Ok <==> spec_header(*s) is Some,
        r matches Ok(t) ==> t@ == spec_header(*s)->0,
        r matches Err(e) ==> e == ScriptError::Format,
{
    let vars = vec![
        pair("CHROOT_PATH", "/media/pikaos/installation".to_owned()),
        pair("LOCALE", shell_escape(s.locale.name.as_str())),
        pair("KEYMAP_BASE", shell_escape(s.keymap.kbdmap.layout.as_str())),
        pair("KEYMAP_VARIANT", shell_escape(s.keymap.kbdmap.variant.as_str())),
        pair("TIMEZONE", shell_escape(s.timezone.as_str())),
    ];
    assert(vars_view(vars@) =~= seq![
        ("CHROOT_PATH"@, chroot_path()),
        ("LOCALE"@, shell_escaped(s.locale.name@)),
        ("KEYMAP_BASE"@, shell_escaped(s.keymap.kbdmap.layout@)),
        ("KEYMAP_VARIANT"@, shell_escaped(s.keymap.kbdmap.variant@)),
        ("TIMEZONE"@, shell_escaped(s.timezone@)),
    ]);
    fill_template(STANDARD_INSTALLATION_PROG, &vars)
}

/// The layout template for the settings, from those that ship with the
/// library (ext4) and those read at run time (`l`).
pub fn layout_template<'a>(fs: AutoFilesystem, sep: HomeSeparation, locked: bool, l: &'a LayoutTemplates) -> (r: Option<&'a str>)
    ensures
        r is Some <==> spec_layout_template(fs, sep, locked, *l) is Some,
        r matches Some(t) ==> t@ == spec_layout_template(fs, sep, locked, *l)->0,
{
    match (fs, sep) {
        (AutoFilesystem::Btrfs, HomeSeparation::Subvol) => Some(
            if locked { l.btrfs_subvol_locked.as_str() } else { l.btrfs_subvol_open.as_str() },
        ),
        (AutoFilesystem::Btrfs, HomeSeparation::Partition) => Some(
            if locked { l.btrfs_partition_locked.as_str() } else { l.btrfs_partition_open.as_str() },
        ),
        (AutoFilesystem::Btrfs, HomeSeparation::NoSeparation) => Some(
            if locked { l.btrfs_none_locked.as_str() } else { l.btrfs_none_open.as_str() },
        ),
        (AutoFilesystem::Ext4, HomeSeparation::Partition) => Some(
            if locked {
                AUTOMATIC_HOME_PART_EXT4_LOCKED_INSTALLATION_PROG
            } else {
                AUTOMATIC_HOME_PART_EXT4_OPEN_INSTALLATION_PROG
            },
        ),
        (AutoFilesystem::Ext4, HomeSeparation::NoSeparation) => Some(
            if locked {
                AUTOMATIC_HOME_NONE_EXT4_LOCKED_INSTALLATION_PROG
            } else {
                AUTOMATIC_HOME_NONE_EXT4_OPEN_INSTALLATION_PROG
            },
        ),
        (AutoFilesystem::Xfs, HomeSeparation::Partition) => Some(
            if locked { l.xfs_partition_locked.as_str() } else { l.xfs_partition_open.as_str() },
        ),
        (AutoFilesystem::Xfs, HomeSeparation::NoSeparation) => Some(
            if locked { l.xfs_none_locked.as_str() } else { l.xfs_none_open.as_str() },
        ),
        (_, HomeSeparation::Subvol) => None,
    }
}

/// The layout templates with every encrypted template put in the place of
/// the unencrypted one of the same filesystem and `/home` choice.
pub open spec fn locked_as_open(l: LayoutTemplates) -> LayoutTemplates {
    LayoutTemplates {
        btrfs_subvol_open: l.btrfs_subvol_locked,
        btrfs_partition_open: l.btrfs_partition_locked,
        btrfs_none_open: l.btrfs_none_locked,
        xfs_partition_open: l.xfs_partition_locked,
        xfs_none_open: l.xfs_none_locked,
        ..l
    }
}

/// Law: each filesystem and `/home` choice that has a layout gets the
/// template named after it, the encrypted one exactly when encryption is
/// asked for; a subvolume `/home` on ext4 or xfs has none.
pub proof fn lemma_layout_template_by_name(l: LayoutTemplates)
    ensures
        spec_layout_template(AutoFilesystem::Btrfs, HomeSeparation::Subvol, true, l) == Some(l.btrfs_subvol_locked@),
        spec_layout_template(AutoFilesystem::Btrfs, HomeSeparation::Subvol, false, l) == Some(l.btrfs_subvol_open@),
        spec_layout_template(AutoFilesystem::Btrfs, HomeSeparation::Partition, true, l) == Some(
            l.btrfs_partition_locked@,
        ),
        spec_layout_template(AutoFilesystem::Btrfs, HomeSeparation::Partition, false, l) == Some(
            l.btrfs_partition_open@,
        ),
        spec_layout_template(AutoFilesystem::Btrfs, HomeSeparation::NoSeparation, true, l) == Some(
            l.btrfs_none_locked@,
        ),
        spec_layout_template(AutoFilesystem::Btrfs, HomeSeparation::NoSeparation, false, l) == Some(
            l.btrfs_none_open@,
        ),
        spec_layout_template(AutoFilesystem::Xfs, HomeSeparation::Partition, true, l) == Some(
            l.xfs_partition_locked@,
        ),
        spec_layout_template(AutoFilesystem::Xfs, HomeSeparation::Partition, false, l) == Some(
            l.xfs_partition_open@,
        ),
        spec_layout_template(AutoFilesystem::Xfs, HomeSeparation::NoSeparation, true, l) == Some(
            l.xfs_none_locked@,
        ),
        spec_layout_template(AutoFilesystem::Xfs, HomeSeparation::NoSeparation, false, l) == Some(
            l.xfs_none_open@,
        ),
        spec_layout_template(AutoFilesystem::Ext4, HomeSeparation::Partition, true, l) == Some(
            AUTOMATIC_HOME_PART_EXT4_LOCKED_INSTALLATION_PROG@,
        ),
        spec_layout_template(AutoFilesystem::Ext4, HomeSeparation::Partition, false, l) == Some(
            AUTOMATIC_HOME_PART_EXT4_OPEN_INSTALLATION_PROG@,
        ),
        spec_layout_template(AutoFilesystem::Ext4, HomeSeparation::NoSeparation, true, l) == Some(
            AUTOMATIC_HOME_NONE_EXT4_LOCKED_INSTALLATION_PROG@,
        ),
        spec_layout_template(AutoFilesystem::Ext4, HomeSeparation::NoSeparation, false, l) == Some(
            AUTOMATIC_HOME_NONE_EXT4_OPEN_INSTALLATION_PROG@,
        ),
        forall|locked: bool|
            spec_layout_template(AutoFilesystem::Ext4, HomeSeparation::Subvol, locked, l) is None
                && spec_layout_template(AutoFilesystem::Xfs, HomeSeparation::Subvol, locked, l) is None,
{
}

/// Law: for btrfs and xfs, asking for encryption gives what the unencrypted
/// choice would give if the encrypted templates stood in the place of the
/// unencrypted ones; and the unencrypted choice never reads an encrypted
/// template.
pub proof fn lemma_locked_reads_locked_variant(fs: AutoFilesystem, sep: HomeSeparation, l: LayoutTemplates, m: LayoutTemplates)
    requires
        fs != AutoFilesystem::Ext4,
    ensures
        spec_layout_template(fs, sep, true, l) == spec_layout_template(fs, sep, false, locked_as_open(l)),
        m.btrfs_subvol_open == l.btrfs_subvol_open && m.btrfs_partition_open == l.btrfs_partition_open
            && m.btrfs_none_open == l.btrfs_none_open && m.xfs_partition_open == l.xfs_partition_open
            && m.xfs_none_open == l.xfs_none_open ==> spec_layout_template(fs, sep, false, m)
            == spec_layout_template(fs, sep, false, l),
{
}

fn automatic_text(s: &InstallSettings, l: &LayoutTemplates) -> (r: Result<String, ScriptError>)
    ensures
        r matches Ok(t) ==> spec_automatic(*s, *l) == Ok::<Seq<char>, ScriptError>(t@),
        r matches Err(e) ==> spec_automatic(*s, *l) == Err::<Seq<char>, ScriptError>(e),
{
    let prepare_vars = vec![pair("AUTO_INSTALL_TARGET_DISK", shell_escape(s.auto_target.block_name.as_str()))];
    assert(vars_view(prepare_vars@) =~= seq![
        ("AUTO_INSTALL_TARGET_DISK"@, shell_escaped(s.auto_target.block_name@)),
    ]);
    let mut text = match fill_template(AUTOMATIC_STANDARD_INSTALLATION_PROG, &prepare_vars) {
        Ok(v) => v,
        Err(e) => {
            return Err(e);
        },
    };
    let template = match layout_template(s.auto_filesystem, s.auto_separation, s.auto_luks_enabled, l) {
        Some(t) => t,
        None => {
            return Err(ScriptError::UnsupportedLayout);
        },
    };
    let mut vars = vec![pair("CHROOT_PATH", "/media/pikaos/installation".to_owned())];
    if s.auto_luks_enabled {
        vars.push(pair("AUTO_LUKS_PASSWORD", shell_escape(s.auto_luks_password.as_str())));
    }
    if s.auto_separation == HomeSeparation::Partition {
        let mib = decimal_string(s.auto_root_size / MIB);
        vars.push(pair("ROOT_PART_SIZE_AS_I64_MIB", shell_escape(mib.as_str())));
    }
    assert(vars_view(vars@) =~= spec_layout_vars(*s));
    let layout = match fill_template(template, &vars) {
        Ok(v) => v,
        Err(e) => {
            return Err(e);
        },
    };
    text.append(layout.as_str());
    if s.auto_luks_enabled {
        text.append(AUTOMATIC_LOCKED_PART_PIKAINSTALL_PROG);
    } else {
        text.append(AUTOMATIC_OPEN_PART_PIKAINSTALL_PROG);
    }
    Ok(text)
}

fn crypt_entry_text(e: &CrypttabEntry) -> (r: Result<String, ScriptError>)
    ensures
        r is Ok <==> spec_crypt_entry(*e) is Some,
        r matches Ok(t) ==> t@ == spec_crypt_entry(*e)->0,
{
    match &e.password {
        Some(p) => {
            let vars = vec![
                pair("MAP", shell_escape(e.map.as_str())),
                pair("UUID", shell_escape(e.uuid.as_str())),
                pair("LUKS_PASSWD", shell_escape(p.as_str())),
            ];
            assert(vars_view(vars@) =~= seq![
                ("MAP"@, shell_escaped(e.map@)),
                ("UUID"@, shell_escaped(e.uuid@)),
                ("LUKS_PASSWD"@, shell_escaped(p@)),
            ]);
            fill_template(MANUAL_CRYPT_ENTRY_WITH_KEYFILE, &vars)
        },
        None => {
            let vars = vec![
                pair("MAP", shell_escape(e.map.as_str())),
                pair("UUID", shell_escape(e.uuid.as_str())),
            ];
            assert(vars_view(vars@) =~= seq![
                ("MAP"@, shell_escaped(e.map@)),
                ("UUID"@, shell_escaped(e.uuid@)),
            ]);
            fill_template(MANUAL_CRYPT_ENTRY, &vars)
        },
    }
}

fn mount_entry_text(e: &FstabEntry, swap_list_ready: bool) -> (r: Result<String, ScriptError>)
    ensures
        r is Ok <==> spec_mount_entry(*e, swap_list_ready) is Some,
        r matches Ok(t) ==> t@ == spec_mount_entry(*e, swap_list_ready)->0,
{
    let part = shell_escape(e.partition.part_name.as_str());
    if str_eq(e.mountpoint.as_str(), "[SWAP]") {
        let mut text = String::new();
        if !swap_list_ready {
            text.append(MANUAL_SWAP_LIST_PREPARE_PROG);
        }
        let vars = vec![pair("PART", part)];
        assert(vars_view(vars@) =~= seq![("PART"@, shell_escaped(e.partition.part_name@))]);
        let line = match fill_template(MANUAL_SWAP_MOUNT_PROG, &vars) {
            Ok(v) => v,
            Err(e) => {
                return Err(e);
            },
        };
        let ghost before = text@;
        text.append(line.as_str());
        assert(before =~= if swap_list_ready {
            Seq::<char>::empty()
        } else {
            MANUAL_SWAP_LIST_PREPARE_PROG@
        });
        Ok(text)
    } else if e.mountopts.as_str().unicode_len() > 0 {
        let vars = vec![
            pair("PART", part),
            pair("MOUNTPOINT", shell_escape(e.mountpoint.as_str())),
            pair("OPTS", shell_escape(e.mountopts.as_str())),
        ];
        assert(vars_view(vars@) =~= seq![
            ("PART"@, shell_escaped(e.partition.part_name@)),
            ("MOUNTPOINT"@, shell_escaped(e.mountpoint@)),
            ("OPTS"@, shell_escaped(e.mountopts@)),
        ]);
        fill_template(MANUAL_PARTITION_MOUNT_WITH_OPTS_PROG, &vars)
    } else {
        let vars = vec![
            pair("PART", part),
            pair("MOUNTPOINT", shell_escape(e.mountpoint.as_str())),
        ];
        assert(vars_view(vars@) =~= seq![
            ("PART"@, shell_escaped(e.partition.part_name@)),
            ("MOUNTPOINT"@, shell_escaped(e.mountpoint@)),
        ]);
        fill_template(MANUAL_PARTITION_MOUNT_PROG, &vars)
    }
}

fn manual_text(s: &InstallSettings) -> (r: Result<String, ScriptError>)
    ensures
        r is Ok <==> spec_manual(*s) is Some,
        r matches Ok(t) ==> t@ == spec_manual(*s)->0,
        r matches Err(e) ==> e == ScriptError::Format,
{
    let mut text = String::new();
    let ghost crypt: Seq<char> = Seq::empty();
    if s.manual_luks_enabled {
        text.append(MANUAL_CRYPTTAB_PREPARE_PROG);
        let n = s.manual_crypttab.len();
        let mut i: usize = 0;
        assert(s.manual_crypttab@.subrange(0, 0) =~= Seq::<CrypttabEntry>::empty());
        while i < n
            invariant
                n == s.manual_crypttab@.len(),
                s.manual_luks_enabled,
                i <= n,
                spec_crypt_entries(s.manual_crypttab@.subrange(0, i as int)) == Some(
                    text@.subrange(MANUAL_CRYPTTAB_PREPARE_PROG@.len() as int, text@.len() as int),
                ),
                text@.len() >= MANUAL_CRYPTTAB_PREPARE_PROG@.len(),
                text@.subrange(0, MANUAL_CRYPTTAB_PREPARE_PROG@.len() as int) == MANUAL_CRYPTTAB_PREPARE_PROG@,
            decreases n - i,
        {
            let line = match crypt_entry_text(&s.manual_crypttab[i]) {
                Ok(l) => l,
                Err(e) => {
                    proof {
                        lemma_crypt_entries_fail(s.manual_crypttab@, i as int);
                        assert(cat(Some(MANUAL_CRYPTTAB_PREPARE_PROG@), spec_crypt_entries(s.manual_crypttab@)) is None);
                    }
                    return Err(ScriptError::Format);
                },
            };
            let ghost before = text@;
            text.append(line.as_str());
            proof {
                let k = MANUAL_CRYPTTAB_PREPARE_PROG@.len() as int;
                assert(s.manual_crypttab@.subrange(0, i + 1).drop_last() =~= s.manual_crypttab@.subrange(0, i as int));
                assert(text@.subrange(k, text@.len() as int) =~= before.subrange(k, before.len() as int) + line@);
                assert(text@.subrange(0, k) =~= before.subrange(0, k));
            }
            i = i + 1;
        }
        proof {
            let k = MANUAL_CRYPTTAB_PREPARE_PROG@.len() as int;
            assert(s.manual_crypttab@.subrange(0, n as int) =~= s.manual_crypttab@);
            assert(text@ =~= MANUAL_CRYPTTAB_PREPARE_PROG@ + text@.subrange(k, text@.len() as int));
        }
    }
    let ghost crypt_text = text@;
    let n = s.manual_fstab.len();
    let mut did_make_swap_list = false;
    let mut i: usize = 0;
    assert(s.manual_fstab@.subrange(0, 0) =~= Seq::<FstabEntry>::empty());
    assert(text@.subrange(crypt_text.len() as int, text@.len() as int) =~= Seq::<char>::empty());
    while i < n
        invariant
            n == s.manual_fstab@.len(),
            i <= n,
            did_make_swap_list == has_swap_entry(s.manual_fstab@.subrange(0, i as int)),
            text@.len() >= crypt_text.len(),
            text@.subrange(0, crypt_text.len() as int) == crypt_text,
            spec_mount_entries(s.manual_fstab@.subrange(0, i as int)) == Some(
                text@.subrange(crypt_text.len() as int, text@.len() as int),
            ),
        decreases n - i,
    {
        let prefix = Ghost(s.manual_fstab@.subrange(0, i as int));
        let next = Ghost(s.manual_fstab@.subrange(0, i + 1));
        assert(next@.drop_last() =~= prefix@);
        assert(next@.last() == s.manual_fstab@[i as int]);
        let line = match mount_entry_text(&s.manual_fstab[i], did_make_swap_list) {
            Ok(l) => l,
            Err(e) => {
                proof {
                    lemma_mount_entries_fail(s.manual_fstab@, i as int);
                }
                return Err(ScriptError::Format);
            },
        };
        let ghost before = text@;
        text.append(line.as_str());
        proof {
            let k = crypt_text.len() as int;
            assert(text@.subrange(k, text@.len() as int) =~= before.subrange(k, before.len() as int) + line@);
            assert(text@.subrange(0, k) =~= before.subrange(0, k));
            if is_swap_entry(s.manual_fstab@[i as int]) {
                assert(next@[i as int] == s.manual_fstab@[i as int]);
                assert(has_swap_entry(next@));
            } else {
                if has_swap_entry(next@) {
                    let w = choose|w: int| 0 <= w < next@.len() && is_swap_entry(#[trigger] next@[w]);
                    assert(prefix@[w] == next@[w]);
                    assert(has_swap_entry(prefix@));
                }
                if has_swap_entry(prefix@) {
                    let w = choose|w: int| 0 <= w < prefix@.len() && is_swap_entry(#[trigger] prefix@[w]);
                    assert(next@[w] == prefix@[w]);
                }
            }
        }
        if str_eq(s.manual_fstab[i].mountpoint.as_str(), "[SWAP]") {
            did_make_swap_list = true;
        }
        i = i + 1;
    }
    proof {
        assert(s.manual_fstab@.subrange(0, n as int) =~= s.manual_fstab@);
        assert(text@ =~= crypt_text + text@.subrange(crypt_text.len() as int, text@.len() as int));
        if !s.manual_luks_enabled {
            assert(crypt_text =~= Seq::<char>::empty());
        }
    }
    if s.manual_luks_enabled {
        text.append(MANUAL_LOCKED_PART_PIKAINSTALL_PROG);
    } else {
        text.append(MANUAL_OPEN_PART_PIKAINSTALL_PROG);
    }
    Ok(text)
}

proof fn lemma_crypt_entries_fail(es: Seq<CrypttabEntry>, i: int)
    requires
        0 <= i < es.len(),
        spec_crypt_entry(es[i]) is None,
    ensures
        spec_crypt_entries(es) is None,
    decreases es.len(),
{
    if i < es.len() - 1 {
        lemma_crypt_entries_fail(es.drop_last(), i);
    }
}

proof fn lemma_mount_entries_fail(es: Seq<FstabEntry>, i: int)
    requires
        0 <= i < es.len(),
        spec_mount_entry(es[i], has_swap_entry(es.subrange(0, i))) is None,
    ensures
        spec_mount_entries(es) is None,
    decreases es.len(),
{
    if i < es.len() - 1 {
        let t = es.drop_last();
        assert(t.subrange(0, i) =~= es.subrange(0, i));
        lemma_mount_entries_fail(t, i);
    } else {
        assert(es.subrange(0, i) =~= es.drop_last());
    }
}

/// Law: every setting the pages can produce has a layout: a subvolume for
/// `/home` only with btrfs, and with btrfs, ext4 and xfs every other choice.
pub proof fn lemma_supported_layout_has_template(s: InstallSettings, l: LayoutTemplates)
    ensures
        s.method == PartitionMethod::Automatic ==> (layout_supported(s) <==> spec_layout_template(
            s.auto_filesystem,
            s.auto_separation,
            s.auto_luks_enabled,
            l,
        ) is Some),
{
}

/// Writes the installation script for the settings, taking the btrfs and
/// xfs layouts from `layouts`. It fails only where `strfmt` rejects a
/// template (`Format`).
pub fn create_installation_script(settings: &InstallSettings, layouts: &LayoutTemplates) -> (r: Result<String, ScriptError>)
    requires
        layout_supported(*settings),
    ensures
        r matches Ok(t) ==> spec_script(*settings, *layouts) == Ok::<Seq<char>, ScriptError>(t@),
        r matches Err(e) ==> spec_script(*settings, *layouts) == Err::<Seq<char>, ScriptError>(e),
        r matches Err(e) ==> e == ScriptError::Format,
{
    proof {
        lemma_supported_layout_has_template(*settings, *layouts);
    }
    let mut text = match header_text(settings) {
        Ok(v) => v,
        Err(e) => {
            return Err(e);
        },
    };
    match settings.method {
        PartitionMethod::Automatic => {
            let part = match automatic_text(settings, layouts) {
                Ok(v) => v,
                Err(e) => {
                    return Err(e);
                },
            };
            text.append(part.as_str());
        },
        PartitionMethod::Manual => {
            let part = match manual_text(settings) {
                Ok(v) => v,
                Err(e) => {
                    return Err(e);
                },
            };
            text.append(part.as_str());
        },
    }
    Ok(text)
}

/// The installer call that closes the script for the settings.
pub open spec fn installer_call(s: InstallSettings) -> Seq<char> {
    match s.method {
        PartitionMethod::Automatic => if s.auto_luks_enabled {
            AUTOMATIC_LOCKED_PART_PIKAINSTALL_PROG@
        } else {
            AUTOMATIC_OPEN_PART_PIKAINSTALL_PROG@
        },
        PartitionMethod::Manual => if s.manual_luks_enabled {
            MANUAL_LOCKED_PART_PIKAINSTALL_PROG@
        } else {
            MANUAL_OPEN_PART_PIKAINSTALL_PROG@
        },
    }
}

/// Law: a written script starts with the opening that sets locale, keymap and
/// timezone, and ends with the installer call, the variant for encrypted
/// partitions exactly when encryption was chosen for the partitioning method
/// in use.
pub proof fn lemma_script_frame(s: InstallSettings, l: LayoutTemplates)
    requires
        spec_script(s, l) is Ok,
    ensures
        spec_header(s) is Some,
        ({
            let t = spec_script(s, l)->Ok_0;
            let h = spec_header(s)->0;
            let c = installer_call(s);
            &&& t.len() >= h.len() + c.len()
            &&& t.subrange(0, h.len() as int) == h
            &&& t.subrange(t.len() - c.len(), t.len() as int) == c
        }),
{
    let t = spec_script(s, l)->Ok_0;
    let h = spec_header(s)->0;
    let c = installer_call(s);
    match s.method {
        PartitionMethod::Automatic => {
            let a = spec_automatic(s, l)->Ok_0;
            assert(t == h + a);
            let p = strfmt_output(
                AUTOMATIC_STANDARD_INSTALLATION_PROG@,
                seq![("AUTO_INSTALL_TARGET_DISK"@, shell_escaped(s.auto_target.block_name@))],
            )->0;
            let l = strfmt_output(
                spec_layout_template(s.auto_filesystem, s.auto_separation, s.auto_luks_enabled, l)->0,
                spec_layout_vars(s),
            )->0;
            assert(a == p + l + c);
            assert(t.subrange(0, h.len() as int) =~= h);
            assert(t.subrange(t.len() - c.len(), t.len() as int) =~= c);
        },
        PartitionMethod::Manual => {
            let m = spec_manual(s)->0;
            assert(t == h + m);
            let crypt = if s.manual_luks_enabled {
                cat(Some(MANUAL_CRYPTTAB_PREPARE_PROG@), spec_crypt_entries(s.manual_crypttab@))
            } else {
                Some(Seq::<char>::empty())
            };
            let body = cat(crypt, spec_mount_entries(s.manual_fstab@))->0;
            assert(m == body + c);
            assert(t.subrange(0, h.len() as int) =~= h);
            assert(t.subrange(t.len() - c.len(), t.len() as int) =~= c);
        },
    }
}

/// Entry `i` is the first swap entry, the one that creates the swap list.
pub open spec fn prepares_swap_list(es: Seq<FstabEntry>, i: int) -> bool {
    0 <= i < es.len() && is_swap_entry(es[i]) && !has_swap_entry(es.subrange(0, i))
}

/// Law: the swap list is created exactly once when some partition is used as
/// swap, by the first swap entry, and not at all otherwise.
pub proof fn lemma_swap_list_prepared_once(es: Seq<FstabEntry>)
    ensures
        forall|i: int, j: int| prepares_swap_list(es, i) && prepares_swap_list(es, j) ==> i == j,
        has_swap_entry(es) <==> exists|i: int| prepares_swap_list(es, i),
    decreases es.len(),
{
    assert forall|i: int, j: int| prepares_swap_list(es, i) && prepares_swap_list(es, j) implies i == j by {
        if i < j {
            assert(es.subrange(0, j)[i] == es[i]);
            assert(has_swap_entry(es.subrange(0, j)));
        } else if j < i {
            assert(es.subrange(0, i)[j] == es[j]);
            assert(has_swap_entry(es.subrange(0, i)));
        }
    }
    if has_swap_entry(es) {
        let t = es.drop_last();
        lemma_swap_list_prepared_once(t);
        if has_swap_entry(t) {
            let i = choose|i: int| prepares_swap_list(t, i);
            assert(es.subrange(0, i) =~= t.subrange(0, i));
            assert(prepares_swap_list(es, i));
        } else {
            let w = choose|w: int| 0 <= w < es.len() && is_swap_entry(#[trigger] es[w]);
            if w < es.len() - 1 {
                assert(t[w] == es[w]);
            }
            assert(es.subrange(0, es.len() - 1) =~= t);
            assert(prepares_swap_list(es, es.len() - 1));
        }
    } else {
        assert forall|i: int| !prepares_swap_list(es, i) by {
            if 0 <= i < es.len() && is_swap_entry(es[i]) {
                assert(has_swap_entry(es));
            }
        }
    }
}

/// The script lines of one mount entry by themselves, without the creation
/// of the swap list.
pub open spec fn mount_body(e: FstabEntry) -> Option<Seq<char>> {
    spec_mount_entry(e, true)
}

/// The block of entry `i` of `es`: the creation of the swap list when the
/// entry is the first swap entry, then the entry's own lines.
pub open spec fn mount_block(es: Seq<FstabEntry>, i: int) -> Option<Seq<char>> {
    cat(
        Some(if prepares_swap_list(es, i) { MANUAL_SWAP_LIST_PREPARE_PROG@ } else { Seq::<char>::empty() }),
        mount_body(es[i]),
    )
}

/// The blocks of the first `n` entries of `es`, in order.
pub open spec fn mount_blocks(es: Seq<FstabEntry>, n: int) -> Option<Seq<char>>
    decreases n,
{
    if n <= 0 {
        Some(Seq::<char>::empty())
    } else {
        cat(mount_blocks(es, n - 1), mount_block(es, n - 1))
    }
}

proof fn lemma_mount_blocks_prefix(es: Seq<FstabEntry>, t: Seq<FstabEntry>, n: int)
    requires
        0 <= n <= t.len() <= es.len(),
        t == es.subrange(0, t.len() as int),
    ensures
        mount_blocks(es, n) == mount_blocks(t, n),
    decreases n,
{
    if n > 0 {
        lemma_mount_blocks_prefix(es, t, n - 1);
        let i = n - 1;
        assert(t[i] == es[i]);
        assert(t.subrange(0, i) =~= es.subrange(0, i));
    }
}

/// Law: the mount part of a manual script is one block per entry, in the
/// order of the table; each block is the entry's own lines (a swap line, a
/// mount with options, or a plain mount), and the block of the first swap
/// entry, and no other, begins with the creation of the swap list.
pub proof fn lemma_mount_entries_in_blocks(es: Seq<FstabEntry>)
    ensures
        spec_mount_entries(es) == mount_blocks(es, es.len() as int),
    decreases es.len(),
{
    if es.len() > 0 {
        let t = es.drop_last();
        let n = es.len() - 1;
        lemma_mount_entries_in_blocks(t);
        assert(t =~= es.subrange(0, n));
        lemma_mount_blocks_prefix(es, t, n);
        assert(es[n] == es.last());
        if is_swap_entry(es.last()) {
            if has_swap_entry(t) {
                assert(!prepares_swap_list(es, n));
            } else {
                assert(prepares_swap_list(es, n));
            }
            assert(Seq::<char>::empty() + MANUAL_SWAP_LIST_PREPARE_PROG@ =~= MANUAL_SWAP_LIST_PREPARE_PROG@);
            match strfmt_output(MANUAL_SWAP_MOUNT_PROG@, seq![("PART"@, shell_escaped(es.last().partition.part_name@))]) {
                Some(x) => {
                    assert(Seq::<char>::empty() + x =~= x);
                },
                None => {},
            }
        } else {
            assert(!prepares_swap_list(es, n));
            match spec_mount_entry(es.last(), true) {
                Some(x) => {
                    assert(Seq::<char>::empty() + x =~= x);
                },
                None => {},
            }
        }
    }
}

} // verus!
