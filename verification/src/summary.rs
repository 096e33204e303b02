//! The rows of the installation summary shown before the user confirms.
use vstd::prelude::*;

use crate::auto_partition::usable_space;
use crate::model::{CrypttabEntry, FstabEntry, MINIMUM_BOOT_BYTE_SIZE, MINIMUM_EFI_BYTE_SIZE};
use crate::script::{
    decimal, decimal_string, fill_template, strfmt_output, vars_view, AutoFilesystem,
    HomeSeparation, InstallSettings, PartitionMethod,
};
use crate::text::push_char;

verus! {

/// What a summary row describes.
#[derive(Clone, Copy, Debug, PartialEq, Eq, Structural)]
pub enum SummaryTitle {
    Language,
    Keymap,
    Timezone,
    PartitionMethodType,
    AutomaticTarget,
    AutomaticTargetFs,
    AutomaticSeperation,
    AutomaticRatio,
    ManualCrypttabEntry,
    ManualFstabEntry,
}

/// A subtitle that is a fixed, localized message.
#[derive(Clone, Copy, Debug, PartialEq, Eq, Structural)]
pub enum SubtitleKey {
    MethodAutomaticLuks,
    MethodAutomatic,
    MethodManualLuks,
    MethodManual,
    SeparationSubvol,
    SeparationPartition,
    SeparationNone,
}

/// A summary row: a title, and either a fixed message or a text.
pub struct SummaryRow {
    pub title: SummaryTitle,
    pub subtitle_key: Option<SubtitleKey>,
    pub subtitle: String,
}

/// The localized templates the rows are filled from, and the sizes that
/// are shown in human readable form.
pub struct SummaryTexts {
    /// Uses `DISK_SIZE` and `DISK_NAME`.
    pub automatic_target: String,
    /// Uses `ROOT_PER`, `ROOT_SIZE`, `HOME_PER` and `HOME_SIZE`.
    pub automatic_ratio: String,
    /// Uses `LUKS_NAME`; for volumes unlocked by a key file.
    pub crypttab_auto: String,
    /// Uses `LUKS_NAME`; for volumes unlocked by hand.
    pub crypttab_manual: String,
    /// Uses `PART_NAME`, `PART_SIZE`, `PART_FS` and `MOUNTPOINT`.
    pub fstab_entry: String,
    pub root_size_pretty: String,
    pub home_size_pretty: String,
}

pub type RowView = (SummaryTitle, Option<SubtitleKey>, Seq<char>);

pub open spec fn row_view(r: SummaryRow) -> RowView {
    (r.title, r.subtitle_key, r.subtitle@)
}

pub open spec fn rows_view(rs: Seq<SummaryRow>) -> Seq<RowView> {
    rs.map_values(|r: SummaryRow| row_view(r))
}

/// The message describing the partitioning method.
pub open spec fn method_key(s: InstallSettings) -> SubtitleKey {
    match s.method {
        PartitionMethod::Automatic => if s.auto_luks_enabled {
            SubtitleKey::MethodAutomaticLuks
        } else {
            SubtitleKey::MethodAutomatic
        },
        PartitionMethod::Manual => if s.manual_luks_enabled {
            SubtitleKey::MethodManualLuks
        } else {
            SubtitleKey::MethodManual
        },
    }
}

/// The filesystem name in capitals.
pub open spec fn fs_label(fs: AutoFilesystem) -> Seq<char> {
    match fs {
        AutoFilesystem::Btrfs => "BTRFS"@,
        AutoFilesystem::Ext4 => "EXT4"@,
        AutoFilesystem::Xfs => "XFS"@,
    }
}

/// The decimal representation of an integer, with a minus sign when negative.
pub open spec fn signed_decimal(i: int) -> Seq<char> {
    if i < 0 {
        seq!['-'] + decimal((-i) as nat)
    } else {
        decimal(i as nat)
    }
}

/// `100 * part / whole` for a non-zero `whole`, rounded to the nearest
/// integer, halves away from zero.
pub open spec fn exact_rounded_percent(part: int, whole: int) -> int {
    let p = if whole < 0 { -part } else { part };
    let w = if whole < 0 { -whole } else { whole };
    if p >= 0 {
        (200 * p + w) / (2 * w)
    } else {
        -((-200 * p + w) / (2 * w))
    }
}

/// The share of `part` in `whole` in percent as the summary shows it: the
/// rounded share held within the range of `i64`; for an empty `whole` the
/// largest or smallest `i64` by the sign of `part`, and 0 when `part` is 0
/// too.
pub open spec fn rounded_percent(part: int, whole: int) -> int {
    if whole == 0 {
        if part > 0 {
            i64::MAX as int
        } else if part < 0 {
            i64::MIN as int
        } else {
            0
        }
    } else {
        let q = exact_rounded_percent(part, whole);
        if q > i64::MAX {
            i64::MAX as int
        } else if q < i64::MIN {
            i64::MIN as int
        } else {
            q
        }
    }
}

/// The bytes left for the home partition.
pub open spec fn home_size(s: InstallSettings) -> int {
    usable_space(s.auto_target.block_size) - s.auto_root_size
}

pub open spec fn empty_text() -> Seq<char> {
    Seq::<char>::empty()
}

/// The rows that describe automatic partitioning.
pub open spec fn spec_automatic_rows(s: InstallSettings, t: SummaryTexts) -> Option<Seq<RowView>> {
    let target = strfmt_output(
        t.automatic_target@,
        seq![("DISK_SIZE"@, s.auto_target.block_size_pretty@), ("DISK_NAME"@, s.auto_target.block_name@)],
    );
    match target {
        None => None,
        Some(tt) => {
            let head = seq![
                (SummaryTitle::AutomaticTarget, None::<SubtitleKey>, tt),
                (SummaryTitle::AutomaticTargetFs, None::<SubtitleKey>, fs_label(s.auto_filesystem)),
            ];
            match s.auto_separation {
                HomeSeparation::Subvol => Some(
                    head.push((SummaryTitle::AutomaticSeperation, Some(SubtitleKey::SeparationSubvol), empty_text())),
                ),
                HomeSeparation::NoSeparation => Some(
                    head.push((SummaryTitle::AutomaticSeperation, Some(SubtitleKey::SeparationNone), empty_text())),
                ),
                HomeSeparation::Partition => {
                    let u = usable_space(s.auto_target.block_size);
                    let ratio = strfmt_output(
                        t.automatic_ratio@,
                        seq![
                            ("ROOT_PER"@, signed_decimal(rounded_percent(s.auto_root_size as int, u))),
                            ("ROOT_SIZE"@, t.root_size_pretty@),
                            ("HOME_PER"@, signed_decimal(rounded_percent(home_size(s), u))),
                            ("HOME_SIZE"@, t.home_size_pretty@),
                        ],
                    );
                    match ratio {
                        None => None,
                        Some(rt) => Some(
                            head.push(
                                (SummaryTitle::AutomaticSeperation, Some(SubtitleKey::SeparationPartition), empty_text()),
                            ).push((SummaryTitle::AutomaticRatio, None::<SubtitleKey>, rt)),
                        ),
                    }
                },
            }
        },
    }
}

/// The row for one crypttab entry.
pub open spec fn spec_crypt_row(e: CrypttabEntry, t: SummaryTexts) -> Option<RowView> {
    let template = if e.password is Some {
        t.crypttab_auto@
    } else {
        t.crypttab_manual@
    };
    match strfmt_output(template, seq![("LUKS_NAME"@, e.partition@)]) {
        None => None,
        Some(x) => Some((SummaryTitle::ManualCrypttabEntry, None::<SubtitleKey>, x)),
    }
}

/// The row for one mount entry.
pub open spec fn spec_fstab_row(e: FstabEntry, t: SummaryTexts) -> Option<RowView> {
    match strfmt_output(
        t.fstab_entry@,
        seq![
            ("PART_NAME"@, e.partition.part_name@),
            ("PART_SIZE"@, e.partition.part_size_pretty@),
            ("PART_FS"@, e.partition.part_fs@),
            ("MOUNTPOINT"@, e.mountpoint@),
        ],
    ) {
        None => None,
        Some(x) => Some((SummaryTitle::ManualFstabEntry, None::<SubtitleKey>, x)),
    }
}

pub open spec fn spec_crypt_rows(es: Seq<CrypttabEntry>, t: SummaryTexts) -> Option<Seq<RowView>>
    decreases es.len(),
{
    if es.len() == 0 {
        Some(Seq::<RowView>::empty())
    } else {
        match (spec_crypt_rows(es.drop_last(), t), spec_crypt_row(es.last(), t)) {
            (Some(a), Some(b)) => Some(a.push(b)),
            _ => None,
        }
    }
}

pub open spec fn spec_fstab_rows(es: Seq<FstabEntry>, t: SummaryTexts) -> Option<Seq<RowView>>
    decreases es.len(),
{
    if es.len() == 0 {
        Some(Seq::<RowView>::empty())
    } else {
        match (spec_fstab_rows(es.drop_last(), t), spec_fstab_row(es.last(), t)) {
            (Some(a), Some(b)) => Some(a.push(b)),
            _ => None,
        }
    }
}

/// The rows that describe manual partitioning: the crypttab entries when
/// encryption is used, then the mount entries.
pub open spec fn spec_manual_rows(s: InstallSettings, t: SummaryTexts) -> Option<Seq<RowView>> {
    let crypt = if s.manual_luks_enabled {
        spec_crypt_rows(s.manual_crypttab@, t)
    } else {
        Some(Seq::<RowView>::empty())
    };
    match (crypt, spec_fstab_rows(s.manual_fstab@, t)) {
        (Some(a), Some(b)) => Some(a + b),
        _ => None,
    }
}

/// All summary rows: language, keymap, timezone and method, then the rows
/// of the method.
pub open spec fn spec_summary(s: InstallSettings, t: SummaryTexts) -> Option<Seq<RowView>> {
    let base = seq![
        (SummaryTitle::Language, None::<SubtitleKey>, s.locale.pretty_name@),
        (SummaryTitle::Keymap, None::<SubtitleKey>, s.keymap.pretty_name@),
        (SummaryTitle::Timezone, None::<SubtitleKey>, s.timezone@),
        (SummaryTitle::PartitionMethodType, Some(method_key(s)), empty_text()),
    ];
    let rest = match s.method {
        PartitionMethod::Automatic => spec_automatic_rows(s, t),
        PartitionMethod::Manual => spec_manual_rows(s, t),
    };
    match rest {
        None => None,
        Some(r) => Some(base + r),
    }
}

fn text_row(title: SummaryTitle, subtitle: String) -> (r: SummaryRow)
    ensures
        row_view(r) == (title, None::<SubtitleKey>, subtitle@),
{
    SummaryRow { title, subtitle_key: None, subtitle }
}

fn key_row(title: SummaryTitle, key: SubtitleKey) -> (r: SummaryRow)
    ensures
        row_view(r) == (title, Some(key), empty_text()),
{
    SummaryRow { title, subtitle_key: Some(key), subtitle: String::new() }
}

fn pair(name: &str, value: String) -> (r: (String, String))
    ensures
        r.0@ == name@,
        r.1@ == value@,
{
    (name.to_owned(), value)
}

/// The decimal representation of `i`.
pub fn signed_decimal_string(i: i64) -> (r: String)
    ensures
        r@ == signed_decimal(i as int),
{
    if i < 0 {
        let mut s = String::new();
        push_char(&mut s, '-');
        let magnitude: i128 = -(i as i128);
        let d = decimal_string(magnitude as u64);
        s.append(d.as_str());
        assert(s@ =~= seq!['-'] + decimal((-i) as nat));
        s
    } else {
        decimal_string(i as u64)
    }
}

/// The share of `part` in `whole`, in percent, rounded and held within the
/// range of `i64`.
pub fn rounded_percent_of(part: i128, whole: i128) -> (r: i64)
    requires
        -0x10000000000000000000000000 <= part <= 0x10000000000000000000000000,
        -0x10000000000000000000000000 <= whole <= 0x10000000000000000000000000,
    ensures
        r == rounded_percent(part as int, whole as int),
{
    if whole == 0 {
        return if part > 0 {
            i64::MAX
        } else if part < 0 {
            i64::MIN
        } else {
            0
        };
    }
    let p: i128 = if whole < 0 { -part } else { part };
    let w: i128 = if whole < 0 { -whole } else { whole };
    let q: i128 = if p >= 0 {
        (200 * p + w) / (2 * w)
    } else {
        let n = (-200 * p + w) / (2 * w);
        assert(0 <= n <= -200 * p + w) by (nonlinear_arith)
            requires
                n == (-200 * p + w) / (2 * w),
                0 < w,
                p < 0,
        ;
        -n
    };
    if q > i64::MAX as i128 {
        i64::MAX
    } else if q < i64::MIN as i128 {
        i64::MIN
    } else {
        q as i64
    }
}

/// The bytes left for `/home` when root takes `root_size` of the disk.
pub fn home_part_size(block_size: u64, root_size: u64) -> (r: i128)
    ensures
        r == usable_space(block_size) - root_size,
{
    block_size as i128 - (MINIMUM_EFI_BYTE_SIZE + MINIMUM_BOOT_BYTE_SIZE) as i128 - root_size as i128
}

fn automatic_rows(s: &InstallSettings, t: &SummaryTexts, rows: &mut Vec<SummaryRow>) -> (ok: bool)
    requires
        s.method == PartitionMethod::Automatic,
    ensures
        ok <==> spec_automatic_rows(*s, *t) is Some,
        ok ==> rows_view(final(rows)@) == rows_view(old(rows)@) + spec_automatic_rows(*s, *t)->0,
{
    let vars = vec![
        pair("DISK_SIZE", s.auto_target.block_size_pretty.clone()),
        pair("DISK_NAME", s.auto_target.block_name.clone()),
    ];
    assert(vars_view(vars@) =~= seq![
        ("DISK_SIZE"@, s.auto_target.block_size_pretty@),
        ("DISK_NAME"@, s.auto_target.block_name@),
    ]);
    let target = match fill_template(t.automatic_target.as_str(), &vars) {
        Ok(x) => x,
        Err(_) => {
            return false;
        },
    };
    let ghost old_rows = rows_view(rows@);
    let ghost tt = target@;
    rows.push(text_row(SummaryTitle::AutomaticTarget, target));
    let label = match s.auto_filesystem {
        AutoFilesystem::Btrfs => "BTRFS",
        AutoFilesystem::Ext4 => "EXT4",
        AutoFilesystem::Xfs => "XFS",
    };
    rows.push(text_row(SummaryTitle::AutomaticTargetFs, label.to_owned()));
    let ghost head = seq![
        (SummaryTitle::AutomaticTarget, None::<SubtitleKey>, tt),
        (SummaryTitle::AutomaticTargetFs, None::<SubtitleKey>, fs_label(s.auto_filesystem)),
    ];
    assert(rows_view(rows@) =~= old_rows + head);
    match s.auto_separation {
        HomeSeparation::Subvol => {
            rows.push(key_row(SummaryTitle::AutomaticSeperation, SubtitleKey::SeparationSubvol));
            assert(rows_view(rows@) =~= old_rows + head.push(
                (SummaryTitle::AutomaticSeperation, Some(SubtitleKey::SeparationSubvol), empty_text()),
            ));
            true
        },
        HomeSeparation::NoSeparation => {
            rows.push(key_row(SummaryTitle::AutomaticSeperation, SubtitleKey::SeparationNone));
            assert(rows_view(rows@) =~= old_rows + head.push(
                (SummaryTitle::AutomaticSeperation, Some(SubtitleKey::SeparationNone), empty_text()),
            ));
            true
        },
        HomeSeparation::Partition => {
            let usable = home_part_size(s.auto_target.block_size, 0);
            let home = home_part_size(s.auto_target.block_size, s.auto_root_size);
            let root_per = rounded_percent_of(s.auto_root_size as i128, usable);
            let home_per = rounded_percent_of(home, usable);
            let vars = vec![
                pair("ROOT_PER", signed_decimal_string(root_per)),
                pair("ROOT_SIZE", t.root_size_pretty.clone()),
                pair("HOME_PER", signed_decimal_string(home_per)),
                pair("HOME_SIZE", t.home_size_pretty.clone()),
            ];
            assert(vars_view(vars@) =~= seq![
                ("ROOT_PER"@, signed_decimal(rounded_percent(s.auto_root_size as int, usable_space(s.auto_target.block_size)))),
                ("ROOT_SIZE"@, t.root_size_pretty@),
                ("HOME_PER"@, signed_decimal(rounded_percent(home_size(*s), usable_space(s.auto_target.block_size)))),
                ("HOME_SIZE"@, t.home_size_pretty@),
            ]);
            let ratio = match fill_template(t.automatic_ratio.as_str(), &vars) {
                Ok(x) => x,
                Err(_) => {
                    return false;
                },
            };
            let ghost rt = ratio@;
            rows.push(key_row(SummaryTitle::AutomaticSeperation, SubtitleKey::SeparationPartition));
            rows.push(text_row(SummaryTitle::AutomaticRatio, ratio));
            assert(rows_view(rows@) =~= old_rows + head.push(
                (SummaryTitle::AutomaticSeperation, Some(SubtitleKey::SeparationPartition), empty_text()),
            ).push((SummaryTitle::AutomaticRatio, None::<SubtitleKey>, rt)));
            true
        },
    }
}

proof fn lemma_crypt_rows_fail(es: Seq<CrypttabEntry>, t: SummaryTexts, i: int)
    requires
        0 <= i < es.len(),
        spec_crypt_row(es[i], t) is None,
    ensures
        spec_crypt_rows(es, t) is None,
    decreases es.len(),
{
    if i < es.len() - 1 {
        lemma_crypt_rows_fail(es.drop_last(), t, i);
    }
}

proof fn lemma_fstab_rows_fail(es: Seq<FstabEntry>, t: SummaryTexts, i: int)
    requires
        0 <= i < es.len(),
        spec_fstab_row(es[i], t) is None,
    ensures
        spec_fstab_rows(es, t) is None,
    decreases es.len(),
{
    if i < es.len() - 1 {
        lemma_fstab_rows_fail(es.drop_last(), t, i);
    }
}

fn manual_rows(s: &InstallSettings, t: &SummaryTexts, rows: &mut Vec<SummaryRow>) -> (ok: bool)
    requires
        s.method == PartitionMethod::Manual,
    ensures
        ok <==> spec_manual_rows(*s, *t) is Some,
        ok ==> rows_view(final(rows)@) == rows_view(old(rows)@) + spec_manual_rows(*s, *t)->0,
{
    let ghost start = rows_view(rows@);
    if s.manual_luks_enabled {
        let n = s.manual_crypttab.len();
        let mut i: usize = 0;
        assert(s.manual_crypttab@.subrange(0, 0) =~= Seq::<CrypttabEntry>::empty());
        assert(rows_view(rows@) =~= start + Seq::<RowView>::empty());
        while i < n
            invariant
                n == s.manual_crypttab@.len(),
                s.manual_luks_enabled,
                i <= n,
                spec_crypt_rows(s.manual_crypttab@.subrange(0, i as int), *t) matches Some(done) && rows_view(
                    rows@,
                ) == start + done,
            decreases n - i,
        {
            let e = &s.manual_crypttab[i];
            let template = if e.password.is_some() {
                t.crypttab_auto.as_str()
            } else {
                t.crypttab_manual.as_str()
            };
            let vars = vec![pair("LUKS_NAME", e.partition.clone())];
            assert(vars_view(vars@) =~= seq![("LUKS_NAME"@, e.partition@)]);
            let text = match fill_template(template, &vars) {
                Ok(x) => x,
                Err(_) => {
                    proof {
                        lemma_crypt_rows_fail(s.manual_crypttab@, *t, i as int);
                    }
                    return false;
                },
            };
            let ghost before = rows_view(rows@);
            rows.push(text_row(SummaryTitle::ManualCrypttabEntry, text));
            proof {
                assert(s.manual_crypttab@.subrange(0, i + 1).drop_last() =~= s.manual_crypttab@.subrange(0, i as int));
                let done = spec_crypt_rows(s.manual_crypttab@.subrange(0, i as int), *t)->0;
                assert(rows_view(rows@) =~= before.push(row_view(rows@.last())));
                assert(rows_view(rows@) =~= start + done.push(spec_crypt_row(*e, *t)->0));
            }
            i = i + 1;
        }
        assert(s.manual_crypttab@.subrange(0, n as int) =~= s.manual_crypttab@);
    } else {
        assert(rows_view(rows@) =~= start + Seq::<RowView>::empty());
    }
    let ghost mid = rows_view(rows@);
    let n = s.manual_fstab.len();
    let mut i: usize = 0;
    assert(s.manual_fstab@.subrange(0, 0) =~= Seq::<FstabEntry>::empty());
    assert(mid =~= mid + Seq::<RowView>::empty());
    while i < n
        invariant
            n == s.manual_fstab@.len(),
            i <= n,
            spec_fstab_rows(s.manual_fstab@.subrange(0, i as int), *t) matches Some(done) && rows_view(rows@)
                == mid + done,
        decreases n - i,
    {
        let e = &s.manual_fstab[i];
        let vars = vec![
            pair("PART_NAME", e.partition.part_name.clone()),
            pair("PART_SIZE", e.partition.part_size_pretty.clone()),
            pair("PART_FS", e.partition.part_fs.clone()),
            pair("MOUNTPOINT", e.mountpoint.clone()),
        ];
        assert(vars_view(vars@) =~= seq![
            ("PART_NAME"@, e.partition.part_name@),
            ("PART_SIZE"@, e.partition.part_size_pretty@),
            ("PART_FS"@, e.partition.part_fs@),
            ("MOUNTPOINT"@, e.mountpoint@),
        ]);
        let text = match fill_template(t.fstab_entry.as_str(), &vars) {
            Ok(x) => x,
            Err(_) => {
                proof {
                    lemma_fstab_rows_fail(s.manual_fstab@, *t, i as int);
                    if s.manual_luks_enabled {
                    }
                }
                return false;
            },
        };
        let ghost before = rows_view(rows@);
        rows.push(text_row(SummaryTitle::ManualFstabEntry, text));
        proof {
            assert(s.manual_fstab@.subrange(0, i + 1).drop_last() =~= s.manual_fstab@.subrange(0, i as int));
            let done = spec_fstab_rows(s.manual_fstab@.subrange(0, i as int), *t)->0;
            assert(rows_view(rows@) =~= before.push(row_view(rows@.last())));
            assert(rows_view(rows@) =~= mid + done.push(spec_fstab_row(*e, *t)->0));
        }
        i = i + 1;
    }
    assert(s.manual_fstab@.subrange(0, n as int) =~= s.manual_fstab@);
    proof {
        let crypt = if s.manual_luks_enabled {
            spec_crypt_rows(s.manual_crypttab@, *t)
        } else {
            Some(Seq::<RowView>::empty())
        };
        assert(mid == start + crypt->0);
        let b = spec_fstab_rows(s.manual_fstab@, *t)->0;
        assert(rows_view(rows@) =~= start + (crypt->0 + b));
    }
    true
}

/// The summary rows for the settings, or `None` where `strfmt` rejects one
/// of the localized templates.
pub fn summary_rows(s: &InstallSettings, t: &SummaryTexts) -> (r: Option<Vec<SummaryRow>>)
    ensures
        r is Some <==> spec_summary(*s, *t) is Some,
        r matches Some(rows) ==> rows_view(rows@) == spec_summary(*s, *t)->0,
{
    let mut rows: Vec<SummaryRow> = Vec::new();
    rows.push(text_row(SummaryTitle::Language, s.locale.pretty_name.clone()));
    rows.push(text_row(SummaryTitle::Keymap, s.keymap.pretty_name.clone()));
    rows.push(text_row(SummaryTitle::Timezone, s.timezone.clone()));
    let key = match s.method {
        PartitionMethod::Automatic => if s.auto_luks_enabled {
            SubtitleKey::MethodAutomaticLuks
        } else {
            SubtitleKey::MethodAutomatic
        },
        PartitionMethod::Manual => if s.manual_luks_enabled {
            SubtitleKey::MethodManualLuks
        } else {
            SubtitleKey::MethodManual
        },
    };
    rows.push(key_row(SummaryTitle::PartitionMethodType, key));
    let ghost base = seq![
        (SummaryTitle::Language, None::<SubtitleKey>, s.locale.pretty_name@),
        (SummaryTitle::Keymap, None::<SubtitleKey>, s.keymap.pretty_name@),
        (SummaryTitle::Timezone, None::<SubtitleKey>, s.timezone@),
        (SummaryTitle::PartitionMethodType, Some(method_key(*s)), empty_text()),
    ];
    assert(rows_view(rows@) =~= base);
    let ok = match s.method {
        PartitionMethod::Automatic => automatic_rows(s, t, &mut rows),
        PartitionMethod::Manual => manual_rows(s, t, &mut rows),
    };
    if ok {
        Some(rows)
    } else {
        None
    }
}

} // verus!
