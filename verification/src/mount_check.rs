//! The mount-table check of the manual partitioning page that reports one
//! error at a time in a single message line.
use vstd::prelude::*;

use crate::text::{starts_with_seq, starts_with_str, str_eq};

verus! {

/// A row of the manual partitioning page with a single error line.
pub struct DriveMount {
    pub partition: String,
    pub mountpoint: String,
    pub mountopt: String,
}

/// One distinct row with a partition, as the check reads it, with the size
/// and filesystem the partition utility reported.
pub struct CheckedMount {
    pub partition: String,
    pub mountpoint: String,
    pub mountopt: String,
    pub size: u64,
    pub fs: String,
}

/// The error line: whether it is shown, the code of the error it shows
/// (the widget name `errN`), and the partition or mountpoint it names.
pub struct ErrorLine {
    pub visible: bool,
    pub code: Option<u8>,
    pub detail: String,
}

/// The error line as plain values.
pub open spec fn line_view(l: ErrorLine) -> (bool, Option<u8>, Seq<char>) {
    (l.visible, l.code, l.detail@)
}

/// Raise error `code` when `bad`, otherwise hide the line if it shows that error.
pub open spec fn spec_flag(l: (bool, Option<u8>, Seq<char>), bad: bool, code: u8, detail: Seq<char>) -> (bool, Option<u8>, Seq<char>) {
    if bad {
        if !l.0 {
            (true, Some(code), detail)
        } else {
            l
        }
    } else if l.1 == Some(code) {
        (false, l.1, l.2)
    } else {
        l
    }
}

pub open spec fn bad_data_fs(fs: Seq<char>) -> bool {
    fs == "vfat"@ || fs == "ntfs"@ || fs == "swap"@ || fs == "exfat"@
}

/// The error line after the checks of one row.
pub open spec fn spec_check_mount(l: (bool, Option<u8>, Seq<char>), m: CheckedMount, empty_mountpoint: bool) -> (bool, Option<u8>, Seq<char>) {
    let mp = m.mountpoint@;
    let part = m.partition@;
    let l1 = if mp == "/boot/efi"@ {
        spec_flag(spec_flag(l, m.size < 500000000, 3, part), m.fs@ != "vfat"@, 4, part)
    } else {
        l
    };
    let l2 = if mp == "/boot"@ {
        spec_flag(spec_flag(l1, m.size < 1000000000, 5, part), m.fs@ == "vfat"@, 6, part)
    } else {
        l1
    };
    let l3 = if mp == "/"@ {
        spec_flag(spec_flag(l2, m.size < 25000000000, 7, part), bad_data_fs(m.fs@), 8, part)
    } else {
        l2
    };
    let l4 = if mp == "/home"@ {
        spec_flag(spec_flag(l3, m.size < 10000000000, 9, part), bad_data_fs(m.fs@), 10, part)
    } else {
        l3
    };
    let l5 = if mp == "[SWAP]"@ {
        spec_flag(l4, m.fs@ != "swap"@, 11, part)
    } else {
        l4
    };
    spec_flag(
        l5,
        !empty_mountpoint && !starts_with_seq(mp, "/"@) && mp != "[SWAP]"@,
        12,
        mp,
    )
}

/// Some row has an empty mountpoint.
pub open spec fn any_empty_mountpoint(mounts: Seq<DriveMount>) -> bool {
    exists|i: int| 0 <= i < mounts.len() && #[trigger] mounts[i].mountpoint@.len() == 0
}

/// Some row has an empty partition.
pub open spec fn any_empty_partition(mounts: Seq<DriveMount>) -> bool {
    exists|i: int| 0 <= i < mounts.len() && #[trigger] mounts[i].partition@.len() == 0
}

/// Two rows share a mountpoint.
pub open spec fn any_repeated_mountpoint(mounts: Seq<DriveMount>) -> bool {
    exists|i: int, j: int|
        0 <= i < j < mounts.len() && #[trigger] mounts[i].mountpoint@ == #[trigger] mounts[j].mountpoint@
}

/// A row as the check tells rows apart: by partition, mountpoint and options.
pub open spec fn row_key(m: DriveMount) -> (Seq<char>, Seq<char>, Seq<char>) {
    (m.partition@, m.mountpoint@, m.mountopt@)
}

/// A checked row by the same three values.
pub open spec fn checked_key(c: CheckedMount) -> (Seq<char>, Seq<char>, Seq<char>) {
    (c.partition@, c.mountpoint@, c.mountopt@)
}

/// `keys` lists each distinct row of `mounts` that has a partition exactly
/// once, in some order.
pub open spec fn lists_partition_rows(mounts: Seq<DriveMount>, keys: Seq<(Seq<char>, Seq<char>, Seq<char>)>) -> bool {
    &&& forall|k: int|
        0 <= k < keys.len() ==> (#[trigger] keys[k]).0.len() > 0 && exists|i: int|
            0 <= i < mounts.len() && row_key(#[trigger] mounts[i]) == keys[k]
    &&& forall|i: int|
        0 <= i < mounts.len() && (#[trigger] mounts[i]).partition@.len() > 0 ==> exists|k: int|
            0 <= k < keys.len() && #[trigger] keys[k] == row_key(mounts[i])
    &&& forall|k1: int, k2: int| 0 <= k1 < k2 < keys.len() ==> #[trigger] keys[k1] != #[trigger] keys[k2]
}

/// The keys of the checked rows.
pub open spec fn checked_keys(checked: Seq<CheckedMount>) -> Seq<(Seq<char>, Seq<char>, Seq<char>)> {
    checked.map_values(|c: CheckedMount| checked_key(c))
}

/// The keys of the rows.
pub open spec fn row_keys(rows: Seq<DriveMount>) -> Seq<(Seq<char>, Seq<char>, Seq<char>)> {
    rows.map_values(|m: DriveMount| row_key(m))
}

fn same_row(a: &DriveMount, b: &DriveMount) -> (r: bool)
    ensures
        r == (row_key(*a) == row_key(*b)),
{
    a.partition == b.partition && a.mountpoint == b.mountpoint && a.mountopt == b.mountopt
}

/// The distinct rows of `mounts` that have a partition, each once, in the
/// order they first occur: one order in which the check may visit them.
pub fn distinct_partition_rows(mounts: &Vec<DriveMount>) -> (r: Vec<DriveMount>)
    ensures
        lists_partition_rows(mounts@, row_keys(r@)),
{
    let mut r: Vec<DriveMount> = Vec::new();
    let mut i: usize = 0;
    while i < mounts.len()
        invariant
            i <= mounts.len(),
            forall|k: int|
                0 <= k < r@.len() ==> (#[trigger] r@[k]).partition@.len() > 0 && exists|j: int|
                    0 <= j < i && row_key(#[trigger] mounts@[j]) == row_key(r@[k]),
            forall|j: int|
                0 <= j < i && (#[trigger] mounts@[j]).partition@.len() > 0 ==> exists|k: int|
                    0 <= k < r@.len() && row_key(#[trigger] r@[k]) == row_key(mounts@[j]),
            forall|k1: int, k2: int|
                0 <= k1 < k2 < r@.len() ==> row_key(#[trigger] r@[k1]) != row_key(#[trigger] r@[k2]),
        decreases mounts.len() - i,
    {
        let m = &mounts[i];
        if m.partition.as_str().unicode_len() > 0 {
            let mut seen = false;
            let mut k: usize = 0;
            while k < r.len()
                invariant
                    k <= r@.len(),
                    m == mounts@[i as int],
                    seen ==> exists|q: int| 0 <= q < r@.len() && row_key(#[trigger] r@[q]) == row_key(*m),
                    !seen ==> forall|q: int| 0 <= q < k ==> row_key(#[trigger] r@[q]) != row_key(*m),
                decreases r@.len() - k,
            {
                if same_row(&r[k], m) {
                    seen = true;
                }
                k = k + 1;
            }
            if !seen {
                let c = DriveMount {
                    partition: m.partition.clone(),
                    mountpoint: m.mountpoint.clone(),
                    mountopt: m.mountopt.clone(),
                };
                let ghost old_r = r@;
                r.push(c);
                proof {
                    assert(r@[old_r.len() as int] == c);
                    assert forall|k: int| 0 <= k < r@.len() implies (#[trigger] r@[k]).partition@.len() > 0
                        && exists|j: int| 0 <= j < i + 1 && row_key(#[trigger] mounts@[j]) == row_key(r@[k]) by {
                        if k < old_r.len() {
                            assert(r@[k] == old_r[k]);
                        } else {
                            assert(row_key(mounts@[i as int]) == row_key(r@[k]));
                        }
                    }
                    assert forall|j: int| 0 <= j < i + 1 && (#[trigger] mounts@[j]).partition@.len() > 0 implies exists|k: int|
                        0 <= k < r@.len() && row_key(#[trigger] r@[k]) == row_key(mounts@[j]) by {
                        if j < i {
                            let k = choose|k: int| 0 <= k < old_r.len() && row_key(#[trigger] old_r[k]) == row_key(mounts@[j]);
                            assert(r@[k] == old_r[k]);
                        } else {
                            assert(row_key(r@[old_r.len() as int]) == row_key(mounts@[j]));
                        }
                    }
                    assert forall|k1: int, k2: int| 0 <= k1 < k2 < r@.len() implies row_key(#[trigger] r@[k1]) != row_key(#[trigger] r@[k2]) by {
                        assert(r@[k1] == old_r[k1]);
                        if k2 < old_r.len() {
                            assert(r@[k2] == old_r[k2]);
                        }
                    }
                }
            } else {
                proof {
                    assert forall|k: int| 0 <= k < r@.len() implies (#[trigger] r@[k]).partition@.len() > 0
                        && exists|j: int| 0 <= j < i + 1 && row_key(#[trigger] mounts@[j]) == row_key(r@[k]) by {
                        let j = choose|j: int| 0 <= j < i && row_key(#[trigger] mounts@[j]) == row_key(r@[k]);
                    }
                }
            }
        } else {
            proof {
                assert forall|k: int| 0 <= k < r@.len() implies (#[trigger] r@[k]).partition@.len() > 0
                    && exists|j: int| 0 <= j < i + 1 && row_key(#[trigger] mounts@[j]) == row_key(r@[k]) by {
                    let j = choose|j: int| 0 <= j < i && row_key(#[trigger] mounts@[j]) == row_key(r@[k]);
                }
            }
        }
        i = i + 1;
    }
    proof {
        let ks = row_keys(r@);
        assert forall|k: int| 0 <= k < ks.len() implies (#[trigger] ks[k]).0.len() > 0 && exists|j: int|
            0 <= j < mounts@.len() && row_key(#[trigger] mounts@[j]) == ks[k] by {
            assert(ks[k] == row_key(r@[k]));
        }
        assert forall|j: int| 0 <= j < mounts@.len() && (#[trigger] mounts@[j]).partition@.len() > 0 implies exists|k: int|
            0 <= k < ks.len() && #[trigger] ks[k] == row_key(mounts@[j]) by {
            let k = choose|k: int| 0 <= k < r@.len() && row_key(#[trigger] r@[k]) == row_key(mounts@[j]);
            assert(ks[k] == row_key(r@[k]));
        }
        assert forall|k1: int, k2: int| 0 <= k1 < k2 < ks.len() implies #[trigger] ks[k1] != #[trigger] ks[k2] by {
            assert(ks[k1] == row_key(r@[k1]));
            assert(ks[k2] == row_key(r@[k2]));
        }
    }
    r
}

/// The error line after the checks on the whole table, before the rows.
pub open spec fn spec_table_checks(l: (bool, Option<u8>, Seq<char>), mounts: Seq<DriveMount>) -> (bool, Option<u8>, Seq<char>) {
    let empty_mount = any_empty_mountpoint(mounts);
    let l1 = if !empty_mount {
        let hidden1 = if l.1 == Some(1u8) {
            (false, l.1, l.2)
        } else {
            l
        };
        spec_flag(hidden1, any_repeated_mountpoint(mounts), 0, Seq::<char>::empty())
    } else if !l.0 {
        (true, Some(1u8), Seq::<char>::empty())
    } else {
        l
    };
    spec_flag(l1, any_empty_partition(mounts), 2, Seq::<char>::empty())
}

/// The error line and the "valid" line after the rows `ms`, in order.
pub open spec fn spec_check_rows(
    l: (bool, Option<u8>, Seq<char>),
    valid: bool,
    ms: Seq<CheckedMount>,
    empty_mountpoint: bool,
) -> ((bool, Option<u8>, Seq<char>), bool)
    decreases ms.len(),
{
    if ms.len() == 0 {
        (l, valid)
    } else {
        let (l0, _) = spec_check_rows(l, valid, ms.drop_last(), empty_mountpoint);
        let l1 = spec_check_mount(l0, ms.last(), empty_mountpoint);
        (l1, !l1.0)
    }
}

fn flag(l: &mut ErrorLine, bad: bool, code: u8, detail: &String)
    ensures
        line_view(*final(l)) == spec_flag(line_view(*old(l)), bad, code, detail@),
{
    if bad {
        if !l.visible {
            l.visible = true;
            l.code = Some(code);
            l.detail = detail.clone();
        }
    } else if l.code == Some(code) {
        l.visible = false;
    }
}

fn check_mount(l: &mut ErrorLine, m: &CheckedMount, empty_mountpoint: bool)
    ensures
        line_view(*final(l)) == spec_check_mount(line_view(*old(l)), *m, empty_mountpoint),
{
    let mp = m.mountpoint.as_str();
    let fs = m.fs.as_str();
    if str_eq(mp, "/boot/efi") {
        flag(l, m.size < 500000000, 3, &m.partition);
        flag(l, !str_eq(fs, "vfat"), 4, &m.partition);
    }
    if str_eq(mp, "/boot") {
        flag(l, m.size < 1000000000, 5, &m.partition);
        flag(l, str_eq(fs, "vfat"), 6, &m.partition);
    }
    if str_eq(mp, "/") {
        flag(l, m.size < 25000000000, 7, &m.partition);
        let bad = str_eq(fs, "vfat") || str_eq(fs, "ntfs") || str_eq(fs, "swap") || str_eq(fs, "exfat");
        flag(l, bad, 8, &m.partition);
    }
    if str_eq(mp, "/home") {
        flag(l, m.size < 10000000000, 9, &m.partition);
        let bad = str_eq(fs, "vfat") || str_eq(fs, "ntfs") || str_eq(fs, "swap") || str_eq(fs, "exfat");
        flag(l, bad, 10, &m.partition);
    }
    if str_eq(mp, "[SWAP]") {
        flag(l, !str_eq(fs, "swap"), 11, &m.partition);
    }
    let bad_mountpoint = !empty_mountpoint && !starts_with_str(mp, "/") && !str_eq(mp, "[SWAP]");
    flag(l, bad_mountpoint, 12, &m.mountpoint);
}

fn has_empty_mountpoint(mounts: &Vec<DriveMount>) -> (r: bool)
    ensures
        r == any_empty_mountpoint(mounts@),
{
    let mut i: usize = 0;
    while i < mounts.len()
        invariant
            i <= mounts.len(),
            forall|j: int| 0 <= j < i ==> mounts@[j].mountpoint@.len() != 0,
        decreases mounts.len() - i,
    {
        if mounts[i].mountpoint.as_str().unicode_len() == 0 {
            return true;
        }
        i = i + 1;
    }
    false
}

fn has_empty_partition(mounts: &Vec<DriveMount>) -> (r: bool)
    ensures
        r == any_empty_partition(mounts@),
{
    let mut i: usize = 0;
    while i < mounts.len()
        invariant
            i <= mounts.len(),
            forall|j: int| 0 <= j < i ==> mounts@[j].partition@.len() != 0,
        decreases mounts.len() - i,
    {
        if mounts[i].partition.as_str().unicode_len() == 0 {
            return true;
        }
        i = i + 1;
    }
    false
}

fn has_repeated_mountpoint(mounts: &Vec<DriveMount>) -> (r: bool)
    ensures
        r == any_repeated_mountpoint(mounts@),
{
    let n = mounts.len();
    let mut j: usize = 0;
    while j < n
        invariant
            n == mounts@.len(),
            j <= n,
            forall|a: int, b: int| 0 <= a < b < j ==> mounts@[a].mountpoint@ != mounts@[b].mountpoint@,
        decreases n - j,
    {
        let mut i: usize = 0;
        while i < j
            invariant
                n == mounts@.len(),
                i <= j < n,
                forall|a: int| 0 <= a < i ==> mounts@[a].mountpoint@ != mounts@[j as int].mountpoint@,
            decreases j - i,
        {
            if mounts[i].mountpoint == mounts[j].mountpoint {
                assert(mounts@[i as int].mountpoint@ == mounts@[j as int].mountpoint@);
                return true;
            }
            i = i + 1;
        }
        j = j + 1;
    }
    false
}

/// The check of the manual partitioning page with a single error line.
/// `mounts` are all rows;
/// `checked` are the distinct rows that have a partition, each once, in the
/// order the check visits them (any order), with what the partition utility
/// reported. Updates the
/// error line and returns whether the "valid" line is shown (`valid_visible`
/// is kept when no row is visited).
pub fn partition_err_check(
    line: &mut ErrorLine,
    valid_visible: bool,
    mounts: &Vec<DriveMount>,
    checked: &Vec<CheckedMount>,
) -> (valid: bool)
    requires
        lists_partition_rows(mounts@, checked_keys(checked@)),
    ensures
        (line_view(*final(line)), valid) == spec_check_rows(
            spec_table_checks(line_view(*old(line)), mounts@),
            valid_visible,
            checked@,
            any_empty_mountpoint(mounts@),
        ),
{
    let empty_mount = has_empty_mountpoint(mounts);
    let empty = String::new();
    if !empty_mount {
        if line.code == Some(1u8) {
            line.visible = false;
        }
        flag(line, has_repeated_mountpoint(mounts), 0, &empty);
    } else if !line.visible {
        line.visible = true;
        line.code = Some(1u8);
        line.detail = String::new();
    }
    flag(line, has_empty_partition(mounts), 2, &empty);
    let ghost start = line_view(*line);
    let mut valid = valid_visible;
    let n = checked.len();
    let mut i: usize = 0;
    assert(checked@.subrange(0, 0) =~= Seq::<CheckedMount>::empty());
    while i < n
        invariant
            n == checked@.len(),
            i <= n,
            empty_mount == any_empty_mountpoint(mounts@),
            (line_view(*line), valid) == spec_check_rows(
                start,
                valid_visible,
                checked@.subrange(0, i as int),
                empty_mount,
            ),
        decreases n - i,
    {
        assert(checked@.subrange(0, i + 1).drop_last() =~= checked@.subrange(0, i as int));
        check_mount(line, &checked[i], empty_mount);
        valid = !line.visible;
        i = i + 1;
    }
    assert(checked@.subrange(0, n as int) =~= checked@);
    valid
}

/// The row breaks one of the size, filesystem or mountpoint rules.
pub open spec fn row_breaks_rule(m: CheckedMount, empty_mountpoint: bool) -> bool {
    let mp = m.mountpoint@;
    ||| (mp == "/boot/efi"@ && (m.size < 500000000 || m.fs@ != "vfat"@))
    ||| (mp == "/boot"@ && (m.size < 1000000000 || m.fs@ == "vfat"@))
    ||| (mp == "/"@ && (m.size < 25000000000 || bad_data_fs(m.fs@)))
    ||| (mp == "/home"@ && (m.size < 10000000000 || bad_data_fs(m.fs@)))
    ||| (mp == "[SWAP]"@ && m.fs@ != "swap"@)
    ||| (!empty_mountpoint && !starts_with_seq(mp, "/"@) && mp != "[SWAP]"@)
}

/// Law: the "valid" line is never shown together with an error; and a row
/// that breaks a size, filesystem or mountpoint rule, checked while no error
/// is shown, leaves an error shown right after its own checks. (An error shown
/// before can be hidden by a later row that passes the check for that same
/// error code, so the line does not always reflect the whole table.)
pub proof fn lemma_err_check_rows(
    l: (bool, Option<u8>, Seq<char>),
    valid: bool,
    ms: Seq<CheckedMount>,
    empty_mountpoint: bool,
    m: CheckedMount,
)
    ensures
        ms.len() > 0 ==> spec_check_rows(l, valid, ms, empty_mountpoint).1 == !spec_check_rows(
            l,
            valid,
            ms,
            empty_mountpoint,
        ).0.0,
        !l.0 && row_breaks_rule(m, empty_mountpoint) ==> spec_check_mount(l, m, empty_mountpoint).0,
{
}

/// Law: a partition of at least 25 GB mounted on `/`, or of at least 10 GB
/// mounted on `/home`, whose filesystem is vfat, ntfs, swap or exfat, checked
/// while no error is shown, shows the bad-filesystem error for that
/// partition (code 8 for `/`, 10 for `/home`); whatever its size, some error
/// is then shown. When such a row is the last one checked, the "valid" line
/// is hidden.
pub proof fn lemma_unfit_data_filesystem_reported(
    l: (bool, Option<u8>, Seq<char>),
    valid: bool,
    ms: Seq<CheckedMount>,
    empty_mountpoint: bool,
)
    requires
        ms.len() > 0,
        !spec_check_rows(l, valid, ms.drop_last(), empty_mountpoint).0.0,
        ms.last().mountpoint@ == "/"@ || ms.last().mountpoint@ == "/home"@,
        ms.last().fs@ == "vfat"@ || ms.last().fs@ == "ntfs"@ || ms.last().fs@ == "swap"@ || ms.last().fs@
            == "exfat"@,
    ensures
        ({
            let m = ms.last();
            let before = spec_check_rows(l, valid, ms.drop_last(), empty_mountpoint).0;
            &&& m.mountpoint@ == "/"@ && m.size >= 25000000000 ==> spec_check_mount(before, m, empty_mountpoint)
                == (true, Some(8u8), m.partition@)
            &&& m.mountpoint@ == "/home"@ && m.size >= 10000000000 ==> spec_check_mount(
                before,
                m,
                empty_mountpoint,
            ) == (true, Some(10u8), m.partition@)
        }),
        spec_check_rows(l, valid, ms, empty_mountpoint).0.0,
        !spec_check_rows(l, valid, ms, empty_mountpoint).1,
{
    reveal_strlit("/");
    reveal_strlit("/home");
    reveal_strlit("/boot");
    reveal_strlit("/boot/efi");
    reveal_strlit("[SWAP]");
    let m = ms.last();
    assert(starts_with_seq(m.mountpoint@, "/"@)) by {
        assert(m.mountpoint@[0] == '/');
        assert(m.mountpoint@.subrange(0, 1) =~= "/"@);
    }
    assert(m.mountpoint@ != "/boot/efi"@ && m.mountpoint@ != "/boot"@ && m.mountpoint@ != "[SWAP]"@) by {
        if m.mountpoint@ == "/"@ {
            assert(m.mountpoint@.len() == 1);
        } else {
            assert(m.mountpoint@.len() == 5);
            assert(m.mountpoint@[1] == 'h');
        }
    }
    assert(m.mountpoint@ == "/"@ ==> m.mountpoint@ != "/home"@) by {
        if m.mountpoint@ == "/"@ {
            assert(m.mountpoint@.len() == 1);
        }
    }
}

/// The first rule that the row breaks, in the order the check tries them,
/// with the code of its error and what the message names: the partition, or
/// the mountpoint for a mountpoint that is neither absolute nor `[SWAP]`.
pub open spec fn first_broken_rule(m: CheckedMount, empty_mountpoint: bool) -> Option<(u8, Seq<char>)> {
    let mp = m.mountpoint@;
    let fs = m.fs@;
    let part = m.partition@;
    let unfit = fs == "vfat"@ || fs == "ntfs"@ || fs == "swap"@ || fs == "exfat"@;
    if mp == "/boot/efi"@ && m.size < 500000000 {
        Some((3u8, part))
    } else if mp == "/boot/efi"@ && fs != "vfat"@ {
        Some((4u8, part))
    } else if mp == "/boot"@ && m.size < 1000000000 {
        Some((5u8, part))
    } else if mp == "/boot"@ && fs == "vfat"@ {
        Some((6u8, part))
    } else if mp == "/"@ && m.size < 25000000000 {
        Some((7u8, part))
    } else if mp == "/"@ && unfit {
        Some((8u8, part))
    } else if mp == "/home"@ && m.size < 10000000000 {
        Some((9u8, part))
    } else if mp == "/home"@ && unfit {
        Some((10u8, part))
    } else if mp == "[SWAP]"@ && fs != "swap"@ {
        Some((11u8, part))
    } else if !empty_mountpoint && !starts_with_seq(mp, "/"@) && mp != "[SWAP]"@ {
        Some((12u8, mp))
    } else {
        None
    }
}

/// Law: a row checked while no error is shown shows the error of the first
/// rule it breaks, naming its partition (or its mountpoint), and leaves the
/// line as it was when it breaks none.
pub proof fn lemma_row_check_shows_first_broken_rule(
    l: (bool, Option<u8>, Seq<char>),
    m: CheckedMount,
    empty_mountpoint: bool,
)
    requires
        !l.0,
    ensures
        spec_check_mount(l, m, empty_mountpoint) == (match first_broken_rule(m, empty_mountpoint) {
            Some((code, detail)) => (true, Some(code), detail),
            None => l,
        }),
{
    reveal_strlit("/");
    reveal_strlit("/home");
    reveal_strlit("/boot");
    reveal_strlit("/boot/efi");
    reveal_strlit("[SWAP]");
    let mp = m.mountpoint@;
    assert("/boot"@ != "/home"@) by {
        assert("/boot"@[1] != "/home"@[1]);
    }
    assert("/boot/efi"@.len() == 9 && "/boot"@.len() == 5 && "/"@.len() == 1 && "/home"@.len() == 5
        && "[SWAP]"@.len() == 6);
    if mp == "/boot/efi"@ || mp == "/boot"@ || mp == "/"@ || mp == "/home"@ {
        assert(starts_with_seq(mp, "/"@)) by {
            assert(mp.subrange(0, 1) =~= "/"@);
        }
    }
}

/// The rows `ms` keep a hidden error line hidden when none of them breaks a
/// rule.
proof fn lemma_clean_rows_keep_hidden(
    l: (bool, Option<u8>, Seq<char>),
    valid: bool,
    ms: Seq<CheckedMount>,
    empty_mountpoint: bool,
)
    requires
        !l.0,
        forall|i: int| 0 <= i < ms.len() ==> !row_breaks_rule(#[trigger] ms[i], empty_mountpoint),
    ensures
        !spec_check_rows(l, valid, ms, empty_mountpoint).0.0,
    decreases ms.len(),
{
    if ms.len() > 0 {
        let t = ms.drop_last();
        assert forall|i: int| 0 <= i < t.len() implies !row_breaks_rule(#[trigger] t[i], empty_mountpoint) by {
            assert(t[i] == ms[i]);
        }
        lemma_clean_rows_keep_hidden(l, valid, t, empty_mountpoint);
        assert(!row_breaks_rule(ms[ms.len() - 1], empty_mountpoint));
    }
}

/// Law: a table with no empty mountpoint, no empty partition and no repeated
/// mountpoint, whose rows break none of the size, filesystem and mountpoint
/// rules, leaves a hidden error line hidden, and shows the "valid" line once
/// a row was checked.
pub proof fn lemma_clean_table_is_valid(
    l: (bool, Option<u8>, Seq<char>),
    valid: bool,
    mounts: Seq<DriveMount>,
    ms: Seq<CheckedMount>,
)
    requires
        !l.0,
        !any_empty_mountpoint(mounts),
        !any_empty_partition(mounts),
        !any_repeated_mountpoint(mounts),
        forall|i: int| 0 <= i < ms.len() ==> !row_breaks_rule(#[trigger] ms[i], false),
    ensures
        !spec_check_rows(spec_table_checks(l, mounts), valid, ms, any_empty_mountpoint(mounts)).0.0,
        ms.len() > 0 ==> spec_check_rows(spec_table_checks(l, mounts), valid, ms, any_empty_mountpoint(mounts)).1,
{
    let start = spec_table_checks(l, mounts);
    assert(!start.0);
    lemma_clean_rows_keep_hidden(start, valid, ms, false);
    lemma_err_check_rows(start, valid, ms, false, ms[0]);
}

} // verus!
