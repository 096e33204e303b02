//! The mount table built on the manual partitioning page: which row holds
//! which partition, the btrfs subvolume declarations, the validation of the
//! finished table and the crypttab entries for its encrypted partitions.
use vstd::prelude::*;

use crate::model::{CrypttabEntry, FstabEntry, SubvolDeclaration};
use crate::text::{contains_seq, contains_str, replace_all, replaced, starts_with_seq,
    starts_with_str, str_eq};

verus! {

/// Some entry of `used` holds the partition named `name`.
pub open spec fn holds_partition(used: Seq<FstabEntry>, name: Seq<char>) -> bool {
    exists|i: int| 0 <= i < used.len() && #[trigger] used[i].partition.part_name@ == name
}

/// The holdings after a row picked the partition of `entry`: the entry is
/// recorded unless some row already holds that partition.
pub open spec fn spec_select(used: Seq<FstabEntry>, entry: FstabEntry) -> Seq<FstabEntry> {
    if holds_partition(used, entry.partition.part_name@) {
        used
    } else {
        used.push(entry)
    }
}

/// The holdings after row `row_id` gave up its partitions.
pub open spec fn spec_release(used: Seq<FstabEntry>, row_id: i32) -> Seq<FstabEntry>
    decreases used.len(),
{
    if used.len() == 0 {
        used
    } else if used.last().used_by == row_id {
        spec_release(used.drop_last(), row_id)
    } else {
        spec_release(used.drop_last(), row_id).push(used.last())
    }
}

/// Records that a row picked the partition of `entry`, unless some row
/// already holds that partition.
pub fn select_partition(used: &mut Vec<FstabEntry>, entry: FstabEntry)
    ensures
        final(used)@ == spec_select(old(used)@, entry),
{
    let mut i: usize = 0;
    while i < used.len()
        invariant
            i <= used.len(),
            forall|j: int| 0 <= j < i ==> used@[j].partition.part_name@ != entry.partition.part_name@,
        decreases used.len() - i,
    {
        if used[i].partition.part_name == entry.partition.part_name {
            return;
        }
        i = i + 1;
    }
    used.push(entry);
}

/// Removes every holding of row `row_id`, keeping the others in order.
pub fn release_row(used: &mut Vec<FstabEntry>, row_id: i32)
    ensures
        final(used)@ == spec_release(old(used)@, row_id),
{
    let ghost orig = used@;
    let mut kept: Vec<FstabEntry> = Vec::new();
    let mut i: usize = 0;
    let n = used.len();
    while i < n
        invariant
            n == orig.len(),
            used@ == orig,
            i <= n,
            kept@ == spec_release(orig.subrange(0, i as int), row_id),
        decreases n - i,
    {
        assert(orig.subrange(0, i + 1).drop_last() =~= orig.subrange(0, i as int));
        if used[i].used_by != row_id {
            kept.push(used[i].clone());
        }
        i = i + 1;
    }
    assert(orig.subrange(0, n as int) =~= orig);
    *used = kept;
}

/// Law: picking keeps every partition held at most once.
pub open spec fn holdings_unique(used: Seq<FstabEntry>) -> bool {
    forall|i: int, j: int|
        0 <= i < j < used.len() ==> used[i].partition.part_name@ != used[j].partition.part_name@
}

/// Law: picking a partition keeps every partition held at most once, and a
/// picked partition is held afterwards.
pub proof fn lemma_select_keeps_holdings_unique(used: Seq<FstabEntry>, entry: FstabEntry)
    requires
        holdings_unique(used),
    ensures
        holdings_unique(spec_select(used, entry)),
        holds_partition(spec_select(used, entry), entry.partition.part_name@),
{
    let r = spec_select(used, entry);
    if !holds_partition(used, entry.partition.part_name@) {
        assert(r[used.len() as int] == entry);
    }
}

/// Law: after a row gives up its partitions, no holding of that row is left,
/// every holding of another row is kept, and nothing else is added.
pub proof fn lemma_release_removes_exactly_the_row(used: Seq<FstabEntry>, row_id: i32)
    ensures
        forall|k: int|
            0 <= k < spec_release(used, row_id).len() ==> #[trigger] spec_release(used, row_id)[k].used_by
                != row_id,
        forall|k: int|
            0 <= k < used.len() && used[k].used_by != row_id ==> spec_release(
                used,
                row_id,
            ).contains(#[trigger] used[k]),
        forall|e: FstabEntry| spec_release(used, row_id).contains(e) ==> used.contains(e),
    decreases used.len(),
{
    if used.len() > 0 {
        let rest = used.drop_last();
        lemma_release_removes_exactly_the_row(rest, row_id);
        let r = spec_release(used, row_id);
        let rr = spec_release(rest, row_id);
        assert forall|k: int|
            0 <= k < used.len() && used[k].used_by != row_id implies r.contains(#[trigger] used[k]) by {
            if k < used.len() - 1 {
                assert(rest[k] == used[k]);
                let w = choose|w: int| 0 <= w < rr.len() && rr[w] == rest[k];
                assert(r[w] == used[k]);
            } else {
                assert(r[r.len() - 1] == used[k]);
            }
        }
        assert forall|e: FstabEntry| r.contains(e) implies used.contains(e) by {
            let w = choose|w: int| 0 <= w < r.len() && r[w] == e;
            if w < rr.len() {
                assert(r[w] == rr[w]);
                assert(rr.contains(e));
                assert(rest.contains(e));
                let v = choose|v: int| 0 <= v < rest.len() && rest[v] == e;
                assert(used[v] == e);
            } else {
                assert(used[used.len() - 1] == e);
            }
        }
    }
}

/// The mount options select a btrfs subvolume.
pub open spec fn selects_subvolume(mountopts: Seq<char>) -> bool {
    contains_seq(mountopts, "subvol="@) || contains_seq(mountopts, "subvolid"@)
}

/// Records or withdraws the subvolume declaration of row `row_id` after its
/// mount options became `mountopts`: options naming `subvol=` or `subvolid`
/// add a declaration for the row's partition, others remove all declarations
/// the row made.
pub fn update_subvol_declarations(
    subvols: &mut Vec<SubvolDeclaration>,
    row_id: i32,
    row_partition: &String,
    mountopts: &str,
)
    ensures
        selects_subvolume(mountopts@) ==> final(subvols)@.len() == old(subvols)@.len() + 1
            && final(subvols)@.subrange(0, old(subvols)@.len() as int) == old(subvols)@
            && final(subvols)@.last().part_name@ == row_partition@
            && final(subvols)@.last().made_by == row_id,
        !selects_subvolume(mountopts@) ==> final(subvols)@ == old(subvols)@.filter(
            |d: SubvolDeclaration| d.made_by != row_id,
        ),
{
    if contains_str(mountopts, "subvol=") || contains_str(mountopts, "subvolid") {
        subvols.push(SubvolDeclaration { part_name: row_partition.clone(), made_by: row_id });
        assert(subvols@.subrange(0, old(subvols)@.len() as int) =~= old(subvols)@);
    } else {
        let ghost orig = subvols@;
        let ghost keep = |d: SubvolDeclaration| d.made_by != row_id;
        let mut kept: Vec<SubvolDeclaration> = Vec::new();
        let n = subvols.len();
        let mut i: usize = 0;
        while i < n
            invariant
                n == orig.len(),
                subvols@ == orig,
                i <= n,
                keep == (|d: SubvolDeclaration| d.made_by != row_id),
                kept@ == orig.subrange(0, i as int).filter(keep),
            decreases n - i,
        {
            proof {
                reveal_with_fuel(Seq::<_>::filter, 1);
                assert(orig.subrange(0, i + 1).drop_last() =~= orig.subrange(0, i as int));
            }
            if subvols[i].made_by != row_id {
                kept.push(subvols[i].clone());
            }
            i = i + 1;
        }
        assert(orig.subrange(0, n as int) =~= orig);
        *subvols = kept;
    }
}

/// The verdict on a finished mount table. `errored` is set by any problem;
/// the other flags choose which error messages are shown.
#[derive(Clone, Copy, Debug, PartialEq, Eq, Structural)]
pub struct FsTableReport {
    pub errored: bool,
    pub mountpoint_empty: bool,
    pub mountpoint_invalid: bool,
    pub partition_empty: bool,
    pub mountpoint_duplicate: bool,
}

/// The mountpoint names swap or an absolute path outside `/dev`.
pub open spec fn mountpoint_valid(m: Seq<char>) -> bool {
    m == "[SWAP]"@ || (starts_with_seq(m, "/"@) && !starts_with_seq(m, "/dev"@))
}

/// Entry `i` repeats the partition of an entry before it.
pub open spec fn repeats_partition(entries: Seq<FstabEntry>, i: int) -> bool {
    exists|j: int|
        0 <= j < i && #[trigger] entries[j].partition.part_name@ == entries[i].partition.part_name@
}

/// Entry `i` repeats the mountpoint of an entry before it.
pub open spec fn repeats_mountpoint(entries: Seq<FstabEntry>, i: int) -> bool {
    exists|j: int| 0 <= j < i && #[trigger] entries[j].mountpoint@ == entries[i].mountpoint@
}

/// Entry `e` is a swap entry on a partition that is not swap.
pub open spec fn bad_swap(e: FstabEntry) -> bool {
    e.mountpoint@ == "[SWAP]"@ && !(e.partition.part_fs@ == "linux-swap"@ || e.partition.part_fs@
        == "swap"@)
}

/// Entry `i` has some problem; a repeated partition counts only when no row
/// declared a btrfs subvolume.
pub open spec fn entry_errored(entries: Seq<FstabEntry>, i: int, subvols_empty: bool) -> bool {
    ||| subvols_empty && repeats_partition(entries, i)
    ||| bad_swap(entries[i])
    ||| entries[i].mountpoint@.len() == 0
    ||| !mountpoint_valid(entries[i].mountpoint@)
    ||| entries[i].partition.part_name@.len() == 0
    ||| repeats_mountpoint(entries, i)
}

/// The verdict on the first `n` entries of a mount table.
pub open spec fn spec_report(entries: Seq<FstabEntry>, n: int, subvols_empty: bool) -> FsTableReport {
    FsTableReport {
        errored: exists|i: int| 0 <= i < n && #[trigger] entry_errored(entries, i, subvols_empty),
        mountpoint_empty: exists|i: int| 0 <= i < n && #[trigger] entries[i].mountpoint@.len() == 0,
        mountpoint_invalid: exists|i: int|
            0 <= i < n && !mountpoint_valid(#[trigger] entries[i].mountpoint@),
        partition_empty: exists|i: int|
            0 <= i < n && #[trigger] entries[i].partition.part_name@.len() == 0,
        mountpoint_duplicate: exists|i: int| 0 <= i < n && #[trigger] repeats_mountpoint(entries, i),
    }
}

fn entry_repeats_partition(entries: &Vec<FstabEntry>, i: usize) -> (r: bool)
    requires
        i < entries.len(),
    ensures
        r == repeats_partition(entries@, i as int),
{
    let mut j: usize = 0;
    while j < i
        invariant
            i < entries.len(),
            j <= i,
            forall|k: int|
                0 <= k < j ==> entries@[k].partition.part_name@ != entries@[i as int].partition.part_name@,
        decreases i - j,
    {
        if entries[j].partition.part_name == entries[i].partition.part_name {
            return true;
        }
        j = j + 1;
    }
    false
}

fn entry_repeats_mountpoint(entries: &Vec<FstabEntry>, i: usize) -> (r: bool)
    requires
        i < entries.len(),
    ensures
        r == repeats_mountpoint(entries@, i as int),
{
    let mut j: usize = 0;
    while j < i
        invariant
            i < entries.len(),
            j <= i,
            forall|k: int| 0 <= k < j ==> entries@[k].mountpoint@ != entries@[i as int].mountpoint@,
        decreases i - j,
    {
        if entries[j].mountpoint == entries[i].mountpoint {
            return true;
        }
        j = j + 1;
    }
    false
}

fn mountpoint_is_valid(m: &str) -> (r: bool)
    ensures
        r == mountpoint_valid(m@),
{
    str_eq(m, "[SWAP]") || (starts_with_str(m, "/") && !starts_with_str(m, "/dev"))
}

/// Checks a finished mount table: every entry needs a partition and a
/// mountpoint that is `[SWAP]` or an absolute path outside `/dev`; swap
/// entries need a swap partition; mountpoints may not repeat, and neither
/// may partitions unless some row declared a btrfs subvolume.
pub fn validate_filesystem_table(entries: &Vec<FstabEntry>, subvols_empty: bool) -> (r: FsTableReport)
    ensures
        r == spec_report(entries@, entries@.len() as int, subvols_empty),
{
    let mut report = FsTableReport {
        errored: false,
        mountpoint_empty: false,
        mountpoint_invalid: false,
        partition_empty: false,
        mountpoint_duplicate: false,
    };
    let n = entries.len();
    let mut i: usize = 0;
    while i < n
        invariant
            n == entries@.len(),
            i <= n,
            report == spec_report(entries@, i as int, subvols_empty),
        decreases n - i,
    {
        let e = &entries[i];
        let dup_part = subvols_empty && entry_repeats_partition(entries, i);
        let swap_bad = str_eq(e.mountpoint.as_str(), "[SWAP]") && !(str_eq(
            e.partition.part_fs.as_str(),
            "linux-swap",
        ) || str_eq(e.partition.part_fs.as_str(), "swap"));
        let empty_mount = e.mountpoint.as_str().unicode_len() == 0;
        let invalid_mount = !mountpoint_is_valid(e.mountpoint.as_str());
        let empty_part = e.partition.part_name.as_str().unicode_len() == 0;
        let dup_mount = entry_repeats_mountpoint(entries, i);
        let bad = dup_part || swap_bad || empty_mount || invalid_mount || empty_part || dup_mount;
        assert(bad == entry_errored(entries@, i as int, subvols_empty));
        let ghost before = report;
        report = FsTableReport {
            errored: report.errored || bad,
            mountpoint_empty: report.mountpoint_empty || empty_mount,
            mountpoint_invalid: report.mountpoint_invalid || invalid_mount,
            partition_empty: report.partition_empty || empty_part,
            mountpoint_duplicate: report.mountpoint_duplicate || dup_mount,
        };
        proof {
            let next = spec_report(entries@, i + 1, subvols_empty);
            if before.errored {
                let w = choose|w: int| 0 <= w < i && #[trigger] entry_errored(entries@, w, subvols_empty);
                assert(entry_errored(entries@, w, subvols_empty));
            }
            if bad {
                assert(entry_errored(entries@, i as int, subvols_empty));
            }
            if before.mountpoint_empty {
                let w = choose|w: int| 0 <= w < i && #[trigger] entries@[w].mountpoint@.len() == 0;
                assert(entries@[w].mountpoint@.len() == 0);
            }
            if before.mountpoint_invalid {
                let w = choose|w: int| 0 <= w < i && !mountpoint_valid(#[trigger] entries@[w].mountpoint@);
                assert(!mountpoint_valid(entries@[w].mountpoint@));
            }
            if before.partition_empty {
                let w = choose|w: int| 0 <= w < i && #[trigger] entries@[w].partition.part_name@.len() == 0;
                assert(entries@[w].partition.part_name@.len() == 0);
            }
            if before.mountpoint_duplicate {
                let w = choose|w: int| 0 <= w < i && #[trigger] repeats_mountpoint(entries@, w);
                assert(repeats_mountpoint(entries@, w));
            }
            assert(report == next);
        }
        i = i + 1;
    }
    report
}

/// Law: a table that passes validation has distinct mountpoints, each `[SWAP]`
/// on a swap partition or an absolute path outside `/dev`, a partition in
/// every entry, and, when no btrfs subvolume was declared, distinct partitions.
pub proof fn lemma_valid_table_is_well_formed(entries: Seq<FstabEntry>, subvols_empty: bool)
    requires
        !spec_report(entries, entries.len() as int, subvols_empty).errored,
    ensures
        forall|i: int, j: int|
            0 <= i < j < entries.len() ==> entries[i].mountpoint@ != entries[j].mountpoint@,
        forall|i: int| 0 <= i < entries.len() ==> mountpoint_valid(#[trigger] entries[i].mountpoint@),
        forall|i: int| 0 <= i < entries.len() ==> !bad_swap(#[trigger] entries[i]),
        forall|i: int|
            0 <= i < entries.len() ==> (#[trigger] entries[i].mountpoint@ == "[SWAP]"@ || (
            starts_with_seq(entries[i].mountpoint@, "/"@) && !starts_with_seq(
                entries[i].mountpoint@,
                "/dev"@,
            ))),
        forall|i: int|
            0 <= i < entries.len() && #[trigger] entries[i].mountpoint@ == "[SWAP]"@ ==> (
            entries[i].partition.part_fs@ == "swap"@ || entries[i].partition.part_fs@ == "linux-swap"@),
        forall|i: int| 0 <= i < entries.len() ==> #[trigger] entries[i].partition.part_name@.len() > 0,
        subvols_empty ==> forall|i: int, j: int|
            0 <= i < j < entries.len() ==> entries[i].partition.part_name@
                != entries[j].partition.part_name@,
{
    assert forall|i: int, j: int|
        0 <= i < j < entries.len() implies entries[i].mountpoint@ != entries[j].mountpoint@ by {
        assert(!entry_errored(entries, j, subvols_empty));
        if entries[i].mountpoint@ == entries[j].mountpoint@ {
            assert(repeats_mountpoint(entries, j));
        }
    }
    assert forall|i: int| 0 <= i < entries.len() implies mountpoint_valid(#[trigger] entries[i].mountpoint@) by {
        assert(!entry_errored(entries, i, subvols_empty));
    }
    assert forall|i: int| 0 <= i < entries.len() implies !bad_swap(#[trigger] entries[i]) by {
        assert(!entry_errored(entries, i, subvols_empty));
    }
    assert forall|i: int| 0 <= i < entries.len() implies #[trigger] entries[i].partition.part_name@.len() > 0 by {
        assert(!entry_errored(entries, i, subvols_empty));
    }
    if subvols_empty {
        assert forall|i: int, j: int|
            0 <= i < j < entries.len() implies entries[i].partition.part_name@
                != entries[j].partition.part_name@ by {
            assert(!entry_errored(entries, j, subvols_empty));
            if entries[i].partition.part_name@ == entries[j].partition.part_name@ {
                assert(repeats_partition(entries, j));
            }
        }
    }
}

/// Law: a table validates when its mountpoints are distinct, each is
/// `[SWAP]` or an absolute path outside `/dev`, every `[SWAP]` entry is on a
/// partition whose filesystem is `swap` or `linux-swap`, every entry has a
/// partition, and, when no btrfs subvolume was declared, no partition is used
/// twice. None of the error messages is then shown.
pub proof fn lemma_well_formed_table_is_valid(entries: Seq<FstabEntry>, subvols_empty: bool)
    requires
        forall|i: int, j: int|
            0 <= i < j < entries.len() ==> entries[i].mountpoint@ != entries[j].mountpoint@,
        forall|i: int|
            0 <= i < entries.len() ==> (#[trigger] entries[i].mountpoint@ == "[SWAP]"@ || (
            starts_with_seq(entries[i].mountpoint@, "/"@) && !starts_with_seq(
                entries[i].mountpoint@,
                "/dev"@,
            ))),
        forall|i: int|
            0 <= i < entries.len() && #[trigger] entries[i].mountpoint@ == "[SWAP]"@ ==> (
            entries[i].partition.part_fs@ == "swap"@ || entries[i].partition.part_fs@ == "linux-swap"@),
        forall|i: int| 0 <= i < entries.len() ==> #[trigger] entries[i].partition.part_name@.len() > 0,
        subvols_empty ==> forall|i: int, j: int|
            0 <= i < j < entries.len() ==> entries[i].partition.part_name@
                != entries[j].partition.part_name@,
    ensures
        spec_report(entries, entries.len() as int, subvols_empty) == (FsTableReport {
            errored: false,
            mountpoint_empty: false,
            mountpoint_invalid: false,
            partition_empty: false,
            mountpoint_duplicate: false,
        }),
{
    reveal_strlit("[SWAP]");
    reveal_strlit("/");
    let n = entries.len() as int;
    assert forall|i: int| 0 <= i < n implies !#[trigger] entry_errored(entries, i, subvols_empty)
        && entries[i].mountpoint@.len() != 0 && mountpoint_valid(entries[i].mountpoint@)
        && !repeats_mountpoint(entries, i) by {
        assert(entries[i].mountpoint@ == "[SWAP]"@ || starts_with_seq(entries[i].mountpoint@, "/"@));
        if repeats_mountpoint(entries, i) {
            let j = choose|j: int| 0 <= j < i && #[trigger] entries[j].mountpoint@ == entries[i].mountpoint@;
        }
        if subvols_empty && repeats_partition(entries, i) {
            let j = choose|j: int|
                0 <= j < i && #[trigger] entries[j].partition.part_name@ == entries[i].partition.part_name@;
        }
    }
    let r = spec_report(entries, n, subvols_empty);
    assert(!r.errored);
    assert(!r.mountpoint_empty);
    assert(!r.mountpoint_invalid);
    assert(!r.partition_empty);
    assert(!r.mountpoint_duplicate);
}

/// Law: the messages of a validation: "empty mountpoint" exactly when some
/// entry has none, "invalid mountpoint" exactly when some mountpoint is
/// neither `[SWAP]` nor an absolute path outside `/dev`, "empty partition"
/// exactly when some entry has none, and "duplicate mountpoint" exactly when
/// two entries share one; each of these makes the table fail.
pub proof fn lemma_report_messages(entries: Seq<FstabEntry>, subvols_empty: bool)
    ensures
        ({
            let r = spec_report(entries, entries.len() as int, subvols_empty);
            &&& r.mountpoint_empty <==> exists|i: int|
                0 <= i < entries.len() && #[trigger] entries[i].mountpoint@.len() == 0
            &&& r.mountpoint_invalid <==> exists|i: int|
                0 <= i < entries.len() && !(#[trigger] entries[i].mountpoint@ == "[SWAP]"@ || (
                starts_with_seq(entries[i].mountpoint@, "/"@) && !starts_with_seq(
                    entries[i].mountpoint@,
                    "/dev"@,
                )))
            &&& r.partition_empty <==> exists|i: int|
                0 <= i < entries.len() && #[trigger] entries[i].partition.part_name@.len() == 0
            &&& r.mountpoint_duplicate <==> exists|i: int, j: int|
                0 <= i < j < entries.len() && #[trigger] entries[i].mountpoint@ == #[trigger] entries[j].mountpoint@
            &&& (r.mountpoint_empty || r.mountpoint_invalid || r.partition_empty || r.mountpoint_duplicate)
                ==> r.errored
        }),
{
    let n = entries.len() as int;
    let r = spec_report(entries, n, subvols_empty);
    if r.mountpoint_duplicate {
        let j = choose|j: int| 0 <= j < n && #[trigger] repeats_mountpoint(entries, j);
        let i = choose|i: int| 0 <= i < j && #[trigger] entries[i].mountpoint@ == entries[j].mountpoint@;
        assert(entries[i].mountpoint@ == entries[j].mountpoint@);
        assert(entry_errored(entries, j, subvols_empty));
    }
    if exists|i: int, j: int|
        0 <= i < j < n && #[trigger] entries[i].mountpoint@ == #[trigger] entries[j].mountpoint@ {
        let (i, j) = choose|i: int, j: int|
            0 <= i < j < n && #[trigger] entries[i].mountpoint@ == #[trigger] entries[j].mountpoint@;
        assert(repeats_mountpoint(entries, j));
    }
    if r.mountpoint_empty {
        let i = choose|i: int| 0 <= i < n && #[trigger] entries[i].mountpoint@.len() == 0;
        assert(entry_errored(entries, i, subvols_empty));
    }
    if r.mountpoint_invalid {
        let i = choose|i: int| 0 <= i < n && !mountpoint_valid(#[trigger] entries[i].mountpoint@);
        assert(entry_errored(entries, i, subvols_empty));
    }
    if r.partition_empty {
        let i = choose|i: int| 0 <= i < n && #[trigger] entries[i].partition.part_name@.len() == 0;
        assert(entry_errored(entries, i, subvols_empty));
    }
}

/// The crypttab entry for an encrypted partition: its map name drops every
/// `mapper/`, and the passphrase is kept only when the volume is to be
/// unlocked by a key file.
pub open spec fn spec_crypttab_entry(
    part_name: Seq<char>,
    uuid: Seq<char>,
    auto_unlock: bool,
    password: Seq<char>,
) -> (Seq<char>, Seq<char>, Seq<char>, Option<Seq<char>>) {
    (
        part_name,
        replaced(part_name, "mapper/"@, Seq::<char>::empty()),
        uuid,
        if auto_unlock {
            Some(password)
        } else {
            None
        },
    )
}

/// The view of a crypttab entry as plain character sequences.
pub open spec fn crypttab_view(e: CrypttabEntry) -> (Seq<char>, Seq<char>, Seq<char>, Option<Seq<char>>) {
    (
        e.partition@,
        e.map@,
        e.uuid@,
        match e.password {
            Some(p) => Some(p@),
            None => None,
        },
    )
}

/// Builds the crypttab entry the user chose for an encrypted partition:
/// with `auto_unlock` the passphrase goes into a key file, otherwise the
/// volume is unlocked by hand at boot.
pub fn crypttab_entry(part_name: &str, uuid: String, auto_unlock: bool, password: String) -> (r: CrypttabEntry)
    ensures
        crypttab_view(r) == spec_crypttab_entry(part_name@, uuid@, auto_unlock, password@),
{
    proof {
        reveal_strlit("");
        reveal_strlit("mapper/");
    }
    assert(""@ =~= Seq::<char>::empty());
    let map = replace_all(part_name, "mapper/", "");
    CrypttabEntry {
        partition: part_name.to_owned(),
        map,
        uuid,
        password: if auto_unlock {
            Some(password)
        } else {
            None
        },
    }
}

/// Whether the user must be asked how to unlock the partition of `entry`:
/// it is encrypted and was not asked about before. The partition is then
/// remembered in `seen`.
pub fn needs_crypttab_prompt(entry: &FstabEntry, seen: &mut Vec<String>) -> (r: bool)
    ensures
        r == (entry.partition.has_encryption && !old(seen)@.map_values(|s: String| s@).contains(
            entry.partition.part_name@,
        )),
        r ==> final(seen)@ == old(seen)@.push(entry.partition.part_name),
        !r ==> final(seen)@ == old(seen)@,
{
    if !entry.partition.has_encryption {
        return false;
    }
    let ghost names = seen@.map_values(|s: String| s@);
    let mut i: usize = 0;
    while i < seen.len()
        invariant
            i <= seen.len(),
            names == seen@.map_values(|s: String| s@),
            forall|j: int| 0 <= j < i ==> seen@[j]@ != entry.partition.part_name@,
        decreases seen.len() - i,
    {
        if seen[i] == entry.partition.part_name {
            assert(names[i as int] == entry.partition.part_name@);
            return false;
        }
        i = i + 1;
    }
    assert(!names.contains(entry.partition.part_name@)) by {
        if names.contains(entry.partition.part_name@) {
            let w = choose|w: int| 0 <= w < names.len() && names[w] == entry.partition.part_name@;
            assert(seen@[w]@ == entry.partition.part_name@);
        }
    }
    seen.push(entry.partition.part_name.clone());
    true
}

} // verus!
