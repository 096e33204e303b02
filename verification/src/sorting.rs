//! Stable sorting by a string key: languages and keyboard layouts are listed
//! by their display names, and mount entries are ordered by mountpoint so
//! that a directory is mounted before the directories inside it.
use vstd::prelude::*;

use crate::mount_check::DriveMount;
use crate::model::{FstabEntry, PikaKeymap, PikaLocale};
use crate::text::{seq_lt, str_lt};

verus! {

/// A value listed in order of a string key.
pub trait SortKey {
    spec fn sort_key(&self) -> Seq<char>;

    fn key_str(&self) -> (r: &str)
        ensures
            r@ == self.sort_key(),
    ;
}

impl SortKey for FstabEntry {
    open spec fn sort_key(&self) -> Seq<char> {
        self.mountpoint@
    }

    fn key_str(&self) -> (r: &str) {
        self.mountpoint.as_str()
    }
}

impl SortKey for DriveMount {
    open spec fn sort_key(&self) -> Seq<char> {
        self.mountpoint@
    }

    fn key_str(&self) -> (r: &str) {
        self.mountpoint.as_str()
    }
}

impl SortKey for PikaLocale {
    open spec fn sort_key(&self) -> Seq<char> {
        self.pretty_name@
    }

    fn key_str(&self) -> (r: &str) {
        self.pretty_name.as_str()
    }
}

impl SortKey for PikaKeymap {
    open spec fn sort_key(&self) -> Seq<char> {
        self.pretty_name@
    }

    fn key_str(&self) -> (r: &str) {
        self.pretty_name.as_str()
    }
}

/// `x` placed into the sorted `s` after every element whose key does not
/// exceed its own.
pub open spec fn insert_sorted<T: SortKey>(s: Seq<T>, x: T) -> Seq<T>
    decreases s.len(),
{
    if s.len() == 0 {
        seq![x]
    } else if seq_lt(x.sort_key(), s.last().sort_key()) {
        insert_sorted(s.drop_last(), x).push(s.last())
    } else {
        s.push(x)
    }
}

/// `s` sorted by key, elements with equal keys keeping their order (the
/// result of a stable sort such as `sort_by_key`).
pub open spec fn sorted_by_key<T: SortKey>(s: Seq<T>) -> Seq<T>
    decreases s.len(),
{
    if s.len() == 0 {
        s
    } else {
        insert_sorted(sorted_by_key(s.drop_last()), s.last())
    }
}

/// No element's key is smaller than that of an element before it.
pub open spec fn is_sorted_by_key<T: SortKey>(s: Seq<T>) -> bool {
    forall|i: int, j: int| 0 <= i < j < s.len() ==> !seq_lt(s[j].sort_key(), s[i].sort_key())
}

proof fn lemma_insert_at<T: SortKey>(s: Seq<T>, x: T, pos: int)
    requires
        0 <= pos <= s.len(),
        forall|k: int| pos <= k < s.len() ==> seq_lt(x.sort_key(), #[trigger] s[k].sort_key()),
        pos > 0 ==> !seq_lt(x.sort_key(), s[pos - 1].sort_key()),
    ensures
        insert_sorted(s, x) == s.insert(pos, x),
    decreases s.len() - pos,
{
    if s.len() == 0 {
        assert(s.insert(pos, x) =~= seq![x]);
    } else if pos == s.len() {
        assert(s.insert(pos, x) =~= s.push(x));
    } else {
        let t = s.drop_last();
        assert(seq_lt(x.sort_key(), s[s.len() - 1].sort_key()));
        lemma_insert_at(t, x, pos);
        assert(t.insert(pos, x).push(s.last()) =~= s.insert(pos, x));
    }
}

/// Sorts `v` by key, keeping the order of elements with equal keys.
pub fn sort_by_sort_key<T: SortKey>(v: Vec<T>) -> (r: Vec<T>)
    ensures
        r@ == sorted_by_key(v@),
{
    let ghost orig = v@;
    let mut rest = v;
    let mut out: Vec<T> = Vec::new();
    let n = rest.len();
    let mut k: usize = 0;
    while k < n
        invariant
            n == orig.len(),
            k <= n,
            rest@ == orig.subrange(k as int, n as int),
            out@ == sorted_by_key(orig.subrange(0, k as int)),
        decreases n - k,
    {
        let x = rest.remove(0);
        assert(x == orig[k as int]);
        assert(rest@ =~= orig.subrange(k + 1, n as int));
        let mut pos = out.len();
        while pos > 0 && str_lt(x.key_str(), out[pos - 1].key_str())
            invariant
                pos <= out.len(),
                forall|j: int| pos <= j < out.len() ==> seq_lt(x.sort_key(), #[trigger] out@[j].sort_key()),
            decreases pos,
        {
            pos = pos - 1;
        }
        proof {
            lemma_insert_at(out@, x, pos as int);
            assert(orig.subrange(0, k + 1).drop_last() =~= orig.subrange(0, k as int));
            assert(orig.subrange(0, k + 1).last() == x);
        }
        out.insert(pos, x);
        k = k + 1;
    }
    assert(orig.subrange(0, n as int) =~= orig);
    out
}

/// Sorts a mount table by mountpoint.
pub fn sort_fstab_entries(entries: Vec<FstabEntry>) -> (r: Vec<FstabEntry>)
    ensures
        r@ == sorted_by_key(entries@),
{
    sort_by_sort_key(entries)
}

/// Sorts the rows of the manual partitioning page with a single error line
/// by mountpoint.
pub fn sort_drive_mounts(mounts: Vec<DriveMount>) -> (r: Vec<DriveMount>)
    ensures
        r@ == sorted_by_key(mounts@),
{
    sort_by_sort_key(mounts)
}

/// Sorts languages by display name.
pub fn sort_locales(locales: Vec<PikaLocale>) -> (r: Vec<PikaLocale>)
    ensures
        r@ == sorted_by_key(locales@),
{
    sort_by_sort_key(locales)
}

/// Sorts keyboard layouts by display name.
pub fn sort_keymaps(keymaps: Vec<PikaKeymap>) -> (r: Vec<PikaKeymap>)
    ensures
        r@ == sorted_by_key(keymaps@),
{
    sort_by_sort_key(keymaps)
}

proof fn lemma_lt_irreflexive(a: Seq<char>)
    ensures
        !seq_lt(a, a),
    decreases a.len(),
{
    if a.len() > 0 {
        lemma_lt_irreflexive(a.drop_first());
    }
}

proof fn lemma_lt_transitive(a: Seq<char>, b: Seq<char>, c: Seq<char>)
    requires
        seq_lt(a, b),
        seq_lt(b, c),
    ensures
        seq_lt(a, c),
    decreases a.len(),
{
    if a.len() > 0 && b.len() > 0 && c.len() > 0 {
        if a[0] == b[0] && b[0] == c[0] {
            lemma_lt_transitive(a.drop_first(), b.drop_first(), c.drop_first());
        }
    }
}

proof fn lemma_char_code(c: char)
    ensures
        (c as u32) as int == c as int,
{
}

proof fn lemma_lt_total(a: Seq<char>, b: Seq<char>)
    ensures
        a == b || seq_lt(a, b) || seq_lt(b, a),
    decreases a.len(),
{
    if a.len() > 0 && b.len() > 0 {
        if a[0] == b[0] {
            lemma_lt_total(a.drop_first(), b.drop_first());
            if a.drop_first() == b.drop_first() {
                assert(a =~= seq![a[0]] + a.drop_first());
                assert(b =~= seq![b[0]] + b.drop_first());
            }
        } else {
            lemma_char_code(a[0]);
            lemma_char_code(b[0]);
        }
    } else if a.len() == 0 && b.len() == 0 {
        assert(a =~= b);
    }
}

/// `a <= b` in the key order.
pub open spec fn key_le(a: Seq<char>, b: Seq<char>) -> bool {
    !seq_lt(b, a)
}

proof fn lemma_le_transitive(a: Seq<char>, b: Seq<char>, c: Seq<char>)
    requires
        key_le(a, b),
        key_le(b, c),
    ensures
        key_le(a, c),
{
    lemma_lt_total(a, b);
    lemma_lt_total(b, c);
    if seq_lt(c, a) {
        if seq_lt(a, b) {
            lemma_lt_transitive(c, a, b);
        }
        if seq_lt(b, c) {
            lemma_lt_transitive(b, c, a);
        }
    }
}

proof fn lemma_insert_sorted_props<T: SortKey>(s: Seq<T>, x: T)
    requires
        is_sorted_by_key(s),
    ensures
        is_sorted_by_key(insert_sorted(s, x)),
        insert_sorted(s, x).to_multiset() == s.to_multiset().insert(x),
        insert_sorted(s, x).len() == s.len() + 1,
    decreases s.len(),
{
    broadcast use vstd::seq_lib::group_to_multiset_ensures;

    if s.len() == 0 {
        assert(seq![x] =~= Seq::<T>::empty().push(x));
    } else if seq_lt(x.sort_key(), s.last().sort_key()) {
        let t = s.drop_last();
        let last = s.last();
        lemma_insert_sorted_props(t, x);
        let u = insert_sorted(t, x);
        assert(t.push(last) =~= s);
        assert forall|i: int, j: int| 0 <= i < j < u.push(last).len() implies !seq_lt(
            u.push(last)[j].sort_key(),
            u.push(last)[i].sort_key(),
        ) by {
            if j == u.len() {
                // every element of u is x or an element of t, all below `last`
                assert(u.to_multiset().count(u[i]) > 0);
                assert(u.contains(u[i]));
                assert(t.push(x).to_multiset() == t.to_multiset().insert(x));
                assert(t.push(x).to_multiset().count(u[i]) > 0);
                assert(t.push(x).contains(u[i]));
                let w = choose|w: int| 0 <= w < t.push(x).len() && t.push(x)[w] == u[i];
                if w < t.len() {
                    assert(!seq_lt(s[s.len() - 1].sort_key(), s[w].sort_key()));
                } else {
                    lemma_lt_total(x.sort_key(), last.sort_key());
                    if seq_lt(last.sort_key(), x.sort_key()) {
                        lemma_lt_transitive(x.sort_key(), last.sort_key(), x.sort_key());
                        lemma_lt_irreflexive(x.sort_key());
                    }
                }
            }
        }
    } else {
        assert forall|i: int, j: int| 0 <= i < j < s.push(x).len() implies !seq_lt(
            s.push(x)[j].sort_key(),
            s.push(x)[i].sort_key(),
        ) by {
            if j == s.len() && i < s.len() - 1 {
                assert(!seq_lt(s[s.len() - 1].sort_key(), s[i].sort_key()));
                lemma_le_transitive(s[i].sort_key(), s.last().sort_key(), x.sort_key());
            }
        }
    }
}

/// Law: sorting orders by key and only rearranges: the result is sorted, has
/// the same elements with the same multiplicities, and the same length.
pub proof fn lemma_sorted_by_key_sorts<T: SortKey>(s: Seq<T>)
    ensures
        is_sorted_by_key(sorted_by_key(s)),
        sorted_by_key(s).to_multiset() == s.to_multiset(),
        sorted_by_key(s).len() == s.len(),
    decreases s.len(),
{
    broadcast use vstd::seq_lib::group_to_multiset_ensures;

    if s.len() > 0 {
        lemma_sorted_by_key_sorts(s.drop_last());
        lemma_insert_sorted_props(sorted_by_key(s.drop_last()), s.last());
        assert(s.drop_last().push(s.last()) =~= s);
    }
}

/// `a` is a proper prefix of `b`.
pub open spec fn proper_prefix(a: Seq<char>, b: Seq<char>) -> bool {
    a.len() < b.len() && b.subrange(0, a.len() as int) == a
}

proof fn lemma_prefix_is_smaller(a: Seq<char>, b: Seq<char>)
    requires
        proper_prefix(a, b),
    ensures
        seq_lt(a, b),
    decreases a.len(),
{
    if a.len() > 0 {
        assert(b[0] == b.subrange(0, a.len() as int)[0]);
        assert(b.drop_first().subrange(0, a.len() - 1) =~= a.drop_first()) by {
            assert forall|k: int| 0 <= k < a.len() - 1 implies b.drop_first().subrange(
                0,
                a.len() - 1,
            )[k] == a.drop_first()[k] by {
                assert(b.subrange(0, a.len() as int)[k + 1] == a[k + 1]);
            }
        }
        lemma_prefix_is_smaller(a.drop_first(), b.drop_first());
    }
}

/// Law: in a mount table sorted by mountpoint, an entry whose mountpoint is a
/// proper prefix of another's (such as `/` before `/boot`, `/boot` before
/// `/boot/efi`) comes first, so parents are mounted before their children.
pub proof fn lemma_sorted_mounts_parents_first(entries: Seq<FstabEntry>, i: int, j: int)
    requires
        0 <= i < sorted_by_key(entries).len(),
        0 <= j < sorted_by_key(entries).len(),
        proper_prefix(
            sorted_by_key(entries)[i].mountpoint@,
            sorted_by_key(entries)[j].mountpoint@,
        ),
    ensures
        i < j,
{
    let s = sorted_by_key(entries);
    lemma_sorted_by_key_sorts(entries);
    lemma_prefix_is_smaller(s[i].mountpoint@, s[j].mountpoint@);
    if j < i {
        assert(!seq_lt(s[i].sort_key(), s[j].sort_key()));
    } else if i == j {
        lemma_lt_irreflexive(s[i].mountpoint@);
    }
}

} // verus!
