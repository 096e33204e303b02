//! Turning what the partition utility reports about a partition into a
//! `Partition`.
use vstd::prelude::*;

use crate::model::Partition;
use crate::text::{contains_seq, contains_str, replace_all, replaced, trim, trimmed};

verus! {

/// A filesystem that has to be opened through a device mapper before its
/// contents can be mounted: LUKS, LVM or BitLocker.
pub open spec fn spec_needs_mapper(part_fs: Seq<char>) -> bool {
    contains_seq(part_fs, "crypto_LUKS"@) || contains_seq(part_fs, "lvm"@) || contains_seq(
        part_fs,
        "BitLocker"@,
    )
}

/// Whether the partition with filesystem `part_fs` needs a device mapper.
pub fn is_needs_mapper(part_fs: &str) -> (r: bool)
    ensures
        r == spec_needs_mapper(part_fs@),
{
    contains_str(part_fs, "crypto_LUKS") || contains_str(part_fs, "lvm") || contains_str(part_fs, "BitLocker")
}

/// The device name under which the partition utility reports a partition's
/// filesystem: the partition name without any `mapper/`.
pub fn fs_probe_device(part_dev: &str) -> (r: String)
    ensures
        r@ == replaced(part_dev@, "mapper/"@, Seq::<char>::empty()),
{
    proof {
        reveal_strlit("mapper/");
        reveal_strlit("");
    }
    assert(""@ =~= Seq::<char>::empty());
    replace_all(part_dev, "mapper/", "")
}

/// What the partition utility reported about one partition.
pub struct PartitionProbe {
    pub part_fs: String,
    pub part_uuid: String,
    pub has_encryption: bool,
    pub part_size: u64,
    pub part_size_pretty: String,
}

/// The partition named `part_dev`, from what the utility reported about it;
/// it needs a mapper when its filesystem says so.
pub fn create_parition_struct(part_dev: &str, probe: PartitionProbe) -> (r: Partition)
    ensures
        r.part_name@ == part_dev@,
        r.part_fs == probe.part_fs,
        r.part_uuid == probe.part_uuid,
        r.has_encryption == probe.has_encryption,
        r.need_mapper == spec_needs_mapper(probe.part_fs@),
        r.part_size == probe.part_size,
        r.part_size_pretty == probe.part_size_pretty,
{
    let need_mapper = is_needs_mapper(probe.part_fs.as_str());
    Partition {
        part_name: part_dev.to_owned(),
        part_fs: probe.part_fs,
        part_uuid: probe.part_uuid,
        has_encryption: probe.has_encryption,
        need_mapper,
        part_size: probe.part_size,
        part_size_pretty: probe.part_size_pretty,
    }
}

/// Whether `c` is one of the ASCII digits.
pub open spec fn is_digit(c: char) -> bool {
    '0' <= c <= '9'
}

/// The value of the digit `c`.
pub open spec fn digit_value(c: char) -> nat {
    (c as u32 - '0' as u32) as nat
}

/// The number that the digits `d` write in decimal (0 for none).
pub open spec fn digits_value(d: Seq<char>) -> nat
    decreases d.len(),
{
    if d.len() == 0 {
        0
    } else {
        digits_value(d.drop_last()) * 10 + digit_value(d.last())
    }
}

/// Where the run of digits of `s` that starts at `i` ends.
pub open spec fn digit_end(s: Seq<char>, i: int) -> int
    decreases s.len() - i,
{
    if 0 <= i < s.len() && is_digit(s[i]) {
        digit_end(s, i + 1)
    } else {
        i
    }
}

/// `c` is the ASCII letter `lower` in either case.
pub open spec fn letter_is(c: char, lower: char) -> bool {
    c == lower || c as u32 + 32 == lower as u32
}

/// From `b` on, `s` is the word `w` in any ASCII case.
pub open spec fn word_at(s: Seq<char>, b: int, w: Seq<char>) -> bool {
    s.len() - b == w.len() && forall|i: int| 0 <= i < w.len() ==> letter_is(#[trigger] s[b + i], w[i])
}

/// The length of a leading sign.
pub open spec fn sign_len(s: Seq<char>) -> int {
    if s.len() > 0 && (s[0] == '+' || s[0] == '-') {
        1
    } else {
        0
    }
}

/// The exponent that `s` writes from `k` to its end: nothing (0), or `e` or
/// `E`, an optional sign and at least one digit.
pub open spec fn exponent_at(s: Seq<char>, k: int) -> Option<int> {
    if k == s.len() {
        Some(0)
    } else if 0 <= k < s.len() && letter_is(s[k], 'e') {
        let g: int = if k + 1 < s.len() && (s[k + 1] == '+' || s[k + 1] == '-') {
            1
        } else {
            0
        };
        let a = k + 1 + g;
        if a < s.len() && digit_end(s, a) == s.len() {
            let v = digits_value(s.subrange(a, s.len() as int));
            Some(if g == 1 && s[k + 1] == '-' { -v } else { v as int })
        } else {
            None
        }
    } else {
        None
    }
}

/// Where the digits after a decimal point start, when the integer digits
/// end at `ie`.
pub open spec fn frac_start(s: Seq<char>, ie: int) -> int {
    if 0 <= ie < s.len() && s[ie] == '.' {
        ie + 1
    } else {
        ie
    }
}

/// The decimal number that `s` writes from `b` to its end, as its digits
/// (integer and fraction digits together) and the power of ten they are
/// scaled by: integer digits, a point and fraction digits (at least one
/// digit in all), then an exponent.
pub open spec fn number_at(s: Seq<char>, b: int) -> Option<(Seq<char>, int)> {
    let ie = digit_end(s, b);
    let fs = frac_start(s, ie);
    let fe = if fs == ie {
        ie
    } else {
        digit_end(s, fs)
    };
    if ie == b && fe == fs {
        None
    } else {
        match exponent_at(s, fe) {
            Some(e) => Some((s.subrange(b, ie) + s.subrange(fs, fe), e - (fe - fs))),
            None => None,
        }
    }
}

/// Ten to the power `n`.
pub open spec fn pow10(n: nat) -> nat
    decreases n,
{
    if n == 0 {
        1
    } else {
        10 * pow10((n - 1) as nat)
    }
}

/// The whole part of the digits `d` scaled by ten to the power `e`.
pub open spec fn floor_value(d: Seq<char>, e: int) -> nat {
    if e >= 0 {
        digits_value(d) * pow10(e as nat)
    } else if d.len() + e <= 0 {
        0
    } else {
        digits_value(d.take(d.len() + e))
    }
}

/// `v`, or the largest `u64` when it is larger.
pub open spec fn saturated(v: nat) -> u64 {
    if v > u64::MAX {
        u64::MAX
    } else {
        v as u64
    }
}

/// The byte count in a line of the partition utility: the number that the
/// line writes between surrounding whitespace as a float literal (a sign,
/// then `inf`, `infinity` or `nan` in any case, or a decimal number with an
/// optional point and exponent), turned into a whole number the way a float
/// is cast to `u64`: the fraction dropped, negative numbers and NaN to 0,
/// what is too large to the largest `u64`; and 0 for a line that writes no
/// such number.
pub open spec fn spec_byte_count(text: Seq<char>) -> u64 {
    let s = trimmed(text);
    let b = sign_len(s);
    if s.len() > 0 && s[0] == '-' {
        0
    } else if word_at(s, b, "inf"@) || word_at(s, b, "infinity"@) {
        u64::MAX
    } else {
        number_count(s, b)
    }
}

/// The whole part of the decimal number that `s` writes from `b` on, or the
/// largest `u64` when larger; 0 when `s` writes no number there.
pub open spec fn number_count(s: Seq<char>, b: int) -> u64 {
    match number_at(s, b) {
        Some((d, e)) => saturated(floor_value(d, e)),
        None => 0,
    }
}

/// `e`, kept within `-cap ..= cap`.
pub open spec fn clamped(e: int, cap: int) -> int {
    if e > cap {
        cap
    } else if e < -cap {
        -cap
    } else {
        e
    }
}

proof fn lemma_digit_end(s: Seq<char>, i: int)
    requires
        0 <= i <= s.len(),
    ensures
        i <= digit_end(s, i) <= s.len(),
        forall|j: int| i <= j < digit_end(s, i) ==> is_digit(#[trigger] s[j]),
        digit_end(s, i) < s.len() ==> !is_digit(s[digit_end(s, i)]),
    decreases s.len() - i,
{
    if i < s.len() && is_digit(s[i]) {
        lemma_digit_end(s, i + 1);
    }
}

proof fn lemma_pow10_grows(a: nat, b: nat)
    requires
        a <= b,
    ensures
        1 <= pow10(a) <= pow10(b),
    decreases b,
{
    if b > a {
        lemma_pow10_grows(a, (b - 1) as nat);
    } else if a > 0 {
        lemma_pow10_grows((a - 1) as nat, (a - 1) as nat);
    }
}

proof fn lemma_pow10_large(k: nat)
    requires
        k >= 20,
    ensures
        pow10(k) > u64::MAX,
{
    assert(pow10(20) == 100000000000000000000) by {
        reveal_with_fuel(pow10, 21);
    }
    lemma_pow10_grows(20, k);
}

/// Past a large enough exponent, the result no longer depends on it.
proof fn lemma_exponent_cap(d: Seq<char>, e: int, f: int, cap: int)
    requires
        cap >= d.len() + 64,
        0 <= f <= d.len(),
    ensures
        saturated(floor_value(d, clamped(e, cap) - f)) == saturated(floor_value(d, e - f)),
{
    if e > cap {
        let k1 = (cap - f) as nat;
        let k2 = (e - f) as nat;
        assert(clamped(e, cap) == cap);
        lemma_pow10_large(k1);
        lemma_pow10_large(k2);
        let x = digits_value(d);
        assert(floor_value(d, cap - f) == x * pow10(k1));
        assert(floor_value(d, e - f) == x * pow10(k2));
        if x == 0 {
            assert(x * pow10(k1) == 0 && x * pow10(k2) == 0) by (nonlinear_arith)
                requires
                    x == 0,
            ;
        } else {
            assert(x * pow10(k1) >= pow10(k1)) by (nonlinear_arith)
                requires
                    x > 0,
            ;
            assert(x * pow10(k2) >= pow10(k2)) by (nonlinear_arith)
                requires
                    x > 0,
            ;
        }
    } else if e < -cap {
        assert(clamped(e, cap) == -cap);
        assert(floor_value(d, -cap - f) == 0);
        assert(floor_value(d, e - f) == 0);
    }
}

fn letter_matches(c: char, lower: char) -> (r: bool)
    ensures
        r == letter_is(c, lower),
{
    c == lower || (c as u32) + 32 == (lower as u32)
}

fn word_is(s: &str, b: usize, w: &str) -> (r: bool)
    requires
        b <= s@.len(),
    ensures
        r == word_at(s@, b as int, w@),
{
    let n = s.unicode_len();
    let m = w.unicode_len();
    if n - b != m {
        return false;
    }
    let mut i: usize = 0;
    while i < m
        invariant
            n == s@.len(),
            m == w@.len(),
            n - b == m,
            i <= m,
            forall|j: int| 0 <= j < i ==> letter_is(#[trigger] s@[b + j], w@[j]),
        decreases m - i,
    {
        if !letter_matches(s.get_char(b + i), w.get_char(i)) {
            return false;
        }
        i = i + 1;
    }
    true
}

fn digits_end(s: &str, i: usize) -> (r: usize)
    requires
        i <= s@.len(),
    ensures
        r == digit_end(s@, i as int),
{
    let n = s.unicode_len();
    let mut j = i;
    while j < n && '0' <= s.get_char(j) && s.get_char(j) <= '9'
        invariant
            n == s@.len(),
            i <= j <= n,
            digit_end(s@, i as int) == digit_end(s@, j as int),
        decreases n - j,
    {
        j = j + 1;
    }
    j
}

/// The exponent from `k` on, kept within `-cap ..= cap`, as a sign and a
/// magnitude.
fn read_exponent(s: &str, k: usize, cap: u128) -> (r: (bool, bool, u128))
    requires
        k <= s@.len(),
        cap <= 0x1_0000_0000_0000_0000_0000,
    ensures
        r.0 == exponent_at(s@, k as int) is Some,
        r.0 ==> (if r.1 { -(r.2 as int) } else { r.2 as int }) == clamped(
            exponent_at(s@, k as int)->0,
            cap as int,
        ),
{
    let n = s.unicode_len();
    if k == n {
        return (true, false, 0);
    }
    if !letter_matches(s.get_char(k), 'e') {
        return (false, false, 0);
    }
    let mut a = k + 1;
    let mut neg = false;
    if a < n {
        let c = s.get_char(a);
        if c == '+' || c == '-' {
            neg = c == '-';
            a = a + 1;
        }
    }
    if a >= n || digits_end(s, a) != n {
        return (false, false, 0);
    }
    proof {
        lemma_digit_end(s@, a as int);
    }
    let ghost ds = s@.subrange(a as int, n as int);
    let mut ev: u128 = 0;
    let mut j = a;
    assert(s@.subrange(a as int, a as int) =~= Seq::<char>::empty());
    while j < n
        invariant
            n == s@.len(),
            a <= j <= n,
            cap <= 0x1_0000_0000_0000_0000_0000,
            forall|q: int| a <= q < n ==> is_digit(#[trigger] s@[q]),
            ev as int == if digits_value(s@.subrange(a as int, j as int)) > cap {
                cap as int
            } else {
                digits_value(s@.subrange(a as int, j as int)) as int
            },
        decreases n - j,
    {
        let c = s.get_char(j);
        let dg = (c as u32 - '0' as u32) as u128;
        let ghost x = digits_value(s@.subrange(a as int, j as int));
        proof {
            let t = s@.subrange(a as int, j + 1);
            assert(t.drop_last() =~= s@.subrange(a as int, j as int));
            assert(t.last() == c);
        }
        let next = ev * 10 + dg;
        ev = if next > cap { cap } else { next };
        proof {
            if x > cap {
                assert(x * 10 + dg > cap) by (nonlinear_arith)
                    requires
                        x > cap,
                        cap >= 0,
                ;
            }
        }
        j = j + 1;
    }
    proof {
        assert(s@.subrange(a as int, n as int) == ds);
    }
    (true, neg, ev)
}

/// The first `m` digits of the number whose integer digits are `s[b..ie]`
/// and fraction digits `s[fs..fe]`, as a value, or the largest `u64` when
/// larger.
fn digits_saturated(s: &str, b: usize, ie: usize, fs: usize, fe: usize, m: usize) -> (r: u64)
    requires
        b <= ie <= fs <= fe <= s@.len(),
        m <= (ie - b) + (fe - fs),
        forall|q: int| b <= q < ie ==> is_digit(#[trigger] s@[q]),
        forall|q: int| fs <= q < fe ==> is_digit(#[trigger] s@[q]),
    ensures
        r == saturated(digits_value((s@.subrange(b as int, ie as int) + s@.subrange(fs as int, fe as int)).take(m as int))),
{
    let ghost d = s@.subrange(b as int, ie as int) + s@.subrange(fs as int, fe as int);
    let il = ie - b;
    let mut v: u64 = 0;
    let mut j: usize = 0;
    assert(d.take(0) =~= Seq::<char>::empty());
    while j < m
        invariant
            b <= ie <= fs <= fe <= s@.len(),
            il == ie - b,
            m <= il + (fe - fs),
            j <= m,
            d == s@.subrange(b as int, ie as int) + s@.subrange(fs as int, fe as int),
            forall|q: int| b <= q < ie ==> is_digit(#[trigger] s@[q]),
            forall|q: int| fs <= q < fe ==> is_digit(#[trigger] s@[q]),
            v == saturated(digits_value(d.take(j as int))),
        decreases m - j,
    {
        let c = if j < il {
            s.get_char(b + j)
        } else {
            s.get_char(fs + (j - il))
        };
        assert(c == d[j as int]);
        assert(is_digit(c));
        let dg = (c as u32 - '0' as u32) as u64;
        let ghost x = digits_value(d.take(j as int));
        proof {
            let t = d.take(j + 1);
            assert(t.drop_last() =~= d.take(j as int));
            assert(t.last() == c);
        }
        if v > (u64::MAX - dg) / 10 {
            proof {
                assert(x * 10 + dg > u64::MAX) by (nonlinear_arith)
                    requires
                        v > (u64::MAX - dg) / 10,
                        dg <= 9,
                        v == saturated(x),
                        x >= v,
                ;
            }
            v = u64::MAX;
        } else {
            proof {
                assert(x == v) by {
                    if x > u64::MAX {
                        assert(v == u64::MAX);
                    }
                }
                assert(v * 10 + dg <= u64::MAX) by (nonlinear_arith)
                    requires
                        v <= (u64::MAX - dg) / 10,
                        dg <= 9,
                ;
            }
            v = v * 10 + dg;
        }
        j = j + 1;
    }
    v
}

/// `v` times ten to the power `k`, or the largest `u64` when larger.
fn scaled(v: u64, k: u128, Ghost(x): Ghost<nat>) -> (r: u64)
    requires
        v == saturated(x),
    ensures
        r == saturated(x * pow10(k as nat)),
{
    let mut v = v;
    let mut t: u128 = 0;
    assert(pow10(0) == 1);
    assert(x * pow10(0) == x) by (nonlinear_arith)
        requires
            pow10(0) == 1,
    ;
    while t < k && v != 0 && v != u64::MAX
        invariant
            t <= k,
            v == saturated(x * pow10(t as nat)),
        decreases k - t,
    {
        let ghost y = x * pow10(t as nat);
        proof {
            assert(pow10((t + 1) as nat) == 10 * pow10(t as nat));
            assert(x * pow10((t + 1) as nat) == y * 10) by (nonlinear_arith)
                requires
                    pow10((t + 1) as nat) == 10 * pow10(t as nat),
                    y == x * pow10(t as nat),
            ;
            assert(y == v);
        }
        if v > u64::MAX / 10 {
            v = u64::MAX;
        } else {
            v = v * 10;
        }
        t = t + 1;
    }
    proof {
        if t < k {
            let y = x * pow10(t as nat);
            lemma_pow10_grows(t as nat, k as nat);
            if v == 0 {
                assert(x == 0) by (nonlinear_arith)
                    requires
                        y == x * pow10(t as nat),
                        y == 0,
                        pow10(t as nat) >= 1,
                ;
            } else {
                assert(x * pow10(k as nat) >= y) by (nonlinear_arith)
                    requires
                        y == x * pow10(t as nat),
                        pow10(t as nat) <= pow10(k as nat),
                ;
            }
        }
    }
    v
}

/// Reads a byte count reported by the partition utility.
pub fn parse_byte_count(text: &str) -> (r: u64)
    ensures
        r == spec_byte_count(text@),
{
    let t = trim(text);
    let s = t.as_str();
    let n = s.unicode_len();
    if n > 0 && s.get_char(0) == '-' {
        return 0;
    }
    let b: usize = if n > 0 && s.get_char(0) == '+' {
        1
    } else {
        0
    };
    assert(b == sign_len(s@));
    if word_is(s, b, "inf") || word_is(s, b, "infinity") {
        return u64::MAX;
    }
    unsigned_count(s, b)
}

/// The whole part of the decimal number that `s` writes from `b` on.
fn unsigned_count(s: &str, b: usize) -> (r: u64)
    requires
        b <= s@.len(),
    ensures
        r == number_count(s@, b as int),
{
    let n = s.unicode_len();
    let ie = digits_end(s, b);
    proof {
        lemma_digit_end(s@, b as int);
    }
    let fs = if ie < n && s.get_char(ie) == '.' {
        ie + 1
    } else {
        ie
    };
    assert(fs == frac_start(s@, ie as int));
    let fe = if fs == ie {
        ie
    } else {
        digits_end(s, fs)
    };
    proof {
        lemma_digit_end(s@, fs as int);
    }
    if ie == b && fe == fs {
        return 0;
    }
    let cap: u128 = n as u128 + 64;
    let (ok, neg, ev) = read_exponent(s, fe, cap);
    if !ok {
        return 0;
    }
    let ghost d = s@.subrange(b as int, ie as int) + s@.subrange(fs as int, fe as int);
    let ghost e = exponent_at(s@, fe as int)->0;
    let ghost fl = fe - fs;
    proof {
        assert(number_at(s@, b as int) == Some((d, e - fl)));
        lemma_exponent_cap(d, e, fl as int, cap as int);
    }
    number_value(s, b, ie, fs, fe, neg, ev)
}

/// The whole part of the number with integer digits `s[b..ie]`, fraction
/// digits `s[fs..fe]` and exponent `ev` (negative when `neg`), or the largest
/// `u64` when larger.
fn number_value(s: &str, b: usize, ie: usize, fs: usize, fe: usize, neg: bool, ev: u128) -> (r: u64)
    requires
        b <= ie <= fs <= fe <= s@.len(),
        (ie - b) + (fe - fs) > 0,
        forall|q: int| b <= q < ie ==> is_digit(#[trigger] s@[q]),
        forall|q: int| fs <= q < fe ==> is_digit(#[trigger] s@[q]),
    ensures
        r == saturated(floor_value(
            s@.subrange(b as int, ie as int) + s@.subrange(fs as int, fe as int),
            (if neg { -(ev as int) } else { ev as int }) - (fe - fs),
        )),
{
    let il = ie - b;
    let fl = fe - fs;
    let total = il + fl;
    let ghost d = s@.subrange(b as int, ie as int) + s@.subrange(fs as int, fe as int);
    assert(d.len() == total);
    let ghost e: int = (if neg { -(ev as int) } else { ev as int }) - fl;
    if !neg || ev == 0 {
        if ev >= fl as u128 {
            let v = digits_saturated(s, b, ie, fs, fe, total);
            assert(d.take(total as int) =~= d);
            let k = ev - fl as u128;
            assert(e == k);
            assert(floor_value(d, e) == digits_value(d) * pow10(k as nat));
            scaled(v, k, Ghost(digits_value(d)))
        } else {
            let k = il + ev as usize;
            assert(e < 0 && d.len() + e == k);
            if k == 0 {
                assert(d.take(0) =~= Seq::<char>::empty());
                assert(floor_value(d, e) == 0);
            } else {
                assert(floor_value(d, e) == digits_value(d.take(k as int)));
            }
            digits_saturated(s, b, ie, fs, fe, k)
        }
    } else {
        if ev >= il as u128 {
            assert(floor_value(d, e) == 0);
            0
        } else {
            let k = il - ev as usize;
            assert(e < 0 && d.len() + e == k);
            assert(floor_value(d, e) == digits_value(d.take(k as int)));
            digits_saturated(s, b, ie, fs, fe, k)
        }
    }
}

} // verus!
