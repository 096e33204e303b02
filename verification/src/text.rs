//! Character-level string operations used throughout the installer:
//! substring search, left-to-right replacement, shell quoting and the
//! lexicographic order in which lists are presented and mounted.
use vstd::prelude::*;
use vstd::string::*;

verus! {

/// `pat` occurs in `s` starting at character index `i`.
pub open spec fn occurs_at(s: Seq<char>, pat: Seq<char>, i: int) -> bool {
    &&& 0 <= i
    &&& i + pat.len() <= s.len()
    &&& s.subrange(i, i + pat.len()) == pat
}

/// `pat` occurs somewhere in `s` (the empty pattern occurs in every string).
pub open spec fn contains_seq(s: Seq<char>, pat: Seq<char>) -> bool {
    exists|i: int| occurs_at(s, pat, i)
}

/// `s` begins with `pat`.
pub open spec fn starts_with_seq(s: Seq<char>, pat: Seq<char>) -> bool {
    occurs_at(s, pat, 0)
}

/// Every non-overlapping occurrence of a non-empty `pat`, found from left to
/// right, replaced by `rep`; with an empty pattern the string is unchanged.
pub open spec fn replaced(s: Seq<char>, pat: Seq<char>, rep: Seq<char>) -> Seq<char>
    decreases s.len(),
{
    if s.len() == 0 {
        Seq::<char>::empty()
    } else if pat.len() > 0 && occurs_at(s, pat, 0) {
        rep + replaced(s.subrange(pat.len() as int, s.len() as int), pat, rep)
    } else {
        seq![s[0]] + replaced(s.subrange(1, s.len() as int), pat, rep)
    }
}

/// The sequence that closes a single-quoted shell word, emits a quote and
/// reopens the word: `'"'"'`.
pub open spec fn quote_escape_seq() -> Seq<char> {
    seq!['\'', '"', '\'', '"', '\'']
}

/// A string made safe to stand between single quotes in a shell script:
/// every `'` becomes `'"'"'`.
pub open spec fn shell_escaped(s: Seq<char>) -> Seq<char> {
    replaced(s, seq!['\''], quote_escape_seq())
}

/// Strict lexicographic order on character sequences, comparing code points;
/// this is the order of `str` in Rust.
pub open spec fn seq_lt(a: Seq<char>, b: Seq<char>) -> bool
    decreases a.len(),
{
    if a.len() == 0 {
        b.len() > 0
    } else if b.len() == 0 {
        false
    } else if a[0] != b[0] {
        (a[0] as u32) < (b[0] as u32)
    } else {
        seq_lt(a.drop_first(), b.drop_first())
    }
}

/// Appends one character to a `String`.
#[verifier::external_body]
pub(crate) fn push_char(s: &mut String, c: char)
    ensures
        final(s)@ == old(s)@.push(c),
{
    s.push(c);
}

/// Whether `pat` occurs in `s` at character index `i`.
pub fn occurs_at_exec(s: &str, pat: &str, i: usize) -> (r: bool)
    ensures
        r == occurs_at(s@, pat@, i as int),
{
    let n = s.unicode_len();
    let m = pat.unicode_len();
    if i > n || m > n - i {
        return false;
    }
    let mut k: usize = 0;
    while k < m
        invariant
            n == s@.len(),
            m == pat@.len(),
            i + m <= n,
            k <= m,
            forall|j: int| 0 <= j < k ==> s@[i + j] == pat@[j],
        decreases m - k,
    {
        if s.get_char(i + k) != pat.get_char(k) {
            assert(s@.subrange(i as int, i + m)[k as int] != pat@[k as int]);
            return false;
        }
        k = k + 1;
    }
    assert(s@.subrange(i as int, i + m) =~= pat@);
    true
}

/// Whether `pat` occurs anywhere in `s`.
pub fn contains_str(s: &str, pat: &str) -> (r: bool)
    ensures
        r == contains_seq(s@, pat@),
{
    let n = s.unicode_len();
    let m = pat.unicode_len();
    if m > n {
        assert(!contains_seq(s@, pat@));
        return false;
    }
    let last = n - m;
    let mut i: usize = 0;
    while i < last
        invariant
            n == s@.len(),
            m == pat@.len(),
            last == n - m,
            i <= last,
            forall|j: int| 0 <= j < i ==> !occurs_at(s@, pat@, j),
        decreases last - i,
    {
        if occurs_at_exec(s, pat, i) {
            return true;
        }
        i = i + 1;
    }
    if occurs_at_exec(s, pat, last) {
        return true;
    }
    assert forall|j: int| !occurs_at(s@, pat@, j) by {
        if 0 <= j < last {
        } else if j > last {
            assert(j + m > n);
        }
    }
    false
}

/// `char::is_whitespace`: the characters with the Unicode `White_Space` property.
pub open spec fn is_whitespace(c: char) -> bool {
    let x = c as u32;
    ||| 0x09 <= x <= 0x0d
    ||| x == 0x20
    ||| x == 0x85
    ||| x == 0xa0
    ||| x == 0x1680
    ||| 0x2000 <= x <= 0x200a
    ||| x == 0x2028
    ||| x == 0x2029
    ||| x == 0x202f
    ||| x == 0x205f
    ||| x == 0x3000
}

/// Whether `c` is whitespace.
pub fn char_is_whitespace(c: char) -> (r: bool)
    ensures
        r == is_whitespace(c),
{
    let x = c as u32;
    (0x09 <= x && x <= 0x0d) || x == 0x20 || x == 0x85 || x == 0xa0 || x == 0x1680 || (0x2000 <= x
        && x <= 0x200a) || x == 0x2028 || x == 0x2029 || x == 0x202f || x == 0x205f || x == 0x3000
}

/// `s` without leading and trailing whitespace (as `str::trim`): the part
/// from the first to the last character that is not whitespace.
pub open spec fn trimmed(s: Seq<char>) -> Seq<char> {
    if forall|i: int| 0 <= i < s.len() ==> is_whitespace(#[trigger] s[i]) {
        Seq::<char>::empty()
    } else {
        let a = choose|a: int|
            0 <= a < s.len() && !is_whitespace(s[a]) && forall|k: int| 0 <= k < a ==> is_whitespace(#[trigger] s[k]);
        let b = choose|b: int|
            0 <= b < s.len() && !is_whitespace(s[b]) && forall|k: int| b < k < s.len() ==> is_whitespace(#[trigger] s[k]);
        s.subrange(a, b + 1)
    }
}

/// `s` without leading and trailing whitespace.
pub fn trim(s: &str) -> (r: String)
    ensures
        r@ == trimmed(s@),
{
    let n = s.unicode_len();
    let mut a: usize = 0;
    while a < n && char_is_whitespace(s.get_char(a))
        invariant
            n == s@.len(),
            a <= n,
            forall|k: int| 0 <= k < a ==> is_whitespace(#[trigger] s@[k]),
        decreases n - a,
    {
        a = a + 1;
    }
    if a == n {
        return String::new();
    }
    let mut b: usize = n - 1;
    while char_is_whitespace(s.get_char(b))
        invariant
            n == s@.len(),
            a < n,
            a <= b < n,
            !is_whitespace(s@[a as int]),
            forall|k: int| b < k < n ==> is_whitespace(#[trigger] s@[k]),
        decreases b,
    {
        b = b - 1;
    }
    proof {
        let aa = choose|x: int|
            0 <= x < s@.len() && !is_whitespace(s@[x]) && forall|k: int| 0 <= k < x ==> is_whitespace(#[trigger] s@[k]);
        let bb = choose|x: int|
            0 <= x < s@.len() && !is_whitespace(s@[x]) && forall|k: int| x < k < s@.len() ==> is_whitespace(#[trigger] s@[k]);
        assert(!is_whitespace(s@[b as int]));
        assert(aa == a) by {
            if aa < a {
                assert(is_whitespace(s@[aa]));
            } else if aa > a {
                assert(is_whitespace(s@[a as int]));
            }
        }
        assert(bb == b) by {
            if bb < b {
                assert(is_whitespace(s@[b as int]));
            } else if bb > b {
                assert(is_whitespace(s@[bb]));
            }
        }
    }
    let mut out = String::new();
    let mut i = a;
    while i <= b
        invariant
            n == s@.len(),
            a <= i <= b + 1,
            b < n,
            out@ == s@.subrange(a as int, i as int),
        decreases b + 1 - i,
    {
        let ghost before = out@;
        push_char(&mut out, s.get_char(i));
        assert(out@ =~= s@.subrange(a as int, i + 1));
        i = i + 1;
    }
    out
}

/// Whether two strings are equal, character for character.
pub fn str_eq(a: &str, b: &str) -> (r: bool)
    ensures
        r == (a@ == b@),
{
    if a.unicode_len() != b.unicode_len() {
        return false;
    }
    let r = occurs_at_exec(a, b, 0);
    assert(r ==> a@.subrange(0, a@.len() as int) =~= a@);
    assert(a@ == b@ ==> a@.subrange(0, b@.len() as int) =~= a@);
    r
}

/// Whether `s` begins with `pat`.
pub fn starts_with_str(s: &str, pat: &str) -> (r: bool)
    ensures
        r == starts_with_seq(s@, pat@),
{
    occurs_at_exec(s, pat, 0)
}

/// One step of `replaced` on a suffix of `s`, written over indices of `s`.
proof fn lemma_replaced_step(s: Seq<char>, pat: Seq<char>, rep: Seq<char>, i: int)
    requires
        0 <= i < s.len(),
        pat.len() > 0,
    ensures
        occurs_at(s, pat, i) ==> replaced(s.subrange(i, s.len() as int), pat, rep) == rep
            + replaced(s.subrange(i + pat.len(), s.len() as int), pat, rep),
        !occurs_at(s, pat, i) ==> replaced(s.subrange(i, s.len() as int), pat, rep) == seq![
            s[i],
        ] + replaced(s.subrange(i + 1, s.len() as int), pat, rep),
{
    let t = s.subrange(i, s.len() as int);
    assert(occurs_at(s, pat, i) == occurs_at(t, pat, 0)) by {
        if i + pat.len() <= s.len() {
            assert(t.subrange(0, pat.len() as int) =~= s.subrange(i, i + pat.len()));
        }
    }
    if occurs_at(t, pat, 0) {
        assert(t.subrange(pat.len() as int, t.len() as int) =~= s.subrange(
            i + pat.len(),
            s.len() as int,
        ));
    } else {
        assert(t.subrange(1, t.len() as int) =~= s.subrange(i + 1, s.len() as int));
    }
}

/// `s` with every non-overlapping occurrence of the non-empty `pat`, taken
/// from left to right, replaced by `rep` (as `str::replace` does).
pub fn replace_all(s: &str, pat: &str, rep: &str) -> (r: String)
    requires
        pat@.len() > 0,
    ensures
        r@ == replaced(s@, pat@, rep@),
{
    let n = s.unicode_len();
    let m = pat.unicode_len();
    let mut out = String::new();
    let mut i: usize = 0;
    assert(s@.subrange(0, n as int) =~= s@);
    while i < n
        invariant
            n == s@.len(),
            m == pat@.len(),
            m > 0,
            i <= n,
            replaced(s@, pat@, rep@) == out@ + replaced(s@.subrange(i as int, n as int), pat@, rep@),
        decreases n - i,
    {
        proof {
            lemma_replaced_step(s@, pat@, rep@, i as int);
        }
        if occurs_at_exec(s, pat, i) {
            let ghost before = out@;
            out.append(rep);
            assert(before + (rep@ + replaced(s@.subrange(i + m, n as int), pat@, rep@))
                =~= out@ + replaced(s@.subrange(i + m, n as int), pat@, rep@));
            i = i + m;
        } else {
            let c = s.get_char(i);
            let ghost before = out@;
            push_char(&mut out, c);
            assert(before + (seq![c] + replaced(s@.subrange(i + 1, n as int), pat@, rep@))
                =~= out@ + replaced(s@.subrange(i + 1, n as int), pat@, rep@));
            i = i + 1;
        }
    }
    assert(s@.subrange(n as int, n as int) =~= Seq::<char>::empty());
    assert(out@ + Seq::<char>::empty() =~= out@);
    out
}

/// `s` prepared to stand between single quotes in the installation script.
pub fn shell_escape(s: &str) -> (r: String)
    ensures
        r@ == shell_escaped(s@),
{
    proof {
        reveal_strlit("'");
        reveal_strlit("'\"'\"'");
    }
    let pat = "'";
    let rep = "'\"'\"'";
    assert(pat@ =~= seq!['\'']);
    assert(rep@ =~= quote_escape_seq());
    replace_all(s, pat, rep)
}

/// Whether `a` sorts strictly before `b`.
pub fn str_lt(a: &str, b: &str) -> (r: bool)
    ensures
        r == seq_lt(a@, b@),
{
    let n = a.unicode_len();
    let m = b.unicode_len();
    let mut i: usize = 0;
    assert(a@.skip(0) =~= a@);
    assert(b@.skip(0) =~= b@);
    while i < n && i < m
        invariant
            n == a@.len(),
            m == b@.len(),
            i <= n,
            i <= m,
            forall|j: int| 0 <= j < i ==> a@[j] == b@[j],
            seq_lt(a@, b@) == seq_lt(a@.skip(i as int), b@.skip(i as int)),
        decreases n - i,
    {
        let x = a.get_char(i);
        let y = b.get_char(i);
        let ghost sa = a@.skip(i as int);
        let ghost sb = b@.skip(i as int);
        assert(sa[0] == x && sb[0] == y);
        if x != y {
            return (x as u32) < (y as u32);
        }
        assert(sa.drop_first() =~= a@.skip(i + 1));
        assert(sb.drop_first() =~= b@.skip(i + 1));
        i = i + 1;
    }
    i < m && i >= n
}

/// Law: escaping loses nothing: turning every `'"'"'` of an escaped string
/// back into `'` gives back the string that was escaped.
pub proof fn lemma_shell_escape_round_trip(s: Seq<char>)
    ensures
        replaced(shell_escaped(s), quote_escape_seq(), seq!['\'']) == s,
    decreases s.len(),
{
    let q = quote_escape_seq();
    let rest = s.subrange(1, s.len() as int);
    if s.len() > 0 {
        lemma_shell_escape_round_trip(rest);
        let e = shell_escaped(s);
        if s[0] == '\'' {
            assert(occurs_at(s, seq!['\''], 0)) by {
                assert(s.subrange(0, 1) =~= seq!['\'']);
            }
            assert(e == q + shell_escaped(rest));
            assert(e.subrange(0, 5) =~= q);
            assert(e.subrange(5, e.len() as int) =~= shell_escaped(rest));
            assert(occurs_at(e, q, 0));
            assert(s =~= seq!['\''] + rest);
        } else {
            assert(!occurs_at(s, seq!['\''], 0)) by {
                assert(s.subrange(0, 1)[0] == s[0]);
            }
            assert(e == seq![s[0]] + shell_escaped(rest));
            assert(e[0] == s[0]);
            assert(!occurs_at(e, q, 0)) by {
                if e.len() >= 5 {
                    assert(e.subrange(0, 5)[0] == e[0]);
                }
            }
            assert(e.subrange(1, e.len() as int) =~= shell_escaped(rest));
            assert(s =~= seq![s[0]] + rest);
        }
    } else {
        assert(s =~= Seq::<char>::empty());
    }
}

/// A string without a pattern's first character is left alone by replacing
/// that pattern.
proof fn lemma_replaced_without_match(s: Seq<char>, pat: Seq<char>, rep: Seq<char>)
    requires
        pat.len() > 0,
        !s.contains(pat[0]),
    ensures
        replaced(s, pat, rep) == s,
    decreases s.len(),
{
    if s.len() > 0 {
        let rest = s.subrange(1, s.len() as int);
        assert(!occurs_at(s, pat, 0)) by {
            if occurs_at(s, pat, 0) {
                assert(s.subrange(0, pat.len() as int)[0] == s[0]);
                assert(s.contains(pat[0]));
            }
        }
        assert forall|c: char| rest.contains(c) implies s.contains(c) by {
            let k = choose|k: int| 0 <= k < rest.len() && rest[k] == c;
            assert(s[k + 1] == c);
        }
        lemma_replaced_without_match(rest, pat, rep);
        assert(s =~= seq![s[0]] + rest);
    } else {
        assert(s =~= Seq::<char>::empty());
    }
}

/// Law: a value without a single quote goes into the script unchanged.
pub proof fn lemma_shell_escape_keeps_quote_free(s: Seq<char>)
    requires
        !s.contains('\''),
    ensures
        shell_escaped(s) == s,
{
    lemma_replaced_without_match(s, seq!['\''], quote_escape_seq());
}

} // verus!
