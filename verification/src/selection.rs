//! The language, keyboard and timezone pages: which entry is selected when a
//! page opens, what is passed to the system tools, and which entries a
//! search shows.
use vstd::prelude::*;

use crate::model::KBDMap;
use crate::text::{contains_seq, contains_str, push_char, str_eq};

verus! {

/// The locale code of a `LANG` value: everything before the first `.`.
pub open spec fn spec_locale_from_lang(lang: Seq<char>) -> Seq<char> {
    if exists|i: int| 0 <= i < lang.len() && lang[i] == '.' {
        let d = choose|d: int|
            0 <= d < lang.len() && lang[d] == '.' && forall|k: int| 0 <= k < d ==> lang[k] != '.';
        lang.subrange(0, d)
    } else {
        lang
    }
}

/// The locale code of the `LANG` value `lang`, such as `en_US` for
/// `en_US.UTF-8`.
pub fn locale_from_lang(lang: &str) -> (r: String)
    ensures
        r@ == spec_locale_from_lang(lang@),
{
    let n = lang.unicode_len();
    let mut out = String::new();
    let mut i: usize = 0;
    while i < n && lang.get_char(i) != '.'
        invariant
            n == lang@.len(),
            i <= n,
            out@ == lang@.subrange(0, i as int),
            forall|k: int| 0 <= k < i ==> lang@[k] != '.',
        decreases n - i,
    {
        push_char(&mut out, lang.get_char(i));
        assert(out@ =~= lang@.subrange(0, i + 1));
        i = i + 1;
    }
    proof {
        if i < n {
            let d = choose|d: int|
                0 <= d < lang@.len() && lang@[d] == '.' && forall|k: int| 0 <= k < d ==> lang@[k] != '.';
            assert(lang@[i as int] == '.');
            if d < i {
                assert(lang@[d] != '.');
            } else if d > i {
                assert(lang@[i as int] != '.');
            }
        } else {
            assert(out@ =~= lang@);
        }
    }
    out
}

/// Whether the locale `locale` is selected when the language page opens:
/// it is the current locale, and that is not the C or POSIX locale.
pub fn should_preselect_locale(current: &str, locale: &str) -> (r: bool)
    ensures
        r == (current@ == locale@ && current@ != "C.UTF-8"@ && current@ != "C"@ && current@
            != "C.utf8"@ && current@ != "POSIX"@),
{
    str_eq(current, locale) && !str_eq(current, "C.UTF-8") && !str_eq(current, "C") && !str_eq(
        current,
        "C.utf8",
    ) && !str_eq(current, "POSIX")
}

/// The argument given to `localectl set-locale` for the chosen locale.
pub fn localectl_lang_arg(locale: &str) -> (r: String)
    ensures
        r@ == "LANG="@ + locale@ + ".UTF-8"@,
{
    let mut r = "LANG=".to_owned();
    r.append(locale);
    r.append(".UTF-8");
    r
}

/// The XKB name of a layout: the layout, followed by `+` and the variant
/// when there is one.
pub open spec fn spec_xkb_layout_id(k: KBDMap) -> Seq<char> {
    if k.variant@.len() == 0 {
        k.layout@
    } else {
        k.layout@ + "+"@ + k.variant@
    }
}

/// The XKB name of a layout, under which its display name is looked up and
/// which the keyboard page shows under that name.
pub fn xkb_layout_id(k: &KBDMap) -> (r: String)
    ensures
        r@ == spec_xkb_layout_id(*k),
{
    let mut r = k.layout.clone();
    if k.variant.as_str().unicode_len() != 0 {
        r.append("+");
        r.append(k.variant.as_str());
    }
    r
}

/// The arguments given to `setxkbmap` to switch to a layout.
pub fn setxkbmap_args(k: &KBDMap) -> (r: Vec<String>)
    ensures
        k.variant@.len() == 0 ==> r@.len() == 2,
        k.variant@.len() > 0 ==> r@.len() == 4 && r@[2]@ == "-variant"@ && r@[3]@ == k.variant@,
        r@[0]@ == "-layout"@,
        r@[1]@ == k.layout@,
{
    let mut r: Vec<String> = Vec::new();
    r.push("-layout".to_owned());
    r.push(k.layout.clone());
    if k.variant.as_str().unicode_len() != 0 {
        r.push("-variant".to_owned());
        r.push(k.variant.clone());
    }
    r
}

/// Whether a layout is selected when the keyboard page opens: the US layout
/// without a variant.
pub fn is_default_keymap(k: &KBDMap) -> (r: bool)
    ensures
        r == (k.layout@ == "us"@ && k.variant@.len() == 0),
{
    str_eq(k.layout.as_str(), "us") && k.variant.as_str().unicode_len() == 0
}

/// What `str::to_lowercase` gives for a string.
pub uninterp spec fn lowercased(s: Seq<char>) -> Seq<char>;

/// Calls `str::to_lowercase`; the contract names its result.
#[verifier::external_body]
fn to_lowercase(s: &str) -> (r: String)
    ensures
        r@ == lowercased(s@),
{
    s.to_lowercase()
}

/// A row stays visible in a search: the query is empty, or it occurs in the
/// row's subtitle or title, letter case aside.
pub open spec fn spec_search_matches(query: Seq<char>, title: Seq<char>, subtitle: Seq<char>) -> bool {
    query.len() == 0 || contains_seq(lowercased(subtitle), lowercased(query)) || contains_seq(
        lowercased(title),
        lowercased(query),
    )
}

/// Whether a row with `title` and `subtitle` stays visible while the search
/// field holds `query`.
pub fn search_matches(query: &str, title: &str, subtitle: &str) -> (r: bool)
    ensures
        r == spec_search_matches(query@, title@, subtitle@),
{
    if query.unicode_len() == 0 {
        return true;
    }
    let q = to_lowercase(query);
    let s = to_lowercase(subtitle);
    if contains_str(s.as_str(), q.as_str()) {
        return true;
    }
    let t = to_lowercase(title);
    contains_str(t.as_str(), q.as_str())
}

/// Law: clearing the search shows every row again.
pub proof fn lemma_empty_search_shows_all(query: Seq<char>, title: Seq<char>, subtitle: Seq<char>)
    requires
        query.len() == 0,
    ensures
        spec_search_matches(query, title, subtitle),
{
}

} // verus!
