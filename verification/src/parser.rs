//! Deriving font metadata from file names.
//!
//! A file qualifies when its final extension is one of the recognized font
//! extensions (case-sensitively). For a qualifying file, the record's `name`
//! drops everything from the first `.` on, `family` is the part of `name`
//! before the first `-`, and `style` is the part between the first and second
//! `-`, defaulting to `"Regular"`. Every file name, however unusual, yields a
//! well-formed record: there is no failure path.

use vstd::prelude::*;
use vstd::string::StrSliceExecFns;
use crate::font::FontInfo;
use crate::font::FontInfoView;

verus! {

/// The first position of `c` in `s` at or after `i`, if any.
pub open spec fn find_from(s: Seq<char>, c: char, i: int) -> Option<int>
    decreases s.len() - i,
{
    if i < 0 || i >= s.len() {
        None
    } else if s[i] == c {
        Some(i)
    } else {
        find_from(s, c, i + 1)
    }
}

/// The first position of `c` in `s`, if any.
pub open spec fn find_char(s: Seq<char>, c: char) -> Option<int> {
    find_from(s, c, 0)
}

/// The last position of `c` in `s` at or before `i`, if any.
pub open spec fn rfind_from(s: Seq<char>, c: char, i: int) -> Option<int>
    decreases i + 1,
{
    if i < 0 || i >= s.len() {
        None
    } else if s[i] == c {
        Some(i)
    } else {
        rfind_from(s, c, i - 1)
    }
}

/// The last position of `c` in `s`, if any.
pub open spec fn rfind_char(s: Seq<char>, c: char) -> Option<int> {
    rfind_from(s, c, s.len() - 1)
}

/// A position found by `find_from` lies in `s` and holds `c`.
pub proof fn lemma_find_from_range(s: Seq<char>, c: char, i: int)
    ensures
        find_from(s, c, i) matches Some(k) ==> 0 <= k < s.len() && s[k] == c,
    decreases s.len() - i,
{
    if 0 <= i < s.len() && s[i] != c {
        lemma_find_from_range(s, c, i + 1);
    }
}

/// A position found by `rfind_from` lies in `s` and holds `c`.
pub proof fn lemma_rfind_from_range(s: Seq<char>, c: char, i: int)
    ensures
        rfind_from(s, c, i) matches Some(k) ==> 0 <= k < s.len() && s[k] == c,
    decreases i + 1,
{
    if 0 <= i < s.len() && s[i] != c {
        lemma_rfind_from_range(s, c, i - 1);
    }
}

/// The extension of a file name: what follows the last `.`, provided the dot
/// is neither absent nor the leading character (a name that starts with its
/// only dot, like a hidden file, has no extension).
pub open spec fn extension_of(file_name: Seq<char>) -> Option<Seq<char>> {
    match rfind_char(file_name, '.') {
        None => None,
        Some(i) => if i == 0 {
            None
        } else {
            Some(file_name.subrange(i + 1, file_name.len() as int))
        },
    }
}

/// The recognized font-file extensions, compared case-sensitively.
pub open spec fn is_font_extension(ext: Seq<char>) -> bool {
    ||| ext == "ttf"@
    ||| ext == "otf"@
    ||| ext == "ttc"@
    ||| ext == "woff"@
    ||| ext == "woff2"@
}

/// Whether a file name passes the applicability filter: it has an extension
/// and that extension is a recognized font extension.
pub open spec fn qualifies(file_name: Seq<char>) -> bool {
    match extension_of(file_name) {
        Some(ext) => is_font_extension(ext),
        None => false,
    }
}

/// The part of `s` before the first `c`, or all of `s` if `c` is absent.
pub open spec fn segment_before(s: Seq<char>, c: char) -> Seq<char> {
    match find_char(s, c) {
        Some(i) => s.subrange(0, i),
        None => s,
    }
}

/// The `name` field derived from a file name: everything before the first `.`.
pub open spec fn name_of(file_name: Seq<char>) -> Seq<char> {
    segment_before(file_name, '.')
}

/// The `family` field derived from a record name: everything before the
/// first `-`.
pub open spec fn family_of(name: Seq<char>) -> Seq<char> {
    segment_before(name, '-')
}

/// The `style` field derived from a record name: the part between the first
/// and second `-`, or `"Regular"` when `name` has no `-` or that part is
/// empty.
pub open spec fn style_of(name: Seq<char>) -> Seq<char> {
    match find_char(name, '-') {
        None => "Regular"@,
        Some(i) => {
            let rest = name.subrange(i + 1, name.len() as int);
            let seg = segment_before(rest, '-');
            if seg.len() == 0 {
                "Regular"@
            } else {
                seg
            }
        },
    }
}

/// The full record derived from a file name and its path.
pub open spec fn font_info_of(file_name: Seq<char>, path: Seq<char>) -> FontInfoView {
    FontInfoView {
        name: name_of(file_name),
        path: path,
        family: family_of(name_of(file_name)),
        style: style_of(name_of(file_name)),
    }
}

/// The first position of `c` in `s`, scanning forward.
fn find_char_in(s: &str, c: char) -> (r: Option<usize>)
    ensures
        find_char(s@, c) == match r {
            Some(k) => Some(k as int),
            None => None::<int>,
        },
{
    let n = s.unicode_len();
    let mut i: usize = 0;
    while i < n
        invariant
            n == s@.len(),
            i <= n,
            find_from(s@, c, 0) == find_from(s@, c, i as int),
        decreases n - i,
    {
        let ch = s.get_char(i);
        if ch == c {
            return Some(i);
        }
        i = i + 1;
    }
    None
}

/// The last position of `c` in `s`, scanning backward.
fn rfind_char_in(s: &str, c: char) -> (r: Option<usize>)
    ensures
        rfind_char(s@, c) == match r {
            Some(k) => Some(k as int),
            None => None::<int>,
        },
{
    let n = s.unicode_len();
    let mut i: usize = n;
    while i > 0
        invariant
            n == s@.len(),
            i <= n,
            rfind_from(s@, c, n as int - 1) == rfind_from(s@, c, i as int - 1),
        decreases i,
    {
        i = i - 1;
        let ch = s.get_char(i);
        if ch == c {
            return Some(i);
        }
    }
    None
}

/// Character-by-character string equality.
fn str_eq(a: &str, b: &str) -> (r: bool)
    ensures
        r == (a@ == b@),
{
    let na = a.unicode_len();
    let nb = b.unicode_len();
    if na != nb {
        return false;
    }
    let mut i: usize = 0;
    while i < na
        invariant
            na == a@.len(),
            nb == b@.len(),
            na == nb,
            i <= na,
            forall|j: int| 0 <= j < i ==> a@[j] == b@[j],
        decreases na - i,
    {
        if a.get_char(i) != b.get_char(i) {
            return false;
        }
        i = i + 1;
    }
    proof {
        assert(a@ =~= b@);
    }
    true
}

/// Whether `ext` is one of the recognized font extensions.
pub fn is_known_font_extension(ext: &str) -> (r: bool)
    ensures
        r == is_font_extension(ext@),
{
    str_eq(ext, "ttf") || str_eq(ext, "otf") || str_eq(ext, "ttc") || str_eq(ext, "woff")
        || str_eq(ext, "woff2")
}

/// Whether a file name passes the applicability filter.
pub fn has_font_extension(file_name: &str) -> (r: bool)
    ensures
        r == qualifies(file_name@),
{
    match rfind_char_in(file_name, '.') {
        None => false,
        Some(i) => {
            if i == 0 {
                false
            } else {
                proof {
                    lemma_rfind_from_range(file_name@, '.', file_name@.len() - 1);
                }
                let n = file_name.unicode_len();
                let ext = file_name.substring_char(i + 1, n);
                is_known_font_extension(ext)
            }
        },
    }
}

/// The part of `s` before the first `c`, or a copy of `s` if `c` is absent.
fn segment_before_in(s: &str, c: char) -> (r: String)
    ensures
        r@ == segment_before(s@, c),
{
    match find_char_in(s, c) {
        Some(i) => {
            proof {
                lemma_find_from_range(s@, c, 0);
            }
            s.substring_char(0, i).to_owned()
        },
        None => s.to_owned(),
    }
}

/// The style segment of a record name.
fn style_segment(name: &str) -> (r: String)
    ensures
        r@ == style_of(name@),
{
    match find_char_in(name, '-') {
        None => "Regular".to_owned(),
        Some(i) => {
            proof {
                lemma_find_from_range(name@, '-', 0);
            }
            let n = name.unicode_len();
            let rest = name.substring_char(i + 1, n);
            let seg = segment_before_in(rest, '-');
            if seg.as_str().unicode_len() == 0 {
                "Regular".to_owned()
            } else {
                seg
            }
        },
    }
}

/// Derive the full metadata record for one font file.
///
/// Never fails: every file name yields a well-formed record.
pub fn parse_font_file(file_name: &str, path: &str) -> (r: FontInfo)
    ensures
        r@ == font_info_of(file_name@, path@),
{
    let name = segment_before_in(file_name, '.');
    let family = segment_before_in(name.as_str(), '-');
    let style = style_segment(name.as_str());
    FontInfo { name, path: path.to_owned(), family, style }
}

} // verus!
