//! Rewriting the `cursor` property of an inline CSS style attribute.
use vstd::prelude::*;
use crate::cell::copy_text;

verus! {

/// Whether `pat` occurs in `s` at index `i`.
pub open spec fn occurs_at(s: Seq<char>, pat: Seq<char>, i: int) -> bool {
    0 <= i && i + pat.len() <= s.len() && s.subrange(i, i + pat.len()) == pat
}

/// The first index from `k` on at which `pat` occurs in `s`.
pub open spec fn find_from(s: Seq<char>, pat: Seq<char>, k: int) -> Option<int>
    decreases s.len() + 1 - k,
{
    if k < 0 || k + pat.len() > s.len() {
        None
    } else if occurs_at(s, pat, k) {
        Some(k)
    } else {
        find_from(s, pat, k + 1)
    }
}

/// `s` without its trailing semicolons.
pub open spec fn trim_semicolons(s: Seq<char>) -> Seq<char>
    decreases s.len(),
{
    if s.len() > 0 && s.last() == ';' {
        trim_semicolons(s.drop_last())
    } else {
        s
    }
}

/// The value of the `cursor` property: the pointing hand or the default arrow.
pub open spec fn cursor_value(is_pointer: bool) -> Seq<char> {
    if is_pointer {
        "pointer"@
    } else {
        "default"@
    }
}

/// The style attribute `style` with its `cursor` property set: an existing
/// `cursor:` declaration, up to and including its `;` (or to the end), is
/// replaced; an empty style becomes the declaration alone; otherwise the
/// declaration is appended after the trailing semicolons are trimmed.
pub open spec fn with_cursor_spec(style: Seq<char>, is_pointer: bool) -> Seq<char> {
    let decl = "cursor: "@ + cursor_value(is_pointer);
    match find_from(style, "cursor:"@, 0) {
        Some(start) => {
            let after = style.subrange(start, style.len() as int);
            let end = match find_from(after, ";"@, 0) {
                Some(p) => p + 1,
                None => after.len() as int,
            };
            style.subrange(0, start) + decl + style.subrange(start + end, style.len() as int)
        },
        None => if style.len() == 0 {
            decl
        } else {
            trim_semicolons(style) + "; "@ + decl
        },
    }
}

/// The first index from `k` on at which `pat` occurs in `s`.
fn find(s: &str, pat: &str, k: usize) -> (r: Option<usize>)
    requires
        k <= s@.len(),
    ensures
        r matches Some(i) ==> find_from(s@, pat@, k as int) == Some(i as int) && i + pat@.len() <= s@.len(),
        r.is_none() ==> find_from(s@, pat@, k as int).is_none(),
{
    let n = s.unicode_len();
    let m = pat.unicode_len();
    let mut i = k;
    while m <= n && i <= n - m
        invariant
            n == s@.len(),
            m == pat@.len(),
            k <= i <= n,
            find_from(s@, pat@, k as int) == find_from(s@, pat@, i as int),
        decreases n - i,
    {
        let mut j: usize = 0;
        let mut matched = true;
        while j < m
            invariant
                n == s@.len(),
                m == pat@.len(),
                i + m <= n,
                j <= m,
                matched == (forall|t: int| 0 <= t < j ==> s@[i + t] == pat@[t]),
            decreases m - j,
        {
            if s.get_char(i + j) != pat.get_char(j) {
                matched = false;
            }
            j += 1;
        }
        if matched {
            assert(s@.subrange(i as int, i + m) =~= pat@);
            return Some(i);
        }
        assert(!occurs_at(s@, pat@, i as int)) by {
            if occurs_at(s@, pat@, i as int) {
                assert forall|t: int| 0 <= t < m implies s@[i + t] == pat@[t] by {
                    assert(s@.subrange(i as int, i + m)[t] == s@[i + t]);
                }
            }
        }
        i += 1;
    }
    None
}

/// `s` without its trailing semicolons.
fn trim_end_semicolons(s: &str) -> (r: String)
    ensures
        r@ == trim_semicolons(s@),
{
    let mut end = s.unicode_len();
    assert(s@.subrange(0, end as int) =~= s@);
    while end > 0 && s.get_char(end - 1) == ';'
        invariant
            end <= s@.len(),
            trim_semicolons(s@) == trim_semicolons(s@.subrange(0, end as int)),
        decreases end,
    {
        assert(s@.subrange(0, end as int).drop_last() =~= s@.subrange(0, end - 1));
        end -= 1;
    }
    assert(trim_semicolons(s@.subrange(0, end as int)) == s@.subrange(0, end as int));
    copy_text(s.substring_char(0, end))
}

/// The style attribute `style` with its `cursor` property set to the
/// pointing hand (`is_pointer`) or the default arrow.
pub fn with_cursor_style(style: &str, is_pointer: bool) -> (r: String)
    ensures
        r@ == with_cursor_spec(style@, is_pointer),
{
    let value = if is_pointer { "pointer" } else { "default" };
    let mut decl = String::from_str("cursor: ");
    decl.append(value);
    let n = style.unicode_len();
    match find(style, "cursor:", 0) {
        Some(start) => {
            let after = style.substring_char(start, n);
            let end = match find(after, ";", 0) {
                Some(p) => {
                    proof {
                        reveal_strlit(";");
                    }
                    p + 1
                },
                None => after.unicode_len(),
            };
            let mut r = copy_text(style.substring_char(0, start));
            r.append(decl.as_str());
            r.append(style.substring_char(start + end, n));
            r
        },
        None => {
            if n == 0 {
                decl
            } else {
                let mut r = trim_end_semicolons(style);
                r.append("; ");
                r.append(decl.as_str());
                r
            }
        },
    }
}

} // verus!
