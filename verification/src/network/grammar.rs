//! Character classes and scanning helpers shared by the name parsers.
use vstd::prelude::*;

verus! {

/// A character allowed inside a name component: an ASCII letter or digit,
/// `_` or `-`.
pub open spec fn is_ident_char(c: char) -> bool {
    ('a' <= c && c <= 'z') || ('A' <= c && c <= 'Z') || ('0' <= c && c <= '9') || c == '_' || c
        == '-'
}

/// A non-empty name component made of identifier characters only.
pub open spec fn is_ident(s: Seq<char>) -> bool {
    &&& s.len() > 0
    &&& forall|i: int| 0 <= i < s.len() ==> is_ident_char(#[trigger] s[i])
}

/// Every character of `s` in `[start, end)` is an identifier character.
pub open spec fn all_ident(s: Seq<char>, start: int, end: int) -> bool {
    forall|k: int| start <= k < end ==> is_ident_char(#[trigger] s[k])
}

/// `end` is where the run of identifier characters that begins at `start` stops.
pub open spec fn is_run_end(s: Seq<char>, start: int, end: int) -> bool {
    &&& 0 <= start <= end <= s.len()
    &&& all_ident(s, start, end)
    &&& (end == s.len() || !is_ident_char(s[end]))
}

pub fn is_ident_char_exec(c: char) -> (r: bool)
    ensures
        r == is_ident_char(c),
{
    ('a' <= c && c <= 'z') || ('A' <= c && c <= 'Z') || ('0' <= c && c <= '9') || c == '_' || c
        == '-'
}

/// A run of identifier characters stops at one place only.
pub proof fn lemma_run_end_unique(s: Seq<char>, start: int, e1: int, e2: int)
    requires
        is_run_end(s, start, e1),
        is_run_end(s, start, e2),
    ensures
        e1 == e2,
{
    if e1 < e2 {
        assert(is_ident_char(s[e1]));
    }
    if e2 < e1 {
        assert(is_ident_char(s[e2]));
    }
}

/// If an identifier `a` sits at `start` and is followed by a character that is
/// not an identifier character (or by the end), the run from `start` ends
/// right after `a`.
pub proof fn lemma_ident_is_run(s: Seq<char>, start: int, a: Seq<char>)
    requires
        0 <= start,
        start + a.len() <= s.len(),
        s.subrange(start, start + a.len()) == a,
        is_ident(a),
        start + a.len() == s.len() || !is_ident_char(s[start + a.len()]),
    ensures
        is_run_end(s, start, start + a.len()),
{
    assert forall|k: int| start <= k < start + a.len() implies is_ident_char(#[trigger] s[k]) by {
        assert(s[k] == s.subrange(start, start + a.len())[k - start]);
    }
}

/// A non-empty stretch of identifier characters is an identifier.
pub proof fn lemma_all_ident(s: Seq<char>, start: int, end: int)
    requires
        0 <= start < end <= s.len(),
        all_ident(s, start, end),
    ensures
        is_ident(s.subrange(start, end)),
{
    assert forall|i: int| 0 <= i < end - start implies is_ident_char(
        #[trigger] s.subrange(start, end)[i],
    ) by {
        assert(s.subrange(start, end)[i] == s[start + i]);
    }
}

/// Finds where the run of identifier characters starting at `start` stops.
pub fn ident_run_end(s: &str, start: usize) -> (end: usize)
    requires
        start <= s@.len(),
    ensures
        is_run_end(s@, start as int, end as int),
{
    let n = s.unicode_len();
    let mut j = start;
    while j < n && is_ident_char_exec(s.get_char(j))
        invariant
            n == s@.len(),
            start <= j <= n,
            all_ident(s@, start as int, j as int),
        decreases n - j,
    {
        j = j + 1;
    }
    j
}

/// Whether `lit` occurs in `s` at character position `pos`.
pub fn text_at(s: &str, pos: usize, lit: &str) -> (r: bool)
    requires
        pos <= s@.len(),
    ensures
        r == (pos + lit@.len() <= s@.len() && s@.subrange(pos as int, pos + lit@.len()) == lit@),
{
    let n = s.unicode_len();
    let m = lit.unicode_len();
    if m > n - pos {
        return false;
    }
    let mut i: usize = 0;
    while i < m
        invariant
            n == s@.len(),
            m == lit@.len(),
            pos + m <= n,
            i <= m,
            forall|k: int| 0 <= k < i ==> s@[pos + k] == lit@[k],
        decreases m - i,
    {
        if s.get_char(pos + i) != lit.get_char(i) {
            assert(s@.subrange(pos as int, pos + m)[i as int] != lit@[i as int]);
            return false;
        }
        i = i + 1;
    }
    assert(s@.subrange(pos as int, pos + m) =~= lit@);
    true
}

} // verus!
