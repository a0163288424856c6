//! Shared character and string helpers.
//!
//! Every operation in this module works on `&str` / `String` values whose
//! mathematical model is a `Seq<char>`.  Each executable function carries an
//! exact contract phrased over a spec function defined here, so callers can
//! reason about the precise text they produce.

use vstd::prelude::*;

verus! {

/// The whitespace characters this crate recognises (the POSIX `isspace` set).
pub open spec fn is_space(c: char) -> bool {
    c == ' ' || c == '\t' || c == '\n' || c == '\r' || c == '\x0b' || c == '\x0c'
}

/// The views of a sequence of owned strings.
pub open spec fn views(args: Seq<String>) -> Seq<Seq<char>> {
    args.map_values(|s: String| s@)
}

/// Exec test for the whitespace set of `is_space`.
pub fn is_space_char(c: char) -> (r: bool)
    ensures
        r == is_space(c),
{
    c == ' ' || c == '\t' || c == '\n' || c == '\r' || c == '\x0b' || c == '\x0c'
}

/// Character-for-character string equality.
pub fn str_eq(a: &str, b: &str) -> (r: bool)
    ensures
        r == (a@ == b@),
{
    let n = a.unicode_len();
    if n != b.unicode_len() {
        proof {
            assert(a@ != b@);
        }
        return false;
    }
    let mut i: usize = 0;
    while i < n
        invariant
            i <= n,
            n == a@.len(),
            n == b@.len(),
            forall|j: int| 0 <= j < i ==> a@[j] == b@[j],
        decreases n - i,
    {
        if a.get_char(i) != b.get_char(i) {
            proof {
                assert(a@[i as int] != b@[i as int]);
            }
            return false;
        }
        i = i + 1;
    }
    proof {
        assert(a@ =~= b@);
    }
    true
}

/// Whether `s` contains the character `c`.
pub fn contains_char(s: &str, c: char) -> (r: bool)
    ensures
        r == s@.contains(c),
{
    let n = s.unicode_len();
    let mut i: usize = 0;
    while i < n
        invariant
            i <= n,
            n == s@.len(),
            forall|j: int| 0 <= j < i ==> s@[j] != c,
        decreases n - i,
    {
        if s.get_char(i) == c {
            return true;
        }
        i = i + 1;
    }
    false
}

/// Whether `s` contains a character satisfying `is_space`.
pub fn contains_space(s: &str) -> (r: bool)
    ensures
        r == exists|j: int| 0 <= j < s@.len() && is_space(#[trigger] s@[j]),
{
    let n = s.unicode_len();
    let mut i: usize = 0;
    while i < n
        invariant
            i <= n,
            n == s@.len(),
            forall|j: int| 0 <= j < i ==> !is_space(s@[j]),
        decreases n - i,
    {
        if is_space_char(s.get_char(i)) {
            return true;
        }
        i = i + 1;
    }
    false
}

/// `s` starts with the prefix `p`.
pub open spec fn spec_starts_with(s: Seq<char>, p: Seq<char>) -> bool {
    s.len() >= p.len() && s.take(p.len() as int) == p
}

/// `s` ends with the suffix `p`.
pub open spec fn spec_ends_with(s: Seq<char>, p: Seq<char>) -> bool {
    s.len() >= p.len() && s.skip(s.len() - p.len()) == p
}

pub fn starts_with(s: &str, p: &str) -> (r: bool)
    ensures
        r == spec_starts_with(s@, p@),
{
    let n = s.unicode_len();
    let m = p.unicode_len();
    if n < m {
        return false;
    }
    let mut i: usize = 0;
    while i < m
        invariant
            i <= m,
            m <= n,
            n == s@.len(),
            m == p@.len(),
            forall|j: int| 0 <= j < i ==> s@[j] == p@[j],
        decreases m - i,
    {
        if s.get_char(i) != p.get_char(i) {
            proof {
                assert(s@.take(p@.len() as int)[i as int] != p@[i as int]);
            }
            return false;
        }
        i = i + 1;
    }
    proof {
        assert(s@.take(p@.len() as int) =~= p@);
    }
    true
}

pub fn ends_with(s: &str, p: &str) -> (r: bool)
    ensures
        r == spec_ends_with(s@, p@),
{
    let n = s.unicode_len();
    let m = p.unicode_len();
    if n < m {
        return false;
    }
    let off = n - m;
    let mut i: usize = 0;
    while i < m
        invariant
            i <= m,
            off == n - m,
            m <= n,
            n == s@.len(),
            m == p@.len(),
            forall|j: int| 0 <= j < i ==> s@[off + j] == p@[j],
        decreases m - i,
    {
        if s.get_char(off + i) != p.get_char(i) {
            proof {
                assert(s@.skip(s@.len() - p@.len())[i as int] != p@[i as int]);
            }
            return false;
        }
        i = i + 1;
    }
    proof {
        assert(s@.skip(s@.len() - p@.len()) =~= p@);
    }
    true
}

/// What is left of `s` after removing leading whitespace.
pub open spec fn spec_trim_start(s: Seq<char>) -> Seq<char>
    decreases s.len(),
{
    if s.len() == 0 {
        s
    } else if is_space(s[0]) {
        spec_trim_start(s.skip(1))
    } else {
        s
    }
}

/// What is left of `s` after removing trailing whitespace.
pub open spec fn spec_trim_end(s: Seq<char>) -> Seq<char>
    decreases s.len(),
{
    if s.len() == 0 {
        s
    } else if is_space(s[s.len() - 1]) {
        spec_trim_end(s.take(s.len() - 1))
    } else {
        s
    }
}

/// `s` with both leading and trailing whitespace removed.
pub open spec fn spec_trim(s: Seq<char>) -> Seq<char> {
    spec_trim_end(spec_trim_start(s))
}

proof fn lemma_trim_start_skip(s: Seq<char>, i: int)
    requires
        0 <= i <= s.len(),
        forall|k: int| 0 <= k < i ==> is_space(#[trigger] s[k]),
        i == s.len() || !is_space(s[i]),
    ensures
        spec_trim_start(s) == s.skip(i),
    decreases i,
{
    if i == 0 {
        assert(s.skip(0) =~= s);
    } else {
        assert(is_space(s[0]));
        lemma_trim_start_skip(s.skip(1), i - 1);
        assert(s.skip(1).skip(i - 1) =~= s.skip(i));
    }
}

proof fn lemma_trim_end_take(s: Seq<char>, j: int)
    requires
        0 <= j <= s.len(),
        forall|k: int| j <= k < s.len() ==> is_space(#[trigger] s[k]),
        j == 0 || !is_space(s[j - 1]),
    ensures
        spec_trim_end(s) == s.take(j),
    decreases s.len() - j,
{
    if j == s.len() {
        assert(s.take(j) =~= s);
    } else {
        assert(is_space(s[s.len() - 1]));
        lemma_trim_end_take(s.take(s.len() - 1), j);
        assert(s.take(s.len() - 1).take(j) =~= s.take(j));
    }
}

/// Remove leading and trailing whitespace.
#[verifier::loop_isolation(false)]
pub fn trim(s: &str) -> (r: &str)
    ensures
        r@ == spec_trim(s@),
{
    let n = s.unicode_len();
    let mut i: usize = 0;
    while i < n && is_space_char(s.get_char(i))
        invariant
            i <= n,
            forall|k: int| 0 <= k < i ==> is_space(#[trigger] s@[k]),
        decreases n - i,
    {
        i = i + 1;
    }
    let mut j: usize = n;
    while j > i && is_space_char(s.get_char(j - 1))
        invariant
            i <= j <= n,
            forall|k: int| j <= k < n ==> is_space(#[trigger] s@[k]),
        decreases j,
    {
        j = j - 1;
    }
    proof {
        lemma_trim_start_skip(s@, i as int);
        if j == i {
            lemma_trim_end_take(s@.skip(i as int), 0);
        } else {
            lemma_trim_end_take(s@.skip(i as int), j - i);
        }
        assert(s@.skip(i as int).take(j - i) =~= s@.subrange(i as int, j as int));
    }
    s.substring_char(i, j)
}

/// Builds the owned string whose characters are exactly `v`.
///
/// Relies on `String: FromIterator<char>` from std: collecting an iterator of
/// characters yields the string made of those characters in order.
#[verifier::external_body]
pub fn chars_to_string(v: &Vec<char>) -> (r: String)
    ensures
        r@ == v@,
{
    v.iter().collect()
}

} // verus!

verus! {

/// Index of the first occurrence of `c` in `s`, or `-1`.
pub open spec fn spec_index_of(s: Seq<char>, c: char) -> int
    decreases s.len(),
{
    if s.len() == 0 {
        -1
    } else if s[0] == c {
        0
    } else {
        let r = spec_index_of(s.skip(1), c);
        if r < 0 {
            -1
        } else {
            r + 1
        }
    }
}

pub proof fn lemma_index_of_props(s: Seq<char>, c: char)
    ensures
        spec_index_of(s, c) >= 0 ==> spec_index_of(s, c) < s.len() && s[spec_index_of(s, c)] == c
            && forall|k: int| 0 <= k < spec_index_of(s, c) ==> s[k] != c,
        spec_index_of(s, c) < 0 ==> !s.contains(c),
    decreases s.len(),
{
    if s.len() == 0 {
    } else if s[0] == c {
    } else {
        lemma_index_of_props(s.skip(1), c);
        let r = spec_index_of(s.skip(1), c);
        if r < 0 {
            assert forall|k: int| 0 <= k < s.len() implies s[k] != c by {
                if k > 0 {
                    assert(s.skip(1)[k - 1] == s[k]);
                    assert(!s.skip(1).contains(c));
                }
            }
            assert(!s.contains(c));
        } else {
            assert(s[r + 1] == s.skip(1)[r]);
            assert forall|k: int| 0 <= k < r + 1 implies s[k] != c by {
                if k > 0 {
                    assert(s.skip(1)[k - 1] == s[k]);
                }
            }
        }
    }
}

proof fn lemma_index_of_at(s: Seq<char>, c: char, i: int)
    requires
        0 <= i < s.len(),
        s[i] == c,
        forall|k: int| 0 <= k < i ==> s[k] != c,
    ensures
        spec_index_of(s, c) == i,
    decreases i,
{
    if i == 0 {
    } else {
        assert(s[0] != c);
        assert(s.skip(1)[i - 1] == s[i]);
        assert forall|k: int| 0 <= k < i - 1 implies s.skip(1)[k] != c by {
            assert(s.skip(1)[k] == s[k + 1]);
        }
        lemma_index_of_at(s.skip(1), c, i - 1);
    }
}

proof fn lemma_index_of_missing(s: Seq<char>, c: char)
    requires
        forall|k: int| 0 <= k < s.len() ==> s[k] != c,
    ensures
        spec_index_of(s, c) == -1,
    decreases s.len(),
{
    if s.len() > 0 {
        assert forall|k: int| 0 <= k < s.skip(1).len() implies s.skip(1)[k] != c by {
            assert(s.skip(1)[k] == s[k + 1]);
        }
        lemma_index_of_missing(s.skip(1), c);
    }
}

/// First index of `c` in `s`, as an executable search.
pub fn index_of_char(s: &str, c: char) -> (r: Option<usize>)
    ensures
        match r {
            Some(i) => i == spec_index_of(s@, c),
            None => spec_index_of(s@, c) == -1,
        },
{
    let n = s.unicode_len();
    let mut i: usize = 0;
    while i < n
        invariant
            i <= n,
            n == s@.len(),
            forall|k: int| 0 <= k < i ==> s@[k] != c,
        decreases n - i,
    {
        if s.get_char(i) == c {
            proof {
                lemma_index_of_at(s@, c, i as int);
            }
            return Some(i);
        }
        i = i + 1;
    }
    proof {
        lemma_index_of_missing(s@, c);
    }
    None
}

/// `p` occurs in `s` starting at position `i`.
pub open spec fn spec_match_at(s: Seq<char>, p: Seq<char>, i: int) -> bool {
    0 <= i && i + p.len() <= s.len() && s.subrange(i, i + p.len()) == p
}

/// Index of the first occurrence of `p` in `s`, or `-1`.
pub open spec fn spec_find_sub(s: Seq<char>, p: Seq<char>) -> int
    decreases s.len(),
{
    if s.len() < p.len() {
        -1
    } else if s.take(p.len() as int) == p {
        0
    } else if s.len() == 0 {
        -1
    } else {
        let r = spec_find_sub(s.skip(1), p);
        if r < 0 {
            -1
        } else {
            r + 1
        }
    }
}

pub proof fn lemma_find_sub_props(s: Seq<char>, p: Seq<char>)
    ensures
        spec_find_sub(s, p) >= 0 ==> spec_match_at(s, p, spec_find_sub(s, p)) && forall|j: int|
            0 <= j < spec_find_sub(s, p) ==> !spec_match_at(s, p, j),
        spec_find_sub(s, p) < 0 ==> forall|j: int| !spec_match_at(s, p, j),
    decreases s.len(),
{
    if s.len() < p.len() {
        assert forall|j: int| !spec_match_at(s, p, j) by {}
    } else if s.take(p.len() as int) == p {
        assert(s.subrange(0, p.len() as int) =~= s.take(p.len() as int));
    } else if s.len() == 0 {
        assert(s.take(p.len() as int) =~= p);
    } else {
        lemma_find_sub_props(s.skip(1), p);
        let r = spec_find_sub(s.skip(1), p);
        assert(!spec_match_at(s, p, 0)) by {
            assert(s.subrange(0, p.len() as int) =~= s.take(p.len() as int));
        }
        if r < 0 {
            assert forall|j: int| !spec_match_at(s, p, j) by {
                if j > 0 && spec_match_at(s, p, j) {
                    assert(s.skip(1).subrange(j - 1, j - 1 + p.len()) =~= s.subrange(
                        j,
                        j + p.len(),
                    ));
                    assert(spec_match_at(s.skip(1), p, j - 1));
                }
            }
        } else {
            assert(s.subrange(r + 1, r + 1 + p.len()) =~= s.skip(1).subrange(r, r + p.len()));
            assert forall|j: int| 0 <= j < r + 1 implies !spec_match_at(s, p, j) by {
                if j > 0 && spec_match_at(s, p, j) {
                    assert(s.skip(1).subrange(j - 1, j - 1 + p.len()) =~= s.subrange(
                        j,
                        j + p.len(),
                    ));
                    assert(spec_match_at(s.skip(1), p, j - 1));
                }
            }
        }
    }
}

proof fn lemma_find_sub_at(s: Seq<char>, p: Seq<char>, i: int)
    requires
        spec_match_at(s, p, i),
        forall|j: int| 0 <= j < i ==> !spec_match_at(s, p, j),
    ensures
        spec_find_sub(s, p) == i,
    decreases i,
{
    if i == 0 {
        assert(s.take(p.len() as int) =~= s.subrange(0, p.len() as int));
    } else {
        assert(!spec_match_at(s, p, 0));
        assert(s.take(p.len() as int) != p) by {
            assert(s.take(p.len() as int) =~= s.subrange(0, p.len() as int));
        }
        assert(spec_match_at(s.skip(1), p, i - 1)) by {
            assert(s.skip(1).subrange(i - 1, i - 1 + p.len()) =~= s.subrange(i, i + p.len()));
        }
        assert forall|j: int| 0 <= j < i - 1 implies !spec_match_at(s.skip(1), p, j) by {
            if spec_match_at(s.skip(1), p, j) {
                assert(s.subrange(j + 1, j + 1 + p.len()) =~= s.skip(1).subrange(j, j + p.len()));
                assert(spec_match_at(s, p, j + 1));
            }
        }
        lemma_find_sub_at(s.skip(1), p, i - 1);
    }
}

proof fn lemma_find_sub_missing(s: Seq<char>, p: Seq<char>)
    requires
        forall|j: int| !spec_match_at(s, p, j),
    ensures
        spec_find_sub(s, p) == -1,
    decreases s.len(),
{
    if s.len() < p.len() {
    } else if s.take(p.len() as int) == p {
        assert(spec_match_at(s, p, 0)) by {
            assert(s.subrange(0, p.len() as int) =~= s.take(p.len() as int));
        }
    } else if s.len() == 0 {
    } else {
        assert forall|j: int| !spec_match_at(s.skip(1), p, j) by {
            if 0 <= j && spec_match_at(s.skip(1), p, j) {
                assert(s.subrange(j + 1, j + 1 + p.len()) =~= s.skip(1).subrange(j, j + p.len()));
                assert(spec_match_at(s, p, j + 1));
            }
        }
        lemma_find_sub_missing(s.skip(1), p);
    }
}

/// Whether `p` occurs at position `i` of `s`, executably.
fn match_at(s: &str, p: &str, i: usize) -> (r: bool)
    requires
        i + p@.len() <= s@.len(),
    ensures
        r == spec_match_at(s@, p@, i as int),
{
    let n = s.unicode_len();
    let m = p.unicode_len();
    let mut j: usize = 0;
    while j < m
        invariant
            j <= m,
            m == p@.len(),
            n == s@.len(),
            i + m <= n,
            forall|k: int| 0 <= k < j ==> s@[i + k] == p@[k],
        decreases m - j,
    {
        if s.get_char(i + j) != p.get_char(j) {
            proof {
                assert(s@.subrange(i as int, i + p@.len())[j as int] != p@[j as int]);
            }
            return false;
        }
        j = j + 1;
    }
    proof {
        assert(s@.subrange(i as int, i + p@.len()) =~= p@);
    }
    true
}

/// First occurrence of the substring `p` in `s`.
#[verifier::loop_isolation(false)]
pub fn find_sub(s: &str, p: &str) -> (r: Option<usize>)
    ensures
        match r {
            Some(i) => i == spec_find_sub(s@, p@),
            None => spec_find_sub(s@, p@) == -1,
        },
{
    let n = s.unicode_len();
    let m = p.unicode_len();
    if m > n {
        proof {
            lemma_find_sub_missing(s@, p@);
        }
        return None;
    }
    if m == 0 {
        proof {
            assert(s@.take(0) =~= p@);
        }
        return Some(0);
    }
    let mut i: usize = 0;
    while i <= n - m
        invariant
            m <= n,
            n == s@.len(),
            m == p@.len(),
            i <= n - m + 1,
            forall|j: int| 0 <= j < i ==> !spec_match_at(s@, p@, j),
        decreases n - m - i + 1,
    {
        if match_at(s, p, i) {
            proof {
                lemma_find_sub_at(s@, p@, i as int);
            }
            return Some(i);
        }
        i = i + 1;
    }
    proof {
        assert forall|j: int| !spec_match_at(s@, p@, j) by {
            if 0 <= j && j + p@.len() <= s@.len() {
                assert(j < i);
            }
        }
        lemma_find_sub_missing(s@, p@);
    }
    None
}

/// Whether `p` occurs anywhere in `s`.
pub fn contains_sub(s: &str, p: &str) -> (r: bool)
    ensures
        r == (spec_find_sub(s@, p@) >= 0),
{
    match find_sub(s, p) {
        Some(_) => true,
        None => false,
    }
}

} // verus!

verus! {

/// The pieces of `s` between occurrences of the separator `c`.
///
/// There is always at least one piece; the separator itself appears in none
/// of them.
pub open spec fn spec_split_char(s: Seq<char>, c: char) -> Seq<Seq<char>>
    decreases s.len(),
{
    let i = spec_index_of(s, c);
    if 0 <= i && i < s.len() {
        seq![s.take(i)] + spec_split_char(s.skip(i + 1), c)
    } else {
        seq![s]
    }
}

pub fn split_char(s: &str, c: char) -> (parts: Vec<String>)
    ensures
        views(parts@) == spec_split_char(s@, c),
        parts@.len() >= 1,
    decreases s@.len(),
{
    let n = s.unicode_len();
    match index_of_char(s, c) {
        None => {
            let mut parts: Vec<String> = Vec::new();
            parts.push(s.to_owned());
            proof {
                assert(views(parts@) =~= seq![s@]);
            }
            parts
        },
        Some(i) => {
            proof {
                lemma_index_of_props(s@, c);
            }
            let head = s.substring_char(0, i).to_owned();
            let tail = s.substring_char(i + 1, n);
            let mut parts = split_char(tail, c);
            parts.insert(0, head);
            proof {
                assert(head@ =~= s@.take(i as int));
                assert(tail@ =~= s@.skip(i + 1));
                assert(views(parts@) =~= seq![s@.take(i as int)] + spec_split_char(
                    s@.skip(i + 1),
                    c,
                ));
            }
            parts
        },
    }
}

/// Split at the first occurrence of `p`, if any.
pub fn splitn2(s: &str, p: &str) -> (r: Option<(String, String)>)
    ensures
        match r {
            Some(pair) => {
                let i = spec_find_sub(s@, p@);
                i >= 0 && pair.0@ == s@.take(i) && pair.1@ == s@.skip(i + p@.len())
            },
            None => spec_find_sub(s@, p@) < 0,
        },
{
    let n = s.unicode_len();
    let m = p.unicode_len();
    match find_sub(s, p) {
        None => None,
        Some(i) => {
            proof {
                lemma_find_sub_props(s@, p@);
            }
            let left = s.substring_char(0, i).to_owned();
            let right = s.substring_char(i + m, n).to_owned();
            proof {
                assert(left@ =~= s@.take(i as int));
                assert(right@ =~= s@.skip(i + p@.len()));
            }
            Some((left, right))
        },
    }
}

/// A line with one trailing carriage return removed.
pub open spec fn spec_strip_cr(t: Seq<char>) -> Seq<char> {
    if t.len() > 0 && t[t.len() - 1] == '\r' {
        t.take(t.len() - 1)
    } else {
        t
    }
}

/// The lines of `s`, in the manner of `str::lines`: pieces between newline
/// characters, without a final empty piece, each with one trailing carriage
/// return removed.
pub open spec fn spec_lines(s: Seq<char>) -> Seq<Seq<char>> {
    if s.len() == 0 {
        Seq::empty()
    } else {
        let ps = spec_split_char(s, '\n');
        let kept = if ps[ps.len() - 1].len() == 0 {
            ps.drop_last()
        } else {
            ps
        };
        kept.map_values(|t: Seq<char>| spec_strip_cr(t))
    }
}

#[verifier::loop_isolation(false)]
pub fn lines_of(s: &str) -> (r: Vec<String>)
    ensures
        views(r@) == spec_lines(s@),
{
    let n = s.unicode_len();
    if n == 0 {
        let r: Vec<String> = Vec::new();
        proof {
            assert(views(r@) =~= spec_lines(s@));
        }
        return r;
    }
    let mut parts = split_char(s, '\n');
    let last = parts.len() - 1;
    if parts[last].as_str().unicode_len() == 0 {
        parts.pop();
        proof {
            assert(views(parts@) =~= spec_split_char(s@, '\n').drop_last());
        }
    }
    let mut out: Vec<String> = Vec::new();
    let ghost kept = views(parts@);
    let mut i: usize = 0;
    while i < parts.len()
        invariant
            i <= parts@.len(),
            kept == views(parts@),
            out@.len() == i,
            forall|k: int| 0 <= k < i ==> views(out@)[k] == spec_strip_cr(kept[k]),
        decreases parts@.len() - i,
    {
        let line = &parts[i];
        let ghost out_prev = out@;
        let ln = line.as_str().unicode_len();
        if ln > 0 && line.as_str().get_char(ln - 1) == '\r' {
            out.push(line.as_str().substring_char(0, ln - 1).to_owned());
            proof {
                assert(views(out@)[i as int] == out@[i as int]@);
                assert(out@[i as int]@ =~= line@.take(ln - 1));
                assert(kept[i as int] == parts@[i as int]@);
                assert(views(out@)[i as int] == spec_strip_cr(kept[i as int]));
                assert forall|k: int| 0 <= k < i implies views(out@)[k] == spec_strip_cr(
                    kept[k],
                ) by {
                    assert(views(out_prev)[k] == out_prev[k]@);
                    assert(views(out@)[k] == out@[k]@);
                }
            }
        } else {
            out.push(line.clone());
            proof {
                assert(views(out@)[i as int] == out@[i as int]@);
                assert(kept[i as int] == parts@[i as int]@);
                assert(views(out@)[i as int] == spec_strip_cr(kept[i as int]));
                assert forall|k: int| 0 <= k < i implies views(out@)[k] == spec_strip_cr(
                    kept[k],
                ) by {
                    assert(views(out_prev)[k] == out_prev[k]@);
                    assert(views(out@)[k] == out@[k]@);
                }
            }
        }
        i = i + 1;
    }
    proof {
        assert(views(out@) =~= kept.map_values(|t: Seq<char>| spec_strip_cr(t)));
    }
    out
}

/// Index of the first whitespace character of `s`, or `-1`.
pub open spec fn spec_first_space(s: Seq<char>) -> int
    decreases s.len(),
{
    if s.len() == 0 {
        -1
    } else if is_space(s[0]) {
        0
    } else {
        let r = spec_first_space(s.skip(1));
        if r < 0 {
            -1
        } else {
            r + 1
        }
    }
}

pub proof fn lemma_first_space_props(s: Seq<char>)
    ensures
        spec_first_space(s) >= 0 ==> spec_first_space(s) < s.len() && is_space(
            s[spec_first_space(s)],
        ) && forall|k: int| 0 <= k < spec_first_space(s) ==> !is_space(#[trigger] s[k]),
        spec_first_space(s) < 0 ==> forall|k: int| 0 <= k < s.len() ==> !is_space(#[trigger] s[k]),
    decreases s.len(),
{
    if s.len() == 0 {
    } else if is_space(s[0]) {
    } else {
        lemma_first_space_props(s.skip(1));
        let r = spec_first_space(s.skip(1));
        if r < 0 {
            assert forall|k: int| 0 <= k < s.len() implies !is_space(#[trigger] s[k]) by {
                if k > 0 {
                    assert(s.skip(1)[k - 1] == s[k]);
                }
            }
        } else {
            assert(s[r + 1] == s.skip(1)[r]);
            assert forall|k: int| 0 <= k < r + 1 implies !is_space(#[trigger] s[k]) by {
                if k > 0 {
                    assert(s.skip(1)[k - 1] == s[k]);
                }
            }
        }
    }
}

proof fn lemma_first_space_at(s: Seq<char>, i: int)
    requires
        0 <= i < s.len(),
        is_space(s[i]),
        forall|k: int| 0 <= k < i ==> !is_space(#[trigger] s[k]),
    ensures
        spec_first_space(s) == i,
    decreases i,
{
    if i == 0 {
    } else {
        assert(!is_space(s[0]));
        assert(s.skip(1)[i - 1] == s[i]);
        assert forall|k: int| 0 <= k < i - 1 implies !is_space(#[trigger] s.skip(1)[k]) by {
            assert(s.skip(1)[k] == s[k + 1]);
        }
        lemma_first_space_at(s.skip(1), i - 1);
    }
}

proof fn lemma_first_space_missing(s: Seq<char>)
    requires
        forall|k: int| 0 <= k < s.len() ==> !is_space(#[trigger] s[k]),
    ensures
        spec_first_space(s) == -1,
    decreases s.len(),
{
    if s.len() > 0 {
        assert forall|k: int| 0 <= k < s.skip(1).len() implies !is_space(
            #[trigger] s.skip(1)[k],
        ) by {
            assert(s.skip(1)[k] == s[k + 1]);
        }
        lemma_first_space_missing(s.skip(1));
    }
}

fn first_space_index(s: &str) -> (r: Option<usize>)
    ensures
        match r {
            Some(i) => i == spec_first_space(s@),
            None => spec_first_space(s@) == -1,
        },
{
    let n = s.unicode_len();
    let mut i: usize = 0;
    while i < n
        invariant
            i <= n,
            n == s@.len(),
            forall|k: int| 0 <= k < i ==> !is_space(#[trigger] s@[k]),
        decreases n - i,
    {
        if is_space_char(s.get_char(i)) {
            proof {
                lemma_first_space_at(s@, i as int);
            }
            return Some(i);
        }
        i = i + 1;
    }
    proof {
        lemma_first_space_missing(s@);
    }
    None
}

/// The maximal whitespace-free words of `s`, in order.
pub open spec fn spec_split_ws(s: Seq<char>) -> Seq<Seq<char>>
    decreases s.len(),
{
    if s.len() == 0 {
        Seq::empty()
    } else if is_space(s[0]) {
        spec_split_ws(s.skip(1))
    } else {
        let w = spec_first_space(s);
        let wl = if 1 <= w && w <= s.len() {
            w
        } else {
            s.len() as int
        };
        seq![s.take(wl)] + spec_split_ws(s.skip(wl))
    }
}

pub fn split_ws(s: &str) -> (parts: Vec<String>)
    ensures
        views(parts@) == spec_split_ws(s@),
    decreases s@.len(),
{
    let n = s.unicode_len();
    if n == 0 {
        let parts: Vec<String> = Vec::new();
        proof {
            assert(views(parts@) =~= spec_split_ws(s@));
        }
        return parts;
    }
    if is_space_char(s.get_char(0)) {
        let rest = s.substring_char(1, n);
        proof {
            assert(rest@ =~= s@.skip(1));
        }
        return split_ws(rest);
    }
    proof {
        lemma_first_space_props(s@);
    }
    let w = match first_space_index(s) {
        Some(w) => w,
        None => n,
    };
    let head = s.substring_char(0, w).to_owned();
    let tail = s.substring_char(w, n);
    let mut parts = split_ws(tail);
    parts.insert(0, head);
    proof {
        let wl = if 1 <= spec_first_space(s@) && spec_first_space(s@) <= s@.len() {
            spec_first_space(s@)
        } else {
            s@.len() as int
        };
        assert(w == wl);
        assert(head@ =~= s@.take(wl));
        assert(tail@ =~= s@.skip(wl));
        assert(views(parts@) =~= seq![s@.take(wl)] + spec_split_ws(s@.skip(wl)));
    }
    parts
}

/// The pieces joined with `sep` between consecutive pieces.
pub open spec fn spec_join(ps: Seq<Seq<char>>, sep: Seq<char>) -> Seq<char>
    decreases ps.len(),
{
    if ps.len() == 0 {
        Seq::empty()
    } else if ps.len() == 1 {
        ps[0]
    } else {
        ps[0] + sep + spec_join(ps.skip(1), sep)
    }
}

pub proof fn lemma_join_push(ps: Seq<Seq<char>>, sep: Seq<char>, x: Seq<char>)
    ensures
        spec_join(ps.push(x), sep) == if ps.len() == 0 {
            x
        } else {
            spec_join(ps, sep) + sep + x
        },
    decreases ps.len(),
{
    if ps.len() == 0 {
        assert(ps.push(x)[0] == x);
    } else if ps.len() == 1 {
        assert(ps.push(x)[0] == ps[0]);
        assert(ps.push(x).skip(1) =~= seq![x]);
        assert(spec_join(seq![x], sep) == x);
    } else {
        assert(ps.push(x).skip(1) =~= ps.skip(1).push(x));
        lemma_join_push(ps.skip(1), sep, x);
        assert(ps.push(x)[0] == ps[0]);
    }
}

/// Join owned strings with a separator.
#[verifier::loop_isolation(false)]
pub fn join_with(parts: &Vec<String>, sep: &str) -> (r: String)
    ensures
        r@ == spec_join(views(parts@), sep@),
{
    let mut r = String::new();
    let mut i: usize = 0;
    while i < parts.len()
        invariant
            i <= parts@.len(),
            r@ == spec_join(views(parts@).take(i as int), sep@),
        decreases parts@.len() - i,
    {
        proof {
            lemma_join_push(views(parts@).take(i as int), sep@, parts@[i as int]@);
            assert(views(parts@).take(i as int).push(parts@[i as int]@) =~= views(parts@).take(
                i as int + 1,
            ));
        }
        if i > 0 {
            r.append(sep);
        }
        r.append(parts[i].as_str());
        i = i + 1;
    }
    proof {
        assert(views(parts@).take(parts@.len() as int) =~= views(parts@));
    }
    r
}

/// `s` with every occurrence of `p` replaced by `r`, scanning left to right.
pub open spec fn spec_replace_all(s: Seq<char>, p: Seq<char>, r: Seq<char>) -> Seq<char>
    decreases s.len(),
{
    let i = spec_find_sub(s, p);
    if p.len() == 0 || i < 0 {
        s
    } else if 0 <= i && i + p.len() <= s.len() {
        s.take(i) + r + spec_replace_all(s.skip(i + p.len()), p, r)
    } else {
        s
    }
}

pub fn replace_all(s: &str, p: &str, r: &str) -> (out: String)
    ensures
        out@ == spec_replace_all(s@, p@, r@),
    decreases s@.len(),
{
    let n = s.unicode_len();
    let m = p.unicode_len();
    if m == 0 {
        return s.to_owned();
    }
    match find_sub(s, p) {
        None => s.to_owned(),
        Some(i) => {
            proof {
                lemma_find_sub_props(s@, p@);
            }
            let mut out = s.substring_char(0, i).to_owned();
            out.append(r);
            let rest = replace_all(s.substring_char(i + m, n), p, r);
            out.append(rest.as_str());
            proof {
                assert(s@.subrange(0, i as int) =~= s@.take(i as int));
                assert(s@.subrange(i + m, n as int) =~= s@.skip(i + p@.len()));
            }
            out
        },
    }
}

} // verus!

verus! {

/// The decimal digit character for `d` (0 through 9).
pub open spec fn spec_digit_char(d: int) -> char {
    if d == 0 {
        '0'
    } else if d == 1 {
        '1'
    } else if d == 2 {
        '2'
    } else if d == 3 {
        '3'
    } else if d == 4 {
        '4'
    } else if d == 5 {
        '5'
    } else if d == 6 {
        '6'
    } else if d == 7 {
        '7'
    } else if d == 8 {
        '8'
    } else {
        '9'
    }
}

/// The numeric value of a digit character, or `-1`.
pub open spec fn spec_char_digit(c: char) -> int {
    if c == '0' {
        0
    } else if c == '1' {
        1
    } else if c == '2' {
        2
    } else if c == '3' {
        3
    } else if c == '4' {
        4
    } else if c == '5' {
        5
    } else if c == '6' {
        6
    } else if c == '7' {
        7
    } else if c == '8' {
        8
    } else if c == '9' {
        9
    } else {
        -1
    }
}

/// `s` is one or more decimal digit characters.
pub open spec fn spec_is_digits(s: Seq<char>) -> bool {
    s.len() > 0 && forall|k: int| 0 <= k < s.len() ==> spec_char_digit(#[trigger] s[k]) >= 0
}

/// The value of a digit string, read left to right.
pub open spec fn spec_digits_val(s: Seq<char>) -> int
    decreases s.len(),
{
    if s.len() == 0 {
        0
    } else {
        let d = spec_char_digit(s[s.len() - 1]);
        spec_digits_val(s.take(s.len() - 1)) * 10 + (if d < 0 {
            0
        } else {
            d
        })
    }
}

proof fn lemma_digits_val_nonneg(s: Seq<char>)
    ensures
        spec_digits_val(s) >= 0,
    decreases s.len(),
{
    if s.len() > 0 {
        lemma_digits_val_nonneg(s.take(s.len() - 1));
    }
}

proof fn lemma_digits_val_mono(s: Seq<char>, k: int)
    requires
        0 <= k <= s.len(),
    ensures
        spec_digits_val(s.take(k)) <= spec_digits_val(s),
    decreases s.len() - k,
{
    if k < s.len() {
        lemma_digits_val_mono(s.take(s.len() - 1), k);
        assert(s.take(s.len() - 1).take(k) =~= s.take(k));
        lemma_digits_val_nonneg(s.take(s.len() - 1));
    } else {
        assert(s.take(k) =~= s);
    }
}

/// The digit part of an integer literal: what follows one leading sign.
pub open spec fn spec_digits_part(s: Seq<char>) -> Seq<char> {
    if s.len() > 0 && (s[0] == '+' || s[0] == '-') {
        s.skip(1)
    } else {
        s
    }
}

/// The literal carries a leading minus sign.
pub open spec fn spec_is_negative(s: Seq<char>) -> bool {
    s.len() > 0 && s[0] == '-'
}

/// The signed value described by an integer literal, meaningful only when the
/// digit part is valid.
pub open spec fn spec_int_of(s: Seq<char>) -> int {
    if spec_is_negative(s) {
        -spec_digits_val(spec_digits_part(s))
    } else {
        spec_digits_val(spec_digits_part(s))
    }
}

/// The literal is well formed: an optional sign followed by digits only.
pub open spec fn spec_is_int_literal(s: Seq<char>) -> bool {
    spec_is_digits(spec_digits_part(s))
}

pub open spec fn spec_parse_u64(s: Seq<char>) -> Option<u64> {
    if spec_is_int_literal(s) && !spec_is_negative(s) && spec_int_of(s) <= u64::MAX {
        Some(spec_int_of(s) as u64)
    } else {
        None
    }
}

pub open spec fn spec_parse_usize(s: Seq<char>) -> Option<usize> {
    if spec_is_int_literal(s) && !spec_is_negative(s) && spec_int_of(s) <= usize::MAX {
        Some(spec_int_of(s) as usize)
    } else {
        None
    }
}

pub open spec fn spec_parse_i64(s: Seq<char>) -> Option<i64> {
    if spec_is_int_literal(s) && i64::MIN <= spec_int_of(s) <= i64::MAX {
        Some(spec_int_of(s) as i64)
    } else {
        None
    }
}

pub open spec fn spec_parse_i32(s: Seq<char>) -> Option<i32> {
    if spec_is_int_literal(s) && i32::MIN <= spec_int_of(s) <= i32::MAX {
        Some(spec_int_of(s) as i32)
    } else {
        None
    }
}

/// The numeric value of one digit character.
fn char_digit(c: char) -> (r: i32)
    ensures
        r == spec_char_digit(c),
{
    if c == '0' {
        0
    } else if c == '1' {
        1
    } else if c == '2' {
        2
    } else if c == '3' {
        3
    } else if c == '4' {
        4
    } else if c == '5' {
        5
    } else if c == '6' {
        6
    } else if c == '7' {
        7
    } else if c == '8' {
        8
    } else if c == '9' {
        9
    } else {
        -1
    }
}

/// Reads the digit run of `s` starting at `start` as an unsigned value.
#[verifier::loop_isolation(false)]
fn parse_digits(s: &str, start: usize) -> (r: Option<u64>)
    requires
        start <= s@.len(),
    ensures
        ({
            let d = s@.skip(start as int);
            r == (if spec_is_digits(d) && spec_digits_val(d) <= u64::MAX {
                Some(spec_digits_val(d) as u64)
            } else {
                None::<u64>
            })
        }),
{
    let ghost d = s@.skip(start as int);
    let n = s.unicode_len();
    if start == n {
        return None;
    }
    let mut acc: u64 = 0;
    let mut i: usize = start;
    while i < n
        invariant
            start <= i <= n,
            acc == spec_digits_val(d.take(i - start)),
            forall|k: int| 0 <= k < i - start ==> spec_char_digit(#[trigger] d[k]) >= 0,
        decreases n - i,
    {
        let c = s.get_char(i);
        proof {
            assert(d[i - start] == s@[i as int]);
        }
        let dv = char_digit(c);
        if dv < 0 {
            proof {
                assert(!spec_is_digits(d));
            }
            return None;
        }
        let dv64: u64 = dv as u64;
        proof {
            assert(d.take(i - start + 1).take(i - start) =~= d.take(i - start));
            assert(d.take(i - start + 1)[i - start] == d[i - start]);
        }
        if acc >= 1844674407370955162 || (acc == 1844674407370955161 && dv64 > 5) {
            proof {
                assert(spec_digits_val(d.take(i - start + 1)) == acc * 10 + dv64);
                assert(spec_digits_val(d.take(i - start + 1)) > u64::MAX);
                if spec_is_digits(d) {
                    lemma_digits_val_mono(d, i - start + 1);
                }
            }
            return None;
        }
        acc = acc * 10 + dv64;
        i = i + 1;
    }
    proof {
        assert(d.take(n - start) =~= d);
    }
    Some(acc)
}

pub fn parse_u64(s: &str) -> (r: Option<u64>)
    ensures
        r == spec_parse_u64(s@),
{
    let n = s.unicode_len();
    if n == 0 {
        return None;
    }
    let c0 = s.get_char(0);
    if c0 == '-' {
        proof {
            lemma_digits_val_nonneg(spec_digits_part(s@));
        }
        return None;
    }
    let start: usize = if c0 == '+' {
        1
    } else {
        0
    };
    proof {
        assert(spec_digits_part(s@) =~= s@.skip(start as int));
    }
    parse_digits(s, start)
}

pub fn parse_usize(s: &str) -> (r: Option<usize>)
    ensures
        r == spec_parse_usize(s@),
{
    proof {
        assert(usize::MAX as nat <= u64::MAX as nat);
        lemma_digits_val_nonneg(spec_digits_part(s@));
    }
    match parse_u64(s) {
        None => {
            proof {
                assert(spec_parse_u64(s@) is None);
                assert(spec_int_of(s@) <= usize::MAX ==> spec_int_of(s@) <= u64::MAX);
                assert(spec_parse_usize(s@) is None);
            }
            None
        },
        Some(v) => {
            if v <= usize::MAX as u64 {
                proof {
                    assert(spec_parse_usize(s@) == Some(spec_int_of(s@) as usize));
                    assert(v as usize == spec_int_of(s@) as usize);
                }
                Some(v as usize)
            } else {
                None
            }
        },
    }
}

pub fn parse_i64(s: &str) -> (r: Option<i64>)
    ensures
        r == spec_parse_i64(s@),
{
    let n = s.unicode_len();
    if n == 0 {
        return None;
    }
    let c0 = s.get_char(0);
    let neg = c0 == '-';
    let start: usize = if c0 == '+' || c0 == '-' {
        1
    } else {
        0
    };
    proof {
        assert(spec_digits_part(s@) =~= s@.skip(start as int));
        lemma_digits_val_nonneg(spec_digits_part(s@));
    }
    match parse_digits(s, start) {
        None => None,
        Some(mag) => {
            if neg {
                if mag > 9223372036854775808 {
                    None
                } else if mag == 9223372036854775808 {
                    Some(i64::MIN)
                } else {
                    Some(-(mag as i64))
                }
            } else {
                if mag > i64::MAX as u64 {
                    None
                } else {
                    Some(mag as i64)
                }
            }
        },
    }
}

pub fn parse_i32(s: &str) -> (r: Option<i32>)
    ensures
        r == spec_parse_i32(s@),
{
    match parse_i64(s) {
        None => None,
        Some(v) => {
            if i32::MIN as i64 <= v && v <= i32::MAX as i64 {
                Some(v as i32)
            } else {
                None
            }
        },
    }
}

/// The decimal digits of `n`, most significant first.
pub open spec fn spec_dec(n: int) -> Seq<char>
    decreases n,
{
    if n < 10 {
        seq![spec_digit_char(n)]
    } else {
        spec_dec(n / 10).push(spec_digit_char(n % 10))
    }
}

/// The decimal rendering of a signed integer.
pub open spec fn spec_dec_int(v: int) -> Seq<char> {
    if v < 0 {
        seq!['-'] + spec_dec(-v)
    } else {
        spec_dec(v)
    }
}

/// A one-character string for the digit `d`.
fn digit_str(d: u64) -> (r: &'static str)
    requires
        d < 10,
    ensures
        r@ == seq![spec_digit_char(d as int)],
{
    proof {
        reveal_strlit("0");
        reveal_strlit("1");
        reveal_strlit("2");
        reveal_strlit("3");
        reveal_strlit("4");
        reveal_strlit("5");
        reveal_strlit("6");
        reveal_strlit("7");
        reveal_strlit("8");
        reveal_strlit("9");
        assert("0"@ =~= seq!['0']);
        assert("1"@ =~= seq!['1']);
        assert("2"@ =~= seq!['2']);
        assert("3"@ =~= seq!['3']);
        assert("4"@ =~= seq!['4']);
        assert("5"@ =~= seq!['5']);
        assert("6"@ =~= seq!['6']);
        assert("7"@ =~= seq!['7']);
        assert("8"@ =~= seq!['8']);
        assert("9"@ =~= seq!['9']);
    }
    if d == 0 {
        "0"
    } else if d == 1 {
        "1"
    } else if d == 2 {
        "2"
    } else if d == 3 {
        "3"
    } else if d == 4 {
        "4"
    } else if d == 5 {
        "5"
    } else if d == 6 {
        "6"
    } else if d == 7 {
        "7"
    } else if d == 8 {
        "8"
    } else {
        "9"
    }
}

/// Decimal rendering of an unsigned value.
pub fn u64_to_dec(n: u64) -> (r: String)
    ensures
        r@ == spec_dec(n as int),
    decreases n,
{
    if n < 10 {
        digit_str(n).to_owned()
    } else {
        let mut r = u64_to_dec(n / 10);
        r.append(digit_str(n % 10));
        proof {
            assert(spec_dec(n as int / 10).push(spec_digit_char(n as int % 10)) =~= spec_dec(
                n as int / 10,
            ) + seq![spec_digit_char(n as int % 10)]);
        }
        r
    }
}

/// Decimal rendering of a signed value.
pub fn i64_to_dec(v: i64) -> (r: String)
    ensures
        r@ == spec_dec_int(v as int),
{
    if v >= 0 {
        u64_to_dec(v as u64)
    } else {
        let mag: u64 = if v == i64::MIN {
            9223372036854775808
        } else {
            (-v) as u64
        };
        let mut r = String::new();
        proof {
            reveal_strlit("-");
            assert("-"@ =~= seq!['-']);
        }
        r.append("-");
        let digits = u64_to_dec(mag);
        r.append(digits.as_str());
        r
    }
}

pub fn usize_to_dec(n: usize) -> (r: String)
    ensures
        r@ == spec_dec(n as int),
{
    u64_to_dec(n as u64)
}

pub fn i32_to_dec(v: i32) -> (r: String)
    ensures
        r@ == spec_dec_int(v as int),
{
    i64_to_dec(v as i64)
}

} // verus!

verus! {

/// An owned copy of `args[from..to]`.
#[verifier::loop_isolation(false)]
pub fn copy_range(args: &[String], from: usize, to: usize) -> (r: Vec<String>)
    requires
        from <= to <= args@.len(),
    ensures
        views(r@) == views(args@).subrange(from as int, to as int),
{
    let mut r: Vec<String> = Vec::new();
    let mut i: usize = from;
    while i < to
        invariant
            from <= i <= to,
            views(r@) =~= views(args@).subrange(from as int, i as int),
        decreases to - i,
    {
        let ghost prev = r@;
        r.push(args[i].clone());
        proof {
            assert(views(r@) =~= views(prev).push(args@[i as int]@));
            assert(views(args@).subrange(from as int, i as int).push(views(args@)[i as int])
                =~= views(args@).subrange(from as int, i as int + 1));
            assert(views(args@)[i as int] == args@[i as int]@);
        }
        i = i + 1;
    }
    proof {
        assert(views(r@) =~= views(args@).subrange(from as int, to as int));
    }
    r
}

} // verus!

verus! {

/// Decimal rendering of an unsigned 128-bit value.
pub fn u128_to_dec(n: u128) -> (r: String)
    ensures
        r@ == spec_dec(n as int),
    decreases n,
{
    if n < 10 {
        digit_str((n % 10) as u64).to_owned()
    } else {
        let mut r = u128_to_dec(n / 10);
        r.append(digit_str((n % 10) as u64));
        proof {
            assert(spec_dec(n as int / 10).push(spec_digit_char(n as int % 10)) =~= spec_dec(
                n as int / 10,
            ) + seq![spec_digit_char(n as int % 10)]);
        }
        r
    }
}

/// Decimal rendering of a signed 128-bit value.
pub fn i128_to_dec(v: i128) -> (r: String)
    ensures
        r@ == spec_dec_int(v as int),
{
    if v >= 0 {
        u128_to_dec(v as u128)
    } else {
        let mag: u128 = if v == i128::MIN {
            170141183460469231731687303715884105728
        } else {
            (-v) as u128
        };
        let mut r = String::new();
        proof {
            reveal_strlit("-");
            assert("-"@ =~= seq!['-']);
        }
        r.append("-");
        let digits = u128_to_dec(mag);
        r.append(digits.as_str());
        r
    }
}

} // verus!
