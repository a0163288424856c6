//! The argument-quoting rules shared by every converter.
//!
//! A value embedded in generated script text is wrapped in double quotes,
//! with interior double quotes backslash-escaped, if and only if it contains
//! a character that would change its meaning unquoted.  The converters use a
//! few variants of the rule that differ only in which characters force
//! quoting; all of them leave a value that is already a double-quoted form
//! untouched, so re-quoting never escapes twice.
//!
//! One deliberate addition to the if-and-only-if rule: the **empty string**
//! is always quoted.  Unquoted it would vanish from the generated text and
//! leave a dangling separator space, so every converter's output would end
//! in whitespace whenever the last argument is empty; rendering it as `""`
//! keeps the totality property (non-empty, trimmed output) intact.

use crate::text::{chars_to_string, contains_char, contains_space, is_space, join_with};
use vstd::prelude::*;

verus! {

/// `s` with every interior double quote preceded by a backslash.
pub open spec fn spec_escape_quotes(s: Seq<char>) -> Seq<char>
    decreases s.len(),
{
    if s.len() == 0 {
        s
    } else {
        let head: Seq<char> = if s[0] == '"' {
            seq!['\\', '"']
        } else {
            seq![s[0]]
        };
        head + spec_escape_quotes(s.skip(1))
    }
}

/// The double-quoted, escaped form of `s`.
pub open spec fn spec_quoted(s: Seq<char>) -> Seq<char> {
    seq!['"'] + spec_escape_quotes(s) + seq!['"']
}

/// `s` already reads as one double-quoted form.
pub open spec fn spec_is_quoted(s: Seq<char>) -> bool {
    s.len() >= 2 && s[0] == '"' && s[s.len() - 1] == '"'
}

/// Characters that force quoting under every rule.
pub open spec fn spec_has_plain_trigger(s: Seq<char>) -> bool {
    exists|k: int|
        0 <= k < s.len() && (is_space(#[trigger] s[k]) || s[k] == '"' || s[k] == '\'' || s[k]
            == '$')
}

/// Glob characters, which additionally force quoting in argument position.
pub open spec fn spec_has_glob_trigger(s: Seq<char>) -> bool {
    exists|k: int| 0 <= k < s.len() && (#[trigger] s[k] == '*' || s[k] == '?')
}

/// Path punctuation, which some converters also quote.
pub open spec fn spec_has_path_trigger(s: Seq<char>) -> bool {
    exists|k: int| 0 <= k < s.len() && (#[trigger] s[k] == '.' || s[k] == '/')
}

pub open spec fn spec_needs_quotes_plain(s: Seq<char>) -> bool {
    s.len() == 0 || spec_has_plain_trigger(s)
}

pub open spec fn spec_needs_quotes_word(s: Seq<char>) -> bool {
    spec_needs_quotes_plain(s) || spec_has_glob_trigger(s)
}

pub open spec fn spec_needs_quotes_path(s: Seq<char>) -> bool {
    spec_needs_quotes_word(s) || spec_has_path_trigger(s)
}

pub open spec fn spec_needs_quotes_entry(s: Seq<char>) -> bool {
    spec_needs_quotes_word(s) || s.contains('/')
}

pub open spec fn spec_quote_with(s: Seq<char>, needs: bool) -> Seq<char> {
    if spec_is_quoted(s) {
        s
    } else if needs {
        spec_quoted(s)
    } else {
        s
    }
}

/// The quoting rule of the conversion dispatcher: spaces, quotes and `$`.
pub open spec fn spec_quote_plain(s: Seq<char>) -> Seq<char> {
    spec_quote_with(s, spec_needs_quotes_plain(s))
}

/// The quoting rule of the conversion tables: also `*` and `?`.
pub open spec fn spec_quote_word(s: Seq<char>) -> Seq<char> {
    spec_quote_with(s, spec_needs_quotes_word(s))
}

/// The rule for file arguments of the file-handling converters: also `.` and `/`.
pub open spec fn spec_quote_path(s: Seq<char>) -> Seq<char> {
    spec_quote_with(s, spec_needs_quotes_path(s))
}

/// The rule for file arguments of `stat`: also `/`.
pub open spec fn spec_quote_entry(s: Seq<char>) -> Seq<char> {
    spec_quote_with(s, spec_needs_quotes_entry(s))
}

/// Unconditional quoting, for values rendered as string literals.
pub open spec fn spec_quote_literal(s: Seq<char>) -> Seq<char> {
    spec_quote_with(s, true)
}

proof fn lemma_escape_push(s: Seq<char>, c: char)
    ensures
        spec_escape_quotes(s.push(c)) == spec_escape_quotes(s) + (if c == '"' {
            seq!['\\', '"']
        } else {
            seq![c]
        }),
    decreases s.len(),
{
    if s.len() == 0 {
        let head: Seq<char> = if c == '"' {
            seq!['\\', '"']
        } else {
            seq![c]
        };
        assert(s.push(c)[0] == c);
        assert(s.push(c).skip(1) =~= Seq::<char>::empty());
        assert(spec_escape_quotes(s.push(c)) == head + spec_escape_quotes(s.push(c).skip(1)));
        assert(spec_escape_quotes(s.push(c).skip(1)) == Seq::<char>::empty());
        assert(head + Seq::<char>::empty() =~= head);
        assert(spec_escape_quotes(s) + head =~= head);
    } else {
        assert(s.push(c)[0] == s[0]);
        assert(s.push(c).skip(1) =~= s.skip(1).push(c));
        lemma_escape_push(s.skip(1), c);
        assert(spec_escape_quotes(s.push(c)) =~= spec_escape_quotes(s) + (if c == '"' {
            seq!['\\', '"']
        } else {
            seq![c]
        }));
    }
}

/// Escape interior double quotes with backslashes.
#[verifier::loop_isolation(false)]
pub fn escape_quotes(s: &str) -> (r: String)
    ensures
        r@ == spec_escape_quotes(s@),
{
    let n = s.unicode_len();
    let mut out: Vec<char> = Vec::new();
    let mut i: usize = 0;
    while i < n
        invariant
            i <= n,
            out@ == spec_escape_quotes(s@.take(i as int)),
        decreases n - i,
    {
        let c = s.get_char(i);
        proof {
            lemma_escape_push(s@.take(i as int), c);
            assert(s@.take(i as int).push(c) =~= s@.take(i as int + 1));
        }
        if c == '"' {
            out.push('\\');
            out.push('"');
        } else {
            out.push(c);
        }
        i = i + 1;
    }
    proof {
        assert(s@.take(n as int) =~= s@);
    }
    chars_to_string(&out)
}

fn is_quoted_form(s: &str) -> (r: bool)
    ensures
        r == spec_is_quoted(s@),
{
    let n = s.unicode_len();
    n >= 2 && s.get_char(0) == '"' && s.get_char(n - 1) == '"'
}

fn quoted_form(s: &str) -> (r: String)
    ensures
        r@ == spec_quoted(s@),
{
    proof {
        reveal_strlit("\"");
        assert("\""@ =~= seq!['"']);
    }
    let mut r: String = "\"".to_owned();
    let esc = escape_quotes(s);
    r.append(esc.as_str());
    r.append("\"");
    r
}

fn has_plain_trigger(s: &str) -> (r: bool)
    ensures
        r == spec_has_plain_trigger(s@),
{
    contains_space(s) || contains_char(s, '"') || contains_char(s, '\'') || contains_char(s, '$')
}

fn has_glob_trigger(s: &str) -> (r: bool)
    ensures
        r == spec_has_glob_trigger(s@),
{
    contains_char(s, '*') || contains_char(s, '?')
}

/// Whether the tables' rule would quote `s`.
pub fn has_word_trigger(s: &str) -> (r: bool)
    ensures
        r == spec_needs_quotes_word(s@),
{
    s.unicode_len() == 0 || has_plain_trigger(s) || has_glob_trigger(s)
}

fn has_path_trigger(s: &str) -> (r: bool)
    ensures
        r == spec_has_path_trigger(s@),
{
    contains_char(s, '.') || contains_char(s, '/')
}

/// Quote under the dispatcher's rule.
pub fn quote_plain(s: &str) -> (r: String)
    ensures
        r@ == spec_quote_plain(s@),
{
    if is_quoted_form(s) {
        s.to_owned()
    } else if s.unicode_len() == 0 || has_plain_trigger(s) {
        quoted_form(s)
    } else {
        s.to_owned()
    }
}

/// Quote under the conversion tables' rule.
pub fn quote_word(s: &str) -> (r: String)
    ensures
        r@ == spec_quote_word(s@),
{
    if is_quoted_form(s) {
        s.to_owned()
    } else if s.unicode_len() == 0 || has_plain_trigger(s) || has_glob_trigger(s) {
        quoted_form(s)
    } else {
        s.to_owned()
    }
}

/// Quote under the file-argument rule.
pub fn quote_path(s: &str) -> (r: String)
    ensures
        r@ == spec_quote_path(s@),
{
    if is_quoted_form(s) {
        s.to_owned()
    } else if s.unicode_len() == 0 || has_plain_trigger(s) || has_glob_trigger(s)
        || has_path_trigger(s) {
        quoted_form(s)
    } else {
        s.to_owned()
    }
}

/// Quote under the rule of `stat`.
pub fn quote_entry(s: &str) -> (r: String)
    ensures
        r@ == spec_quote_entry(s@),
{
    if is_quoted_form(s) {
        s.to_owned()
    } else if s.unicode_len() == 0 || has_plain_trigger(s) || has_glob_trigger(s) || contains_char(
        s,
        '/',
    ) {
        quoted_form(s)
    } else {
        s.to_owned()
    }
}

/// Quote unconditionally, rendering `s` as a string literal.
pub fn quote_literal(s: &str) -> (r: String)
    ensures
        r@ == spec_quote_literal(s@),
{
    if is_quoted_form(s) {
        s.to_owned()
    } else {
        quoted_form(s)
    }
}

/// The views of `args` each quoted under the tables' rule.
pub open spec fn spec_quoted_words(vs: Seq<Seq<char>>) -> Seq<Seq<char>> {
    vs.map_values(|v: Seq<char>| spec_quote_word(v))
}

/// Arguments quoted under the tables' rule and joined with single spaces.
pub open spec fn spec_format_args(vs: Seq<Seq<char>>) -> Seq<char> {
    crate::text::spec_join(spec_quoted_words(vs), seq![' '])
}

/// Quote each argument as needed and join the results with spaces.
#[verifier::loop_isolation(false)]
pub fn format_args(args: &[String]) -> (r: String)
    ensures
        r@ == spec_format_args(crate::text::views(args@)),
{
    let mut quoted: Vec<String> = Vec::new();
    let mut i: usize = 0;
    while i < args.len()
        invariant
            i <= args@.len(),
            crate::text::views(quoted@) =~= spec_quoted_words(
                crate::text::views(args@).take(i as int),
            ),
        decreases args@.len() - i,
    {
        let ghost prev = quoted@;
        quoted.push(quote_word(args[i].as_str()));
        proof {
            let vs = crate::text::views(args@);
            assert(crate::text::views(quoted@)[i as int] == quoted@[i as int]@);
            assert(vs[i as int] == args@[i as int]@);
            assert forall|k: int| 0 <= k < i implies crate::text::views(quoted@)[k]
                == spec_quoted_words(vs.take(i as int + 1))[k] by {
                assert(crate::text::views(prev)[k] == prev[k]@);
                assert(crate::text::views(quoted@)[k] == quoted@[k]@);
                assert(spec_quoted_words(vs.take(i as int))[k] == spec_quote_word(
                    vs.take(i as int)[k],
                ));
                assert(spec_quoted_words(vs.take(i as int + 1))[k] == spec_quote_word(
                    vs.take(i as int + 1)[k],
                ));
            }
            assert(crate::text::views(quoted@) =~= spec_quoted_words(vs.take(i as int + 1)));
        }
        i = i + 1;
    }
    proof {
        assert(crate::text::views(args@).take(args@.len() as int) =~= crate::text::views(args@));
        reveal_strlit(" ");
        assert(" "@ =~= seq![' ']);
    }
    join_with(&quoted, " ")
}

} // verus!

verus! {

/// Each argument quoted under the tables' rule, as a vector.
#[verifier::loop_isolation(false)]
pub fn quote_words_vec(args: &Vec<String>) -> (r: Vec<String>)
    ensures
        crate::text::views(r@) == spec_quoted_words(crate::text::views(args@)),
{
    let ghost vs = crate::text::views(args@);
    let mut quoted: Vec<String> = Vec::new();
    let mut k: usize = 0;
    while k < args.len()
        invariant
            k <= args@.len(),
            crate::text::views(quoted@) =~= spec_quoted_words(vs.take(k as int)),
        decreases args@.len() - k,
    {
        let ghost prev = quoted@;
        quoted.push(quote_word(args[k].as_str()));
        proof {
            assert(vs[k as int] == args@[k as int]@);
            assert forall|j: int| 0 <= j < k + 1 implies crate::text::views(quoted@)[j]
                == spec_quoted_words(vs.take(k as int + 1))[j] by {
                assert(crate::text::views(quoted@)[j] == quoted@[j]@);
                if j < k {
                    assert(crate::text::views(prev)[j] == prev[j]@);
                    assert(vs.take(k as int)[j] == vs[j]);
                }
            }
            assert(crate::text::views(quoted@) =~= spec_quoted_words(vs.take(k as int + 1)));
        }
        k = k + 1;
    }
    proof {
        assert(vs.take(args@.len() as int) =~= vs);
    }
    quoted
}

/// The views of `args` each quoted unconditionally.
pub open spec fn spec_quoted_literals(vs: Seq<Seq<char>>) -> Seq<Seq<char>> {
    vs.map_values(|v: Seq<char>| spec_quote_literal(v))
}

/// Each argument quoted unconditionally, as a vector.
#[verifier::loop_isolation(false)]
pub fn quote_literals_vec(args: &Vec<String>) -> (r: Vec<String>)
    ensures
        crate::text::views(r@) == spec_quoted_literals(crate::text::views(args@)),
{
    let ghost vs = crate::text::views(args@);
    let mut quoted: Vec<String> = Vec::new();
    let mut k: usize = 0;
    while k < args.len()
        invariant
            k <= args@.len(),
            crate::text::views(quoted@) =~= spec_quoted_literals(vs.take(k as int)),
        decreases args@.len() - k,
    {
        let ghost prev = quoted@;
        quoted.push(quote_literal(args[k].as_str()));
        proof {
            assert(vs[k as int] == args@[k as int]@);
            assert forall|j: int| 0 <= j < k + 1 implies crate::text::views(quoted@)[j]
                == spec_quoted_literals(vs.take(k as int + 1))[j] by {
                assert(crate::text::views(quoted@)[j] == quoted@[j]@);
                if j < k {
                    assert(crate::text::views(prev)[j] == prev[j]@);
                    assert(vs.take(k as int)[j] == vs[j]);
                }
            }
            assert(crate::text::views(quoted@) =~= spec_quoted_literals(vs.take(k as int + 1)));
        }
        k = k + 1;
    }
    proof {
        assert(vs.take(args@.len() as int) =~= vs);
    }
    quoted
}

} // verus!
