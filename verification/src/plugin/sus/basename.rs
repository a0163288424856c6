//! `basename` converter: maps `basename` to path operations, with suffix
//! removal rendered as an anchored regex replacement.

use super::CommandConverter;
use crate::plugin::ConvertError;
use crate::quoting::{quote_literal, quote_literals_vec, spec_quote_literal, spec_quoted_literals};
use crate::text::{chars_to_string, join_with, spec_join, spec_starts_with, starts_with, str_eq, views};
use vstd::prelude::*;

verus! {

/// Converter for the `basename` command.
pub struct BasenameConverter;

/// Whether a character is a regular-expression metacharacter that a filename
/// suffix must not activate.
pub open spec fn spec_is_regex_meta(c: char) -> bool {
    c == '\\' || c == '.' || c == '*' || c == '?' || c == '+' || c == '(' || c == ')' || c == '['
        || c == ']' || c == '^' || c == '$' || c == '|' || c == '{' || c == '}'
}

/// A literal string escaped for use inside a regular expression.
pub open spec fn spec_regex_escape(s: Seq<char>) -> Seq<char>
    decreases s.len(),
{
    if s.len() == 0 {
        s
    } else {
        let head: Seq<char> = if spec_is_regex_meta(s[0]) {
            seq!['\\', s[0]]
        } else {
            seq![s[0]]
        };
        head + spec_regex_escape(s.skip(1))
    }
}

proof fn lemma_regex_escape_push(s: Seq<char>, c: char)
    ensures
        spec_regex_escape(s.push(c)) == spec_regex_escape(s) + (if spec_is_regex_meta(c) {
            seq!['\\', c]
        } else {
            seq![c]
        }),
    decreases s.len(),
{
    let head: Seq<char> = if spec_is_regex_meta(c) {
        seq!['\\', c]
    } else {
        seq![c]
    };
    if s.len() == 0 {
        assert(s.push(c)[0] == c);
        assert(s.push(c).skip(1) =~= Seq::<char>::empty());
        assert(spec_regex_escape(s.push(c)) == head + spec_regex_escape(s.push(c).skip(1)));
        assert(spec_regex_escape(s.push(c).skip(1)) == Seq::<char>::empty());
        assert(head + Seq::<char>::empty() =~= head);
        assert(spec_regex_escape(s) + head =~= head);
    } else {
        assert(s.push(c)[0] == s[0]);
        assert(s.push(c).skip(1) =~= s.skip(1).push(c));
        lemma_regex_escape_push(s.skip(1), c);
        assert(spec_regex_escape(s.push(c)) =~= spec_regex_escape(s) + head);
    }
}

/// Escape regular-expression metacharacters, executably.
#[verifier::loop_isolation(false)]
pub fn regex_escape(s: &str) -> (r: String)
    ensures
        r@ == spec_regex_escape(s@),
{
    let n = s.unicode_len();
    let mut out: Vec<char> = Vec::new();
    let mut i: usize = 0;
    while i < n
        invariant
            i <= n,
            out@ == spec_regex_escape(s@.take(i as int)),
        decreases n - i,
    {
        let c = s.get_char(i);
        proof {
            lemma_regex_escape_push(s@.take(i as int), c);
            assert(s@.take(i as int).push(c) =~= s@.take(i as int + 1));
        }
        if c == '\\' || c == '.' || c == '*' || c == '?' || c == '+' || c == '(' || c == ')' || c
            == '[' || c == ']' || c == '^' || c == '$' || c == '|' || c == '{' || c == '}' {
            out.push('\\');
            out.push(c);
        } else {
            out.push(c);
        }
        i = i + 1;
    }
    proof {
        assert(s@.take(n as int) =~= s@);
    }
    chars_to_string(&out)
}

/// The anchored suffix-removal step.
pub open spec fn spec_suffix_part(suffix: Seq<char>) -> Seq<char> {
    if suffix.len() > 0 {
        " | str replace --regex "@ + spec_quote_literal(spec_regex_escape(suffix)) + "$ \"\""@
    } else {
        Seq::empty()
    }
}

/// The flag state gathered while scanning `basename` arguments; `--help` and
/// `--version` short-circuit.
pub open spec fn spec_basename_scan(
    vs: Seq<Seq<char>>,
    i: int,
    suffix: Seq<char>,
    multiple: bool,
    zero: bool,
    paths: Seq<Seq<char>>,
) -> (Seq<char>, bool, bool, Seq<Seq<char>>, Option<Seq<char>>)
    decreases vs.len() - i,
{
    if i < 0 || i >= vs.len() {
        (suffix, multiple, zero, paths, None)
    } else if vs[i] == "-s"@ || vs[i] == "--suffix"@ {
        if i + 1 < vs.len() {
            spec_basename_scan(vs, i + 2, vs[i + 1], multiple, zero, paths)
        } else {
            spec_basename_scan(vs, i + 1, suffix, multiple, zero, paths)
        }
    } else if vs[i] == "-a"@ || vs[i] == "--multiple"@ {
        spec_basename_scan(vs, i + 1, suffix, true, zero, paths)
    } else if vs[i] == "-z"@ || vs[i] == "--zero"@ {
        spec_basename_scan(vs, i + 1, suffix, multiple, true, paths)
    } else if vs[i] == "--help"@ {
        (suffix, multiple, zero, paths, Some("basename --help"@))
    } else if vs[i] == "--version"@ {
        (suffix, multiple, zero, paths, Some("basename --version"@))
    } else if !spec_starts_with(vs[i], "-"@) {
        spec_basename_scan(vs, i + 1, suffix, multiple, zero, paths.push(vs[i]))
    } else {
        spec_basename_scan(vs, i + 1, suffix, multiple, zero, paths)
    }
}

/// The exact text produced for `basename` with the given arguments.
pub open spec fn spec_convert_basename(vs: Seq<Seq<char>>) -> Seq<char> {
    if vs.len() == 0 {
        "basename"@
    } else {
        let (suffix, multiple, zero, paths, early) = spec_basename_scan(
            vs,
            0,
            Seq::empty(),
            false,
            false,
            Seq::empty(),
        );
        match early {
            Some(text) => text,
            None => {
                if paths.len() == 0 {
                    "basename"@
                } else if paths.len() == 1 && !multiple {
                    spec_quote_literal(paths[0]) + " | path basename"@ + spec_suffix_part(suffix)
                } else if paths.len() == 1 {
                    spec_quote_literal(paths[0]) + " | path basename"@ + spec_suffix_part(suffix)
                        + (if zero {
                        " | str join (char null)"@
                    } else {
                        Seq::<char>::empty()
                    })
                } else if !zero && !multiple && paths.len() == 2 {
                    spec_quote_literal(paths[0]) + " | path basename"@ + spec_suffix_part(paths[1])
                } else {
                    "["@ + spec_join(spec_quoted_literals(paths), " "@)
                        + "] | each { |path| $path | path basename"@ + spec_suffix_part(suffix)
                        + " }"@ + (if zero {
                        " | str join (char null)"@
                    } else if multiple {
                        " | str join (char newline)"@
                    } else {
                        Seq::<char>::empty()
                    })
                }
            },
        }
    }
}

/// Append the suffix-removal step to `out`.
fn append_suffix_part(out: &mut String, suffix: &String)
    ensures
        final(out)@ == old(out)@ + spec_suffix_part(suffix@),
{
    if suffix.as_str().unicode_len() > 0 {
        out.append(" | str replace --regex ");
        let escaped = regex_escape(suffix.as_str());
        out.append(quote_literal(escaped.as_str()).as_str());
        out.append("$ \"\"");
    }
}

impl CommandConverter for BasenameConverter {
    open spec fn spec_convert(&self, vs: Seq<Seq<char>>) -> Seq<char> {
        spec_convert_basename(vs)
    }

    open spec fn spec_name(&self) -> Seq<char> {
        "basename"@
    }

    #[verifier::loop_isolation(false)]
    #[verifier::rlimit(100)]
    fn convert(&self, args: &[String]) -> (r: Result<String, ConvertError>) {
        let ghost vs = views(args@);
        if args.len() == 0 {
            return Ok("basename".to_owned());
        }
        let mut suffix: String = String::new();
        let mut multiple = false;
        let mut zero = false;
        let mut paths: Vec<String> = Vec::new();
        proof {
            assert(views(paths@) =~= Seq::<Seq<char>>::empty());
            assert(suffix@ =~= Seq::<char>::empty());
        }
        let mut i: usize = 0;
        while i < args.len()
            invariant
                i <= args@.len(),
                spec_basename_scan(vs, 0, Seq::empty(), false, false, Seq::empty())
                    == spec_basename_scan(vs, i as int, suffix@, multiple, zero, views(paths@)),
            decreases args@.len() - i,
        {
            let a = args[i].as_str();
            proof {
                assert(vs[i as int] == args@[i as int]@);
                if i + 1 < args.len() {
                    assert(vs[i as int + 1] == args@[i as int + 1]@);
                }
            }
            if str_eq(a, "-s") || str_eq(a, "--suffix") {
                if i + 1 < args.len() {
                    suffix = args[i + 1].clone();
                    i = i + 2;
                } else {
                    i = i + 1;
                }
            } else if str_eq(a, "-a") || str_eq(a, "--multiple") {
                multiple = true;
                i = i + 1;
            } else if str_eq(a, "-z") || str_eq(a, "--zero") {
                zero = true;
                i = i + 1;
            } else if str_eq(a, "--help") {
                return Ok("basename --help".to_owned());
            } else if str_eq(a, "--version") {
                return Ok("basename --version".to_owned());
            } else if !starts_with(a, "-") {
                let ghost prev = paths@;
                paths.push(args[i].clone());
                proof {
                    assert(views(paths@) =~= views(prev).push(args@[i as int]@));
                }
                i = i + 1;
            } else {
                i = i + 1;
            }
        }
        if paths.len() == 0 {
            return Ok("basename".to_owned());
        }
        if paths.len() == 1 {
            proof {
                assert(views(paths@)[0] == paths@[0]@);
            }
            let mut out = quote_literal(paths[0].as_str());
            out.append(" | path basename");
            append_suffix_part(&mut out, &suffix);
            if multiple && zero {
                out.append(" | str join (char null)");
            }
            return Ok(out);
        }
        if !zero && !multiple && paths.len() == 2 {
            proof {
                assert(views(paths@)[0] == paths@[0]@);
                assert(views(paths@)[1] == paths@[1]@);
            }
            let mut out = quote_literal(paths[0].as_str());
            out.append(" | path basename");
            append_suffix_part(&mut out, &paths[1]);
            return Ok(out);
        }
        let mut out: String = "[".to_owned();
        let quoted = quote_literals_vec(&paths);
        let joined = join_with(&quoted, " ");
        out.append(joined.as_str());
        out.append("] | each { |path| $path | path basename");
        append_suffix_part(&mut out, &suffix);
        out.append(" }");
        if zero {
            out.append(" | str join (char null)");
        } else if multiple {
            out.append(" | str join (char newline)");
        }
        Ok(out)
    }

    fn command_name(&self) -> (r: &'static str) {
        "basename"
    }

    fn description(&self) -> &'static str {
        "Converts basename commands to target path basename operations"
    }
}

} // verus!
