//! `realpath` converter: maps `realpath` to path expansion.

use super::CommandConverter;
use crate::plugin::ConvertError;
use crate::quoting::{quote_literal, quote_literals_vec, spec_quote_literal, spec_quoted_literals};
use crate::text::{join_with, spec_join, spec_starts_with, starts_with, str_eq, views};
use vstd::prelude::*;

verus! {

/// Converter for the `realpath` command.
pub struct RealpathConverter;

/// The flag state gathered while scanning `realpath` arguments; `--help` and
/// `--version` short-circuit.
pub open spec fn spec_realpath_scan(
    vs: Seq<Seq<char>>,
    i: int,
    zero: bool,
    rel: Seq<char>,
    paths: Seq<Seq<char>>,
) -> (bool, Seq<char>, Seq<Seq<char>>, Option<Seq<char>>)
    decreases vs.len() - i,
{
    if i < 0 || i >= vs.len() {
        (zero, rel, paths, None)
    } else if vs[i] == "-z"@ || vs[i] == "--zero"@ {
        spec_realpath_scan(vs, i + 1, true, rel, paths)
    } else if vs[i] == "-L"@ || vs[i] == "--logical"@ || vs[i] == "-P"@ || vs[i] == "--physical"@
        || vs[i] == "-e"@ || vs[i] == "--canonicalize-existing"@ || vs[i] == "-m"@ || vs[i]
        == "--canonicalize-missing"@ {
        spec_realpath_scan(vs, i + 1, zero, rel, paths)
    } else if vs[i] == "--relative-to"@ {
        if i + 1 < vs.len() {
            spec_realpath_scan(vs, i + 2, zero, vs[i + 1], paths)
        } else {
            spec_realpath_scan(vs, i + 1, zero, rel, paths)
        }
    } else if vs[i] == "--relative-base"@ {
        if i + 1 < vs.len() {
            spec_realpath_scan(vs, i + 2, zero, rel, paths)
        } else {
            spec_realpath_scan(vs, i + 1, zero, rel, paths)
        }
    } else if vs[i] == "--help"@ {
        (zero, rel, paths, Some("realpath --help"@))
    } else if vs[i] == "--version"@ {
        (zero, rel, paths, Some("realpath --version"@))
    } else if !spec_starts_with(vs[i], "-"@) {
        spec_realpath_scan(vs, i + 1, zero, rel, paths.push(vs[i]))
    } else {
        spec_realpath_scan(vs, i + 1, zero, rel, paths)
    }
}

/// The relative-to suffix, when requested.
pub open spec fn spec_relative_part(rel: Seq<char>) -> Seq<char> {
    if rel.len() > 0 {
        " | path relative-to "@ + spec_quote_literal(rel)
    } else {
        Seq::empty()
    }
}

/// The exact text produced for `realpath` with the given arguments.
pub open spec fn spec_convert_realpath(vs: Seq<Seq<char>>) -> Seq<char> {
    if vs.len() == 0 {
        "realpath"@
    } else {
        let (zero, rel, paths, early) = spec_realpath_scan(vs, 0, false, Seq::empty(), Seq::empty());
        match early {
            Some(text) => text,
            None => {
                if paths.len() == 0 {
                    "realpath"@
                } else if paths.len() == 1 {
                    spec_quote_literal(paths[0]) + " | path expand"@ + spec_relative_part(rel)
                } else {
                    "["@ + spec_join(spec_quoted_literals(paths), " "@)
                        + "] | each { |path| $path | path expand"@ + spec_relative_part(rel)
                        + " }"@ + (if zero {
                        " | str join (char null)"@
                    } else {
                        " | str join (char newline)"@
                    })
                }
            },
        }
    }
}

impl CommandConverter for RealpathConverter {
    open spec fn spec_convert(&self, vs: Seq<Seq<char>>) -> Seq<char> {
        spec_convert_realpath(vs)
    }

    open spec fn spec_name(&self) -> Seq<char> {
        "realpath"@
    }

    #[verifier::loop_isolation(false)]
    #[verifier::rlimit(100)]
    fn convert(&self, args: &[String]) -> (r: Result<String, ConvertError>) {
        let ghost vs = views(args@);
        if args.len() == 0 {
            return Ok("realpath".to_owned());
        }
        let mut zero = false;
        let mut rel: String = String::new();
        let mut paths: Vec<String> = Vec::new();
        proof {
            assert(views(paths@) =~= Seq::<Seq<char>>::empty());
            assert(rel@ =~= Seq::<char>::empty());
        }
        let mut i: usize = 0;
        while i < args.len()
            invariant
                i <= args@.len(),
                spec_realpath_scan(vs, 0, false, Seq::empty(), Seq::empty())
                    == spec_realpath_scan(vs, i as int, zero, rel@, views(paths@)),
            decreases args@.len() - i,
        {
            let a = args[i].as_str();
            proof {
                assert(vs[i as int] == args@[i as int]@);
                if i + 1 < args.len() {
                    assert(vs[i as int + 1] == args@[i as int + 1]@);
                }
            }
            if str_eq(a, "-z") || str_eq(a, "--zero") {
                zero = true;
                i = i + 1;
            } else if str_eq(a, "-L") || str_eq(a, "--logical") || str_eq(a, "-P") || str_eq(
                a,
                "--physical",
            ) || str_eq(a, "-e") || str_eq(a, "--canonicalize-existing") || str_eq(a, "-m")
                || str_eq(a, "--canonicalize-missing") {
                i = i + 1;
            } else if str_eq(a, "--relative-to") {
                if i + 1 < args.len() {
                    rel = args[i + 1].clone();
                    i = i + 2;
                } else {
                    i = i + 1;
                }
            } else if str_eq(a, "--relative-base") {
                if i + 1 < args.len() {
                    i = i + 2;
                } else {
                    i = i + 1;
                }
            } else if str_eq(a, "--help") {
                return Ok("realpath --help".to_owned());
            } else if str_eq(a, "--version") {
                return Ok("realpath --version".to_owned());
            } else if !starts_with(a, "-") {
                let ghost prev = paths@;
                paths.push(args[i].clone());
                proof {
                    assert(views(paths@) =~= views(prev).push(args@[i as int]@));
                }
                i = i + 1;
            } else {
                i = i + 1;
            }
        }
        if paths.len() == 0 {
            return Ok("realpath".to_owned());
        }
        if paths.len() == 1 {
            proof {
                assert(views(paths@)[0] == paths@[0]@);
            }
            let mut out = quote_literal(paths[0].as_str());
            out.append(" | path expand");
            if rel.as_str().unicode_len() > 0 {
                out.append(" | path relative-to ");
                out.append(quote_literal(rel.as_str()).as_str());
            }
            return Ok(out);
        }
        let mut out: String = "[".to_owned();
        let quoted = quote_literals_vec(&paths);
        let joined = join_with(&quoted, " ");
        out.append(joined.as_str());
        out.append("] | each { |path| $path | path expand");
        if rel.as_str().unicode_len() > 0 {
            out.append(" | path relative-to ");
            out.append(quote_literal(rel.as_str()).as_str());
        }
        out.append(" }");
        if zero {
            out.append(" | str join (char null)");
        } else {
            out.append(" | str join (char newline)");
        }
        Ok(out)
    }

    fn command_name(&self) -> (r: &'static str) {
        "realpath"
    }

    fn description(&self) -> &'static str {
        "Converts realpath commands to target path expand operations"
    }
}

} // verus!
