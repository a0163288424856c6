//! `dirname` converter: maps `dirname` to path operations.

use super::CommandConverter;
use crate::plugin::ConvertError;
use crate::quoting::{quote_literal, quote_literals_vec, spec_quote_literal, spec_quoted_literals};
use crate::text::{join_with, spec_join, spec_starts_with, starts_with, str_eq, views};
use vstd::prelude::*;

verus! {

/// Converter for the `dirname` command.
pub struct DirnameConverter;

/// The flag state gathered while scanning `dirname` arguments; `--help` and
/// `--version` short-circuit.
pub open spec fn spec_dirname_scan(vs: Seq<Seq<char>>, i: int, zero: bool, paths: Seq<Seq<char>>) -> (
    bool,
    Seq<Seq<char>>,
    Option<Seq<char>>,
)
    decreases vs.len() - i,
{
    if i < 0 || i >= vs.len() {
        (zero, paths, None)
    } else if vs[i] == "-z"@ || vs[i] == "--zero"@ {
        spec_dirname_scan(vs, i + 1, true, paths)
    } else if vs[i] == "--help"@ {
        (zero, paths, Some("dirname --help"@))
    } else if vs[i] == "--version"@ {
        (zero, paths, Some("dirname --version"@))
    } else if !spec_starts_with(vs[i], "-"@) {
        spec_dirname_scan(vs, i + 1, zero, paths.push(vs[i]))
    } else {
        spec_dirname_scan(vs, i + 1, zero, paths)
    }
}

/// The exact text produced for `dirname` with the given arguments.
pub open spec fn spec_convert_dirname(vs: Seq<Seq<char>>) -> Seq<char> {
    if vs.len() == 0 {
        "dirname"@
    } else {
        let (zero, paths, early) = spec_dirname_scan(vs, 0, false, Seq::empty());
        match early {
            Some(text) => text,
            None => {
                if paths.len() == 0 {
                    "dirname"@
                } else if paths.len() == 1 {
                    spec_quote_literal(paths[0]) + " | path dirname"@
                } else {
                    "["@ + spec_join(spec_quoted_literals(paths), " "@)
                        + "] | each { |path| $path | path dirname }"@ + (if zero {
                        " | str join (char null)"@
                    } else {
                        " | str join (char newline)"@
                    })
                }
            },
        }
    }
}

impl CommandConverter for DirnameConverter {
    open spec fn spec_convert(&self, vs: Seq<Seq<char>>) -> Seq<char> {
        spec_convert_dirname(vs)
    }

    open spec fn spec_name(&self) -> Seq<char> {
        "dirname"@
    }

    #[verifier::loop_isolation(false)]
    #[verifier::rlimit(100)]
    fn convert(&self, args: &[String]) -> (r: Result<String, ConvertError>) {
        let ghost vs = views(args@);
        if args.len() == 0 {
            return Ok("dirname".to_owned());
        }
        let mut zero = false;
        let mut paths: Vec<String> = Vec::new();
        proof {
            assert(views(paths@) =~= Seq::<Seq<char>>::empty());
        }
        let mut i: usize = 0;
        while i < args.len()
            invariant
                i <= args@.len(),
                spec_dirname_scan(vs, 0, false, Seq::empty()) == spec_dirname_scan(
                    vs,
                    i as int,
                    zero,
                    views(paths@),
                ),
            decreases args@.len() - i,
        {
            let a = args[i].as_str();
            proof {
                assert(vs[i as int] == args@[i as int]@);
            }
            if str_eq(a, "-z") || str_eq(a, "--zero") {
                zero = true;
            } else if str_eq(a, "--help") {
                return Ok("dirname --help".to_owned());
            } else if str_eq(a, "--version") {
                return Ok("dirname --version".to_owned());
            } else if !starts_with(a, "-") {
                let ghost prev = paths@;
                paths.push(args[i].clone());
                proof {
                    assert(views(paths@) =~= views(prev).push(args@[i as int]@));
                }
            }
            i = i + 1;
        }
        if paths.len() == 0 {
            return Ok("dirname".to_owned());
        }
        if paths.len() == 1 {
            proof {
                assert(views(paths@)[0] == paths@[0]@);
            }
            let mut out = quote_literal(paths[0].as_str());
            out.append(" | path dirname");
            return Ok(out);
        }
        let mut out: String = "[".to_owned();
        let quoted = quote_literals_vec(&paths);
        let joined = join_with(&quoted, " ");
        out.append(joined.as_str());
        out.append("] | each { |path| $path | path dirname }");
        if zero {
            out.append(" | str join (char null)");
        } else {
            out.append(" | str join (char newline)");
        }
        Ok(out)
    }

    fn command_name(&self) -> (r: &'static str) {
        "dirname"
    }

    fn description(&self) -> &'static str {
        "Converts dirname commands to target path dirname operations"
    }
}

} // verus!
