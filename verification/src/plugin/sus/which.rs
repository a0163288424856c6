//! `which` converter.

use super::{BaseConverter, CommandConverter};
use crate::plugin::ConvertError;
use crate::quoting::{quote_words_vec, spec_quote_word, spec_quoted_words};
use crate::text::{join_with, spec_join, spec_starts_with, starts_with, str_eq, views};
use vstd::prelude::*;

verus! {

/// Converter for the `which` command.
pub struct WhichConverter;

/// Flags read from one combined short option such as `-as`.
pub open spec fn spec_which_flag_chars(cs: Seq<char>, j: int, all: bool, silent: bool) -> (
    bool,
    bool,
)
    decreases cs.len() - j,
{
    if j < 0 || j >= cs.len() {
        (all, silent)
    } else if cs[j] == 'a' {
        spec_which_flag_chars(cs, j + 1, true, silent)
    } else if cs[j] == 's' {
        spec_which_flag_chars(cs, j + 1, all, true)
    } else {
        spec_which_flag_chars(cs, j + 1, all, silent)
    }
}

/// The flag state gathered while scanning `which` arguments.
pub open spec fn spec_which_scan(
    vs: Seq<Seq<char>>,
    i: int,
    all: bool,
    silent: bool,
    cmds: Seq<Seq<char>>,
) -> (bool, bool, Seq<Seq<char>>)
    decreases vs.len() - i,
{
    if i < 0 || i >= vs.len() {
        (all, silent, cmds)
    } else if vs[i] == "-a"@ || vs[i] == "--all"@ {
        spec_which_scan(vs, i + 1, true, silent, cmds)
    } else if vs[i] == "-s"@ || vs[i] == "--silent"@ {
        spec_which_scan(vs, i + 1, all, true, cmds)
    } else if vs[i] == "-v"@ || vs[i] == "--version"@ || vs[i] == "-h"@ || vs[i] == "--help"@ {
        spec_which_scan(vs, i + 1, all, silent, cmds)
    } else if spec_starts_with(vs[i], "--"@) {
        spec_which_scan(vs, i + 1, all, silent, cmds)
    } else if spec_starts_with(vs[i], "-"@) && vs[i].len() > 1 {
        let (a2, s2) = spec_which_flag_chars(vs[i].skip(1), 0, all, silent);
        spec_which_scan(vs, i + 1, a2, s2, cmds)
    } else if spec_starts_with(vs[i], "-"@) {
        spec_which_scan(vs, i + 1, all, silent, cmds)
    } else {
        spec_which_scan(vs, i + 1, all, silent, cmds.push(vs[i]))
    }
}

/// The `which -a` invocations generated for several commands.
pub open spec fn spec_which_all_parts(cmds: Seq<Seq<char>>) -> Seq<Seq<char>> {
    cmds.map_values(|c: Seq<char>| "which -a "@ + spec_quote_word(c))
}

/// The exact text produced for `which` with the given arguments.
pub open spec fn spec_convert_which(vs: Seq<Seq<char>>) -> Seq<char> {
    if vs.len() == 0 {
        "which"@
    } else {
        let (all, silent, cmds) = spec_which_scan(vs, 0, false, false, Seq::empty());
        let body: Seq<char> = if cmds.len() == 0 {
            "which"@
        } else if cmds.len() == 1 {
            if all {
                "which -a "@ + spec_quote_word(cmds[0])
            } else {
                "which "@ + spec_quote_word(cmds[0])
            }
        } else {
            if all {
                "["@ + spec_join(spec_which_all_parts(cmds), ", "@) + "] | each { |cmd| ^$cmd }"@
            } else {
                "which "@ + spec_join(spec_quoted_words(cmds), " "@)
            }
        };
        if cmds.len() == 0 {
            body
        } else if silent {
            body + " | ignore"@
        } else {
            body
        }
    }
}

/// Read the flag characters of one combined short option.
#[verifier::loop_isolation(false)]
fn which_flag_chars(a: &str, all0: bool, silent0: bool) -> (r: (bool, bool))
    requires
        a@.len() >= 1,
    ensures
        (r.0, r.1) == spec_which_flag_chars(a@.skip(1), 0, all0, silent0),
{
    let ghost cs = a@.skip(1);
    let n = a.unicode_len();
    let mut all = all0;
    let mut silent = silent0;
    let mut j: usize = 1;
    while j < n
        invariant
            1 <= j <= n,
            spec_which_flag_chars(cs, 0, all0, silent0) == spec_which_flag_chars(
                cs,
                j - 1,
                all,
                silent,
            ),
        decreases n - j,
    {
        let c = a.get_char(j);
        proof {
            assert(cs[j - 1] == a@[j as int]);
        }
        if c == 'a' {
            all = true;
        } else if c == 's' {
            silent = true;
        }
        j = j + 1;
    }
    (all, silent)
}

impl CommandConverter for WhichConverter {
    open spec fn spec_convert(&self, vs: Seq<Seq<char>>) -> Seq<char> {
        spec_convert_which(vs)
    }

    open spec fn spec_name(&self) -> Seq<char> {
        "which"@
    }

    #[verifier::loop_isolation(false)]
    #[verifier::rlimit(60)]
    fn convert(&self, args: &[String]) -> (r: Result<String, ConvertError>) {
        let base = BaseConverter;
        let ghost vs = views(args@);
        if args.len() == 0 {
            return Ok("which".to_owned());
        }
        let mut all = false;
        let mut silent = false;
        let mut cmds: Vec<String> = Vec::new();
        proof {
            assert(views(cmds@) =~= Seq::<Seq<char>>::empty());
        }
        let mut i: usize = 0;
        while i < args.len()
            invariant
                i <= args@.len(),
                spec_which_scan(vs, 0, false, false, Seq::empty()) == spec_which_scan(
                    vs,
                    i as int,
                    all,
                    silent,
                    views(cmds@),
                ),
            decreases args@.len() - i,
        {
            let a = args[i].as_str();
            proof {
                assert(vs[i as int] == args@[i as int]@);
            }
            if str_eq(a, "-a") || str_eq(a, "--all") {
                all = true;
            } else if str_eq(a, "-s") || str_eq(a, "--silent") {
                silent = true;
            } else if str_eq(a, "-v") || str_eq(a, "--version") || str_eq(a, "-h") || str_eq(
                a,
                "--help",
            ) {
            } else if starts_with(a, "--") {
            } else if starts_with(a, "-") && a.unicode_len() > 1 {
                proof {
                    reveal_strlit("-");
                }
                let (a2, s2) = which_flag_chars(a, all, silent);
                all = a2;
                silent = s2;
            } else if starts_with(a, "-") {
            } else {
                let ghost prev = cmds@;
                cmds.push(args[i].clone());
                proof {
                    assert(views(cmds@) =~= views(prev).push(args@[i as int]@));
                }
            }
            i = i + 1;
        }
        let ghost gcmds = views(cmds@);
        if cmds.len() == 0 {
            return Ok("which".to_owned());
        }
        let mut out: String;
        if cmds.len() == 1 {
            proof {
                assert(gcmds[0] == cmds@[0]@);
            }
            if all {
                out = "which -a ".to_owned();
            } else {
                out = "which ".to_owned();
            }
            out.append(base.quote_arg(cmds[0].as_str()).as_str());
        } else if all {
            out = "[".to_owned();
            let mut parts: Vec<String> = Vec::new();
            let mut k: usize = 0;
            while k < cmds.len()
                invariant
                    k <= cmds@.len(),
                    gcmds == views(cmds@),
                    views(parts@) =~= spec_which_all_parts(gcmds.take(k as int)),
                decreases cmds@.len() - k,
            {
                let ghost prev = parts@;
                let mut part: String = "which -a ".to_owned();
                part.append(base.quote_arg(cmds[k].as_str()).as_str());
                parts.push(part);
                proof {
                    assert(gcmds[k as int] == cmds@[k as int]@);
                    assert forall|j: int| 0 <= j < k + 1 implies views(parts@)[j]
                        == spec_which_all_parts(gcmds.take(k as int + 1))[j] by {
                        assert(views(parts@)[j] == parts@[j]@);
                        if j < k {
                            assert(views(prev)[j] == prev[j]@);
                            assert(gcmds.take(k as int)[j] == gcmds[j]);
                        }
                    }
                    assert(views(parts@) =~= spec_which_all_parts(gcmds.take(k as int + 1)));
                }
                k = k + 1;
            }
            proof {
                assert(gcmds.take(cmds@.len() as int) =~= gcmds);
            }
            let joined = join_with(&parts, ", ");
            out.append(joined.as_str());
            out.append("] | each { |cmd| ^$cmd }");
        } else {
            out = "which ".to_owned();
            let quoted = quote_words_vec(&cmds);
            let joined = join_with(&quoted, " ");
            out.append(joined.as_str());
        }
        if silent {
            out.append(" | ignore");
        }
        Ok(out)
    }

    fn command_name(&self) -> (r: &'static str) {
        "which"
    }

    fn description(&self) -> &'static str {
        "Converts which commands to target which commands"
    }
}

} // verus!
