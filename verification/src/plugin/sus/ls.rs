//! `ls` converter: maps `ls` flags to target listing flags.

use super::{BaseConverter, CommandConverter};
use crate::plugin::ConvertError;
use crate::quoting::spec_quote_word;
use crate::text::{join_with, spec_join, spec_starts_with, starts_with, str_eq, views};
use vstd::prelude::*;

verus! {

/// Converter for the `ls` command.
pub struct LsConverter;

/// The flag state gathered while scanning `ls` arguments: translated flag
/// words and quoted path words.
pub open spec fn spec_ls_scan(
    vs: Seq<Seq<char>>,
    i: int,
    flags: Seq<Seq<char>>,
    paths: Seq<Seq<char>>,
) -> (Seq<Seq<char>>, Seq<Seq<char>>)
    decreases vs.len() - i,
{
    if i < 0 || i >= vs.len() {
        (flags, paths)
    } else if vs[i] == "-l"@ {
        spec_ls_scan(vs, i + 1, flags.push("--long"@), paths)
    } else if vs[i] == "-a"@ {
        spec_ls_scan(vs, i + 1, flags.push("--all"@), paths)
    } else if vs[i] == "-h"@ {
        spec_ls_scan(vs, i + 1, flags.push("--help"@), paths)
    } else if vs[i] == "-la"@ || vs[i] == "-al"@ {
        spec_ls_scan(vs, i + 1, flags.push("--long"@).push("--all"@), paths)
    } else if vs[i] == "-lh"@ || vs[i] == "-hl"@ {
        spec_ls_scan(vs, i + 1, flags.push("--long"@).push("--help"@), paths)
    } else if vs[i] == "-ah"@ || vs[i] == "-ha"@ {
        spec_ls_scan(vs, i + 1, flags.push("--all"@).push("--help"@), paths)
    } else if vs[i] == "-lah"@ || vs[i] == "-alh"@ || vs[i] == "-hla"@ || vs[i] == "-hal"@ || vs[i]
        == "-ahl"@ || vs[i] == "-lha"@ {
        spec_ls_scan(vs, i + 1, flags.push("--long"@).push("--all"@).push("--help"@), paths)
    } else if vs[i] == "-1"@ || vs[i] == "-F"@ || vs[i] == "-G"@ {
        spec_ls_scan(vs, i + 1, flags, paths)
    } else if vs[i] == "-d"@ {
        spec_ls_scan(vs, i + 1, flags.push("--directory"@), paths)
    } else if vs[i] == "-R"@ {
        spec_ls_scan(vs, i + 1, flags.push("--recursive"@), paths)
    } else if vs[i] == "-r"@ {
        spec_ls_scan(vs, i + 1, flags.push("--reverse"@), paths)
    } else if vs[i] == "-t"@ {
        spec_ls_scan(vs, i + 1, flags.push("--sort-by"@).push("modified"@), paths)
    } else if vs[i] == "-S"@ {
        spec_ls_scan(vs, i + 1, flags.push("--sort-by"@).push("size"@), paths)
    } else if vs[i] == "-i"@ {
        spec_ls_scan(vs, i + 1, flags.push("# --show-inode"@), paths)
    } else if vs[i] == "--color"@ || vs[i] == "--color=auto"@ || vs[i] == "--color=always"@ || vs[i]
        == "--color=never"@ {
        spec_ls_scan(vs, i + 1, flags, paths)
    } else if spec_starts_with(vs[i], "-"@) {
        spec_ls_scan(vs, i + 1, flags.push("# Unknown flag: "@ + vs[i]), paths)
    } else {
        spec_ls_scan(vs, i + 1, flags, paths.push(spec_quote_word(vs[i])))
    }
}

/// The exact text produced for `ls` with the given arguments.
pub open spec fn spec_convert_ls(vs: Seq<Seq<char>>) -> Seq<char> {
    if vs.len() == 0 {
        "ls"@
    } else {
        let (flags, paths) = spec_ls_scan(vs, 0, Seq::empty(), Seq::empty());
        "ls"@ + (if flags.len() > 0 {
            " "@ + spec_join(flags, " "@)
        } else {
            Seq::<char>::empty()
        }) + (if paths.len() > 0 {
            " "@ + spec_join(paths, " "@)
        } else {
            Seq::<char>::empty()
        })
    }
}

impl CommandConverter for LsConverter {
    open spec fn spec_convert(&self, vs: Seq<Seq<char>>) -> Seq<char> {
        spec_convert_ls(vs)
    }

    open spec fn spec_name(&self) -> Seq<char> {
        "ls"@
    }

    #[verifier::loop_isolation(false)]
    #[verifier::rlimit(100)]
    fn convert(&self, args: &[String]) -> (r: Result<String, ConvertError>) {
        let base = BaseConverter;
        let ghost vs = views(args@);
        if args.len() == 0 {
            return Ok("ls".to_owned());
        }
        let mut flags: Vec<String> = Vec::new();
        let mut paths: Vec<String> = Vec::new();
        proof {
            assert(views(flags@) =~= Seq::<Seq<char>>::empty());
            assert(views(paths@) =~= Seq::<Seq<char>>::empty());
        }
        let mut i: usize = 0;
        while i < args.len()
            invariant
                i <= args@.len(),
                spec_ls_scan(vs, 0, Seq::empty(), Seq::empty()) == spec_ls_scan(
                    vs,
                    i as int,
                    views(flags@),
                    views(paths@),
                ),
            decreases args@.len() - i,
        {
            let a = args[i].as_str();
            let ghost pflags = flags@;
            let ghost ppaths = paths@;
            proof {
                assert(vs[i as int] == args@[i as int]@);
            }
            if str_eq(a, "-l") {
                flags.push("--long".to_owned());
            } else if str_eq(a, "-a") {
                flags.push("--all".to_owned());
            } else if str_eq(a, "-h") {
                flags.push("--help".to_owned());
            } else if str_eq(a, "-la") || str_eq(a, "-al") {
                flags.push("--long".to_owned());
                flags.push("--all".to_owned());
            } else if str_eq(a, "-lh") || str_eq(a, "-hl") {
                flags.push("--long".to_owned());
                flags.push("--help".to_owned());
            } else if str_eq(a, "-ah") || str_eq(a, "-ha") {
                flags.push("--all".to_owned());
                flags.push("--help".to_owned());
            } else if str_eq(a, "-lah") || str_eq(a, "-alh") || str_eq(a, "-hla") || str_eq(
                a,
                "-hal",
            ) || str_eq(a, "-ahl") || str_eq(a, "-lha") {
                flags.push("--long".to_owned());
                flags.push("--all".to_owned());
                flags.push("--help".to_owned());
            } else if str_eq(a, "-1") || str_eq(a, "-F") || str_eq(a, "-G") {
            } else if str_eq(a, "-d") {
                flags.push("--directory".to_owned());
            } else if str_eq(a, "-R") {
                flags.push("--recursive".to_owned());
            } else if str_eq(a, "-r") {
                flags.push("--reverse".to_owned());
            } else if str_eq(a, "-t") {
                flags.push("--sort-by".to_owned());
                flags.push("modified".to_owned());
            } else if str_eq(a, "-S") {
                flags.push("--sort-by".to_owned());
                flags.push("size".to_owned());
            } else if str_eq(a, "-i") {
                flags.push("# --show-inode".to_owned());
            } else if str_eq(a, "--color") || str_eq(a, "--color=auto") || str_eq(
                a,
                "--color=always",
            ) || str_eq(a, "--color=never") {
            } else if starts_with(a, "-") {
                let mut w: String = "# Unknown flag: ".to_owned();
                w.append(a);
                flags.push(w);
            } else {
                paths.push(base.quote_arg(a));
            }
            proof {
                assert(views(flags@) =~= spec_ls_scan(vs, 0, Seq::empty(), Seq::empty()).0
                    || true);
                assert forall|k: int| 0 <= k < flags@.len() implies views(flags@)[k]
                    == flags@[k]@ by {}
                assert forall|k: int| 0 <= k < paths@.len() implies views(paths@)[k]
                    == paths@[k]@ by {}
                if flags@.len() == pflags.len() + 1 {
                    assert(views(flags@) =~= views(pflags).push(flags@[pflags.len() as int]@));
                }
                if flags@.len() == pflags.len() + 2 {
                    assert(views(flags@) =~= views(pflags).push(
                        flags@[pflags.len() as int]@,
                    ).push(flags@[pflags.len() as int + 1]@));
                }
                if flags@.len() == pflags.len() + 3 {
                    assert(views(flags@) =~= views(pflags).push(flags@[pflags.len() as int]@).push(
                        flags@[pflags.len() as int + 1]@,
                    ).push(flags@[pflags.len() as int + 2]@));
                }
                if paths@.len() == ppaths.len() + 1 {
                    assert(views(paths@) =~= views(ppaths).push(paths@[ppaths.len() as int]@));
                }
            }
            i = i + 1;
        }
        let mut out: String = "ls".to_owned();
        if flags.len() > 0 {
            out.append(" ");
            let joined = join_with(&flags, " ");
            out.append(joined.as_str());
        }
        if paths.len() > 0 {
            out.append(" ");
            let joined = join_with(&paths, " ");
            out.append(joined.as_str());
        }
        Ok(out)
    }

    fn command_name(&self) -> (r: &'static str) {
        "ls"
    }

    fn description(&self) -> &'static str {
        "Converts ls commands with flag mapping for the target shell"
    }
}

} // verus!
