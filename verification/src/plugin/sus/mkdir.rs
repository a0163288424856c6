//! `mkdir` converter.

use super::CommandConverter;
use crate::plugin::sus::rm::{append_path_args, spec_path_args};
use crate::plugin::ConvertError;
use crate::text::{spec_starts_with, starts_with, str_eq, views};
use vstd::prelude::*;

verus! {

/// Converter for the `mkdir` command.
pub struct MkdirConverter;

/// The flag state gathered while scanning `mkdir` arguments.
pub open spec fn spec_mkdir_scan(
    vs: Seq<Seq<char>>,
    i: int,
    parents: bool,
    verbose: bool,
    dirs: Seq<Seq<char>>,
) -> (bool, bool, Seq<Seq<char>>)
    decreases vs.len() - i,
{
    if i < 0 || i >= vs.len() {
        (parents, verbose, dirs)
    } else if vs[i] == "-p"@ || vs[i] == "--parents"@ {
        spec_mkdir_scan(vs, i + 1, true, verbose, dirs)
    } else if vs[i] == "-m"@ || vs[i] == "--mode"@ {
        spec_mkdir_scan(vs, i + 1, parents, verbose, dirs)
    } else if vs[i] == "-v"@ || vs[i] == "--verbose"@ {
        spec_mkdir_scan(vs, i + 1, parents, true, dirs)
    } else if spec_starts_with(vs[i], "-"@) && vs[i].len() > 1 {
        spec_mkdir_scan(vs, i + 1, parents, verbose, dirs)
    } else {
        spec_mkdir_scan(vs, i + 1, parents, verbose, dirs.push(vs[i]))
    }
}

/// The exact text produced for `mkdir` with the given arguments.
pub open spec fn spec_convert_mkdir(vs: Seq<Seq<char>>) -> Seq<char> {
    if vs.len() == 0 {
        "mkdir"@
    } else {
        let (parents, verbose, dirs) = spec_mkdir_scan(vs, 0, false, false, Seq::empty());
        if dirs.len() == 0 {
            "mkdir"@
        } else {
            "mkdir"@ + (if verbose {
                " --verbose"@
            } else {
                Seq::<char>::empty()
            }) + spec_path_args(dirs, 0) + (if parents {
                " # creates parent directories automatically"@
            } else {
                Seq::<char>::empty()
            })
        }
    }
}

impl CommandConverter for MkdirConverter {
    open spec fn spec_convert(&self, vs: Seq<Seq<char>>) -> Seq<char> {
        spec_convert_mkdir(vs)
    }

    open spec fn spec_name(&self) -> Seq<char> {
        "mkdir"@
    }

    #[verifier::loop_isolation(false)]
    #[verifier::rlimit(60)]
    fn convert(&self, args: &[String]) -> (r: Result<String, ConvertError>) {
        let ghost vs = views(args@);
        if args.len() == 0 {
            return Ok("mkdir".to_owned());
        }
        let mut parents = false;
        let mut verbose = false;
        let mut dirs: Vec<String> = Vec::new();
        proof {
            assert(views(dirs@) =~= Seq::<Seq<char>>::empty());
        }
        let mut i: usize = 0;
        while i < args.len()
            invariant
                i <= args@.len(),
                spec_mkdir_scan(vs, 0, false, false, Seq::empty()) == spec_mkdir_scan(
                    vs,
                    i as int,
                    parents,
                    verbose,
                    views(dirs@),
                ),
            decreases args@.len() - i,
        {
            let a = args[i].as_str();
            proof {
                assert(vs[i as int] == args@[i as int]@);
            }
            if str_eq(a, "-p") || str_eq(a, "--parents") {
                parents = true;
            } else if str_eq(a, "-m") || str_eq(a, "--mode") {
            } else if str_eq(a, "-v") || str_eq(a, "--verbose") {
                verbose = true;
            } else if starts_with(a, "-") && a.unicode_len() > 1 {
            } else {
                let ghost prev = dirs@;
                dirs.push(args[i].clone());
                proof {
                    assert(views(dirs@) =~= views(prev).push(args@[i as int]@));
                }
            }
            i = i + 1;
        }
        if dirs.len() == 0 {
            return Ok("mkdir".to_owned());
        }
        let mut out: String = "mkdir".to_owned();
        if verbose {
            out.append(" --verbose");
        }
        append_path_args(&mut out, &dirs);
        if parents {
            out.append(" # creates parent directories automatically");
        }
        Ok(out)
    }

    fn command_name(&self) -> (r: &'static str) {
        "mkdir"
    }

    fn description(&self) -> &'static str {
        "Converts mkdir commands to target mkdir commands"
    }
}

} // verus!
