//! `rmdir` converter: maps `rmdir` to `rm` with notes.

use super::CommandConverter;
use crate::plugin::sus::rm::{append_path_args, spec_path_args};
use crate::plugin::ConvertError;
use crate::text::{spec_starts_with, starts_with, str_eq, views};
use vstd::prelude::*;

verus! {

/// Converter for the `rmdir` command.
pub struct RmdirConverter;

/// Flags read from one combined short option such as `-pv`.
pub open spec fn spec_rmdir_flag_chars(cs: Seq<char>, j: int, parents: bool, verbose: bool) -> (
    bool,
    bool,
)
    decreases cs.len() - j,
{
    if j < 0 || j >= cs.len() {
        (parents, verbose)
    } else if cs[j] == 'p' {
        spec_rmdir_flag_chars(cs, j + 1, true, verbose)
    } else if cs[j] == 'v' {
        spec_rmdir_flag_chars(cs, j + 1, parents, true)
    } else {
        spec_rmdir_flag_chars(cs, j + 1, parents, verbose)
    }
}

/// The flag state gathered while scanning `rmdir` arguments.
pub open spec fn spec_rmdir_scan(
    vs: Seq<Seq<char>>,
    i: int,
    parents: bool,
    ignore_fail: bool,
    verbose: bool,
    dirs: Seq<Seq<char>>,
) -> (bool, bool, bool, Seq<Seq<char>>)
    decreases vs.len() - i,
{
    if i < 0 || i >= vs.len() {
        (parents, ignore_fail, verbose, dirs)
    } else if vs[i] == "--parents"@ {
        spec_rmdir_scan(vs, i + 1, true, ignore_fail, verbose, dirs)
    } else if vs[i] == "--ignore-fail-on-non-empty"@ {
        spec_rmdir_scan(vs, i + 1, parents, true, verbose, dirs)
    } else if vs[i] == "--verbose"@ {
        spec_rmdir_scan(vs, i + 1, parents, ignore_fail, true, dirs)
    } else if spec_starts_with(vs[i], "-"@) && vs[i].len() > 1 && !spec_starts_with(vs[i], "--"@) {
        let (p2, v2) = spec_rmdir_flag_chars(vs[i].skip(1), 0, parents, verbose)
        ;
        spec_rmdir_scan(vs, i + 1, p2, ignore_fail, v2, dirs)
    } else if spec_starts_with(vs[i], "-"@) {
        spec_rmdir_scan(vs, i + 1, parents, ignore_fail, verbose, dirs)
    } else {
        spec_rmdir_scan(vs, i + 1, parents, ignore_fail, verbose, dirs.push(vs[i]))
    }
}

/// The exact text produced for `rmdir` with the given arguments.
pub open spec fn spec_convert_rmdir(vs: Seq<Seq<char>>) -> Seq<char> {
    if vs.len() == 0 {
        "rm"@
    } else {
        let (parents, ignore_fail, verbose, dirs) = spec_rmdir_scan(
            vs,
            0,
            false,
            false,
            false,
            Seq::empty(),
        );
        if dirs.len() == 0 {
            "rm"@
        } else {
            "rm"@ + (if verbose {
                " --verbose"@
            } else {
                Seq::<char>::empty()
            }) + (if parents {
                " --recursive"@
            } else {
                Seq::<char>::empty()
            }) + spec_path_args(dirs, 0) + (if !ignore_fail {
                " # Note: rmdir only removes empty directories"@
            } else {
                Seq::<char>::empty()
            })
        }
    }
}

/// Read the flag characters of one combined short option.
#[verifier::loop_isolation(false)]
fn rmdir_flag_chars(a: &str, p0: bool, v0: bool) -> (r: (bool, bool))
    requires
        a@.len() >= 1,
    ensures
        (r.0, r.1) == spec_rmdir_flag_chars(a@.skip(1), 0, p0, v0),
{
    let ghost cs = a@.skip(1);
    let n = a.unicode_len();
    let mut parents = p0;
    let mut verbose = v0;
    let mut j: usize = 1;
    while j < n
        invariant
            1 <= j <= n,
            spec_rmdir_flag_chars(cs, 0, p0, v0) == spec_rmdir_flag_chars(
                cs,
                j - 1,
                parents,
                verbose,
            ),
        decreases n - j,
    {
        let c = a.get_char(j);
        proof {
            assert(cs[j - 1] == a@[j as int]);
        }
        if c == 'p' {
            parents = true;
        } else if c == 'v' {
            verbose = true;
        }
        j = j + 1;
    }
    (parents, verbose)
}

impl CommandConverter for RmdirConverter {
    open spec fn spec_convert(&self, vs: Seq<Seq<char>>) -> Seq<char> {
        spec_convert_rmdir(vs)
    }

    open spec fn spec_name(&self) -> Seq<char> {
        "rmdir"@
    }

    #[verifier::loop_isolation(false)]
    #[verifier::rlimit(60)]
    fn convert(&self, args: &[String]) -> (r: Result<String, ConvertError>) {
        let ghost vs = views(args@);
        if args.len() == 0 {
            return Ok("rm".to_owned());
        }
        let mut parents = false;
        let mut ignore_fail = false;
        let mut verbose = false;
        let mut dirs: Vec<String> = Vec::new();
        proof {
            assert(views(dirs@) =~= Seq::<Seq<char>>::empty());
        }
        let mut i: usize = 0;
        while i < args.len()
            invariant
                i <= args@.len(),
                spec_rmdir_scan(vs, 0, false, false, false, Seq::empty()) == spec_rmdir_scan(
                    vs,
                    i as int,
                    parents,
                    ignore_fail,
                    verbose,
                    views(dirs@),
                ),
            decreases args@.len() - i,
        {
            let a = args[i].as_str();
            proof {
                assert(vs[i as int] == args@[i as int]@);
            }
            if str_eq(a, "--parents") {
                parents = true;
            } else if str_eq(a, "--ignore-fail-on-non-empty") {
                ignore_fail = true;
            } else if str_eq(a, "--verbose") {
                verbose = true;
            } else if starts_with(a, "-") && a.unicode_len() > 1 && !starts_with(a, "--") {
                proof {
                    reveal_strlit("-");
                }
                let (p2, v2) = rmdir_flag_chars(a, parents, verbose);
                parents = p2;
                verbose = v2;
            } else if starts_with(a, "-") {
            } else {
                let ghost prev = dirs@;
                dirs.push(args[i].clone());
                proof {
                    assert(views(dirs@) =~= views(prev).push(args@[i as int]@));
                }
            }
            i = i + 1;
        }
        if dirs.len() == 0 {
            return Ok("rm".to_owned());
        }
        let mut out: String = "rm".to_owned();
        if verbose {
            out.append(" --verbose");
        }
        if parents {
            out.append(" --recursive");
        }
        append_path_args(&mut out, &dirs);
        if !ignore_fail {
            out.append(" # Note: rmdir only removes empty directories");
        }
        Ok(out)
    }

    fn command_name(&self) -> (r: &'static str) {
        "rmdir"
    }

    fn description(&self) -> &'static str {
        "Converts rmdir commands to target rm commands for directories"
    }
}

} // verus!
