//! `rm` converter.

use super::CommandConverter;
use crate::plugin::ConvertError;
use crate::quoting::{quote_path, spec_quote_path};
use crate::text::{spec_starts_with, starts_with, str_eq, views};
use vstd::prelude::*;

verus! {

/// Converter for the `rm` command.
pub struct RmConverter;

/// The flag state gathered while scanning `rm` arguments.
pub struct RmScan {
    pub recursive: bool,
    pub force: bool,
    pub interactive: bool,
    pub verbose: bool,
    pub trash: bool,
    pub files: Seq<Seq<char>>,
}

pub open spec fn spec_rm_init() -> RmScan {
    RmScan { recursive: false, force: false, interactive: false, verbose: false, trash: false, files: Seq::empty() }
}

pub open spec fn spec_rm_scan(vs: Seq<Seq<char>>, i: int, st: RmScan) -> RmScan
    decreases vs.len() - i,
{
    if i < 0 || i >= vs.len() {
        st
    } else if vs[i] == "-r"@ || vs[i] == "-R"@ || vs[i] == "--recursive"@ {
        spec_rm_scan(vs, i + 1, RmScan { recursive: true, ..st })
    } else if vs[i] == "-f"@ || vs[i] == "--force"@ {
        spec_rm_scan(vs, i + 1, RmScan { force: true, ..st })
    } else if vs[i] == "-i"@ || vs[i] == "--interactive"@ {
        spec_rm_scan(vs, i + 1, RmScan { interactive: true, ..st })
    } else if vs[i] == "-v"@ || vs[i] == "--verbose"@ {
        spec_rm_scan(vs, i + 1, RmScan { verbose: true, ..st })
    } else if vs[i] == "-t"@ || vs[i] == "--trash"@ {
        spec_rm_scan(vs, i + 1, RmScan { trash: true, ..st })
    } else if vs[i] == "-d"@ || vs[i] == "--dir"@ || vs[i] == "--preserve-root"@ || vs[i]
        == "--no-preserve-root"@ {
        spec_rm_scan(vs, i + 1, st)
    } else if spec_starts_with(vs[i], "-"@) && vs[i].len() > 1 {
        spec_rm_scan(vs, i + 1, st)
    } else {
        spec_rm_scan(vs, i + 1, RmScan { files: st.files.push(vs[i]), ..st })
    }
}

/// Quoted file arguments, each preceded by a space.
pub open spec fn spec_path_args(files: Seq<Seq<char>>, i: int) -> Seq<char>
    decreases files.len() - i,
{
    if i < 0 || i >= files.len() {
        Seq::empty()
    } else {
        " "@ + spec_quote_path(files[i]) + spec_path_args(files, i + 1)
    }
}

/// The exact text produced for `rm` with the given arguments.
pub open spec fn spec_convert_rm(vs: Seq<Seq<char>>) -> Seq<char> {
    if vs.len() == 0 {
        "rm"@
    } else {
        let st = spec_rm_scan(vs, 0, spec_rm_init());
        if st.files.len() == 0 {
            "rm"@
        } else {
            "rm"@ + (if st.recursive {
                " -r"@
            } else {
                Seq::<char>::empty()
            }) + (if st.force {
                " --force"@
            } else {
                Seq::<char>::empty()
            }) + (if st.interactive {
                " --interactive"@
            } else {
                Seq::<char>::empty()
            }) + (if st.verbose {
                " --verbose"@
            } else {
                Seq::<char>::empty()
            }) + (if st.trash {
                " --trash"@
            } else {
                Seq::<char>::empty()
            }) + spec_path_args(st.files, 0)
        }
    }
}

/// Append quoted path arguments to `out`.
#[verifier::loop_isolation(false)]
pub fn append_path_args(out: &mut String, files: &Vec<String>)
    ensures
        final(out)@ == old(out)@ + spec_path_args(views(files@), 0),
{
    let ghost gfiles = views(files@);
    let mut k: usize = 0;
    while k < files.len()
        invariant
            k <= files@.len(),
            out@ + spec_path_args(gfiles, k as int) == old(out)@ + spec_path_args(gfiles, 0),
        decreases files@.len() - k,
    {
        proof {
            assert(gfiles[k as int] == files@[k as int]@);
        }
        out.append(" ");
        out.append(quote_path(files[k].as_str()).as_str());
        k = k + 1;
    }
    proof {
        assert(spec_path_args(gfiles, files@.len() as int) =~= Seq::<char>::empty());
        assert(out@ + Seq::<char>::empty() =~= out@);
    }
}

impl CommandConverter for RmConverter {
    open spec fn spec_convert(&self, vs: Seq<Seq<char>>) -> Seq<char> {
        spec_convert_rm(vs)
    }

    open spec fn spec_name(&self) -> Seq<char> {
        "rm"@
    }

    #[verifier::loop_isolation(false)]
    #[verifier::rlimit(60)]
    fn convert(&self, args: &[String]) -> (r: Result<String, ConvertError>) {
        let ghost vs = views(args@);
        if args.len() == 0 {
            return Ok("rm".to_owned());
        }
        let mut recursive = false;
        let mut force = false;
        let mut interactive = false;
        let mut verbose = false;
        let mut trash = false;
        let mut files: Vec<String> = Vec::new();
        proof {
            assert(views(files@) =~= Seq::<Seq<char>>::empty());
        }
        let mut i: usize = 0;
        while i < args.len()
            invariant
                i <= args@.len(),
                spec_rm_scan(vs, 0, spec_rm_init()) == spec_rm_scan(
                    vs,
                    i as int,
                    RmScan {
                        recursive: recursive,
                        force: force,
                        interactive: interactive,
                        verbose: verbose,
                        trash: trash,
                        files: views(files@),
                    },
                ),
            decreases args@.len() - i,
        {
            let a = args[i].as_str();
            proof {
                assert(vs[i as int] == args@[i as int]@);
            }
            if str_eq(a, "-r") || str_eq(a, "-R") || str_eq(a, "--recursive") {
                recursive = true;
            } else if str_eq(a, "-f") || str_eq(a, "--force") {
                force = true;
            } else if str_eq(a, "-i") || str_eq(a, "--interactive") {
                interactive = true;
            } else if str_eq(a, "-v") || str_eq(a, "--verbose") {
                verbose = true;
            } else if str_eq(a, "-t") || str_eq(a, "--trash") {
                trash = true;
            } else if str_eq(a, "-d") || str_eq(a, "--dir") || str_eq(a, "--preserve-root")
                || str_eq(a, "--no-preserve-root") {
            } else if starts_with(a, "-") && a.unicode_len() > 1 {
            } else {
                let ghost prev = files@;
                files.push(args[i].clone());
                proof {
                    assert(views(files@) =~= views(prev).push(args@[i as int]@));
                }
            }
            i = i + 1;
        }
        if files.len() == 0 {
            return Ok("rm".to_owned());
        }
        let mut out: String = "rm".to_owned();
        if recursive {
            out.append(" -r");
        }
        if force {
            out.append(" --force");
        }
        if interactive {
            out.append(" --interactive");
        }
        if verbose {
            out.append(" --verbose");
        }
        if trash {
            out.append(" --trash");
        }
        append_path_args(&mut out, &files);
        Ok(out)
    }

    fn command_name(&self) -> (r: &'static str) {
        "rm"
    }

    fn description(&self) -> &'static str {
        "Converts rm commands to target rm commands"
    }
}

} // verus!
