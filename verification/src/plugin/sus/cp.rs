//! `cp` converter.

use super::{BaseConverter, CommandConverter};
use crate::plugin::sus::rm::{append_path_args, spec_path_args};
use crate::plugin::ConvertError;
use crate::quoting::spec_format_args;
use crate::text::{spec_starts_with, starts_with, str_eq, views};
use vstd::prelude::*;

verus! {

/// Converter for the `cp` command.
pub struct CpConverter;

/// The flag state gathered while scanning `cp` arguments.
pub struct CpScan {
    pub recursive: bool,
    pub force: bool,
    pub no_clobber: bool,
    pub update: bool,
    pub verbose: bool,
    pub files: Seq<Seq<char>>,
}

pub open spec fn spec_cp_init() -> CpScan {
    CpScan { recursive: false, force: false, no_clobber: false, update: false, verbose: false, files: Seq::empty() }
}

pub open spec fn spec_cp_scan(vs: Seq<Seq<char>>, i: int, st: CpScan) -> CpScan
    decreases vs.len() - i,
{
    if i < 0 || i >= vs.len() {
        st
    } else if vs[i] == "-r"@ || vs[i] == "-R"@ || vs[i] == "--recursive"@ {
        spec_cp_scan(vs, i + 1, CpScan { recursive: true, ..st })
    } else if vs[i] == "-p"@ || vs[i] == "--preserve"@ {
        spec_cp_scan(vs, i + 1, st)
    } else if vs[i] == "-f"@ || vs[i] == "--force"@ {
        spec_cp_scan(vs, i + 1, CpScan { force: true, ..st })
    } else if vs[i] == "-n"@ || vs[i] == "--no-clobber"@ {
        spec_cp_scan(vs, i + 1, CpScan { no_clobber: true, ..st })
    } else if vs[i] == "-u"@ || vs[i] == "--update"@ {
        spec_cp_scan(vs, i + 1, CpScan { update: true, ..st })
    } else if vs[i] == "-v"@ || vs[i] == "--verbose"@ {
        spec_cp_scan(vs, i + 1, CpScan { verbose: true, ..st })
    } else if vs[i] == "-i"@ || vs[i] == "--interactive"@ || vs[i] == "-l"@ || vs[i] == "--link"@
        || vs[i] == "-s"@ || vs[i] == "--symbolic-link"@ {
        spec_cp_scan(vs, i + 1, st)
    } else if spec_starts_with(vs[i], "-"@) && vs[i].len() > 1 {
        spec_cp_scan(vs, i + 1, st)
    } else {
        spec_cp_scan(vs, i + 1, CpScan { files: st.files.push(vs[i]), ..st })
    }
}

/// The exact text produced for `cp` with the given arguments.
pub open spec fn spec_convert_cp(vs: Seq<Seq<char>>) -> Seq<char> {
    if vs.len() == 0 {
        "cp"@
    } else {
        let st = spec_cp_scan(vs, 0, spec_cp_init());
        if st.files.len() < 2 {
            "cp "@ + spec_format_args(vs)
        } else {
            "cp"@ + (if st.recursive {
                " -r"@
            } else {
                Seq::<char>::empty()
            }) + (if st.force {
                " --force"@
            } else {
                Seq::<char>::empty()
            }) + (if st.no_clobber {
                " --no-clobber"@
            } else {
                Seq::<char>::empty()
            }) + (if st.update {
                " --update"@
            } else {
                Seq::<char>::empty()
            }) + (if st.verbose {
                " --verbose"@
            } else {
                Seq::<char>::empty()
            }) + spec_path_args(st.files, 0)
        }
    }
}

impl CommandConverter for CpConverter {
    open spec fn spec_convert(&self, vs: Seq<Seq<char>>) -> Seq<char> {
        spec_convert_cp(vs)
    }

    open spec fn spec_name(&self) -> Seq<char> {
        "cp"@
    }

    #[verifier::loop_isolation(false)]
    #[verifier::rlimit(100)]
    fn convert(&self, args: &[String]) -> (r: Result<String, ConvertError>) {
        let base = BaseConverter;
        let ghost vs = views(args@);
        if args.len() == 0 {
            return Ok("cp".to_owned());
        }
        let mut recursive = false;
        let mut force = false;
        let mut no_clobber = false;
        let mut update = false;
        let mut verbose = false;
        let mut files: Vec<String> = Vec::new();
        proof {
            assert(views(files@) =~= Seq::<Seq<char>>::empty());
        }
        let mut i: usize = 0;
        while i < args.len()
            invariant
                i <= args@.len(),
                spec_cp_scan(vs, 0, spec_cp_init()) == spec_cp_scan(
                    vs,
                    i as int,
                    CpScan {
                        recursive: recursive,
                        force: force,
                        no_clobber: no_clobber,
                        update: update,
                        verbose: verbose,
                        files: views(files@),
                    },
                ),
            decreases args@.len() - i,
        {
            let a = args[i].as_str();
            proof {
                assert(vs[i as int] == args@[i as int]@);
            }
            if str_eq(a, "-r") || str_eq(a, "-R") || str_eq(a, "--recursive") {
                recursive = true;
            } else if str_eq(a, "-p") || str_eq(a, "--preserve") {
            } else if str_eq(a, "-f") || str_eq(a, "--force") {
                force = true;
            } else if str_eq(a, "-n") || str_eq(a, "--no-clobber") {
                no_clobber = true;
            } else if str_eq(a, "-u") || str_eq(a, "--update") {
                update = true;
            } else if str_eq(a, "-v") || str_eq(a, "--verbose") {
                verbose = true;
            } else if str_eq(a, "-i") || str_eq(a, "--interactive") || str_eq(a, "-l") || str_eq(
                a,
                "--link",
            ) || str_eq(a, "-s") || str_eq(a, "--symbolic-link") {
            } else if starts_with(a, "-") && a.unicode_len() > 1 {
            } else {
                let ghost prev = files@;
                files.push(args[i].clone());
                proof {
                    assert(views(files@) =~= views(prev).push(args@[i as int]@));
                }
            }
            i = i + 1;
        }
        if files.len() < 2 {
            let mut out: String = "cp ".to_owned();
            out.append(base.format_args(args).as_str());
            return Ok(out);
        }
        let mut out: String = "cp".to_owned();
        if recursive {
            out.append(" -r");
        }
        if force {
            out.append(" --force");
        }
        if no_clobber {
            out.append(" --no-clobber");
        }
        if update {
            out.append(" --update");
        }
        if verbose {
            out.append(" --verbose");
        }
        append_path_args(&mut out, &files);
        Ok(out)
    }

    fn command_name(&self) -> (r: &'static str) {
        "cp"
    }

    fn description(&self) -> &'static str {
        "Converts cp commands to target cp commands"
    }
}

} // verus!
