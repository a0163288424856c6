//! `tee` converter.

use super::{BaseConverter, CommandConverter};
use crate::plugin::ConvertError;
use crate::quoting::spec_quoted_words;
use crate::text::{join_with, spec_join, spec_starts_with, starts_with, str_eq, views};
use vstd::prelude::*;

verus! {

/// Converter for the `tee` command.
pub struct TeeConverter;

/// The flag state gathered while scanning `tee` arguments; `--help` and
/// `--version` short-circuit.
pub open spec fn spec_tee_scan(vs: Seq<Seq<char>>, i: int, append: bool, files: Seq<Seq<char>>) -> (
    bool,
    Seq<Seq<char>>,
    Option<Seq<char>>,
)
    decreases vs.len() - i,
{
    if i < 0 || i >= vs.len() {
        (append, files, None)
    } else if vs[i] == "-a"@ || vs[i] == "--append"@ {
        spec_tee_scan(vs, i + 1, true, files)
    } else if vs[i] == "-i"@ || vs[i] == "--ignore-interrupts"@ {
        spec_tee_scan(vs, i + 1, append, files)
    } else if vs[i] == "--help"@ {
        (append, files, Some("tee --help"@))
    } else if vs[i] == "--version"@ {
        (append, files, Some("tee --version"@))
    } else if !spec_starts_with(vs[i], "-"@) {
        spec_tee_scan(vs, i + 1, append, files.push(vs[i]))
    } else {
        spec_tee_scan(vs, i + 1, append, files)
    }
}

/// The exact text produced for `tee` with the given arguments.
pub open spec fn spec_convert_tee(vs: Seq<Seq<char>>) -> Seq<char> {
    if vs.len() == 0 {
        "tee"@
    } else {
        let (append, files, early) = spec_tee_scan(vs, 0, false, Seq::empty());
        match early {
            Some(text) => text,
            None => {
                if files.len() == 0 {
                    "tee"@
                } else {
                    (if append {
                        "tee -a"@
                    } else {
                        "tee"@
                    }) + " "@ + spec_join(spec_quoted_words(files), " "@)
                }
            },
        }
    }
}

impl CommandConverter for TeeConverter {
    open spec fn spec_convert(&self, vs: Seq<Seq<char>>) -> Seq<char> {
        spec_convert_tee(vs)
    }

    open spec fn spec_name(&self) -> Seq<char> {
        "tee"@
    }

    #[verifier::loop_isolation(false)]
    #[verifier::rlimit(60)]
    fn convert(&self, args: &[String]) -> (r: Result<String, ConvertError>) {
        let base = BaseConverter;
        let ghost vs = views(args@);
        if args.len() == 0 {
            return Ok("tee".to_owned());
        }
        let mut append = false;
        let mut files: Vec<String> = Vec::new();
        proof {
            assert(views(files@) =~= Seq::<Seq<char>>::empty());
        }
        let mut i: usize = 0;
        while i < args.len()
            invariant
                i <= args@.len(),
                spec_tee_scan(vs, 0, false, Seq::empty()) == spec_tee_scan(
                    vs,
                    i as int,
                    append,
                    views(files@),
                ),
            decreases args@.len() - i,
        {
            let a = args[i].as_str();
            proof {
                assert(vs[i as int] == args@[i as int]@);
            }
            if str_eq(a, "-a") || str_eq(a, "--append") {
                append = true;
            } else if str_eq(a, "-i") || str_eq(a, "--ignore-interrupts") {
            } else if str_eq(a, "--help") {
                return Ok("tee --help".to_owned());
            } else if str_eq(a, "--version") {
                return Ok("tee --version".to_owned());
            } else if !starts_with(a, "-") {
                let ghost prev = files@;
                files.push(args[i].clone());
                proof {
                    assert(views(files@) =~= views(prev).push(args@[i as int]@));
                }
            }
            i = i + 1;
        }
        if files.len() == 0 {
            return Ok("tee".to_owned());
        }
        let mut out: String = if append {
            "tee -a".to_owned()
        } else {
            "tee".to_owned()
        };
        out.append(" ");
        let mut quoted: Vec<String> = Vec::new();
        let ghost gfiles = views(files@);
        let mut k: usize = 0;
        while k < files.len()
            invariant
                k <= files@.len(),
                gfiles == views(files@),
                views(quoted@) =~= spec_quoted_words(gfiles.take(k as int)),
            decreases files@.len() - k,
        {
            let ghost prev = quoted@;
            quoted.push(base.quote_arg(files[k].as_str()));
            proof {
                assert(gfiles[k as int] == files@[k as int]@);
                assert forall|j: int| 0 <= j < k + 1 implies views(quoted@)[j]
                    == spec_quoted_words(gfiles.take(k as int + 1))[j] by {
                    assert(views(quoted@)[j] == quoted@[j]@);
                    if j < k {
                        assert(views(prev)[j] == prev[j]@);
                        assert(gfiles.take(k as int)[j] == gfiles[j]);
                    }
                }
                assert(views(quoted@) =~= spec_quoted_words(gfiles.take(k as int + 1)));
            }
            k = k + 1;
        }
        proof {
            assert(gfiles.take(files@.len() as int) =~= gfiles);
        }
        let joined = join_with(&quoted, " ");
        out.append(joined.as_str());
        Ok(out)
    }

    fn command_name(&self) -> (r: &'static str) {
        "tee"
    }

    fn description(&self) -> &'static str {
        "Converts tee commands to target tee operations"
    }
}

} // verus!
