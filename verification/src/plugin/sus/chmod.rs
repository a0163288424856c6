//! `chmod` converter: renders external `chmod` invocations.

use super::CommandConverter;
use crate::plugin::ConvertError;
use crate::quoting::{quote_word, spec_quote_word};
use crate::text::{spec_starts_with, starts_with, str_eq, views};
use vstd::prelude::*;

verus! {

/// Converter for the `chmod` command.
pub struct ChmodConverter;

/// Word-quoted arguments, each preceded by a space.
pub open spec fn spec_word_args(files: Seq<Seq<char>>, i: int) -> Seq<char>
    decreases files.len() - i,
{
    if i < 0 || i >= files.len() {
        Seq::empty()
    } else {
        " "@ + spec_quote_word(files[i]) + spec_word_args(files, i + 1)
    }
}

/// Word-quoted arguments, each followed by a space.
pub open spec fn spec_word_args_trailing(files: Seq<Seq<char>>, i: int) -> Seq<char>
    decreases files.len() - i,
{
    if i < 0 || i >= files.len() {
        Seq::empty()
    } else {
        spec_quote_word(files[i]) + " "@ + spec_word_args_trailing(files, i + 1)
    }
}

/// Append word-quoted arguments to `out`, each preceded by a space.
#[verifier::loop_isolation(false)]
pub fn append_word_args(out: &mut String, files: &Vec<String>)
    ensures
        final(out)@ == old(out)@ + spec_word_args(views(files@), 0),
{
    let ghost gfiles = views(files@);
    let mut k: usize = 0;
    while k < files.len()
        invariant
            k <= files@.len(),
            out@ + spec_word_args(gfiles, k as int) == old(out)@ + spec_word_args(gfiles, 0),
        decreases files@.len() - k,
    {
        proof {
            assert(gfiles[k as int] == files@[k as int]@);
        }
        out.append(" ");
        out.append(quote_word(files[k].as_str()).as_str());
        k = k + 1;
    }
    proof {
        assert(spec_word_args(gfiles, files@.len() as int) =~= Seq::<char>::empty());
        assert(out@ + Seq::<char>::empty() =~= out@);
    }
}

/// Append word-quoted arguments to `out`, each followed by a space.
#[verifier::loop_isolation(false)]
pub fn append_word_args_trailing(out: &mut String, files: &Vec<String>)
    ensures
        final(out)@ == old(out)@ + spec_word_args_trailing(views(files@), 0),
{
    let ghost gfiles = views(files@);
    let mut k: usize = 0;
    while k < files.len()
        invariant
            k <= files@.len(),
            out@ + spec_word_args_trailing(gfiles, k as int) == old(out)@
                + spec_word_args_trailing(gfiles, 0),
        decreases files@.len() - k,
    {
        proof {
            assert(gfiles[k as int] == files@[k as int]@);
        }
        out.append(quote_word(files[k].as_str()).as_str());
        out.append(" ");
        k = k + 1;
    }
    proof {
        assert(spec_word_args_trailing(gfiles, files@.len() as int) =~= Seq::<char>::empty());
        assert(out@ + Seq::<char>::empty() =~= out@);
    }
}

/// Flags read from one combined short option such as `-Rv`.
pub open spec fn spec_chmod_flag_chars(cs: Seq<char>, j: int, rec: bool, verb: bool, quiet: bool) -> (
    bool,
    bool,
    bool,
)
    decreases cs.len() - j,
{
    if j < 0 || j >= cs.len() {
        (rec, verb, quiet)
    } else if cs[j] == 'R' {
        spec_chmod_flag_chars(cs, j + 1, true, verb, quiet)
    } else if cs[j] == 'v' || cs[j] == 'c' {
        spec_chmod_flag_chars(cs, j + 1, rec, true, quiet)
    } else if cs[j] == 'f' {
        spec_chmod_flag_chars(cs, j + 1, rec, verb, true)
    } else {
        spec_chmod_flag_chars(cs, j + 1, rec, verb, quiet)
    }
}

/// The flag state gathered while scanning `chmod` arguments.
pub struct ChmodScan {
    pub recursive: bool,
    pub verbose: bool,
    pub quiet: bool,
    pub reference: Seq<char>,
    pub mode: Seq<char>,
    pub files: Seq<Seq<char>>,
}

pub open spec fn spec_chmod_init() -> ChmodScan {
    ChmodScan {
        recursive: false,
        verbose: false,
        quiet: false,
        reference: Seq::empty(),
        mode: Seq::empty(),
        files: Seq::empty(),
    }
}

pub open spec fn spec_chmod_scan(vs: Seq<Seq<char>>, i: int, st: ChmodScan) -> ChmodScan
    decreases vs.len() - i,
{
    if i < 0 || i >= vs.len() {
        st
    } else if vs[i] == "--recursive"@ {
        spec_chmod_scan(vs, i + 1, ChmodScan { recursive: true, ..st })
    } else if vs[i] == "--verbose"@ || vs[i] == "--changes"@ {
        spec_chmod_scan(vs, i + 1, ChmodScan { verbose: true, ..st })
    } else if vs[i] == "--silent"@ || vs[i] == "--quiet"@ {
        spec_chmod_scan(vs, i + 1, ChmodScan { quiet: true, ..st })
    } else if vs[i] == "--reference"@ {
        if i + 1 < vs.len() {
            spec_chmod_scan(vs, i + 2, ChmodScan { reference: vs[i + 1], ..st })
        } else {
            spec_chmod_scan(vs, i + 1, st)
        }
    } else if spec_starts_with(vs[i], "-"@) && vs[i].len() > 1 && !spec_starts_with(vs[i], "--"@) {
        let (r2, v2, q2) = spec_chmod_flag_chars(vs[i].skip(1), 0, st.recursive, st.verbose, st.quiet);
        spec_chmod_scan(vs, i + 1, ChmodScan { recursive: r2, verbose: v2, quiet: q2, ..st })
    } else if spec_starts_with(vs[i], "-"@) {
        spec_chmod_scan(vs, i + 1, st)
    } else if st.mode.len() == 0 && st.reference.len() == 0 {
        spec_chmod_scan(vs, i + 1, ChmodScan { mode: vs[i], ..st })
    } else {
        spec_chmod_scan(vs, i + 1, ChmodScan { files: st.files.push(vs[i]), ..st })
    }
}

/// The exact text produced for `chmod` with the given arguments.
pub open spec fn spec_convert_chmod(vs: Seq<Seq<char>>) -> Seq<char> {
    if vs.len() == 0 {
        "chmod"@
    } else {
        let st = spec_chmod_scan(vs, 0, spec_chmod_init());
        if st.files.len() == 0 && st.reference.len() == 0 {
            "chmod"@
        } else {
            (if st.recursive {
                "ls "@ + spec_word_args_trailing(st.files, 0) + "| each { |file| "@ + (if st.reference.len() > 0 {
                    "chmod --reference="@ + spec_quote_word(st.reference) + " $file.name"@
                } else {
                    "chmod "@ + spec_quote_word(st.mode) + " $file.name"@
                }) + " }"@
            } else {
                (if st.reference.len() > 0 {
                    "chmod --reference="@ + spec_quote_word(st.reference)
                } else {
                    "chmod "@ + spec_quote_word(st.mode)
                }) + spec_word_args(st.files, 0)
            }) + (if st.verbose {
                " --verbose"@
            } else {
                Seq::<char>::empty()
            }) + (if st.quiet {
                " --quiet"@
            } else {
                Seq::<char>::empty()
            }) + " # Note: uses external chmod command"@
        }
    }
}

/// Read the flag characters of one combined short option.
#[verifier::loop_isolation(false)]
pub fn chmod_flag_chars(a: &str, r0: bool, v0: bool, q0: bool) -> (r: (bool, bool, bool))
    requires
        a@.len() >= 1,
    ensures
        (r.0, r.1, r.2) == spec_chmod_flag_chars(a@.skip(1), 0, r0, v0, q0),
{
    let ghost cs = a@.skip(1);
    let n = a.unicode_len();
    let mut rec = r0;
    let mut verb = v0;
    let mut quiet = q0;
    let mut j: usize = 1;
    while j < n
        invariant
            1 <= j <= n,
            spec_chmod_flag_chars(cs, 0, r0, v0, q0) == spec_chmod_flag_chars(
                cs,
                j - 1,
                rec,
                verb,
                quiet,
            ),
        decreases n - j,
    {
        let c = a.get_char(j);
        proof {
            assert(cs[j - 1] == a@[j as int]);
        }
        if c == 'R' {
            rec = true;
        } else if c == 'v' || c == 'c' {
            verb = true;
        } else if c == 'f' {
            quiet = true;
        }
        j = j + 1;
    }
    (rec, verb, quiet)
}

/// Scan the arguments of `chmod` into its flag state.
#[verifier::loop_isolation(false)]
#[verifier::rlimit(60)]
fn chmod_scan(args: &[String]) -> (r: (bool, bool, bool, String, String, Vec<String>))
    ensures
        spec_chmod_scan(views(args@), 0, spec_chmod_init()) == (ChmodScan {
            recursive: r.0,
            verbose: r.1,
            quiet: r.2,
            reference: r.3@,
            mode: r.4@,
            files: views(r.5@),
        }),
{
    let ghost vs = views(args@);
    let mut recursive = false;
    let mut verbose = false;
    let mut quiet = false;
    let mut reference: String = String::new();
    let mut mode: String = String::new();
    let mut files: Vec<String> = Vec::new();
    proof {
        assert(views(files@) =~= Seq::<Seq<char>>::empty());
        assert(reference@ =~= Seq::<char>::empty());
        assert(mode@ =~= Seq::<char>::empty());
    }
    let mut i: usize = 0;
    while i < args.len()
        invariant
            i <= args@.len(),
            spec_chmod_scan(vs, 0, spec_chmod_init()) == spec_chmod_scan(
                vs,
                i as int,
                ChmodScan {
                    recursive: recursive,
                    verbose: verbose,
                    quiet: quiet,
                    reference: reference@,
                    mode: mode@,
                    files: views(files@),
                },
            ),
        decreases args@.len() - i,
    {
        let a = args[i].as_str();
        proof {
            assert(vs[i as int] == args@[i as int]@);
            if i + 1 < args.len() {
                assert(vs[i as int + 1] == args@[i as int + 1]@);
            }
        }
        if str_eq(a, "--recursive") {
            recursive = true;
            i = i + 1;
        } else if str_eq(a, "--verbose") || str_eq(a, "--changes") {
            verbose = true;
            i = i + 1;
        } else if str_eq(a, "--silent") || str_eq(a, "--quiet") {
            quiet = true;
            i = i + 1;
        } else if str_eq(a, "--reference") {
            if i + 1 < args.len() {
                reference = args[i + 1].clone();
                i = i + 2;
            } else {
                i = i + 1;
            }
        } else if starts_with(a, "-") && a.unicode_len() > 1 && !starts_with(a, "--") {
            proof {
                reveal_strlit("-");
            }
            let (r2, v2, q2) = chmod_flag_chars(a, recursive, verbose, quiet);
            recursive = r2;
            verbose = v2;
            quiet = q2;
            i = i + 1;
        } else if starts_with(a, "-") {
            i = i + 1;
        } else if mode.as_str().unicode_len() == 0 && reference.as_str().unicode_len() == 0 {
            mode = args[i].clone();
            i = i + 1;
        } else {
            let ghost prev = files@;
            files.push(args[i].clone());
            proof {
                assert(views(files@) =~= views(prev).push(args@[i as int]@));
            }
            i = i + 1;
        }
    }
    (recursive, verbose, quiet, reference, mode, files)
}

impl CommandConverter for ChmodConverter {
    open spec fn spec_convert(&self, vs: Seq<Seq<char>>) -> Seq<char> {
        spec_convert_chmod(vs)
    }

    open spec fn spec_name(&self) -> Seq<char> {
        "chmod"@
    }

    #[verifier::loop_isolation(false)]
    #[verifier::rlimit(100)]
    fn convert(&self, args: &[String]) -> (r: Result<String, ConvertError>) {
        let ghost vs = views(args@);
        if args.len() == 0 {
            return Ok("chmod".to_owned());
        }
        let (recursive, verbose, quiet, reference, mode, files) = chmod_scan(args);
        if files.len() == 0 && reference.as_str().unicode_len() == 0 {
            return Ok("chmod".to_owned());
        }
        let mut out: String;
        if recursive {
            out = "ls ".to_owned();
            append_word_args_trailing(&mut out, &files);
            out.append("| each { |file| ");
            if reference.as_str().unicode_len() > 0 {
                out.append("chmod --reference=");
                out.append(quote_word(reference.as_str()).as_str());
                out.append(" $file.name");
            } else {
                out.append("chmod ");
                out.append(quote_word(mode.as_str()).as_str());
                out.append(" $file.name");
            }
            out.append(" }");
        } else {
            if reference.as_str().unicode_len() > 0 {
                out = "chmod --reference=".to_owned();
                out.append(quote_word(reference.as_str()).as_str());
            } else {
                out = "chmod ".to_owned();
                out.append(quote_word(mode.as_str()).as_str());
            }
            append_word_args(&mut out, &files);
        }
        if verbose {
            out.append(" --verbose");
        }
        if quiet {
            out.append(" --quiet");
        }
        out.append(" # Note: uses external chmod command");
        Ok(out)
    }

    fn command_name(&self) -> (r: &'static str) {
        "chmod"
    }

    fn description(&self) -> &'static str {
        "Converts chmod commands to external chmod invocations"
    }
}

} // verus!
