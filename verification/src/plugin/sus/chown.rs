//! `chown` converter: renders external `chown` invocations.

use super::CommandConverter;
use crate::plugin::sus::chmod::{
    append_word_args, append_word_args_trailing, spec_word_args, spec_word_args_trailing,
};
use crate::plugin::ConvertError;
use crate::quoting::{quote_word, spec_quote_word};
use crate::text::{spec_starts_with, starts_with, str_eq, views};
use vstd::prelude::*;

verus! {

/// Converter for the `chown` command.
pub struct ChownConverter;

/// Flags read from one combined short option such as `-Rv`.
pub open spec fn spec_chown_flag_chars(
    cs: Seq<char>,
    j: int,
    rec: bool,
    verb: bool,
    quiet: bool,
    changes: bool,
) -> (bool, bool, bool, bool)
    decreases cs.len() - j,
{
    if j < 0 || j >= cs.len() {
        (rec, verb, quiet, changes)
    } else if cs[j] == 'R' {
        spec_chown_flag_chars(cs, j + 1, true, verb, quiet, changes)
    } else if cs[j] == 'v' {
        spec_chown_flag_chars(cs, j + 1, rec, true, quiet, changes)
    } else if cs[j] == 'f' {
        spec_chown_flag_chars(cs, j + 1, rec, verb, true, changes)
    } else if cs[j] == 'c' {
        spec_chown_flag_chars(cs, j + 1, rec, verb, quiet, true)
    } else {
        spec_chown_flag_chars(cs, j + 1, rec, verb, quiet, changes)
    }
}

/// The flag state gathered while scanning `chown` arguments.
pub struct ChownScan {
    pub recursive: bool,
    pub verbose: bool,
    pub quiet: bool,
    pub changes: bool,
    pub reference: Seq<char>,
    pub owner: Seq<char>,
    pub files: Seq<Seq<char>>,
}

pub open spec fn spec_chown_init() -> ChownScan {
    ChownScan {
        recursive: false,
        verbose: false,
        quiet: false,
        changes: false,
        reference: Seq::empty(),
        owner: Seq::empty(),
        files: Seq::empty(),
    }
}

pub open spec fn spec_chown_scan(vs: Seq<Seq<char>>, i: int, st: ChownScan) -> ChownScan
    decreases vs.len() - i,
{
    if i < 0 || i >= vs.len() {
        st
    } else if vs[i] == "--recursive"@ {
        spec_chown_scan(vs, i + 1, ChownScan { recursive: true, ..st })
    } else if vs[i] == "--verbose"@ {
        spec_chown_scan(vs, i + 1, ChownScan { verbose: true, ..st })
    } else if vs[i] == "--silent"@ || vs[i] == "--quiet"@ {
        spec_chown_scan(vs, i + 1, ChownScan { quiet: true, ..st })
    } else if vs[i] == "--changes"@ {
        spec_chown_scan(vs, i + 1, ChownScan { changes: true, ..st })
    } else if vs[i] == "--reference"@ {
        if i + 1 < vs.len() {
            spec_chown_scan(vs, i + 2, ChownScan { reference: vs[i + 1], ..st })
        } else {
            spec_chown_scan(vs, i + 1, st)
        }
    } else if vs[i] == "--from"@ {
        if i + 1 < vs.len() {
            spec_chown_scan(vs, i + 2, st)
        } else {
            spec_chown_scan(vs, i + 1, st)
        }
    } else if vs[i] == "--no-dereference"@ || vs[i] == "--dereference"@ {
        spec_chown_scan(vs, i + 1, st)
    } else if spec_starts_with(vs[i], "-"@) && vs[i].len() > 1 && !spec_starts_with(vs[i], "--"@) {
        let (r2, v2, q2, c2) = spec_chown_flag_chars(
            vs[i].skip(1),
            0,
            st.recursive,
            st.verbose,
            st.quiet,
            st.changes,
        );
        spec_chown_scan(
            vs,
            i + 1,
            ChownScan { recursive: r2, verbose: v2, quiet: q2, changes: c2, ..st },
        )
    } else if spec_starts_with(vs[i], "-"@) {
        spec_chown_scan(vs, i + 1, st)
    } else if st.owner.len() == 0 && st.reference.len() == 0 {
        spec_chown_scan(vs, i + 1, ChownScan { owner: vs[i], ..st })
    } else {
        spec_chown_scan(vs, i + 1, ChownScan { files: st.files.push(vs[i]), ..st })
    }
}

/// The exact text produced for `chown` with the given arguments.
pub open spec fn spec_convert_chown(vs: Seq<Seq<char>>) -> Seq<char> {
    if vs.len() == 0 {
        "chown"@
    } else {
        let st = spec_chown_scan(vs, 0, spec_chown_init());
        if st.files.len() == 0 && st.reference.len() == 0 {
            "chown"@
        } else {
            (if st.recursive {
                "ls "@ + spec_word_args_trailing(st.files, 0) + "| each { |file| "@ + (if st.reference.len() > 0 {
                    "chown --reference="@ + spec_quote_word(st.reference) + " $file.name"@
                } else {
                    "chown "@ + spec_quote_word(st.owner) + " $file.name"@
                }) + " }"@
            } else {
                (if st.reference.len() > 0 {
                    "chown --reference="@ + spec_quote_word(st.reference)
                } else {
                    "chown "@ + spec_quote_word(st.owner)
                }) + spec_word_args(st.files, 0)
            }) + (if st.verbose {
                " --verbose"@
            } else {
                Seq::<char>::empty()
            }) + (if st.quiet {
                " --quiet"@
            } else {
                Seq::<char>::empty()
            }) + (if st.changes {
                " --changes"@
            } else {
                Seq::<char>::empty()
            }) + " # Note: uses external chown command"@
        }
    }
}

/// Read the flag characters of one combined short option.
#[verifier::loop_isolation(false)]
fn chown_flag_chars(a: &str, r0: bool, v0: bool, q0: bool, c0: bool) -> (r: (bool, bool, bool, bool))
    requires
        a@.len() >= 1,
    ensures
        (r.0, r.1, r.2, r.3) == spec_chown_flag_chars(a@.skip(1), 0, r0, v0, q0, c0),
{
    let ghost cs = a@.skip(1);
    let n = a.unicode_len();
    let mut rec = r0;
    let mut verb = v0;
    let mut quiet = q0;
    let mut changes = c0;
    let mut j: usize = 1;
    while j < n
        invariant
            1 <= j <= n,
            spec_chown_flag_chars(cs, 0, r0, v0, q0, c0) == spec_chown_flag_chars(
                cs,
                j - 1,
                rec,
                verb,
                quiet,
                changes,
            ),
        decreases n - j,
    {
        let c = a.get_char(j);
        proof {
            assert(cs[j - 1] == a@[j as int]);
        }
        if c == 'R' {
            rec = true;
        } else if c == 'v' {
            verb = true;
        } else if c == 'f' {
            quiet = true;
        } else if c == 'c' {
            changes = true;
        }
        j = j + 1;
    }
    (rec, verb, quiet, changes)
}

/// Scan the arguments of `chown` into its flag state.
#[verifier::loop_isolation(false)]
#[verifier::rlimit(100)]
fn chown_scan(args: &[String]) -> (r: (bool, bool, bool, bool, String, String, Vec<String>))
    ensures
        spec_chown_scan(views(args@), 0, spec_chown_init()) == (ChownScan {
            recursive: r.0,
            verbose: r.1,
            quiet: r.2,
            changes: r.3,
            reference: r.4@,
            owner: r.5@,
            files: views(r.6@),
        }),
{
    let ghost vs = views(args@);
    let mut recursive = false;
    let mut verbose = false;
    let mut quiet = false;
    let mut changes = false;
    let mut reference: String = String::new();
    let mut owner: String = String::new();
    let mut files: Vec<String> = Vec::new();
    proof {
        assert(views(files@) =~= Seq::<Seq<char>>::empty());
        assert(reference@ =~= Seq::<char>::empty());
        assert(owner@ =~= Seq::<char>::empty());
    }
    let mut i: usize = 0;
    while i < args.len()
        invariant
            i <= args@.len(),
            spec_chown_scan(vs, 0, spec_chown_init()) == spec_chown_scan(
                vs,
                i as int,
                ChownScan {
                    recursive: recursive,
                    verbose: verbose,
                    quiet: quiet,
                    changes: changes,
                    reference: reference@,
                    owner: owner@,
                    files: views(files@),
                },
            ),
        decreases args@.len() - i,
    {
        let a = args[i].as_str();
        proof {
            assert(vs[i as int] == args@[i as int]@);
            if i + 1 < args.len() {
                assert(vs[i as int + 1] == args@[i as int + 1]@);
            }
        }
        if str_eq(a, "--recursive") {
            recursive = true;
            i = i + 1;
        } else if str_eq(a, "--verbose") {
            verbose = true;
            i = i + 1;
        } else if str_eq(a, "--silent") || str_eq(a, "--quiet") {
            quiet = true;
            i = i + 1;
        } else if str_eq(a, "--changes") {
            changes = true;
            i = i + 1;
        } else if str_eq(a, "--reference") {
            if i + 1 < args.len() {
                reference = args[i + 1].clone();
                i = i + 2;
            } else {
                i = i + 1;
            }
        } else if str_eq(a, "--from") {
            if i + 1 < args.len() {
                i = i + 2;
            } else {
                i = i + 1;
            }
        } else if str_eq(a, "--no-dereference") || str_eq(a, "--dereference") {
            i = i + 1;
        } else if starts_with(a, "-") && a.unicode_len() > 1 && !starts_with(a, "--") {
            proof {
                reveal_strlit("-");
            }
            let (r2, v2, q2, c2) = chown_flag_chars(a, recursive, verbose, quiet, changes);
            recursive = r2;
            verbose = v2;
            quiet = q2;
            changes = c2;
            i = i + 1;
        } else if starts_with(a, "-") {
            i = i + 1;
        } else if owner.as_str().unicode_len() == 0 && reference.as_str().unicode_len() == 0 {
            owner = args[i].clone();
            i = i + 1;
        } else {
            let ghost prev = files@;
            files.push(args[i].clone());
            proof {
                assert(views(files@) =~= views(prev).push(args@[i as int]@));
            }
            i = i + 1;
        }
    }
    (recursive, verbose, quiet, changes, reference, owner, files)
}

impl CommandConverter for ChownConverter {
    open spec fn spec_convert(&self, vs: Seq<Seq<char>>) -> Seq<char> {
        spec_convert_chown(vs)
    }

    open spec fn spec_name(&self) -> Seq<char> {
        "chown"@
    }

    #[verifier::loop_isolation(false)]
    #[verifier::rlimit(100)]
    fn convert(&self, args: &[String]) -> (r: Result<String, ConvertError>) {
        let ghost vs = views(args@);
        if args.len() == 0 {
            return Ok("chown".to_owned());
        }
        let (recursive, verbose, quiet, changes, reference, owner, files) = chown_scan(args);
        if files.len() == 0 && reference.as_str().unicode_len() == 0 {
            return Ok("chown".to_owned());
        }
        let mut out: String;
        if recursive {
            out = "ls ".to_owned();
            append_word_args_trailing(&mut out, &files);
            out.append("| each { |file| ");
            if reference.as_str().unicode_len() > 0 {
                out.append("chown --reference=");
                out.append(quote_word(reference.as_str()).as_str());
                out.append(" $file.name");
            } else {
                out.append("chown ");
                out.append(quote_word(owner.as_str()).as_str());
                out.append(" $file.name");
            }
            out.append(" }");
        } else {
            if reference.as_str().unicode_len() > 0 {
                out = "chown --reference=".to_owned();
                out.append(quote_word(reference.as_str()).as_str());
            } else {
                out = "chown ".to_owned();
                out.append(quote_word(owner.as_str()).as_str());
            }
            append_word_args(&mut out, &files);
        }
        if verbose {
            out.append(" --verbose");
        }
        if quiet {
            out.append(" --quiet");
        }
        if changes {
            out.append(" --changes");
        }
        out.append(" # Note: uses external chown command");
        Ok(out)
    }

    fn command_name(&self) -> (r: &'static str) {
        "chown"
    }

    fn description(&self) -> &'static str {
        "Converts chown commands to external chown invocations"
    }
}

} // verus!
