//! `grep` converter: maps `grep` to `where` filter pipelines.

use super::{BaseConverter, CommandConverter};
use crate::plugin::ConvertError;
use crate::quoting::{quote_literal, spec_format_args, spec_quote_literal};
use crate::text::{spec_starts_with, starts_with, str_eq, views};
use vstd::prelude::*;

verus! {

/// Converter for the `grep` command.
pub struct GrepConverter;

/// The flag state gathered while scanning `grep` arguments.
pub struct GrepScan {
    pub pattern: Seq<char>,
    pub files: Seq<Seq<char>>,
    pub quiet: bool,
    pub invert: bool,
    pub fold_case: bool,
    pub count: bool,
    pub line_number: bool,
    pub fixed: bool,
    pub word: bool,
    pub only: bool,
}

pub open spec fn spec_grep_init() -> GrepScan {
    GrepScan {
        pattern: Seq::empty(),
        files: Seq::empty(),
        quiet: false,
        invert: false,
        fold_case: false,
        count: false,
        line_number: false,
        fixed: false,
        word: false,
        only: false,
    }
}

pub open spec fn spec_grep_scan(vs: Seq<Seq<char>>, i: int, st: GrepScan) -> GrepScan
    decreases vs.len() - i,
{
    if i < 0 || i >= vs.len() {
        st
    } else if vs[i] == "-q"@ || vs[i] == "--quiet"@ || vs[i] == "--silent"@ {
        spec_grep_scan(vs, i + 1, GrepScan { quiet: true, ..st })
    } else if vs[i] == "-v"@ || vs[i] == "--invert-match"@ {
        spec_grep_scan(vs, i + 1, GrepScan { invert: true, ..st })
    } else if vs[i] == "-i"@ || vs[i] == "--ignore-case"@ {
        spec_grep_scan(vs, i + 1, GrepScan { fold_case: true, ..st })
    } else if vs[i] == "-c"@ || vs[i] == "--count"@ {
        spec_grep_scan(vs, i + 1, GrepScan { count: true, ..st })
    } else if vs[i] == "-n"@ || vs[i] == "--line-number"@ {
        spec_grep_scan(vs, i + 1, GrepScan { line_number: true, ..st })
    } else if vs[i] == "-E"@ || vs[i] == "--extended-regexp"@ {
        spec_grep_scan(vs, i + 1, st)
    } else if vs[i] == "-F"@ || vs[i] == "--fixed-strings"@ {
        spec_grep_scan(vs, i + 1, GrepScan { fixed: true, ..st })
    } else if vs[i] == "-w"@ || vs[i] == "--word-regexp"@ {
        spec_grep_scan(vs, i + 1, GrepScan { word: true, ..st })
    } else if vs[i] == "-o"@ || vs[i] == "--only-matching"@ {
        spec_grep_scan(vs, i + 1, GrepScan { only: true, ..st })
    } else if vs[i] == "-l"@ || vs[i] == "--files-with-matches"@ || vs[i] == "-L"@ || vs[i]
        == "--files-without-match"@ || vs[i] == "-r"@ || vs[i] == "-R"@ || vs[i] == "--recursive"@
        || vs[i] == "-H"@ || vs[i] == "--with-filename"@ || vs[i] == "-h"@ || vs[i]
        == "--no-filename"@ {
        spec_grep_scan(vs, i + 1, st)
    } else if spec_starts_with(vs[i], "-"@) && vs[i].len() > 1 {
        spec_grep_scan(vs, i + 1, st)
    } else if st.pattern.len() == 0 {
        spec_grep_scan(vs, i + 1, GrepScan { pattern: vs[i], ..st })
    } else {
        spec_grep_scan(vs, i + 1, GrepScan { files: st.files.push(vs[i]), ..st })
    }
}

/// The `where` clause chosen by the pattern flags.
pub open spec fn spec_grep_where(st: GrepScan) -> Seq<char> {
    let p: Seq<char> = if st.word && !st.fixed {
        "\\b"@ + st.pattern + "\\b"@
    } else {
        st.pattern
    };
    let base: Seq<char> = if st.invert {
        "where $it !~ "@ + spec_quote_literal(p)
    } else {
        "where $it =~ "@ + spec_quote_literal(p)
    };
    if st.fold_case {
        base + " # case-insensitive"@
    } else {
        base
    }
}

/// The pipeline around the `where` clause, for stdin or one file.
pub open spec fn spec_grep_pipeline(st: GrepScan, opening: Seq<char>) -> Seq<char> {
    let wc = spec_grep_where(st);
    if st.quiet {
        opening + "lines | "@ + wc + " | length | $in > 0"@
    } else if st.count {
        opening + "lines | "@ + wc + " | length"@
    } else if st.line_number {
        opening + "lines | enumerate | where ($it.item =~ "@ + spec_quote_literal(st.pattern)
            + ") | each { |x| $\"($x.index + 1): ($x.item)\" }"@
    } else if st.only {
        opening + "lines | "@ + wc + " | each { |line| $line | str extract "@
            + spec_quote_literal(st.pattern) + "}"@
    } else {
        opening + "lines | "@ + wc
    }
}

/// The exact text produced for `grep` with the given arguments.
pub open spec fn spec_convert_grep(vs: Seq<Seq<char>>) -> Seq<char> {
    if vs.len() == 0 {
        "grep"@
    } else {
        let st = spec_grep_scan(vs, 0, spec_grep_init());
        if st.pattern.len() == 0 {
            "grep"@
        } else if st.files.len() == 0 {
            spec_grep_pipeline(st, Seq::empty())
        } else if st.files.len() == 1 {
            spec_grep_pipeline(st, "open "@ + spec_quote_literal(st.files[0]) + " | "@)
        } else {
            "grep "@ + spec_format_args(vs)
        }
    }
}

/// Scan the arguments of `grep` into its flag state.
#[verifier::loop_isolation(false)]
#[verifier::rlimit(100)]
fn grep_scan(args: &[String]) -> (r: (String, Vec<String>, bool, bool, bool, bool, bool, bool, bool, bool))
    ensures
        spec_grep_scan(views(args@), 0, spec_grep_init()) == (GrepScan {
            pattern: r.0@,
            files: views(r.1@),
            quiet: r.2,
            invert: r.3,
            fold_case: r.4,
            count: r.5,
            line_number: r.6,
            fixed: r.7,
            word: r.8,
            only: r.9,
        }),
{
    let ghost vs = views(args@);
    let mut pattern: String = String::new();
    let mut files: Vec<String> = Vec::new();
    let mut quiet = false;
    let mut invert = false;
    let mut fold_case = false;
    let mut count = false;
    let mut line_number = false;
    let mut fixed = false;
    let mut word = false;
    let mut only = false;
    proof {
        assert(views(files@) =~= Seq::<Seq<char>>::empty());
        assert(pattern@ =~= Seq::<char>::empty());
    }
    let mut i: usize = 0;
    while i < args.len()
        invariant
            i <= args@.len(),
            spec_grep_scan(vs, 0, spec_grep_init()) == spec_grep_scan(
                vs,
                i as int,
                GrepScan {
                    pattern: pattern@,
                    files: views(files@),
                    quiet: quiet,
                    invert: invert,
                    fold_case: fold_case,
                    count: count,
                    line_number: line_number,
                    fixed: fixed,
                    word: word,
                    only: only,
                },
            ),
        decreases args@.len() - i,
    {
        let a = args[i].as_str();
        proof {
            assert(vs[i as int] == args@[i as int]@);
        }
        if str_eq(a, "-q") || str_eq(a, "--quiet") || str_eq(a, "--silent") {
            quiet = true;
        } else if str_eq(a, "-v") || str_eq(a, "--invert-match") {
            invert = true;
        } else if str_eq(a, "-i") || str_eq(a, "--ignore-case") {
            fold_case = true;
        } else if str_eq(a, "-c") || str_eq(a, "--count") {
            count = true;
        } else if str_eq(a, "-n") || str_eq(a, "--line-number") {
            line_number = true;
        } else if str_eq(a, "-E") || str_eq(a, "--extended-regexp") {
        } else if str_eq(a, "-F") || str_eq(a, "--fixed-strings") {
            fixed = true;
        } else if str_eq(a, "-w") || str_eq(a, "--word-regexp") {
            word = true;
        } else if str_eq(a, "-o") || str_eq(a, "--only-matching") {
            only = true;
        } else if str_eq(a, "-l") || str_eq(a, "--files-with-matches") || str_eq(a, "-L") || str_eq(
            a,
            "--files-without-match",
        ) || str_eq(a, "-r") || str_eq(a, "-R") || str_eq(a, "--recursive") || str_eq(a, "-H")
            || str_eq(a, "--with-filename") || str_eq(a, "-h") || str_eq(a, "--no-filename") {
        } else if starts_with(a, "-") && a.unicode_len() > 1 {
        } else if pattern.as_str().unicode_len() == 0 {
            pattern = args[i].clone();
        } else {
            let ghost prev = files@;
            files.push(args[i].clone());
            proof {
                assert(views(files@) =~= views(prev).push(args@[i as int]@));
            }
        }
        i = i + 1;
    }
    (pattern, files, quiet, invert, fold_case, count, line_number, fixed, word, only)
}

/// Render the `where` clause for the scanned flags.
fn grep_where(
    pattern: &String,
    invert: bool,
    fold_case: bool,
    fixed: bool,
    word: bool,
    Ghost(st): Ghost<GrepScan>,
) -> (r: String)
    requires
        st.pattern == pattern@,
        st.invert == invert,
        st.fold_case == fold_case,
        st.fixed == fixed,
        st.word == word,
    ensures
        r@ == spec_grep_where(st),
{
    let p: String = if word && !fixed {
        let mut t: String = "\\b".to_owned();
        t.append(pattern.as_str());
        t.append("\\b");
        t
    } else {
        pattern.clone()
    };
    let mut out: String = if invert {
        "where $it !~ ".to_owned()
    } else {
        "where $it =~ ".to_owned()
    };
    out.append(quote_literal(p.as_str()).as_str());
    if fold_case {
        out.append(" # case-insensitive");
    }
    out
}

impl CommandConverter for GrepConverter {
    open spec fn spec_convert(&self, vs: Seq<Seq<char>>) -> Seq<char> {
        spec_convert_grep(vs)
    }

    open spec fn spec_name(&self) -> Seq<char> {
        "grep"@
    }

    #[verifier::loop_isolation(false)]
    #[verifier::rlimit(100)]
    fn convert(&self, args: &[String]) -> (r: Result<String, ConvertError>) {
        let base = BaseConverter;
        let ghost vs = views(args@);
        if args.len() == 0 {
            return Ok("grep".to_owned());
        }
        let (pattern, files, quiet, invert, fold_case, count, line_number, fixed, word, only) =
            grep_scan(args);
        let ghost st = spec_grep_scan(vs, 0, spec_grep_init());
        if pattern.as_str().unicode_len() == 0 {
            return Ok("grep".to_owned());
        }
        if files.len() >= 2 {
            let mut out: String = "grep ".to_owned();
            out.append(base.format_args(args).as_str());
            return Ok(out);
        }
        let mut out: String;
        if files.len() == 0 {
            out = String::new();
        } else {
            proof {
                assert(views(files@)[0] == files@[0]@);
            }
            out = "open ".to_owned();
            out.append(quote_literal(files[0].as_str()).as_str());
            out.append(" | ");
        }
        let wc = grep_where(&pattern, invert, fold_case, fixed, word, Ghost(st));
        if quiet {
            out.append("lines | ");
            out.append(wc.as_str());
            out.append(" | length | $in > 0");
        } else if count {
            out.append("lines | ");
            out.append(wc.as_str());
            out.append(" | length");
        } else if line_number {
            out.append("lines | enumerate | where ($it.item =~ ");
            out.append(quote_literal(pattern.as_str()).as_str());
            out.append(") | each { |x| $\"($x.index + 1): ($x.item)\" }");
        } else if only {
            out.append("lines | ");
            out.append(wc.as_str());
            out.append(" | each { |line| $line | str extract ");
            out.append(quote_literal(pattern.as_str()).as_str());
            out.append("}");
        } else {
            out.append("lines | ");
            out.append(wc.as_str());
        }
        Ok(out)
    }

    fn command_name(&self) -> (r: &'static str) {
        "grep"
    }

    fn description(&self) -> &'static str {
        "Converts grep commands to target where clauses and string operations"
    }
}

} // verus!
