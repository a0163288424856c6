//! `stat` converter.

use super::CommandConverter;
use crate::plugin::ConvertError;
use crate::quoting::{quote_entry, spec_quote_entry};
use crate::text::{join_with, spec_join, spec_starts_with, starts_with, str_eq, views};
use vstd::prelude::*;

verus! {

/// Converter for the `stat` command.
pub struct StatConverter;

/// The column selection appended for one `--format` specifier; an unknown
/// specifier selects nothing.
pub open spec fn spec_stat_format_suffix(fmt: Seq<char>) -> Seq<char> {
    if fmt == "%n"@ {
        " | get name"@
    } else if fmt == "%s"@ {
        " | get size"@
    } else if fmt == "%f"@ || fmt == "%a"@ || fmt == "%A"@ {
        " | get mode"@
    } else if fmt == "%F"@ {
        " | get type"@
    } else if fmt == "%u"@ {
        " | get uid"@
    } else if fmt == "%g"@ {
        " | get gid"@
    } else if fmt == "%U"@ {
        " | get user"@
    } else if fmt == "%G"@ {
        " | get group"@
    } else if fmt == "%h"@ {
        " | get nlink"@
    } else if fmt == "%i"@ {
        " | get inode"@
    } else if fmt == "%m"@ || fmt == "%y"@ {
        " | get modified"@
    } else if fmt == "%c"@ || fmt == "%z"@ {
        " | get changed"@
    } else if fmt == "%x"@ {
        " | get accessed"@
    } else {
        Seq::empty()
    }
}

/// The flag state gathered while scanning `stat` arguments; `--help` and
/// `--version` short-circuit.
pub open spec fn spec_stat_scan(
    vs: Seq<Seq<char>>,
    i: int,
    fmt: Seq<char>,
    terse: bool,
    zero: bool,
    files: Seq<Seq<char>>,
) -> (Seq<char>, bool, bool, Seq<Seq<char>>, Option<Seq<char>>)
    decreases vs.len() - i,
{
    if i < 0 || i >= vs.len() {
        (fmt, terse, zero, files, None)
    } else if vs[i] == "-c"@ || vs[i] == "--format"@ {
        if i + 1 < vs.len() {
            spec_stat_scan(vs, i + 2, vs[i + 1], terse, zero, files)
        } else {
            spec_stat_scan(vs, i + 1, fmt, terse, zero, files)
        }
    } else if vs[i] == "--printf"@ {
        if i + 1 < vs.len() {
            spec_stat_scan(vs, i + 2, fmt, terse, zero, files)
        } else {
            spec_stat_scan(vs, i + 1, fmt, terse, zero, files)
        }
    } else if vs[i] == "-L"@ || vs[i] == "--dereference"@ || vs[i] == "-f"@ || vs[i]
        == "--file-system"@ {
        spec_stat_scan(vs, i + 1, fmt, terse, zero, files)
    } else if vs[i] == "-t"@ || vs[i] == "--terse"@ {
        spec_stat_scan(vs, i + 1, fmt, true, zero, files)
    } else if vs[i] == "-z"@ || vs[i] == "--zero"@ {
        spec_stat_scan(vs, i + 1, fmt, terse, true, files)
    } else if vs[i] == "--help"@ {
        (fmt, terse, zero, files, Some("stat --help"@))
    } else if vs[i] == "--version"@ {
        (fmt, terse, zero, files, Some("stat --version"@))
    } else if !spec_starts_with(vs[i], "-"@) {
        spec_stat_scan(vs, i + 1, fmt, terse, zero, files.push(vs[i]))
    } else {
        spec_stat_scan(vs, i + 1, fmt, terse, zero, files)
    }
}

/// The terse column selection.
pub open spec fn spec_stat_terse(terse: bool) -> Seq<char> {
    if terse {
        " | select name size mode modified"@
    } else {
        Seq::empty()
    }
}

/// The format selection, applied only when a format was given.
pub open spec fn spec_stat_fmt(fmt: Seq<char>) -> Seq<char> {
    if fmt.len() > 0 {
        spec_stat_format_suffix(fmt)
    } else {
        Seq::empty()
    }
}

/// The exact text produced for `stat` with the given arguments.
pub open spec fn spec_convert_stat(vs: Seq<Seq<char>>) -> Seq<char> {
    if vs.len() == 0 {
        "stat"@
    } else {
        let (fmt, terse, zero, files, early) = spec_stat_scan(
            vs,
            0,
            Seq::empty(),
            false,
            false,
            Seq::empty(),
        );
        match early {
            Some(text) => text,
            None => {
                if files.len() == 0 {
                    "stat"@
                } else if files.len() == 1 {
                    spec_quote_entry(files[0]) + " | stat"@ + spec_stat_fmt(fmt) + spec_stat_terse(
                        terse,
                    )
                } else {
                    "["@ + spec_join(
                        files.map_values(|f: Seq<char>| spec_quote_entry(f)),
                        " "@,
                    ) + "] | each { |file| $file | stat"@ + spec_stat_fmt(fmt) + spec_stat_terse(
                        terse,
                    ) + " }"@ + (if zero {
                        " | str join (char null)"@
                    } else {
                        " | to json -r"@
                    })
                }
            },
        }
    }
}

/// Append the format selection for one specifier.
#[verifier::rlimit(100)]
fn append_stat_fmt(out: &mut String, fmt: &String)
    ensures
        final(out)@ == old(out)@ + spec_stat_fmt(fmt@),
{
    if fmt.as_str().unicode_len() == 0 {
        return ;
    }
    if str_eq(fmt.as_str(), "%n") {
        out.append(" | get name");
    } else if str_eq(fmt.as_str(), "%s") {
        out.append(" | get size");
    } else if str_eq(fmt.as_str(), "%f") || str_eq(fmt.as_str(), "%a") || str_eq(
        fmt.as_str(),
        "%A",
    ) {
        out.append(" | get mode");
    } else if str_eq(fmt.as_str(), "%F") {
        out.append(" | get type");
    } else if str_eq(fmt.as_str(), "%u") {
        out.append(" | get uid");
    } else if str_eq(fmt.as_str(), "%g") {
        out.append(" | get gid");
    } else if str_eq(fmt.as_str(), "%U") {
        out.append(" | get user");
    } else if str_eq(fmt.as_str(), "%G") {
        out.append(" | get group");
    } else if str_eq(fmt.as_str(), "%h") {
        out.append(" | get nlink");
    } else if str_eq(fmt.as_str(), "%i") {
        out.append(" | get inode");
    } else if str_eq(fmt.as_str(), "%m") || str_eq(fmt.as_str(), "%y") {
        out.append(" | get modified");
    } else if str_eq(fmt.as_str(), "%c") || str_eq(fmt.as_str(), "%z") {
        out.append(" | get changed");
    } else if str_eq(fmt.as_str(), "%x") {
        out.append(" | get accessed");
    }
}

/// Scan the arguments of `stat` into its flag state.
#[verifier::loop_isolation(false)]
#[verifier::rlimit(100)]
fn stat_scan(args: &[String]) -> (r: (String, bool, bool, Vec<String>, Option<String>))
    ensures
        ({
            let (gf, gt, gz, gfl, ge) = spec_stat_scan(
                views(args@),
                0,
                Seq::empty(),
                false,
                false,
                Seq::empty(),
            );
            gf == r.0@ && gt == r.1 && gz == r.2 && gfl == views(r.3@) && match (ge, r.4) {
                (Some(t), Some(s)) => t == s@,
                (None, None) => true,
                _ => false,
            }
        }),
{
    let ghost vs = views(args@);
    let mut fmt: String = String::new();
    let mut terse = false;
    let mut zero = false;
    let mut files: Vec<String> = Vec::new();
    proof {
        assert(views(files@) =~= Seq::<Seq<char>>::empty());
        assert(fmt@ =~= Seq::<char>::empty());
    }
    let mut i: usize = 0;
    while i < args.len()
        invariant
            i <= args@.len(),
            spec_stat_scan(vs, 0, Seq::empty(), false, false, Seq::empty()) == spec_stat_scan(
                vs,
                i as int,
                fmt@,
                terse,
                zero,
                views(files@),
            ),
        decreases args@.len() - i,
    {
        let a = args[i].as_str();
        proof {
            assert(vs[i as int] == args@[i as int]@);
            if i + 1 < args.len() {
                assert(vs[i as int + 1] == args@[i as int + 1]@);
            }
        }
        if str_eq(a, "-c") || str_eq(a, "--format") {
            if i + 1 < args.len() {
                fmt = args[i + 1].clone();
                i = i + 2;
            } else {
                i = i + 1;
            }
        } else if str_eq(a, "--printf") {
            if i + 1 < args.len() {
                i = i + 2;
            } else {
                i = i + 1;
            }
        } else if str_eq(a, "-L") || str_eq(a, "--dereference") || str_eq(a, "-f") || str_eq(
            a,
            "--file-system",
        ) {
            i = i + 1;
        } else if str_eq(a, "-t") || str_eq(a, "--terse") {
            terse = true;
            i = i + 1;
        } else if str_eq(a, "-z") || str_eq(a, "--zero") {
            zero = true;
            i = i + 1;
        } else if str_eq(a, "--help") {
            return (fmt, terse, zero, files, Some("stat --help".to_owned()));
        } else if str_eq(a, "--version") {
            return (fmt, terse, zero, files, Some("stat --version".to_owned()));
        } else if !starts_with(a, "-") {
            let ghost prev = files@;
            files.push(args[i].clone());
            proof {
                assert(views(files@) =~= views(prev).push(args@[i as int]@));
            }
            i = i + 1;
        } else {
            i = i + 1;
        }
    }
    (fmt, terse, zero, files, None)
}

impl CommandConverter for StatConverter {
    open spec fn spec_convert(&self, vs: Seq<Seq<char>>) -> Seq<char> {
        spec_convert_stat(vs)
    }

    open spec fn spec_name(&self) -> Seq<char> {
        "stat"@
    }

    #[verifier::loop_isolation(false)]
    #[verifier::rlimit(100)]
    fn convert(&self, args: &[String]) -> (r: Result<String, ConvertError>) {
        let ghost vs = views(args@);
        if args.len() == 0 {
            return Ok("stat".to_owned());
        }
        let (fmt, terse, zero, files, early) = stat_scan(args);
        match early {
            Some(t) => Ok(t),
            None => {
                let ghost gfiles = views(files@);
                if files.len() == 0 {
                    return Ok("stat".to_owned());
                }
                if files.len() == 1 {
                    proof {
                        assert(gfiles[0] == files@[0]@);
                    }
                    let mut out = quote_entry(files[0].as_str());
                    out.append(" | stat");
                    append_stat_fmt(&mut out, &fmt);
                    if terse {
                        out.append(" | select name size mode modified");
                    }
                    return Ok(out);
                }
                let mut out: String = "[".to_owned();
                let mut quoted: Vec<String> = Vec::new();
                let mut k: usize = 0;
                while k < files.len()
                    invariant
                        k <= files@.len(),
                        gfiles == views(files@),
                        views(quoted@) =~= gfiles.take(k as int).map_values(
                            |f: Seq<char>| spec_quote_entry(f),
                        ),
                    decreases files@.len() - k,
                {
                    let ghost prev = quoted@;
                    quoted.push(quote_entry(files[k].as_str()));
                    proof {
                        assert(gfiles[k as int] == files@[k as int]@);
                        assert forall|j: int| 0 <= j < k + 1 implies views(quoted@)[j]
                            == gfiles.take(k as int + 1).map_values(
                            |f: Seq<char>| spec_quote_entry(f),
                        )[j] by {
                            assert(views(quoted@)[j] == quoted@[j]@);
                            if j < k {
                                assert(views(prev)[j] == prev[j]@);
                                assert(gfiles.take(k as int)[j] == gfiles[j]);
                            }
                        }
                        assert(views(quoted@) =~= gfiles.take(k as int + 1).map_values(
                            |f: Seq<char>| spec_quote_entry(f),
                        ));
                    }
                    k = k + 1;
                }
                proof {
                    assert(gfiles.take(files@.len() as int) =~= gfiles);
                }
                let joined = join_with(&quoted, " ");
                out.append(joined.as_str());
                out.append("] | each { |file| $file | stat");
                append_stat_fmt(&mut out, &fmt);
                if terse {
                    out.append(" | select name size mode modified");
                }
                out.append(" }");
                if zero {
                    out.append(" | str join (char null)");
                } else {
                    out.append(" | to json -r");
                }
                Ok(out)
            },
        }
    }

    fn command_name(&self) -> (r: &'static str) {
        "stat"
    }

    fn description(&self) -> &'static str {
        "Converts stat commands to target stat operations"
    }
}

} // verus!
