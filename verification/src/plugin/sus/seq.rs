//! `seq` converter: maps `seq` to range expressions.

use super::{BaseConverter, CommandConverter};
use crate::plugin::ConvertError;
use crate::quoting::{escape_quotes, spec_escape_quotes, spec_format_args};
use crate::text::{
    i64_to_dec, parse_i64, spec_dec_int, spec_parse_i64, spec_starts_with, starts_with, str_eq,
    views,
};
use vstd::prelude::*;

verus! {

/// Converter for the `seq` command.
pub struct SeqConverter;

/// The flag state gathered while scanning `seq` arguments: the separator,
/// equal-width flag, format string and positional numbers.
pub open spec fn spec_seq_scan(
    vs: Seq<Seq<char>>,
    i: int,
    sep: Seq<char>,
    width: bool,
    fmt: Seq<char>,
    pos: Seq<Seq<char>>,
) -> (Seq<char>, bool, Seq<char>, Seq<Seq<char>>)
    decreases vs.len() - i,
{
    if i < 0 || i >= vs.len() {
        (sep, width, fmt, pos)
    } else if vs[i] == "-s"@ || vs[i] == "--separator"@ {
        if i + 1 < vs.len() {
            spec_seq_scan(vs, i + 2, vs[i + 1], width, fmt, pos)
        } else {
            spec_seq_scan(vs, i + 1, sep, width, fmt, pos)
        }
    } else if vs[i] == "-w"@ || vs[i] == "--equal-width"@ {
        spec_seq_scan(vs, i + 1, sep, true, fmt, pos)
    } else if vs[i] == "-f"@ || vs[i] == "--format"@ {
        if i + 1 < vs.len() {
            spec_seq_scan(vs, i + 2, sep, width, vs[i + 1], pos)
        } else {
            spec_seq_scan(vs, i + 1, sep, width, fmt, pos)
        }
    } else if !spec_starts_with(vs[i], "-"@) || spec_parse_i64(vs[i]) is Some {
        spec_seq_scan(vs, i + 1, sep, width, fmt, pos.push(vs[i]))
    } else {
        spec_seq_scan(vs, i + 1, sep, width, fmt, pos)
    }
}

/// The parsed bounds of the positional arguments, or nothing when any fails
/// to read as an integer or the count is unusable.
pub open spec fn spec_seq_bounds(pos: Seq<Seq<char>>) -> Option<(int, int, int)> {
    if pos.len() == 1 {
        match spec_parse_i64(pos[0]) {
            Some(last) => Some((1, 1, last as int)),
            None => None,
        }
    } else if pos.len() == 2 {
        match (spec_parse_i64(pos[0]), spec_parse_i64(pos[1])) {
            (Some(first), Some(last)) => Some(
                (
                    first as int,
                    if first <= last {
                        1int
                    } else {
                        -1int
                    },
                    last as int,
                ),
            ),
            _ => None,
        }
    } else if pos.len() == 3 {
        match (spec_parse_i64(pos[0]), spec_parse_i64(pos[1]), spec_parse_i64(pos[2])) {
            (Some(first), Some(inc), Some(last)) => Some((first as int, inc as int, last as int)),
            _ => None,
        }
    } else {
        None
    }
}

/// The exact text produced for `seq` with the given arguments.
pub open spec fn spec_convert_seq(vs: Seq<Seq<char>>) -> Seq<char> {
    if vs.len() == 0 {
        "seq"@
    } else {
        let (sep, width, fmt, pos) = spec_seq_scan(vs, 0, "\n"@, false, Seq::empty(), Seq::empty());
        match spec_seq_bounds(pos) {
            None => "seq "@ + spec_format_args(vs),
            Some(bounds) => {
                let (start, inc, end) = bounds;
                if inc == 0 {
                    "seq "@ + spec_format_args(vs)
                } else {
                    let body: Seq<char> = if inc == 1 {
                        spec_dec_int(start) + ".."@ + spec_dec_int(end)
                    } else if inc == -1 && start > end && pos.len() == 2 {
                        spec_dec_int(start) + ".."@ + spec_dec_int(end) + " | reverse"@
                    } else {
                        spec_dec_int(start) + ".."@ + spec_dec_int(end) + " | step "@
                            + spec_dec_int(inc)
                    };
                    let formatted: Seq<char> = if fmt.len() > 0 {
                        if fmt.contains('g') || fmt.contains('f') || fmt.contains('e') {
                            body + " | each { |n| $n | format "@ + fmt + " }"@
                        } else {
                            body + " | each { |n| $n | format \""@ + fmt + "\" }"@
                        }
                    } else if width {
                        body + " | each { |n| $n | into string }"@
                    } else {
                        body
                    };
                    if sep != "\n"@ {
                        formatted + " | str join \""@ + spec_escape_quotes(sep) + "\""@
                    } else {
                        formatted
                    }
                }
            },
        }
    }
}

/// Scan the arguments of `seq` into its flag state.
#[verifier::loop_isolation(false)]
#[verifier::rlimit(100)]
fn seq_scan(args: &[String]) -> (r: (String, bool, String, Vec<String>))
    ensures
        spec_seq_scan(views(args@), 0, "\n"@, false, Seq::empty(), Seq::empty()) == (
            r.0@,
            r.1,
            r.2@,
            views(r.3@),
        ),
{
    let ghost vs = views(args@);
    let mut sep: String = "\n".to_owned();
    let mut width = false;
    let mut fmt: String = String::new();
    let mut pos: Vec<String> = Vec::new();
    proof {
        assert(views(pos@) =~= Seq::<Seq<char>>::empty());
        assert(fmt@ =~= Seq::<char>::empty());
    }
    let mut i: usize = 0;
    while i < args.len()
        invariant
            i <= args@.len(),
            spec_seq_scan(vs, 0, "\n"@, false, Seq::empty(), Seq::empty()) == spec_seq_scan(
                vs,
                i as int,
                sep@,
                width,
                fmt@,
                views(pos@),
            ),
        decreases args@.len() - i,
    {
        let a = args[i].as_str();
        proof {
            assert(vs[i as int] == args@[i as int]@);
            if i + 1 < args.len() {
                assert(vs[i as int + 1] == args@[i as int + 1]@);
            }
        }
        if str_eq(a, "-s") || str_eq(a, "--separator") {
            if i + 1 < args.len() {
                sep = args[i + 1].clone();
                i = i + 2;
            } else {
                i = i + 1;
            }
        } else if str_eq(a, "-w") || str_eq(a, "--equal-width") {
            width = true;
            i = i + 1;
        } else if str_eq(a, "-f") || str_eq(a, "--format") {
            if i + 1 < args.len() {
                fmt = args[i + 1].clone();
                i = i + 2;
            } else {
                i = i + 1;
            }
        } else if !starts_with(a, "-") || parse_i64(a).is_some() {
            let ghost prev = pos@;
            pos.push(args[i].clone());
            proof {
                assert(views(pos@) =~= views(prev).push(args@[i as int]@));
            }
            i = i + 1;
        } else {
            i = i + 1;
        }
    }
    (sep, width, fmt, pos)
}

impl CommandConverter for SeqConverter {
    open spec fn spec_convert(&self, vs: Seq<Seq<char>>) -> Seq<char> {
        spec_convert_seq(vs)
    }

    open spec fn spec_name(&self) -> Seq<char> {
        "seq"@
    }

    #[verifier::loop_isolation(false)]
    #[verifier::rlimit(100)]
    fn convert(&self, args: &[String]) -> (r: Result<String, ConvertError>) {
        let base = BaseConverter;
        let ghost vs = views(args@);
        if args.len() == 0 {
            return Ok("seq".to_owned());
        }
        let (sep, width, fmt, pos) = seq_scan(args);
        let ghost gpos = views(pos@);
        let mut start: i64 = 1;
        let mut inc: i64 = 1;
        let mut end: i64 = 1;
        let mut bounds_ok = false;
        if pos.len() == 1 {
            proof {
                assert(gpos[0] == pos@[0]@);
            }
            match parse_i64(pos[0].as_str()) {
                Some(last) => {
                    start = 1;
                    inc = 1;
                    end = last;
                    bounds_ok = true;
                },
                None => {},
            }
        } else if pos.len() == 2 {
            proof {
                assert(gpos[0] == pos@[0]@);
                assert(gpos[1] == pos@[1]@);
            }
            match (parse_i64(pos[0].as_str()), parse_i64(pos[1].as_str())) {
                (Some(first), Some(last)) => {
                    start = first;
                    inc = if first <= last {
                        1
                    } else {
                        -1
                    };
                    end = last;
                    bounds_ok = true;
                },
                _ => {},
            }
        } else if pos.len() == 3 {
            proof {
                assert(gpos[0] == pos@[0]@);
                assert(gpos[1] == pos@[1]@);
                assert(gpos[2] == pos@[2]@);
            }
            match (parse_i64(pos[0].as_str()), parse_i64(pos[1].as_str()), parse_i64(
                pos[2].as_str(),
            )) {
                (Some(first), Some(step), Some(last)) => {
                    start = first;
                    inc = step;
                    end = last;
                    bounds_ok = true;
                },
                _ => {},
            }
        }
        if !bounds_ok || inc == 0 {
            let mut out: String = "seq ".to_owned();
            out.append(base.format_args(args).as_str());
            return Ok(out);
        }
        let mut out = i64_to_dec(start);
        out.append("..");
        out.append(i64_to_dec(end).as_str());
        if inc == 1 {
        } else if inc == -1 && start > end && pos.len() == 2 {
            out.append(" | reverse");
        } else {
            out.append(" | step ");
            out.append(i64_to_dec(inc).as_str());
        }
        if fmt.as_str().unicode_len() > 0 {
            if crate::text::contains_char(fmt.as_str(), 'g') || crate::text::contains_char(
                fmt.as_str(),
                'f',
            ) || crate::text::contains_char(fmt.as_str(), 'e') {
                out.append(" | each { |n| $n | format ");
                out.append(fmt.as_str());
                out.append(" }");
            } else {
                out.append(" | each { |n| $n | format \"");
                out.append(fmt.as_str());
                out.append("\" }");
            }
        } else if width {
            out.append(" | each { |n| $n | into string }");
        }
        if !str_eq(sep.as_str(), "\n") {
            out.append(" | str join \"");
            out.append(escape_quotes(sep.as_str()).as_str());
            out.append("\"");
        }
        Ok(out)
    }

    fn command_name(&self) -> (r: &'static str) {
        "seq"
    }

    fn description(&self) -> &'static str {
        "Converts seq commands to target range operations"
    }
}

} // verus!
