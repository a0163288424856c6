//! `tail` converter: maps `tail` to `last`.

use super::{BaseConverter, CommandConverter};
use crate::plugin::ConvertError;
use crate::plugin::sus::head::{is_all_digits_from, spec_count_or_ten};
use crate::quoting::{quote_literal, spec_quote_literal, spec_quote_word};
use crate::text::{
    i64_to_dec, i32_to_dec, parse_i32, spec_dec_int, spec_is_digits, spec_parse_i32,
    spec_starts_with, starts_with, str_eq, views,
};
use vstd::prelude::*;

verus! {

/// Converter for the `tail` command.
pub struct TailConverter;

/// The line offset of a `+N` argument, with the traditional default of one.
pub open spec fn spec_plus_or_one(v: Seq<char>) -> int {
    match spec_parse_i32(v) {
        Some(n) => n as int,
        None => 1,
    }
}

/// The flag state gathered while scanning `tail` arguments: the line count,
/// follow mode, the files, and a short-circuit result for the byte and
/// offset forms.
pub open spec fn spec_tail_scan(
    vs: Seq<Seq<char>>,
    i: int,
    count: int,
    follow: bool,
    files: Seq<Seq<char>>,
) -> (int, bool, Seq<Seq<char>>, Option<Seq<char>>)
    decreases vs.len() - i,
{
    if i < 0 || i >= vs.len() {
        (count, follow, files, None)
    } else if vs[i] == "-n"@ || vs[i] == "--lines"@ {
        if i + 1 < vs.len() {
            spec_tail_scan(vs, i + 2, spec_count_or_ten(vs[i + 1]), follow, files)
        } else {
            spec_tail_scan(vs, i + 1, count, follow, files)
        }
    } else if vs[i] == "-q"@ || vs[i] == "--quiet"@ || vs[i] == "--silent"@ || vs[i] == "-v"@
        || vs[i] == "--verbose"@ {
        spec_tail_scan(vs, i + 1, count, follow, files)
    } else if vs[i] == "-f"@ || vs[i] == "--follow"@ {
        spec_tail_scan(vs, i + 1, count, true, files)
    } else if vs[i] == "-c"@ || vs[i] == "--bytes"@ {
        if i + 1 < vs.len() {
            (
                count,
                follow,
                files,
                Some("last "@ + spec_dec_int(spec_count_or_ten(vs[i + 1])) + " bytes"@),
            )
        } else {
            spec_tail_scan(vs, i + 1, count, follow, files)
        }
    } else if spec_starts_with(vs[i], "-"@) && vs[i].len() > 1 && spec_is_digits(vs[i].skip(1)) {
        spec_tail_scan(vs, i + 1, spec_count_or_ten(vs[i].skip(1)), follow, files)
    } else if spec_starts_with(vs[i], "+"@) {
        (count, follow, files, Some("skip "@ + spec_dec_int(spec_plus_or_one(vs[i].skip(1)) - 1)))
    } else if spec_starts_with(vs[i], "-"@) {
        spec_tail_scan(vs, i + 1, count, follow, files)
    } else {
        spec_tail_scan(vs, i + 1, count, follow, files.push(vs[i]))
    }
}

/// One `tail` rendering for a single input file.
pub open spec fn spec_tail_one(f: Seq<char>, count: int) -> Seq<char> {
    if f == "-"@ {
        "last "@ + spec_dec_int(count)
    } else {
        "open "@ + spec_quote_literal(f) + " | lines | last "@ + spec_dec_int(count)
    }
}

/// The note appended in follow mode.
pub open spec fn spec_follow_note(follow: bool) -> Seq<char> {
    if follow {
        " # follow mode not fully supported"@
    } else {
        Seq::empty()
    }
}

/// The `; `-joined renderings for several files, each with a header line.
pub open spec fn spec_tail_many(files: Seq<Seq<char>>, count: int, i: int) -> Seq<char>
    decreases files.len() - i,
{
    if i < 0 || i >= files.len() {
        Seq::empty()
    } else {
        (if i > 0 {
            "; "@
        } else {
            Seq::<char>::empty()
        }) + "print \"==> "@ + spec_quote_word(files[i]) + " <==\"; "@ + spec_tail_one(
            files[i],
            count,
        ) + spec_tail_many(files, count, i + 1)
    }
}

/// The exact text produced for `tail` with the given arguments.
pub open spec fn spec_convert_tail(vs: Seq<Seq<char>>) -> Seq<char> {
    if vs.len() == 0 {
        "last 10"@
    } else {
        let (count, follow, files, early) = spec_tail_scan(vs, 0, 10, false, Seq::empty());
        match early {
            Some(text) => text,
            None => {
                if files.len() == 0 {
                    "last "@ + spec_dec_int(count) + spec_follow_note(follow)
                } else if files.len() == 1 {
                    if files[0] == "-"@ {
                        "last "@ + spec_dec_int(count) + spec_follow_note(follow)
                    } else {
                        spec_tail_one(files[0], count) + spec_follow_note(follow)
                    }
                } else {
                    spec_tail_many(files, count, 0) + spec_follow_note(follow)
                }
            },
        }
    }
}

/// Scan the arguments of `tail`; byte and offset forms short-circuit.
#[verifier::loop_isolation(false)]
#[verifier::rlimit(100)]
fn tail_scan(args: &[String]) -> (r: (i32, bool, Vec<String>, Option<String>))
    ensures
        ({
            let (gc, gf, gfl, ge) = spec_tail_scan(views(args@), 0, 10, false, Seq::empty());
            gc == r.0 as int && gf == r.1 && gfl == views(r.2@) && match (ge, r.3) {
                (Some(t), Some(s)) => t == s@,
                (None, None) => true,
                _ => false,
            }
        }),
{
    let ghost vs = views(args@);
    let mut count: i32 = 10;
    let mut follow = false;
    let mut files: Vec<String> = Vec::new();
    proof {
        assert(views(files@) =~= Seq::<Seq<char>>::empty());
    }
    let mut i: usize = 0;
    while i < args.len()
        invariant
            i <= args@.len(),
            spec_tail_scan(vs, 0, 10, false, Seq::empty()) == spec_tail_scan(
                vs,
                i as int,
                count as int,
                follow,
                views(files@),
            ),
        decreases args@.len() - i,
    {
        let a = args[i].as_str();
        let n = a.unicode_len();
        proof {
            assert(vs[i as int] == args@[i as int]@);
            if i + 1 < args.len() {
                assert(vs[i as int + 1] == args@[i as int + 1]@);
            }
        }
        if str_eq(a, "-n") || str_eq(a, "--lines") {
            if i + 1 < args.len() {
                count = match parse_i32(args[i + 1].as_str()) {
                    Some(v) => v,
                    None => 10,
                };
                i = i + 2;
            } else {
                i = i + 1;
            }
        } else if str_eq(a, "-q") || str_eq(a, "--quiet") || str_eq(a, "--silent") || str_eq(
            a,
            "-v",
        ) || str_eq(a, "--verbose") {
            i = i + 1;
        } else if str_eq(a, "-f") || str_eq(a, "--follow") {
            follow = true;
            i = i + 1;
        } else if str_eq(a, "-c") || str_eq(a, "--bytes") {
            if i + 1 < args.len() {
                let bc: i32 = match parse_i32(args[i + 1].as_str()) {
                    Some(v) => v,
                    None => 10,
                };
                let mut t: String = "last ".to_owned();
                t.append(i32_to_dec(bc).as_str());
                t.append(" bytes");
                return (count, follow, files, Some(t));
            } else {
                i = i + 1;
            }
        } else if starts_with(a, "-") && n > 1 && is_all_digits_from(a, 1) {
            proof {
                reveal_strlit("-");
            }
            let tail = a.substring_char(1, n);
            proof {
                assert(tail@ =~= a@.skip(1));
            }
            count = match parse_i32(tail) {
                Some(v) => v,
                None => 10,
            };
            i = i + 1;
        } else if starts_with(a, "+") {
            proof {
                reveal_strlit("+");
            }
            let rest = a.substring_char(1, n);
            proof {
                assert(rest@ =~= a@.skip(1));
            }
            let start: i32 = match parse_i32(rest) {
                Some(v) => v,
                None => 1,
            };
            let mut t: String = "skip ".to_owned();
            t.append(i64_to_dec(start as i64 - 1).as_str());
            return (count, follow, files, Some(t));
        } else if starts_with(a, "-") {
            i = i + 1;
        } else {
            let ghost prev = files@;
            files.push(args[i].clone());
            proof {
                assert(views(files@) =~= views(prev).push(args@[i as int]@));
            }
            i = i + 1;
        }
    }
    (count, follow, files, None)
}

/// One `tail` rendering for a single input file, executably.
fn tail_one(f: &String, count: i32) -> (r: String)
    ensures
        r@ == spec_tail_one(f@, count as int),
{
    if str_eq(f.as_str(), "-") {
        let mut out: String = "last ".to_owned();
        out.append(i32_to_dec(count).as_str());
        out
    } else {
        let mut out: String = "open ".to_owned();
        out.append(quote_literal(f.as_str()).as_str());
        out.append(" | lines | last ");
        out.append(i32_to_dec(count).as_str());
        out
    }
}

impl CommandConverter for TailConverter {
    open spec fn spec_convert(&self, vs: Seq<Seq<char>>) -> Seq<char> {
        spec_convert_tail(vs)
    }

    open spec fn spec_name(&self) -> Seq<char> {
        "tail"@
    }

    #[verifier::loop_isolation(false)]
    #[verifier::rlimit(60)]
    fn convert(&self, args: &[String]) -> (r: Result<String, ConvertError>) {
        let base = BaseConverter;
        let ghost vs = views(args@);
        if args.len() == 0 {
            return Ok("last 10".to_owned());
        }
        let (count, follow, files, early) = tail_scan(args);
        match early {
            Some(t) => Ok(t),
            None => {
                let ghost gfiles = views(files@);
                let mut out: String;
                if files.len() == 0 {
                    out = "last ".to_owned();
                    out.append(i32_to_dec(count).as_str());
                } else if files.len() == 1 {
                    proof {
                        assert(gfiles[0] == files@[0]@);
                    }
                    if str_eq(files[0].as_str(), "-") {
                        out = "last ".to_owned();
                        out.append(i32_to_dec(count).as_str());
                    } else {
                        out = tail_one(&files[0], count);
                    }
                } else {
                    out = String::new();
                    let mut k: usize = 0;
                    while k < files.len()
                        invariant
                            k <= files@.len(),
                            out@ + spec_tail_many(gfiles, count as int, k as int)
                                == spec_tail_many(gfiles, count as int, 0),
                        decreases files@.len() - k,
                    {
                        proof {
                            assert(gfiles[k as int] == files@[k as int]@);
                        }
                        if k > 0 {
                            out.append("; ");
                        }
                        out.append("print \"==> ");
                        out.append(base.quote_arg(files[k].as_str()).as_str());
                        out.append(" <==\"; ");
                        let one = tail_one(&files[k], count);
                        out.append(one.as_str());
                        k = k + 1;
                    }
                    proof {
                        assert(spec_tail_many(gfiles, count as int, files@.len() as int)
                            =~= Seq::<char>::empty());
                        assert(out@ + Seq::<char>::empty() =~= out@);
                    }
                }
                if follow {
                    out.append(" # follow mode not fully supported");
                }
                Ok(out)
            },
        }
    }

    fn command_name(&self) -> (r: &'static str) {
        "tail"
    }

    fn description(&self) -> &'static str {
        "Converts tail commands to target last commands"
    }
}

} // verus!
