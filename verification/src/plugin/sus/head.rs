//! `head` converter: maps `head` to `first`.

use super::{BaseConverter, CommandConverter};
use crate::plugin::ConvertError;
use crate::quoting::{quote_literal, spec_quote_literal, spec_quote_word};
use crate::text::{
    i32_to_dec, parse_i32, spec_dec_int, spec_is_digits, spec_parse_i32, spec_starts_with,
    starts_with, str_eq, views,
};
use vstd::prelude::*;

verus! {

/// Converter for the `head` command.
pub struct HeadConverter;

/// The value of a count argument, with the traditional default of ten.
pub open spec fn spec_count_or_ten(v: Seq<char>) -> int {
    match spec_parse_i32(v) {
        Some(n) => n as int,
        None => 10,
    }
}

/// The flag state gathered while scanning `head` arguments: the line count,
/// verbosity, the files, and a short-circuit result for the byte form.
pub open spec fn spec_head_scan(
    vs: Seq<Seq<char>>,
    i: int,
    count: int,
    verbose: bool,
    files: Seq<Seq<char>>,
) -> (int, bool, Seq<Seq<char>>, Option<Seq<char>>)
    decreases vs.len() - i,
{
    if i < 0 || i >= vs.len() {
        (count, verbose, files, None)
    } else if vs[i] == "-n"@ || vs[i] == "--lines"@ {
        if i + 1 < vs.len() {
            spec_head_scan(vs, i + 2, spec_count_or_ten(vs[i + 1]), verbose, files)
        } else {
            spec_head_scan(vs, i + 1, count, verbose, files)
        }
    } else if vs[i] == "-q"@ || vs[i] == "--quiet"@ || vs[i] == "--silent"@ {
        spec_head_scan(vs, i + 1, count, verbose, files)
    } else if vs[i] == "-v"@ || vs[i] == "--verbose"@ {
        spec_head_scan(vs, i + 1, count, true, files)
    } else if vs[i] == "-c"@ || vs[i] == "--bytes"@ {
        if i + 1 < vs.len() {
            (
                count,
                verbose,
                files,
                Some("first "@ + spec_dec_int(spec_count_or_ten(vs[i + 1])) + " bytes"@),
            )
        } else {
            spec_head_scan(vs, i + 1, count, verbose, files)
        }
    } else if spec_starts_with(vs[i], "-"@) && vs[i].len() > 1 && spec_is_digits(vs[i].skip(1)) {
        spec_head_scan(vs, i + 1, spec_count_or_ten(vs[i].skip(1)), verbose, files)
    } else if spec_starts_with(vs[i], "-"@) {
        spec_head_scan(vs, i + 1, count, verbose, files)
    } else {
        spec_head_scan(vs, i + 1, count, verbose, files.push(vs[i]))
    }
}

/// One `head` rendering for a single input file.
pub open spec fn spec_head_one(f: Seq<char>, count: int) -> Seq<char> {
    if f == "-"@ {
        "first "@ + spec_dec_int(count)
    } else {
        "open "@ + spec_quote_literal(f) + " | lines | first "@ + spec_dec_int(count)
    }
}

/// The `; `-joined renderings for several files, each with a header line.
pub open spec fn spec_head_many(files: Seq<Seq<char>>, count: int, i: int) -> Seq<char>
    decreases files.len() - i,
{
    if i < 0 || i >= files.len() {
        Seq::empty()
    } else {
        (if i > 0 {
            "; "@
        } else {
            Seq::<char>::empty()
        }) + "print \"==> "@ + spec_quote_word(files[i]) + " <==\"; "@ + spec_head_one(
            files[i],
            count,
        ) + spec_head_many(files, count, i + 1)
    }
}

/// The exact text produced for `head` with the given arguments.
pub open spec fn spec_convert_head(vs: Seq<Seq<char>>) -> Seq<char> {
    if vs.len() == 0 {
        "first 10"@
    } else {
        let (count, verbose, files, early) = spec_head_scan(vs, 0, 10, false, Seq::empty());
        match early {
            Some(text) => text,
            None => {
                if files.len() == 0 {
                    "first "@ + spec_dec_int(count)
                } else if files.len() == 1 {
                    spec_head_one(files[0], count)
                } else {
                    spec_head_many(files, count, 0)
                }
            },
        }
    }
}

/// Scan the arguments of `head`; a byte-count form short-circuits.
#[verifier::loop_isolation(false)]
#[verifier::rlimit(100)]
fn head_scan(args: &[String]) -> (r: (i32, bool, Vec<String>, Option<String>))
    ensures
        ({
            let (gc, gv, gf, ge) = spec_head_scan(views(args@), 0, 10, false, Seq::empty());
            gc == r.0 as int && gv == r.1 && gf == views(r.2@) && match (ge, r.3) {
                (Some(t), Some(s)) => t == s@,
                (None, None) => true,
                _ => false,
            }
        }),
{
    let ghost vs = views(args@);
    let mut count: i32 = 10;
    let mut verbose = false;
    let mut files: Vec<String> = Vec::new();
    proof {
        assert(views(files@) =~= Seq::<Seq<char>>::empty());
    }
    let mut i: usize = 0;
    while i < args.len()
        invariant
            i <= args@.len(),
            spec_head_scan(vs, 0, 10, false, Seq::empty()) == spec_head_scan(
                vs,
                i as int,
                count as int,
                verbose,
                views(files@),
            ),
        decreases args@.len() - i,
    {
        let a = args[i].as_str();
        let n = a.unicode_len();
        proof {
            assert(vs[i as int] == args@[i as int]@);
            if i + 1 < args.len() {
                assert(vs[i as int + 1] == args@[i as int + 1]@);
            }
        }
        if str_eq(a, "-n") || str_eq(a, "--lines") {
            if i + 1 < args.len() {
                count = match parse_i32(args[i + 1].as_str()) {
                    Some(v) => v,
                    None => 10,
                };
                i = i + 2;
            } else {
                i = i + 1;
            }
        } else if str_eq(a, "-q") || str_eq(a, "--quiet") || str_eq(a, "--silent") {
            i = i + 1;
        } else if str_eq(a, "-v") || str_eq(a, "--verbose") {
            verbose = true;
            i = i + 1;
        } else if str_eq(a, "-c") || str_eq(a, "--bytes") {
            if i + 1 < args.len() {
                let bc: i32 = match parse_i32(args[i + 1].as_str()) {
                    Some(v) => v,
                    None => 10,
                };
                let mut t: String = "first ".to_owned();
                t.append(i32_to_dec(bc).as_str());
                t.append(" bytes");
                return (count, verbose, files, Some(t));
            } else {
                i = i + 1;
            }
        } else if starts_with(a, "-") && n > 1 && is_all_digits_from(a, 1) {
            proof {
                reveal_strlit("-");
            }
            let tail = a.substring_char(1, n);
            proof {
                assert(tail@ =~= a@.skip(1));
            }
            count = match parse_i32(tail) {
                Some(v) => v,
                None => 10,
            };
            i = i + 1;
        } else if starts_with(a, "-") {
            i = i + 1;
        } else {
            let ghost prev = files@;
            files.push(args[i].clone());
            proof {
                assert(views(files@) =~= views(prev).push(args@[i as int]@));
            }
            i = i + 1;
        }
    }
    (count, verbose, files, None)
}

/// Whether every character of `a` from position `from` on is a digit, and
/// there is at least one.
#[verifier::loop_isolation(false)]
pub fn is_all_digits_from(a: &str, from: usize) -> (r: bool)
    requires
        from <= a@.len(),
    ensures
        r == spec_is_digits(a@.skip(from as int)),
{
    let ghost d = a@.skip(from as int);
    let n = a.unicode_len();
    if from == n {
        return false;
    }
    let mut i: usize = from;
    while i < n
        invariant
            from <= i <= n,
            forall|k: int| 0 <= k < i - from ==> crate::text::spec_char_digit(#[trigger] d[k]) >= 0,
        decreases n - i,
    {
        let c = a.get_char(i);
        proof {
            assert(d[i - from] == a@[i as int]);
        }
        if !(c == '0' || c == '1' || c == '2' || c == '3' || c == '4' || c == '5' || c == '6' || c
            == '7' || c == '8' || c == '9') {
            proof {
                assert(crate::text::spec_char_digit(d[i - from]) < 0);
            }
            return false;
        }
        i = i + 1;
    }
    true
}

/// One `head` rendering for a single input file, executably.
fn head_one(f: &String, count: i32) -> (r: String)
    ensures
        r@ == spec_head_one(f@, count as int),
{
    if str_eq(f.as_str(), "-") {
        let mut out: String = "first ".to_owned();
        out.append(i32_to_dec(count).as_str());
        out
    } else {
        let mut out: String = "open ".to_owned();
        out.append(quote_literal(f.as_str()).as_str());
        out.append(" | lines | first ");
        out.append(i32_to_dec(count).as_str());
        out
    }
}

impl CommandConverter for HeadConverter {
    open spec fn spec_convert(&self, vs: Seq<Seq<char>>) -> Seq<char> {
        spec_convert_head(vs)
    }

    open spec fn spec_name(&self) -> Seq<char> {
        "head"@
    }

    #[verifier::loop_isolation(false)]
    #[verifier::rlimit(60)]
    fn convert(&self, args: &[String]) -> (r: Result<String, ConvertError>) {
        let base = BaseConverter;
        let ghost vs = views(args@);
        if args.len() == 0 {
            return Ok("first 10".to_owned());
        }
        let (count, _verbose, files, early) = head_scan(args);
        match early {
            Some(t) => Ok(t),
            None => {
                let ghost gfiles = views(files@);
                if files.len() == 0 {
                    let mut out: String = "first ".to_owned();
                    out.append(i32_to_dec(count).as_str());
                    Ok(out)
                } else if files.len() == 1 {
                    proof {
                        assert(gfiles[0] == files@[0]@);
                    }
                    Ok(head_one(&files[0], count))
                } else {
                    let mut out = String::new();
                    let mut k: usize = 0;
                    while k < files.len()
                        invariant
                            k <= files@.len(),
                            out@ + spec_head_many(gfiles, count as int, k as int)
                                == spec_head_many(gfiles, count as int, 0),
                        decreases files@.len() - k,
                    {
                        proof {
                            assert(gfiles[k as int] == files@[k as int]@);
                        }
                        if k > 0 {
                            out.append("; ");
                        }
                        out.append("print \"==> ");
                        out.append(base.quote_arg(files[k].as_str()).as_str());
                        out.append(" <==\"; ");
                        let one = head_one(&files[k], count);
                        out.append(one.as_str());
                        k = k + 1;
                    }
                    proof {
                        assert(spec_head_many(gfiles, count as int, files@.len() as int)
                            =~= Seq::<char>::empty());
                        assert(out@ + Seq::<char>::empty() =~= out@);
                    }
                    Ok(out)
                }
            },
        }
    }

    fn command_name(&self) -> (r: &'static str) {
        "head"
    }

    fn description(&self) -> &'static str {
        "Converts head commands to target first commands"
    }
}

} // verus!
