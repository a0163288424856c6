//! `read` builtin converter: maps `read` to `input`.

use super::{BaseBuiltinConverter, BuiltinConverter};
use crate::plugin::ConvertError;
use crate::quoting::{quote_literal, spec_quote_literal, spec_quote_word};
use crate::text::{
    parse_u64, spec_dec, spec_parse_u64, spec_starts_with, starts_with, str_eq, u64_to_dec, views,
};
use vstd::prelude::*;

verus! {

/// Converter for the `read` builtin.
pub struct ReadBuiltinConverter;

/// The flag state gathered while scanning `read` arguments.
pub struct ReadScan {
    pub silent: bool,
    pub prompt: Seq<char>,
    pub timeout: Option<u64>,
    pub delimiter: Seq<char>,
    pub vars: Seq<Seq<char>>,
}

pub open spec fn spec_read_init() -> ReadScan {
    ReadScan { silent: false, prompt: Seq::empty(), timeout: None, delimiter: "\n"@, vars: Seq::empty() }
}

/// Scans the arguments of `read`, consuming one value argument after each of
/// `-p`, `-t`, `-d`, `-n` and `-u`.
pub open spec fn spec_read_scan(vs: Seq<Seq<char>>, i: int, st: ReadScan) -> ReadScan
    decreases vs.len() - i,
{
    if i < 0 || i >= vs.len() {
        st
    } else if vs[i] == "-s"@ {
        spec_read_scan(vs, i + 1, ReadScan { silent: true, ..st })
    } else if vs[i] == "-p"@ {
        if i + 1 < vs.len() {
            spec_read_scan(vs, i + 2, ReadScan { prompt: vs[i + 1], ..st })
        } else {
            spec_read_scan(vs, i + 1, st)
        }
    } else if vs[i] == "-t"@ {
        if i + 1 < vs.len() {
            spec_read_scan(vs, i + 2, ReadScan { timeout: spec_parse_u64(vs[i + 1]), ..st })
        } else {
            spec_read_scan(vs, i + 1, st)
        }
    } else if vs[i] == "-d"@ {
        if i + 1 < vs.len() {
            spec_read_scan(vs, i + 2, ReadScan { delimiter: vs[i + 1], ..st })
        } else {
            spec_read_scan(vs, i + 1, st)
        }
    } else if vs[i] == "-r"@ {
        spec_read_scan(vs, i + 1, st)
    } else if vs[i] == "-n"@ || vs[i] == "-u"@ {
        if i + 1 < vs.len() {
            spec_read_scan(vs, i + 2, st)
        } else {
            spec_read_scan(vs, i + 1, st)
        }
    } else if !spec_starts_with(vs[i], "-"@) {
        spec_read_scan(vs, i + 1, ReadScan { vars: st.vars.push(vs[i]), ..st })
    } else {
        spec_read_scan(vs, i + 1, st)
    }
}

/// The `$env` assignments appended for several variable names.
pub open spec fn spec_read_vars_from(vars: Seq<Seq<char>>, i: int) -> Seq<char>
    decreases vars.len() - i,
{
    if i < 0 || i >= vars.len() {
        Seq::empty()
    } else {
        (if i > 0 {
            "; "@
        } else {
            Seq::<char>::empty()
        }) + "$env."@ + vars[i] + " = ($in | get "@ + spec_dec(i) + " | default \"\")"@
            + spec_read_vars_from(vars, i + 1)
    }
}

/// The exact text produced for `read` from its scanned flags.
pub open spec fn spec_read_render(st: ReadScan) -> Seq<char> {
    let prompt_part: Seq<char> = if st.prompt.len() > 0 {
        "print "@ + spec_quote_word(st.prompt) + "; "@
    } else {
        Seq::empty()
    };
    let input_part: Seq<char> = if st.silent {
        "input -s"@
    } else {
        "input"@
    };
    let timeout_part: Seq<char> = match st.timeout {
        Some(t) => " # timeout: "@ + spec_dec(t as int) + "s"@,
        None => Seq::empty(),
    };
    let delim_part: Seq<char> = if st.delimiter != "\n"@ {
        " # delimiter: "@ + spec_quote_literal(st.delimiter)
    } else {
        Seq::empty()
    };
    let vars_part: Seq<char> = if st.vars.len() == 1 {
        " | $env."@ + st.vars[0] + " = $in"@
    } else if st.vars.len() > 1 {
        " | split words | "@ + spec_read_vars_from(st.vars, 0)
    } else {
        Seq::empty()
    };
    prompt_part + input_part + timeout_part + delim_part + vars_part
}

pub open spec fn spec_convert_read(vs: Seq<Seq<char>>) -> Seq<char> {
    if vs.len() == 0 {
        "input"@
    } else {
        spec_read_render(spec_read_scan(vs, 0, spec_read_init()))
    }
}

impl BuiltinConverter for ReadBuiltinConverter {
    open spec fn spec_convert(&self, vs: Seq<Seq<char>>) -> Seq<char> {
        spec_convert_read(vs)
    }

    open spec fn spec_name(&self) -> Seq<char> {
        "read"@
    }

    fn convert(&self, args: &[String]) -> (r: Result<String, ConvertError>) {
        let ghost vs = views(args@);
        if args.len() == 0 {
            return Ok("input".to_owned());
        }
        let (silent, prompt, timeout, delimiter, vars) = read_scan(args);
        Ok(read_render(silent, &prompt, timeout, &delimiter, &vars, Ghost(vs)))
    }

    fn builtin_name(&self) -> (r: &'static str) {
        "read"
    }

    fn description(&self) -> &'static str {
        "Converts read builtin commands to target input commands"
    }
}

/// Scan the arguments of `read` into its flag state.
#[verifier::loop_isolation(false)]
#[verifier::rlimit(60)]
fn read_scan(args: &[String]) -> (r: (bool, String, Option<u64>, String, Vec<String>))
    ensures
        spec_read_scan(views(args@), 0, spec_read_init()) == (ReadScan {
            silent: r.0,
            prompt: r.1@,
            timeout: r.2,
            delimiter: r.3@,
            vars: views(r.4@),
        }),
{
    let ghost vs = views(args@);
    let mut silent = false;
    let mut prompt: String = String::new();
    let mut timeout: Option<u64> = None;
    let mut delimiter: String = "\n".to_owned();
    let mut vars: Vec<String> = Vec::new();
    let ghost init = spec_read_init();
    proof {
        assert(views(vars@) =~= Seq::<Seq<char>>::empty());
        assert(prompt@ =~= Seq::<char>::empty());
    }
    let mut i: usize = 0;
    while i < args.len()
        invariant
            i <= args@.len(),
            spec_read_scan(vs, 0, init) == spec_read_scan(
                vs,
                i as int,
                ReadScan {
                    silent: silent,
                    prompt: prompt@,
                    timeout: timeout,
                    delimiter: delimiter@,
                    vars: views(vars@),
                },
            ),
        decreases args@.len() - i,
    {
        let a = args[i].as_str();
        proof {
            assert(vs[i as int] == args@[i as int]@);
            if i + 1 < args.len() {
                assert(vs[i as int + 1] == args@[i as int + 1]@);
            }
        }
        if str_eq(a, "-s") {
            silent = true;
            i = i + 1;
        } else if str_eq(a, "-p") {
            if i + 1 < args.len() {
                prompt = args[i + 1].clone();
                i = i + 2;
            } else {
                i = i + 1;
            }
        } else if str_eq(a, "-t") {
            if i + 1 < args.len() {
                timeout = parse_u64(args[i + 1].as_str());
                i = i + 2;
            } else {
                i = i + 1;
            }
        } else if str_eq(a, "-d") {
            if i + 1 < args.len() {
                delimiter = args[i + 1].clone();
                i = i + 2;
            } else {
                i = i + 1;
            }
        } else if str_eq(a, "-r") {
            i = i + 1;
        } else if str_eq(a, "-n") || str_eq(a, "-u") {
            if i + 1 < args.len() {
                i = i + 2;
            } else {
                i = i + 1;
            }
        } else if !starts_with(a, "-") {
            let ghost prev = vars@;
            vars.push(args[i].clone());
            proof {
                assert(views(vars@) =~= views(prev).push(args@[i as int]@));
            }
            i = i + 1;
        } else {
            i = i + 1;
        }
    }
    (silent, prompt, timeout, delimiter, vars)
}

/// Render the `$env` assignments for several `read` variables.
#[verifier::loop_isolation(false)]
fn read_vars_tail(vars: &Vec<String>) -> (r: String)
    ensures
        r@ == spec_read_vars_from(views(vars@), 0),
{
    let ghost gvars = views(vars@);
    let mut out = String::new();
    let mut k: usize = 0;
    while k < vars.len()
        invariant
            k <= vars@.len(),
            out@ + spec_read_vars_from(gvars, k as int) == spec_read_vars_from(gvars, 0),
        decreases vars@.len() - k,
    {
        if k > 0 {
            out.append("; ");
        }
        out.append("$env.");
        out.append(vars[k].as_str());
        out.append(" = ($in | get ");
        out.append(u64_to_dec(k as u64).as_str());
        out.append(" | default \"\")");
        proof {
            assert(gvars[k as int] == vars@[k as int]@);
        }
        k = k + 1;
    }
    proof {
        assert(spec_read_vars_from(gvars, vars@.len() as int) =~= Seq::<char>::empty());
        assert(out@ + Seq::<char>::empty() =~= out@);
    }
    out
}

/// Render the scanned `read` state as target text.
#[verifier::loop_isolation(false)]
#[verifier::rlimit(60)]
fn read_render(
    silent: bool,
    prompt: &String,
    timeout: Option<u64>,
    delimiter: &String,
    vars: &Vec<String>,
    Ghost(vs): Ghost<Seq<Seq<char>>>,
) -> (r: String)
    requires
        spec_read_scan(vs, 0, spec_read_init()) == (ReadScan {
            silent: silent,
            prompt: prompt@,
            timeout: timeout,
            delimiter: delimiter@,
            vars: views(vars@),
        }),
    ensures
        r@ == spec_read_render(spec_read_scan(vs, 0, spec_read_init())),
{
    let base = BaseBuiltinConverter;
    let ghost st = spec_read_scan(vs, 0, spec_read_init());
    let mut out = String::new();
    if prompt.as_str().unicode_len() > 0 {
        out.append("print ");
        out.append(base.quote_arg(prompt.as_str()).as_str());
        out.append("; ");
    }
    if silent {
        out.append("input -s");
    } else {
        out.append("input");
    }
    match timeout {
        Some(t) => {
            out.append(" # timeout: ");
            out.append(u64_to_dec(t).as_str());
            out.append("s");
        },
        None => {},
    }
    if !str_eq(delimiter.as_str(), "\n") {
        out.append(" # delimiter: ");
        out.append(quote_literal(delimiter.as_str()).as_str());
    }
    if vars.len() == 1 {
        out.append(" | $env.");
        out.append(vars[0].as_str());
        out.append(" = $in");
        proof {
            assert(views(vars@)[0] == vars@[0]@);
        }
    } else if vars.len() > 1 {
        out.append(" | split words | ");
        let tail = read_vars_tail(vars);
        out.append(tail.as_str());
    }
    out
}

} // verus!
