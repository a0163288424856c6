//! `wc` converter: maps `wc` to length and counting operations.

use super::CommandConverter;
use crate::plugin::ConvertError;
use crate::quoting::{quote_literal, spec_quote_literal};
use crate::text::{join_with, spec_join, spec_starts_with, starts_with, str_eq, views};
use vstd::prelude::*;

verus! {

/// Converter for the `wc` command.
pub struct WcConverter;

/// The flag state gathered while scanning `wc` arguments.
pub struct WcScan {
    pub lines: bool,
    pub words: bool,
    pub chars: bool,
    pub bytes: bool,
    pub any_flag: bool,
    pub files: Seq<Seq<char>>,
}

pub open spec fn spec_wc_init() -> WcScan {
    WcScan { lines: false, words: false, chars: false, bytes: false, any_flag: false, files: Seq::empty() }
}

pub open spec fn spec_wc_scan(vs: Seq<Seq<char>>, i: int, st: WcScan) -> WcScan
    decreases vs.len() - i,
{
    if i < 0 || i >= vs.len() {
        st
    } else if vs[i] == "-l"@ || vs[i] == "--lines"@ {
        spec_wc_scan(vs, i + 1, WcScan { lines: true, any_flag: true, ..st })
    } else if vs[i] == "-w"@ || vs[i] == "--words"@ {
        spec_wc_scan(vs, i + 1, WcScan { words: true, any_flag: true, ..st })
    } else if vs[i] == "-c"@ || vs[i] == "--bytes"@ {
        spec_wc_scan(vs, i + 1, WcScan { bytes: true, any_flag: true, ..st })
    } else if vs[i] == "-m"@ || vs[i] == "--chars"@ {
        spec_wc_scan(vs, i + 1, WcScan { chars: true, any_flag: true, ..st })
    } else if vs[i] == "-L"@ || vs[i] == "--max-line-length"@ {
        spec_wc_scan(vs, i + 1, WcScan { any_flag: true, ..st })
    } else if spec_starts_with(vs[i], "-"@) && vs[i].len() > 1 {
        spec_wc_scan(vs, i + 1, st)
    } else {
        spec_wc_scan(vs, i + 1, WcScan { files: st.files.push(vs[i]), ..st })
    }
}

/// The counting operations selected by the flags, in their fixed order.
pub open spec fn spec_wc_ops(l: bool, w: bool, c: bool, b: bool) -> Seq<Seq<char>> {
    (if l {
        seq!["lines | length"@]
    } else {
        Seq::<Seq<char>>::empty()
    }) + (if w {
        seq!["split words | length"@]
    } else {
        Seq::<Seq<char>>::empty()
    }) + (if c {
        seq!["str length"@]
    } else {
        Seq::<Seq<char>>::empty()
    }) + (if b {
        seq!["str length"@]
    } else {
        Seq::<Seq<char>>::empty()
    })
}

/// The stdin rendering for a given operation selection.
pub open spec fn spec_wc_stdin(ops: Seq<Seq<char>>, l: bool, w: bool) -> Seq<char> {
    if ops.len() == 1 {
        ops[0]
    } else if ops.len() == 2 && l && w {
        "lines | {lines: length, words: ($it | str join ' ' | split words | length)}"@
    } else {
        "wc # multiple counts: "@ + spec_join(ops, ", "@)
    }
}

/// The rendering for one named file.
pub open spec fn spec_wc_file(f: Seq<char>, ops: Seq<Seq<char>>, l: bool, w: bool) -> Seq<char> {
    if ops.len() == 1 {
        "open --raw "@ + spec_quote_literal(f) + " | "@ + ops[0]
    } else if ops.len() == 2 && l && w {
        "open --raw "@ + spec_quote_literal(f)
            + " | lines | {lines: length, words: ($it | str join ' ' | split words | length)}"@
    } else {
        "open --raw "@ + spec_quote_literal(f) + " | wc # multiple counts"@
    }
}

/// The `; `-joined renderings for several files.
pub open spec fn spec_wc_many(files: Seq<Seq<char>>, ops: Seq<Seq<char>>, i: int) -> Seq<char>
    decreases files.len() - i,
{
    if i < 0 || i >= files.len() {
        Seq::empty()
    } else {
        (if i > 0 {
            "; "@
        } else {
            Seq::<char>::empty()
        }) + (if ops.len() == 1 {
            "open --raw "@ + spec_quote_literal(files[i]) + " | "@ + ops[0]
        } else {
            "open --raw "@ + spec_quote_literal(files[i]) + " | wc"@
        }) + spec_wc_many(files, ops, i + 1)
    }
}

/// The exact text produced for `wc` with the given arguments.
pub open spec fn spec_convert_wc(vs: Seq<Seq<char>>) -> Seq<char> {
    if vs.len() == 0 {
        "wc"@
    } else {
        let st = spec_wc_scan(vs, 0, spec_wc_init());
        let l = st.lines || !st.any_flag;
        let w = st.words || !st.any_flag;
        let c = st.chars || !st.any_flag;
        let ops = spec_wc_ops(l, w, c, st.bytes);
        if st.files.len() == 0 {
            spec_wc_stdin(ops, l, w)
        } else if st.files.len() == 1 {
            if st.files[0] == "-"@ {
                if ops.len() == 1 {
                    ops[0]
                } else {
                    "wc # multiple counts: "@ + spec_join(ops, ", "@)
                }
            } else {
                spec_wc_file(st.files[0], ops, l, w)
            }
        } else {
            spec_wc_many(st.files, ops, 0)
        }
    }
}

/// Scan the arguments of `wc` into its flag state.
#[verifier::loop_isolation(false)]
#[verifier::rlimit(60)]
fn wc_scan(args: &[String]) -> (r: (bool, bool, bool, bool, bool, Vec<String>))
    ensures
        spec_wc_scan(views(args@), 0, spec_wc_init()) == (WcScan {
            lines: r.0,
            words: r.1,
            chars: r.2,
            bytes: r.3,
            any_flag: r.4,
            files: views(r.5@),
        }),
{
    let ghost vs = views(args@);
        let mut lines = false;
        let mut words = false;
        let mut chars = false;
        let mut bytes = false;
        let mut any_flag = false;
        let mut files: Vec<String> = Vec::new();
        proof {
            assert(views(files@) =~= Seq::<Seq<char>>::empty());
        }
        let mut i: usize = 0;
        while i < args.len()
            invariant
                i <= args@.len(),
                spec_wc_scan(vs, 0, spec_wc_init()) == spec_wc_scan(
                    vs,
                    i as int,
                    WcScan {
                        lines: lines,
                        words: words,
                        chars: chars,
                        bytes: bytes,
                        any_flag: any_flag,
                        files: views(files@),
                    },
                ),
            decreases args@.len() - i,
        {
            let a = args[i].as_str();
            proof {
                assert(vs[i as int] == args@[i as int]@);
            }
            if str_eq(a, "-l") || str_eq(a, "--lines") {
                lines = true;
                any_flag = true;
            } else if str_eq(a, "-w") || str_eq(a, "--words") {
                words = true;
                any_flag = true;
            } else if str_eq(a, "-c") || str_eq(a, "--bytes") {
                bytes = true;
                any_flag = true;
            } else if str_eq(a, "-m") || str_eq(a, "--chars") {
                chars = true;
                any_flag = true;
            } else if str_eq(a, "-L") || str_eq(a, "--max-line-length") {
                any_flag = true;
            } else if starts_with(a, "-") && a.unicode_len() > 1 {
            } else {
                let ghost prev = files@;
                files.push(args[i].clone());
                proof {
                    assert(views(files@) =~= views(prev).push(args@[i as int]@));
                }
            }
            i = i + 1;
        }
    (lines, words, chars, bytes, any_flag, files)
}

/// The selected counting operations, as a vector.
#[verifier::rlimit(60)]
fn wc_ops_vec(l: bool, w: bool, c: bool, b: bool) -> (r: Vec<String>)
    ensures
        views(r@) == spec_wc_ops(l, w, c, b),
{
    let mut ops: Vec<String> = Vec::new();
    if l {
        ops.push("lines | length".to_owned());
    }
    if w {
        ops.push("split words | length".to_owned());
    }
    if c {
        ops.push("str length".to_owned());
    }
    if b {
        ops.push("str length".to_owned());
    }
    proof {
        assert(views(ops@) =~= spec_wc_ops(l, w, c, b));
    }
    ops
}

impl CommandConverter for WcConverter {
    open spec fn spec_convert(&self, vs: Seq<Seq<char>>) -> Seq<char> {
        spec_convert_wc(vs)
    }

    open spec fn spec_name(&self) -> Seq<char> {
        "wc"@
    }

    #[verifier::loop_isolation(false)]
    #[verifier::rlimit(100)]
    fn convert(&self, args: &[String]) -> (r: Result<String, ConvertError>) {
        let ghost vs = views(args@);
        if args.len() == 0 {
            return Ok("wc".to_owned());
        }
        let (mut lines, mut words, mut chars, bytes, any_flag, files) = wc_scan(args);
        if !any_flag {
            lines = true;
            words = true;
            chars = true;
        }
        let ghost st = spec_wc_scan(vs, 0, spec_wc_init());
        let ghost gl = st.lines || !st.any_flag;
        let ghost gw = st.words || !st.any_flag;
        let ghost gc = st.chars || !st.any_flag;
        proof {
            assert(lines == gl && words == gw && chars == gc && bytes == st.bytes);
        }
        let ops = wc_ops_vec(lines, words, chars, bytes);
        let ghost gops = spec_wc_ops(gl, gw, gc, st.bytes);
        let ghost gfiles = views(files@);
        if files.len() == 0 {
            if ops.len() == 1 {
                proof {
                    assert(views(ops@)[0] == ops@[0]@);
                }
                Ok(ops[0].clone())
            } else if ops.len() == 2 && lines && words {
                Ok("lines | {lines: length, words: ($it | str join ' ' | split words | length)}".to_owned())
            } else {
                let mut out: String = "wc # multiple counts: ".to_owned();
                let joined = join_with(&ops, ", ");
                out.append(joined.as_str());
                Ok(out)
            }
        } else if files.len() == 1 {
            proof {
                assert(gfiles[0] == files@[0]@);
            }
            let f = files[0].as_str();
            if str_eq(f, "-") {
                if ops.len() == 1 {
                    proof {
                        assert(views(ops@)[0] == ops@[0]@);
                    }
                    Ok(ops[0].clone())
                } else {
                    let mut out: String = "wc # multiple counts: ".to_owned();
                    let joined = join_with(&ops, ", ");
                    out.append(joined.as_str());
                    Ok(out)
                }
            } else {
                let mut out: String = "open --raw ".to_owned();
                out.append(quote_literal(f).as_str());
                if ops.len() == 1 {
                    proof {
                        assert(views(ops@)[0] == ops@[0]@);
                    }
                    out.append(" | ");
                    out.append(ops[0].as_str());
                } else if ops.len() == 2 && lines && words {
                    out.append(
                        " | lines | {lines: length, words: ($it | str join ' ' | split words | length)}",
                    );
                } else {
                    out.append(" | wc # multiple counts");
                }
                Ok(out)
            }
        } else {
            let mut out = String::new();
            let mut k: usize = 0;
            while k < files.len()
                invariant
                    k <= files@.len(),
                    views(ops@) == gops,
                    ops@.len() == gops.len(),
                    out@ + spec_wc_many(gfiles, gops, k as int) == spec_wc_many(gfiles, gops, 0),
                decreases files@.len() - k,
            {
                proof {
                    assert(gfiles[k as int] == files@[k as int]@);
                }
                if k > 0 {
                    out.append("; ");
                }
                out.append("open --raw ");
                out.append(quote_literal(files[k].as_str()).as_str());
                if ops.len() == 1 {
                    proof {
                        assert(views(ops@)[0] == ops@[0]@);
                    }
                    out.append(" | ");
                    out.append(ops[0].as_str());
                } else {
                    out.append(" | wc");
                }
                k = k + 1;
            }
            proof {
                assert(spec_wc_many(gfiles, gops, files@.len() as int) =~= Seq::<char>::empty());
                assert(out@ + Seq::<char>::empty() =~= out@);
            }
            Ok(out)
        }
    }

    fn command_name(&self) -> (r: &'static str) {
        "wc"
    }

    fn description(&self) -> &'static str {
        "Converts wc commands to target length and counting operations"
    }
}

} // verus!
