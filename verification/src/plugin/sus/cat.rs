//! `cat` converter: maps `cat` to `open` and string operations.

use super::CommandConverter;
use crate::plugin::ConvertError;
use crate::quoting::{quote_literal, spec_quote_literal};
use crate::text::{join_with, spec_join, spec_starts_with, starts_with, str_eq, views};
use vstd::prelude::*;

verus! {

/// Converter for the `cat` command.
pub struct CatConverter;

/// The flag state gathered while scanning `cat` arguments.
pub struct CatScan {
    pub show_ends: bool,
    pub show_tabs: bool,
    pub show_nonprinting: bool,
    pub number_lines: bool,
    pub number_nonblank: bool,
    pub squeeze_blank: bool,
    pub files: Seq<Seq<char>>,
}

pub open spec fn spec_cat_init() -> CatScan {
    CatScan {
        show_ends: false,
        show_tabs: false,
        show_nonprinting: false,
        number_lines: false,
        number_nonblank: false,
        squeeze_blank: false,
        files: Seq::empty(),
    }
}

pub open spec fn spec_cat_scan(vs: Seq<Seq<char>>, i: int, st: CatScan) -> CatScan
    decreases vs.len() - i,
{
    if i < 0 || i >= vs.len() {
        st
    } else if vs[i] == "-A"@ || vs[i] == "--show-all"@ {
        spec_cat_scan(
            vs,
            i + 1,
            CatScan { show_ends: true, show_tabs: true, show_nonprinting: true, ..st },
        )
    } else if vs[i] == "-E"@ || vs[i] == "--show-ends"@ {
        spec_cat_scan(vs, i + 1, CatScan { show_ends: true, ..st })
    } else if vs[i] == "-T"@ || vs[i] == "--show-tabs"@ {
        spec_cat_scan(vs, i + 1, CatScan { show_tabs: true, ..st })
    } else if vs[i] == "-v"@ || vs[i] == "--show-nonprinting"@ {
        spec_cat_scan(vs, i + 1, CatScan { show_nonprinting: true, ..st })
    } else if vs[i] == "-n"@ || vs[i] == "--number"@ {
        spec_cat_scan(vs, i + 1, CatScan { number_lines: true, ..st })
    } else if vs[i] == "-b"@ || vs[i] == "--number-nonblank"@ {
        spec_cat_scan(vs, i + 1, CatScan { number_nonblank: true, ..st })
    } else if vs[i] == "-s"@ || vs[i] == "--squeeze-blank"@ {
        spec_cat_scan(vs, i + 1, CatScan { squeeze_blank: true, ..st })
    } else if vs[i] == "-u"@ {
        spec_cat_scan(vs, i + 1, st)
    } else if spec_starts_with(vs[i], "-"@) && vs[i].len() > 1 {
        spec_cat_scan(vs, i + 1, st)
    } else {
        spec_cat_scan(vs, i + 1, CatScan { files: st.files.push(vs[i]), ..st })
    }
}

/// One file rendered as an input source inside a concatenation list.
pub open spec fn spec_cat_source(f: Seq<char>) -> Seq<char> {
    if f == "-"@ {
        "input"@
    } else {
        "(open --raw "@ + spec_quote_literal(f) + ")"@
    }
}

/// The opening of the pipeline: the input sources.
pub open spec fn spec_cat_opening(files: Seq<Seq<char>>) -> Seq<char> {
    if files.len() == 0 {
        "input"@
    } else if files.len() == 1 {
        if files[0] == "-"@ {
            "input"@
        } else {
            "open --raw "@ + spec_quote_literal(files[0])
        }
    } else {
        "["@ + spec_join(files.map_values(|f: Seq<char>| spec_cat_source(f)), ", "@)
            + "] | str join"@
    }
}

/// The post-processing steps demanded by the flags, in order.
pub open spec fn spec_cat_post(st: CatScan) -> Seq<Seq<char>> {
    (if st.squeeze_blank {
        seq!["lines | where ($it | str trim | str length) > 0 | str join (char nl)"@]
    } else {
        Seq::<Seq<char>>::empty()
    }) + (if st.number_lines {
        seq![
            "lines | enumerate | each { |x| $\"($x.index + 1)  ($x.item)\" } | str join (char nl)"@,
        ]
    } else if st.number_nonblank {
        seq![
            "lines | enumerate | each { |x| if ($x.item | str trim | str length) > 0 { $\"($x.index + 1)  ($x.item)\" } else { $x.item } } | str join (char nl)"@,
        ]
    } else {
        Seq::<Seq<char>>::empty()
    }) + (if st.show_ends {
        seq!["str replace --all (char nl) '$'"@]
    } else {
        Seq::<Seq<char>>::empty()
    }) + (if st.show_tabs {
        seq!["str replace --all (char tab) '^I'"@]
    } else {
        Seq::<Seq<char>>::empty()
    }) + (if st.show_nonprinting {
        seq!["# show-nonprinting not fully supported"@]
    } else {
        Seq::<Seq<char>>::empty()
    })
}

/// The exact text produced for `cat` with the given arguments.
pub open spec fn spec_convert_cat(vs: Seq<Seq<char>>) -> Seq<char> {
    if vs.len() == 0 {
        "input"@
    } else {
        let st = spec_cat_scan(vs, 0, spec_cat_init());
        let post = spec_cat_post(st);
        spec_cat_opening(st.files) + (if post.len() > 0 {
            " | "@ + spec_join(post, " | "@)
        } else {
            Seq::<char>::empty()
        })
    }
}

/// Scan the arguments of `cat` into its flag state.
#[verifier::loop_isolation(false)]
#[verifier::rlimit(60)]
fn cat_scan(args: &[String]) -> (r: (bool, bool, bool, bool, bool, bool, Vec<String>))
    ensures
        spec_cat_scan(views(args@), 0, spec_cat_init()) == (CatScan {
            show_ends: r.0,
            show_tabs: r.1,
            show_nonprinting: r.2,
            number_lines: r.3,
            number_nonblank: r.4,
            squeeze_blank: r.5,
            files: views(r.6@),
        }),
{
    let ghost vs = views(args@);
    let mut show_ends = false;
    let mut show_tabs = false;
    let mut show_np = false;
    let mut number_lines = false;
    let mut number_nonblank = false;
    let mut squeeze = false;
    let mut files: Vec<String> = Vec::new();
    proof {
        assert(views(files@) =~= Seq::<Seq<char>>::empty());
    }
    let mut i: usize = 0;
    while i < args.len()
        invariant
            i <= args@.len(),
            spec_cat_scan(vs, 0, spec_cat_init()) == spec_cat_scan(
                vs,
                i as int,
                CatScan {
                    show_ends: show_ends,
                    show_tabs: show_tabs,
                    show_nonprinting: show_np,
                    number_lines: number_lines,
                    number_nonblank: number_nonblank,
                    squeeze_blank: squeeze,
                    files: views(files@),
                },
            ),
        decreases args@.len() - i,
    {
        let a = args[i].as_str();
        proof {
            assert(vs[i as int] == args@[i as int]@);
        }
        if str_eq(a, "-A") || str_eq(a, "--show-all") {
            show_ends = true;
            show_tabs = true;
            show_np = true;
        } else if str_eq(a, "-E") || str_eq(a, "--show-ends") {
            show_ends = true;
        } else if str_eq(a, "-T") || str_eq(a, "--show-tabs") {
            show_tabs = true;
        } else if str_eq(a, "-v") || str_eq(a, "--show-nonprinting") {
            show_np = true;
        } else if str_eq(a, "-n") || str_eq(a, "--number") {
            number_lines = true;
        } else if str_eq(a, "-b") || str_eq(a, "--number-nonblank") {
            number_nonblank = true;
        } else if str_eq(a, "-s") || str_eq(a, "--squeeze-blank") {
            squeeze = true;
        } else if str_eq(a, "-u") {
        } else if starts_with(a, "-") && a.unicode_len() > 1 {
        } else {
            let ghost prev = files@;
            files.push(args[i].clone());
            proof {
                assert(views(files@) =~= views(prev).push(args@[i as int]@));
            }
        }
        i = i + 1;
    }
    (show_ends, show_tabs, show_np, number_lines, number_nonblank, squeeze, files)
}

impl CommandConverter for CatConverter {
    open spec fn spec_convert(&self, vs: Seq<Seq<char>>) -> Seq<char> {
        spec_convert_cat(vs)
    }

    open spec fn spec_name(&self) -> Seq<char> {
        "cat"@
    }

    #[verifier::loop_isolation(false)]
    #[verifier::rlimit(100)]
    fn convert(&self, args: &[String]) -> (r: Result<String, ConvertError>) {
        let ghost vs = views(args@);
        if args.len() == 0 {
            return Ok("input".to_owned());
        }
        let (show_ends, show_tabs, show_np, number_lines, number_nonblank, squeeze, files) =
            cat_scan(args);
        let ghost st = spec_cat_scan(vs, 0, spec_cat_init());
        let ghost gfiles = views(files@);
        let mut out: String;
        if files.len() == 0 {
            out = "input".to_owned();
        } else if files.len() == 1 {
            proof {
                assert(gfiles[0] == files@[0]@);
            }
            if str_eq(files[0].as_str(), "-") {
                out = "input".to_owned();
            } else {
                out = "open --raw ".to_owned();
                out.append(quote_literal(files[0].as_str()).as_str());
            }
        } else {
            out = "[".to_owned();
            let mut sources: Vec<String> = Vec::new();
            let mut k: usize = 0;
            while k < files.len()
                invariant
                    k <= files@.len(),
                    gfiles == views(files@),
                    views(sources@) =~= gfiles.take(k as int).map_values(
                        |f: Seq<char>| spec_cat_source(f),
                    ),
                decreases files@.len() - k,
            {
                let ghost prev = sources@;
                let f = files[k].as_str();
                proof {
                    assert(gfiles[k as int] == files@[k as int]@);
                }
                if str_eq(f, "-") {
                    sources.push("input".to_owned());
                } else {
                    let mut s: String = "(open --raw ".to_owned();
                    s.append(quote_literal(f).as_str());
                    s.append(")");
                    sources.push(s);
                }
                proof {
                    assert forall|j: int| 0 <= j < k + 1 implies views(sources@)[j] == gfiles.take(
                        k as int + 1,
                    ).map_values(|f: Seq<char>| spec_cat_source(f))[j] by {
                        assert(views(sources@)[j] == sources@[j]@);
                        if j < k {
                            assert(views(prev)[j] == prev[j]@);
                            assert(gfiles.take(k as int)[j] == gfiles[j]);
                        }
                    }
                    assert(views(sources@) =~= gfiles.take(k as int + 1).map_values(
                        |f: Seq<char>| spec_cat_source(f),
                    ));
                }
                k = k + 1;
            }
            proof {
                assert(gfiles.take(files@.len() as int) =~= gfiles);
            }
            let joined = join_with(&sources, ", ");
            out.append(joined.as_str());
            out.append("] | str join");
        }
        proof {
            assert(out@ == spec_cat_opening(st.files));
        }
        let mut post: Vec<String> = Vec::new();
        if squeeze {
            post.push("lines | where ($it | str trim | str length) > 0 | str join (char nl)".to_owned());
        }
        if number_lines {
            post.push(
                "lines | enumerate | each { |x| $\"($x.index + 1)  ($x.item)\" } | str join (char nl)".to_owned(),
            );
        } else if number_nonblank {
            post.push(
                "lines | enumerate | each { |x| if ($x.item | str trim | str length) > 0 { $\"($x.index + 1)  ($x.item)\" } else { $x.item } } | str join (char nl)".to_owned(),
            );
        }
        if show_ends {
            post.push("str replace --all (char nl) '$'".to_owned());
        }
        if show_tabs {
            post.push("str replace --all (char tab) '^I'".to_owned());
        }
        if show_np {
            post.push("# show-nonprinting not fully supported".to_owned());
        }
        proof {
            assert(views(post@) =~= spec_cat_post(st));
        }
        if post.len() > 0 {
            out.append(" | ");
            let joined = join_with(&post, " | ");
            out.append(joined.as_str());
        }
        Ok(out)
    }

    fn command_name(&self) -> (r: &'static str) {
        "cat"
    }

    fn description(&self) -> &'static str {
        "Converts cat commands to target open and string operations"
    }
}

} // verus!
