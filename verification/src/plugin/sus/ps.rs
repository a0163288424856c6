//! `ps` converter: maps `ps` to target process listings with filters.

use super::{BaseConverter, CommandConverter};
use crate::plugin::ConvertError;
use crate::quoting::{quote_word, spec_quote_word};
use crate::text::{join_with, spec_join, spec_is_digits, spec_starts_with, starts_with, str_eq, views};
use vstd::prelude::*;

verus! {

/// Converter for the `ps` command.
pub struct PsConverter;

/// The flag state gathered while scanning `ps` arguments.
pub struct PsScan {
    pub full: bool,
    pub user_fmt: bool,
    pub threads: bool,
    pub tree: bool,
    pub user: Seq<char>,
    pub pid: Seq<char>,
    pub fields: Seq<Seq<char>>,
}

pub open spec fn spec_ps_init() -> PsScan {
    PsScan {
        full: false,
        user_fmt: false,
        threads: false,
        tree: false,
        user: Seq::empty(),
        pid: Seq::empty(),
        fields: Seq::empty(),
    }
}

/// Flags read from one combined short option such as `-aux`.
pub open spec fn spec_ps_flag_chars(cs: Seq<char>, j: int, st: PsScan) -> PsScan
    decreases cs.len() - j,
{
    if j < 0 || j >= cs.len() {
        st
    } else if cs[j] == 'u' {
        spec_ps_flag_chars(cs, j + 1, PsScan { user_fmt: true, ..st })
    } else if cs[j] == 'f' {
        spec_ps_flag_chars(cs, j + 1, PsScan { full: true, ..st })
    } else if cs[j] == 'H' {
        spec_ps_flag_chars(cs, j + 1, PsScan { threads: true, ..st })
    } else if cs[j] == 'T' {
        spec_ps_flag_chars(cs, j + 1, PsScan { tree: true, ..st })
    } else {
        spec_ps_flag_chars(cs, j + 1, st)
    }
}

pub open spec fn spec_ps_scan(vs: Seq<Seq<char>>, i: int, st: PsScan) -> (PsScan, Option<
    Seq<char>,
>)
    decreases vs.len() - i,
{
    if i < 0 || i >= vs.len() {
        (st, None)
    } else if vs[i] == "-a"@ || vs[i] == "--all"@ || vs[i] == "-x"@ || vs[i] == "-e"@ || vs[i]
        == "--everyone"@ {
        spec_ps_scan(vs, i + 1, st)
    } else if vs[i] == "-u"@ || vs[i] == "--user"@ {
        if i + 1 < vs.len() && !spec_starts_with(vs[i + 1], "-"@) {
            spec_ps_scan(vs, i + 2, PsScan { user_fmt: true, user: vs[i + 1], ..st })
        } else {
            spec_ps_scan(vs, i + 1, PsScan { user_fmt: true, ..st })
        }
    } else if vs[i] == "-f"@ || vs[i] == "--full"@ {
        spec_ps_scan(vs, i + 1, PsScan { full: true, ..st })
    } else if vs[i] == "-H"@ || vs[i] == "--show-threads"@ {
        spec_ps_scan(vs, i + 1, PsScan { threads: true, ..st })
    } else if vs[i] == "-T"@ || vs[i] == "--show-tree"@ || vs[i] == "--forest"@ {
        spec_ps_scan(vs, i + 1, PsScan { tree: true, ..st })
    } else if vs[i] == "-p"@ || vs[i] == "--pid"@ {
        if i + 1 < vs.len() {
            spec_ps_scan(vs, i + 2, PsScan { pid: vs[i + 1], ..st })
        } else {
            spec_ps_scan(vs, i + 1, st)
        }
    } else if vs[i] == "-o"@ || vs[i] == "--format"@ {
        if i + 1 < vs.len() {
            spec_ps_scan(vs, i + 2, PsScan { fields: st.fields.push(vs[i + 1]), ..st })
        } else {
            spec_ps_scan(vs, i + 1, st)
        }
    } else if vs[i] == "--help"@ {
        (st, Some("ps --help"@))
    } else if vs[i] == "--version"@ {
        (st, Some("ps --version"@))
    } else if spec_starts_with(vs[i], "-"@) && vs[i].len() > 1 {
        spec_ps_scan(vs, i + 1, spec_ps_flag_chars(vs[i].skip(1), 0, st))
    } else if spec_starts_with(vs[i], "-"@) {
        spec_ps_scan(vs, i + 1, st)
    } else if spec_is_digits(vs[i]) {
        spec_ps_scan(vs, i + 1, PsScan { pid: vs[i], ..st })
    } else {
        spec_ps_scan(vs, i + 1, PsScan { user: vs[i], ..st })
    }
}

/// The notes listed for formatting that the target does not cover.
pub open spec fn spec_ps_notes(st: PsScan) -> Seq<Seq<char>> {
    (if st.full {
        seq!["full format"@]
    } else {
        Seq::<Seq<char>>::empty()
    }) + (if st.user_fmt {
        seq!["user format"@]
    } else {
        Seq::<Seq<char>>::empty()
    }) + (if st.threads {
        seq!["show threads"@]
    } else {
        Seq::<Seq<char>>::empty()
    }) + (if st.tree {
        seq!["tree format"@]
    } else {
        Seq::<Seq<char>>::empty()
    }) + (if st.fields.len() > 0 {
        seq!["custom fields: "@ + spec_join(st.fields, ","@)]
    } else {
        Seq::<Seq<char>>::empty()
    })
}

/// The exact text produced for `ps` with the given arguments.
pub open spec fn spec_convert_ps(vs: Seq<Seq<char>>) -> Seq<char> {
    if vs.len() == 0 {
        "ps"@
    } else {
        let (st, early) = spec_ps_scan(vs, 0, spec_ps_init());
        match early {
            Some(text) => text,
            None => {
                let notes = spec_ps_notes(st);
                "ps"@ + (if st.user.len() > 0 {
                    " | where user == "@ + spec_quote_word(st.user)
                } else {
                    Seq::<char>::empty()
                }) + (if st.pid.len() > 0 {
                    " | where pid == "@ + st.pid
                } else {
                    Seq::<char>::empty()
                }) + (if notes.len() > 0 {
                    " # Note: "@ + spec_join(notes, ", "@) + " not fully supported"@
                } else {
                    Seq::<char>::empty()
                })
            },
        }
    }
}

/// Read the flag characters of one combined short option.
#[verifier::loop_isolation(false)]
fn ps_flag_chars(a: &str, full0: bool, user0: bool, threads0: bool, tree0: bool, Ghost(st0): Ghost<
    PsScan,
>) -> (r: (bool, bool, bool, bool))
    requires
        a@.len() >= 1,
        st0.full == full0,
        st0.user_fmt == user0,
        st0.threads == threads0,
        st0.tree == tree0,
    ensures
        spec_ps_flag_chars(a@.skip(1), 0, st0) == (PsScan {
            full: r.0,
            user_fmt: r.1,
            threads: r.2,
            tree: r.3,
            ..st0
        }),
{
    let ghost cs = a@.skip(1);
    let n = a.unicode_len();
    let mut full = full0;
    let mut user_fmt = user0;
    let mut threads = threads0;
    let mut tree = tree0;
    let mut j: usize = 1;
    while j < n
        invariant
            1 <= j <= n,
            spec_ps_flag_chars(cs, 0, st0) == spec_ps_flag_chars(
                cs,
                j - 1,
                PsScan { full: full, user_fmt: user_fmt, threads: threads, tree: tree, ..st0 },
            ),
        decreases n - j,
    {
        let c = a.get_char(j);
        proof {
            assert(cs[j - 1] == a@[j as int]);
        }
        if c == 'u' {
            user_fmt = true;
        } else if c == 'f' {
            full = true;
        } else if c == 'H' {
            threads = true;
        } else if c == 'T' {
            tree = true;
        }
        j = j + 1;
    }
    (full, user_fmt, threads, tree)
}

/// Scan the arguments of `ps` into its flag state.
#[verifier::loop_isolation(false)]
#[verifier::rlimit(100)]
fn ps_scan(args: &[String]) -> (r: (bool, bool, bool, bool, String, String, Vec<String>, Option<
    String,
>))
    ensures
        ({
            let (gst, ge) = spec_ps_scan(views(args@), 0, spec_ps_init());
            gst == (PsScan {
                full: r.0,
                user_fmt: r.1,
                threads: r.2,
                tree: r.3,
                user: r.4@,
                pid: r.5@,
                fields: views(r.6@),
            }) && match (ge, r.7) {
                (Some(t), Some(s)) => t == s@,
                (None, None) => true,
                _ => false,
            }
        }),
{
    let ghost vs = views(args@);
    let mut full = false;
    let mut user_fmt = false;
    let mut threads = false;
    let mut tree = false;
    let mut user: String = String::new();
    let mut pid: String = String::new();
    let mut fields: Vec<String> = Vec::new();
    proof {
        assert(views(fields@) =~= Seq::<Seq<char>>::empty());
        assert(user@ =~= Seq::<char>::empty());
        assert(pid@ =~= Seq::<char>::empty());
    }
    let mut i: usize = 0;
    while i < args.len()
        invariant
            i <= args@.len(),
            spec_ps_scan(vs, 0, spec_ps_init()) == spec_ps_scan(
                vs,
                i as int,
                PsScan {
                    full: full,
                    user_fmt: user_fmt,
                    threads: threads,
                    tree: tree,
                    user: user@,
                    pid: pid@,
                    fields: views(fields@),
                },
            ),
        decreases args@.len() - i,
    {
        let a = args[i].as_str();
        let n = a.unicode_len();
        proof {
            assert(vs[i as int] == args@[i as int]@);
            if i + 1 < args.len() {
                assert(vs[i as int + 1] == args@[i as int + 1]@);
            }
        }
        if str_eq(a, "-a") || str_eq(a, "--all") || str_eq(a, "-x") || str_eq(a, "-e") || str_eq(
            a,
            "--everyone",
        ) {
            i = i + 1;
        } else if str_eq(a, "-u") || str_eq(a, "--user") {
            user_fmt = true;
            if i + 1 < args.len() && !starts_with(args[i + 1].as_str(), "-") {
                user = args[i + 1].clone();
                i = i + 2;
            } else {
                i = i + 1;
            }
        } else if str_eq(a, "-f") || str_eq(a, "--full") {
            full = true;
            i = i + 1;
        } else if str_eq(a, "-H") || str_eq(a, "--show-threads") {
            threads = true;
            i = i + 1;
        } else if str_eq(a, "-T") || str_eq(a, "--show-tree") || str_eq(a, "--forest") {
            tree = true;
            i = i + 1;
        } else if str_eq(a, "-p") || str_eq(a, "--pid") {
            if i + 1 < args.len() {
                pid = args[i + 1].clone();
                i = i + 2;
            } else {
                i = i + 1;
            }
        } else if str_eq(a, "-o") || str_eq(a, "--format") {
            if i + 1 < args.len() {
                let ghost prev = fields@;
                fields.push(args[i + 1].clone());
                proof {
                    assert(views(fields@) =~= views(prev).push(args@[i as int + 1]@));
                }
                i = i + 2;
            } else {
                i = i + 1;
            }
        } else if str_eq(a, "--help") {
            return (full, user_fmt, threads, tree, user, pid, fields, Some("ps --help".to_owned()));
        } else if str_eq(a, "--version") {
            return (
                full,
                user_fmt,
                threads,
                tree,
                user,
                pid,
                fields,
                Some("ps --version".to_owned()),
            );
        } else if starts_with(a, "-") && n > 1 {
            proof {
                reveal_strlit("-");
            }
            let ghost stg = PsScan {
                full: full,
                user_fmt: user_fmt,
                threads: threads,
                tree: tree,
                user: user@,
                pid: pid@,
                fields: views(fields@),
            };
            let (f2, u2, h2, t2) = ps_flag_chars(a, full, user_fmt, threads, tree, Ghost(stg));
            full = f2;
            user_fmt = u2;
            threads = h2;
            tree = t2;
            i = i + 1;
        } else if starts_with(a, "-") {
            i = i + 1;
        } else if {
            proof {
                assert(a@.skip(0) =~= a@);
            }
            crate::plugin::sus::head::is_all_digits_from(a, 0)
        } {
            pid = args[i].clone();
            i = i + 1;
        } else {
            user = args[i].clone();
            i = i + 1;
        }
    }
    (full, user_fmt, threads, tree, user, pid, fields, None)
}

impl CommandConverter for PsConverter {
    open spec fn spec_convert(&self, vs: Seq<Seq<char>>) -> Seq<char> {
        spec_convert_ps(vs)
    }

    open spec fn spec_name(&self) -> Seq<char> {
        "ps"@
    }

    #[verifier::loop_isolation(false)]
    #[verifier::rlimit(100)]
    fn convert(&self, args: &[String]) -> (r: Result<String, ConvertError>) {
        let ghost vs = views(args@);
        if args.len() == 0 {
            return Ok("ps".to_owned());
        }
        let (full, user_fmt, threads, tree, user, pid, fields, early) = ps_scan(args);
        match early {
            Some(t) => Ok(t),
            None => {
                let ghost st = spec_ps_scan(vs, 0, spec_ps_init()).0;
                let mut out: String = "ps".to_owned();
                if user.as_str().unicode_len() > 0 {
                    out.append(" | where user == ");
                    out.append(quote_word(user.as_str()).as_str());
                }
                if pid.as_str().unicode_len() > 0 {
                    out.append(" | where pid == ");
                    out.append(pid.as_str());
                }
                let mut notes: Vec<String> = Vec::new();
                if full {
                    notes.push("full format".to_owned());
                }
                if user_fmt {
                    notes.push("user format".to_owned());
                }
                if threads {
                    notes.push("show threads".to_owned());
                }
                if tree {
                    notes.push("tree format".to_owned());
                }
                if fields.len() > 0 {
                    let mut f: String = "custom fields: ".to_owned();
                    let joined = join_with(&fields, ",");
                    f.append(joined.as_str());
                    notes.push(f);
                }
                proof {
                    assert(views(notes@) =~= spec_ps_notes(st));
                }
                if notes.len() > 0 {
                    out.append(" # Note: ");
                    let joined = join_with(&notes, ", ");
                    out.append(joined.as_str());
                    out.append(" not fully supported");
                }
                Ok(out)
            },
        }
    }

    fn command_name(&self) -> (r: &'static str) {
        "ps"
    }

    fn description(&self) -> &'static str {
        "Converts ps commands to target process listings"
    }
}

} // verus!
