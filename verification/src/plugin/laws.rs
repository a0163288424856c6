//! Crate-level laws: the quoting rule's behaviour and the resolution
//! priority of the conversion dispatcher, stated and proved once.

use crate::plugin::builtin::{
    spec_builtin_find, spec_builtin_table, spec_convert_builtin, spec_entry_name,
};
use crate::plugin::converter::spec_resolve_name;
use crate::quoting::{
    spec_is_quoted, spec_needs_quotes_word, spec_quote_word, spec_quoted,
};
use vstd::prelude::*;

verus! {

/// Quoting changes nothing on a word that needs no quoting.  The empty
/// string is deliberately not such a word: it is always rendered as `""`
/// (see the crate's quoting module), which `lemma_quote_word_empty` states.
pub proof fn lemma_quote_word_plain(s: Seq<char>)
    requires
        !spec_is_quoted(s),
        !spec_needs_quotes_word(s),
    ensures
        spec_quote_word(s) == s,
{
}

/// The empty argument is rendered as an explicit empty string literal, so
/// it cannot vanish from the generated text or strand a separator space.
pub proof fn lemma_quote_word_empty()
    ensures
        spec_quote_word(Seq::empty()) == spec_quoted(Seq::empty()),
{
}

/// Quoting a word that needs it yields exactly the double-quoted, escaped
/// form.
pub proof fn lemma_quote_word_quotes(s: Seq<char>)
    requires
        !spec_is_quoted(s),
        spec_needs_quotes_word(s),
    ensures
        spec_quote_word(s) == spec_quoted(s),
{
}

/// A quoted form reads as already quoted.
pub proof fn lemma_quoted_is_quoted(s: Seq<char>)
    ensures
        spec_is_quoted(spec_quoted(s)),
{
    let q = spec_quoted(s);
    assert(q[0] == '"');
    assert(q[q.len() - 1] == '"');
}

/// Quoting is idempotent: re-quoting an already-quoted word never escapes
/// twice.
pub proof fn lemma_quote_word_idempotent(s: Seq<char>)
    ensures
        spec_quote_word(spec_quote_word(s)) == spec_quote_word(s),
{
    if spec_is_quoted(s) {
    } else if spec_needs_quotes_word(s) {
        lemma_quoted_is_quoted(s);
    }
}

/// A name served by the builtin table always resolves through the builtin
/// table, never through the utility table: `test` is the canonical example,
/// present in both.
pub proof fn lemma_builtin_priority(vs: Seq<Seq<char>>)
    ensures
        spec_resolve_name("test"@, vs) == spec_convert_builtin(spec_builtin_table(), "test"@, vs),
{
    let t = spec_builtin_table();
    lemma_test_found();
}

/// The builtin table holds an entry for `test`.
proof fn lemma_test_found()
    ensures
        spec_builtin_find(spec_builtin_table(), "test"@, 0) is Some,
{
    let t = spec_builtin_table();
    let n = "test"@;
    reveal_strlit("cd");
    reveal_strlit("exit");
    reveal_strlit("false");
    reveal_strlit("jobs");
    reveal_strlit("kill");
    reveal_strlit("pwd");
    reveal_strlit("read");
    reveal_strlit("test");
    reveal_strlit("true");
    assert("cd"@ =~= seq!['c', 'd']);
    assert("exit"@ =~= seq!['e', 'x', 'i', 't']);
    assert("false"@ =~= seq!['f', 'a', 'l', 's', 'e']);
    assert("jobs"@ =~= seq!['j', 'o', 'b', 's']);
    assert("kill"@ =~= seq!['k', 'i', 'l', 'l']);
    assert("pwd"@ =~= seq!['p', 'w', 'd']);
    assert("read"@ =~= seq!['r', 'e', 'a', 'd']);
    assert("test"@ =~= seq!['t', 'e', 's', 't']);
    assert("true"@ =~= seq!['t', 'r', 'u', 'e']);
    assert(spec_builtin_find(t, n, 0) == spec_builtin_find(t, n, 1));
    assert(spec_builtin_find(t, n, 1) == spec_builtin_find(t, n, 2));
    assert(spec_builtin_find(t, n, 2) == spec_builtin_find(t, n, 3));
    assert(spec_builtin_find(t, n, 3) == spec_builtin_find(t, n, 4));
    assert(spec_builtin_find(t, n, 4) == spec_builtin_find(t, n, 5));
    assert(spec_builtin_find(t, n, 5) == spec_builtin_find(t, n, 6));
    assert(spec_builtin_find(t, n, 6) == spec_builtin_find(t, n, 7));
    assert(spec_builtin_find(t, n, 7) is Some);
}

/// Converting `[` is the same as converting `test`, for every argument
/// vector: the bracket name is an alias.
pub proof fn lemma_bracket_alias(vs: Seq<Seq<char>>)
    ensures
        spec_convert_builtin(spec_builtin_table(), "["@, vs) == spec_convert_builtin(
            spec_builtin_table(),
            "test"@,
            vs,
        ),
{
    reveal_strlit("[");
    reveal_strlit("test");
    assert("["@ =~= seq!['[']);
    assert("test"@ =~= seq!['t', 'e', 's', 't']);
    lemma_test_found();
}

} // verus!

use crate::plugin::builtin::cd::{spec_cd_render, spec_cd_from};
use crate::plugin::builtin::exit::spec_convert_exit;
use crate::plugin::builtin::jobs::spec_jobs_render;
use crate::plugin::builtin::kill::{spec_kill_jobs_from, spec_kill_pids_part, spec_kill_render};
use crate::plugin::builtin::read::{spec_read_render, spec_read_vars_from};
use crate::plugin::builtin::test::{
    spec_convert_test, spec_test_binary, spec_test_complex, spec_test_complex_from,
    spec_test_simple, spec_test_ternary, spec_test_unary,
};
use crate::plugin::builtin::{spec_entry_convert, BuiltinEntry};
use crate::quoting::spec_quote_literal;

verus! {

/// An unconditionally quoted value is never empty.
pub proof fn lemma_quote_literal_nonempty(s: Seq<char>)
    ensures
        spec_quote_literal(s).len() > 0,
{
}

proof fn lemma_cd_from_nonempty(vs: Seq<Seq<char>>, i: int, path: Seq<char>)
    ensures
        spec_cd_from(vs, i, path).len() > 0,
    decreases vs.len() - i,
{
    reveal_strlit("cd");
    reveal_strlit("cd -");
    reveal_strlit("cd ");
    if i < 0 || i >= vs.len() {
        assert(spec_cd_render(path).len() > 0);
    } else if vs[i] == "-L"@ || vs[i] == "-P"@ {
        lemma_cd_from_nonempty(vs, i + 1, path);
    } else if vs[i] == "-"@ {
    } else if crate::text::spec_starts_with(vs[i], "-"@) {
        lemma_cd_from_nonempty(vs, i + 1, path);
    } else {
        lemma_cd_from_nonempty(vs, i + 1, vs[i]);
    }
}

proof fn lemma_test_simple_nonempty(a: Seq<Seq<char>>)
    ensures
        spec_test_simple(a).len() > 0,
{
    reveal_strlit("false");
    reveal_strlit("true");
    reveal_strlit("(");
    reveal_strlit("not (");
    reveal_strlit("test ");
    reveal_strlit(" == ");
    reveal_strlit(" != ");
    reveal_strlit(" < ");
    reveal_strlit(" <= ");
    reveal_strlit(" > ");
    reveal_strlit(" >= ");
    reveal_strlit(" =~ ");
    reveal_strlit(" !~ ");
    reveal_strlit(" ");
    if a.len() == 1 {
        lemma_quote_literal_nonempty(a[0]);
    } else if a.len() == 2 {
        lemma_quote_literal_nonempty(a[1]);
    } else if a.len() == 3 {
        lemma_quote_literal_nonempty(a[0]);
        lemma_quote_literal_nonempty(a[2]);
    }
}

proof fn lemma_test_complex_nonempty(vs: Seq<Seq<char>>)
    ensures
        spec_test_complex(vs).len() > 0,
{
    reveal_strlit("false");
    reveal_strlit("(");
    let a = crate::plugin::builtin::test::spec_strip_brackets(vs);
    if a.len() == 0 {
    } else if !crate::plugin::builtin::test::spec_has_logic_op(a) {
        lemma_test_simple_nonempty(a);
    } else {
        let parts = crate::plugin::builtin::test::spec_test_parts(a, 0, Seq::empty(), Seq::empty());
        if parts.len() > 0 {
            assert(spec_test_complex_from(parts, 0).len() > 0);
        }
    }
}

/// Totality of the builtin table: every registered converter produces
/// non-empty text for every argument vector.
pub proof fn lemma_builtin_totality(e: BuiltinEntry, vs: Seq<Seq<char>>)
    ensures
        spec_entry_convert(e, vs).len() > 0,
{
    match e {
        BuiltinEntry::Cd(c) => {
            reveal_strlit("cd");
            if vs.len() > 0 {
                lemma_cd_from_nonempty(vs, 0, Seq::empty());
            }
        },
        BuiltinEntry::Exit(c) => {
            reveal_strlit("exit");
            reveal_strlit("exit ");
            reveal_strlit("exit 1");
        },
        BuiltinEntry::False(c) => {
            reveal_strlit("false");
        },
        BuiltinEntry::Jobs(c) => {
            reveal_strlit("jobs");
        },
        BuiltinEntry::Kill(c) => {
            reveal_strlit("kill");
            reveal_strlit("# Signal list: HUP INT QUIT ILL TRAP ABRT BUS FPE KILL USR1 SEGV USR2 PIPE ALRM TERM");
            reveal_strlit("kill # Usage: kill [-signal] pid...");
            reveal_strlit(" $pid }");
            reveal_strlit("[");
            reveal_strlit(" ");
            if vs.len() > 0 {
                let st = crate::plugin::builtin::kill::spec_kill_scan(
                    vs,
                    0,
                    crate::plugin::builtin::kill::spec_kill_init(),
                );
                if !st.list && !(st.specs.len() == 0 && st.pids.len() == 0) {
                    if st.specs.len() > 0 {
                        assert(spec_kill_jobs_from(st.specs, st.signal, 0).len() > 0);
                    } else {
                        assert(spec_kill_pids_part(st.pids, st.signal).len() > 0);
                    }
                }
            }
        },
        BuiltinEntry::Pwd(c) => {
            reveal_strlit("pwd");
            reveal_strlit("pwd | path expand");
        },
        BuiltinEntry::Read(c) => {
            reveal_strlit("input");
            reveal_strlit("input -s");
        },
        BuiltinEntry::Test(c) => {
            reveal_strlit("false");
            if vs.len() == 0 {
            } else if vs.len() <= 3 {
                lemma_test_simple_nonempty(vs);
            } else {
                lemma_test_complex_nonempty(vs);
            }
        },
        BuiltinEntry::True(c) => {
            reveal_strlit("true");
        },
    }
}

} // verus!

use crate::plugin::sus::{spec_sus_convert, SusEntry};
use crate::quoting::{spec_needs_quotes_entry, spec_quote_entry};
use crate::text::{spec_dec, spec_find_sub, spec_replace_all};

verus! {

/// A word-quoted value is never empty.
pub proof fn lemma_quote_word_nonempty(s: Seq<char>)
    ensures
        spec_quote_word(s).len() > 0,
{
}

/// An entry-quoted value is never empty.
pub proof fn lemma_quote_entry_nonempty(s: Seq<char>)
    ensures
        spec_quote_entry(s).len() > 0,
{
}

/// A decimal rendering is never empty.
pub proof fn lemma_dec_nonempty(n: int)
    ensures
        spec_dec(n).len() > 0,
{
}

proof fn lemma_find_replace_nonempty(base: Seq<char>)
    requires
        base.len() > 0,
        base[0] == 'l',
    ensures
        spec_replace_all(base, "/**/*"@, "/*"@).len() > 0,
{
    reveal_strlit("/**/*");
    let p = "/**/*"@;
    let i = spec_find_sub(base, p);
    crate::text::lemma_find_sub_props(base, p);
    if i == 0 {
        assert(base.subrange(0, p.len() as int) == p);
        assert(base.subrange(0, p.len() as int)[0] == base[0]);
        assert(p[0] == '/');
    }
}

/// Totality of the utility table: every registered converter produces
/// non-empty text for every argument vector.
#[verifier::rlimit(100)]
pub proof fn lemma_utility_totality(e: SusEntry, vs: Seq<Seq<char>>)
    ensures
        spec_sus_convert(e, vs).len() > 0,
{
    match e {
        SusEntry::Basename(c) => {
            reveal_strlit("basename");
            reveal_strlit("basename --help");
            reveal_strlit("basename --version");
            reveal_strlit("[");
            if vs.len() > 0 {
                lemma_basename_early(vs, 0, Seq::empty(), false, false, Seq::empty());
                let r = crate::plugin::sus::basename::spec_basename_scan(
                    vs,
                    0,
                    Seq::empty(),
                    false,
                    false,
                    Seq::empty(),
                );
                if r.4 is None && r.3.len() > 0 {
                    lemma_quote_literal_nonempty(r.3[0]);
                }
            }
        },
        SusEntry::Cat(c) => {
            reveal_strlit("input");
            reveal_strlit("open --raw ");
            reveal_strlit("[");
        },
        SusEntry::Chmod(c) => {
            reveal_strlit("chmod");
            reveal_strlit(" # Note: uses external chmod command");
            reveal_strlit("ls ");
            reveal_strlit("chmod --reference=");
            reveal_strlit("chmod ");
        },
        SusEntry::Chown(c) => {
            reveal_strlit("chown");
            reveal_strlit(" # Note: uses external chown command");
            reveal_strlit("ls ");
            reveal_strlit("chown --reference=");
            reveal_strlit("chown ");
        },
        SusEntry::Cp(c) => {
            reveal_strlit("cp");
            reveal_strlit("cp ");
        },
        SusEntry::Cut(c) => {
            reveal_strlit("cut");
            reveal_strlit("lines");
            reveal_strlit("open ");
            reveal_strlit("ls ");
        },
        SusEntry::Date(c) => {
            reveal_strlit("date now");
            reveal_strlit("date --help");
            reveal_strlit("date --version");
            reveal_strlit("ls ");
            reveal_strlit(
                "date now | date to-record | update hour 0 | update minute 0 | update second 0 | date from-record",
            );
            reveal_strlit(
                "date now | date to-record | update day ($it.day - 1) | update hour 0 | update minute 0 | update second 0 | date from-record",
            );
            reveal_strlit(
                "date now | date to-record | update day ($it.day + 1) | update hour 0 | update minute 0 | update second 0 | date from-record",
            );
            if vs.len() > 0 {
                lemma_date_early(vs, 0, crate::plugin::sus::date::spec_date_init());
                let r = crate::plugin::sus::date::spec_date_scan(
                    vs,
                    0,
                    crate::plugin::sus::date::spec_date_init(),
                );
                if r.1 is None {
                    let st = r.0;
                    if st.reference.len() == 0 && st.set_date.len() > 0 {
                        lemma_quote_literal_nonempty(st.set_date);
                    }
                }
            }
        },
        SusEntry::Dirname(c) => {
            reveal_strlit("dirname");
            reveal_strlit("dirname --help");
            reveal_strlit("dirname --version");
            reveal_strlit("[");
            if vs.len() > 0 {
                lemma_dirname_early(vs, 0, false, Seq::empty());
                let r = crate::plugin::sus::dirname::spec_dirname_scan(
                    vs,
                    0,
                    false,
                    Seq::empty(),
                );
                if r.2 is None && r.1.len() == 1 {
                    lemma_quote_literal_nonempty(r.1[0]);
                }
            }
        },
        SusEntry::Echo(c) => {
            reveal_strlit("print");
            reveal_strlit("print ");
        },
        SusEntry::Find(c) => {
            reveal_strlit("find");
            reveal_strlit("ls");
            reveal_strlit("ls ");
            if vs.len() > 0 {
                let st = crate::plugin::sus::find::spec_find_scan(
                    vs,
                    0,
                    crate::plugin::sus::find::spec_find_init(),
                );
                let base: Seq<char> = if st.path == "."@ {
                    "ls"@
                } else {
                    "ls "@ + spec_quote_literal(st.path)
                };
                let recursive: Seq<char> = if st.max_depth is None || st.max_depth->0 > 1 {
                    base + "/**/*"@
                } else {
                    base
                };
                assert(recursive[0] == 'l');
                match st.max_depth {
                    Some(m) => {
                        if m == 1 {
                            lemma_find_replace_nonempty(recursive);
                        }
                    },
                    None => {},
                }
            }
        },
        SusEntry::Grep(c) => {
            reveal_strlit("grep");
            reveal_strlit("grep ");
            reveal_strlit("lines | ");
            reveal_strlit("open ");
            reveal_strlit("lines | enumerate | where ($it.item =~ ");
        },
        SusEntry::Head(c) => {
            reveal_strlit("first 10");
            reveal_strlit("first ");
            reveal_strlit("head ");
            reveal_strlit("open ");
            reveal_strlit("print \"==> ");
            if vs.len() > 0 {
                lemma_head_early(vs, 0, 10, false, Seq::empty());
                let r = crate::plugin::sus::head::spec_head_scan(vs, 0, 10, false, Seq::empty());
                match r.3 {
                    Some(t) => {},
                    None => {
                        lemma_dec_nonempty(r.0);
                        if r.2.len() == 1 {
                            lemma_head_one_nonempty(r.2[0], r.0);
                        } else if r.2.len() > 1 {
                            assert(crate::plugin::sus::head::spec_head_many(r.2, r.0, 0).len()
                                > 0);
                        }
                    },
                }
            }
        },
        SusEntry::Ls(c) => {
            reveal_strlit("ls");
        },
        SusEntry::Mkdir(c) => {
            reveal_strlit("mkdir");
        },
        SusEntry::Mv(c) => {
            reveal_strlit("mv");
            reveal_strlit("mv ");
        },
        SusEntry::Ps(c) => {
            reveal_strlit("ps");
            reveal_strlit("ps --help");
            reveal_strlit("ps --version");
            if vs.len() > 0 {
                lemma_ps_early(vs, 0, crate::plugin::sus::ps::spec_ps_init());
            }
        },
        SusEntry::Realpath(c) => {
            reveal_strlit("realpath");
            reveal_strlit("realpath --help");
            reveal_strlit("realpath --version");
            reveal_strlit("[");
            if vs.len() > 0 {
                lemma_realpath_early(vs, 0, false, Seq::empty(), Seq::empty());
                let r = crate::plugin::sus::realpath::spec_realpath_scan(
                    vs,
                    0,
                    false,
                    Seq::empty(),
                    Seq::empty(),
                );
                if r.3 is None && r.2.len() == 1 {
                    lemma_quote_literal_nonempty(r.2[0]);
                }
            }
        },
        SusEntry::Rm(c) => {
            reveal_strlit("rm");
        },
        SusEntry::Rmdir(c) => {
            reveal_strlit("rm");
        },
        SusEntry::Sed(c) => {
            reveal_strlit("sed");
            reveal_strlit("lines");
            reveal_strlit("open ");
            reveal_strlit("ls ");
            reveal_strlit("[");
        },
        SusEntry::Sequence(c) => {
            reveal_strlit("seq");
            reveal_strlit("seq ");
            if vs.len() > 0 {
                let r = crate::plugin::sus::seq::spec_seq_scan(
                    vs,
                    0,
                    "\n"@,
                    false,
                    Seq::empty(),
                    Seq::empty(),
                );
                match crate::plugin::sus::seq::spec_seq_bounds(r.3) {
                    Some(bounds) => {
                        lemma_dec_nonempty(if bounds.0 < 0 {
                            -bounds.0
                        } else {
                            bounds.0
                        });
                        assert(crate::text::spec_dec_int(bounds.0).len() > 0);
                    },
                    None => {},
                }
            }
        },
        SusEntry::Sort(c) => {
            reveal_strlit("sort");
            reveal_strlit("open ");
            reveal_strlit("lines | where ($it | str trim | is-empty | not) | each { |line| $line | into int } | sort");
            reveal_strlit("lines | split column '");
            reveal_strlit("lines | sort-by ");
            reveal_strlit("lines | sort");
            reveal_strlit("lines | ");
            if vs.len() > 0 {
                let st = crate::plugin::sus::sort::spec_sort_scan(
                    vs,
                    0,
                    crate::plugin::sus::sort::spec_sort_init(),
                );
                let piped = crate::plugin::sus::sort::spec_sort_piped(st);
                assert(crate::plugin::sus::sort::spec_sort_body(st).len() >= 12);
                assert(piped.len() >= 12);
            }
        },
        SusEntry::Stat(c) => {
            reveal_strlit("stat");
            reveal_strlit("stat --help");
            reveal_strlit("stat --version");
            reveal_strlit("[");
            if vs.len() > 0 {
                lemma_stat_early(vs, 0, Seq::empty(), false, false, Seq::empty());
                let r = crate::plugin::sus::stat::spec_stat_scan(
                    vs,
                    0,
                    Seq::empty(),
                    false,
                    false,
                    Seq::empty(),
                );
                if r.4 is None && r.3.len() == 1 {
                    lemma_quote_entry_nonempty(r.3[0]);
                }
            }
        },
        SusEntry::Tail(c) => {
            reveal_strlit("last 10");
            reveal_strlit("last ");
            reveal_strlit("tail ");
            reveal_strlit("open ");
            reveal_strlit("print \"==> ");
            if vs.len() > 0 {
                lemma_tail_early(vs, 0, 10, false, Seq::empty());
                let r = crate::plugin::sus::tail::spec_tail_scan(vs, 0, 10, false, Seq::empty());
                match r.3 {
                    Some(t) => {},
                    None => {
                        lemma_dec_nonempty(r.0);
                        if r.2.len() == 1 {
                            lemma_tail_one_nonempty(r.2[0], r.0);
                        } else if r.2.len() > 1 {
                            assert(crate::plugin::sus::tail::spec_tail_many(r.2, r.0, 0).len()
                                > 0);
                        }
                    },
                }
            }
        },
        SusEntry::Tee(c) => {
            reveal_strlit("tee");
            reveal_strlit("tee --help");
            reveal_strlit("tee --version");
            reveal_strlit("tee -a");
            reveal_strlit(" ");
            if vs.len() > 0 {
                lemma_tee_early(vs, 0, false, Seq::empty());
            }
        },
        SusEntry::Uniq(c) => {
            reveal_strlit("uniq");
            reveal_strlit("open ");
            reveal_strlit("lines | group-by | transpose key count | select key count");
            reveal_strlit("lines | group-by | where ($it | length) > 1 | transpose | get column0");
            reveal_strlit("lines | group-by | where ($it | length) == 1 | transpose | get column0");
            reveal_strlit("lines | uniq");
            reveal_strlit("lines | ");
            reveal_strlit("lines");
            if vs.len() > 0 {
                let st = crate::plugin::sus::uniq::spec_uniq_scan(
                    vs,
                    0,
                    crate::plugin::sus::uniq::spec_uniq_init(),
                );
                let piped = crate::plugin::sus::uniq::spec_uniq_piped(st);
                assert(piped.len() >= 12);
            }
        },
        SusEntry::Wc(c) => {
            reveal_strlit("wc");
            reveal_strlit("wc ");
            reveal_strlit("lines | length");
            reveal_strlit("split words | length");
            reveal_strlit("str length");
            reveal_strlit("open --raw ");
            reveal_strlit("wc # multiple counts: ");
            reveal_strlit("lines | {lines: length, words: ($it | str join ' ' | split words | length)}");
            if vs.len() > 0 {
                let st = crate::plugin::sus::wc::spec_wc_scan(
                    vs,
                    0,
                    crate::plugin::sus::wc::spec_wc_init(),
                );
                let l = st.lines || !st.any_flag;
                let w = st.words || !st.any_flag;
                let cc = st.chars || !st.any_flag;
                let ops = crate::plugin::sus::wc::spec_wc_ops(l, w, cc, st.bytes);
                if ops.len() == 1 {
                    assert(ops[0].len() > 0);
                }
            }
        },
    }
}

proof fn lemma_head_one_nonempty(f: Seq<char>, count: int)
    ensures
        crate::plugin::sus::head::spec_head_one(f, count).len() > 0,
{
    reveal_strlit("first ");
    reveal_strlit("open ");
    lemma_dec_nonempty(if count < 0 {
        -count
    } else {
        count
    });
    assert(crate::text::spec_dec_int(count).len() > 0);
}

proof fn lemma_tail_one_nonempty(f: Seq<char>, count: int)
    ensures
        crate::plugin::sus::tail::spec_tail_one(f, count).len() > 0,
{
    reveal_strlit("last ");
    reveal_strlit("open ");
    lemma_dec_nonempty(if count < 0 {
        -count
    } else {
        count
    });
    assert(crate::text::spec_dec_int(count).len() > 0);
}

} // verus!

verus! {

proof fn lemma_basename_early(
    vs: Seq<Seq<char>>,
    i: int,
    suffix: Seq<char>,
    multiple: bool,
    zero: bool,
    paths: Seq<Seq<char>>,
)
    ensures
        match crate::plugin::sus::basename::spec_basename_scan(vs, i, suffix, multiple, zero, paths).4 {
            Some(t) => t.len() > 0,
            None => true,
        },
    decreases vs.len() - i,
{
    reveal_strlit("basename --help");
    reveal_strlit("basename --version");
    if i < 0 || i >= vs.len() {
    } else if vs[i] == "-s"@ || vs[i] == "--suffix"@ {
        if i + 1 < vs.len() {
            lemma_basename_early(vs, i + 2, vs[i + 1], multiple, zero, paths);
        } else {
            lemma_basename_early(vs, i + 1, suffix, multiple, zero, paths);
        }
    } else if vs[i] == "-a"@ || vs[i] == "--multiple"@ {
        lemma_basename_early(vs, i + 1, suffix, true, zero, paths);
    } else if vs[i] == "-z"@ || vs[i] == "--zero"@ {
        lemma_basename_early(vs, i + 1, suffix, multiple, true, paths);
    } else if vs[i] == "--help"@ || vs[i] == "--version"@ {
    } else if !crate::text::spec_starts_with(vs[i], "-"@) {
        lemma_basename_early(vs, i + 1, suffix, multiple, zero, paths.push(vs[i]));
    } else {
        lemma_basename_early(vs, i + 1, suffix, multiple, zero, paths);
    }
}

proof fn lemma_dirname_early(vs: Seq<Seq<char>>, i: int, zero: bool, paths: Seq<Seq<char>>)
    ensures
        match crate::plugin::sus::dirname::spec_dirname_scan(vs, i, zero, paths).2 {
            Some(t) => t.len() > 0,
            None => true,
        },
    decreases vs.len() - i,
{
    reveal_strlit("dirname --help");
    reveal_strlit("dirname --version");
    if i < 0 || i >= vs.len() {
    } else if vs[i] == "-z"@ || vs[i] == "--zero"@ {
        lemma_dirname_early(vs, i + 1, true, paths);
    } else if vs[i] == "--help"@ || vs[i] == "--version"@ {
    } else if !crate::text::spec_starts_with(vs[i], "-"@) {
        lemma_dirname_early(vs, i + 1, zero, paths.push(vs[i]));
    } else {
        lemma_dirname_early(vs, i + 1, zero, paths);
    }
}

proof fn lemma_realpath_early(
    vs: Seq<Seq<char>>,
    i: int,
    zero: bool,
    rel: Seq<char>,
    paths: Seq<Seq<char>>,
)
    ensures
        match crate::plugin::sus::realpath::spec_realpath_scan(vs, i, zero, rel, paths).3 {
            Some(t) => t.len() > 0,
            None => true,
        },
    decreases vs.len() - i,
{
    reveal_strlit("realpath --help");
    reveal_strlit("realpath --version");
    if i < 0 || i >= vs.len() {
    } else if vs[i] == "-z"@ || vs[i] == "--zero"@ {
        lemma_realpath_early(vs, i + 1, true, rel, paths);
    } else if vs[i] == "-L"@ || vs[i] == "--logical"@ || vs[i] == "-P"@ || vs[i] == "--physical"@
        || vs[i] == "-e"@ || vs[i] == "--canonicalize-existing"@ || vs[i] == "-m"@ || vs[i]
        == "--canonicalize-missing"@ {
        lemma_realpath_early(vs, i + 1, zero, rel, paths);
    } else if vs[i] == "--relative-to"@ {
        if i + 1 < vs.len() {
            lemma_realpath_early(vs, i + 2, zero, vs[i + 1], paths);
        } else {
            lemma_realpath_early(vs, i + 1, zero, rel, paths);
        }
    } else if vs[i] == "--relative-base"@ {
        if i + 1 < vs.len() {
            lemma_realpath_early(vs, i + 2, zero, rel, paths);
        } else {
            lemma_realpath_early(vs, i + 1, zero, rel, paths);
        }
    } else if vs[i] == "--help"@ || vs[i] == "--version"@ {
    } else if !crate::text::spec_starts_with(vs[i], "-"@) {
        lemma_realpath_early(vs, i + 1, zero, rel, paths.push(vs[i]));
    } else {
        lemma_realpath_early(vs, i + 1, zero, rel, paths);
    }
}

proof fn lemma_stat_early(
    vs: Seq<Seq<char>>,
    i: int,
    fmt: Seq<char>,
    terse: bool,
    zero: bool,
    files: Seq<Seq<char>>,
)
    ensures
        match crate::plugin::sus::stat::spec_stat_scan(vs, i, fmt, terse, zero, files).4 {
            Some(t) => t.len() > 0,
            None => true,
        },
    decreases vs.len() - i,
{
    reveal_strlit("stat --help");
    reveal_strlit("stat --version");
    if i < 0 || i >= vs.len() {
    } else if vs[i] == "-c"@ || vs[i] == "--format"@ {
        if i + 1 < vs.len() {
            lemma_stat_early(vs, i + 2, vs[i + 1], terse, zero, files);
        } else {
            lemma_stat_early(vs, i + 1, fmt, terse, zero, files);
        }
    } else if vs[i] == "--printf"@ {
        if i + 1 < vs.len() {
            lemma_stat_early(vs, i + 2, fmt, terse, zero, files);
        } else {
            lemma_stat_early(vs, i + 1, fmt, terse, zero, files);
        }
    } else if vs[i] == "-L"@ || vs[i] == "--dereference"@ || vs[i] == "-f"@ || vs[i]
        == "--file-system"@ {
        lemma_stat_early(vs, i + 1, fmt, terse, zero, files);
    } else if vs[i] == "-t"@ || vs[i] == "--terse"@ {
        lemma_stat_early(vs, i + 1, fmt, true, zero, files);
    } else if vs[i] == "-z"@ || vs[i] == "--zero"@ {
        lemma_stat_early(vs, i + 1, fmt, terse, true, files);
    } else if vs[i] == "--help"@ || vs[i] == "--version"@ {
    } else if !crate::text::spec_starts_with(vs[i], "-"@) {
        lemma_stat_early(vs, i + 1, fmt, terse, zero, files.push(vs[i]));
    } else {
        lemma_stat_early(vs, i + 1, fmt, terse, zero, files);
    }
}

proof fn lemma_tee_early(vs: Seq<Seq<char>>, i: int, append: bool, files: Seq<Seq<char>>)
    ensures
        match crate::plugin::sus::tee::spec_tee_scan(vs, i, append, files).2 {
            Some(t) => t.len() > 0,
            None => true,
        },
    decreases vs.len() - i,
{
    reveal_strlit("tee --help");
    reveal_strlit("tee --version");
    if i < 0 || i >= vs.len() {
    } else if vs[i] == "-a"@ || vs[i] == "--append"@ {
        lemma_tee_early(vs, i + 1, true, files);
    } else if vs[i] == "-i"@ || vs[i] == "--ignore-interrupts"@ {
        lemma_tee_early(vs, i + 1, append, files);
    } else if vs[i] == "--help"@ || vs[i] == "--version"@ {
    } else if !crate::text::spec_starts_with(vs[i], "-"@) {
        lemma_tee_early(vs, i + 1, append, files.push(vs[i]));
    } else {
        lemma_tee_early(vs, i + 1, append, files);
    }
}

proof fn lemma_head_early(vs: Seq<Seq<char>>, i: int, count: int, verbose: bool, files: Seq<Seq<char>>)
    ensures
        match crate::plugin::sus::head::spec_head_scan(vs, i, count, verbose, files).3 {
            Some(t) => t.len() > 0,
            None => true,
        },
    decreases vs.len() - i,
{
    reveal_strlit("first ");
    reveal_strlit(" bytes");
    if i < 0 || i >= vs.len() {
    } else if vs[i] == "-n"@ || vs[i] == "--lines"@ {
        if i + 1 < vs.len() {
            lemma_head_early(
                vs,
                i + 2,
                crate::plugin::sus::head::spec_count_or_ten(vs[i + 1]),
                verbose,
                files,
            );
        } else {
            lemma_head_early(vs, i + 1, count, verbose, files);
        }
    } else if vs[i] == "-q"@ || vs[i] == "--quiet"@ || vs[i] == "--silent"@ {
        lemma_head_early(vs, i + 1, count, verbose, files);
    } else if vs[i] == "-v"@ || vs[i] == "--verbose"@ {
        lemma_head_early(vs, i + 1, count, true, files);
    } else if vs[i] == "-c"@ || vs[i] == "--bytes"@ {
        if i + 1 < vs.len() {
        } else {
            lemma_head_early(vs, i + 1, count, verbose, files);
        }
    } else if crate::text::spec_starts_with(vs[i], "-"@) && vs[i].len() > 1
        && crate::text::spec_is_digits(vs[i].skip(1)) {
        lemma_head_early(
            vs,
            i + 1,
            crate::plugin::sus::head::spec_count_or_ten(vs[i].skip(1)),
            verbose,
            files,
        );
    } else if crate::text::spec_starts_with(vs[i], "-"@) {
        lemma_head_early(vs, i + 1, count, verbose, files);
    } else {
        lemma_head_early(vs, i + 1, count, verbose, files.push(vs[i]));
    }
}

proof fn lemma_tail_early(vs: Seq<Seq<char>>, i: int, count: int, follow: bool, files: Seq<Seq<char>>)
    ensures
        match crate::plugin::sus::tail::spec_tail_scan(vs, i, count, follow, files).3 {
            Some(t) => t.len() > 0,
            None => true,
        },
    decreases vs.len() - i,
{
    reveal_strlit("last ");
    reveal_strlit(" bytes");
    reveal_strlit("skip ");
    if i < 0 || i >= vs.len() {
    } else if vs[i] == "-n"@ || vs[i] == "--lines"@ {
        if i + 1 < vs.len() {
            lemma_tail_early(
                vs,
                i + 2,
                crate::plugin::sus::head::spec_count_or_ten(vs[i + 1]),
                follow,
                files,
            );
        } else {
            lemma_tail_early(vs, i + 1, count, follow, files);
        }
    } else if vs[i] == "-q"@ || vs[i] == "--quiet"@ || vs[i] == "--silent"@ || vs[i] == "-v"@
        || vs[i] == "--verbose"@ {
        lemma_tail_early(vs, i + 1, count, follow, files);
    } else if vs[i] == "-f"@ || vs[i] == "--follow"@ {
        lemma_tail_early(vs, i + 1, count, true, files);
    } else if vs[i] == "-c"@ || vs[i] == "--bytes"@ {
        if i + 1 < vs.len() {
        } else {
            lemma_tail_early(vs, i + 1, count, follow, files);
        }
    } else if crate::text::spec_starts_with(vs[i], "-"@) && vs[i].len() > 1
        && crate::text::spec_is_digits(vs[i].skip(1)) {
        lemma_tail_early(
            vs,
            i + 1,
            crate::plugin::sus::head::spec_count_or_ten(vs[i].skip(1)),
            follow,
            files,
        );
    } else if crate::text::spec_starts_with(vs[i], "+"@) {
    } else if crate::text::spec_starts_with(vs[i], "-"@) {
        lemma_tail_early(vs, i + 1, count, follow, files);
    } else {
        lemma_tail_early(vs, i + 1, count, follow, files.push(vs[i]));
    }
}

proof fn lemma_ps_early(vs: Seq<Seq<char>>, i: int, st: crate::plugin::sus::ps::PsScan)
    ensures
        match crate::plugin::sus::ps::spec_ps_scan(vs, i, st).1 {
            Some(t) => t.len() > 0,
            None => true,
        },
    decreases vs.len() - i,
{
    reveal_strlit("ps --help");
    reveal_strlit("ps --version");
    if i < 0 || i >= vs.len() {
    } else {
        if vs[i] == "-a"@ || vs[i] == "--all"@ || vs[i] == "-x"@ || vs[i] == "-e"@ || vs[i]
            == "--everyone"@ {
            lemma_ps_early(vs, i + 1, st);
        } else if vs[i] == "-u"@ || vs[i] == "--user"@ {
            if i + 1 < vs.len() && !crate::text::spec_starts_with(vs[i + 1], "-"@) {
                lemma_ps_early(
                    vs,
                    i + 2,
                    crate::plugin::sus::ps::PsScan { user_fmt: true, user: vs[i + 1], ..st },
                );
            } else {
                lemma_ps_early(vs, i + 1, crate::plugin::sus::ps::PsScan { user_fmt: true, ..st });
            }
        } else if vs[i] == "-f"@ || vs[i] == "--full"@ {
            lemma_ps_early(vs, i + 1, crate::plugin::sus::ps::PsScan { full: true, ..st });
        } else if vs[i] == "-H"@ || vs[i] == "--show-threads"@ {
            lemma_ps_early(vs, i + 1, crate::plugin::sus::ps::PsScan { threads: true, ..st });
        } else if vs[i] == "-T"@ || vs[i] == "--show-tree"@ || vs[i] == "--forest"@ {
            lemma_ps_early(vs, i + 1, crate::plugin::sus::ps::PsScan { tree: true, ..st });
        } else if vs[i] == "-p"@ || vs[i] == "--pid"@ {
            if i + 1 < vs.len() {
                lemma_ps_early(vs, i + 2, crate::plugin::sus::ps::PsScan { pid: vs[i + 1], ..st });
            } else {
                lemma_ps_early(vs, i + 1, st);
            }
        } else if vs[i] == "-o"@ || vs[i] == "--format"@ {
            if i + 1 < vs.len() {
                lemma_ps_early(
                    vs,
                    i + 2,
                    crate::plugin::sus::ps::PsScan { fields: st.fields.push(vs[i + 1]), ..st },
                );
            } else {
                lemma_ps_early(vs, i + 1, st);
            }
        } else if vs[i] == "--help"@ || vs[i] == "--version"@ {
        } else if crate::text::spec_starts_with(vs[i], "-"@) && vs[i].len() > 1 {
            lemma_ps_early(
                vs,
                i + 1,
                crate::plugin::sus::ps::spec_ps_flag_chars(vs[i].skip(1), 0, st),
            );
        } else if crate::text::spec_starts_with(vs[i], "-"@) {
            lemma_ps_early(vs, i + 1, st);
        } else if crate::text::spec_is_digits(vs[i]) {
            lemma_ps_early(vs, i + 1, crate::plugin::sus::ps::PsScan { pid: vs[i], ..st });
        } else {
            lemma_ps_early(vs, i + 1, crate::plugin::sus::ps::PsScan { user: vs[i], ..st });
        }
    }
}

proof fn lemma_date_early(vs: Seq<Seq<char>>, i: int, st: crate::plugin::sus::date::DateScan)
    ensures
        match crate::plugin::sus::date::spec_date_scan(vs, i, st).1 {
            Some(t) => t.len() > 0,
            None => true,
        },
    decreases vs.len() - i,
{
    reveal_strlit("date --help");
    reveal_strlit("date --version");
    if i < 0 || i >= vs.len() {
    } else if vs[i] == "-d"@ || vs[i] == "--date"@ || vs[i] == "-s"@ || vs[i] == "--set"@ {
        if i + 1 < vs.len() {
            lemma_date_early(
                vs,
                i + 2,
                crate::plugin::sus::date::DateScan { set_date: vs[i + 1], ..st },
            );
        } else {
            lemma_date_early(vs, i + 1, st);
        }
    } else if vs[i] == "-f"@ || vs[i] == "--file"@ || vs[i] == "-r"@ || vs[i] == "--reference"@ {
        if i + 1 < vs.len() {
            if vs[i] == "-r"@ || vs[i] == "--reference"@ {
                lemma_date_early(
                    vs,
                    i + 2,
                    crate::plugin::sus::date::DateScan { reference: vs[i + 1], ..st },
                );
            } else {
                lemma_date_early(vs, i + 2, st);
            }
        } else {
            lemma_date_early(vs, i + 1, st);
        }
    } else if vs[i] == "-R"@ || vs[i] == "--rfc-2822"@ {
        lemma_date_early(
            vs,
            i + 1,
            crate::plugin::sus::date::DateScan { fmt: "%a, %d %b %Y %H:%M:%S %z"@, ..st },
        );
    } else if vs[i] == "-I"@ || vs[i] == "--iso-8601"@ {
        lemma_date_early(vs, i + 1, crate::plugin::sus::date::DateScan { iso: true, ..st });
    } else if vs[i] == "--rfc-3339"@ {
        if i + 1 < vs.len() {
            if vs[i + 1] == "date"@ {
                lemma_date_early(
                    vs,
                    i + 2,
                    crate::plugin::sus::date::DateScan { fmt: "%Y-%m-%d"@, ..st },
                );
            } else if vs[i + 1] == "seconds"@ {
                lemma_date_early(
                    vs,
                    i + 2,
                    crate::plugin::sus::date::DateScan { fmt: "%Y-%m-%d %H:%M:%S%z"@, ..st },
                );
            } else if vs[i + 1] == "ns"@ {
                lemma_date_early(
                    vs,
                    i + 2,
                    crate::plugin::sus::date::DateScan { fmt: "%Y-%m-%d %H:%M:%S.%f%z"@, ..st },
                );
            } else {
                lemma_date_early(vs, i + 2, crate::plugin::sus::date::DateScan { rfc: true, ..st });
            }
        } else {
            lemma_date_early(vs, i + 1, crate::plugin::sus::date::DateScan { rfc: true, ..st });
        }
    } else if vs[i] == "-u"@ || vs[i] == "--utc"@ || vs[i] == "--universal"@ {
        lemma_date_early(vs, i + 1, crate::plugin::sus::date::DateScan { utc: true, ..st });
    } else if vs[i] == "--help"@ || vs[i] == "--version"@ {
    } else if crate::text::spec_starts_with(vs[i], "+"@) {
        lemma_date_early(
            vs,
            i + 1,
            crate::plugin::sus::date::DateScan { fmt: vs[i].skip(1), ..st },
        );
    } else if st.set_date.len() == 0 {
        lemma_date_early(
            vs,
            i + 1,
            crate::plugin::sus::date::DateScan { set_date: vs[i], ..st },
        );
    } else {
        lemma_date_early(vs, i + 1, st);
    }
}

} // verus!

use crate::text::{is_space, spec_dec_int, spec_trim, spec_trim_end, spec_trim_start};

verus! {

/// Text that neither starts nor ends with whitespace and is not empty.
pub open spec fn spec_edge_clean(s: Seq<char>) -> bool {
    s.len() > 0 && !is_space(s[0]) && !is_space(s[s.len() - 1])
}

/// Every argument is non-empty and free of leading and trailing whitespace.
pub open spec fn spec_edge_clean_args(vs: Seq<Seq<char>>) -> bool {
    forall|k: int| 0 <= k < vs.len() ==> spec_edge_clean(#[trigger] vs[k])
}

/// Edge-clean text equals its own trim.
pub proof fn lemma_edge_clean_trimmed(s: Seq<char>)
    requires
        spec_edge_clean(s),
    ensures
        spec_trim(s) == s,
{
    assert(spec_trim_start(s) == s);
    assert(spec_trim_end(s) == s);
}

/// A quoted form is edge-clean: it starts and ends with a double quote.
proof fn lemma_quoted_edges(s: Seq<char>)
    ensures
        spec_edge_clean(spec_quoted(s)),
{
    let q = spec_quoted(s);
    assert(q[0] == '"');
    assert(q[q.len() - 1] == '"');
}

/// A word quoted under the tables' rule is edge-clean.
pub proof fn lemma_quote_word_edges(s: Seq<char>)
    ensures
        spec_edge_clean(spec_quote_word(s)),
{
    if spec_is_quoted(s) {
    } else if spec_needs_quotes_word(s) {
        lemma_quoted_edges(s);
    } else {
        assert(!is_space(s[0]));
        assert(!is_space(s[s.len() - 1]));
    }
}

/// An unconditionally quoted value is edge-clean.
pub proof fn lemma_quote_literal_edges(s: Seq<char>)
    ensures
        spec_edge_clean(spec_quote_literal(s)),
{
    if spec_is_quoted(s) {
    } else {
        lemma_quoted_edges(s);
    }
}

/// A digit character is never whitespace.
proof fn lemma_digit_char_not_space(d: int)
    ensures
        !is_space(crate::text::spec_digit_char(d)),
{
}

/// Decimal digits are edge-clean.
proof fn lemma_dec_edges(n: int)
    ensures
        spec_edge_clean(spec_dec(n)),
        !is_space(spec_dec(n)[0]),
        !is_space(spec_dec(n)[spec_dec(n).len() - 1]),
    decreases n,
{
    if n < 10 {
        lemma_digit_char_not_space(n);
    } else {
        lemma_dec_edges(n / 10);
        lemma_digit_char_not_space(n % 10);
        assert(spec_dec(n)[0] == spec_dec(n / 10)[0]);
    }
}

/// A signed decimal rendering is edge-clean.
pub proof fn lemma_dec_int_edges(v: int)
    ensures
        spec_edge_clean(spec_dec_int(v)),
{
    if v < 0 {
        lemma_dec_edges(-v);
        assert(spec_dec_int(v)[0] == '-');
        assert(spec_dec_int(v)[spec_dec_int(v).len() - 1] == spec_dec(-v)[spec_dec(-v).len()
            - 1]);
    } else {
        lemma_dec_edges(v);
    }
}

} // verus!

use crate::text::spec_join;

verus! {

/// A join of edge-clean pieces is edge-clean.
proof fn lemma_join_edge_clean(ps: Seq<Seq<char>>, sep: Seq<char>)
    requires
        ps.len() > 0,
        forall|k: int| 0 <= k < ps.len() ==> spec_edge_clean(#[trigger] ps[k]),
    ensures
        spec_edge_clean(spec_join(ps, sep)),
    decreases ps.len(),
{
    if ps.len() == 1 {
    } else {
        assert forall|k: int| 0 <= k < ps.skip(1).len() implies spec_edge_clean(
            #[trigger] ps.skip(1)[k],
        ) by {
            assert(ps.skip(1)[k] == ps[k + 1]);
        }
        lemma_join_edge_clean(ps.skip(1), sep);
        let j = spec_join(ps, sep);
        assert(j[0] == ps[0][0]);
        assert(j[j.len() - 1] == spec_join(ps.skip(1), sep)[spec_join(ps.skip(1), sep).len()
            - 1]);
    }
}

/// Formatted argument lists are edge-clean.
proof fn lemma_format_args_edge_clean(vs: Seq<Seq<char>>)
    requires
        vs.len() > 0,
    ensures
        spec_edge_clean(crate::quoting::spec_format_args(vs)),
{
    let qs = crate::quoting::spec_quoted_words(vs);
    assert forall|k: int| 0 <= k < qs.len() implies spec_edge_clean(#[trigger] qs[k]) by {
        lemma_quote_word_edges(vs[k]);
    }
    lemma_join_edge_clean(qs, seq![' ']);
}

proof fn lemma_cd_from_edges(vs: Seq<Seq<char>>, i: int, path: Seq<char>)
    ensures
        spec_edge_clean(spec_cd_from(vs, i, path)),
    decreases vs.len() - i,
{
    reveal_strlit("cd");
    reveal_strlit("cd -");
    reveal_strlit("cd ");
    if i < 0 || i >= vs.len() {
        if path.len() == 0 || path == "~"@ {
        } else {
            lemma_quote_word_edges(path);
            let r = spec_cd_render(path);
            assert(r[0] == 'c');
            assert(r[r.len() - 1] == spec_quote_word(path)[spec_quote_word(path).len() - 1]);
        }
    } else if vs[i] == "-L"@ || vs[i] == "-P"@ {
        lemma_cd_from_edges(vs, i + 1, path);
    } else if vs[i] == "-"@ {
    } else if crate::text::spec_starts_with(vs[i], "-"@) {
        lemma_cd_from_edges(vs, i + 1, path);
    } else {
        lemma_cd_from_edges(vs, i + 1, vs[i]);
    }
}

#[verifier::rlimit(100)]
proof fn lemma_jobs_render_edges(st: crate::plugin::builtin::jobs::JobsScan)
    ensures
        spec_edge_clean(spec_jobs_render(st)),
{
    reveal_strlit("jobs");
    reveal_strlit(" | get pid");
    reveal_strlit(" | select job_id pid command status");
    reveal_strlit(" | where status == \"running\"");
    reveal_strlit(" | where status == \"stopped\"");
    reveal_strlit(" | where (");
    reveal_strlit(")");
    let r = spec_jobs_render(st);
    assert(r[0] == 'j');
    if st.specs.len() > 0 {
        assert(r[r.len() - 1] == ')');
    } else if st.running && !st.stopped {
        assert(r[r.len() - 1] == '"');
    } else if st.stopped && !st.running {
        assert(r[r.len() - 1] == '"');
    } else if st.pids {
        assert(r[r.len() - 1] == 'd');
    } else if st.long {
        assert(r[r.len() - 1] == 's');
    } else {
        assert(r[r.len() - 1] == 's');
    }
}

proof fn lemma_kill_jobs_from_edges(specs: Seq<Seq<char>>, signal: Seq<char>, i: int)
    requires
        0 <= i < specs.len(),
    ensures
        spec_kill_jobs_from(specs, signal, i).len() > 0,
        spec_kill_jobs_from(specs, signal, i)[spec_kill_jobs_from(specs, signal, i).len() - 1]
            == '}',
        i == 0 ==> spec_kill_jobs_from(specs, signal, i)[0] == 'j',
    decreases specs.len() - i,
{
    reveal_strlit(" $pid }");
    reveal_strlit("; ");
    reveal_strlit("jobs | where job_id == \"current\" | get pid | each { |pid| kill");
    reveal_strlit("jobs | where job_id == \"previous\" | get pid | each { |pid| kill");
    reveal_strlit("jobs | where job_id == \"");
    let one = crate::plugin::builtin::kill::spec_kill_job_one(specs[i], signal);
    let sep: Seq<char> = if i > 0 {
        "; "@
    } else {
        Seq::empty()
    };
    let rec = spec_kill_jobs_from(specs, signal, i + 1);
    let whole = spec_kill_jobs_from(specs, signal, i);
    assert(whole == sep + one + rec);
    assert(one.len() > 0);
    assert(one[one.len() - 1] == '}');
    assert(one[0] == 'j');
    if i + 1 < specs.len() {
        lemma_kill_jobs_from_edges(specs, signal, i + 1);
        assert(whole[whole.len() - 1] == rec[rec.len() - 1]);
    } else {
        assert(rec =~= Seq::<char>::empty());
        assert(whole[whole.len() - 1] == one[one.len() - 1]);
    }
    if i == 0 {
        assert(whole[0] == one[0]);
    }
}

/// A scan of clean arguments collects only clean process identifiers.
proof fn lemma_kill_scan_clean(vs: Seq<Seq<char>>, i: int, st: crate::plugin::builtin::kill::KillScan)
    requires
        spec_edge_clean_args(vs),
        spec_edge_clean_args(st.pids),
    ensures
        spec_edge_clean_args(crate::plugin::builtin::kill::spec_kill_scan(vs, i, st).pids),
    decreases vs.len() - i,
{
    if i < 0 || i >= vs.len() {
        assert(crate::plugin::builtin::kill::spec_kill_scan(vs, i, st) == st);
    } else if vs[i] == "-l"@ || vs[i] == "--list"@ {
        lemma_kill_scan_clean(
            vs,
            i + 1,
            crate::plugin::builtin::kill::KillScan { list: true, ..st },
        );
    } else if vs[i] == "-s"@ {
        if i + 1 < vs.len() {
            lemma_kill_scan_clean(
                vs,
                i + 2,
                crate::plugin::builtin::kill::KillScan { signal: vs[i + 1], ..st },
            );
        } else {
            lemma_kill_scan_clean(vs, i + 1, st);
        }
    } else if crate::text::spec_starts_with(vs[i], "-"@) && vs[i].len() > 1 {
        lemma_kill_scan_clean(
            vs,
            i + 1,
            crate::plugin::builtin::kill::KillScan { signal: vs[i].skip(1), ..st },
        );
    } else if crate::text::spec_starts_with(vs[i], "%"@) {
        lemma_kill_scan_clean(
            vs,
            i + 1,
            crate::plugin::builtin::kill::KillScan { specs: st.specs.push(vs[i]), ..st },
        );
    } else {
        let st2 = crate::plugin::builtin::kill::KillScan { pids: st.pids.push(vs[i]), ..st };
        assert forall|k: int| 0 <= k < st2.pids.len() implies spec_edge_clean(
            #[trigger] st2.pids[k],
        ) by {
            if k < st.pids.len() {
            } else {
                assert(st2.pids[k] == vs[i]);
            }
        }
        assert(spec_edge_clean_args(st2.pids));
        lemma_kill_scan_clean(vs, i + 1, st2);
    }
}

#[verifier::rlimit(100)]
proof fn lemma_kill_render_edges(st: crate::plugin::builtin::kill::KillScan)
    requires
        spec_edge_clean_args(st.pids),
    ensures
        spec_edge_clean(spec_kill_render(st)),
{
    reveal_strlit("# Signal list: HUP INT QUIT ILL TRAP ABRT BUS FPE KILL USR1 SEGV USR2 PIPE ALRM TERM");
    reveal_strlit("kill # Usage: kill [-signal] pid...");
    reveal_strlit("kill");
    reveal_strlit(" --signal ");
    reveal_strlit(" ");
    reveal_strlit("[");
    reveal_strlit("] | each { |pid| kill");
    reveal_strlit(" $pid }");
    reveal_strlit("; ");
    let r = spec_kill_render(st);
    if st.list {
    } else if st.specs.len() == 0 && st.pids.len() == 0 {
    } else {
        if st.specs.len() > 0 {
            lemma_kill_jobs_from_edges(st.specs, st.signal, 0);
            assert(r[0] == 'j');
        } else {
            let p = spec_kill_pids_part(st.pids, st.signal);
            if st.pids.len() == 1 {
                assert(p[0] == 'k');
            } else {
                assert(p[0] == '[');
            }
            assert(r[0] == p[0]);
        }
        if st.pids.len() > 0 {
            let p = spec_kill_pids_part(st.pids, st.signal);
            if st.pids.len() == 1 {
                assert(p[p.len() - 1] == st.pids[0][st.pids[0].len() - 1]);
            } else {
                assert(p[p.len() - 1] == '}');
            }
            assert(r[r.len() - 1] == p[p.len() - 1]);
        } else {
            lemma_kill_jobs_from_edges(st.specs, st.signal, 0);
            assert(r[r.len() - 1] == '}');
        }
    }
}

proof fn lemma_read_vars_from_edges(vars: Seq<Seq<char>>, i: int)
    requires
        0 <= i < vars.len(),
    ensures
        spec_read_vars_from(vars, i).len() > 0,
        spec_read_vars_from(vars, i)[spec_read_vars_from(vars, i).len() - 1] == ')',
    decreases vars.len() - i,
{
    reveal_strlit(" | default \"\")");
    reveal_strlit("; ");
    reveal_strlit("$env.");
    reveal_strlit(" = ($in | get ");
    let sep: Seq<char> = if i > 0 {
        "; "@
    } else {
        Seq::empty()
    };
    let rec = spec_read_vars_from(vars, i + 1);
    let whole = spec_read_vars_from(vars, i);
    assert(whole == sep + "$env."@ + vars[i] + " = ($in | get "@ + spec_dec(i)
        + " | default \"\")"@ + rec);
    if i + 1 < vars.len() {
        lemma_read_vars_from_edges(vars, i + 1);
        assert(whole[whole.len() - 1] == rec[rec.len() - 1]);
    } else {
        assert(rec =~= Seq::<char>::empty());
        assert(whole[whole.len() - 1] == " | default \"\")"@[" | default \"\")"@.len() - 1]);
    }
}

#[verifier::rlimit(100)]
proof fn lemma_read_render_edges(st: crate::plugin::builtin::read::ReadScan)
    ensures
        spec_edge_clean(spec_read_render(st)),
{
    reveal_strlit("print ");
    reveal_strlit("; ");
    reveal_strlit("input");
    reveal_strlit("input -s");
    reveal_strlit(" # timeout: ");
    reveal_strlit("s");
    reveal_strlit(" # delimiter: ");
    reveal_strlit(" | $env.");
    reveal_strlit(" = $in");
    reveal_strlit(" | split words | ");
    let r = spec_read_render(st);
    if st.prompt.len() > 0 {
        assert(r[0] == 'p');
    } else {
        assert(r[0] == 'i');
    }
    if st.vars.len() == 1 {
        assert(r[r.len() - 1] == 'n');
    } else if st.vars.len() > 1 {
        lemma_read_vars_from_edges(st.vars, 0);
        assert(r[r.len() - 1] == ')');
    } else if st.delimiter != "\n"@ {
        lemma_quote_literal_edges(st.delimiter);
        let q = spec_quote_literal(st.delimiter);
        assert(r[r.len() - 1] == q[q.len() - 1]);
    } else {
        match st.timeout {
            Some(t) => {
                assert(r[r.len() - 1] == 's');
            },
            None => {
                if st.silent {
                    assert(r[r.len() - 1] == 's');
                } else {
                    assert(r[r.len() - 1] == 't');
                }
            },
        }
    }
}

} // verus!

verus! {

proof fn lemma_test_unary_edges(a: Seq<char>)
    ensures
        spec_edge_clean(spec_test_unary(a)),
{
    reveal_strlit("true");
    reveal_strlit("(");
    reveal_strlit(" | is-not-empty)");
    if a == "]"@ {
    } else {
        let r = spec_test_unary(a);
        assert(r[0] == '(');
        assert(r[r.len() - 1] == ')');
    }
}

#[verifier::rlimit(100)]
proof fn lemma_test_binary_edges(op: Seq<char>, a: Seq<char>)
    ensures
        spec_edge_clean(spec_test_binary(op, a)),
{
    reveal_strlit("(");
    reveal_strlit(" | path exists)");
    reveal_strlit(" | path type) == \"dir\"");
    reveal_strlit(" | path exists and (");
    reveal_strlit(" | path type) == \"file\")");
    reveal_strlit(" | path exists and (open ");
    reveal_strlit(" | length) > 0)");
    reveal_strlit(" | path type) == \"symlink\"");
    reveal_strlit(" | path type) == \"block\"");
    reveal_strlit(" | path type) == \"char\"");
    reveal_strlit(" | path type) == \"fifo\"");
    reveal_strlit(" | path type) == \"socket\"");
    reveal_strlit(" | into int) in [0, 1, 2]");
    reveal_strlit(" | is-empty)");
    reveal_strlit(" | is-not-empty)");
    reveal_strlit("not (");
    reveal_strlit(")");
    reveal_strlit("test ");
    reveal_strlit(" ");
    reveal_strlit("-f");
    assert("-f"@ =~= seq!['-', 'f']);
    reveal_strlit("-e");
    assert("-e"@ =~= seq!['-', 'e']);
    reveal_strlit("-w");
    assert("-w"@ =~= seq!['-', 'w']);
    reveal_strlit("-x");
    assert("-x"@ =~= seq!['-', 'x']);
    reveal_strlit("-d");
    assert("-d"@ =~= seq!['-', 'd']);
    reveal_strlit("-r");
    assert("-r"@ =~= seq!['-', 'r']);
    reveal_strlit("-s");
    assert("-s"@ =~= seq!['-', 's']);
    reveal_strlit("-L");
    assert("-L"@ =~= seq!['-', 'L']);
    reveal_strlit("-b");
    assert("-b"@ =~= seq!['-', 'b']);
    reveal_strlit("-c");
    assert("-c"@ =~= seq!['-', 'c']);
    reveal_strlit("-p");
    assert("-p"@ =~= seq!['-', 'p']);
    reveal_strlit("-S");
    assert("-S"@ =~= seq!['-', 'S']);
    reveal_strlit("-t");
    assert("-t"@ =~= seq!['-', 't']);
    reveal_strlit("-z");
    assert("-z"@ =~= seq!['-', 'z']);
    reveal_strlit("-n");
    assert("-n"@ =~= seq!['-', 'n']);
    reveal_strlit("!");
    assert("!"@ =~= seq!['!']);
    let r = spec_test_binary(op, a);
    if op == "-f"@ || op == "-e"@ || op == "-w"@ || op == "-x"@ || op == "-d"@ || op == "-r"@
        || op == "-s"@ || op == "-L"@ || op == "-b"@ || op == "-c"@ || op == "-p"@ || op == "-S"@
        || op == "-t"@ || op == "-z"@ || op == "-n"@ {
        assert(r[0] == '(');
    } else if op == "!"@ {
        lemma_test_unary_edges(a);
        assert(r[0] == 'n');
        assert(r[r.len() - 1] == ')');
    } else {
        lemma_quote_word_edges(a);
        let q = spec_quote_word(a);
        assert(r[0] == 't');
        assert(r[r.len() - 1] == q[q.len() - 1]);
    }
}

#[verifier::rlimit(100)]
proof fn lemma_test_ternary_edges(l: Seq<char>, op: Seq<char>, r: Seq<char>)
    requires
        spec_edge_clean(l),
        spec_edge_clean(r),
    ensures
        spec_edge_clean(spec_test_ternary(l, op, r)),
{
    reveal_strlit(" == ");
    reveal_strlit(" != ");
    reveal_strlit(" < ");
    reveal_strlit(" <= ");
    reveal_strlit(" > ");
    reveal_strlit(" >= ");
    reveal_strlit("(");
    reveal_strlit(" | path exists) and (");
    reveal_strlit(" | get modified) > (");
    reveal_strlit(" | get modified) < (");
    reveal_strlit(" | get inode) == (");
    reveal_strlit(" | get modified))");
    reveal_strlit(" | get inode))");
    reveal_strlit(" =~ ");
    reveal_strlit(" !~ ");
    reveal_strlit("test ");
    reveal_strlit(" ");
    reveal_strlit("=");
    assert("="@ =~= seq!['=']);
    reveal_strlit("==");
    assert("=="@ =~= seq!['=', '=']);
    reveal_strlit("!=");
    assert("!="@ =~= seq!['!', '=']);
    reveal_strlit("-eq");
    assert("-eq"@ =~= seq!['-', 'e', 'q']);
    reveal_strlit("-ne");
    assert("-ne"@ =~= seq!['-', 'n', 'e']);
    reveal_strlit("-lt");
    assert("-lt"@ =~= seq!['-', 'l', 't']);
    reveal_strlit("-le");
    assert("-le"@ =~= seq!['-', 'l', 'e']);
    reveal_strlit("-gt");
    assert("-gt"@ =~= seq!['-', 'g', 't']);
    reveal_strlit("-ge");
    assert("-ge"@ =~= seq!['-', 'g', 'e']);
    reveal_strlit("-nt");
    assert("-nt"@ =~= seq!['-', 'n', 't']);
    reveal_strlit("-ot");
    assert("-ot"@ =~= seq!['-', 'o', 't']);
    reveal_strlit("-ef");
    assert("-ef"@ =~= seq!['-', 'e', 'f']);
    reveal_strlit("=~");
    assert("=~"@ =~= seq!['=', '~']);
    reveal_strlit("!~");
    assert("!~"@ =~= seq!['!', '~']);
    let out = spec_test_ternary(l, op, r);
    lemma_quote_literal_edges(l);
    lemma_quote_literal_edges(r);
    let ql = spec_quote_literal(l);
    let qr = spec_quote_literal(r);
    if op == "="@ || op == "=="@ || op == "!="@ || op == "=~"@ || op == "!~"@ {
        assert(out[0] == ql[0]);
        assert(out[out.len() - 1] == qr[qr.len() - 1]);
    } else if op == "-eq"@ || op == "-ne"@ || op == "-lt"@ || op == "-le"@ || op == "-gt"@ || op
        == "-ge"@ {
        assert(out[0] == l[0]);
        assert(out[out.len() - 1] == r[r.len() - 1]);
    } else if op == "-nt"@ || op == "-ot"@ || op == "-ef"@ {
        assert(out[0] == '(');
        assert(out[out.len() - 1] == ')');
    } else {
        assert(out[0] == 't');
        assert(out[out.len() - 1] == r[r.len() - 1]);
    }
}

proof fn lemma_test_simple_edges(a: Seq<Seq<char>>)
    requires
        spec_edge_clean_args(a),
    ensures
        spec_edge_clean(spec_test_simple(a)),
{
    reveal_strlit("false");
    reveal_strlit("test ");
    if a.len() == 0 {
    } else if a.len() == 1 {
        lemma_test_unary_edges(a[0]);
    } else if a.len() == 2 {
        lemma_test_binary_edges(a[0], a[1]);
    } else if a.len() == 3 {
        lemma_test_ternary_edges(a[0], a[1], a[2]);
    } else {
        lemma_format_args_edge_clean(a);
        let f = crate::quoting::spec_format_args(a);
        let out = spec_test_simple(a);
        assert(out[0] == 't');
        assert(out[out.len() - 1] == f[f.len() - 1]);
    }
}

proof fn lemma_test_from_edges(parts: Seq<(Seq<Seq<char>>, Seq<char>)>, i: int)
    requires
        0 <= i < parts.len(),
    ensures
        spec_test_complex_from(parts, i).len() > 0,
        spec_test_complex_from(parts, i)[spec_test_complex_from(parts, i).len() - 1] == ')',
        i == 0 ==> spec_test_complex_from(parts, i)[0] == '(',
    decreases parts.len() - i,
{
    reveal_strlit("(");
    reveal_strlit(")");
    reveal_strlit(" ");
    let sep: Seq<char> = if i > 0 {
        " "@ + parts[i - 1].1 + " "@
    } else {
        Seq::empty()
    };
    let rec = spec_test_complex_from(parts, i + 1);
    let whole = spec_test_complex_from(parts, i);
    assert(whole == sep + "("@ + spec_test_simple(parts[i].0) + ")"@ + rec);
    if i + 1 < parts.len() {
        lemma_test_from_edges(parts, i + 1);
        assert(whole[whole.len() - 1] == rec[rec.len() - 1]);
    } else {
        assert(rec =~= Seq::<char>::empty());
        assert(whole[whole.len() - 1] == ')');
    }
    if i == 0 {
        assert(whole[0] == '(');
    }
}

proof fn lemma_test_complex_edges(vs: Seq<Seq<char>>)
    requires
        spec_edge_clean_args(vs),
    ensures
        spec_edge_clean(spec_test_complex(vs)),
{
    reveal_strlit("false");
    let a = crate::plugin::builtin::test::spec_strip_brackets(vs);
    assert forall|k: int| 0 <= k < a.len() implies spec_edge_clean(#[trigger] a[k]) by {
        if vs.len() >= 2 && vs[0] == "["@ && vs[vs.len() - 1] == "]"@ {
            assert(a[k] == vs[k + 1]);
        } else {
            assert(a[k] == vs[k]);
        }
    }
    if a.len() == 0 {
    } else if !crate::plugin::builtin::test::spec_has_logic_op(a) {
        lemma_test_simple_edges(a);
    } else {
        let parts = crate::plugin::builtin::test::spec_test_parts(a, 0, Seq::empty(), Seq::empty());
        if parts.len() == 0 {
        } else {
            lemma_test_from_edges(parts, 0);
        }
    }
}

proof fn lemma_test_convert_edges(vs: Seq<Seq<char>>)
    requires
        spec_edge_clean_args(vs),
    ensures
        spec_edge_clean(spec_convert_test(vs)),
{
    reveal_strlit("false");
    if vs.len() == 0 {
    } else if vs.len() <= 3 {
        lemma_test_simple_edges(vs);
    } else {
        lemma_test_complex_edges(vs);
    }
}

/// Totality of the builtin table, whitespace half: for arguments that are
/// themselves non-empty and free of leading and trailing whitespace, every
/// registered builtin converter produces text that equals its own trim.
/// The restriction is necessary: `test` embeds the operands of its numeric
/// comparisons verbatim, so an operand ending in a space would end the
/// output in a space.
pub proof fn lemma_builtin_trimmed(e: BuiltinEntry, vs: Seq<Seq<char>>)
    requires
        spec_edge_clean_args(vs),
    ensures
        spec_trim(spec_entry_convert(e, vs)) == spec_entry_convert(e, vs),
{
    match e {
        BuiltinEntry::Cd(c) => {
            reveal_strlit("cd");
            if vs.len() > 0 {
                lemma_cd_from_edges(vs, 0, Seq::empty());
            }
        },
        BuiltinEntry::Exit(c) => {
            reveal_strlit("exit");
            reveal_strlit("exit ");
            reveal_strlit("exit 1");
            if vs.len() > 0 {
                match crate::text::spec_parse_i32(vs[0]) {
                    Some(code) => {
                        lemma_dec_int_edges(code as int);
                        let r = spec_convert_exit(vs);
                        let d = spec_dec_int(code as int);
                        assert(r[0] == 'e');
                        assert(r[r.len() - 1] == d[d.len() - 1]);
                    },
                    None => {},
                }
            }
        },
        BuiltinEntry::False(c) => {
            reveal_strlit("false");
        },
        BuiltinEntry::Jobs(c) => {
            reveal_strlit("jobs");
            if vs.len() > 0 {
                lemma_jobs_render_edges(
                    crate::plugin::builtin::jobs::spec_jobs_scan(
                        vs,
                        0,
                        crate::plugin::builtin::jobs::spec_jobs_init(),
                    ),
                );
            }
        },
        BuiltinEntry::Kill(c) => {
            reveal_strlit("kill");
            if vs.len() > 0 {
                let init = crate::plugin::builtin::kill::spec_kill_init();
                assert(spec_edge_clean_args(init.pids));
                lemma_kill_scan_clean(vs, 0, init);
                lemma_kill_render_edges(
                    crate::plugin::builtin::kill::spec_kill_scan(vs, 0, init),
                );
            }
        },
        BuiltinEntry::Pwd(c) => {
            reveal_strlit("pwd");
            reveal_strlit("pwd | path expand");
        },
        BuiltinEntry::Read(c) => {
            reveal_strlit("input");
            if vs.len() > 0 {
                lemma_read_render_edges(
                    crate::plugin::builtin::read::spec_read_scan(
                        vs,
                        0,
                        crate::plugin::builtin::read::spec_read_init(),
                    ),
                );
            }
        },
        BuiltinEntry::Test(c) => {
            lemma_test_convert_edges(vs);
        },
        BuiltinEntry::True(c) => {
            reveal_strlit("true");
        },
    }
    lemma_edge_clean_trimmed(spec_entry_convert(e, vs));
}

/// The two halves of the totality property at the registry interface: for
/// any name served by the builtin table (the `[` alias included) and any
/// edge-clean argument vector, the conversion is non-empty and equals its
/// own trim.
pub proof fn lemma_convert_builtin_total(name: Seq<char>, vs: Seq<Seq<char>>)
    requires
        spec_builtin_find(
            spec_builtin_table(),
            if name == "["@ {
                "test"@
            } else {
                name
            },
            0,
        ) is Some,
        spec_edge_clean_args(vs),
    ensures
        spec_convert_builtin(spec_builtin_table(), name, vs).len() > 0,
        spec_trim(spec_convert_builtin(spec_builtin_table(), name, vs)) == spec_convert_builtin(
            spec_builtin_table(),
            name,
            vs,
        ),
{
    let alias: Seq<char> = if name == "["@ {
        "test"@
    } else {
        name
    };
    let e = spec_builtin_find(spec_builtin_table(), alias, 0)->0;
    lemma_builtin_totality(e, vs);
    lemma_builtin_trimmed(e, vs);
}

} // verus!
