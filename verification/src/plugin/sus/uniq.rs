//! `uniq` converter.

use super::{BaseConverter, CommandConverter};
use crate::plugin::ConvertError;
use crate::quoting::{spec_format_args, spec_quote_word};
use crate::text::{spec_starts_with, starts_with, str_eq, views};
use vstd::prelude::*;

verus! {

/// Converter for the `uniq` command.
pub struct UniqConverter;

/// Reads the characters of one combined short option such as `-ci`; an `f`
/// or `s` consumes the following argument as its count.
pub open spec fn spec_uniq_flag_chars(
    cs: Seq<char>,
    j: int,
    vs: Seq<Seq<char>>,
    i: int,
    cn: bool,
    dp: bool,
    un: bool,
    ic: bool,
    sf: Seq<char>,
    sc: Seq<char>,
) -> (int, bool, bool, bool, bool, Seq<char>, Seq<char>)
    decreases cs.len() - j,
{
    if j < 0 || j >= cs.len() {
        (i, cn, dp, un, ic, sf, sc)
    } else if cs[j] == 'c' {
        spec_uniq_flag_chars(cs, j + 1, vs, i, true, dp, un, ic, sf, sc)
    } else if cs[j] == 'd' {
        spec_uniq_flag_chars(cs, j + 1, vs, i, cn, true, un, ic, sf, sc)
    } else if cs[j] == 'u' {
        spec_uniq_flag_chars(cs, j + 1, vs, i, cn, dp, true, ic, sf, sc)
    } else if cs[j] == 'i' {
        spec_uniq_flag_chars(cs, j + 1, vs, i, cn, dp, un, true, sf, sc)
    } else if cs[j] == 'f' {
        if i + 1 < vs.len() {
            spec_uniq_flag_chars(cs, j + 1, vs, i + 1, cn, dp, un, ic, vs[i + 1], sc)
        } else {
            spec_uniq_flag_chars(cs, j + 1, vs, i, cn, dp, un, ic, sf, sc)
        }
    } else if cs[j] == 's' {
        if i + 1 < vs.len() {
            spec_uniq_flag_chars(cs, j + 1, vs, i + 1, cn, dp, un, ic, sf, vs[i + 1])
        } else {
            spec_uniq_flag_chars(cs, j + 1, vs, i, cn, dp, un, ic, sf, sc)
        }
    } else {
        spec_uniq_flag_chars(cs, j + 1, vs, i, cn, dp, un, ic, sf, sc)
    }
}

/// The flag state gathered while scanning `uniq` arguments.
pub struct UniqScan {
    pub count: bool,
    pub dup_only: bool,
    pub unique_only: bool,
    pub fold_case: bool,
    pub skip_fields: Seq<char>,
    pub skip_chars: Seq<char>,
    pub files: Seq<Seq<char>>,
}

pub open spec fn spec_uniq_init() -> UniqScan {
    UniqScan {
        count: false,
        dup_only: false,
        unique_only: false,
        fold_case: false,
        skip_fields: Seq::empty(),
        skip_chars: Seq::empty(),
        files: Seq::empty(),
    }
}

pub open spec fn spec_uniq_scan(vs: Seq<Seq<char>>, i: int, st: UniqScan) -> UniqScan
    decreases vs.len() - i,
{
    if i < 0 || i >= vs.len() {
        st
    } else if spec_starts_with(vs[i], "-"@) && vs[i].len() > 1 && !spec_starts_with(vs[i], "--"@) {
        let (i2, cn, dp, un, ic, sf, sc) = spec_uniq_flag_chars(
            vs[i].skip(1),
            0,
            vs,
            i,
            st.count,
            st.dup_only,
            st.unique_only,
            st.fold_case,
            st.skip_fields,
            st.skip_chars,
        );
        let ni = if i2 < i {
            i
        } else if i2 >= vs.len() {
            vs.len() - 1
        } else {
            i2
        };
        spec_uniq_scan(
            vs,
            ni + 1,
            UniqScan {
                count: cn,
                dup_only: dp,
                unique_only: un,
                fold_case: ic,
                skip_fields: sf,
                skip_chars: sc,
                ..st
            },
        )
    } else if vs[i] == "--count"@ {
        spec_uniq_scan(vs, i + 1, UniqScan { count: true, ..st })
    } else if vs[i] == "--repeated"@ {
        spec_uniq_scan(vs, i + 1, UniqScan { dup_only: true, ..st })
    } else if vs[i] == "--unique"@ {
        spec_uniq_scan(vs, i + 1, UniqScan { unique_only: true, ..st })
    } else if vs[i] == "--ignore-case"@ {
        spec_uniq_scan(vs, i + 1, UniqScan { fold_case: true, ..st })
    } else if vs[i] == "--skip-fields"@ {
        if i + 1 < vs.len() {
            spec_uniq_scan(vs, i + 2, UniqScan { skip_fields: vs[i + 1], ..st })
        } else {
            spec_uniq_scan(vs, i + 1, st)
        }
    } else if vs[i] == "--skip-chars"@ {
        if i + 1 < vs.len() {
            spec_uniq_scan(vs, i + 2, UniqScan { skip_chars: vs[i + 1], ..st })
        } else {
            spec_uniq_scan(vs, i + 1, st)
        }
    } else if spec_starts_with(vs[i], "-"@) {
        spec_uniq_scan(vs, i + 1, st)
    } else {
        spec_uniq_scan(vs, i + 1, UniqScan { files: st.files.push(vs[i]), ..st })
    }
}

/// The pipeline including every flag effect, before the stdin prefix strip.
pub open spec fn spec_uniq_piped(st: UniqScan) -> Seq<char> {
    let opening: Seq<char> = if st.files.len() == 1 || st.files.len() == 2 {
        "open "@ + spec_quote_word(st.files[0]) + " | "@
    } else if st.files.len() > 2 {
        "open "@ + spec_format_args(st.files) + " | "@
    } else {
        Seq::empty()
    };
    let body: Seq<char> = if st.count {
        "lines | group-by | transpose key count | select key count"@
    } else if st.dup_only {
        "lines | group-by | where ($it | length) > 1 | transpose | get column0"@
    } else if st.unique_only {
        "lines | group-by | where ($it | length) == 1 | transpose | get column0"@
    } else {
        "lines | uniq"@
    };
    opening + body + (if st.skip_fields.len() > 0 {
        " # Note: skip-fields "@ + st.skip_fields + " not fully supported"@
    } else {
        Seq::<char>::empty()
    }) + (if st.skip_chars.len() > 0 {
        " # Note: skip-chars "@ + st.skip_chars + " not fully supported"@
    } else {
        Seq::<char>::empty()
    }) + (if st.fold_case {
        " # Note: ignore-case not directly supported"@
    } else {
        Seq::<char>::empty()
    }) + (if st.files.len() == 2 {
        " | save "@ + spec_quote_word(st.files[1])
    } else {
        Seq::<char>::empty()
    })
}

/// The exact text produced for `uniq` with the given arguments.
pub open spec fn spec_convert_uniq(vs: Seq<Seq<char>>) -> Seq<char> {
    if vs.len() == 0 {
        "uniq"@
    } else {
        let st = spec_uniq_scan(vs, 0, spec_uniq_init());
        let piped = spec_uniq_piped(st);
        if st.files.len() == 0 && spec_starts_with(piped, "lines"@) {
            if spec_starts_with(piped, "lines | "@) {
                piped.skip(8)
            } else {
                piped
            }
        } else {
            piped
        }
    }
}

/// Read the flag characters of one combined short option.
#[verifier::loop_isolation(false)]
#[verifier::rlimit(60)]
fn uniq_flag_chars(
    args: &[String],
    i0: usize,
    cn: &mut bool,
    dp: &mut bool,
    un: &mut bool,
    ic: &mut bool,
    sf: &mut String,
    sc: &mut String,
) -> (ni: usize)
    requires
        i0 < args@.len(),
        args@[i0 as int]@.len() >= 1,
    ensures
        ({
            let vs = views(args@);
            spec_uniq_flag_chars(
                vs[i0 as int].skip(1),
                0,
                vs,
                i0 as int,
                *old(cn),
                *old(dp),
                *old(un),
                *old(ic),
                old(sf)@,
                old(sc)@,
            ) == (
                ni as int,
                *final(cn),
                *final(dp),
                *final(un),
                *final(ic),
                final(sf)@,
                final(sc)@,
            ) && i0 <= ni < args@.len()
        }),
{
    let ghost vs = views(args@);
    let a = args[i0].as_str();
    proof {
        assert(vs[i0 as int] == args@[i0 as int]@);
    }
    let ghost cs = a@.skip(1);
    let n = a.unicode_len();
    let mut i: usize = i0;
    let mut j: usize = 1;
    while j < n
        invariant
            1 <= j <= n,
            n == a@.len(),
            i0 <= i < args@.len(),
            spec_uniq_flag_chars(
                cs,
                0,
                vs,
                i0 as int,
                *old(cn),
                *old(dp),
                *old(un),
                *old(ic),
                old(sf)@,
                old(sc)@,
            ) == spec_uniq_flag_chars(cs, j - 1, vs, i as int, *cn, *dp, *un, *ic, sf@, sc@),
        decreases n - j,
    {
        let c = a.get_char(j);
        proof {
            assert(cs[j - 1] == a@[j as int]);
            if i + 1 < args.len() {
                assert(vs[i as int + 1] == args@[i as int + 1]@);
            }
        }
        if c == 'c' {
            *cn = true;
        } else if c == 'd' {
            *dp = true;
        } else if c == 'u' {
            *un = true;
        } else if c == 'i' {
            *ic = true;
        } else if c == 'f' {
            if i + 1 < args.len() {
                *sf = args[i + 1].clone();
                i = i + 1;
            }
        } else if c == 's' {
            if i + 1 < args.len() {
                *sc = args[i + 1].clone();
                i = i + 1;
            }
        }
        j = j + 1;
    }
    i
}


/// Scan the arguments of `uniq` into its flag state.
#[verifier::loop_isolation(false)]
#[verifier::rlimit(60)]
fn uniq_scan(args: &[String]) -> (r: (bool, bool, bool, bool, String, String, Vec<String>))
    ensures
        spec_uniq_scan(views(args@), 0, spec_uniq_init()) == (UniqScan {
            count: r.0,
            dup_only: r.1,
            unique_only: r.2,
            fold_case: r.3,
            skip_fields: r.4@,
            skip_chars: r.5@,
            files: views(r.6@),
        }),
{
    let ghost vs = views(args@);
    let ghost init = spec_uniq_init();
    let mut cn = false;
    let mut dp = false;
    let mut un = false;
    let mut ic = false;
    let mut sf: String = String::new();
    let mut sc: String = String::new();
    let mut files: Vec<String> = Vec::new();
    proof {
        assert(views(files@) =~= Seq::<Seq<char>>::empty());
        assert(sf@ =~= Seq::<char>::empty());
        assert(sc@ =~= Seq::<char>::empty());
    }
    let mut i: usize = 0;
    while i < args.len()
        invariant
            i <= args@.len(),
            spec_uniq_scan(vs, 0, init) == spec_uniq_scan(
                vs,
                i as int,
                UniqScan {
                    count: cn,
                    dup_only: dp,
                    unique_only: un,
                    fold_case: ic,
                    skip_fields: sf@,
                    skip_chars: sc@,
                    files: views(files@),
                },
            ),
        decreases args@.len() - i,
    {
        let a = args[i].as_str();
        proof {
            assert(vs[i as int] == args@[i as int]@);
            if i + 1 < args.len() {
                assert(vs[i as int + 1] == args@[i as int + 1]@);
            }
        }
        if starts_with(a, "-") && a.unicode_len() > 1 && !starts_with(a, "--") {
            proof {
                reveal_strlit("-");
            }
            let ni = uniq_flag_chars(args, i, &mut cn, &mut dp, &mut un, &mut ic, &mut sf, &mut sc);
            i = ni + 1;
        } else if str_eq(a, "--count") {
            cn = true;
            i = i + 1;
        } else if str_eq(a, "--repeated") {
            dp = true;
            i = i + 1;
        } else if str_eq(a, "--unique") {
            un = true;
            i = i + 1;
        } else if str_eq(a, "--ignore-case") {
            ic = true;
            i = i + 1;
        } else if str_eq(a, "--skip-fields") {
            if i + 1 < args.len() {
                sf = args[i + 1].clone();
                i = i + 2;
            } else {
                i = i + 1;
            }
        } else if str_eq(a, "--skip-chars") {
            if i + 1 < args.len() {
                sc = args[i + 1].clone();
                i = i + 2;
            } else {
                i = i + 1;
            }
        } else if starts_with(a, "-") {
            i = i + 1;
        } else {
            let ghost prev = files@;
            files.push(args[i].clone());
            proof {
                assert(views(files@) =~= views(prev).push(args@[i as int]@));
            }
            i = i + 1;
        }
    }
    (cn, dp, un, ic, sf, sc, files)
}

impl CommandConverter for UniqConverter {
    open spec fn spec_convert(&self, vs: Seq<Seq<char>>) -> Seq<char> {
        spec_convert_uniq(vs)
    }

    open spec fn spec_name(&self) -> Seq<char> {
        "uniq"@
    }

    #[verifier::loop_isolation(false)]
    #[verifier::rlimit(100)]
    fn convert(&self, args: &[String]) -> (r: Result<String, ConvertError>) {
        let base = BaseConverter;
        let ghost vs = views(args@);
        if args.len() == 0 {
            return Ok("uniq".to_owned());
        }
        let (cn, dp, un, ic, sf, sc, files) = uniq_scan(args);
        let ghost st = spec_uniq_scan(vs, 0, spec_uniq_init());
        let ghost g_opening: Seq<char> = if st.files.len() == 1 || st.files.len() == 2 {
            "open "@ + spec_quote_word(st.files[0]) + " | "@
        } else if st.files.len() > 2 {
            "open "@ + spec_format_args(st.files) + " | "@
        } else {
            Seq::empty()
        };
        let ghost g_body: Seq<char> = if st.count {
            "lines | group-by | transpose key count | select key count"@
        } else if st.dup_only {
            "lines | group-by | where ($it | length) > 1 | transpose | get column0"@
        } else if st.unique_only {
            "lines | group-by | where ($it | length) == 1 | transpose | get column0"@
        } else {
            "lines | uniq"@
        };
        let mut piped: String = String::new();
        if files.len() == 1 || files.len() == 2 {
            proof {
                assert(views(files@)[0] == files@[0]@);
            }
            piped.append("open ");
            piped.append(base.quote_arg(files[0].as_str()).as_str());
            piped.append(" | ");
        } else if files.len() > 2 {
            piped.append("open ");
            piped.append(base.format_args(files.as_slice()).as_str());
            piped.append(" | ");
        }
        proof {
            assert(piped@ == g_opening);
        }
        if cn {
            piped.append("lines | group-by | transpose key count | select key count");
        } else if dp {
            piped.append("lines | group-by | where ($it | length) > 1 | transpose | get column0");
        } else if un {
            piped.append("lines | group-by | where ($it | length) == 1 | transpose | get column0");
        } else {
            piped.append("lines | uniq");
        }
        proof {
            assert(piped@ == g_opening + g_body);
        }
        if sf.as_str().unicode_len() > 0 {
            piped.append(" # Note: skip-fields ");
            piped.append(sf.as_str());
            piped.append(" not fully supported");
        }
        if sc.as_str().unicode_len() > 0 {
            piped.append(" # Note: skip-chars ");
            piped.append(sc.as_str());
            piped.append(" not fully supported");
        }
        proof {
            assert(piped@ == g_opening + g_body + (if st.skip_fields.len() > 0 {
                " # Note: skip-fields "@ + st.skip_fields + " not fully supported"@
            } else {
                Seq::<char>::empty()
            }) + (if st.skip_chars.len() > 0 {
                " # Note: skip-chars "@ + st.skip_chars + " not fully supported"@
            } else {
                Seq::<char>::empty()
            }));
        }
        if ic {
            piped.append(" # Note: ignore-case not directly supported");
        }
        if files.len() == 2 {
            proof {
                assert(views(files@)[1] == files@[1]@);
            }
            piped.append(" | save ");
            piped.append(base.quote_arg(files[1].as_str()).as_str());
        }
        proof {
            assert(piped@ == spec_uniq_piped(st));
        }
        if files.len() == 0 && starts_with(piped.as_str(), "lines") {
            if starts_with(piped.as_str(), "lines | ") {
                proof {
                    reveal_strlit("lines | ");
                }
                let n = piped.as_str().unicode_len();
                let rest = piped.as_str().substring_char(8, n).to_owned();
                proof {
                    assert(rest@ =~= piped@.skip(8));
                }
                Ok(rest)
            } else {
                Ok(piped)
            }
        } else {
            Ok(piped)
        }
    }

    fn command_name(&self) -> (r: &'static str) {
        "uniq"
    }

    fn description(&self) -> &'static str {
        "Converts uniq commands to target uniq commands"
    }
}

} // verus!
