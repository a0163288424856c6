//! `sort` converter.

use super::{BaseConverter, CommandConverter};
use crate::plugin::ConvertError;
use crate::quoting::{spec_format_args, spec_quote_word};
use crate::text::{spec_starts_with, starts_with, str_eq, views};
use vstd::prelude::*;

verus! {

/// Converter for the `sort` command.
pub struct SortConverter;

/// The flag state gathered while scanning `sort` arguments.
pub struct SortScan {
    pub reverse: bool,
    pub numeric: bool,
    pub unique: bool,
    pub fold_case: bool,
    pub key: Seq<char>,
    pub sep: Seq<char>,
    pub output: Seq<char>,
    pub files: Seq<Seq<char>>,
}

pub open spec fn spec_sort_init() -> SortScan {
    SortScan {
        reverse: false,
        numeric: false,
        unique: false,
        fold_case: false,
        key: Seq::empty(),
        sep: Seq::empty(),
        output: Seq::empty(),
        files: Seq::empty(),
    }
}

/// Reads the characters of one combined short option such as `-ru`; an `o`
/// consumes the following argument as the output file.
pub open spec fn spec_sort_flag_chars(
    cs: Seq<char>,
    j: int,
    vs: Seq<Seq<char>>,
    i: int,
    rv: bool,
    nm: bool,
    un: bool,
    fc: bool,
    out: Seq<char>,
) -> (int, bool, bool, bool, bool, Seq<char>)
    decreases cs.len() - j,
{
    if j < 0 || j >= cs.len() {
        (i, rv, nm, un, fc, out)
    } else if cs[j] == 'r' {
        spec_sort_flag_chars(cs, j + 1, vs, i, true, nm, un, fc, out)
    } else if cs[j] == 'n' {
        spec_sort_flag_chars(cs, j + 1, vs, i, rv, true, un, fc, out)
    } else if cs[j] == 'u' {
        spec_sort_flag_chars(cs, j + 1, vs, i, rv, nm, true, fc, out)
    } else if cs[j] == 'f' {
        spec_sort_flag_chars(cs, j + 1, vs, i, rv, nm, un, true, out)
    } else if cs[j] == 'o' {
        if i + 1 < vs.len() {
            spec_sort_flag_chars(cs, j + 1, vs, i + 1, rv, nm, un, fc, vs[i + 1])
        } else {
            spec_sort_flag_chars(cs, j + 1, vs, i, rv, nm, un, fc, out)
        }
    } else {
        spec_sort_flag_chars(cs, j + 1, vs, i, rv, nm, un, fc, out)
    }
}

/// Scans `sort` arguments: combined short options, long options with values,
/// and input files.
pub open spec fn spec_sort_scan(vs: Seq<Seq<char>>, i: int, st: SortScan) -> SortScan
    decreases vs.len() - i,
{
    if i < 0 || i >= vs.len() {
        st
    } else if spec_starts_with(vs[i], "-"@) && vs[i].len() > 1 && !spec_starts_with(vs[i], "--"@) {
        let (i2, rv, nm, un, fc, out) = spec_sort_flag_chars(
            vs[i].skip(1),
            0,
            vs,
            i,
            st.reverse,
            st.numeric,
            st.unique,
            st.fold_case,
            st.output,
        );
        let ni = if i2 < i {
            i
        } else if i2 >= vs.len() {
            vs.len() - 1
        } else {
            i2
        };
        spec_sort_scan(
            vs,
            ni + 1,
            SortScan { reverse: rv, numeric: nm, unique: un, fold_case: fc, output: out, ..st },
        )
    } else if vs[i] == "--reverse"@ {
        spec_sort_scan(vs, i + 1, SortScan { reverse: true, ..st })
    } else if vs[i] == "--numeric-sort"@ {
        spec_sort_scan(vs, i + 1, SortScan { numeric: true, ..st })
    } else if vs[i] == "--unique"@ {
        spec_sort_scan(vs, i + 1, SortScan { unique: true, ..st })
    } else if vs[i] == "--ignore-case"@ {
        spec_sort_scan(vs, i + 1, SortScan { fold_case: true, ..st })
    } else if vs[i] == "--key"@ {
        if i + 1 < vs.len() {
            spec_sort_scan(vs, i + 2, SortScan { key: vs[i + 1], ..st })
        } else {
            spec_sort_scan(vs, i + 1, st)
        }
    } else if vs[i] == "--field-separator"@ {
        if i + 1 < vs.len() {
            spec_sort_scan(vs, i + 2, SortScan { sep: vs[i + 1], ..st })
        } else {
            spec_sort_scan(vs, i + 1, st)
        }
    } else if vs[i] == "--output"@ {
        if i + 1 < vs.len() {
            spec_sort_scan(vs, i + 2, SortScan { output: vs[i + 1], ..st })
        } else {
            spec_sort_scan(vs, i + 1, st)
        }
    } else if spec_starts_with(vs[i], "-"@) {
        spec_sort_scan(vs, i + 1, st)
    } else {
        spec_sort_scan(vs, i + 1, SortScan { files: st.files.push(vs[i]), ..st })
    }
}

/// The pipeline body chosen by the sort mode.
pub open spec fn spec_sort_body(st: SortScan) -> Seq<char> {
    if st.numeric {
        "lines | where ($it | str trim | is-empty | not) | each { |line| $line | into int } | sort"@
    } else if st.key.len() > 0 {
        if st.sep.len() > 0 {
            "lines | split column '"@ + st.sep + "' | sort-by column"@ + st.key
        } else {
            "lines | sort-by "@ + st.key
        }
    } else {
        "lines | sort"@
    }
}

/// The full pipeline including flags, before the stdin prefix strip.
pub open spec fn spec_sort_piped(st: SortScan) -> Seq<char> {
    spec_sort_body(st) + (if st.reverse {
        " --reverse"@
    } else {
        Seq::<char>::empty()
    }) + (if st.fold_case {
        " --ignore-case"@
    } else {
        Seq::<char>::empty()
    }) + (if st.unique {
        " | uniq"@
    } else {
        Seq::<char>::empty()
    }) + (if st.output.len() > 0 {
        " | save "@ + spec_quote_word(st.output)
    } else {
        Seq::<char>::empty()
    })
}

/// The exact text produced for `sort` with the given arguments.
pub open spec fn spec_convert_sort(vs: Seq<Seq<char>>) -> Seq<char> {
    if vs.len() == 0 {
        "sort"@
    } else {
        let st = spec_sort_scan(vs, 0, spec_sort_init());
        let piped = spec_sort_piped(st);
        if st.files.len() > 0 {
            "open "@ + spec_format_args(st.files) + " | "@ + piped
        } else if spec_starts_with(piped, "lines | "@) {
            piped.skip(8)
        } else {
            piped
        }
    }
}

/// Read the flag characters of one combined short option.
#[verifier::loop_isolation(false)]
#[verifier::rlimit(60)]
fn sort_flag_chars(args: &[String], i0: usize, reverse: &mut bool, numeric: &mut bool, unique: &mut bool, fold_case: &mut bool, output: &mut String) -> (ni: usize)
    requires
        i0 < args@.len(),
        args@[i0 as int]@.len() >= 1,
    ensures
        ({
            let vs = views(args@);
            spec_sort_flag_chars(
                vs[i0 as int].skip(1),
                0,
                vs,
                i0 as int,
                *old(reverse),
                *old(numeric),
                *old(unique),
                *old(fold_case),
                old(output)@,
            ) == (
                ni as int,
                *final(reverse),
                *final(numeric),
                *final(unique),
                *final(fold_case),
                final(output)@,
            ) && i0 <= ni < args@.len()
        }),
{
    let ghost vs = views(args@);
    let a = args[i0].as_str();
    proof {
        assert(vs[i0 as int] == args@[i0 as int]@);
    }
    let ghost cs = a@.skip(1);
    let n = a.unicode_len();
    let mut i: usize = i0;
    let mut j: usize = 1;
    while j < n
        invariant
            1 <= j <= n,
            n == a@.len(),
            i0 <= i < args@.len(),
            spec_sort_flag_chars(
                cs,
                0,
                vs,
                i0 as int,
                *old(reverse),
                *old(numeric),
                *old(unique),
                *old(fold_case),
                old(output)@,
            ) == spec_sort_flag_chars(
                cs,
                j - 1,
                vs,
                i as int,
                *reverse,
                *numeric,
                *unique,
                *fold_case,
                output@,
            ),
        decreases n - j,
    {
        let c = a.get_char(j);
        proof {
            assert(cs[j - 1] == a@[j as int]);
            if i + 1 < args.len() {
                assert(vs[i as int + 1] == args@[i as int + 1]@);
            }
        }
        if c == 'r' {
            *reverse = true;
        } else if c == 'n' {
            *numeric = true;
        } else if c == 'u' {
            *unique = true;
        } else if c == 'f' {
            *fold_case = true;
        } else if c == 'o' {
            if i + 1 < args.len() {
                *output = args[i + 1].clone();
                i = i + 1;
            }
        }
        j = j + 1;
    }
    i
}

impl CommandConverter for SortConverter {
    open spec fn spec_convert(&self, vs: Seq<Seq<char>>) -> Seq<char> {
        spec_convert_sort(vs)
    }

    open spec fn spec_name(&self) -> Seq<char> {
        "sort"@
    }

    #[verifier::loop_isolation(false)]
    #[verifier::rlimit(100)]
    fn convert(&self, args: &[String]) -> (r: Result<String, ConvertError>) {
        let base = BaseConverter;
        let ghost vs = views(args@);
        if args.len() == 0 {
            return Ok("sort".to_owned());
        }
        let ghost init = spec_sort_init();
        let mut reverse = false;
        let mut numeric = false;
        let mut unique = false;
        let mut fold_case = false;
        let mut key: String = String::new();
        let mut sep: String = String::new();
        let mut output: String = String::new();
        let mut files: Vec<String> = Vec::new();
        proof {
            assert(views(files@) =~= Seq::<Seq<char>>::empty());
            assert(key@ =~= Seq::<char>::empty());
            assert(sep@ =~= Seq::<char>::empty());
            assert(output@ =~= Seq::<char>::empty());
        }
        let mut i: usize = 0;
        while i < args.len()
            invariant
                i <= args@.len(),
                spec_sort_scan(vs, 0, init) == spec_sort_scan(
                    vs,
                    i as int,
                    SortScan {
                        reverse: reverse,
                        numeric: numeric,
                        unique: unique,
                        fold_case: fold_case,
                        key: key@,
                        sep: sep@,
                        output: output@,
                        files: views(files@),
                    },
                ),
            decreases args@.len() - i,
        {
            let a = args[i].as_str();
            proof {
                assert(vs[i as int] == args@[i as int]@);
                if i + 1 < args.len() {
                    assert(vs[i as int + 1] == args@[i as int + 1]@);
                }
            }
            if starts_with(a, "-") && a.unicode_len() > 1 && !starts_with(a, "--") {
                proof {
                    reveal_strlit("-");
                }
                let ni = sort_flag_chars(
                    args,
                    i,
                    &mut reverse,
                    &mut numeric,
                    &mut unique,
                    &mut fold_case,
                    &mut output,
                );
                i = ni + 1;
            } else if str_eq(a, "--reverse") {
                reverse = true;
                i = i + 1;
            } else if str_eq(a, "--numeric-sort") {
                numeric = true;
                i = i + 1;
            } else if str_eq(a, "--unique") {
                unique = true;
                i = i + 1;
            } else if str_eq(a, "--ignore-case") {
                fold_case = true;
                i = i + 1;
            } else if str_eq(a, "--key") {
                if i + 1 < args.len() {
                    key = args[i + 1].clone();
                    i = i + 2;
                } else {
                    i = i + 1;
                }
            } else if str_eq(a, "--field-separator") {
                if i + 1 < args.len() {
                    sep = args[i + 1].clone();
                    i = i + 2;
                } else {
                    i = i + 1;
                }
            } else if str_eq(a, "--output") {
                if i + 1 < args.len() {
                    output = args[i + 1].clone();
                    i = i + 2;
                } else {
                    i = i + 1;
                }
            } else if starts_with(a, "-") {
                i = i + 1;
            } else {
                let ghost prev = files@;
                files.push(args[i].clone());
                proof {
                    assert(views(files@) =~= views(prev).push(args@[i as int]@));
                }
                i = i + 1;
            }
        }
        let ghost st = spec_sort_scan(vs, 0, init);
        let mut piped: String;
        if numeric {
            piped =
            "lines | where ($it | str trim | is-empty | not) | each { |line| $line | into int } | sort".to_owned();
        } else if key.as_str().unicode_len() > 0 {
            if sep.as_str().unicode_len() > 0 {
                piped = "lines | split column '".to_owned();
                piped.append(sep.as_str());
                piped.append("' | sort-by column");
                piped.append(key.as_str());
            } else {
                piped = "lines | sort-by ".to_owned();
                piped.append(key.as_str());
            }
        } else {
            piped = "lines | sort".to_owned();
        }
        if reverse {
            piped.append(" --reverse");
        }
        if fold_case {
            piped.append(" --ignore-case");
        }
        if unique {
            piped.append(" | uniq");
        }
        if output.as_str().unicode_len() > 0 {
            piped.append(" | save ");
            piped.append(base.quote_arg(output.as_str()).as_str());
        }
        proof {
            assert(piped@ == spec_sort_piped(st));
        }
        if files.len() > 0 {
            let mut out: String = "open ".to_owned();
            out.append(base.format_args(files.as_slice()).as_str());
            out.append(" | ");
            out.append(piped.as_str());
            Ok(out)
        } else {
            if starts_with(piped.as_str(), "lines | ") {
                proof {
                    reveal_strlit("lines | ");
                }
                let n = piped.as_str().unicode_len();
                let rest = piped.as_str().substring_char(8, n).to_owned();
                proof {
                    assert(rest@ =~= piped@.skip(8));
                }
                Ok(rest)
            } else {
                Ok(piped)
            }
        }
    }

    fn command_name(&self) -> (r: &'static str) {
        "sort"
    }

    fn description(&self) -> &'static str {
        "Converts sort commands to target sort commands"
    }
}

} // verus!
