//! `cut` converter: maps field and character selections to split and
//! substring pipelines.

use super::CommandConverter;
use crate::plugin::ConvertError;
use crate::quoting::{quote_literal, quote_words_vec, spec_quote_literal, spec_quoted_words, spec_quote_word};
use crate::text::{
    join_with, parse_usize, spec_dec, spec_join, spec_parse_usize, spec_split_char, spec_starts_with,
    spec_trim, split_char, starts_with, str_eq, trim, usize_to_dec, views,
};
use vstd::prelude::*;

verus! {

/// Converter for the `cut` command.
pub struct CutConverter;

/// `x` inserted into a sorted, duplicate-free sequence.
pub open spec fn spec_insert_sorted(s: Seq<usize>, x: usize) -> Seq<usize>
    decreases s.len(),
{
    if s.len() == 0 {
        seq![x]
    } else if x < s[0] {
        seq![x] + s
    } else if x == s[0] {
        s
    } else {
        seq![s[0]] + spec_insert_sorted(s.skip(1), x)
    }
}

/// Every position of the inclusive range added in order.
pub open spec fn spec_add_range(s: Seq<usize>, a: usize, b: usize) -> Seq<usize>
    decreases b - a,
{
    if a > b {
        s
    } else if a == b {
        spec_insert_sorted(s, a)
    } else {
        spec_add_range(spec_insert_sorted(s, a), (a + 1) as usize, b)
    }
}

/// The sorted, duplicate-free positions described by a range list such as
/// `1,3,5-7`, processed part by part.
pub open spec fn spec_range_positions(parts: Seq<Seq<char>>, i: int, acc: Seq<usize>) -> Seq<usize>
    decreases parts.len() - i,
{
    if i < 0 || i >= parts.len() {
        acc
    } else {
        let t = spec_trim(parts[i]);
        let next: Seq<usize> = if t.contains('-') {
            let sub = spec_split_char(t, '-');
            if sub.len() == 2 {
                match (spec_parse_usize(sub[0]), spec_parse_usize(sub[1])) {
                    (Some(a), Some(b)) => spec_add_range(acc, a, b),
                    _ => acc,
                }
            } else {
                acc
            }
        } else {
            match spec_parse_usize(t) {
                Some(v) => spec_insert_sorted(acc, v),
                None => acc,
            }
        };
        spec_range_positions(parts, i + 1, next)
    }
}

/// The positions of a whole range list.
pub open spec fn spec_parse_range_list(s: Seq<char>) -> Seq<usize> {
    spec_range_positions(spec_split_char(s, ','), 0, Seq::empty())
}

proof fn lemma_insert_sorted_at(s: Seq<usize>, x: usize, i: int)
    requires
        0 <= i <= s.len(),
        forall|k: int| 0 <= k < i ==> s[k] < x,
        i == s.len() || s[i] >= x,
    ensures
        spec_insert_sorted(s, x) == (if i < s.len() && s[i] == x {
            s
        } else {
            s.take(i) + seq![x] + s.skip(i)
        }),
    decreases i,
{
    if s.len() == 0 {
        assert(s.take(0) + seq![x] + s.skip(0) =~= seq![x]);
    } else if i == 0 {
        if s[0] == x {
        } else {
            assert(s.take(0) + seq![x] + s.skip(0) =~= seq![x] + s);
        }
    } else {
        assert(s[0] < x);
        assert forall|k: int| 0 <= k < i - 1 implies s.skip(1)[k] < x by {
            assert(s.skip(1)[k] == s[k + 1]);
        }
        if i - 1 < s.skip(1).len() {
            assert(s.skip(1)[i - 1] == s[i]);
        }
        lemma_insert_sorted_at(s.skip(1), x, i - 1);
        if i < s.len() && s[i] == x {
            assert(spec_insert_sorted(s, x) =~= s);
        } else {
            assert(s.skip(1).take(i - 1) =~= s.subrange(1, i));
            assert(s.skip(1).skip(i - 1) =~= s.skip(i));
            assert(seq![s[0]] + (s.subrange(1, i) + seq![x] + s.skip(i)) =~= s.take(i) + seq![x]
                + s.skip(i));
        }
    }
}

/// Insert a position into a sorted, duplicate-free vector.
#[verifier::loop_isolation(false)]
fn insert_sorted_unique(v: &mut Vec<usize>, x: usize)
    ensures
        final(v)@ == spec_insert_sorted(old(v)@, x),
{
    let mut i: usize = 0;
    while i < v.len() && v[i] < x
        invariant
            i <= v@.len(),
            forall|k: int| 0 <= k < i ==> v@[k] < x,
        decreases v@.len() - i,
    {
        i = i + 1;
    }
    proof {
        lemma_insert_sorted_at(v@, x, i as int);
    }
    if i < v.len() && v[i] == x {
        return ;
    }
    v.insert(i, x);
    proof {
        assert(v@ =~= old(v)@.take(i as int) + seq![x] + old(v)@.skip(i as int));
    }
}

/// Insert every position of the inclusive range, in order.
#[verifier::loop_isolation(false)]
fn add_range_positions(out: &mut Vec<usize>, a: usize, b: usize)
    ensures
        final(out)@ == spec_add_range(old(out)@, a, b),
{
    if a > b {
        return ;
    }
    let mut vv: usize = a;
    while vv < b
        invariant
            a <= vv <= b,
            spec_add_range(old(out)@, a, b) == spec_add_range(out@, vv, b),
        decreases b - vv,
    {
        insert_sorted_unique(out, vv);
        vv = vv + 1;
    }
    insert_sorted_unique(out, b);
}

/// Parse a range list such as `1,3,5-7` into its sorted, duplicate-free
/// positions.
#[verifier::loop_isolation(false)]
#[verifier::rlimit(100)]
pub fn parse_range_list(range_str: &str) -> (r: Vec<usize>)
    ensures
        r@ == spec_parse_range_list(range_str@),
{
    let ghost gparts = spec_split_char(range_str@, ',');
    let parts = split_char(range_str, ',');
    let mut out: Vec<usize> = Vec::new();
    proof {
        assert(out@ =~= Seq::<usize>::empty());
    }
    let mut i: usize = 0;
    while i < parts.len()
        invariant
            i <= parts@.len(),
            gparts == views(parts@),
            spec_parse_range_list(range_str@) == spec_range_positions(gparts, i as int, out@),
        decreases parts@.len() - i,
    {
        proof {
            assert(gparts[i as int] == parts@[i as int]@);
        }
        let t = trim(parts[i].as_str());
        if crate::text::contains_char(t, '-') {
            let sub = split_char(t, '-');
            if sub.len() == 2 {
                proof {
                    assert(views(sub@)[0] == sub@[0]@);
                    assert(views(sub@)[1] == sub@[1]@);
                }
                match (parse_usize(sub[0].as_str()), parse_usize(sub[1].as_str())) {
                    (Some(a), Some(b)) => {
                        add_range_positions(&mut out, a, b);
                    },
                    _ => {},
                }
            }
        } else {
            match parse_usize(t) {
                Some(v) => {
                    insert_sorted_unique(&mut out, v);
                },
                None => {},
            }
        }
        i = i + 1;
    }
    out
}

} // verus!

verus! {

/// The flag state gathered while scanning `cut` arguments.
pub struct CutScan {
    pub delim: Seq<char>,
    pub fields: Seq<usize>,
    pub chars: Seq<usize>,
    pub bytes: Seq<usize>,
    pub out_delim: Option<Seq<char>>,
    pub only_delimited: bool,
    pub files: Seq<Seq<char>>,
}

pub open spec fn spec_cut_init() -> CutScan {
    CutScan {
        delim: "\t"@,
        fields: Seq::empty(),
        chars: Seq::empty(),
        bytes: Seq::empty(),
        out_delim: None,
        only_delimited: false,
        files: Seq::empty(),
    }
}

pub open spec fn spec_cut_scan(vs: Seq<Seq<char>>, i: int, st: CutScan) -> CutScan
    decreases vs.len() - i,
{
    if i < 0 || i >= vs.len() {
        st
    } else if vs[i] == "-d"@ || vs[i] == "--delimiter"@ {
        if i + 1 < vs.len() {
            spec_cut_scan(vs, i + 2, CutScan { delim: vs[i + 1], ..st })
        } else {
            spec_cut_scan(vs, i + 1, st)
        }
    } else if vs[i] == "-f"@ || vs[i] == "--fields"@ {
        if i + 1 < vs.len() {
            spec_cut_scan(vs, i + 2, CutScan { fields: spec_parse_range_list(vs[i + 1]), ..st })
        } else {
            spec_cut_scan(vs, i + 1, st)
        }
    } else if vs[i] == "-c"@ || vs[i] == "--characters"@ {
        if i + 1 < vs.len() {
            spec_cut_scan(vs, i + 2, CutScan { chars: spec_parse_range_list(vs[i + 1]), ..st })
        } else {
            spec_cut_scan(vs, i + 1, st)
        }
    } else if vs[i] == "-b"@ || vs[i] == "--bytes"@ {
        if i + 1 < vs.len() {
            spec_cut_scan(vs, i + 2, CutScan { bytes: spec_parse_range_list(vs[i + 1]), ..st })
        } else {
            spec_cut_scan(vs, i + 1, st)
        }
    } else if vs[i] == "--output-delimiter"@ {
        if i + 1 < vs.len() {
            spec_cut_scan(vs, i + 2, CutScan { out_delim: Some(vs[i + 1]), ..st })
        } else {
            spec_cut_scan(vs, i + 1, st)
        }
    } else if vs[i] == "-s"@ || vs[i] == "--only-delimited"@ {
        spec_cut_scan(vs, i + 1, CutScan { only_delimited: true, ..st })
    } else if vs[i] == "--complement"@ {
        spec_cut_scan(vs, i + 1, st)
    } else if !spec_starts_with(vs[i], "-"@) {
        spec_cut_scan(vs, i + 1, CutScan { files: st.files.push(vs[i]), ..st })
    } else {
        spec_cut_scan(vs, i + 1, st)
    }
}

/// The input stage: stdin, one file, or a listing over several files.
pub open spec fn spec_cut_opening(files: Seq<Seq<char>>) -> Seq<char> {
    if files.len() == 0 {
        "lines"@
    } else if files.len() == 1 {
        "open "@ + spec_quote_literal(files[0]) + " | lines"@
    } else {
        "ls "@ + spec_join(spec_quoted_words(files), " "@)
            + " | each { |file| open $file.name | lines }"@
    }
}

/// The split step for the configured delimiter.
pub open spec fn spec_cut_split(delim: Seq<char>) -> Seq<char> {
    if delim == "\t"@ {
        "split row \"\\t\""@
    } else if delim == " "@ {
        "split row \" \""@
    } else {
        "split row "@ + spec_quote_literal(delim)
    }
}

/// The zero-based column indices for one-based field positions.
pub open spec fn spec_cut_indices(fields: Seq<usize>) -> Seq<Seq<char>> {
    fields.map_values(
        |f: usize|
            if f > 0 {
                spec_dec(f - 1)
            } else {
                spec_dec(0)
            },
    )
}

/// The rejoin step after field selection.
pub open spec fn spec_cut_rejoin(st: CutScan) -> Seq<char> {
    match st.out_delim {
        Some(od) => " | str join "@ + spec_quote_literal(od),
        None => if st.delim != "\t"@ {
            " | str join "@ + spec_quote_literal(st.delim)
        } else {
            " | str join \"\\t\""@
        },
    }
}

/// The substring operations for character or byte positions.
pub open spec fn spec_cut_substrings(pos: Seq<usize>, i: int) -> Seq<Seq<char>>
    decreases pos.len() - i,
{
    if i < 0 || i >= pos.len() {
        Seq::empty()
    } else if pos[i] > 0 {
        seq![
            "($line | str substring "@ + spec_dec(pos[i] - 1) + ".."@ + spec_dec(pos[i] as int)
                + ")"@,
        ] + spec_cut_substrings(pos, i + 1)
    } else {
        spec_cut_substrings(pos, i + 1)
    }
}

/// The per-line body for character or byte selections.
pub open spec fn spec_cut_char_body(pos: Seq<usize>) -> Seq<char> {
    let ops = spec_cut_substrings(pos, 0);
    if ops.len() == 0 {
        " | each { |line| $line }"@
    } else {
        " | each { |line| ["@ + spec_join(ops, " "@) + "] | str join \"\" }"@
    }
}

/// The exact text produced for `cut` with the given arguments.
pub open spec fn spec_convert_cut(vs: Seq<Seq<char>>) -> Seq<char> {
    if vs.len() == 0 {
        "cut"@
    } else {
        let st = spec_cut_scan(vs, 0, spec_cut_init());
        let opening = spec_cut_opening(st.files);
        if st.fields.len() > 0 {
            opening + " | each { |line| $line | "@ + spec_cut_split(st.delim) + " | select "@
                + spec_join(spec_cut_indices(st.fields), " "@) + spec_cut_rejoin(st) + " }"@ + (
            if st.only_delimited {
                " | where ($it | str contains "@ + spec_quote_literal(st.delim) + ")"@
            } else {
                Seq::<char>::empty()
            })
        } else if st.chars.len() > 0 {
            opening + spec_cut_char_body(st.chars)
        } else if st.bytes.len() > 0 {
            opening + spec_cut_char_body(st.bytes)
        } else {
            opening + " # No fields, characters, or bytes specified"@
        }
    }
}

/// Scan the arguments of `cut` into its flag state.
#[verifier::loop_isolation(false)]
#[verifier::rlimit(100)]
fn cut_scan(args: &[String]) -> (r: (String, Vec<usize>, Vec<usize>, Vec<usize>, Option<String>, bool, Vec<String>))
    ensures
        spec_cut_scan(views(args@), 0, spec_cut_init()) == (CutScan {
            delim: r.0@,
            fields: r.1@,
            chars: r.2@,
            bytes: r.3@,
            out_delim: match r.4 {
                Some(od) => Some(od@),
                None => None,
            },
            only_delimited: r.5,
            files: views(r.6@),
        }),
{
    let ghost vs = views(args@);
    let mut delim: String = "\t".to_owned();
    let mut fields: Vec<usize> = Vec::new();
    let mut chars: Vec<usize> = Vec::new();
    let mut bytes: Vec<usize> = Vec::new();
    let mut out_delim: Option<String> = None;
    let mut only_delimited = false;
    let mut files: Vec<String> = Vec::new();
    proof {
        assert(views(files@) =~= Seq::<Seq<char>>::empty());
        assert(fields@ =~= Seq::<usize>::empty());
        assert(chars@ =~= Seq::<usize>::empty());
        assert(bytes@ =~= Seq::<usize>::empty());
    }
    let mut i: usize = 0;
    while i < args.len()
        invariant
            i <= args@.len(),
            spec_cut_scan(vs, 0, spec_cut_init()) == spec_cut_scan(
                vs,
                i as int,
                CutScan {
                    delim: delim@,
                    fields: fields@,
                    chars: chars@,
                    bytes: bytes@,
                    out_delim: match out_delim {
                        Some(od) => Some(od@),
                        None => None,
                    },
                    only_delimited: only_delimited,
                    files: views(files@),
                },
            ),
        decreases args@.len() - i,
    {
        let a = args[i].as_str();
        proof {
            assert(vs[i as int] == args@[i as int]@);
            if i + 1 < args.len() {
                assert(vs[i as int + 1] == args@[i as int + 1]@);
            }
        }
        if str_eq(a, "-d") || str_eq(a, "--delimiter") {
            if i + 1 < args.len() {
                delim = args[i + 1].clone();
                i = i + 2;
            } else {
                i = i + 1;
            }
        } else if str_eq(a, "-f") || str_eq(a, "--fields") {
            if i + 1 < args.len() {
                fields = parse_range_list(args[i + 1].as_str());
                i = i + 2;
            } else {
                i = i + 1;
            }
        } else if str_eq(a, "-c") || str_eq(a, "--characters") {
            if i + 1 < args.len() {
                chars = parse_range_list(args[i + 1].as_str());
                i = i + 2;
            } else {
                i = i + 1;
            }
        } else if str_eq(a, "-b") || str_eq(a, "--bytes") {
            if i + 1 < args.len() {
                bytes = parse_range_list(args[i + 1].as_str());
                i = i + 2;
            } else {
                i = i + 1;
            }
        } else if str_eq(a, "--output-delimiter") {
            if i + 1 < args.len() {
                out_delim = Some(args[i + 1].clone());
                i = i + 2;
            } else {
                i = i + 1;
            }
        } else if str_eq(a, "-s") || str_eq(a, "--only-delimited") {
            only_delimited = true;
            i = i + 1;
        } else if str_eq(a, "--complement") {
            i = i + 1;
        } else if !starts_with(a, "-") {
            let ghost prev = files@;
            files.push(args[i].clone());
            proof {
                assert(views(files@) =~= views(prev).push(args@[i as int]@));
            }
            i = i + 1;
        } else {
            i = i + 1;
        }
    }
    (delim, fields, chars, bytes, out_delim, only_delimited, files)
}

/// The substring operations for character or byte positions, executably.
#[verifier::loop_isolation(false)]
fn cut_substrings(pos: &Vec<usize>) -> (r: Vec<String>)
    ensures
        views(r@) == spec_cut_substrings(pos@, 0),
{
    let ghost gpos = pos@;
    let mut ops: Vec<String> = Vec::new();
    proof {
        assert(views(ops@) =~= Seq::<Seq<char>>::empty());
    }
    let mut k: usize = 0;
    while k < pos.len()
        invariant
            k <= gpos.len(),
            views(ops@) + spec_cut_substrings(gpos, k as int) =~= spec_cut_substrings(gpos, 0),
        decreases gpos.len() - k,
    {
        let p = pos[k];
        if p > 0 {
            let ghost prev = ops@;
            let mut s: String = "($line | str substring ".to_owned();
            s.append(usize_to_dec(p - 1).as_str());
            s.append("..");
            s.append(usize_to_dec(p).as_str());
            s.append(")");
            ops.push(s);
            proof {
                assert(views(ops@) =~= views(prev).push(ops@[prev.len() as int]@));
            }
        }
        k = k + 1;
    }
    proof {
        assert(spec_cut_substrings(gpos, gpos.len() as int) =~= Seq::<Seq<char>>::empty());
        assert(views(ops@) + Seq::<Seq<char>>::empty() =~= views(ops@));
    }
    ops
}

impl CommandConverter for CutConverter {
    open spec fn spec_convert(&self, vs: Seq<Seq<char>>) -> Seq<char> {
        spec_convert_cut(vs)
    }

    open spec fn spec_name(&self) -> Seq<char> {
        "cut"@
    }

    #[verifier::loop_isolation(false)]
    #[verifier::rlimit(100)]
    fn convert(&self, args: &[String]) -> (r: Result<String, ConvertError>) {
        let ghost vs = views(args@);
        if args.len() == 0 {
            return Ok("cut".to_owned());
        }
        let (delim, fields, chars, bytes, out_delim, only_delimited, files) = cut_scan(args);
        let ghost st = spec_cut_scan(vs, 0, spec_cut_init());
        let ghost gfiles = views(files@);
        let mut out: String;
        if files.len() == 0 {
            out = "lines".to_owned();
        } else if files.len() == 1 {
            proof {
                assert(gfiles[0] == files@[0]@);
            }
            out = "open ".to_owned();
            out.append(quote_literal(files[0].as_str()).as_str());
            out.append(" | lines");
        } else {
            out = "ls ".to_owned();
            let quoted = quote_words_vec(&files);
            let joined = join_with(&quoted, " ");
            out.append(joined.as_str());
            out.append(" | each { |file| open $file.name | lines }");
        }
        proof {
            assert(out@ == spec_cut_opening(st.files));
        }
        if fields.len() > 0 {
            out.append(" | each { |line| $line | ");
            if str_eq(delim.as_str(), "\t") {
                out.append("split row \"\\t\"");
            } else if str_eq(delim.as_str(), " ") {
                out.append("split row \" \"");
            } else {
                out.append("split row ");
                out.append(quote_literal(delim.as_str()).as_str());
            }
            out.append(" | select ");
            let ghost gfieldidx = spec_cut_indices(st.fields);
            let mut idx: Vec<String> = Vec::new();
            let mut k: usize = 0;
            while k < fields.len()
                invariant
                    k <= fields@.len(),
                    fields@ == st.fields,
                    views(idx@) =~= spec_cut_indices(st.fields).take(k as int),
                decreases fields@.len() - k,
            {
                let ghost prev = idx@;
                let f = fields[k];
                if f > 0 {
                    idx.push(usize_to_dec(f - 1));
                } else {
                    idx.push(usize_to_dec(0));
                }
                proof {
                    assert forall|j: int| 0 <= j < k + 1 implies views(idx@)[j]
                        == spec_cut_indices(st.fields).take(k as int + 1)[j] by {
                        assert(views(idx@)[j] == idx@[j]@);
                        if j < k {
                            assert(views(prev)[j] == prev[j]@);
                        }
                    }
                    assert(views(idx@) =~= spec_cut_indices(st.fields).take(k as int + 1));
                }
                k = k + 1;
            }
            proof {
                assert(spec_cut_indices(st.fields).take(fields@.len() as int) =~= spec_cut_indices(
                    st.fields,
                ));
            }
            let joined = join_with(&idx, " ");
            out.append(joined.as_str());
            match &out_delim {
                Some(od) => {
                    out.append(" | str join ");
                    out.append(quote_literal(od.as_str()).as_str());
                },
                None => {
                    if !str_eq(delim.as_str(), "\t") {
                        out.append(" | str join ");
                        out.append(quote_literal(delim.as_str()).as_str());
                    } else {
                        out.append(" | str join \"\\t\"");
                    }
                },
            }
            out.append(" }");
            if only_delimited {
                out.append(" | where ($it | str contains ");
                out.append(quote_literal(delim.as_str()).as_str());
                out.append(")");
            }
            Ok(out)
        } else if chars.len() > 0 || bytes.len() > 0 {
            let ops = if chars.len() > 0 {
                cut_substrings(&chars)
            } else {
                cut_substrings(&bytes)
            };
            if ops.len() == 0 {
                out.append(" | each { |line| $line }");
            } else {
                out.append(" | each { |line| [");
                let joined = join_with(&ops, " ");
                out.append(joined.as_str());
                out.append("] | str join \"\" }");
            }
            Ok(out)
        } else {
            out.append(" # No fields, characters, or bytes specified");
            Ok(out)
        }
    }

    fn command_name(&self) -> (r: &'static str) {
        "cut"
    }

    fn description(&self) -> &'static str {
        "Converts cut commands to target column selection and text processing"
    }
}

} // verus!
