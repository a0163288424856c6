//! `find` converter: maps `find` to listing, filtering and per-entry
//! actions.

use super::CommandConverter;
use crate::plugin::ConvertError;
use crate::quoting::{quote_literal, spec_quote_literal};
use crate::text::{
    chars_to_string, contains_char, i128_to_dec, join_with, parse_i64, parse_usize, replace_all,
    spec_dec, spec_dec_int, spec_join, spec_parse_i64, spec_parse_usize, spec_replace_all,
    spec_starts_with, starts_with, str_eq, trim, spec_trim, usize_to_dec, views,
};
use vstd::prelude::*;

verus! {

/// Converter for the `find` command.
pub struct FindConverter;

/// A glob pattern rewritten as a regular expression: `*` and `?` become
/// their regex forms and a literal dot is escaped.
pub open spec fn spec_glob_regex(s: Seq<char>) -> Seq<char>
    decreases s.len(),
{
    if s.len() == 0 {
        s
    } else {
        let head: Seq<char> = if s[0] == '*' {
            seq!['.', '*']
        } else if s[0] == '?' {
            seq!['.']
        } else if s[0] == '.' {
            seq!['\\', '.']
        } else {
            seq![s[0]]
        };
        head + spec_glob_regex(s.skip(1))
    }
}

proof fn lemma_glob_regex_push(s: Seq<char>, c: char)
    ensures
        spec_glob_regex(s.push(c)) == spec_glob_regex(s) + (if c == '*' {
            seq!['.', '*']
        } else if c == '?' {
            seq!['.']
        } else if c == '.' {
            seq!['\\', '.']
        } else {
            seq![c]
        }),
    decreases s.len(),
{
    let head: Seq<char> = if c == '*' {
        seq!['.', '*']
    } else if c == '?' {
        seq!['.']
    } else if c == '.' {
        seq!['\\', '.']
    } else {
        seq![c]
    };
    if s.len() == 0 {
        assert(s.push(c)[0] == c);
        assert(s.push(c).skip(1) =~= Seq::<char>::empty());
        assert(spec_glob_regex(s.push(c)) == (if s.push(c)[0] == '*' {
            seq!['.', '*']
        } else if s.push(c)[0] == '?' {
            seq!['.']
        } else if s.push(c)[0] == '.' {
            seq!['\\', '.']
        } else {
            seq![s.push(c)[0]]
        }) + spec_glob_regex(s.push(c).skip(1)));
        assert(spec_glob_regex(s.push(c).skip(1)) == Seq::<char>::empty());
        assert(head + Seq::<char>::empty() =~= head);
        assert(spec_glob_regex(s) + head =~= head);
    } else {
        assert(s.push(c)[0] == s[0]);
        assert(s.push(c).skip(1) =~= s.skip(1).push(c));
        lemma_glob_regex_push(s.skip(1), c);
        assert(spec_glob_regex(s.push(c)) =~= spec_glob_regex(s) + head);
    }
}

/// Rewrite a glob pattern as a regular expression, executably.
#[verifier::loop_isolation(false)]
pub fn glob_regex(s: &str) -> (r: String)
    ensures
        r@ == spec_glob_regex(s@),
{
    let n = s.unicode_len();
    let mut out: Vec<char> = Vec::new();
    let mut i: usize = 0;
    while i < n
        invariant
            i <= n,
            out@ == spec_glob_regex(s@.take(i as int)),
        decreases n - i,
    {
        let c = s.get_char(i);
        proof {
            lemma_glob_regex_push(s@.take(i as int), c);
            assert(s@.take(i as int).push(c) =~= s@.take(i as int + 1));
        }
        if c == '*' {
            out.push('.');
            out.push('*');
        } else if c == '?' {
            out.push('.');
        } else if c == '.' {
            out.push('\\');
            out.push('.');
        } else {
            out.push(c);
        }
        i = i + 1;
    }
    proof {
        assert(s@.take(n as int) =~= s@);
    }
    chars_to_string(&out)
}

/// The byte multiplier of one size suffix.
pub open spec fn spec_size_multiplier(u: char) -> int {
    if u == 'k' || u == 'K' {
        1024
    } else if u == 'm' || u == 'M' {
        1048576
    } else if u == 'g' || u == 'G' {
        1073741824
    } else if u == 't' || u == 'T' {
        1099511627776
    } else if u == 'c' || u == 'C' {
        1
    } else if u == 'w' || u == 'W' {
        2
    } else if u == 'b' || u == 'B' {
        512
    } else {
        1
    }
}

/// The byte count described by a size value such as `1M` or `500b`,
/// rendered in decimal; an unreadable number counts as zero.
pub open spec fn spec_parse_size_value(s: Seq<char>) -> Seq<char> {
    let t = spec_trim(s);
    if t.len() == 0 {
        "0"@
    } else {
        let (num, mult): (Seq<char>, int) = if crate::text::spec_char_digit(t[t.len() - 1]) >= 0 {
            (t, 1)
        } else {
            (t.take(t.len() - 1), spec_size_multiplier(t[t.len() - 1]))
        };
        let n: int = match spec_parse_i64(num) {
            Some(v) => v as int,
            None => 0,
        };
        spec_dec_int(n * mult)
    }
}

/// Parse a size value such as `1M` into its decimal byte count.
#[verifier::rlimit(100)]
pub fn parse_size_value(size_str: &str) -> (r: String)
    ensures
        r@ == spec_parse_size_value(size_str@),
{
    let t = trim(size_str);
    let n = t.unicode_len();
    if n == 0 {
        return "0".to_owned();
    }
    let last = t.get_char(n - 1);
    let digit = last == '0' || last == '1' || last == '2' || last == '3' || last == '4' || last
        == '5' || last == '6' || last == '7' || last == '8' || last == '9';
    let (numpart, mult): (&str, i64) = if digit {
        (t, 1)
    } else {
        let m: i64 = if last == 'k' || last == 'K' {
            1024
        } else if last == 'm' || last == 'M' {
            1048576
        } else if last == 'g' || last == 'G' {
            1073741824
        } else if last == 't' || last == 'T' {
            1099511627776
        } else if last == 'c' || last == 'C' {
            1
        } else if last == 'w' || last == 'W' {
            2
        } else if last == 'b' || last == 'B' {
            512
        } else {
            1
        };
        (t.substring_char(0, n - 1), m)
    };
    proof {
        if !digit {
            assert(numpart@ =~= t@.take(t@.len() - 1));
        }
    }
    let value: i64 = match parse_i64(numpart) {
        Some(v) => v,
        None => 0,
    };
    let product: i128 = (value as i128) * (mult as i128);
    proof {
        assert(product == value as int * mult as int);
    }
    i128_to_dec(product)
}

/// The flag state gathered while scanning `find` arguments.
pub struct FindScan {
    pub path: Seq<char>,
    pub name_pattern: Seq<char>,
    pub file_type: Seq<char>,
    pub exec_command: Seq<char>,
    pub print_action: bool,
    pub max_depth: Option<usize>,
    pub size_filter: Seq<char>,
    pub time_filter: Seq<char>,
    pub perm_filter: Seq<char>,
}

pub open spec fn spec_find_init() -> FindScan {
    FindScan {
        path: "."@,
        name_pattern: Seq::empty(),
        file_type: Seq::empty(),
        exec_command: Seq::empty(),
        print_action: true,
        max_depth: None,
        size_filter: Seq::empty(),
        time_filter: Seq::empty(),
        perm_filter: Seq::empty(),
    }
}

/// Collects the words of an `-exec` action up to the terminating semicolon;
/// yields the index after the semicolon and the collected words.
pub open spec fn spec_find_exec(vs: Seq<Seq<char>>, j: int, acc: Seq<Seq<char>>) -> (
    int,
    Seq<Seq<char>>,
)
    decreases vs.len() - j,
{
    if j < 0 || j >= vs.len() {
        (j, acc)
    } else if vs[j] == ";"@ || vs[j] == "\\;"@ {
        (j + 1, acc)
    } else {
        spec_find_exec(vs, j + 1, acc.push(vs[j]))
    }
}

pub open spec fn spec_find_scan(vs: Seq<Seq<char>>, i: int, st: FindScan) -> FindScan
    decreases vs.len() - i,
{
    if i < 0 || i >= vs.len() {
        st
    } else if vs[i] == "-name"@ {
        if i + 1 < vs.len() {
            spec_find_scan(vs, i + 2, FindScan { name_pattern: vs[i + 1], ..st })
        } else {
            spec_find_scan(vs, i + 1, st)
        }
    } else if vs[i] == "-type"@ {
        if i + 1 < vs.len() {
            spec_find_scan(vs, i + 2, FindScan { file_type: vs[i + 1], ..st })
        } else {
            spec_find_scan(vs, i + 1, st)
        }
    } else if vs[i] == "-exec"@ {
        let (nj, parts) = spec_find_exec(vs, i + 1, Seq::empty());
        let ni: int = if nj < i + 1 {
            i + 1
        } else if nj > vs.len() {
            vs.len() as int
        } else {
            nj
        };
        if parts.len() > 0 {
            spec_find_scan(
                vs,
                ni,
                FindScan { exec_command: spec_join(parts, " "@), print_action: false, ..st },
            )
        } else {
            spec_find_scan(vs, ni, st)
        }
    } else if vs[i] == "-print"@ || vs[i] == "-print0"@ {
        spec_find_scan(vs, i + 1, FindScan { print_action: true, ..st })
    } else if vs[i] == "-maxdepth"@ {
        if i + 1 < vs.len() {
            spec_find_scan(vs, i + 2, FindScan { max_depth: spec_parse_usize(vs[i + 1]), ..st })
        } else {
            spec_find_scan(vs, i + 1, st)
        }
    } else if vs[i] == "-mindepth"@ {
        if i + 1 < vs.len() {
            spec_find_scan(vs, i + 2, st)
        } else {
            spec_find_scan(vs, i + 1, st)
        }
    } else if vs[i] == "-size"@ {
        if i + 1 < vs.len() {
            spec_find_scan(vs, i + 2, FindScan { size_filter: vs[i + 1], ..st })
        } else {
            spec_find_scan(vs, i + 1, st)
        }
    } else if vs[i] == "-newer"@ || vs[i] == "-newermt"@ || vs[i] == "-mtime"@ || vs[i] == "-atime"@
        || vs[i] == "-ctime"@ {
        if i + 1 < vs.len() {
            spec_find_scan(
                vs,
                i + 2,
                FindScan { time_filter: vs[i] + " "@ + vs[i + 1], ..st },
            )
        } else {
            spec_find_scan(vs, i + 1, st)
        }
    } else if vs[i] == "-perm"@ {
        if i + 1 < vs.len() {
            spec_find_scan(vs, i + 2, FindScan { perm_filter: vs[i + 1], ..st })
        } else {
            spec_find_scan(vs, i + 1, st)
        }
    } else if vs[i] == "-delete"@ {
        spec_find_scan(vs, i + 1, FindScan { exec_command: "rm"@, print_action: false, ..st })
    } else if !spec_starts_with(vs[i], "-"@) {
        spec_find_scan(vs, i + 1, FindScan { path: vs[i], ..st })
    } else {
        spec_find_scan(vs, i + 1, st)
    }
}

/// The filter conditions, in their fixed order.
pub open spec fn spec_find_filters(st: FindScan) -> Seq<Seq<char>> {
    (if st.name_pattern.len() > 0 {
        if st.name_pattern.contains('*') || st.name_pattern.contains('?') {
            seq!["name =~ "@ + spec_quote_literal(spec_glob_regex(st.name_pattern))]
        } else {
            seq!["name == "@ + spec_quote_literal(st.name_pattern)]
        }
    } else {
        Seq::<Seq<char>>::empty()
    }) + (if st.file_type.len() > 0 {
        seq![
            if st.file_type == "f"@ {
                "type == \"file\""@
            } else if st.file_type == "d"@ {
                "type == \"dir\""@
            } else if st.file_type == "l"@ {
                "type == \"symlink\""@
            } else if st.file_type == "b"@ {
                "type == \"block\""@
            } else if st.file_type == "c"@ {
                "type == \"char\""@
            } else if st.file_type == "p"@ {
                "type == \"fifo\""@
            } else if st.file_type == "s"@ {
                "type == \"socket\""@
            } else {
                "type == \"unknown\""@
            },
        ]
    } else {
        Seq::<Seq<char>>::empty()
    }) + (if st.size_filter.len() > 0 {
        seq![
            if st.size_filter[0] == '+' {
                "size > "@ + spec_parse_size_value(st.size_filter.skip(1))
            } else if st.size_filter[0] == '-' {
                "size < "@ + spec_parse_size_value(st.size_filter.skip(1))
            } else {
                "size == "@ + spec_parse_size_value(st.size_filter)
            },
        ]
    } else {
        Seq::<Seq<char>>::empty()
    }) + (if st.time_filter.len() > 0 {
        seq!["# time filter: "@ + st.time_filter]
    } else {
        Seq::<Seq<char>>::empty()
    }) + (if st.perm_filter.len() > 0 {
        seq!["# permission filter: "@ + st.perm_filter]
    } else {
        Seq::<Seq<char>>::empty()
    })
}

/// The exact text produced for `find` with the given arguments.
pub open spec fn spec_convert_find(vs: Seq<Seq<char>>) -> Seq<char> {
    if vs.len() == 0 {
        "find"@
    } else {
        let st = spec_find_scan(vs, 0, spec_find_init());
        let base: Seq<char> = if st.path == "."@ {
            "ls"@
        } else {
            "ls "@ + spec_quote_literal(st.path)
        };
        let recursive: Seq<char> = if st.max_depth is None || st.max_depth->0 > 1 {
            base + "/**/*"@
        } else {
            base
        };
        let depthed: Seq<char> = match st.max_depth {
            Some(m) => if m == 1 {
                spec_replace_all(recursive, "/**/*"@, "/*"@)
            } else if m > 1 {
                recursive + " # max depth "@ + spec_dec(m as int)
            } else {
                recursive
            },
            None => recursive,
        };
        let filters = spec_find_filters(st);
        let filtered: Seq<char> = if filters.len() > 0 {
            depthed + " | where "@ + spec_join(filters, " and "@)
        } else {
            depthed
        };
        if st.exec_command == "rm"@ {
            filtered + " | each { |file| rm $file.name }"@
        } else if st.exec_command.len() > 0 {
            filtered + " | each { |file| "@ + spec_replace_all(
                st.exec_command,
                "{}"@,
                "$file.name"@,
            ) + " }"@
        } else if st.print_action && filters.len() > 0 {
            filtered + " | get name"@
        } else {
            filtered
        }
    }
}

/// Scan the arguments of `find` into its flag state.
#[verifier::loop_isolation(false)]
#[verifier::rlimit(100)]
fn find_scan(args: &[String]) -> (r: (
    String,
    String,
    String,
    String,
    bool,
    Option<usize>,
    String,
    String,
    String,
))
    ensures
        spec_find_scan(views(args@), 0, spec_find_init()) == (FindScan {
            path: r.0@,
            name_pattern: r.1@,
            file_type: r.2@,
            exec_command: r.3@,
            print_action: r.4,
            max_depth: r.5,
            size_filter: r.6@,
            time_filter: r.7@,
            perm_filter: r.8@,
        }),
{
    let ghost vs = views(args@);
    let mut path: String = ".".to_owned();
    let mut name_pattern: String = String::new();
    let mut file_type: String = String::new();
    let mut exec_command: String = String::new();
    let mut print_action = true;
    let mut max_depth: Option<usize> = None;
    let mut size_filter: String = String::new();
    let mut time_filter: String = String::new();
    let mut perm_filter: String = String::new();
    proof {
        assert(name_pattern@ =~= Seq::<char>::empty());
        assert(file_type@ =~= Seq::<char>::empty());
        assert(exec_command@ =~= Seq::<char>::empty());
        assert(size_filter@ =~= Seq::<char>::empty());
        assert(time_filter@ =~= Seq::<char>::empty());
        assert(perm_filter@ =~= Seq::<char>::empty());
    }
    let mut i: usize = 0;
    while i < args.len()
        invariant
            i <= args@.len(),
            spec_find_scan(vs, 0, spec_find_init()) == spec_find_scan(
                vs,
                i as int,
                FindScan {
                    path: path@,
                    name_pattern: name_pattern@,
                    file_type: file_type@,
                    exec_command: exec_command@,
                    print_action: print_action,
                    max_depth: max_depth,
                    size_filter: size_filter@,
                    time_filter: time_filter@,
                    perm_filter: perm_filter@,
                },
            ),
        decreases args@.len() - i,
    {
        let a = args[i].as_str();
        proof {
            assert(vs[i as int] == args@[i as int]@);
            if i + 1 < args.len() {
                assert(vs[i as int + 1] == args@[i as int + 1]@);
            }
        }
        if str_eq(a, "-name") {
            if i + 1 < args.len() {
                name_pattern = args[i + 1].clone();
                i = i + 2;
            } else {
                i = i + 1;
            }
        } else if str_eq(a, "-type") {
            if i + 1 < args.len() {
                file_type = args[i + 1].clone();
                i = i + 2;
            } else {
                i = i + 1;
            }
        } else if str_eq(a, "-exec") {
            let mut parts: Vec<String> = Vec::new();
            let mut j: usize = i + 1;
            proof {
                assert(views(parts@) =~= Seq::<Seq<char>>::empty());
            }
            while j < args.len() && !str_eq(args[j].as_str(), ";") && !str_eq(
                args[j].as_str(),
                "\\;",
            )
                invariant
                    i + 1 <= j <= args@.len(),
                    spec_find_exec(vs, i + 1, Seq::empty()) == spec_find_exec(
                        vs,
                        j as int,
                        views(parts@),
                    ),
                decreases args@.len() - j,
            {
                let ghost prev = parts@;
                parts.push(args[j].clone());
                proof {
                    assert(vs[j as int] == args@[j as int]@);
                    assert(views(parts@) =~= views(prev).push(args@[j as int]@));
                }
                j = j + 1;
            }
            proof {
                if j < args.len() {
                    assert(vs[j as int] == args@[j as int]@);
                }
            }
            let nj: usize = if j < args.len() {
                j + 1
            } else {
                j
            };
            if parts.len() > 0 {
                proof {
                    reveal_strlit(" ");
                    assert(" "@ =~= seq![' ']);
                }
                exec_command = join_with(&parts, " ");
                print_action = false;
            }
            i = nj;
        } else if str_eq(a, "-print") || str_eq(a, "-print0") {
            print_action = true;
            i = i + 1;
        } else if str_eq(a, "-maxdepth") {
            if i + 1 < args.len() {
                max_depth = parse_usize(args[i + 1].as_str());
                i = i + 2;
            } else {
                i = i + 1;
            }
        } else if str_eq(a, "-mindepth") {
            if i + 1 < args.len() {
                i = i + 2;
            } else {
                i = i + 1;
            }
        } else if str_eq(a, "-size") {
            if i + 1 < args.len() {
                size_filter = args[i + 1].clone();
                i = i + 2;
            } else {
                i = i + 1;
            }
        } else if str_eq(a, "-newer") || str_eq(a, "-newermt") || str_eq(a, "-mtime") || str_eq(
            a,
            "-atime",
        ) || str_eq(a, "-ctime") {
            if i + 1 < args.len() {
                let mut t: String = args[i].clone();
                t.append(" ");
                t.append(args[i + 1].as_str());
                time_filter = t;
                i = i + 2;
            } else {
                i = i + 1;
            }
        } else if str_eq(a, "-perm") {
            if i + 1 < args.len() {
                perm_filter = args[i + 1].clone();
                i = i + 2;
            } else {
                i = i + 1;
            }
        } else if str_eq(a, "-delete") {
            exec_command = "rm".to_owned();
            print_action = false;
            i = i + 1;
        } else if !starts_with(a, "-") {
            path = args[i].clone();
            i = i + 1;
        } else {
            i = i + 1;
        }
    }
    (
        path,
        name_pattern,
        file_type,
        exec_command,
        print_action,
        max_depth,
        size_filter,
        time_filter,
        perm_filter,
    )
}

/// The filter conditions, executably.
#[verifier::loop_isolation(false)]
#[verifier::rlimit(100)]
fn find_filters(
    name_pattern: &String,
    file_type: &String,
    size_filter: &String,
    time_filter: &String,
    perm_filter: &String,
    Ghost(st): Ghost<FindScan>,
) -> (r: Vec<String>)
    requires
        st.name_pattern == name_pattern@,
        st.file_type == file_type@,
        st.size_filter == size_filter@,
        st.time_filter == time_filter@,
        st.perm_filter == perm_filter@,
    ensures
        views(r@) == spec_find_filters(st),
{
    let mut filters: Vec<String> = Vec::new();
    if name_pattern.as_str().unicode_len() > 0 {
        if contains_char(name_pattern.as_str(), '*') || contains_char(name_pattern.as_str(), '?') {
            let mut f: String = "name =~ ".to_owned();
            let rex = glob_regex(name_pattern.as_str());
            f.append(quote_literal(rex.as_str()).as_str());
            filters.push(f);
        } else {
            let mut f: String = "name == ".to_owned();
            f.append(quote_literal(name_pattern.as_str()).as_str());
            filters.push(f);
        }
    }
    if file_type.as_str().unicode_len() > 0 {
        let t = file_type.as_str();
        if str_eq(t, "f") {
            filters.push("type == \"file\"".to_owned());
        } else if str_eq(t, "d") {
            filters.push("type == \"dir\"".to_owned());
        } else if str_eq(t, "l") {
            filters.push("type == \"symlink\"".to_owned());
        } else if str_eq(t, "b") {
            filters.push("type == \"block\"".to_owned());
        } else if str_eq(t, "c") {
            filters.push("type == \"char\"".to_owned());
        } else if str_eq(t, "p") {
            filters.push("type == \"fifo\"".to_owned());
        } else if str_eq(t, "s") {
            filters.push("type == \"socket\"".to_owned());
        } else {
            filters.push("type == \"unknown\"".to_owned());
        }
    }
    if size_filter.as_str().unicode_len() > 0 {
        let sf = size_filter.as_str();
        let n = sf.unicode_len();
        let c0 = sf.get_char(0);
        if c0 == '+' {
            let mut f: String = "size > ".to_owned();
            let rest = sf.substring_char(1, n);
            proof {
                assert(rest@ =~= size_filter@.skip(1));
            }
            f.append(parse_size_value(rest).as_str());
            filters.push(f);
        } else if c0 == '-' {
            let mut f: String = "size < ".to_owned();
            let rest = sf.substring_char(1, n);
            proof {
                assert(rest@ =~= size_filter@.skip(1));
            }
            f.append(parse_size_value(rest).as_str());
            filters.push(f);
        } else {
            let mut f: String = "size == ".to_owned();
            f.append(parse_size_value(sf).as_str());
            filters.push(f);
        }
    }
    if time_filter.as_str().unicode_len() > 0 {
        let mut f: String = "# time filter: ".to_owned();
        f.append(time_filter.as_str());
        filters.push(f);
    }
    if perm_filter.as_str().unicode_len() > 0 {
        let mut f: String = "# permission filter: ".to_owned();
        f.append(perm_filter.as_str());
        filters.push(f);
    }
    proof {
        assert(views(filters@) =~= spec_find_filters(st));
    }
    filters
}

impl CommandConverter for FindConverter {
    open spec fn spec_convert(&self, vs: Seq<Seq<char>>) -> Seq<char> {
        spec_convert_find(vs)
    }

    open spec fn spec_name(&self) -> Seq<char> {
        "find"@
    }

    #[verifier::loop_isolation(false)]
    #[verifier::rlimit(100)]
    fn convert(&self, args: &[String]) -> (r: Result<String, ConvertError>) {
        let ghost vs = views(args@);
        if args.len() == 0 {
            return Ok("find".to_owned());
        }
        let (path, name_pattern, file_type, exec_command, print_action, max_depth, size_filter,
            time_filter, perm_filter) = find_scan(args);
        let ghost st = spec_find_scan(vs, 0, spec_find_init());
        let mut out: String;
        if str_eq(path.as_str(), ".") {
            out = "ls".to_owned();
        } else {
            out = "ls ".to_owned();
            out.append(quote_literal(path.as_str()).as_str());
        }
        let deep = match max_depth {
            Some(m) => m > 1,
            None => true,
        };
        if deep {
            out.append("/**/*");
        }
        match max_depth {
            Some(m) => {
                if m == 1 {
                    out = replace_all(out.as_str(), "/**/*", "/*");
                } else if m > 1 {
                    out.append(" # max depth ");
                    out.append(usize_to_dec(m).as_str());
                }
            },
            None => {},
        }
        let filters = find_filters(
            &name_pattern,
            &file_type,
            &size_filter,
            &time_filter,
            &perm_filter,
            Ghost(st),
        );
        if filters.len() > 0 {
            out.append(" | where ");
            let joined = join_with(&filters, " and ");
            out.append(joined.as_str());
        }
        if str_eq(exec_command.as_str(), "rm") {
            out.append(" | each { |file| rm $file.name }");
        } else if exec_command.as_str().unicode_len() > 0 {
            out.append(" | each { |file| ");
            let replaced = replace_all(exec_command.as_str(), "{}", "$file.name");
            out.append(replaced.as_str());
            out.append(" }");
        } else if print_action && filters.len() > 0 {
            out.append(" | get name");
        }
        Ok(out)
    }

    fn command_name(&self) -> (r: &'static str) {
        "find"
    }

    fn description(&self) -> &'static str {
        "Converts find commands to target listing and filtering operations"
    }
}

} // verus!
