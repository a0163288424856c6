//! `sed` converter: parses a sed script into address/command/argument
//! triples and maps each command letter to a per-line text operation.

use super::CommandConverter;
use crate::plugin::ConvertError;
use crate::quoting::{quote_literal, quote_word, quote_words_vec, spec_quote_literal, spec_quote_word, spec_quoted_words};
use crate::text::{
    chars_to_string, contains_char, index_of_char, join_with, parse_usize, spec_dec, spec_index_of,
    spec_join, spec_parse_usize, spec_split_char, spec_starts_with, spec_trim, split_char,
    starts_with, str_eq, trim, usize_to_dec, views,
};
use vstd::prelude::*;

verus! {

/// One parsed sed command: an address, a command letter, and its arguments.
pub struct SedCommand {
    pub address: String,
    pub command: char,
    pub arguments: String,
}

/// The ghost view of a parsed sed command.
pub struct SedCmdV {
    pub address: Seq<char>,
    pub command: char,
    pub arguments: Seq<char>,
}

/// Whether a character is one of the sed command letters.
pub open spec fn spec_sed_letter(c: char) -> bool {
    c == 's' || c == 'd' || c == 'p' || c == 'q' || c == 'n' || c == 'N' || c == 'h' || c == 'H'
        || c == 'g' || c == 'G' || c == 'x' || c == 'l' || c == '=' || c == 'a' || c == 'i' || c
        == 'c' || c == 'r' || c == 'w' || c == 'y' || c == 'b' || c == 't' || c == 'T'
}

/// Index of the first sed command letter of `s`, or `-1`.
pub open spec fn spec_first_letter(s: Seq<char>) -> int
    decreases s.len(),
{
    if s.len() == 0 {
        -1
    } else if spec_sed_letter(s[0]) {
        0
    } else {
        let r = spec_first_letter(s.skip(1));
        if r < 0 {
            -1
        } else {
            r + 1
        }
    }
}

proof fn lemma_first_letter_at(s: Seq<char>, i: int)
    requires
        0 <= i < s.len(),
        spec_sed_letter(s[i]),
        forall|k: int| 0 <= k < i ==> !spec_sed_letter(#[trigger] s[k]),
    ensures
        spec_first_letter(s) == i,
    decreases i,
{
    if i == 0 {
    } else {
        assert(!spec_sed_letter(s[0]));
        assert(s.skip(1)[i - 1] == s[i]);
        assert forall|k: int| 0 <= k < i - 1 implies !spec_sed_letter(#[trigger] s.skip(1)[k]) by {
            assert(s.skip(1)[k] == s[k + 1]);
        }
        lemma_first_letter_at(s.skip(1), i - 1);
    }
}

proof fn lemma_first_letter_missing(s: Seq<char>)
    requires
        forall|k: int| 0 <= k < s.len() ==> !spec_sed_letter(#[trigger] s[k]),
    ensures
        spec_first_letter(s) == -1,
    decreases s.len(),
{
    if s.len() > 0 {
        assert forall|k: int| 0 <= k < s.skip(1).len() implies !spec_sed_letter(
            #[trigger] s.skip(1)[k],
        ) by {
            assert(s.skip(1)[k] == s[k + 1]);
        }
        lemma_first_letter_missing(s.skip(1));
    }
}

/// The parsed form of one script segment, if it holds a command letter.
pub open spec fn spec_parse_single(segment: Seq<char>) -> Option<SedCmdV> {
    let t = spec_trim(segment);
    if t.len() == 0 {
        None
    } else {
        let i = spec_first_letter(t);
        if i < 0 {
            None
        } else {
            Some(
                SedCmdV {
                    address: spec_trim(t.take(i)),
                    command: t[i],
                    arguments: spec_trim(t.skip(i + 1)),
                },
            )
        }
    }
}

/// The `;`-separated segments of a script, tracking brace depth.
pub open spec fn spec_sed_segments(
    s: Seq<char>,
    i: int,
    depth: int,
    cur: Seq<char>,
    acc: Seq<Seq<char>>,
) -> Seq<Seq<char>>
    decreases s.len() - i,
{
    if i < 0 || i >= s.len() {
        acc.push(cur)
    } else if s[i] == ';' && depth == 0 {
        spec_sed_segments(s, i + 1, 0, Seq::empty(), acc.push(cur))
    } else if s[i] == '{' {
        spec_sed_segments(s, i + 1, depth + 1, cur.push(s[i]), acc)
    } else if s[i] == '}' {
        spec_sed_segments(s, i + 1, depth - 1, cur.push(s[i]), acc)
    } else {
        spec_sed_segments(s, i + 1, depth, cur.push(s[i]), acc)
    }
}

/// The parsed commands of the segments, keeping only those that parse.
pub open spec fn spec_sed_cmds(segs: Seq<Seq<char>>, i: int, acc: Seq<SedCmdV>) -> Seq<SedCmdV>
    decreases segs.len() - i,
{
    if i < 0 || i >= segs.len() {
        acc
    } else {
        match spec_parse_single(segs[i]) {
            Some(c) => spec_sed_cmds(segs, i + 1, acc.push(c)),
            None => spec_sed_cmds(segs, i + 1, acc),
        }
    }
}

/// The parsed commands of a whole sed script.
pub open spec fn spec_parse_sed_script(s: Seq<char>) -> Seq<SedCmdV> {
    spec_sed_cmds(spec_sed_segments(s, 0, 0, Seq::empty(), Seq::empty()), 0, Seq::empty())
}

/// Whether an executable command mirrors its ghost view.
pub open spec fn sed_cmd_matches(c: SedCommand, v: SedCmdV) -> bool {
    c.address@ == v.address && c.command == v.command && c.arguments@ == v.arguments
}

/// Whether a character is a sed command letter, executably.
fn is_sed_letter(c: char) -> (r: bool)
    ensures
        r == spec_sed_letter(c),
{
    c == 's' || c == 'd' || c == 'p' || c == 'q' || c == 'n' || c == 'N' || c == 'h' || c == 'H'
        || c == 'g' || c == 'G' || c == 'x' || c == 'l' || c == '=' || c == 'a' || c == 'i' || c
        == 'c' || c == 'r' || c == 'w' || c == 'y' || c == 'b' || c == 't' || c == 'T'
}

/// Parse a single sed command from one script segment.
#[verifier::loop_isolation(false)]
#[verifier::rlimit(100)]
pub fn parse_single_sed_command(command_str: &str) -> (r: Option<SedCommand>)
    ensures
        match (r, spec_parse_single(command_str@)) {
            (Some(c), Some(v)) => sed_cmd_matches(c, v),
            (None, None) => true,
            _ => false,
        },
{
    let t = trim(command_str);
    let n = t.unicode_len();
    if n == 0 {
        return None;
    }
    let mut i: usize = 0;
    while i < n && !is_sed_letter(t.get_char(i))
        invariant
            i <= n,
            forall|k: int| 0 <= k < i ==> !spec_sed_letter(#[trigger] t@[k]),
        decreases n - i,
    {
        i = i + 1;
    }
    if i == n {
        proof {
            lemma_first_letter_missing(t@);
        }
        return None;
    }
    proof {
        lemma_first_letter_at(t@, i as int);
    }
    let address = trim(t.substring_char(0, i)).to_owned();
    let command = t.get_char(i);
    let arguments = trim(t.substring_char(i + 1, n)).to_owned();
    proof {
        assert(t@.subrange(0, i as int) =~= t@.take(i as int));
        assert(t@.subrange(i as int + 1, n as int) =~= t@.skip(i as int + 1));
    }
    Some(SedCommand { address, command, arguments })
}

/// Split a sed script into commands at top-level `;` boundaries.
#[verifier::loop_isolation(false)]
#[verifier::rlimit(100)]
pub fn parse_sed_script(script: &str) -> (r: Vec<SedCommand>)
    ensures
        ({
            let g = spec_parse_sed_script(script@);
            r@.len() == g.len() && forall|k: int|
                0 <= k < g.len() ==> sed_cmd_matches(#[trigger] r@[k], g[k])
        }),
{
    let ghost s = script@;
    let n = script.unicode_len();
    let mut segs: Vec<String> = Vec::new();
    let mut cur: Vec<char> = Vec::new();
    let mut depth: i128 = 0;
    proof {
        assert(views(segs@) =~= Seq::<Seq<char>>::empty());
        assert(cur@ =~= Seq::<char>::empty());
    }
    let mut i: usize = 0;
    while i < n
        invariant
            i <= n,
            n == s.len(),
            -(i as int) <= depth as int <= i as int,
            spec_sed_segments(s, 0, 0, Seq::empty(), Seq::empty()) == spec_sed_segments(
                s,
                i as int,
                depth as int,
                cur@,
                views(segs@),
            ),
        decreases n - i,
    {
        let c = script.get_char(i);
        if c == ';' && depth == 0 {
            let ghost prev = segs@;
            segs.push(chars_to_string(&cur));
            cur = Vec::new();
            proof {
                assert(cur@ =~= Seq::<char>::empty());
                assert(views(segs@) =~= views(prev).push(segs@[prev.len() as int]@));
            }
        } else if c == '{' {
            depth = depth + 1;
            cur.push(c);
        } else if c == '}' {
            depth = depth - 1;
            cur.push(c);
        } else {
            cur.push(c);
        }
        i = i + 1;
    }
    let ghost prev = segs@;
    segs.push(chars_to_string(&cur));
    proof {
        assert(views(segs@) =~= views(prev).push(segs@[prev.len() as int]@));
    }
    let ghost gsegs = spec_sed_segments(s, 0, 0, Seq::empty(), Seq::empty());
    proof {
        assert(views(segs@) == gsegs);
    }
    let mut cmds: Vec<SedCommand> = Vec::new();
    let ghost gacc0: Seq<SedCmdV> = Seq::empty();
    let mut gacc = Ghost(gacc0);
    let mut k: usize = 0;
    while k < segs.len()
        invariant
            k <= segs@.len(),
            gsegs == views(segs@),
            gacc@.len() == cmds@.len(),
            forall|j: int| 0 <= j < cmds@.len() ==> sed_cmd_matches(#[trigger] cmds@[j], gacc@[j]),
            spec_sed_cmds(gsegs, 0, Seq::empty()) =~= gacc@ + spec_sed_cmds(
                gsegs,
                k as int,
                Seq::empty(),
            ),
        decreases segs@.len() - k,
    {
        proof {
            assert(gsegs[k as int] == segs@[k as int]@);
            lemma_sed_cmds_unfold(gsegs, k as int);
        }
        match parse_single_sed_command(segs[k].as_str()) {
            Some(c) => {
                let ghost gv = spec_parse_single(gsegs[k as int])->0;
                cmds.push(c);
                proof {
                    let prev = gacc@;
                    gacc@ = prev.push(gv);
                    assert(prev + (seq![gv] + spec_sed_cmds(gsegs, k + 1, Seq::empty()))
                        =~= prev.push(gv) + spec_sed_cmds(gsegs, k + 1, Seq::empty()));
                }
            },
            None => {},
        }
        k = k + 1;
    }
    proof {
        assert(spec_sed_cmds(gsegs, segs@.len() as int, Seq::empty()) =~= Seq::<SedCmdV>::empty());
        assert(gacc@ + Seq::<SedCmdV>::empty() =~= gacc@);
    }
    cmds
}

proof fn lemma_sed_cmds_unfold(segs: Seq<Seq<char>>, k: int)
    requires
        0 <= k < segs.len(),
    ensures
        spec_sed_cmds(segs, k, Seq::empty()) == (match spec_parse_single(segs[k]) {
            Some(c) => seq![c] + spec_sed_cmds(segs, k + 1, Seq::empty()),
            None => spec_sed_cmds(segs, k + 1, Seq::empty()),
        }),
{
    match spec_parse_single(segs[k]) {
        Some(c) => {
            lemma_sed_cmds_acc(segs, k + 1, seq![c]);
            assert(Seq::<SedCmdV>::empty().push(c) =~= seq![c]);
        },
        None => {},
    }
}

proof fn lemma_sed_cmds_acc(segs: Seq<Seq<char>>, i: int, acc: Seq<SedCmdV>)
    ensures
        spec_sed_cmds(segs, i, acc) == acc + spec_sed_cmds(segs, i, Seq::empty()),
    decreases segs.len() - i,
{
    if i < 0 || i >= segs.len() {
        assert(acc + Seq::<SedCmdV>::empty() =~= acc);
    } else {
        match spec_parse_single(segs[i]) {
            Some(c) => {
                lemma_sed_cmds_acc(segs, i + 1, acc.push(c));
                lemma_sed_cmds_acc(segs, i + 1, Seq::<SedCmdV>::empty().push(c));
                assert(acc.push(c) =~= acc + seq![c]);
                assert(Seq::<SedCmdV>::empty().push(c) =~= seq![c]);
                assert(acc + seq![c] + spec_sed_cmds(segs, i + 1, Seq::empty()) =~= acc + (seq![c]
                    + spec_sed_cmds(segs, i + 1, Seq::empty())));
            },
            None => {
                lemma_sed_cmds_acc(segs, i + 1, acc);
            },
        }
    }
}

} // verus!

verus! {

/// A parsed substitution: `s DELIM pattern DELIM replacement DELIM flags`.
pub struct SubstituteCommand {
    pub pattern: String,
    pub replacement: String,
    pub global: bool,
    pub print: bool,
    pub write_file: String,
}

/// The ghost view of a parsed substitution.
pub struct SubstV {
    pub pattern: Seq<char>,
    pub replacement: Seq<char>,
    pub global: bool,
    pub print: bool,
    pub write_file: Seq<char>,
}

/// The parsed form of a substitution body, delimited by its first character.
pub open spec fn spec_parse_subst(args: Seq<char>) -> Option<SubstV> {
    if args.len() == 0 {
        None
    } else {
        let d = args[0];
        let parts = spec_split_char(args.skip(1), d);
        if parts.len() < 2 {
            None
        } else {
            let flags: Seq<char> = if parts.len() > 2 {
                parts[2]
            } else {
                Seq::empty()
            };
            let w = spec_index_of(flags, 'w');
            Some(
                SubstV {
                    pattern: parts[0],
                    replacement: parts[1],
                    global: flags.contains('g'),
                    print: flags.contains('p'),
                    write_file: if w >= 0 {
                        spec_trim(flags.skip(w + 1))
                    } else {
                        Seq::empty()
                    },
                },
            )
        }
    }
}

/// Parse a substitution body.
#[verifier::loop_isolation(false)]
#[verifier::rlimit(100)]
pub fn parse_substitute_command(args: &str) -> (r: Option<SubstituteCommand>)
    ensures
        match (r, spec_parse_subst(args@)) {
            (Some(c), Some(v)) => c.pattern@ == v.pattern && c.replacement@ == v.replacement
                && c.global == v.global && c.print == v.print && c.write_file@ == v.write_file,
            (None, None) => true,
            _ => false,
        },
{
    let n = args.unicode_len();
    if n == 0 {
        return None;
    }
    let d = args.get_char(0);
    let rest = args.substring_char(1, n);
    proof {
        assert(rest@ =~= args@.skip(1));
    }
    let parts = split_char(rest, d);
    if parts.len() < 2 {
        return None;
    }
    proof {
        assert(views(parts@)[0] == parts@[0]@);
        assert(views(parts@)[1] == parts@[1]@);
        if parts@.len() > 2 {
            assert(views(parts@)[2] == parts@[2]@);
        }
    }
    let flags: String = if parts.len() > 2 {
        parts[2].clone()
    } else {
        String::new()
    };
    proof {
        if parts@.len() <= 2 {
            assert(flags@ =~= Seq::<char>::empty());
        }
    }
    let fs = flags.as_str();
    let global = contains_char(fs, 'g');
    let print_flag = contains_char(fs, 'p');
    let write_file: String = match index_of_char(fs, 'w') {
        Some(w) => {
            proof {
                crate::text::lemma_index_of_props(flags@, 'w');
            }
            let fn_ = fs.unicode_len();
            let t = trim(fs.substring_char(w + 1, fn_)).to_owned();
            proof {
                assert(flags@.subrange(w + 1, flags@.len() as int) =~= flags@.skip(w + 1));
            }
            t
        },
        None => String::new(),
    };
    proof {
        if spec_index_of(flags@, 'w') < 0 {
            assert(write_file@ =~= Seq::<char>::empty());
        }
    }
    Some(
        SubstituteCommand {
            pattern: parts[0].clone(),
            replacement: parts[1].clone(),
            global,
            print: print_flag,
            write_file,
        },
    )
}

/// A parsed transliteration: `y DELIM from DELIM to DELIM`.
pub struct TransliterateCommand {
    pub from: String,
    pub to: String,
}

/// The parsed form of a transliteration body.
pub open spec fn spec_parse_translit(args: Seq<char>) -> Option<(Seq<char>, Seq<char>)> {
    if args.len() == 0 {
        None
    } else {
        let parts = spec_split_char(args.skip(1), args[0]);
        if parts.len() < 2 {
            None
        } else {
            Some((parts[0], parts[1]))
        }
    }
}

/// Parse a transliteration body.
pub fn parse_transliterate_command(args: &str) -> (r: Option<TransliterateCommand>)
    ensures
        match (r, spec_parse_translit(args@)) {
            (Some(c), Some(v)) => c.from@ == v.0 && c.to@ == v.1,
            (None, None) => true,
            _ => false,
        },
{
    let n = args.unicode_len();
    if n == 0 {
        return None;
    }
    let d = args.get_char(0);
    let rest = args.substring_char(1, n);
    proof {
        assert(rest@ =~= args@.skip(1));
    }
    let parts = split_char(rest, d);
    if parts.len() < 2 {
        return None;
    }
    proof {
        assert(views(parts@)[0] == parts@[0]@);
        assert(views(parts@)[1] == parts@[1]@);
    }
    Some(TransliterateCommand { from: parts[0].clone(), to: parts[1].clone() })
}

/// The line-selection step for one address.
pub open spec fn spec_sed_address(addr: Seq<char>) -> Seq<char> {
    if addr.len() == 0 {
        Seq::empty()
    } else if addr == "$"@ {
        " | last"@
    } else if spec_parse_usize(addr) is Some {
        let v = spec_parse_usize(addr)->0;
        if v > 0 {
            " | nth "@ + spec_dec(v - 1)
        } else {
            Seq::empty()
        }
    } else if addr.contains(',') {
        let parts = spec_split_char(addr, ',');
        if parts.len() == 2 {
            let start: int = match spec_parse_usize(parts[0]) {
                Some(v) => if v > 0 {
                    v - 1
                } else {
                    0
                },
                None => 0,
            };
            if parts[1] == "$"@ {
                " | skip "@ + spec_dec(start)
            } else {
                match spec_parse_usize(parts[1]) {
                    Some(end) => {
                        let count: int = if end as int >= start + 1 {
                            end as int - start - 1
                        } else {
                            0
                        };
                        " | skip "@ + spec_dec(start) + " | first "@ + spec_dec(count + 1)
                    },
                    None => Seq::empty(),
                }
            }
        } else {
            Seq::empty()
        }
    } else if addr.len() >= 2 && addr[0] == '/' && addr[addr.len() - 1] == '/' {
        " | where $it =~ "@ + spec_quote_word(addr.subrange(1, addr.len() - 1))
    } else {
        " # address: "@ + addr
    }
}

/// The per-line operation for one sed command.
pub open spec fn spec_sed_operation(c: SedCmdV) -> Seq<char> {
    if c.command == 's' {
        match spec_parse_subst(c.arguments) {
            Some(sub) => " | each { |line| $line | str replace "@ + spec_quote_literal(sub.pattern)
                + " "@ + spec_quote_literal(sub.replacement) + " }"@ + (if sub.global {
                " # global replacement"@
            } else {
                Seq::<char>::empty()
            }),
            None => " # substitute: "@ + c.arguments,
        }
    } else if c.command == 'd' {
        " | where false"@
    } else if c.command == 'p' {
        " | each { |line| print $line; $line }"@
    } else if c.command == 'q' {
        " | first"@ + (match spec_parse_usize(c.arguments) {
            Some(count) => " "@ + spec_dec(count as int),
            None => Seq::<char>::empty(),
        })
    } else if c.command == 'n' {
        " | skip 1"@
    } else if c.command == 'N' {
        " | window 2 | each { |pair| $pair | str join \"\\n\" }"@
    } else if c.command == 'h' {
        " # hold space operation"@
    } else if c.command == 'H' {
        " # hold space append operation"@
    } else if c.command == 'g' {
        " # get from hold space"@
    } else if c.command == 'G' {
        " # get append from hold space"@
    } else if c.command == 'x' {
        " # exchange with hold space"@
    } else if c.command == 'l' {
        " | each { |line| $line | debug }"@
    } else if c.command == '=' {
        " | enumerate | each { |item| print $item.index; $item.item }"@
    } else if c.command == 'a' {
        " | each { |line| [$line "@ + spec_quote_word(c.arguments) + "] | str join \"\\n\" }"@
    } else if c.command == 'i' {
        " | each { |line| ["@ + spec_quote_word(c.arguments) + " $line] | str join \"\\n\" }"@
    } else if c.command == 'c' {
        " | each { |line| "@ + spec_quote_word(c.arguments) + " }"@
    } else if c.command == 'r' {
        " | each { |line| [$line (open "@ + spec_quote_word(c.arguments)
            + ")] | str join \"\\n\" }"@
    } else if c.command == 'w' {
        " | tee { save "@ + spec_quote_word(c.arguments) + " }"@
    } else if c.command == 'y' {
        match spec_parse_translit(c.arguments) {
            Some(t) => " | each { |line| $line | str replace --all "@ + spec_quote_word(t.0)
                + " "@ + spec_quote_word(t.1) + " }"@,
            None => " # transliterate: "@ + c.arguments,
        }
    } else if c.command == 'b' {
        " # branch: "@ + c.arguments
    } else if c.command == 't' {
        " # test: "@ + c.arguments
    } else if c.command == 'T' {
        " # test not: "@ + c.arguments
    } else {
        " # unknown command: "@ + seq![c.command]
    }
}

/// The full rendering for one sed command.
pub open spec fn spec_sed_one(c: SedCmdV) -> Seq<char> {
    spec_sed_address(c.address) + spec_sed_operation(c)
}

/// The renderings of all commands, in order.
pub open spec fn spec_sed_chain(cmds: Seq<SedCmdV>, i: int) -> Seq<char>
    decreases cmds.len() - i,
{
    if i < 0 || i >= cmds.len() {
        Seq::empty()
    } else {
        spec_sed_one(cmds[i]) + spec_sed_chain(cmds, i + 1)
    }
}

/// The line-selection step, executably.
#[verifier::loop_isolation(false)]
#[verifier::rlimit(100)]
fn sed_address(addr: &String) -> (r: String)
    ensures
        r@ == spec_sed_address(addr@),
{
    let a = addr.as_str();
    let n = a.unicode_len();
    if n == 0 {
        return String::new();
    }
    if str_eq(a, "$") {
        return " | last".to_owned();
    }
    match parse_usize(a) {
        Some(v) => {
            if v > 0 {
                let mut out: String = " | nth ".to_owned();
                out.append(usize_to_dec(v - 1).as_str());
                return out;
            } else {
                return String::new();
            }
        },
        None => {},
    }
    if contains_char(a, ',') {
        let parts = split_char(a, ',');
        if parts.len() == 2 {
            proof {
                assert(views(parts@)[0] == parts@[0]@);
                assert(views(parts@)[1] == parts@[1]@);
            }
            let start: usize = match parse_usize(parts[0].as_str()) {
                Some(v) => if v > 0 {
                    v - 1
                } else {
                    0
                },
                None => 0,
            };
            if str_eq(parts[1].as_str(), "$") {
                let mut out: String = " | skip ".to_owned();
                out.append(usize_to_dec(start).as_str());
                return out;
            }
            match parse_usize(parts[1].as_str()) {
                Some(end) => {
                    let count: usize = if end >= start + 1 {
                        end - start - 1
                    } else {
                        0
                    };
                    let mut out: String = " | skip ".to_owned();
                    out.append(usize_to_dec(start).as_str());
                    out.append(" | first ");
                    out.append(usize_to_dec(count + 1).as_str());
                    return out;
                },
                None => {
                    return String::new();
                },
            }
        } else {
            return String::new();
        }
    }
    if n >= 2 && a.get_char(0) == '/' && a.get_char(n - 1) == '/' {
        let inner = a.substring_char(1, n - 1);
        let mut out: String = " | where $it =~ ".to_owned();
        out.append(quote_word(inner).as_str());
        return out;
    }
    let mut out: String = " # address: ".to_owned();
    out.append(a);
    out
}

/// The per-line operation, executably.
#[verifier::loop_isolation(false)]
#[verifier::rlimit(100)]
fn sed_operation(cmd: &SedCommand, Ghost(v): Ghost<SedCmdV>) -> (r: String)
    requires
        sed_cmd_matches(*cmd, v),
    ensures
        r@ == spec_sed_operation(v),
{
    let c = cmd.command;
    let args = cmd.arguments.as_str();
    if c == 's' {
        match parse_substitute_command(args) {
            Some(sub) => {
                let mut out: String = " | each { |line| $line | str replace ".to_owned();
                out.append(quote_literal(sub.pattern.as_str()).as_str());
                out.append(" ");
                out.append(quote_literal(sub.replacement.as_str()).as_str());
                out.append(" }");
                if sub.global {
                    out.append(" # global replacement");
                }
                out
            },
            None => {
                let mut out: String = " # substitute: ".to_owned();
                out.append(args);
                out
            },
        }
    } else if c == 'd' {
        " | where false".to_owned()
    } else if c == 'p' {
        " | each { |line| print $line; $line }".to_owned()
    } else if c == 'q' {
        let mut out: String = " | first".to_owned();
        match parse_usize(args) {
            Some(count) => {
                out.append(" ");
                out.append(usize_to_dec(count).as_str());
            },
            None => {},
        }
        out
    } else if c == 'n' {
        " | skip 1".to_owned()
    } else if c == 'N' {
        " | window 2 | each { |pair| $pair | str join \"\\n\" }".to_owned()
    } else if c == 'h' {
        " # hold space operation".to_owned()
    } else if c == 'H' {
        " # hold space append operation".to_owned()
    } else if c == 'g' {
        " # get from hold space".to_owned()
    } else if c == 'G' {
        " # get append from hold space".to_owned()
    } else if c == 'x' {
        " # exchange with hold space".to_owned()
    } else if c == 'l' {
        " | each { |line| $line | debug }".to_owned()
    } else if c == '=' {
        " | enumerate | each { |item| print $item.index; $item.item }".to_owned()
    } else if c == 'a' {
        let mut out: String = " | each { |line| [$line ".to_owned();
        out.append(quote_word(args).as_str());
        out.append("] | str join \"\\n\" }");
        out
    } else if c == 'i' {
        let mut out: String = " | each { |line| [".to_owned();
        out.append(quote_word(args).as_str());
        out.append(" $line] | str join \"\\n\" }");
        out
    } else if c == 'c' {
        let mut out: String = " | each { |line| ".to_owned();
        out.append(quote_word(args).as_str());
        out.append(" }");
        out
    } else if c == 'r' {
        let mut out: String = " | each { |line| [$line (open ".to_owned();
        out.append(quote_word(args).as_str());
        out.append(")] | str join \"\\n\" }");
        out
    } else if c == 'w' {
        let mut out: String = " | tee { save ".to_owned();
        out.append(quote_word(args).as_str());
        out.append(" }");
        out
    } else if c == 'y' {
        match parse_transliterate_command(args) {
            Some(t) => {
                let mut out: String = " | each { |line| $line | str replace --all ".to_owned();
                out.append(quote_word(t.from.as_str()).as_str());
                out.append(" ");
                out.append(quote_word(t.to.as_str()).as_str());
                out.append(" }");
                out
            },
            None => {
                let mut out: String = " # transliterate: ".to_owned();
                out.append(args);
                out
            },
        }
    } else if c == 'b' {
        let mut out: String = " # branch: ".to_owned();
        out.append(args);
        out
    } else if c == 't' {
        let mut out: String = " # test: ".to_owned();
        out.append(args);
        out
    } else if c == 'T' {
        let mut out: String = " # test not: ".to_owned();
        out.append(args);
        out
    } else {
        let mut out: String = " # unknown command: ".to_owned();
        let mut one: Vec<char> = Vec::new();
        one.push(c);
        out.append(chars_to_string(&one).as_str());
        proof {
            assert(one@ =~= seq![v.command]);
        }
        out
    }
}

/// Converter for the `sed` command.
pub struct SedConverter;

/// The flag state gathered while scanning `sed` arguments.
pub struct SedScan {
    pub script: Seq<char>,
    pub files: Seq<Seq<char>>,
    pub in_place: bool,
    pub quiet: bool,
    pub separate: bool,
    pub backup: Seq<char>,
}

pub open spec fn spec_sed_init() -> SedScan {
    SedScan {
        script: Seq::empty(),
        files: Seq::empty(),
        in_place: false,
        quiet: false,
        separate: false,
        backup: Seq::empty(),
    }
}

pub open spec fn spec_sed_scan(vs: Seq<Seq<char>>, i: int, st: SedScan) -> SedScan
    decreases vs.len() - i,
{
    if i < 0 || i >= vs.len() {
        st
    } else if vs[i] == "-e"@ || vs[i] == "--expression"@ {
        if i + 1 < vs.len() {
            let ns: Seq<char> = if st.script.len() > 0 {
                st.script + ";"@ + vs[i + 1]
            } else {
                st.script + vs[i + 1]
            };
            spec_sed_scan(vs, i + 2, SedScan { script: ns, ..st })
        } else {
            spec_sed_scan(vs, i + 1, st)
        }
    } else if vs[i] == "-f"@ || vs[i] == "--file"@ {
        if i + 1 < vs.len() {
            spec_sed_scan(
                vs,
                i + 2,
                SedScan { script: st.script + "# script from file: "@ + vs[i + 1], ..st },
            )
        } else {
            spec_sed_scan(vs, i + 1, st)
        }
    } else if vs[i] == "-i"@ || vs[i] == "--in-place"@ {
        spec_sed_scan(vs, i + 1, SedScan { in_place: true, ..st })
    } else if vs[i] == "-n"@ || vs[i] == "--quiet"@ || vs[i] == "--silent"@ {
        spec_sed_scan(vs, i + 1, SedScan { quiet: true, ..st })
    } else if vs[i] == "-r"@ || vs[i] == "-E"@ || vs[i] == "--regexp-extended"@ {
        spec_sed_scan(vs, i + 1, st)
    } else if vs[i] == "-s"@ || vs[i] == "--separate"@ {
        spec_sed_scan(vs, i + 1, SedScan { separate: true, ..st })
    } else if vs[i] == "-l"@ || vs[i] == "--line-length"@ {
        if i + 1 < vs.len() {
            spec_sed_scan(vs, i + 2, st)
        } else {
            spec_sed_scan(vs, i + 1, st)
        }
    } else if spec_starts_with(vs[i], "-i"@) {
        spec_sed_scan(vs, i + 1, SedScan { in_place: true, backup: vs[i].skip(2), ..st })
    } else if !spec_starts_with(vs[i], "-"@) {
        if st.script.len() == 0 {
            spec_sed_scan(vs, i + 1, SedScan { script: vs[i], ..st })
        } else {
            spec_sed_scan(vs, i + 1, SedScan { files: st.files.push(vs[i]), ..st })
        }
    } else {
        spec_sed_scan(vs, i + 1, st)
    }
}

/// The input stage: stdin, one file, or a listing over several files.
pub open spec fn spec_sed_opening(st: SedScan) -> Seq<char> {
    if st.files.len() == 0 {
        "lines"@
    } else if st.files.len() == 1 {
        "open "@ + spec_quote_literal(st.files[0]) + " | lines"@
    } else if st.separate {
        "ls "@ + spec_join(spec_quoted_words(st.files), " "@)
            + " | each { |file| open $file.name | lines }"@
    } else {
        "["@ + spec_join(spec_quoted_words(st.files), " "@)
            + "] | each { |file| open $file | lines } | flatten"@
    }
}

/// The exact text produced for `sed` with the given arguments.
pub open spec fn spec_convert_sed(vs: Seq<Seq<char>>) -> Seq<char> {
    if vs.len() == 0 {
        "sed"@
    } else {
        let st = spec_sed_scan(vs, 0, spec_sed_init());
        if st.script.len() == 0 {
            "sed"@
        } else {
            let cmds = spec_parse_sed_script(st.script);
            spec_sed_opening(st) + spec_sed_chain(cmds, 0) + (if st.quiet {
                " # quiet mode - only explicit prints"@
            } else {
                Seq::<char>::empty()
            }) + (if st.in_place {
                if st.files.len() > 0 {
                    " | save"@ + (if st.backup.len() > 0 {
                        " --backup "@ + spec_quote_word(st.backup)
                    } else {
                        Seq::<char>::empty()
                    }) + " "@ + spec_quote_word(st.files[0])
                } else {
                    " # in-place editing requires file input"@
                }
            } else {
                Seq::<char>::empty()
            })
        }
    }
}

/// Scan the arguments of `sed` into its flag state.
#[verifier::loop_isolation(false)]
#[verifier::rlimit(100)]
fn sed_scan(args: &[String]) -> (r: (String, Vec<String>, bool, bool, bool, String))
    ensures
        spec_sed_scan(views(args@), 0, spec_sed_init()) == (SedScan {
            script: r.0@,
            files: views(r.1@),
            in_place: r.2,
            quiet: r.3,
            separate: r.4,
            backup: r.5@,
        }),
{
    let ghost vs = views(args@);
    let mut script: String = String::new();
    let mut files: Vec<String> = Vec::new();
    let mut in_place = false;
    let mut quiet = false;
    let mut separate = false;
    let mut backup: String = String::new();
    proof {
        assert(views(files@) =~= Seq::<Seq<char>>::empty());
        assert(script@ =~= Seq::<char>::empty());
        assert(backup@ =~= Seq::<char>::empty());
    }
    let mut i: usize = 0;
    while i < args.len()
        invariant
            i <= args@.len(),
            spec_sed_scan(vs, 0, spec_sed_init()) == spec_sed_scan(
                vs,
                i as int,
                SedScan {
                    script: script@,
                    files: views(files@),
                    in_place: in_place,
                    quiet: quiet,
                    separate: separate,
                    backup: backup@,
                },
            ),
        decreases args@.len() - i,
    {
        let a = args[i].as_str();
        let n = a.unicode_len();
        proof {
            assert(vs[i as int] == args@[i as int]@);
            if i + 1 < args.len() {
                assert(vs[i as int + 1] == args@[i as int + 1]@);
            }
        }
        if str_eq(a, "-e") || str_eq(a, "--expression") {
            if i + 1 < args.len() {
                if script.as_str().unicode_len() > 0 {
                    script.append(";");
                }
                script.append(args[i + 1].as_str());
                i = i + 2;
            } else {
                i = i + 1;
            }
        } else if str_eq(a, "-f") || str_eq(a, "--file") {
            if i + 1 < args.len() {
                script.append("# script from file: ");
                script.append(args[i + 1].as_str());
                i = i + 2;
            } else {
                i = i + 1;
            }
        } else if str_eq(a, "-i") || str_eq(a, "--in-place") {
            in_place = true;
            i = i + 1;
        } else if str_eq(a, "-n") || str_eq(a, "--quiet") || str_eq(a, "--silent") {
            quiet = true;
            i = i + 1;
        } else if str_eq(a, "-r") || str_eq(a, "-E") || str_eq(a, "--regexp-extended") {
            i = i + 1;
        } else if str_eq(a, "-s") || str_eq(a, "--separate") {
            separate = true;
            i = i + 1;
        } else if str_eq(a, "-l") || str_eq(a, "--line-length") {
            if i + 1 < args.len() {
                i = i + 2;
            } else {
                i = i + 1;
            }
        } else if starts_with(a, "-i") {
            proof {
                reveal_strlit("-i");
            }
            in_place = true;
            backup = a.substring_char(2, n).to_owned();
            proof {
                assert(backup@ =~= args@[i as int]@.skip(2));
            }
            i = i + 1;
        } else if !starts_with(a, "-") {
            if script.as_str().unicode_len() == 0 {
                script = args[i].clone();
            } else {
                let ghost prev = files@;
                files.push(args[i].clone());
                proof {
                    assert(views(files@) =~= views(prev).push(args@[i as int]@));
                }
            }
            i = i + 1;
        } else {
            i = i + 1;
        }
    }
    (script, files, in_place, quiet, separate, backup)
}

impl CommandConverter for SedConverter {
    open spec fn spec_convert(&self, vs: Seq<Seq<char>>) -> Seq<char> {
        spec_convert_sed(vs)
    }

    open spec fn spec_name(&self) -> Seq<char> {
        "sed"@
    }

    #[verifier::loop_isolation(false)]
    #[verifier::rlimit(100)]
    fn convert(&self, args: &[String]) -> (r: Result<String, ConvertError>) {
        let ghost vs = views(args@);
        if args.len() == 0 {
            return Ok("sed".to_owned());
        }
        let (script, files, in_place, quiet, separate, backup) = sed_scan(args);
        let ghost st = spec_sed_scan(vs, 0, spec_sed_init());
        if script.as_str().unicode_len() == 0 {
            return Ok("sed".to_owned());
        }
        let cmds = parse_sed_script(script.as_str());
        let ghost gcmds = spec_parse_sed_script(script@);
        let ghost gfiles = views(files@);
        let mut out: String;
        if files.len() == 0 {
            out = "lines".to_owned();
        } else if files.len() == 1 {
            proof {
                assert(gfiles[0] == files@[0]@);
            }
            out = "open ".to_owned();
            out.append(quote_literal(files[0].as_str()).as_str());
            out.append(" | lines");
        } else if separate {
            out = "ls ".to_owned();
            let quoted = quote_words_vec(&files);
            let joined = join_with(&quoted, " ");
            out.append(joined.as_str());
            out.append(" | each { |file| open $file.name | lines }");
        } else {
            out = "[".to_owned();
            let quoted = quote_words_vec(&files);
            let joined = join_with(&quoted, " ");
            out.append(joined.as_str());
            out.append("] | each { |file| open $file | lines } | flatten");
        }
        proof {
            assert(out@ == spec_sed_opening(st));
        }
        let mut k: usize = 0;
        while k < cmds.len()
            invariant
                k <= cmds@.len(),
                gcmds.len() == cmds@.len(),
                forall|j: int| 0 <= j < cmds@.len() ==> sed_cmd_matches(
                    #[trigger] cmds@[j],
                    gcmds[j],
                ),
                out@ + spec_sed_chain(gcmds, k as int) == spec_sed_opening(st) + spec_sed_chain(
                    gcmds,
                    0,
                ),
            decreases cmds@.len() - k,
        {
            let addr_part = sed_address(&cmds[k].address);
            out.append(addr_part.as_str());
            let op_part = sed_operation(&cmds[k], Ghost(gcmds[k as int]));
            out.append(op_part.as_str());
            k = k + 1;
        }
        proof {
            assert(spec_sed_chain(gcmds, cmds@.len() as int) =~= Seq::<char>::empty());
            assert(out@ + Seq::<char>::empty() =~= out@);
        }
        if quiet {
            out.append(" # quiet mode - only explicit prints");
        }
        if in_place {
            if files.len() > 0 {
                proof {
                    assert(gfiles[0] == files@[0]@);
                }
                out.append(" | save");
                if backup.as_str().unicode_len() > 0 {
                    out.append(" --backup ");
                    out.append(quote_word(backup.as_str()).as_str());
                }
                out.append(" ");
                out.append(quote_word(files[0].as_str()).as_str());
            } else {
                out.append(" # in-place editing requires file input");
            }
        }
        Ok(out)
    }

    fn command_name(&self) -> (r: &'static str) {
        "sed"
    }

    fn description(&self) -> &'static str {
        "Converts sed commands to target string operations"
    }
}

} // verus!
