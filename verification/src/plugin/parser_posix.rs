//! The shell command model and the heuristic parser.
//!
//! The parser is line-oriented: it never fails, and any construct it cannot
//! recognise degrades to a simple command.  A precise grammar parser can be
//! slotted in ahead of it without changing the model or the converter.

use crate::text::{
    contains_char, contains_sub, find_sub, lines_of, spec_find_sub, spec_index_of, spec_lines,
    spec_split_char, spec_split_ws, spec_starts_with, spec_trim, split_char, split_ws,
    starts_with, str_eq, trim, views,
};
use vstd::prelude::*;

verus! {

/// A parsed shell script: an ordered sequence of commands.
pub struct PosixScript {
    pub commands: Vec<PosixCommand>,
}

/// One shell command.
pub enum PosixCommand {
    Simple(SimpleCommandData),
    Pipeline(PipelineData),
    Compound(CompoundCommandData),
    AndOr(AndOrData),
    List(ListData),
}

/// A simple command: a name, its arguments, leading assignments and
/// redirections.
pub struct SimpleCommandData {
    pub name: String,
    pub args: Vec<String>,
    pub assignments: Vec<Assignment>,
    pub redirections: Vec<Redirection>,
}

/// A pipeline of commands, possibly negated by a leading `!`.
pub struct PipelineData {
    pub commands: Vec<PosixCommand>,
    pub negated: bool,
}

/// A compound construct with redirections attached to the whole construct.
pub struct CompoundCommandData {
    pub kind: CompoundCommandKind,
    pub redirections: Vec<Redirection>,
}

/// The kinds of compound construct.
pub enum CompoundCommandKind {
    BraceGroup(Vec<PosixCommand>),
    Subshell(Vec<PosixCommand>),
    For { variable: String, words: Vec<String>, body: Vec<PosixCommand> },
    While { condition: Vec<PosixCommand>, body: Vec<PosixCommand> },
    Until { condition: Vec<PosixCommand>, body: Vec<PosixCommand> },
    If {
        condition: Vec<PosixCommand>,
        then_body: Vec<PosixCommand>,
        elif_parts: Vec<ElifPart>,
        else_body: Option<Vec<PosixCommand>>,
    },
    Case { word: String, items: Vec<CaseItemData> },
    Function { name: String, body: Vec<PosixCommand> },
    Arithmetic { expression: String },
}

/// One `elif` branch of an `if` construct.
pub struct ElifPart {
    pub condition: Vec<PosixCommand>,
    pub body: Vec<PosixCommand>,
}

/// One arm of a `case` construct.
pub struct CaseItemData {
    pub patterns: Vec<String>,
    pub body: Vec<PosixCommand>,
}

/// A `&&` / `||` conjunction of two commands.
pub struct AndOrData {
    pub left: Box<PosixCommand>,
    pub operator: AndOrOperator,
    pub right: Box<PosixCommand>,
}

/// The conjunction operators.
pub enum AndOrOperator {
    And,
    Or,
}

/// A `;`- or `&`-separated command list.
pub struct ListData {
    pub commands: Vec<PosixCommand>,
    pub separator: ListSeparator,
}

/// The list separators.
pub enum ListSeparator {
    Sequential,
    Background,
}

/// A leading `NAME=VALUE` assignment.
pub struct Assignment {
    pub name: String,
    pub value: String,
}

/// One redirection.  The heuristic parser never extracts redirections, so
/// parsed commands carry an empty list; the converter still renders any that
/// are present in a constructed tree.
pub struct Redirection {
    pub fd: Option<i32>,
    pub operator: RedirectionOp,
    pub target: String,
}

/// The redirection operators.
pub enum RedirectionOp {
    Input,
    Output,
    Append,
    InputOutput,
    Clobber,
    InputHereDoc,
    InputHereString,
    OutputDup,
    InputDup,
}

/// The parser's error type.  The heuristic parser never fails; the type is
/// reserved for a strict-grammar mode.
#[derive(Debug, Clone, Copy, PartialEq, Eq)]
pub enum ParseError {
    StrictParserUnavailable,
}

/// The trimmed lines of a script that produce commands: non-empty lines that
/// do not begin with `#`.
pub open spec fn spec_command_lines(s: Seq<char>) -> Seq<Seq<char>> {
    spec_lines(s).map_values(|l: Seq<char>| spec_trim(l)).filter(
        |t: Seq<char>| t.len() > 0 && t[0] != '#',
    )
}

/// A line contains a pipe character but no `||` conjunction.
pub open spec fn spec_is_pipeline_line(s: Seq<char>) -> bool {
    s.contains('|') && spec_find_sub(s, "||"@) < 0
}

/// The words of a simple-command line, after the leading assignments.
pub open spec fn spec_is_assignment_word(w: Seq<char>) -> bool {
    w.contains('=') && !spec_starts_with(w, "-"@)
}

/// How many leading words of `ws` are assignments.
pub open spec fn spec_assignment_count(ws: Seq<Seq<char>>, i: int) -> int
    decreases ws.len() - i,
{
    if i < 0 || i >= ws.len() {
        i
    } else if spec_is_assignment_word(ws[i]) {
        spec_assignment_count(ws, i + 1)
    } else {
        i
    }
}

/// The produced command matches the given trimmed line.  The relation pins
/// every field of the result for each recognised shape of line.
pub open spec fn spec_cmd_matches(s: Seq<char>, cmd: PosixCommand) -> bool
    decreases cmd, 1int,
{
    let ws = spec_split_ws(s);
    if ws.len() == 0 {
        cmd matches PosixCommand::Simple(d) && d.name@ == Seq::<char>::empty() && d.args@.len()
            == 0 && d.assignments@.len() == 0 && d.redirections@.len() == 0
    } else if spec_is_pipeline_line(s) {
        cmd matches PosixCommand::Pipeline(p) && !p.negated && spec_cmds_match_segments(
            spec_split_char(s, '|').map_values(|t: Seq<char>| spec_trim(t)),
            p.commands@,
        )
    } else if spec_find_sub(s, "&&"@) >= 0 || spec_find_sub(s, "||"@) >= 0 {
        cmd matches PosixCommand::AndOr(a) && ({
            let op: Seq<char> = if spec_find_sub(s, "&&"@) >= 0 {
                "&&"@
            } else {
                "||"@
            };
            let i = spec_find_sub(s, op);
            &&& (if op == "&&"@ {
                a.operator is And
            } else {
                a.operator is Or
            })
            &&& spec_cmd_matches(spec_trim(s.take(i)), *a.left)
            &&& spec_cmd_matches(spec_trim(s.skip(i + 2)), *a.right)
        })
    } else {
        spec_cmd_matches_rest(s, cmd)
    }
}

/// The non-pipeline, non-conjunction shapes: keyword constructs and simple
/// commands.  A keyword line whose delimiters sit too early to leave
/// well-formed pieces falls through to the simple-command shape instead of
/// slicing out of range.
pub open spec fn spec_cmd_matches_rest(s: Seq<char>, cmd: PosixCommand) -> bool
    decreases cmd, 0int,
{
    if spec_starts_with(s, "if "@) && spec_find_sub(s, " then "@) >= 0 {
        cmd matches PosixCommand::Compound(c) && c.redirections@.len() == 0 && ({
            let i = spec_find_sub(s, " then "@);
            let condition: Seq<char> = if i >= 3 {
                s.skip(3).take(i - 3)
            } else {
                Seq::empty()
            };
            let body0 = s.skip(i + 6);
            let body: Seq<char> = if spec_ends_with_done(body0, " fi"@) {
                body0.take(body0.len() - 3)
            } else {
                body0
            };
            &&& c.kind matches CompoundCommandKind::If {
                condition: cv,
                then_body: tv,
                elif_parts: ev,
                else_body: eb,
            }
            &&& (c.kind matches CompoundCommandKind::If { condition: cv, then_body: tv, elif_parts: ev, else_body: eb }
                ==> cv@.len() == 1 && spec_cmd_matches(condition, cv@[0]) && tv@.len() == 1
                    && spec_cmd_matches(body, tv@[0]) && ev@.len() == 0 && eb is None)
        })
    } else if spec_starts_with(s, "for "@) && ({
        let ip = spec_find_sub(s, " in "@);
        let dp = spec_find_sub(s, " do "@);
        ip >= 4 && dp >= ip + 4
    }) {
        cmd matches PosixCommand::Compound(c) && c.redirections@.len() == 0 && ({
            let ip = spec_find_sub(s, " in "@);
            let dp = spec_find_sub(s, " do "@);
            let var = s.skip(4).take(ip - 4);
            let wordspart = s.skip(ip + 4).take(dp - ip - 4);
            let body0 = s.skip(dp + 4);
            let body: Seq<char> = if spec_ends_with_done(body0, " done"@) {
                body0.take(body0.len() - 5)
            } else {
                body0
            };
            &&& c.kind matches CompoundCommandKind::For { variable: v, words: w, body: b }
            &&& (c.kind matches CompoundCommandKind::For { variable: v, words: w, body: b } ==> v@
                == var && views(w@) == spec_split_ws(wordspart) && b@.len() == 1
                && spec_cmd_matches(body, b@[0]))
        })
    } else if spec_starts_with(s, "while "@) && spec_find_sub(s, " do "@) >= 6 {
        cmd matches PosixCommand::Compound(c) && c.redirections@.len() == 0 && ({
            let dp = spec_find_sub(s, " do "@);
            let condition = spec_trim(s.skip(6).take(dp - 6));
            let body0 = s.skip(dp + 4);
            let body: Seq<char> = if spec_ends_with_done(body0, " done"@) {
                body0.take(body0.len() - 5)
            } else {
                body0
            };
            &&& c.kind matches CompoundCommandKind::While { condition: cv, body: b }
            &&& (c.kind matches CompoundCommandKind::While { condition: cv, body: b } ==> cv@.len()
                == 1 && spec_cmd_matches(condition, cv@[0]) && b@.len() == 1 && spec_cmd_matches(
                body,
                b@[0],
            ))
        })
    } else if spec_starts_with(s, "until "@) && spec_find_sub(s, " do "@) >= 6 {
        cmd matches PosixCommand::Compound(c) && c.redirections@.len() == 0 && ({
            let dp = spec_find_sub(s, " do "@);
            let condition = spec_trim(s.skip(6).take(dp - 6));
            let body0 = s.skip(dp + 4);
            let body: Seq<char> = if spec_ends_with_done(body0, " done"@) {
                body0.take(body0.len() - 5)
            } else {
                body0
            };
            &&& c.kind matches CompoundCommandKind::Until { condition: cv, body: b }
            &&& (c.kind matches CompoundCommandKind::Until { condition: cv, body: b } ==> cv@.len()
                == 1 && spec_cmd_matches(condition, cv@[0]) && b@.len() == 1 && spec_cmd_matches(
                body,
                b@[0],
            ))
        })
    } else if spec_starts_with(s, "case "@) && spec_find_sub(s, " in"@) >= 5 {
        cmd matches PosixCommand::Compound(c) && c.redirections@.len() == 0 && ({
            let ip = spec_find_sub(s, " in"@);
            &&& c.kind matches CompoundCommandKind::Case { word: w, items: its }
            &&& (c.kind matches CompoundCommandKind::Case { word: w, items: its } ==> w@
                == spec_trim(s.skip(5).take(ip - 5)) && its@.len() == 0)
        })
    } else if spec_starts_with(s, "{ "@) && spec_ends_with_done(s, " }"@) && s.len() >= 4 {
        cmd matches PosixCommand::Compound(c) && c.redirections@.len() == 0 && ({
            let inner = s.skip(2).take(s.len() - 4);
            &&& c.kind matches CompoundCommandKind::BraceGroup(b)
            &&& (c.kind matches CompoundCommandKind::BraceGroup(b) ==> b@.len() == 1
                && spec_cmd_matches(inner, b@[0]))
        })
    } else if spec_starts_with(s, "( "@) && spec_ends_with_done(s, " )"@) && s.len() >= 4 {
        cmd matches PosixCommand::Compound(c) && c.redirections@.len() == 0 && ({
            let inner = s.skip(2).take(s.len() - 4);
            &&& c.kind matches CompoundCommandKind::Subshell(b)
            &&& (c.kind matches CompoundCommandKind::Subshell(b) ==> b@.len() == 1
                && spec_cmd_matches(inner, b@[0]))
        })
    } else if spec_starts_with(s, "$(( "@) && spec_ends_with_done(s, " ))"@) && s.len() >= 7 {
        cmd matches PosixCommand::Compound(c) && c.redirections@.len() == 0 && ({
            &&& c.kind matches CompoundCommandKind::Arithmetic { expression: e }
            &&& (c.kind matches CompoundCommandKind::Arithmetic { expression: e } ==> e@ == s.skip(
                4,
            ).take(s.len() - 7))
        })
    } else {
        spec_simple_matches(s, cmd)
    }
}

/// `s` ends with the suffix `p` (used for the closing keyword search).
pub open spec fn spec_ends_with_done(s: Seq<char>, p: Seq<char>) -> bool {
    s.len() >= p.len() && s.skip(s.len() - p.len()) == p
}

/// The simple-command shape: leading assignment words are peeled off, the
/// first remaining word is the name, the rest are the arguments.
pub open spec fn spec_simple_matches(s: Seq<char>, cmd: PosixCommand) -> bool {
    let ws = spec_split_ws(s);
    let k = spec_assignment_count(ws, 0);
    cmd matches PosixCommand::Simple(d) && d.redirections@.len() == 0 && ({
        &&& d.assignments@.len() == k
        &&& forall|j: int| 0 <= j < k ==> {
            let w = ws[j];
            let e = spec_index_of(w, '=');
            (#[trigger] d.assignments@[j]).name@ == w.take(e) && d.assignments@[j].value@
                == w.skip(e + 1)
        }
        &&& (if k < ws.len() {
            d.name@ == ws[k] && views(d.args@) == ws.skip(k + 1)
        } else {
            d.name@ == Seq::<char>::empty() && d.args@.len() == 0
        })
    })
}

/// Each command matches its trimmed pipeline segment.
pub open spec fn spec_cmds_match_segments(segs: Seq<Seq<char>>, cmds: Seq<PosixCommand>) -> bool
    decreases cmds, 1int,
{
    cmds.len() == segs.len() && (cmds.len() == 0 || (spec_cmd_matches(segs[0], cmds[0])
        && spec_cmds_match_segments(segs.skip(1), cmds.skip(1))))
}

/// Parse a shell script into its structured representation.
///
/// A precise grammar parser is consulted first; it currently always
/// declines, and the heuristic parser takes over, so the call never fails.
pub fn parse_posix_script(input: &str) -> (r: Result<PosixScript, ParseError>)
    ensures
        r is Ok,
        ({
            let script = r->Ok_0;
            let ls = spec_command_lines(input@);
            script.commands@.len() == ls.len() && forall|k: int|
                0 <= k < ls.len() ==> spec_cmd_matches(ls[k], #[trigger] script.commands@[k])
        }),
{
    match parse_precise(input) {
        Ok(script) => Ok(script),
        Err(_) => parse_with_heuristic_parser(input),
    }
}

/// The slot for a future precise POSIX grammar parser.  It declines every
/// input, and the heuristic parser takes over.
fn parse_precise(_input: &str) -> (r: Result<PosixScript, ParseError>)
    ensures
        r is Err,
{
    Err(ParseError::StrictParserUnavailable)
}

/// Heuristic line-by-line parsing: blank lines and comment lines produce no
/// command, and every other line produces exactly one.
#[verifier::loop_isolation(false)]
fn parse_with_heuristic_parser(input: &str) -> (r: Result<PosixScript, ParseError>)
    ensures
        r is Ok,
        ({
            let script = r->Ok_0;
            let ls = spec_command_lines(input@);
            script.commands@.len() == ls.len() && forall|k: int|
                0 <= k < ls.len() ==> spec_cmd_matches(ls[k], #[trigger] script.commands@[k])
        }),
{
    let ghost gall = spec_lines(input@).map_values(|l: Seq<char>| spec_trim(l));
    let ghost keepf = |t: Seq<char>| t.len() > 0 && t[0] != '#';
    let lines = lines_of(input);
    let mut commands: Vec<PosixCommand> = Vec::new();
    let mut i: usize = 0;
    while i < lines.len()
        invariant
            i <= lines@.len(),
            gall.len() == lines@.len(),
            forall|k: int| 0 <= k < lines@.len() ==> gall[k] == spec_trim(
                #[trigger] views(lines@)[k],
            ),
            ({
                let kept = gall.take(i as int).filter(keepf);
                commands@.len() == kept.len() && forall|k: int|
                    0 <= k < kept.len() ==> spec_cmd_matches(kept[k], #[trigger] commands@[k])
            }),
        decreases lines@.len() - i,
    {
        let line = &lines[i];
        let trimmed = trim(line.as_str());
        proof {
            assert(views(lines@)[i as int] == lines@[i as int]@);
            assert(gall.take(i as int + 1).drop_last() =~= gall.take(i as int));
            reveal_with_fuel(Seq::filter, 2);
            assert(gall.take(i as int + 1).last() == gall[i as int]);
        }
        let tn = trimmed.unicode_len();
        if tn > 0 && !(trimmed.get_char(0) == '#') {
            let cmd = parse_heuristic_command(trimmed);
            commands.push(cmd);
            proof {
                assert(gall.take(i as int + 1).filter(keepf) =~= gall.take(i as int).filter(
                    keepf,
                ).push(gall[i as int]));
            }
        } else {
            proof {
                assert(!keepf(gall[i as int]));
                assert(gall.take(i as int + 1).filter(keepf) =~= gall.take(i as int).filter(keepf));
            }
        }
        i = i + 1;
    }
    proof {
        assert(gall.take(lines@.len() as int) =~= gall);
        assert(spec_command_lines(input@) == gall.filter(keepf));
    }
    Ok(PosixScript { commands })
}

/// Parse one trimmed line as a command.  Never fails: anything that is not a
/// recognised construct becomes a simple command.
#[verifier::loop_isolation(false)]
#[verifier::rlimit(100)]
pub fn parse_heuristic_command(command_str: &str) -> (cmd: PosixCommand)
    ensures
        spec_cmd_matches(command_str@, cmd),
    decreases command_str@.len(), 2int,
{
    let ghost s = command_str@;
    let n = command_str.unicode_len();
    let parts = split_ws(command_str);
    if parts.len() == 0 {
        return PosixCommand::Simple(
            SimpleCommandData {
                name: String::new(),
                args: Vec::new(),
                assignments: Vec::new(),
                redirections: Vec::new(),
            },
        );
    }
    // pipelines: a pipe character, but not a `||` conjunction
    if contains_char(command_str, '|') && !contains_sub(command_str, "||") {
        let segs = split_char(command_str, '|');
        let ghost gsegs = spec_split_char(s, '|').map_values(|t: Seq<char>| spec_trim(t));
        proof {
            lemma_split_parts_short(s, '|');
            assert forall|j: int| 0 <= j < segs@.len() implies (#[trigger] views(segs@)[j]).len()
                < s.len() by {
                assert(views(segs@)[j] == spec_split_char(s, '|')[j]);
            }
        }
        let mut cmds: Vec<PosixCommand> = Vec::new();
        let mut k: usize = 0;
        while k < segs.len()
            invariant
                k <= segs@.len(),
                gsegs.len() == segs@.len(),
                forall|j: int| 0 <= j < segs@.len() ==> gsegs[j] == spec_trim(
                    #[trigger] views(segs@)[j],
                ),
                forall|j: int| 0 <= j < segs@.len() ==> (#[trigger] views(segs@)[j]).len()
                    < s.len(),
                cmds@.len() == k,
                forall|j: int| 0 <= j < k ==> spec_cmd_matches(gsegs[j], #[trigger] cmds@[j]),
            decreases segs@.len() - k,
        {
            let seg = trim(segs[k].as_str());
            proof {
                assert(views(segs@)[k as int] == segs@[k as int]@);
                lemma_trim_len(segs@[k as int]@);
            }
            let sub = parse_heuristic_command(seg);
            cmds.push(sub);
            k = k + 1;
        }
        proof {
            lemma_segments_match(gsegs, cmds@);
        }
        return PosixCommand::Pipeline(PipelineData { commands: cmds, negated: false });
    }
    // conjunctions: split at the first `&&` or `||`
    let has_and = contains_sub(command_str, "&&");
    let has_or = contains_sub(command_str, "||");
    if has_and || has_or {
        let op: &str = if has_and {
            "&&"
        } else {
            "||"
        };
        match find_sub(command_str, op) {
            Some(p) => {
                proof {
                    crate::text::lemma_find_sub_props(s, op@);
                    reveal_strlit("&&");
                    reveal_strlit("||");
                }
                let left_raw = command_str.substring_char(0, p);
                let right_raw = command_str.substring_char(p + 2, n);
                let left_t = trim(left_raw);
                let right_t = trim(right_raw);
                proof {
                    assert(left_raw@ =~= s.take(p as int));
                    assert(right_raw@ =~= s.skip(p + 2));
                    lemma_trim_len(left_raw@);
                    lemma_trim_len(right_raw@);
                    assert(s.take(p as int).len() < s.len());
                    assert(s.skip(p + 2).len() < s.len());
                }
                let left = parse_heuristic_command(left_t);
                let right = parse_heuristic_command(right_t);
                let operator = if has_and {
                    AndOrOperator::And
                } else {
                    AndOrOperator::Or
                };
                return PosixCommand::AndOr(
                    AndOrData { left: Box::new(left), operator, right: Box::new(right) },
                );
            },
            None => {
                proof {
                    assert(false);
                }
            },
        }
    }
    parse_rest(command_str)
}

/// Parse the keyword constructs, falling back to a simple command.
#[verifier::loop_isolation(false)]
#[verifier::rlimit(100)]
fn parse_rest(command_str: &str) -> (cmd: PosixCommand)
    requires
        spec_split_ws(command_str@).len() > 0,
        !spec_is_pipeline_line(command_str@),
        spec_find_sub(command_str@, "&&"@) < 0,
        spec_find_sub(command_str@, "||"@) < 0,
    ensures
        spec_cmd_matches_rest(command_str@, cmd),
    decreases command_str@.len(), 1int,
{
    let ghost s = command_str@;
    let n = command_str.unicode_len();
    proof {
        reveal_strlit("if ");
        reveal_strlit(" then ");
        reveal_strlit(" fi");
        reveal_strlit("for ");
        reveal_strlit(" in ");
        reveal_strlit(" do ");
        reveal_strlit(" done");
        reveal_strlit("while ");
        reveal_strlit("until ");
        reveal_strlit("case ");
        reveal_strlit(" in");
        reveal_strlit("{ ");
        reveal_strlit(" }");
        reveal_strlit("( ");
        reveal_strlit(" )");
        reveal_strlit("$(( ");
        reveal_strlit(" ))");
    }
    if starts_with(command_str, "if ") {
        match find_sub(command_str, " then ") {
            Some(i) => {
                proof {
                    crate::text::lemma_find_sub_props(s, " then "@);
                }
                let condition: &str = if i >= 3 {
                    command_str.substring_char(3, i)
                } else {
                    ""
                };
                let body0 = command_str.substring_char(i + 6, n);
                let bn = body0.unicode_len();
                let body: &str = if crate::text::ends_with(body0, " fi") {
                    body0.substring_char(0, bn - 3)
                } else {
                    body0
                };
                proof {
                    if i >= 3 {
                        assert(condition@ =~= s.skip(3).take(i - 3));
                    } else {
                        reveal_strlit("");
                        assert(condition@ =~= Seq::<char>::empty());
                    }
                    assert(body0@ =~= s.skip(i + 6));
                    if crate::text::spec_ends_with(body0@, " fi"@) {
                        assert(body@ =~= body0@.take(body0@.len() - 3));
                    }
                    assert(condition@.len() < s.len());
                    assert(body@.len() < s.len());
                }
                let cv = parse_heuristic_command(condition);
                let tv = parse_heuristic_command(body);
                let mut cvec: Vec<PosixCommand> = Vec::new();
                cvec.push(cv);
                let mut tvec: Vec<PosixCommand> = Vec::new();
                tvec.push(tv);
                return PosixCommand::Compound(
                    CompoundCommandData {
                        kind: CompoundCommandKind::If {
                            condition: cvec,
                            then_body: tvec,
                            elif_parts: Vec::new(),
                            else_body: None,
                        },
                        redirections: Vec::new(),
                    },
                );
            },
            None => {},
        }
    }
    if starts_with(command_str, "for ") {
        let ipo = find_sub(command_str, " in ");
        let dpo = find_sub(command_str, " do ");
        match (ipo, dpo) {
            (Some(ip), Some(dp)) => {
                if ip >= 4 && dp >= 4 && dp - 4 >= ip {
                    proof {
                        crate::text::lemma_find_sub_props(s, " in "@);
                        crate::text::lemma_find_sub_props(s, " do "@);
                    }
                    let var = command_str.substring_char(4, ip).to_owned();
                    let wordspart = command_str.substring_char(ip + 4, dp);
                    let body0 = command_str.substring_char(dp + 4, n);
                    let bn = body0.unicode_len();
                    let body: &str = if crate::text::ends_with(body0, " done") {
                        body0.substring_char(0, bn - 5)
                    } else {
                        body0
                    };
                    let words = split_ws(wordspart);
                    proof {
                        assert(var@ =~= s.skip(4).take(ip - 4));
                        assert(wordspart@ =~= s.skip(ip + 4).take(dp - ip - 4));
                        assert(body0@ =~= s.skip(dp + 4));
                        if crate::text::spec_ends_with(body0@, " done"@) {
                            assert(body@ =~= body0@.take(body0@.len() - 5));
                        }
                        assert(body@.len() < s.len());
                    }
                    let bcmd = parse_heuristic_command(body);
                    let mut bvec: Vec<PosixCommand> = Vec::new();
                    bvec.push(bcmd);
                    return PosixCommand::Compound(
                        CompoundCommandData {
                            kind: CompoundCommandKind::For { variable: var, words, body: bvec },
                            redirections: Vec::new(),
                        },
                    );
                }
            },
            _ => {},
        }
    }
    if starts_with(command_str, "while ") {
        match find_sub(command_str, " do ") {
            Some(dp) => {
                if dp >= 6 {
                    proof {
                        crate::text::lemma_find_sub_props(s, " do "@);
                    }
                    let condition = trim(command_str.substring_char(6, dp));
                    let body0 = command_str.substring_char(dp + 4, n);
                    let bn = body0.unicode_len();
                    let body: &str = if crate::text::ends_with(body0, " done") {
                        body0.substring_char(0, bn - 5)
                    } else {
                        body0
                    };
                    proof {
                        assert(s.skip(6).take(dp - 6) =~= s.subrange(6, dp as int));
                        lemma_trim_len(s.subrange(6, dp as int));
                        assert(body0@ =~= s.skip(dp + 4));
                        if crate::text::spec_ends_with(body0@, " done"@) {
                            assert(body@ =~= body0@.take(body0@.len() - 5));
                        }
                        assert(condition@.len() < s.len());
                        assert(body@.len() < s.len());
                    }
                    let cv = parse_heuristic_command(condition);
                    let bcmd = parse_heuristic_command(body);
                    let mut cvec: Vec<PosixCommand> = Vec::new();
                    cvec.push(cv);
                    let mut bvec: Vec<PosixCommand> = Vec::new();
                    bvec.push(bcmd);
                    return PosixCommand::Compound(
                        CompoundCommandData {
                            kind: CompoundCommandKind::While { condition: cvec, body: bvec },
                            redirections: Vec::new(),
                        },
                    );
                }
            },
            None => {},
        }
    }
    if starts_with(command_str, "until ") {
        match find_sub(command_str, " do ") {
            Some(dp) => {
                if dp >= 6 {
                    proof {
                        crate::text::lemma_find_sub_props(s, " do "@);
                    }
                    let condition = trim(command_str.substring_char(6, dp));
                    let body0 = command_str.substring_char(dp + 4, n);
                    let bn = body0.unicode_len();
                    let body: &str = if crate::text::ends_with(body0, " done") {
                        body0.substring_char(0, bn - 5)
                    } else {
                        body0
                    };
                    proof {
                        assert(s.skip(6).take(dp - 6) =~= s.subrange(6, dp as int));
                        lemma_trim_len(s.subrange(6, dp as int));
                        assert(body0@ =~= s.skip(dp + 4));
                        if crate::text::spec_ends_with(body0@, " done"@) {
                            assert(body@ =~= body0@.take(body0@.len() - 5));
                        }
                        assert(condition@.len() < s.len());
                        assert(body@.len() < s.len());
                    }
                    let cv = parse_heuristic_command(condition);
                    let bcmd = parse_heuristic_command(body);
                    let mut cvec: Vec<PosixCommand> = Vec::new();
                    cvec.push(cv);
                    let mut bvec: Vec<PosixCommand> = Vec::new();
                    bvec.push(bcmd);
                    return PosixCommand::Compound(
                        CompoundCommandData {
                            kind: CompoundCommandKind::Until { condition: cvec, body: bvec },
                            redirections: Vec::new(),
                        },
                    );
                }
            },
            None => {},
        }
    }
    if starts_with(command_str, "case ") {
        match find_sub(command_str, " in") {
            Some(ip) => {
                if ip >= 5 {
                    proof {
                        crate::text::lemma_find_sub_props(s, " in"@);
                    }
                    let word = trim(command_str.substring_char(5, ip)).to_owned();
                    proof {
                        assert(s.skip(5).take(ip - 5) =~= s.subrange(5, ip as int));
                    }
                    return PosixCommand::Compound(
                        CompoundCommandData {
                            kind: CompoundCommandKind::Case { word, items: Vec::new() },
                            redirections: Vec::new(),
                        },
                    );
                }
            },
            None => {},
        }
    }
    if n >= 4 && starts_with(command_str, "{ ") && crate::text::ends_with(command_str, " }") {
        let inner = command_str.substring_char(2, n - 2);
        proof {
            assert(inner@ =~= s.skip(2).take(s.len() - 4));
        }
        let bcmd = parse_heuristic_command(inner);
        let mut bvec: Vec<PosixCommand> = Vec::new();
        bvec.push(bcmd);
        return PosixCommand::Compound(
            CompoundCommandData {
                kind: CompoundCommandKind::BraceGroup(bvec),
                redirections: Vec::new(),
            },
        );
    }
    if n >= 4 && starts_with(command_str, "( ") && crate::text::ends_with(command_str, " )") {
        let inner = command_str.substring_char(2, n - 2);
        proof {
            assert(inner@ =~= s.skip(2).take(s.len() - 4));
        }
        let bcmd = parse_heuristic_command(inner);
        let mut bvec: Vec<PosixCommand> = Vec::new();
        bvec.push(bcmd);
        return PosixCommand::Compound(
            CompoundCommandData { kind: CompoundCommandKind::Subshell(bvec), redirections: Vec::new() },
        );
    }
    if n >= 7 && starts_with(command_str, "$(( ") && crate::text::ends_with(command_str, " ))") {
        let expression = command_str.substring_char(4, n - 3).to_owned();
        proof {
            assert(expression@ =~= s.skip(4).take(s.len() - 7));
        }
        return PosixCommand::Compound(
            CompoundCommandData {
                kind: CompoundCommandKind::Arithmetic { expression },
                redirections: Vec::new(),
            },
        );
    }
    parse_simple(command_str)
}

/// Whether a word has the `NAME=VALUE` assignment shape.
fn is_assignment_word(w: &str) -> (r: bool)
    ensures
        r == spec_is_assignment_word(w@),
{
    contains_char(w, '=') && !starts_with(w, "-")
}

/// Parse a simple command: peel leading assignment words, then take the name
/// and arguments.
#[verifier::loop_isolation(false)]
#[verifier::rlimit(100)]
fn parse_simple(command_str: &str) -> (cmd: PosixCommand)
    ensures
        spec_simple_matches(command_str@, cmd),
{
    let ghost s = command_str@;
    let words = split_ws(command_str);
    let ghost ws = spec_split_ws(s);
    let ghost k = spec_assignment_count(ws, 0);
    let mut assignments: Vec<Assignment> = Vec::new();
    let mut i: usize = 0;
    proof {
        reveal_strlit("-");
    }
    while i < words.len() && is_assignment_word(words[i].as_str())
        invariant
            i <= words@.len(),
            ws == views(words@),
            spec_assignment_count(ws, 0) == spec_assignment_count(ws, i as int),
            assignments@.len() == i,
            forall|j: int| 0 <= j < i ==> {
                let w = ws[j];
                let e = spec_index_of(w, '=');
                (#[trigger] assignments@[j]).name@ == w.take(e) && assignments@[j].value@ == w.skip(
                    e + 1,
                )
            },
        decreases words@.len() - i,
    {
        let w = words[i].as_str();
        proof {
            assert(ws[i as int] == words@[i as int]@);
            crate::text::lemma_index_of_props(w@, '=');
        }
        match crate::text::index_of_char(w, '=') {
            Some(e) => {
                let wn = w.unicode_len();
                let name = w.substring_char(0, e).to_owned();
                let value = w.substring_char(e + 1, wn).to_owned();
                proof {
                    assert(name@ =~= ws[i as int].take(spec_index_of(ws[i as int], '=')));
                    assert(value@ =~= ws[i as int].skip(spec_index_of(ws[i as int], '=') + 1));
                }
                assignments.push(Assignment { name, value });
            },
            None => {
                proof {
                    assert(false);
                }
            },
        }
        i = i + 1;
    }
    proof {
        if i < words@.len() {
            assert(ws[i as int] == words@[i as int]@);
            assert(!spec_is_assignment_word(ws[i as int]));
            assert(spec_assignment_count(ws, i as int) == i as int);
        } else {
            assert(spec_assignment_count(ws, i as int) == i as int);
        }
        assert(k == i as int);
    }
    if i < words.len() {
        let name = words[i].clone();
        let mut args: Vec<String> = Vec::new();
        let mut j: usize = i + 1;
        while j < words.len()
            invariant
                i + 1 <= j <= words@.len(),
                ws == views(words@),
                views(args@) =~= ws.subrange(i as int + 1, j as int),
            decreases words@.len() - j,
        {
            let ghost prev = args@;
            args.push(words[j].clone());
            proof {
                assert(views(args@) =~= views(prev).push(words@[j as int]@));
                assert(ws.subrange(i as int + 1, j as int).push(ws[j as int]) =~= ws.subrange(
                    i as int + 1,
                    j as int + 1,
                ));
            }
            j = j + 1;
        }
        proof {
            assert(ws.subrange(i as int + 1, ws.len() as int) =~= ws.skip(i as int + 1));
            assert(name@ == ws[i as int]);
        }
        PosixCommand::Simple(
            SimpleCommandData { name, args, assignments, redirections: Vec::new() },
        )
    } else {
        PosixCommand::Simple(
            SimpleCommandData {
                name: String::new(),
                args: Vec::new(),
                assignments,
                redirections: Vec::new(),
            },
        )
    }
}



/// Every piece of a split is no longer than the whole; when the separator
/// occurs, every piece is strictly shorter.
proof fn lemma_split_parts_le(s: Seq<char>, c: char)
    ensures
        forall|j: int| 0 <= j < spec_split_char(s, c).len() ==> (#[trigger] spec_split_char(
            s,
            c,
        )[j]).len() <= s.len(),
    decreases s.len(),
{
    let i = spec_index_of(s, c);
    crate::text::lemma_index_of_props(s, c);
    if 0 <= i && i < s.len() {
        lemma_split_parts_le(s.skip(i + 1), c);
        assert forall|j: int| 0 <= j < spec_split_char(s, c).len() implies (
        #[trigger] spec_split_char(s, c)[j]).len() <= s.len() by {
            if j > 0 {
                assert(spec_split_char(s, c)[j] == spec_split_char(s.skip(i + 1), c)[j - 1]);
            }
        }
    }
}

proof fn lemma_split_parts_short(s: Seq<char>, c: char)
    requires
        s.contains(c),
    ensures
        forall|j: int| 0 <= j < spec_split_char(s, c).len() ==> (#[trigger] spec_split_char(
            s,
            c,
        )[j]).len() < s.len(),
{
    let i = spec_index_of(s, c);
    crate::text::lemma_index_of_props(s, c);
    if i < 0 {
        assert(!s.contains(c));
    }
    lemma_split_parts_le(s.skip(i + 1), c);
    assert forall|j: int| 0 <= j < spec_split_char(s, c).len() implies (#[trigger] spec_split_char(
        s,
        c,
    )[j]).len() < s.len() by {
        if j > 0 {
            assert(spec_split_char(s, c)[j] == spec_split_char(s.skip(i + 1), c)[j - 1]);
            assert(spec_split_char(s.skip(i + 1), c)[j - 1].len() <= s.skip(i + 1).len());
        }
    }
}

/// Lengths never grow under trimming.
proof fn lemma_trim_len(s: Seq<char>)
    ensures
        spec_trim(s).len() <= s.len(),
{
    lemma_trim_start_len(s);
    lemma_trim_end_len(crate::text::spec_trim_start(s));
}

proof fn lemma_trim_start_len(s: Seq<char>)
    ensures
        crate::text::spec_trim_start(s).len() <= s.len(),
    decreases s.len(),
{
    if s.len() > 0 && crate::text::is_space(s[0]) {
        lemma_trim_start_len(s.skip(1));
    }
}

proof fn lemma_trim_end_len(s: Seq<char>)
    ensures
        crate::text::spec_trim_end(s).len() <= s.len(),
    decreases s.len(),
{
    if s.len() > 0 && crate::text::is_space(s[s.len() - 1]) {
        lemma_trim_end_len(s.take(s.len() - 1));
    }
}

proof fn lemma_segments_match(segs: Seq<Seq<char>>, cmds: Seq<PosixCommand>)
    requires
        cmds.len() == segs.len(),
        forall|j: int| 0 <= j < cmds.len() ==> spec_cmd_matches(segs[j], #[trigger] cmds[j]),
    ensures
        spec_cmds_match_segments(segs, cmds),
    decreases cmds.len(),
{
    if cmds.len() > 0 {
        assert forall|j: int| 0 <= j < cmds.len() - 1 implies spec_cmd_matches(
            segs.skip(1)[j],
            #[trigger] cmds.skip(1)[j],
        ) by {
            assert(cmds.skip(1)[j] == cmds[j + 1]);
            assert(segs.skip(1)[j] == segs[j + 1]);
        }
        lemma_segments_match(segs.skip(1), cmds.skip(1));
    }
}

} // verus!
