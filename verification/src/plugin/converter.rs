//! The conversion dispatcher: walks the command tree and renders target
//! syntax, resolving simple commands through the builtin table first and a
//! fixed inline utility table second.
//!
//! The inline table is the dispatcher's own, historic set of utility
//! mappings; its exact outputs (for example `echo a b` rendering as
//! `print a b`, with the words kept separate) are part of the engine's
//! observable behaviour and are pinned by the round-trip scenarios.  The
//! richer per-utility converters of [`crate::plugin::sus`] are the
//! host-facing external-utility table: they quote and analyse flags more
//! thoroughly (joining an `echo` message into one string literal, full
//! `find`/`sed`/`cut` grammars), so routing the dispatcher through them
//! would change those pinned outputs.  The two tables therefore stand side
//! by side: the dispatcher keeps the inline mappings, and hosts consult the
//! registry directly.

use crate::plugin::builtin::{
    spec_builtin_find, spec_convert_builtin, spec_builtin_table, BuiltinRegistry,
};
use crate::plugin::parser_posix::{
    AndOrData, AndOrOperator, Assignment, CaseItemData, CompoundCommandData, CompoundCommandKind,
    ElifPart, ListData, ListSeparator, PipelineData, PosixCommand, PosixScript, Redirection,
    RedirectionOp, SimpleCommandData,
};
use crate::plugin::ConvertError;
use crate::quoting::{
    format_args, quote_plain, spec_quote_plain, spec_quoted_words, spec_format_args,
};
use crate::text::{
    i32_to_dec, i64_to_dec, parse_i32, spec_dec_int, spec_is_digits, spec_parse_i32,
    spec_split_char, spec_starts_with, split_char, starts_with, str_eq, views,
};
use vstd::prelude::*;

verus! {

/// Arguments quoted under the dispatcher's rule and joined with spaces.
pub open spec fn spec_plain_args(vs: Seq<Seq<char>>) -> Seq<char> {
    crate::text::spec_join(vs.map_values(|v: Seq<char>| spec_quote_plain(v)), " "@)
}

/// The inline utility table of the dispatcher.  A name outside the table
/// passes through with its quoted arguments.
pub open spec fn spec_dispatch_name(name: Seq<char>, vs: Seq<Seq<char>>) -> Seq<char> {
    if name == "echo"@ {
        if vs.len() == 0 {
            "print"@
        } else {
            "print "@ + spec_plain_args(vs)
        }
    } else if name == "cat"@ {
        if vs.len() == 0 {
            "input"@
        } else {
            "open --raw "@ + spec_plain_args(vs)
        }
    } else if name == "grep"@ {
        if vs.len() == 0 {
            "grep"@
        } else if vs.len() == 1 {
            "where $it =~ "@ + spec_quote_plain(vs[0])
        } else if vs.len() == 2 {
            "open "@ + spec_quote_plain(vs[1]) + " | lines | where $it =~ "@ + spec_quote_plain(
                vs[0],
            )
        } else {
            "grep "@ + spec_plain_args(vs)
        }
    } else if name == "sort"@ {
        "sort"@
    } else if name == "uniq"@ {
        "uniq"@
    } else if name == "head"@ {
        if vs.len() == 0 {
            "first 10"@
        } else if vs.len() == 2 && vs[0] == "-n"@ {
            "first "@ + vs[1]
        } else if vs.len() == 1 && spec_starts_with(vs[0], "-"@) && vs[0].len() > 1
            && spec_is_digits(vs[0].skip(1)) {
            "first "@ + vs[0].skip(1)
        } else {
            "head "@ + spec_plain_args(vs)
        }
    } else if name == "tail"@ {
        if vs.len() == 0 {
            "last 10"@
        } else if vs.len() == 2 && vs[0] == "-n"@ {
            "last "@ + vs[1]
        } else if vs.len() == 1 && spec_starts_with(vs[0], "-"@) && vs[0].len() > 1
            && spec_is_digits(vs[0].skip(1)) {
            "last "@ + vs[0].skip(1)
        } else {
            "tail "@ + spec_plain_args(vs)
        }
    } else if name == "wc"@ {
        if vs.len() == 0 {
            "wc"@
        } else if vs.contains("-l"@) {
            "lines | length"@
        } else if vs.contains("-w"@) {
            "str words | length"@
        } else if vs.contains("-c"@) {
            "str length"@
        } else {
            "wc "@ + spec_plain_args(vs)
        }
    } else if name == "cut"@ {
        if vs.len() >= 4 && vs[0] == "-d"@ && vs[2] == "-f"@ {
            let f = match spec_parse_i32(vs[3]) {
                Some(v) => v as int,
                None => 1,
            };
            "split row "@ + spec_quote_plain(vs[1]) + " | get "@ + spec_dec_int(f - 1)
        } else if vs.len() == 0 {
            "cut"@
        } else {
            "cut "@ + spec_plain_args(vs)
        }
    } else if name == "awk"@ {
        if vs.len() == 1 && spec_starts_with(vs[0], "{"@) && spec_ends(vs[0], "}"@)
            && crate::text::spec_find_sub(vs[0], "print"@) >= 0 {
            "each { |row| print $row }"@
        } else if vs.len() == 0 {
            "awk"@
        } else {
            "awk "@ + spec_plain_args(vs)
        }
    } else if name == "sed"@ {
        if vs.len() == 1 && spec_starts_with(vs[0], "s/"@) && spec_split_char(vs[0], '/').len()
            >= 3 {
            "str replace "@ + spec_quote_plain(spec_split_char(vs[0], '/')[1]) + " "@
                + spec_quote_plain(spec_split_char(vs[0], '/')[2])
        } else if vs.len() == 0 {
            "sed"@
        } else {
            "sed "@ + spec_plain_args(vs)
        }
    } else {
        spec_dispatch_rest(name, vs)
    }
}

/// The inline utility table, continued.
pub open spec fn spec_dispatch_rest(name: Seq<char>, vs: Seq<Seq<char>>) -> Seq<char> {
    if name == "rm"@ {
        if vs.len() == 0 {
            "rm"@
        } else {
            "rm "@ + spec_plain_args(vs)
        }
    } else if name == "cp"@ {
        if vs.len() >= 2 {
            "cp "@ + spec_quote_plain(vs[0]) + " "@ + spec_quote_plain(vs[1])
        } else {
            "cp "@ + spec_plain_args(vs)
        }
    } else if name == "mv"@ {
        if vs.len() >= 2 {
            "mv "@ + spec_quote_plain(vs[0]) + " "@ + spec_quote_plain(vs[1])
        } else {
            "mv "@ + spec_plain_args(vs)
        }
    } else if name == "mkdir"@ {
        "mkdir "@ + spec_plain_args(vs)
    } else if name == "rmdir"@ {
        "rmdir "@ + spec_plain_args(vs)
    } else if name == "chmod"@ {
        "chmod "@ + spec_plain_args(vs)
    } else if name == "chown"@ {
        "chown "@ + spec_plain_args(vs)
    } else if name == "which"@ {
        "which "@ + spec_plain_args(vs)
    } else if name == "whoami"@ {
        "whoami"@
    } else if name == "date"@ {
        if vs.len() == 0 {
            "date now"@
        } else if vs.len() == 2 && vs[0] == "-d"@ {
            spec_quote_plain(vs[1]) + " | into datetime"@
        } else {
            "date "@ + spec_plain_args(vs)
        }
    } else {
        spec_dispatch_tail(name, vs)
    }
}

/// The inline utility table, last stage.
pub open spec fn spec_dispatch_tail(name: Seq<char>, vs: Seq<Seq<char>>) -> Seq<char> {
    if name == "ps"@ {
        "ps"@
    } else if name == "seq"@ {
        if vs.len() == 1 {
            "1.."@ + vs[0]
        } else if vs.len() == 2 {
            vs[0] + ".."@ + vs[1]
        } else if vs.len() == 3 {
            vs[0] + ".."@ + vs[2] + " | step "@ + vs[1]
        } else {
            "seq "@ + spec_plain_args(vs)
        }
    } else if name == "stat"@ {
        "stat "@ + spec_plain_args(vs)
    } else if name == "basename"@ {
        "path basename "@ + spec_plain_args(vs)
    } else if name == "dirname"@ {
        "path dirname "@ + spec_plain_args(vs)
    } else if name == "realpath"@ {
        "path expand "@ + spec_plain_args(vs)
    } else if name == "tee"@ {
        if vs.len() == 1 {
            "tee { save "@ + spec_quote_plain(vs[0]) + " }"@
        } else {
            "tee "@ + spec_plain_args(vs)
        }
    } else {
        if vs.len() == 0 {
            name
        } else {
            name + " "@ + spec_plain_args(vs)
        }
    }
}

/// `s` ends with the suffix `p`.
pub open spec fn spec_ends(s: Seq<char>, p: Seq<char>) -> bool {
    s.len() >= p.len() && s.skip(s.len() - p.len()) == p
}

} // verus!

verus! {

/// The assignment prefix of a simple command: one `$NAME = "VALUE"; ` per
/// leading assignment.
pub open spec fn spec_assignment_prefix(asgs: Seq<Assignment>, i: int) -> Seq<char>
    decreases asgs.len() - i,
{
    if i < 0 || i >= asgs.len() {
        Seq::empty()
    } else {
        "$"@ + asgs[i].name@ + " = \""@ + asgs[i].value@ + "\"; "@ + spec_assignment_prefix(
            asgs,
            i + 1,
        )
    }
}

/// Resolution of a simple command name: the builtin table first (with `[`
/// aliased to `test`), then the inline utility table.
pub open spec fn spec_resolve_name(name: Seq<char>, vs: Seq<Seq<char>>) -> Seq<char> {
    let alias: Seq<char> = if name == "["@ {
        "test"@
    } else {
        name
    };
    if spec_builtin_find(spec_builtin_table(), alias, 0) is Some {
        spec_convert_builtin(spec_builtin_table(), name, vs)
    } else {
        spec_dispatch_name(name, vs)
    }
}

/// One rendered redirection.
pub open spec fn spec_redir_one(r: Redirection) -> Seq<char> {
    let q = spec_quote_plain(r.target@);
    match r.operator {
        RedirectionOp::Input => "< "@ + q,
        RedirectionOp::Output => "out> "@ + q,
        RedirectionOp::Append => "out>> "@ + q,
        RedirectionOp::InputOutput => "<> "@ + q,
        RedirectionOp::Clobber => "out> "@ + q,
        RedirectionOp::InputHereDoc => "echo "@ + q + " | # stdin"@,
        RedirectionOp::InputHereString => "echo "@ + q + " |"@,
        RedirectionOp::OutputDup => match r.fd {
            Some(fd) => {
                if fd == 1 {
                    "out> "@ + q
                } else if fd == 2 {
                    "err> "@ + q
                } else {
                    "# unsupported: output dup fd "@ + spec_dec_int(fd as int) + " to "@
                        + r.target@
                }
            },
            None => "out> "@ + q,
        },
        RedirectionOp::InputDup => match r.fd {
            Some(fd) => "# unsupported: input dup fd "@ + spec_dec_int(fd as int) + " from "@
                + r.target@,
            None => "< "@ + q,
        },
    }
}

/// All redirections rendered and joined with spaces.
pub open spec fn spec_redirs(rs: Seq<Redirection>) -> Seq<char> {
    crate::text::spec_join(rs.map_values(|r: Redirection| spec_redir_one(r)), " "@)
}

/// The exact rendering of one command.
pub open spec fn spec_convert_command(cmd: PosixCommand) -> Seq<char>
    decreases cmd, 3int,
{
    match cmd {
        PosixCommand::Simple(d) => spec_assignment_prefix(d.assignments@, 0) + (if d.name@.len()
            > 0 {
            spec_resolve_name(d.name@, views(d.args@))
        } else {
            Seq::<char>::empty()
        }) + (if d.redirections@.len() > 0 {
            " "@ + spec_redirs(d.redirections@)
        } else {
            Seq::<char>::empty()
        }),
        PosixCommand::Pipeline(p) => {
            let joined = crate::text::spec_join(spec_convert_each(p.commands@), " | "@);
            if p.negated {
                "not ("@ + joined + ")"@
            } else {
                joined
            }
        },
        PosixCommand::Compound(c) => spec_convert_compound_kind(c.kind) + (
        if c.redirections@.len() > 0 {
            " "@ + spec_redirs(c.redirections@)
        } else {
            Seq::<char>::empty()
        }),
        PosixCommand::AndOr(a) => "("@ + spec_convert_command(*a.left) + (match a.operator {
            AndOrOperator::And => ") and ("@,
            AndOrOperator::Or => ") or ("@,
        }) + spec_convert_command(*a.right) + ")"@,
        PosixCommand::List(l) => {
            let parts = spec_convert_each(l.commands@);
            match l.separator {
                ListSeparator::Sequential => crate::text::spec_join(parts, "; "@),
                ListSeparator::Background => spec_background_list(parts, 0),
            }
        },
    }
}

/// A background list: every member is followed by its own ` &` marker.
pub open spec fn spec_background_list(parts: Seq<Seq<char>>, i: int) -> Seq<char>
    decreases parts.len() - i,
{
    if i < 0 || i >= parts.len() {
        Seq::empty()
    } else {
        parts[i] + " &"@ + spec_background_list(parts, i + 1)
    }
}

/// The renderings of a sequence of commands.
pub open spec fn spec_convert_each(cmds: Seq<PosixCommand>) -> Seq<Seq<char>>
    decreases cmds, 4int,
{
    if cmds.len() == 0 {
        Seq::empty()
    } else {
        seq![spec_convert_command(cmds[0])] + spec_convert_each(cmds.skip(1))
    }
}

/// A body rendered one command per line with two-space indentation.
pub open spec fn spec_body_lines(cmds: Seq<PosixCommand>) -> Seq<char>
    decreases cmds, 4int,
{
    if cmds.len() == 0 {
        Seq::empty()
    } else {
        "  "@ + spec_convert_command(cmds[0]) + "\n"@ + spec_body_lines(cmds.skip(1))
    }
}

/// A case-arm body rendered one command per line with four-space
/// indentation.
pub open spec fn spec_item_lines(cmds: Seq<PosixCommand>) -> Seq<char>
    decreases cmds, 4int,
{
    if cmds.len() == 0 {
        Seq::empty()
    } else {
        "    "@ + spec_convert_command(cmds[0]) + "\n"@ + spec_item_lines(cmds.skip(1))
    }
}

/// The `else if` chain of an `if` construct.
pub open spec fn spec_elif_lines(parts: Seq<ElifPart>) -> Seq<char>
    decreases parts, 4int,
{
    if parts.len() == 0 {
        Seq::empty()
    } else {
        "} else if "@ + crate::text::spec_join(spec_convert_each(parts[0].condition@), "; "@)
            + " {\n"@ + spec_body_lines(parts[0].body@) + spec_elif_lines(parts.skip(1))
    }
}

/// The arms of a `match` rendered from case items.
pub open spec fn spec_case_arms(items: Seq<CaseItemData>) -> Seq<char>
    decreases items, 4int,
{
    if items.len() == 0 {
        Seq::empty()
    } else {
        "  "@ + crate::text::spec_join(
            views(items[0].patterns@).map_values(|p: Seq<char>| spec_quote_plain(p)),
            " | "@,
        ) + " => {\n"@ + spec_item_lines(items[0].body@) + "  }\n"@ + spec_case_arms(
            items.skip(1),
        )
    }
}

/// The exact rendering of one compound construct.
pub open spec fn spec_convert_compound_kind(kind: CompoundCommandKind) -> Seq<char>
    decreases kind, 5int,
{
    match kind {
        CompoundCommandKind::BraceGroup(cmds) => "{\n"@ + spec_body_lines(cmds@) + "}"@,
        CompoundCommandKind::Subshell(cmds) => "("@ + crate::text::spec_join(
            spec_convert_each(cmds@),
            "; "@,
        ) + ")"@,
        CompoundCommandKind::For { variable, words, body } => {
            let items: Seq<char> = if words@.len() == 0 {
                "$in"@
            } else {
                "["@ + crate::text::spec_join(
                    views(words@).map_values(|w: Seq<char>| spec_quote_plain(w)),
                    ", "@,
                ) + "]"@
            };
            items + " | each { |"@ + variable@ + "| \n"@ + spec_body_lines(body@) + "}"@
        },
        CompoundCommandKind::While { condition, body } => "while "@ + crate::text::spec_join(
            spec_convert_each(condition@),
            "; "@,
        ) + " {\n"@ + spec_body_lines(body@) + "}"@,
        CompoundCommandKind::Until { condition, body } => "while not ("@ + crate::text::spec_join(
            spec_convert_each(condition@),
            "; "@,
        ) + ") {\n"@ + spec_body_lines(body@) + "}"@,
        CompoundCommandKind::If { condition, then_body, elif_parts, else_body } => "if "@
            + crate::text::spec_join(spec_convert_each(condition@), "; "@) + " {\n"@
            + spec_body_lines(then_body@) + spec_elif_lines(elif_parts@) + (match else_body {
            Some(cmds) => "} else {\n"@ + spec_body_lines(cmds@),
            None => Seq::<char>::empty(),
        }) + "}"@,
        CompoundCommandKind::Case { word, items } => "match "@ + spec_quote_plain(word@) + " {\n"@
            + spec_case_arms(items@) + "}"@,
        CompoundCommandKind::Function { name, body } => "def "@ + name@ + " [] {\n"@
            + spec_body_lines(body@) + "}"@,
        CompoundCommandKind::Arithmetic { expression } => "math eval \""@ + expression@ + "\""@,
    }
}

/// The exact rendering of a whole script: commands joined with newlines.
pub open spec fn spec_convert_script(cmds: Seq<PosixCommand>) -> Seq<char> {
    crate::text::spec_join(spec_convert_each(cmds), "\n"@)
}

} // verus!

verus! {

/// Converts a parsed script to target-shell text.
pub struct PosixToNuConverter {
    builtins: BuiltinRegistry,
}

impl PosixToNuConverter {
    /// The builtin table the converter consults.
    pub closed spec fn table(&self) -> Seq<crate::plugin::builtin::BuiltinEntry> {
        self.builtins.entries()
    }

    /// Create a converter with the standard builtin table.
    pub fn new() -> (r: Self)
        ensures
            r.table() == spec_builtin_table(),
    {
        PosixToNuConverter { builtins: BuiltinRegistry::new() }
    }

    /// Convert a whole script: one line of output per command.
    #[verifier::loop_isolation(false)]
    pub fn convert(&self, script: &PosixScript) -> (r: Result<String, ConvertError>)
        requires
            self.table() == spec_builtin_table(),
        ensures
            r is Ok,
            r->Ok_0@ == spec_convert_script(script.commands@),
    {
        let parts = self.convert_each_vec(&script.commands)?;
        proof {
            reveal_strlit("\n");
        }
        Ok(crate::text::join_with(&parts, "\n"))
    }

    /// Convert one command.
    pub fn convert_command(&self, command: &PosixCommand) -> (r: Result<String, ConvertError>)
        requires
            self.table() == spec_builtin_table(),
        ensures
            r is Ok,
            r->Ok_0@ == spec_convert_command(*command),
        decreases *command, 3int,
    {
        match command {
            PosixCommand::Simple(d) => self.convert_simple_command(d),
            PosixCommand::Pipeline(p) => self.convert_pipeline(p),
            PosixCommand::Compound(c) => self.convert_compound_command(c),
            PosixCommand::AndOr(a) => self.convert_and_or(a),
            PosixCommand::List(l) => self.convert_list(l),
        }
    }

    /// Convert each command of a sequence.
    #[verifier::loop_isolation(false)]
    fn convert_each_vec(&self, cmds: &Vec<PosixCommand>) -> (r: Result<
        Vec<String>,
        ConvertError,
    >)
        requires
            self.table() == spec_builtin_table(),
        ensures
            r is Ok,
            views(r->Ok_0@) == spec_convert_each(cmds@),
        decreases cmds@, 4int,
    {
        let mut parts: Vec<String> = Vec::new();
        proof {
            assert(cmds@.skip(0) =~= cmds@);
        }
        let mut i: usize = 0;
        while i < cmds.len()
            invariant
                i <= cmds@.len(),
                views(parts@) + spec_convert_each(cmds@.skip(i as int)) =~= spec_convert_each(
                    cmds@,
                ),
            decreases cmds@.len() - i,
        {
            proof {
                assert(decreases_to!(cmds@ => cmds@[i as int]));
                assert(cmds@.skip(i as int)[0] == cmds@[i as int]);
                assert(cmds@.skip(i as int).skip(1) =~= cmds@.skip(i as int + 1));
            }
            let ghost prev = parts@;
            let one = self.convert_command(&cmds[i])?;
            parts.push(one);
            proof {
                assert(views(parts@) =~= views(prev).push(spec_convert_command(cmds@[i as int])));
            }
            i = i + 1;
        }
        proof {
            assert(spec_convert_each(cmds@.skip(cmds@.len() as int)) =~= Seq::<Seq<char>>::empty());
            assert(views(parts@) + Seq::<Seq<char>>::empty() =~= views(parts@));
        }
        Ok(parts)
    }

    /// Render a body, one command per line with the given indentation.
    #[verifier::loop_isolation(false)]
    fn body_lines(&self, cmds: &Vec<PosixCommand>) -> (r: Result<String, ConvertError>)
        requires
            self.table() == spec_builtin_table(),
        ensures
            r is Ok,
            r->Ok_0@ == spec_body_lines(cmds@),
        decreases cmds@, 4int,
    {
        let mut out = String::new();
        proof {
            assert(cmds@.skip(0) =~= cmds@);
        }
        let mut i: usize = 0;
        while i < cmds.len()
            invariant
                i <= cmds@.len(),
                out@ + spec_body_lines(cmds@.skip(i as int)) =~= spec_body_lines(cmds@),
            decreases cmds@.len() - i,
        {
            proof {
                assert(decreases_to!(cmds@ => cmds@[i as int]));
                assert(cmds@.skip(i as int)[0] == cmds@[i as int]);
                assert(cmds@.skip(i as int).skip(1) =~= cmds@.skip(i as int + 1));
            }
            let one = self.convert_command(&cmds[i])?;
            out.append("  ");
            out.append(one.as_str());
            out.append("\n");
            i = i + 1;
        }
        proof {
            assert(spec_body_lines(cmds@.skip(cmds@.len() as int)) =~= Seq::<char>::empty());
            assert(out@ + Seq::<char>::empty() =~= out@);
        }
        Ok(out)
    }

    /// Render a case-arm body, one command per line, indented further.
    #[verifier::loop_isolation(false)]
    fn item_lines(&self, cmds: &Vec<PosixCommand>) -> (r: Result<String, ConvertError>)
        requires
            self.table() == spec_builtin_table(),
        ensures
            r is Ok,
            r->Ok_0@ == spec_item_lines(cmds@),
        decreases cmds@, 4int,
    {
        let mut out = String::new();
        proof {
            assert(cmds@.skip(0) =~= cmds@);
        }
        let mut i: usize = 0;
        while i < cmds.len()
            invariant
                i <= cmds@.len(),
                out@ + spec_item_lines(cmds@.skip(i as int)) =~= spec_item_lines(cmds@),
            decreases cmds@.len() - i,
        {
            proof {
                assert(decreases_to!(cmds@ => cmds@[i as int]));
                assert(cmds@.skip(i as int)[0] == cmds@[i as int]);
                assert(cmds@.skip(i as int).skip(1) =~= cmds@.skip(i as int + 1));
            }
            let one = self.convert_command(&cmds[i])?;
            out.append("    ");
            out.append(one.as_str());
            out.append("\n");
            i = i + 1;
        }
        proof {
            assert(spec_item_lines(cmds@.skip(cmds@.len() as int)) =~= Seq::<char>::empty());
            assert(out@ + Seq::<char>::empty() =~= out@);
        }
        Ok(out)
    }

    /// Convert a simple command: assignments, then the resolved name, then
    /// redirections.
    #[verifier::loop_isolation(false)]
    #[verifier::rlimit(100)]
    pub fn convert_simple_command(&self, cmd: &SimpleCommandData) -> (r: Result<
        String,
        ConvertError,
    >)
        requires
            self.table() == spec_builtin_table(),
        ensures
            r is Ok,
            r->Ok_0@ == spec_convert_command(PosixCommand::Simple(*cmd)),
    {
        let ghost whole = PosixCommand::Simple(*cmd);
        let mut out = String::new();
        let ghost gasgs = cmd.assignments@;
        let mut i: usize = 0;
        while i < cmd.assignments.len()
            invariant
                i <= gasgs.len(),
                out@ + spec_assignment_prefix(gasgs, i as int) =~= spec_assignment_prefix(
                    gasgs,
                    0,
                ),
            decreases gasgs.len() - i,
        {
            let a = &cmd.assignments[i];
            out.append("$");
            out.append(a.name.as_str());
            out.append(" = \"");
            out.append(a.value.as_str());
            out.append("\"; ");
            i = i + 1;
        }
        proof {
            assert(spec_assignment_prefix(gasgs, gasgs.len() as int) =~= Seq::<char>::empty());
            assert(out@ + Seq::<char>::empty() =~= out@);
        }
        if cmd.name.as_str().unicode_len() > 0 {
            let resolved = self.convert_command_name(cmd.name.as_str(), cmd.args.as_slice())?;
            out.append(resolved.as_str());
        }
        if cmd.redirections.len() > 0 {
            let rendered = self.convert_redirections(&cmd.redirections)?;
            out.append(" ");
            out.append(rendered.as_str());
        }
        Ok(out)
    }

    /// Resolve and convert a command name with its arguments: the builtin
    /// table first, then the inline utility table.
    pub fn convert_command_name(&self, name: &str, args: &[String]) -> (r: Result<
        String,
        ConvertError,
    >)
        requires
            self.table() == spec_builtin_table(),
        ensures
            r is Ok,
            r->Ok_0@ == spec_resolve_name(name@, views(args@)),
    {
        let alias: &str = if str_eq(name, "[") {
            "test"
        } else {
            name
        };
        match self.builtins.find_converter(alias) {
            Some(_) => self.builtins.convert_builtin(name, args),
            None => dispatch_utility(name, args),
        }
    }

    /// Convert a pipeline: stages joined with ` | `, negated as `not (…)`.
    pub fn convert_pipeline(&self, pipe: &PipelineData) -> (r: Result<String, ConvertError>)
        requires
            self.table() == spec_builtin_table(),
        ensures
            r is Ok,
            r->Ok_0@ == spec_convert_command(PosixCommand::Pipeline(*pipe)),
        decreases *pipe, 5int,
    {
        proof {
            assert(decreases_to!(*pipe => pipe.commands));
        }
        let parts = self.convert_each_vec(&pipe.commands)?;
        let joined = crate::text::join_with(&parts, " | ");
        if pipe.negated {
            let mut out: String = "not (".to_owned();
            out.append(joined.as_str());
            out.append(")");
            Ok(out)
        } else {
            Ok(joined)
        }
    }

    /// Convert a compound construct together with its redirections.
    pub fn convert_compound_command(&self, comp: &CompoundCommandData) -> (r: Result<
        String,
        ConvertError,
    >)
        requires
            self.table() == spec_builtin_table(),
        ensures
            r is Ok,
            r->Ok_0@ == spec_convert_command(PosixCommand::Compound(*comp)),
        decreases *comp, 6int,
    {
        proof {
            assert(decreases_to!(*comp => comp.kind));
        }
        let mut out = self.convert_compound_kind(&comp.kind)?;
        if comp.redirections.len() > 0 {
            let rendered = self.convert_redirections(&comp.redirections)?;
            out.append(" ");
            out.append(rendered.as_str());
        }
        Ok(out)
    }

    /// Convert one compound construct.
    #[verifier::loop_isolation(false)]
    #[verifier::rlimit(100)]
    pub fn convert_compound_kind(&self, kind: &CompoundCommandKind) -> (r: Result<
        String,
        ConvertError,
    >)
        requires
            self.table() == spec_builtin_table(),
        ensures
            r is Ok,
            r->Ok_0@ == spec_convert_compound_kind(*kind),
        decreases *kind, 5int,
    {
        match kind {
            CompoundCommandKind::BraceGroup(cmds) => {
                proof {
                    assert(decreases_to!(*kind => *cmds));
                }
                let body = self.body_lines(cmds)?;
                let mut out: String = "{\n".to_owned();
                out.append(body.as_str());
                out.append("}");
                Ok(out)
            },
            CompoundCommandKind::Subshell(cmds) => {
                proof {
                    assert(decreases_to!(*kind => *cmds));
                }
                let parts = self.convert_each_vec(cmds)?;
                let joined = crate::text::join_with(&parts, "; ");
                let mut out: String = "(".to_owned();
                out.append(joined.as_str());
                out.append(")");
                Ok(out)
            },
            CompoundCommandKind::For { variable, words, body } => {
                proof {
                    assert(decreases_to!(*kind => *body));
                }
                let mut out: String;
                if words.len() == 0 {
                    out = "$in".to_owned();
                } else {
                    out = "[".to_owned();
                    let quoted = quote_plain_vec(words);
                    let joined = crate::text::join_with(&quoted, ", ");
                    out.append(joined.as_str());
                    out.append("]");
                }
                out.append(" | each { |");
                out.append(variable.as_str());
                out.append("| \n");
                let lines = self.body_lines(body)?;
                out.append(lines.as_str());
                out.append("}");
                Ok(out)
            },
            CompoundCommandKind::While { condition, body } => {
                proof {
                    assert(decreases_to!(*kind => *condition));
                    assert(decreases_to!(*kind => *body));
                }
                let parts = self.convert_each_vec(condition)?;
                let joined = crate::text::join_with(&parts, "; ");
                let mut out: String = "while ".to_owned();
                out.append(joined.as_str());
                out.append(" {\n");
                let lines = self.body_lines(body)?;
                out.append(lines.as_str());
                out.append("}");
                Ok(out)
            },
            CompoundCommandKind::Until { condition, body } => {
                proof {
                    assert(decreases_to!(*kind => *condition));
                    assert(decreases_to!(*kind => *body));
                }
                let parts = self.convert_each_vec(condition)?;
                let joined = crate::text::join_with(&parts, "; ");
                let mut out: String = "while not (".to_owned();
                out.append(joined.as_str());
                out.append(") {\n");
                let lines = self.body_lines(body)?;
                out.append(lines.as_str());
                out.append("}");
                Ok(out)
            },
            CompoundCommandKind::If { condition, then_body, elif_parts, else_body } => {
                proof {
                    assert(decreases_to!(*kind => *condition));
                    assert(decreases_to!(*kind => *then_body));
                    assert(decreases_to!(*kind => *elif_parts));
                }
                let parts = self.convert_each_vec(condition)?;
                let joined = crate::text::join_with(&parts, "; ");
                let mut out: String = "if ".to_owned();
                out.append(joined.as_str());
                out.append(" {\n");
                let lines = self.body_lines(then_body)?;
                out.append(lines.as_str());
                let ghost gelifs = elif_parts@;
                let ghost head = out@;
                proof {
                    assert(gelifs.skip(0) =~= gelifs);
                }
                let mut k: usize = 0;
                while k < elif_parts.len()
                    invariant
                        k <= gelifs.len(),
                        out@ + spec_elif_lines(gelifs.skip(k as int)) =~= head + spec_elif_lines(
                            gelifs,
                        ),
                    decreases gelifs.len() - k,
                {
                    proof {
                        assert(decreases_to!(gelifs => gelifs[k as int]));
                        assert(decreases_to!(gelifs[k as int] => gelifs[k as int].condition));
                        assert(decreases_to!(gelifs[k as int] => gelifs[k as int].body));
                        assert(gelifs.skip(k as int)[0] == gelifs[k as int]);
                        assert(gelifs.skip(k as int).skip(1) =~= gelifs.skip(k as int + 1));
                    }
                    let e = &elif_parts[k];
                    let eparts = self.convert_each_vec(&e.condition)?;
                    let ejoined = crate::text::join_with(&eparts, "; ");
                    out.append("} else if ");
                    out.append(ejoined.as_str());
                    out.append(" {\n");
                    let elines = self.body_lines(&e.body)?;
                    out.append(elines.as_str());
                    k = k + 1;
                }
                proof {
                    assert(spec_elif_lines(gelifs.skip(gelifs.len() as int))
                        =~= Seq::<char>::empty());
                    assert(out@ + Seq::<char>::empty() =~= out@);
                }
                match else_body {
                    Some(cmds) => {
                        proof {
                            assert(decreases_to!(*kind => *cmds));
                        }
                        out.append("} else {\n");
                        let elines = self.body_lines(cmds)?;
                        out.append(elines.as_str());
                    },
                    None => {},
                }
                out.append("}");
                Ok(out)
            },
            CompoundCommandKind::Case { word, items } => {
                let mut out: String = "match ".to_owned();
                out.append(quote_plain(word.as_str()).as_str());
                out.append(" {\n");
                let ghost gitems = items@;
                let ghost head = out@;
                proof {
                    assert(gitems.skip(0) =~= gitems);
                }
                let mut k: usize = 0;
                while k < items.len()
                    invariant
                        k <= gitems.len(),
                        out@ + spec_case_arms(gitems.skip(k as int)) =~= head + spec_case_arms(
                            gitems,
                        ),
                    decreases gitems.len() - k,
                {
                    proof {
                        assert(decreases_to!(gitems => gitems[k as int]));
                        assert(decreases_to!(gitems[k as int] => gitems[k as int].body));
                        assert(gitems.skip(k as int)[0] == gitems[k as int]);
                        assert(gitems.skip(k as int).skip(1) =~= gitems.skip(k as int + 1));
                    }
                    let item = &items[k];
                    out.append("  ");
                    let quoted = quote_plain_vec(&item.patterns);
                    let joined = crate::text::join_with(&quoted, " | ");
                    out.append(joined.as_str());
                    out.append(" => {\n");
                    let lines = self.item_lines(&item.body)?;
                    out.append(lines.as_str());
                    out.append("  }\n");
                    k = k + 1;
                }
                proof {
                    assert(spec_case_arms(gitems.skip(gitems.len() as int))
                        =~= Seq::<char>::empty());
                    assert(out@ + Seq::<char>::empty() =~= out@);
                }
                out.append("}");
                Ok(out)
            },
            CompoundCommandKind::Function { name, body } => {
                proof {
                    assert(decreases_to!(*kind => *body));
                }
                let mut out: String = "def ".to_owned();
                out.append(name.as_str());
                out.append(" [] {\n");
                let lines = self.body_lines(body)?;
                out.append(lines.as_str());
                out.append("}");
                Ok(out)
            },
            CompoundCommandKind::Arithmetic { expression } => {
                let mut out: String = "math eval \"".to_owned();
                out.append(expression.as_str());
                out.append("\"");
                Ok(out)
            },
        }
    }


    /// Convert a conjunction: both operands in parentheses.
    pub fn convert_and_or(&self, and_or: &AndOrData) -> (r: Result<String, ConvertError>)
        requires
            self.table() == spec_builtin_table(),
        ensures
            r is Ok,
            r->Ok_0@ == spec_convert_command(PosixCommand::AndOr(*and_or)),
        decreases *and_or, 5int,
    {
        proof {
            assert(decreases_to!(*and_or => *and_or.left));
            assert(decreases_to!(*and_or => *and_or.right));
        }
        let left = self.convert_command(&and_or.left)?;
        let right = self.convert_command(&and_or.right)?;
        let mut out: String = "(".to_owned();
        out.append(left.as_str());
        match and_or.operator {
            AndOrOperator::And => out.append(") and ("),
            AndOrOperator::Or => out.append(") or ("),
        }
        out.append(right.as_str());
        out.append(")");
        Ok(out)
    }

    /// Convert a list: members joined by `; `, or each followed by ` &`.
    #[verifier::loop_isolation(false)]
    pub fn convert_list(&self, list: &ListData) -> (r: Result<String, ConvertError>)
        requires
            self.table() == spec_builtin_table(),
        ensures
            r is Ok,
            r->Ok_0@ == spec_convert_command(PosixCommand::List(*list)),
        decreases *list, 5int,
    {
        proof {
            assert(decreases_to!(*list => list.commands));
        }
        let parts = self.convert_each_vec(&list.commands)?;
        match list.separator {
            ListSeparator::Sequential => Ok(crate::text::join_with(&parts, "; ")),
            ListSeparator::Background => {
                let ghost gparts = views(parts@);
                let mut out = String::new();
                let mut k: usize = 0;
                while k < parts.len()
                    invariant
                        k <= parts@.len(),
                        out@ + spec_background_list(gparts, k as int) == spec_background_list(
                            gparts,
                            0,
                        ),
                    decreases parts@.len() - k,
                {
                    proof {
                        assert(gparts[k as int] == parts@[k as int]@);
                    }
                    out.append(parts[k].as_str());
                    out.append(" &");
                    k = k + 1;
                }
                proof {
                    assert(spec_background_list(gparts, parts@.len() as int)
                        =~= Seq::<char>::empty());
                    assert(out@ + Seq::<char>::empty() =~= out@);
                }
                Ok(out)
            },
        }
    }

    /// Render redirections, joined with spaces.
    #[verifier::loop_isolation(false)]
    #[verifier::rlimit(100)]
    pub fn convert_redirections(&self, redirections: &Vec<Redirection>) -> (r: Result<
        String,
        ConvertError,
    >)
        ensures
            r is Ok,
            r->Ok_0@ == spec_redirs(redirections@),
    {
        let ghost grs = redirections@;
        let mut parts: Vec<String> = Vec::new();
        let mut i: usize = 0;
        while i < redirections.len()
            invariant
                i <= grs.len(),
                views(parts@) =~= grs.take(i as int).map_values(|r: Redirection| spec_redir_one(r)),
            decreases grs.len() - i,
        {
            let ghost prev = parts@;
            let one = redir_one(&redirections[i]);
            parts.push(one);
            proof {
                assert forall|j: int| 0 <= j < i + 1 implies views(parts@)[j] == grs.take(
                    i as int + 1,
                ).map_values(|r: Redirection| spec_redir_one(r))[j] by {
                    assert(views(parts@)[j] == parts@[j]@);
                    if j < i {
                        assert(views(prev)[j] == prev[j]@);
                        assert(grs.take(i as int)[j] == grs[j]);
                    }
                }
                assert(views(parts@) =~= grs.take(i as int + 1).map_values(
                    |r: Redirection| spec_redir_one(r),
                ));
            }
            i = i + 1;
        }
        proof {
            assert(grs.take(grs.len() as int) =~= grs);
        }
        Ok(crate::text::join_with(&parts, " "))
    }

    /// Quote one argument under the dispatcher's rule.
    pub fn quote_arg(&self, arg: &str) -> (r: String)
        ensures
            r@ == spec_quote_plain(arg@),
    {
        quote_plain(arg)
    }

    /// Format arguments under the dispatcher's rule.
    pub fn format_args(&self, args: &[String]) -> (r: String)
        ensures
            r@ == spec_plain_args(views(args@)),
    {
        plain_args(args)
    }
}

impl Default for PosixToNuConverter {
    fn default() -> (r: Self)
        ensures
            r.table() == spec_builtin_table(),
    {
        Self::new()
    }
}

/// One rendered redirection, executably.
#[verifier::rlimit(100)]
fn redir_one(r: &Redirection) -> (out: String)
    ensures
        out@ == spec_redir_one(*r),
{
    let q = quote_plain(r.target.as_str());
    match r.operator {
        RedirectionOp::Input => {
            let mut s: String = "< ".to_owned();
            s.append(q.as_str());
            s
        },
        RedirectionOp::Output => {
            let mut s: String = "out> ".to_owned();
            s.append(q.as_str());
            s
        },
        RedirectionOp::Append => {
            let mut s: String = "out>> ".to_owned();
            s.append(q.as_str());
            s
        },
        RedirectionOp::InputOutput => {
            let mut s: String = "<> ".to_owned();
            s.append(q.as_str());
            s
        },
        RedirectionOp::Clobber => {
            let mut s: String = "out> ".to_owned();
            s.append(q.as_str());
            s
        },
        RedirectionOp::InputHereDoc => {
            let mut s: String = "echo ".to_owned();
            s.append(q.as_str());
            s.append(" | # stdin");
            s
        },
        RedirectionOp::InputHereString => {
            let mut s: String = "echo ".to_owned();
            s.append(q.as_str());
            s.append(" |");
            s
        },
        RedirectionOp::OutputDup => match r.fd {
            Some(fd) => {
                if fd == 1 {
                    let mut s: String = "out> ".to_owned();
                    s.append(q.as_str());
                    s
                } else if fd == 2 {
                    let mut s: String = "err> ".to_owned();
                    s.append(q.as_str());
                    s
                } else {
                    let mut s: String = "# unsupported: output dup fd ".to_owned();
                    s.append(i32_to_dec(fd).as_str());
                    s.append(" to ");
                    s.append(r.target.as_str());
                    s
                }
            },
            None => {
                let mut s: String = "out> ".to_owned();
                s.append(q.as_str());
                s
            },
        },
        RedirectionOp::InputDup => match r.fd {
            Some(fd) => {
                let mut s: String = "# unsupported: input dup fd ".to_owned();
                s.append(i32_to_dec(fd).as_str());
                s.append(" from ");
                s.append(r.target.as_str());
                s
            },
            None => {
                let mut s: String = "< ".to_owned();
                s.append(q.as_str());
                s
            },
        },
    }
}

/// Arguments quoted under the dispatcher's rule and joined with spaces.
#[verifier::loop_isolation(false)]
fn plain_args(args: &[String]) -> (r: String)
    ensures
        r@ == spec_plain_args(views(args@)),
{
    let ghost vs = views(args@);
    let mut quoted: Vec<String> = Vec::new();
    let mut k: usize = 0;
    while k < args.len()
        invariant
            k <= args@.len(),
            views(quoted@) =~= vs.take(k as int).map_values(|v: Seq<char>| spec_quote_plain(v)),
        decreases args@.len() - k,
    {
        let ghost prev = quoted@;
        quoted.push(quote_plain(args[k].as_str()));
        proof {
            assert(vs[k as int] == args@[k as int]@);
            assert forall|j: int| 0 <= j < k + 1 implies views(quoted@)[j] == vs.take(
                k as int + 1,
            ).map_values(|v: Seq<char>| spec_quote_plain(v))[j] by {
                assert(views(quoted@)[j] == quoted@[j]@);
                if j < k {
                    assert(views(prev)[j] == prev[j]@);
                    assert(vs.take(k as int)[j] == vs[j]);
                }
            }
            assert(views(quoted@) =~= vs.take(k as int + 1).map_values(
                |v: Seq<char>| spec_quote_plain(v),
            ));
        }
        k = k + 1;
    }
    proof {
        assert(vs.take(args@.len() as int) =~= vs);
        reveal_strlit(" ");
        assert(" "@ =~= seq![' ']);
    }
    crate::text::join_with(&quoted, " ")
}

} // verus!

verus! {


/// Each value quoted under the dispatcher's rule, as a vector.
#[verifier::loop_isolation(false)]
fn quote_plain_vec(args: &Vec<String>) -> (r: Vec<String>)
    ensures
        views(r@) == views(args@).map_values(|v: Seq<char>| spec_quote_plain(v)),
{
    let ghost vs = views(args@);
    let mut quoted: Vec<String> = Vec::new();
    let mut k: usize = 0;
    while k < args.len()
        invariant
            k <= args@.len(),
            views(quoted@) =~= vs.take(k as int).map_values(|v: Seq<char>| spec_quote_plain(v)),
        decreases args@.len() - k,
    {
        let ghost prev = quoted@;
        quoted.push(quote_plain(args[k].as_str()));
        proof {
            assert(vs[k as int] == args@[k as int]@);
            assert forall|j: int| 0 <= j < k + 1 implies views(quoted@)[j] == vs.take(
                k as int + 1,
            ).map_values(|v: Seq<char>| spec_quote_plain(v))[j] by {
                assert(views(quoted@)[j] == quoted@[j]@);
                if j < k {
                    assert(views(prev)[j] == prev[j]@);
                    assert(vs.take(k as int)[j] == vs[j]);
                }
            }
            assert(views(quoted@) =~= vs.take(k as int + 1).map_values(
                |v: Seq<char>| spec_quote_plain(v),
            ));
        }
        k = k + 1;
    }
    proof {
        assert(vs.take(args@.len() as int) =~= vs);
    }
    quoted
}

/// The inline utility table, executably.
#[verifier::loop_isolation(false)]
#[verifier::rlimit(100)]
fn dispatch_utility(name: &str, args: &[String]) -> (r: Result<String, ConvertError>)
    ensures
        r is Ok,
        r->Ok_0@ == spec_dispatch_name(name@, views(args@)),
{
    let ghost vs = views(args@);
    proof {
        assert forall|j: int| 0 <= j < vs.len() implies #[trigger] vs[j] == args@[j]@ by {}
    }
    if str_eq(name, "echo") {
        if args.len() == 0 {
            Ok("print".to_owned())
        } else {
            let mut out: String = "print ".to_owned();
            out.append(plain_args(args).as_str());
            Ok(out)
        }
    } else if str_eq(name, "cat") {
        if args.len() == 0 {
            Ok("input".to_owned())
        } else {
            let mut out: String = "open --raw ".to_owned();
            out.append(plain_args(args).as_str());
            Ok(out)
        }
    } else if str_eq(name, "grep") {
        if args.len() == 0 {
            Ok("grep".to_owned())
        } else if args.len() == 1 {
            let mut out: String = "where $it =~ ".to_owned();
            out.append(quote_plain(args[0].as_str()).as_str());
            Ok(out)
        } else if args.len() == 2 {
            let mut out: String = "open ".to_owned();
            out.append(quote_plain(args[1].as_str()).as_str());
            out.append(" | lines | where $it =~ ");
            out.append(quote_plain(args[0].as_str()).as_str());
            Ok(out)
        } else {
            let mut out: String = "grep ".to_owned();
            out.append(plain_args(args).as_str());
            Ok(out)
        }
    } else if str_eq(name, "sort") {
        Ok("sort".to_owned())
    } else if str_eq(name, "uniq") {
        Ok("uniq".to_owned())
    } else if str_eq(name, "head") {
        dispatch_head_tail(args, true, Ghost(name@))
    } else if str_eq(name, "tail") {
        dispatch_head_tail(args, false, Ghost(name@))
    } else if str_eq(name, "wc") {
        dispatch_wc(args)
    } else if str_eq(name, "cut") {
        dispatch_cut(args)
    } else if str_eq(name, "awk") {
        dispatch_awk(args)
    } else if str_eq(name, "sed") {
        dispatch_sed(args)
    } else {
        dispatch_utility_rest(name, args)
    }
}

/// The remaining arms of the inline utility table.
#[verifier::loop_isolation(false)]
#[verifier::rlimit(100)]
fn dispatch_utility_rest(name: &str, args: &[String]) -> (r: Result<String, ConvertError>)
    requires
        name@ != "echo"@,
        name@ != "cat"@,
        name@ != "grep"@,
        name@ != "sort"@,
        name@ != "uniq"@,
        name@ != "head"@,
        name@ != "tail"@,
        name@ != "wc"@,
        name@ != "cut"@,
        name@ != "awk"@,
        name@ != "sed"@,
    ensures
        r is Ok,
        r->Ok_0@ == spec_dispatch_rest(name@, views(args@)),
{
    let ghost vs = views(args@);
    proof {
        assert forall|j: int| 0 <= j < vs.len() implies #[trigger] vs[j] == args@[j]@ by {}
    }
    if str_eq(name, "rm") {
        if args.len() == 0 {
            proof {
                assert(spec_dispatch_rest(name@, vs) == "rm"@);
            }
            Ok("rm".to_owned())
        } else {
            let mut out: String = "rm ".to_owned();
            out.append(plain_args(args).as_str());
            proof {
                assert(spec_dispatch_rest(name@, vs) == "rm "@ + spec_plain_args(vs));
            }
            Ok(out)
        }
    } else if str_eq(name, "cp") || str_eq(name, "mv") {
        let mut out: String = if str_eq(name, "cp") {
            "cp ".to_owned()
        } else {
            "mv ".to_owned()
        };
        if args.len() >= 2 {
            out.append(quote_plain(args[0].as_str()).as_str());
            out.append(" ");
            out.append(quote_plain(args[1].as_str()).as_str());
        } else {
            out.append(plain_args(args).as_str());
        }
        proof {
            assert(out@ == spec_dispatch_rest(name@, vs));
        }
        Ok(out)
    } else if str_eq(name, "mkdir") {
        let mut out: String = "mkdir ".to_owned();
        out.append(plain_args(args).as_str());
        Ok(out)
    } else if str_eq(name, "rmdir") {
        let mut out: String = "rmdir ".to_owned();
        out.append(plain_args(args).as_str());
        Ok(out)
    } else if str_eq(name, "chmod") {
        let mut out: String = "chmod ".to_owned();
        out.append(plain_args(args).as_str());
        Ok(out)
    } else if str_eq(name, "chown") {
        let mut out: String = "chown ".to_owned();
        out.append(plain_args(args).as_str());
        Ok(out)
    } else if str_eq(name, "which") {
        let mut out: String = "which ".to_owned();
        out.append(plain_args(args).as_str());
        Ok(out)
    } else if str_eq(name, "whoami") {
        Ok("whoami".to_owned())
    } else if str_eq(name, "date") {
        if args.len() == 0 {
            Ok("date now".to_owned())
        } else if args.len() == 2 && str_eq(args[0].as_str(), "-d") {
            let mut out = quote_plain(args[1].as_str());
            out.append(" | into datetime");
            Ok(out)
        } else {
            let mut out: String = "date ".to_owned();
            out.append(plain_args(args).as_str());
            Ok(out)
        }
    } else {
        dispatch_utility_tail(name, args)
    }
}

/// The tail of the inline utility table.
#[verifier::loop_isolation(false)]
#[verifier::rlimit(100)]
fn dispatch_utility_tail(name: &str, args: &[String]) -> (r: Result<String, ConvertError>)
    requires
        name@ != "echo"@,
        name@ != "cat"@,
        name@ != "grep"@,
        name@ != "sort"@,
        name@ != "uniq"@,
        name@ != "head"@,
        name@ != "tail"@,
        name@ != "wc"@,
        name@ != "cut"@,
        name@ != "awk"@,
        name@ != "sed"@,
        name@ != "rm"@,
        name@ != "cp"@,
        name@ != "mv"@,
        name@ != "mkdir"@,
        name@ != "rmdir"@,
        name@ != "chmod"@,
        name@ != "chown"@,
        name@ != "which"@,
        name@ != "whoami"@,
        name@ != "date"@,
    ensures
        r is Ok,
        r->Ok_0@ == spec_dispatch_tail(name@, views(args@)),
{
    let ghost vs = views(args@);
    proof {
        assert forall|j: int| 0 <= j < vs.len() implies #[trigger] vs[j] == args@[j]@ by {}
    }
    if str_eq(name, "ps") {
        Ok("ps".to_owned())
    } else if str_eq(name, "seq") {
        if args.len() == 1 {
            let mut out: String = "1..".to_owned();
            out.append(args[0].as_str());
            Ok(out)
        } else if args.len() == 2 {
            let mut out: String = args[0].clone();
            out.append("..");
            out.append(args[1].as_str());
            Ok(out)
        } else if args.len() == 3 {
            let mut out: String = args[0].clone();
            out.append("..");
            out.append(args[2].as_str());
            out.append(" | step ");
            out.append(args[1].as_str());
            Ok(out)
        } else {
            let mut out: String = "seq ".to_owned();
            out.append(plain_args(args).as_str());
            Ok(out)
        }
    } else if str_eq(name, "stat") {
        let mut out: String = "stat ".to_owned();
        out.append(plain_args(args).as_str());
        Ok(out)
    } else if str_eq(name, "basename") {
        let mut out: String = "path basename ".to_owned();
        out.append(plain_args(args).as_str());
        Ok(out)
    } else if str_eq(name, "dirname") {
        let mut out: String = "path dirname ".to_owned();
        out.append(plain_args(args).as_str());
        Ok(out)
    } else if str_eq(name, "realpath") {
        let mut out: String = "path expand ".to_owned();
        out.append(plain_args(args).as_str());
        Ok(out)
    } else if str_eq(name, "tee") {
        if args.len() == 1 {
            let mut out: String = "tee { save ".to_owned();
            out.append(quote_plain(args[0].as_str()).as_str());
            out.append(" }");
            Ok(out)
        } else {
            let mut out: String = "tee ".to_owned();
            out.append(plain_args(args).as_str());
            Ok(out)
        }
    } else {
        if args.len() == 0 {
            Ok(name.to_owned())
        } else {
            let mut out: String = name.to_owned();
            out.append(" ");
            out.append(plain_args(args).as_str());
            Ok(out)
        }
    }
}

/// The inline `head` / `tail` arm.
#[verifier::rlimit(100)]
fn dispatch_head_tail(args: &[String], is_head: bool, Ghost(name): Ghost<Seq<char>>) -> (r: Result<
    String,
    ConvertError,
>)
    requires
        is_head ==> name == "head"@,
        !is_head ==> name == "tail"@,
    ensures
        r is Ok,
        r->Ok_0@ == spec_dispatch_name(name, views(args@)),
{
    let ghost vs = views(args@);
    proof {
        assert forall|j: int| 0 <= j < vs.len() implies #[trigger] vs[j] == args@[j]@ by {}
        lemma_utility_names_distinct();
    }
    if args.len() == 0 {
        if is_head {
            Ok("first 10".to_owned())
        } else {
            Ok("last 10".to_owned())
        }
    } else if args.len() == 2 && str_eq(args[0].as_str(), "-n") {
        let mut out: String = if is_head {
            "first ".to_owned()
        } else {
            "last ".to_owned()
        };
        out.append(args[1].as_str());
        Ok(out)
    } else {
        let a0 = args[0].as_str();
        let n0 = a0.unicode_len();
        if args.len() == 1 && starts_with(a0, "-") && n0 > 1
            && crate::plugin::sus::head::is_all_digits_from(a0, 1) {
            proof {
                reveal_strlit("-");
            }
            let mut out: String = if is_head {
                "first ".to_owned()
            } else {
                "last ".to_owned()
            };
            out.append(a0.substring_char(1, n0));
            proof {
                assert(a0@.subrange(1, n0 as int) =~= a0@.skip(1));
            }
            Ok(out)
        } else {
            let mut out: String = if is_head {
                "head ".to_owned()
            } else {
                "tail ".to_owned()
            };
            out.append(plain_args(args).as_str());
            Ok(out)
        }
    }
}

/// The inline `wc` arm.
#[verifier::loop_isolation(false)]
#[verifier::rlimit(100)]
fn dispatch_wc(args: &[String]) -> (r: Result<String, ConvertError>)
    ensures
        r is Ok,
        r->Ok_0@ == spec_dispatch_name("wc"@, views(args@)),
{
    let ghost vs = views(args@);
    proof {
        assert forall|j: int| 0 <= j < vs.len() implies #[trigger] vs[j] == args@[j]@ by {}
        lemma_utility_names_distinct();
    }
    if args.len() == 0 {
        return Ok("wc".to_owned());
    }
    if contains_arg(args, "-l") {
        Ok("lines | length".to_owned())
    } else if contains_arg(args, "-w") {
        Ok("str words | length".to_owned())
    } else if contains_arg(args, "-c") {
        Ok("str length".to_owned())
    } else {
        let mut out: String = "wc ".to_owned();
        out.append(plain_args(args).as_str());
        Ok(out)
    }
}

/// Whether one of the arguments equals `w`.
#[verifier::loop_isolation(false)]
fn contains_arg(args: &[String], w: &str) -> (r: bool)
    ensures
        r == views(args@).contains(w@),
{
    let ghost vs = views(args@);
    let mut i: usize = 0;
    while i < args.len()
        invariant
            i <= args@.len(),
            forall|j: int| 0 <= j < i ==> vs[j] != w@,
        decreases args@.len() - i,
    {
        proof {
            assert(vs[i as int] == args@[i as int]@);
        }
        if str_eq(args[i].as_str(), w) {
            proof {
                assert(vs.contains(w@));
            }
            return true;
        }
        i = i + 1;
    }
    proof {
        assert(!vs.contains(w@));
    }
    false
}

/// The inline `cut` arm.
#[verifier::rlimit(100)]
fn dispatch_cut(args: &[String]) -> (r: Result<String, ConvertError>)
    ensures
        r is Ok,
        r->Ok_0@ == spec_dispatch_name("cut"@, views(args@)),
{
    let ghost vs = views(args@);
    proof {
        assert forall|j: int| 0 <= j < vs.len() implies #[trigger] vs[j] == args@[j]@ by {}
        lemma_utility_names_distinct();
    }
    if args.len() >= 4 && str_eq(args[0].as_str(), "-d") && str_eq(args[2].as_str(), "-f") {
        let f: i32 = match parse_i32(args[3].as_str()) {
            Some(v) => v,
            None => 1,
        };
        let mut out: String = "split row ".to_owned();
        out.append(quote_plain(args[1].as_str()).as_str());
        out.append(" | get ");
        out.append(i64_to_dec(f as i64 - 1).as_str());
        Ok(out)
    } else if args.len() == 0 {
        Ok("cut".to_owned())
    } else {
        let mut out: String = "cut ".to_owned();
        out.append(plain_args(args).as_str());
        Ok(out)
    }
}

/// The inline `awk` arm.
#[verifier::rlimit(100)]
fn dispatch_awk(args: &[String]) -> (r: Result<String, ConvertError>)
    ensures
        r is Ok,
        r->Ok_0@ == spec_dispatch_name("awk"@, views(args@)),
{
    let ghost vs = views(args@);
    proof {
        assert forall|j: int| 0 <= j < vs.len() implies #[trigger] vs[j] == args@[j]@ by {}
        lemma_utility_names_distinct();
    }
    if args.len() == 1 {
        let p = args[0].as_str();
        if starts_with(p, "{") && crate::text::ends_with(p, "}") && crate::text::contains_sub(
            p,
            "print",
        ) {
            return Ok("each { |row| print $row }".to_owned());
        }
    }
    if args.len() == 0 {
        Ok("awk".to_owned())
    } else {
        let mut out: String = "awk ".to_owned();
        out.append(plain_args(args).as_str());
        Ok(out)
    }
}

/// The inline `sed` arm.
#[verifier::rlimit(100)]
fn dispatch_sed(args: &[String]) -> (r: Result<String, ConvertError>)
    ensures
        r is Ok,
        r->Ok_0@ == spec_dispatch_name("sed"@, views(args@)),
{
    let ghost vs = views(args@);
    proof {
        assert forall|j: int| 0 <= j < vs.len() implies #[trigger] vs[j] == args@[j]@ by {}
        lemma_utility_names_distinct();
    }
    if args.len() == 1 {
        let p = args[0].as_str();
        if starts_with(p, "s/") {
            let parts = split_char(p, '/');
            if parts.len() >= 3 {
                proof {
                    assert(views(parts@)[1] == parts@[1]@);
                    assert(views(parts@)[2] == parts@[2]@);
                }
                let mut out: String = "str replace ".to_owned();
                out.append(quote_plain(parts[1].as_str()).as_str());
                out.append(" ");
                out.append(quote_plain(parts[2].as_str()).as_str());
                return Ok(out);
            }
        }
    }
    if args.len() == 0 {
        Ok("sed".to_owned())
    } else {
        let mut out: String = "sed ".to_owned();
        out.append(plain_args(args).as_str());
        Ok(out)
    }
}

} // verus!

verus! {

/// The utility names of the inline table are pairwise distinct where the
/// dispatch helpers need it.
pub proof fn lemma_utility_names_distinct()
    ensures
        "head"@ != "echo"@,
        "head"@ != "cat"@,
        "head"@ != "grep"@,
        "head"@ != "sort"@,
        "head"@ != "uniq"@,
        "tail"@ != "echo"@,
        "tail"@ != "cat"@,
        "tail"@ != "grep"@,
        "tail"@ != "sort"@,
        "tail"@ != "uniq"@,
        "tail"@ != "head"@,
        "wc"@ != "echo"@,
        "wc"@ != "cat"@,
        "wc"@ != "grep"@,
        "wc"@ != "sort"@,
        "wc"@ != "uniq"@,
        "wc"@ != "head"@,
        "wc"@ != "tail"@,
        "cut"@ != "echo"@,
        "cut"@ != "cat"@,
        "cut"@ != "grep"@,
        "cut"@ != "sort"@,
        "cut"@ != "uniq"@,
        "cut"@ != "head"@,
        "cut"@ != "tail"@,
        "cut"@ != "wc"@,
        "awk"@ != "echo"@,
        "awk"@ != "cat"@,
        "awk"@ != "grep"@,
        "awk"@ != "sort"@,
        "awk"@ != "uniq"@,
        "awk"@ != "head"@,
        "awk"@ != "tail"@,
        "awk"@ != "wc"@,
        "awk"@ != "cut"@,
        "sed"@ != "echo"@,
        "sed"@ != "cat"@,
        "sed"@ != "grep"@,
        "sed"@ != "sort"@,
        "sed"@ != "uniq"@,
        "sed"@ != "head"@,
        "sed"@ != "tail"@,
        "sed"@ != "wc"@,
        "sed"@ != "cut"@,
        "sed"@ != "awk"@,
{
        reveal_strlit("echo");
        reveal_strlit("cat");
        reveal_strlit("grep");
        reveal_strlit("sort");
        reveal_strlit("uniq");
        reveal_strlit("head");
        reveal_strlit("tail");
        reveal_strlit("wc");
        reveal_strlit("cut");
        reveal_strlit("awk");
        reveal_strlit("sed");
        assert("echo"@ =~= seq!['e', 'c', 'h', 'o']);
        assert("cat"@ =~= seq!['c', 'a', 't']);
        assert("grep"@ =~= seq!['g', 'r', 'e', 'p']);
        assert("sort"@ =~= seq!['s', 'o', 'r', 't']);
        assert("uniq"@ =~= seq!['u', 'n', 'i', 'q']);
        assert("head"@ =~= seq!['h', 'e', 'a', 'd']);
        assert("tail"@ =~= seq!['t', 'a', 'i', 'l']);
        assert("wc"@ =~= seq!['w', 'c']);
        assert("cut"@ =~= seq!['c', 'u', 't']);
        assert("awk"@ =~= seq!['a', 'w', 'k']);
        assert("sed"@ =~= seq!['s', 'e', 'd']);
}

} // verus!
