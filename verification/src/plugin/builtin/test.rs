//! `test` / `[` builtin converter: maps test expressions to target
//! conditional expressions.

use super::{BaseBuiltinConverter, BuiltinConverter};
use crate::plugin::ConvertError;
use crate::quoting::{quote_literal, spec_quote_literal, spec_format_args};
use crate::text::{copy_range, str_eq, views};
use vstd::prelude::*;

verus! {

/// Converter for the `test` builtin; the registry also routes `[` here.
pub struct TestBuiltinConverter;

/// Rendering of a one-argument test: non-emptiness of the value, or the
/// degenerate closing bracket.
pub open spec fn spec_test_unary(a: Seq<char>) -> Seq<char> {
    if a == "]"@ {
        "true"@
    } else {
        "("@ + spec_quote_literal(a) + " | is-not-empty)"@
    }
}

/// Rendering of a two-argument test: a unary operator applied to a value.
pub open spec fn spec_test_binary(op: Seq<char>, a: Seq<char>) -> Seq<char> {
    let q = spec_quote_literal(a);
    if op == "-f"@ || op == "-e"@ || op == "-w"@ || op == "-x"@ {
        "("@ + q + " | path exists)"@
    } else if op == "-d"@ {
        "("@ + q + " | path type) == \"dir\""@
    } else if op == "-r"@ {
        "("@ + q + " | path exists and ("@ + q + " | path type) == \"file\")"@
    } else if op == "-s"@ {
        "("@ + q + " | path exists and (open "@ + q + " | length) > 0)"@
    } else if op == "-L"@ {
        "("@ + q + " | path type) == \"symlink\""@
    } else if op == "-b"@ {
        "("@ + q + " | path type) == \"block\""@
    } else if op == "-c"@ {
        "("@ + q + " | path type) == \"char\""@
    } else if op == "-p"@ {
        "("@ + q + " | path type) == \"fifo\""@
    } else if op == "-S"@ {
        "("@ + q + " | path type) == \"socket\""@
    } else if op == "-t"@ {
        "("@ + q + " | into int) in [0, 1, 2]"@
    } else if op == "-z"@ {
        "("@ + q + " | is-empty)"@
    } else if op == "-n"@ {
        "("@ + q + " | is-not-empty)"@
    } else if op == "!"@ {
        "not ("@ + spec_test_unary(a) + ")"@
    } else {
        "test "@ + op + " "@ + crate::quoting::spec_quote_word(a)
    }
}

/// Rendering of a three-argument test: a binary operator between two values.
pub open spec fn spec_test_ternary(l: Seq<char>, op: Seq<char>, r: Seq<char>) -> Seq<char> {
    let ql = spec_quote_literal(l);
    let qr = spec_quote_literal(r);
    if op == "="@ || op == "=="@ {
        ql + " == "@ + qr
    } else if op == "!="@ {
        ql + " != "@ + qr
    } else if op == "-eq"@ {
        l + " == "@ + r
    } else if op == "-ne"@ {
        l + " != "@ + r
    } else if op == "-lt"@ {
        l + " < "@ + r
    } else if op == "-le"@ {
        l + " <= "@ + r
    } else if op == "-gt"@ {
        l + " > "@ + r
    } else if op == "-ge"@ {
        l + " >= "@ + r
    } else if op == "-nt"@ {
        "("@ + ql + " | path exists) and ("@ + qr + " | path exists) and (("@ + ql
            + " | get modified) > ("@ + qr + " | get modified))"@
    } else if op == "-ot"@ {
        "("@ + ql + " | path exists) and ("@ + qr + " | path exists) and (("@ + ql
            + " | get modified) < ("@ + qr + " | get modified))"@
    } else if op == "-ef"@ {
        "("@ + ql + " | path exists) and ("@ + qr + " | path exists) and (("@ + ql
            + " | get inode) == ("@ + qr + " | get inode))"@
    } else if op == "=~"@ {
        ql + " =~ "@ + qr
    } else if op == "!~"@ {
        ql + " !~ "@ + qr
    } else {
        "test "@ + l + " "@ + op + " "@ + r
    }
}

/// A test expression with a surrounding `[` ... `]` removed.
pub open spec fn spec_strip_brackets(vs: Seq<Seq<char>>) -> Seq<Seq<char>> {
    if vs.len() >= 2 && vs[0] == "["@ && vs[vs.len() - 1] == "]"@ {
        vs.subrange(1, vs.len() - 1)
    } else {
        vs
    }
}

/// Whether the expression contains one of the logical connective tokens.
pub open spec fn spec_has_logic_op(vs: Seq<Seq<char>>) -> bool {
    exists|k: int|
        0 <= k < vs.len() && (#[trigger] vs[k] == "-a"@ || vs[k] == "&&"@ || vs[k] == "-o"@
            || vs[k] == "||"@)
}

/// Rendering of an expression without logical connectives, by argument count.
pub open spec fn spec_test_simple(a: Seq<Seq<char>>) -> Seq<char> {
    if a.len() == 0 {
        "false"@
    } else if a.len() == 1 {
        spec_test_unary(a[0])
    } else if a.len() == 2 {
        spec_test_binary(a[0], a[1])
    } else if a.len() == 3 {
        spec_test_ternary(a[0], a[1], a[2])
    } else {
        "test "@ + spec_format_args(a)
    }
}

/// Splits an expression at its logical connectives.  Each part carries the
/// connective that followed it (`and`, `or`, or nothing for the last part).
pub open spec fn spec_test_parts(
    vs: Seq<Seq<char>>,
    i: int,
    cur: Seq<Seq<char>>,
    acc: Seq<(Seq<Seq<char>>, Seq<char>)>,
) -> Seq<(Seq<Seq<char>>, Seq<char>)>
    decreases vs.len() - i,
{
    if i < 0 || i >= vs.len() {
        if cur.len() > 0 {
            acc.push((cur, ""@))
        } else {
            acc
        }
    } else if vs[i] == "-a"@ || vs[i] == "&&"@ {
        if cur.len() > 0 {
            spec_test_parts(vs, i + 1, Seq::empty(), acc.push((cur, "and"@)))
        } else {
            spec_test_parts(vs, i + 1, cur, acc)
        }
    } else if vs[i] == "-o"@ || vs[i] == "||"@ {
        if cur.len() > 0 {
            spec_test_parts(vs, i + 1, Seq::empty(), acc.push((cur, "or"@)))
        } else {
            spec_test_parts(vs, i + 1, cur, acc)
        }
    } else {
        spec_test_parts(vs, i + 1, cur.push(vs[i]), acc)
    }
}

/// Rendering of a connective-split expression: each part in parentheses,
/// joined by the connective recorded on the preceding part.
pub open spec fn spec_test_complex_from(
    parts: Seq<(Seq<Seq<char>>, Seq<char>)>,
    i: int,
) -> Seq<char>
    decreases parts.len() - i,
{
    if i < 0 || i >= parts.len() {
        Seq::empty()
    } else {
        (if i > 0 {
            " "@ + parts[i - 1].1 + " "@
        } else {
            Seq::<char>::empty()
        }) + "("@ + spec_test_simple(parts[i].0) + ")"@ + spec_test_complex_from(parts, i + 1)
    }
}

/// Rendering of a longer test expression: brackets stripped, then either a
/// direct rendering or a split at the logical connectives.
pub open spec fn spec_test_complex(vs: Seq<Seq<char>>) -> Seq<char> {
    let a = spec_strip_brackets(vs);
    if a.len() == 0 {
        "false"@
    } else if !spec_has_logic_op(a) {
        spec_test_simple(a)
    } else {
        let parts = spec_test_parts(a, 0, Seq::empty(), Seq::empty());
        if parts.len() == 0 {
            "false"@
        } else {
            spec_test_complex_from(parts, 0)
        }
    }
}

/// The exact text produced for `test` with the given arguments.
pub open spec fn spec_convert_test(vs: Seq<Seq<char>>) -> Seq<char> {
    if vs.len() == 0 {
        "false"@
    } else if vs.len() <= 3 {
        spec_test_simple(vs)
    } else {
        spec_test_complex(vs)
    }
}

impl BuiltinConverter for TestBuiltinConverter {
    open spec fn spec_convert(&self, vs: Seq<Seq<char>>) -> Seq<char> {
        spec_convert_test(vs)
    }

    open spec fn spec_name(&self) -> Seq<char> {
        "test"@
    }

    fn convert(&self, args: &[String]) -> (r: Result<String, ConvertError>) {
        let base = BaseBuiltinConverter;
        if args.len() == 0 {
            return Ok("false".to_owned());
        }
        if args.len() == 1 {
            self.convert_unary_test(args, &base)
        } else if args.len() == 2 {
            self.convert_binary_test(args, &base)
        } else if args.len() == 3 {
            self.convert_ternary_test(args, &base)
        } else if args.len() == 4 {
            self.convert_bracket_test(args, &base)
        } else {
            self.convert_complex_test(args, &base)
        }
    }

    fn builtin_name(&self) -> (r: &'static str) {
        "test"
    }

    fn description(&self) -> &'static str {
        "Converts test builtin commands to target conditional expressions"
    }
}

impl TestBuiltinConverter {
    /// Convert a one-argument test.
    pub fn convert_unary_test(&self, args: &[String], _base: &BaseBuiltinConverter) -> (r: Result<
        String,
        ConvertError,
    >)
        requires
            args@.len() >= 1,
        ensures
            r is Ok,
            r->Ok_0@ == spec_test_unary(args@[0]@),
    {
        let a = args[0].as_str();
        proof {
            assert(views(args@)[0] == args@[0]@);
        }
        if str_eq(a, "]") {
            Ok("true".to_owned())
        } else {
            let mut out: String = "(".to_owned();
            out.append(quote_literal(a).as_str());
            out.append(" | is-not-empty)");
            Ok(out)
        }
    }

    /// Convert a two-argument test: a unary operator and its operand.
    #[verifier::rlimit(60)]
    pub fn convert_binary_test(&self, args: &[String], base: &BaseBuiltinConverter) -> (r: Result<
        String,
        ConvertError,
    >)
        requires
            args@.len() >= 2,
        ensures
            r is Ok,
            r->Ok_0@ == spec_test_binary(args@[0]@, args@[1]@),
    {
        let op = args[0].as_str();
        let a = args[1].as_str();
        let q = quote_literal(a);
        if str_eq(op, "-f") || str_eq(op, "-e") || str_eq(op, "-w") || str_eq(op, "-x") {
            let mut out: String = "(".to_owned();
            out.append(q.as_str());
            out.append(" | path exists)");
            Ok(out)
        } else if str_eq(op, "-d") {
            let mut out: String = "(".to_owned();
            out.append(q.as_str());
            out.append(" | path type) == \"dir\"");
            Ok(out)
        } else if str_eq(op, "-r") {
            let mut out: String = "(".to_owned();
            out.append(q.as_str());
            out.append(" | path exists and (");
            out.append(q.as_str());
            out.append(" | path type) == \"file\")");
            Ok(out)
        } else if str_eq(op, "-s") {
            let mut out: String = "(".to_owned();
            out.append(q.as_str());
            out.append(" | path exists and (open ");
            out.append(q.as_str());
            out.append(" | length) > 0)");
            Ok(out)
        } else if str_eq(op, "-L") {
            let mut out: String = "(".to_owned();
            out.append(q.as_str());
            out.append(" | path type) == \"symlink\"");
            Ok(out)
        } else if str_eq(op, "-b") {
            let mut out: String = "(".to_owned();
            out.append(q.as_str());
            out.append(" | path type) == \"block\"");
            Ok(out)
        } else if str_eq(op, "-c") {
            let mut out: String = "(".to_owned();
            out.append(q.as_str());
            out.append(" | path type) == \"char\"");
            Ok(out)
        } else if str_eq(op, "-p") {
            let mut out: String = "(".to_owned();
            out.append(q.as_str());
            out.append(" | path type) == \"fifo\"");
            Ok(out)
        } else if str_eq(op, "-S") {
            let mut out: String = "(".to_owned();
            out.append(q.as_str());
            out.append(" | path type) == \"socket\"");
            Ok(out)
        } else if str_eq(op, "-t") {
            let mut out: String = "(".to_owned();
            out.append(q.as_str());
            out.append(" | into int) in [0, 1, 2]");
            Ok(out)
        } else if str_eq(op, "-z") {
            let mut out: String = "(".to_owned();
            out.append(q.as_str());
            out.append(" | is-empty)");
            Ok(out)
        } else if str_eq(op, "-n") {
            let mut out: String = "(".to_owned();
            out.append(q.as_str());
            out.append(" | is-not-empty)");
            Ok(out)
        } else if str_eq(op, "!") {
            let mut out: String = "not (".to_owned();
            let one = copy_range(args, 1, 2);
            proof {
                assert(views(one@).len() == 1);
                assert(one@.len() == 1);
                assert(views(one@)[0] == views(args@).subrange(1, 2)[0]);
                assert(views(one@)[0] == one@[0]@);
                assert(views(args@).subrange(1, 2)[0] == views(args@)[1]);
                assert(views(args@)[1] == args@[1]@);
            }
            let inner = self.convert_unary_test(one.as_slice(), base)?;
            out.append(inner.as_str());
            out.append(")");
            Ok(out)
        } else {
            let mut out: String = "test ".to_owned();
            out.append(op);
            out.append(" ");
            out.append(base.quote_arg(a).as_str());
            Ok(out)
        }
    }

    /// Convert a three-argument test: a binary operator between two operands.
    #[verifier::rlimit(60)]
    pub fn convert_ternary_test(&self, args: &[String], _base: &BaseBuiltinConverter) -> (r:
        Result<String, ConvertError>)
        requires
            args@.len() >= 3,
        ensures
            r is Ok,
            r->Ok_0@ == spec_test_ternary(args@[0]@, args@[1]@, args@[2]@),
    {
        let l = args[0].as_str();
        let op = args[1].as_str();
        let rr = args[2].as_str();
        let ql = quote_literal(l);
        let qr = quote_literal(rr);
        if str_eq(op, "=") || str_eq(op, "==") {
            let mut out: String = ql;
            out.append(" == ");
            out.append(qr.as_str());
            Ok(out)
        } else if str_eq(op, "!=") {
            let mut out: String = ql;
            out.append(" != ");
            out.append(qr.as_str());
            Ok(out)
        } else if str_eq(op, "-eq") {
            let mut out: String = l.to_owned();
            out.append(" == ");
            out.append(rr);
            Ok(out)
        } else if str_eq(op, "-ne") {
            let mut out: String = l.to_owned();
            out.append(" != ");
            out.append(rr);
            Ok(out)
        } else if str_eq(op, "-lt") {
            let mut out: String = l.to_owned();
            out.append(" < ");
            out.append(rr);
            Ok(out)
        } else if str_eq(op, "-le") {
            let mut out: String = l.to_owned();
            out.append(" <= ");
            out.append(rr);
            Ok(out)
        } else if str_eq(op, "-gt") {
            let mut out: String = l.to_owned();
            out.append(" > ");
            out.append(rr);
            Ok(out)
        } else if str_eq(op, "-ge") {
            let mut out: String = l.to_owned();
            out.append(" >= ");
            out.append(rr);
            Ok(out)
        } else if str_eq(op, "-nt") {
            let mut out: String = "(".to_owned();
            out.append(ql.as_str());
            out.append(" | path exists) and (");
            out.append(qr.as_str());
            out.append(" | path exists) and ((");
            out.append(ql.as_str());
            out.append(" | get modified) > (");
            out.append(qr.as_str());
            out.append(" | get modified))");
            Ok(out)
        } else if str_eq(op, "-ot") {
            let mut out: String = "(".to_owned();
            out.append(ql.as_str());
            out.append(" | path exists) and (");
            out.append(qr.as_str());
            out.append(" | path exists) and ((");
            out.append(ql.as_str());
            out.append(" | get modified) < (");
            out.append(qr.as_str());
            out.append(" | get modified))");
            Ok(out)
        } else if str_eq(op, "-ef") {
            let mut out: String = "(".to_owned();
            out.append(ql.as_str());
            out.append(" | path exists) and (");
            out.append(qr.as_str());
            out.append(" | path exists) and ((");
            out.append(ql.as_str());
            out.append(" | get inode) == (");
            out.append(qr.as_str());
            out.append(" | get inode))");
            Ok(out)
        } else if str_eq(op, "=~") {
            let mut out: String = ql;
            out.append(" =~ ");
            out.append(qr.as_str());
            Ok(out)
        } else if str_eq(op, "!~") {
            let mut out: String = ql;
            out.append(" !~ ");
            out.append(qr.as_str());
            Ok(out)
        } else {
            let mut out: String = "test ".to_owned();
            out.append(l);
            out.append(" ");
            out.append(op);
            out.append(" ");
            out.append(rr);
            Ok(out)
        }
    }

    /// Convert a four-argument test, which is a short degenerate bracketed
    /// expression, by the longer-expression route.
    pub fn convert_bracket_test(&self, args: &[String], base: &BaseBuiltinConverter) -> (r: Result<
        String,
        ConvertError,
    >)
        requires
            args@.len() == 4,
        ensures
            r is Ok,
            r->Ok_0@ == spec_test_complex(views(args@)),
    {
        self.convert_complex_test(args, base)
    }

    /// Convert a longer test expression, splitting at logical connectives.
    #[verifier::loop_isolation(false)]
    #[verifier::rlimit(100)]
    pub fn convert_complex_test(&self, args: &[String], base: &BaseBuiltinConverter) -> (r: Result<
        String,
        ConvertError,
    >)
        requires
            args@.len() >= 1,
        ensures
            r is Ok,
            r->Ok_0@ == spec_test_complex(views(args@)),
    {
        let ghost vs = views(args@);
        let n = args.len();
        let stripped: Vec<String>;
        if n >= 2 && str_eq(args[0].as_str(), "[") && str_eq(args[n - 1].as_str(), "]") {
            proof {
                assert(vs[0] == args@[0]@);
                assert(vs[n - 1] == args@[n - 1]@);
            }
            stripped = copy_range(args, 1, n - 1);
        } else {
            proof {
                assert(vs[0] == args@[0]@);
                if n >= 2 {
                    assert(vs[n - 1] == args@[n - 1]@);
                }
            }
            stripped = copy_range(args, 0, n);
            proof {
                assert(vs.subrange(0, n as int) =~= vs);
            }
        }
        let ghost a = spec_strip_brackets(vs);
        proof {
            assert(views(stripped@) == a);
        }
        if stripped.len() == 0 {
            return Ok("false".to_owned());
        }
        // look for a logical connective
        let mut has_op = false;
        let mut i: usize = 0;
        while i < stripped.len()
            invariant
                i <= stripped@.len(),
                has_op == exists|k: int|
                    0 <= k < i && (#[trigger] a[k] == "-a"@ || a[k] == "&&"@ || a[k] == "-o"@
                        || a[k] == "||"@),
            decreases stripped@.len() - i,
        {
            let w = stripped[i].as_str();
            proof {
                assert(a[i as int] == stripped@[i as int]@);
            }
            if str_eq(w, "-a") || str_eq(w, "&&") || str_eq(w, "-o") || str_eq(w, "||") {
                has_op = true;
            }
            i = i + 1;
        }
        if !has_op {
            proof {
                assert(!spec_has_logic_op(a));
            }
            return self.convert_simple_part(&stripped, base);
        }
        // split into parts at the connectives
        let mut cur: Vec<String> = Vec::new();
        let mut parts: Vec<(Vec<String>, String)> = Vec::new();
        let ghost gparts_full = spec_test_parts(a, 0, Seq::empty(), Seq::empty());
        let ghost gacc: Seq<(Seq<Seq<char>>, Seq<char>)> = Seq::empty();
        let mut gacc_v = Ghost(gacc);
        proof {
            assert(views(cur@) =~= Seq::<Seq<char>>::empty());
        }
        let mut j: usize = 0;
        while j < stripped.len()
            invariant
                j <= stripped@.len(),
                gacc_v@.len() == parts@.len(),
                forall|k: int|
                    0 <= k < parts@.len() ==> (#[trigger] gacc_v@[k]).0 == views(parts@[k].0@)
                        && gacc_v@[k].1 == parts@[k].1@,
                spec_test_parts(a, 0, Seq::empty(), Seq::empty()) == spec_test_parts(
                    a,
                    j as int,
                    views(cur@),
                    gacc_v@,
                ),
            decreases stripped@.len() - j,
        {
            let w = stripped[j].as_str();
            proof {
                assert(a[j as int] == stripped@[j as int]@);
            }
            if str_eq(w, "-a") || str_eq(w, "&&") {
                if cur.len() > 0 {
                    let ghost prevacc = gacc_v@;
                    proof {
                        gacc_v@ = prevacc.push((views(cur@), "and"@));
                    }
                    parts.push((cur, "and".to_owned()));
                    cur = Vec::new();
                    proof {
                        assert(views(cur@) =~= Seq::<Seq<char>>::empty());
                    }
                }
            } else if str_eq(w, "-o") || str_eq(w, "||") {
                if cur.len() > 0 {
                    let ghost prevacc = gacc_v@;
                    proof {
                        gacc_v@ = prevacc.push((views(cur@), "or"@));
                    }
                    parts.push((cur, "or".to_owned()));
                    cur = Vec::new();
                    proof {
                        assert(views(cur@) =~= Seq::<Seq<char>>::empty());
                    }
                }
            } else {
                let ghost prevcur = cur@;
                cur.push(stripped[j].clone());
                proof {
                    assert(views(cur@) =~= views(prevcur).push(stripped@[j as int]@));
                }
            }
            j = j + 1;
        }
        if cur.len() > 0 {
            let ghost prevacc = gacc_v@;
            proof {
                gacc_v@ = prevacc.push((views(cur@), ""@));
            }
            parts.push((cur, "".to_owned()));
        }
        let ghost gparts = gacc_v@;
        proof {
            assert(gparts == gparts_full);
        }
        if parts.len() == 0 {
            return Ok("false".to_owned());
        }
        // render the parts
        let mut out = String::new();
        let mut k: usize = 0;
        while k < parts.len()
            invariant
                k <= parts@.len(),
                gparts.len() == parts@.len(),
                forall|t: int|
                    0 <= t < parts@.len() ==> (#[trigger] gparts[t]).0 == views(parts@[t].0@)
                        && gparts[t].1 == parts@[t].1@,
                out@ + spec_test_complex_from(gparts, k as int) == spec_test_complex_from(
                    gparts,
                    0,
                ),
            decreases parts@.len() - k,
        {
            if k > 0 {
                out.append(" ");
                out.append(parts[k - 1].1.as_str());
                out.append(" ");
            }
            out.append("(");
            let rendered = self.convert_simple_part(&parts[k].0, base)?;
            out.append(rendered.as_str());
            out.append(")");
            k = k + 1;
        }
        proof {
            assert(spec_test_complex_from(gparts, parts@.len() as int) =~= Seq::<char>::empty());
            assert(out@ + Seq::<char>::empty() =~= out@);
        }
        Ok(out)
    }

    /// Convert one connective-free part by its argument count.
    fn convert_simple_part(&self, part: &Vec<String>, base: &BaseBuiltinConverter) -> (r: Result<
        String,
        ConvertError,
    >)
        ensures
            r is Ok,
            r->Ok_0@ == spec_test_simple(views(part@)),
    {
        let ghost pv = views(part@);
        if part.len() == 0 {
            Ok("false".to_owned())
        } else if part.len() == 1 {
            proof {
                assert(pv[0] == part@[0]@);
            }
            self.convert_unary_test(part.as_slice(), base)
        } else if part.len() == 2 {
            proof {
                assert(pv[0] == part@[0]@);
                assert(pv[1] == part@[1]@);
            }
            self.convert_binary_test(part.as_slice(), base)
        } else if part.len() == 3 {
            proof {
                assert(pv[0] == part@[0]@);
                assert(pv[1] == part@[1]@);
                assert(pv[2] == part@[2]@);
            }
            self.convert_ternary_test(part.as_slice(), base)
        } else {
            let mut out: String = "test ".to_owned();
            out.append(base.format_args(part.as_slice()).as_str());
            Ok(out)
        }
    }
}

} // verus!
