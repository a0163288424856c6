//! `echo` converter: maps `echo` invocations to `print`.

use super::CommandConverter;
use crate::plugin::ConvertError;
use crate::quoting::{quote_literal, quote_word, spec_needs_quotes_word, spec_quote_literal, spec_quote_word};
use crate::text::{contains_char, spec_join, str_eq, views};
use vstd::prelude::*;

verus! {

/// Converter for the `echo` command.
pub struct EchoConverter;

/// `echo` arguments with the echo flags `-n`, `-e` and `-E` removed.
pub open spec fn spec_echo_kept(vs: Seq<Seq<char>>, i: int) -> Seq<Seq<char>>
    decreases vs.len() - i,
{
    if i < 0 || i >= vs.len() {
        Seq::empty()
    } else if vs[i] == "-n"@ || vs[i] == "-e"@ || vs[i] == "-E"@ {
        spec_echo_kept(vs, i + 1)
    } else {
        seq![vs[i]] + spec_echo_kept(vs, i + 1)
    }
}

/// The quoting used for an `echo` message: the shared argument rule, and
/// additionally any message carrying a backslash, so that escape sequences
/// such as those the `-e` flag enables survive as one string literal.
pub open spec fn spec_echo_quote(s: Seq<char>) -> Seq<char> {
    if spec_needs_quotes_word(s) || s.contains('\\') {
        spec_quote_literal(s)
    } else {
        spec_quote_word(s)
    }
}

/// The exact text produced for `echo` with the given arguments.
pub open spec fn spec_convert_echo(vs: Seq<Seq<char>>) -> Seq<char> {
    if vs.len() == 0 {
        "print"@
    } else {
        let kept = spec_echo_kept(vs, 0);
        if kept.len() == 0 {
            "print"@
        } else if kept.len() == 1 {
            "print "@ + spec_echo_quote(kept[0])
        } else {
            "print "@ + spec_echo_quote(spec_join(kept, seq![' ']))
        }
    }
}

/// Quote an `echo` message, executably.
fn echo_quote(s: &str) -> (r: String)
    ensures
        r@ == spec_echo_quote(s@),
{
    if s.unicode_len() == 0 || crate::quoting::has_word_trigger(s) || contains_char(s, '\\') {
        quote_literal(s)
    } else {
        quote_word(s)
    }
}

impl CommandConverter for EchoConverter {
    open spec fn spec_convert(&self, vs: Seq<Seq<char>>) -> Seq<char> {
        spec_convert_echo(vs)
    }

    open spec fn spec_name(&self) -> Seq<char> {
        "echo"@
    }

    #[verifier::loop_isolation(false)]
    fn convert(&self, args: &[String]) -> (r: Result<String, ConvertError>) {
        let ghost vs = views(args@);
        if args.len() == 0 {
            return Ok("print".to_owned());
        }
        let mut kept: Vec<String> = Vec::new();
        let mut i: usize = 0;
        while i < args.len()
            invariant
                i <= args@.len(),
                views(kept@) + spec_echo_kept(vs, i as int) =~= spec_echo_kept(vs, 0),
            decreases args@.len() - i,
        {
            let a = &args[i];
            proof {
                assert(vs[i as int] == args@[i as int]@);
            }
            if str_eq(a.as_str(), "-n") || str_eq(a.as_str(), "-e") || str_eq(a.as_str(), "-E") {
            } else {
                let ghost prev = kept@;
                kept.push(a.clone());
                proof {
                    assert(views(kept@) =~= views(prev).push(a@));
                    assert(views(prev).push(a@) + spec_echo_kept(vs, i as int + 1) =~= views(prev)
                        + spec_echo_kept(vs, i as int));
                }
            }
            i = i + 1;
        }
        proof {
            assert(spec_echo_kept(vs, args@.len() as int) =~= Seq::<Seq<char>>::empty());
            assert(views(kept@) + Seq::<Seq<char>>::empty() =~= views(kept@));
            assert(views(kept@) =~= spec_echo_kept(vs, 0));
        }
        if kept.len() == 0 {
            Ok("print".to_owned())
        } else if kept.len() == 1 {
            let mut out: String = "print ".to_owned();
            out.append(echo_quote(kept[0].as_str()).as_str());
            proof {
                assert(views(kept@)[0] == kept@[0]@);
            }
            Ok(out)
        } else {
            proof {
                reveal_strlit(" ");
                assert(" "@ =~= seq![' ']);
            }
            let joined = crate::text::join_with(&kept, " ");
            let mut out: String = "print ".to_owned();
            out.append(echo_quote(joined.as_str()).as_str());
            Ok(out)
        }
    }

    fn command_name(&self) -> (r: &'static str) {
        "echo"
    }

    fn description(&self) -> &'static str {
        "Converts echo commands to print commands"
    }
}

} // verus!
