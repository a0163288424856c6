//! `awk` converter: runs `awk` as an external command with quoted arguments.

use super::{BaseConverter, CommandConverter};
use crate::plugin::ConvertError;
use crate::quoting::spec_quote_word;
use crate::text::views;
use vstd::prelude::*;

verus! {

/// Converter for the `awk` command.
pub struct AwkConverter;

/// The quoted arguments of an `awk` call, each preceded by a space.
pub open spec fn spec_awk_args(vs: Seq<Seq<char>>, i: int) -> Seq<char>
    decreases vs.len() - i,
{
    if i < 0 || i >= vs.len() {
        Seq::empty()
    } else {
        " "@ + spec_quote_word(vs[i]) + spec_awk_args(vs, i + 1)
    }
}

/// The exact text produced for `awk` with the given arguments.
pub open spec fn spec_convert_awk(vs: Seq<Seq<char>>) -> Seq<char> {
    if vs.len() == 0 {
        "^awk"@
    } else {
        "^awk"@ + spec_awk_args(vs, 0)
    }
}

impl CommandConverter for AwkConverter {
    open spec fn spec_convert(&self, vs: Seq<Seq<char>>) -> Seq<char> {
        spec_convert_awk(vs)
    }

    open spec fn spec_name(&self) -> Seq<char> {
        "awk"@
    }

    #[verifier::loop_isolation(false)]
    fn convert(&self, args: &[String]) -> (r: Result<String, ConvertError>) {
        let base = BaseConverter;
        let ghost vs = views(args@);
        if args.len() == 0 {
            return Ok("^awk".to_owned());
        }
        let mut out: String = "^awk".to_owned();
        let mut i: usize = 0;
        while i < args.len()
            invariant
                i <= args@.len(),
                out@ + spec_awk_args(vs, i as int) == "^awk"@ + spec_awk_args(vs, 0),
            decreases args@.len() - i,
        {
            out.append(" ");
            out.append(base.quote_arg(args[i].as_str()).as_str());
            proof {
                assert(vs[i as int] == args@[i as int]@);
            }
            i = i + 1;
        }
        proof {
            assert(spec_awk_args(vs, args@.len() as int) =~= Seq::<char>::empty());
            assert(out@ + Seq::<char>::empty() =~= out@);
        }
        Ok(out)
    }

    fn command_name(&self) -> (r: &'static str) {
        "awk"
    }

    fn description(&self) -> &'static str {
        "Runs awk as an external command with proper argument handling"
    }
}

} // verus!
