//! `cd` builtin converter.

use super::{BaseBuiltinConverter, BuiltinConverter};
use crate::quoting::spec_quote_word;
use crate::plugin::ConvertError;
use crate::text::{spec_starts_with, starts_with, str_eq, views};
use vstd::prelude::*;

verus! {

/// Converter for the `cd` builtin.
pub struct CdBuiltinConverter;

/// The rendering of `cd` once the flags are scanned: home for no path or
/// `~`, otherwise the quoted path.
pub open spec fn spec_cd_render(path: Seq<char>) -> Seq<char> {
    if path.len() == 0 || path == "~"@ {
        "cd"@
    } else {
        "cd "@ + spec_quote_word(path)
    }
}

/// Scans `cd` arguments: `-L` / `-P` and unknown flags are ignored, `-`
/// short-circuits to the previous directory, and the last plain argument is
/// the path.
pub open spec fn spec_cd_from(vs: Seq<Seq<char>>, i: int, path: Seq<char>) -> Seq<char>
    decreases vs.len() - i,
{
    if i < 0 || i >= vs.len() {
        spec_cd_render(path)
    } else if vs[i] == "-L"@ || vs[i] == "-P"@ {
        spec_cd_from(vs, i + 1, path)
    } else if vs[i] == "-"@ {
        "cd -"@
    } else if spec_starts_with(vs[i], "-"@) {
        spec_cd_from(vs, i + 1, path)
    } else {
        spec_cd_from(vs, i + 1, vs[i])
    }
}

/// The exact text produced for `cd` with the given arguments.
pub open spec fn spec_convert_cd(vs: Seq<Seq<char>>) -> Seq<char> {
    if vs.len() == 0 {
        "cd"@
    } else {
        spec_cd_from(vs, 0, Seq::empty())
    }
}

impl BuiltinConverter for CdBuiltinConverter {
    open spec fn spec_convert(&self, vs: Seq<Seq<char>>) -> Seq<char> {
        spec_convert_cd(vs)
    }

    open spec fn spec_name(&self) -> Seq<char> {
        "cd"@
    }

    #[verifier::loop_isolation(false)]
    fn convert(&self, args: &[String]) -> (r: Result<String, ConvertError>) {
        let base = BaseBuiltinConverter;
        let ghost vs = views(args@);
        if args.len() == 0 {
            return Ok("cd".to_owned());
        }
        let mut path: String = String::new();
        let mut i: usize = 0;
        while i < args.len()
            invariant
                i <= args@.len(),
                spec_cd_from(vs, 0, Seq::empty()) == spec_cd_from(vs, i as int, path@),
            decreases args@.len() - i,
        {
            let a = args[i].as_str();
            proof {
                assert(vs[i as int] == args@[i as int]@);
            }
            if str_eq(a, "-L") || str_eq(a, "-P") {
            } else if str_eq(a, "-") {
                return Ok("cd -".to_owned());
            } else if starts_with(a, "-") {
            } else {
                path = args[i].clone();
            }
            i = i + 1;
        }
        if path.as_str().unicode_len() == 0 || str_eq(path.as_str(), "~") {
            Ok("cd".to_owned())
        } else {
            let mut out: String = "cd ".to_owned();
            out.append(base.quote_arg(path.as_str()).as_str());
            Ok(out)
        }
    }

    fn builtin_name(&self) -> (r: &'static str) {
        "cd"
    }

    fn description(&self) -> &'static str {
        "Converts cd builtin commands to target cd commands"
    }
}

} // verus!
