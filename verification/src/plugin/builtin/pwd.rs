//! `pwd` builtin converter.

use super::BuiltinConverter;
use crate::plugin::ConvertError;
use crate::text::{str_eq, views};
use vstd::prelude::*;

verus! {

/// Converter for the `pwd` builtin.
pub struct PwdBuiltinConverter;

/// Whether the flags leave `pwd` in logical mode; the last of `-L` / `-P`
/// wins, anything else is ignored.
pub open spec fn spec_pwd_logical(vs: Seq<Seq<char>>, i: int, logical: bool) -> bool
    decreases vs.len() - i,
{
    if i < 0 || i >= vs.len() {
        logical
    } else if vs[i] == "-L"@ || vs[i] == "--logical"@ {
        spec_pwd_logical(vs, i + 1, true)
    } else if vs[i] == "-P"@ || vs[i] == "--physical"@ {
        spec_pwd_logical(vs, i + 1, false)
    } else {
        spec_pwd_logical(vs, i + 1, logical)
    }
}

/// The exact text produced for `pwd` with the given arguments.
pub open spec fn spec_convert_pwd(vs: Seq<Seq<char>>) -> Seq<char> {
    if vs.len() == 0 {
        "pwd"@
    } else if spec_pwd_logical(vs, 0, true) {
        "pwd"@
    } else {
        "pwd | path expand"@
    }
}

impl BuiltinConverter for PwdBuiltinConverter {
    open spec fn spec_convert(&self, vs: Seq<Seq<char>>) -> Seq<char> {
        spec_convert_pwd(vs)
    }

    open spec fn spec_name(&self) -> Seq<char> {
        "pwd"@
    }

    #[verifier::loop_isolation(false)]
    fn convert(&self, args: &[String]) -> (r: Result<String, ConvertError>) {
        let ghost vs = views(args@);
        if args.len() == 0 {
            return Ok("pwd".to_owned());
        }
        let mut logical = true;
        let mut i: usize = 0;
        while i < args.len()
            invariant
                i <= args@.len(),
                spec_pwd_logical(vs, 0, true) == spec_pwd_logical(vs, i as int, logical),
            decreases args@.len() - i,
        {
            let a = args[i].as_str();
            proof {
                assert(vs[i as int] == args@[i as int]@);
            }
            if str_eq(a, "-L") || str_eq(a, "--logical") {
                logical = true;
            } else if str_eq(a, "-P") || str_eq(a, "--physical") {
                logical = false;
            }
            i = i + 1;
        }
        if logical {
            Ok("pwd".to_owned())
        } else {
            Ok("pwd | path expand".to_owned())
        }
    }

    fn builtin_name(&self) -> (r: &'static str) {
        "pwd"
    }

    fn description(&self) -> &'static str {
        "Converts pwd builtin commands to target pwd commands"
    }
}

} // verus!
