//! `exit` builtin converter.

use super::BuiltinConverter;
use crate::plugin::ConvertError;
use crate::text::{i32_to_dec, parse_i32, spec_dec_int, spec_parse_i32, views};
use vstd::prelude::*;

verus! {

/// Converter for the `exit` builtin.
pub struct ExitBuiltinConverter;

/// The exact text produced for `exit`: the first argument as a status code
/// when it reads as one, `exit 1` when it does not.
pub open spec fn spec_convert_exit(vs: Seq<Seq<char>>) -> Seq<char> {
    if vs.len() == 0 {
        "exit"@
    } else {
        match spec_parse_i32(vs[0]) {
            Some(code) => "exit "@ + spec_dec_int(code as int),
            None => "exit 1"@,
        }
    }
}

impl BuiltinConverter for ExitBuiltinConverter {
    open spec fn spec_convert(&self, vs: Seq<Seq<char>>) -> Seq<char> {
        spec_convert_exit(vs)
    }

    open spec fn spec_name(&self) -> Seq<char> {
        "exit"@
    }

    fn convert(&self, args: &[String]) -> (r: Result<String, ConvertError>) {
        let ghost vs = views(args@);
        if args.len() == 0 {
            return Ok("exit".to_owned());
        }
        proof {
            assert(vs[0] == args@[0]@);
        }
        match parse_i32(args[0].as_str()) {
            Some(code) => {
                let mut out: String = "exit ".to_owned();
                out.append(i32_to_dec(code).as_str());
                Ok(out)
            },
            None => Ok("exit 1".to_owned()),
        }
    }

    fn builtin_name(&self) -> (r: &'static str) {
        "exit"
    }

    fn description(&self) -> &'static str {
        "Converts exit builtin commands to target exit commands"
    }
}

} // verus!
