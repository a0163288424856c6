//! `false` builtin converter.

use super::BuiltinConverter;
use crate::plugin::ConvertError;
use vstd::prelude::*;

verus! {

/// Converter for the `false` builtin, which ignores all arguments.
pub struct FalseBuiltinConverter;

impl BuiltinConverter for FalseBuiltinConverter {
    open spec fn spec_convert(&self, vs: Seq<Seq<char>>) -> Seq<char> {
        "false"@
    }

    open spec fn spec_name(&self) -> Seq<char> {
        "false"@
    }

    fn convert(&self, _args: &[String]) -> (r: Result<String, ConvertError>) {
        Ok("false".to_owned())
    }

    fn builtin_name(&self) -> (r: &'static str) {
        "false"
    }

    fn description(&self) -> &'static str {
        "Converts false builtin commands to target false commands"
    }
}

} // verus!
