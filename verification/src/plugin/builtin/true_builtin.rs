//! `true` builtin converter.

use super::BuiltinConverter;
use crate::plugin::ConvertError;
use vstd::prelude::*;

verus! {

/// Converter for the `true` builtin, which ignores all arguments.
pub struct TrueBuiltinConverter;

impl BuiltinConverter for TrueBuiltinConverter {
    open spec fn spec_convert(&self, vs: Seq<Seq<char>>) -> Seq<char> {
        "true"@
    }

    open spec fn spec_name(&self) -> Seq<char> {
        "true"@
    }

    fn convert(&self, _args: &[String]) -> (r: Result<String, ConvertError>) {
        Ok("true".to_owned())
    }

    fn builtin_name(&self) -> (r: &'static str) {
        "true"
    }

    fn description(&self) -> &'static str {
        "Converts true builtin commands to target true commands"
    }
}

} // verus!
