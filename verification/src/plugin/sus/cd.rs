//! `cd` converter for the utility table; it behaves as the builtin does.

use super::CommandConverter;
use crate::plugin::builtin::cd::{spec_convert_cd, CdBuiltinConverter};
use crate::plugin::builtin::BuiltinConverter;
use crate::plugin::ConvertError;
use vstd::prelude::*;

verus! {

/// Converter for the `cd` command.
pub struct CdConverter;

impl CommandConverter for CdConverter {
    open spec fn spec_convert(&self, vs: Seq<Seq<char>>) -> Seq<char> {
        spec_convert_cd(vs)
    }

    open spec fn spec_name(&self) -> Seq<char> {
        "cd"@
    }

    fn convert(&self, args: &[String]) -> (r: Result<String, ConvertError>) {
        let inner = CdBuiltinConverter;
        inner.convert(args)
    }

    fn command_name(&self) -> (r: &'static str) {
        "cd"
    }

    fn description(&self) -> &'static str {
        "Converts cd commands to target cd commands"
    }
}

} // verus!
