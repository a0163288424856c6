//! `whoami` converter.

use super::{BaseConverter, CommandConverter};
use crate::plugin::ConvertError;
use crate::quoting::spec_format_args;
use crate::text::views;
use vstd::prelude::*;

verus! {

/// Converter for the `whoami` command.
pub struct WhoamiConverter;

/// The exact text produced for `whoami`: the environment lookup with a
/// system-command fallback, or a passthrough when arguments are present.
pub open spec fn spec_convert_whoami(vs: Seq<Seq<char>>) -> Seq<char> {
    if vs.len() == 0 {
        "$env.USER? | default (whoami)"@
    } else {
        "whoami "@ + spec_format_args(vs)
    }
}

impl CommandConverter for WhoamiConverter {
    open spec fn spec_convert(&self, vs: Seq<Seq<char>>) -> Seq<char> {
        spec_convert_whoami(vs)
    }

    open spec fn spec_name(&self) -> Seq<char> {
        "whoami"@
    }

    fn convert(&self, args: &[String]) -> (r: Result<String, ConvertError>) {
        let base = BaseConverter;
        if args.len() == 0 {
            Ok("$env.USER? | default (whoami)".to_owned())
        } else {
            let mut out: String = "whoami ".to_owned();
            out.append(base.format_args(args).as_str());
            Ok(out)
        }
    }

    fn command_name(&self) -> (r: &'static str) {
        "whoami"
    }

    fn description(&self) -> &'static str {
        "Converts whoami commands to target user identification"
    }
}

} // verus!
