//! The translation engine: shell AST, heuristic parser, and the conversion
//! dispatcher with its builtin and utility tables.

pub mod builtin;
pub mod converter;
pub mod laws;
pub mod parser_posix;
pub mod passes;
pub mod sus;

pub use converter::PosixToNuConverter;
pub use parser_posix::parse_posix_script;
pub use parser_posix::AndOrData;
pub use parser_posix::AndOrOperator;
pub use parser_posix::Assignment;
pub use parser_posix::CaseItemData;
pub use parser_posix::CompoundCommandData;
pub use parser_posix::CompoundCommandKind;
pub use parser_posix::ElifPart;
pub use parser_posix::ListData;
pub use parser_posix::ListSeparator;
pub use parser_posix::ParseError;
pub use parser_posix::PipelineData;
pub use parser_posix::PosixCommand;
pub use parser_posix::PosixScript;
pub use parser_posix::Redirection;
pub use parser_posix::RedirectionOp;
pub use parser_posix::SimpleCommandData;
pub use sus::CommandRegistry;

use vstd::prelude::*;

verus! {

/// The error type of the conversion layer.
///
/// No converter currently fails: every unrecognised input degrades to a
/// passthrough rendering instead.  The type exists so that the conversion
/// interfaces can report failure if a stricter mode is ever added.
#[derive(Debug, Clone, Copy, PartialEq, Eq)]
pub enum ConvertError {
    Unsupported,
}

} // verus!
