pub mod plugin;
pub mod quoting;
pub mod text;

pub use plugin::{
    parse_posix_script, AndOrData, AndOrOperator, Assignment, CompoundCommandData,
    CompoundCommandKind, ListData, PipelineData, PosixCommand, PosixScript, PosixToNuConverter,
    Redirection, SimpleCommandData,
};
