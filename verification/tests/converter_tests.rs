//! Tests of the conversion dispatcher on constructed command trees.

use nu_posix::plugin::parser_posix::{
    CompoundCommandKind, PipelineData, PosixCommand, SimpleCommandData,
};
use nu_posix::plugin::converter::PosixToNuConverter;

#[test]
fn test_convert_simple_echo() {
    let converter = PosixToNuConverter::new();
    let cmd = SimpleCommandData {
        name: "echo".to_string(),
        args: vec!["hello".to_string(), "world".to_string()],
        assignments: vec![],
        redirections: vec![],
    };
    let result = converter.convert_simple_command(&cmd).unwrap();
    assert_eq!(result, "print hello world");
}

#[test]
fn test_convert_pipeline() {
    let converter = PosixToNuConverter::new();
    let pipe = PipelineData {
        commands: vec![
            PosixCommand::Simple(SimpleCommandData {
                name: "ls".to_string(),
                args: vec![],
                assignments: vec![],
                redirections: vec![],
            }),
            PosixCommand::Simple(SimpleCommandData {
                name: "grep".to_string(),
                args: vec!["test".to_string()],
                assignments: vec![],
                redirections: vec![],
            }),
        ],
        negated: false,
    };
    let result = converter.convert_pipeline(&pipe).unwrap();
    assert_eq!(result, "ls | where $it =~ test");
}

#[test]
fn test_convert_if_statement() {
    let converter = PosixToNuConverter::new();
    let if_cmd = CompoundCommandKind::If {
        condition: vec![PosixCommand::Simple(SimpleCommandData {
            name: "true".to_string(),
            args: vec![],
            assignments: vec![],
            redirections: vec![],
        })],
        then_body: vec![PosixCommand::Simple(SimpleCommandData {
            name: "echo".to_string(),
            args: vec!["yes".to_string()],
            assignments: vec![],
            redirections: vec![],
        })],
        elif_parts: vec![],
        else_body: None,
    };
    let result = converter.convert_compound_kind(&if_cmd).unwrap();
    assert!(result.contains("if true"));
    assert!(result.contains("print yes"));
}

#[test]
fn test_quote_arg() {
    let converter = PosixToNuConverter::new();
    assert_eq!(converter.quote_arg("simple"), "simple");
    assert_eq!(converter.quote_arg("with space"), "\"with space\"");
    assert_eq!(converter.quote_arg("with\"quote"), "\"with\\\"quote\"");
}

#[test]
fn test_convert_list_separators() {
    let converter = PosixToNuConverter::new();
    let member = |name: &str, arg: &str| {
        PosixCommand::Simple(SimpleCommandData {
            name: name.to_string(),
            args: vec![arg.to_string()],
            assignments: vec![],
            redirections: vec![],
        })
    };
    let sequential = nu_posix::plugin::parser_posix::ListData {
        commands: vec![member("echo", "a"), member("echo", "b")],
        separator: nu_posix::plugin::parser_posix::ListSeparator::Sequential,
    };
    assert_eq!(
        converter.convert_list(&sequential).unwrap(),
        "print a; print b"
    );
    let background = nu_posix::plugin::parser_posix::ListData {
        commands: vec![member("echo", "a"), member("echo", "b")],
        separator: nu_posix::plugin::parser_posix::ListSeparator::Background,
    };
    assert_eq!(
        converter.convert_list(&background).unwrap(),
        "print a &print b &"
    );
}
