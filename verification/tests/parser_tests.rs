//! Tests of the heuristic parser, covering both parsing layers of the
//! engine's API surface.

use nu_posix::plugin::{parse_posix_script, AndOrOperator, CompoundCommandKind, PosixCommand};

#[test]
fn parser_test_parse_simple_command() {
    let input = "echo hello world";
    let result = parse_posix_script(input).unwrap();
    assert_eq!(result.commands.len(), 1);
    match &result.commands[0] {
        PosixCommand::Simple(cmd) => {
            assert_eq!(cmd.name, "echo");
            assert_eq!(cmd.args, vec!["hello", "world"]);
        }
        _ => panic!("Expected simple command"),
    }
}

#[test]
fn parser_test_parse_pipeline() {
    let input = "ls | grep test";
    let result = parse_posix_script(input).unwrap();
    assert_eq!(result.commands.len(), 1);
    match &result.commands[0] {
        PosixCommand::Pipeline(pipe) => {
            assert_eq!(pipe.commands.len(), 2);
            assert!(!pipe.negated);
        }
        _ => panic!("Expected pipeline command"),
    }
}

#[test]
fn parser_test_parse_and_or() {
    let input = "true && echo success";
    let result = parse_posix_script(input).unwrap();
    assert_eq!(result.commands.len(), 1);
    match &result.commands[0] {
        PosixCommand::AndOr(and_or) => {
            assert!(matches!(and_or.operator, AndOrOperator::And));
        }
        _ => panic!("Expected and-or command"),
    }
}

#[test]
fn parser_test_parse_assignment() {
    let input = "VAR=value echo $VAR";
    let result = parse_posix_script(input).unwrap();
    assert_eq!(result.commands.len(), 1);
    match &result.commands[0] {
        PosixCommand::Simple(cmd) => {
            assert_eq!(cmd.assignments.len(), 1);
            assert_eq!(cmd.assignments[0].name, "VAR");
            assert_eq!(cmd.assignments[0].value, "value");
            assert_eq!(cmd.name, "echo");
            assert_eq!(cmd.args, vec!["$VAR"]);
        }
        _ => panic!("Expected simple command"),
    }
}

#[test]
fn parser_test_parse_empty_input() {
    let input = "";
    let result = parse_posix_script(input).unwrap();
    assert_eq!(result.commands.len(), 0);
}

#[test]
fn parser_test_parse_comments() {
    let input = "# This is a comment\necho hello";
    let result = parse_posix_script(input).unwrap();
    assert_eq!(result.commands.len(), 1);
    match &result.commands[0] {
        PosixCommand::Simple(cmd) => {
            assert_eq!(cmd.name, "echo");
            assert_eq!(cmd.args, vec!["hello"]);
        }
        _ => panic!("Expected simple command"),
    }
}

#[test]
fn parser_test_parse_if_statement() {
    let input = "if true then echo yes fi";
    let result = parse_posix_script(input).unwrap();
    assert_eq!(result.commands.len(), 1);
    match &result.commands[0] {
        PosixCommand::Compound(cmd) => match &cmd.kind {
            CompoundCommandKind::If {
                condition,
                then_body,
                ..
            } => {
                assert!(!condition.is_empty());
                assert!(!then_body.is_empty());
            }
            _ => panic!("Expected if command"),
        },
        _ => panic!("Expected compound command"),
    }
}

#[test]
fn parser_posix_test_parse_simple_command() {
    let result = parse_posix_script("echo hello world").unwrap();
    assert_eq!(result.commands.len(), 1);
    match &result.commands[0] {
        PosixCommand::Simple(cmd) => {
            assert_eq!(cmd.name, "echo");
            assert_eq!(cmd.args, vec!["hello", "world"]);
        }
        _ => panic!("Expected simple command"),
    }
}

#[test]
fn parser_posix_test_parse_pipeline() {
    let result = parse_posix_script("ls | grep test").unwrap();
    assert_eq!(result.commands.len(), 1);
    match &result.commands[0] {
        PosixCommand::Pipeline(pipe) => {
            assert_eq!(pipe.commands.len(), 2);
            assert!(!pipe.negated);
        }
        _ => panic!("Expected pipeline command"),
    }
}

#[test]
fn parser_posix_test_parse_and_or() {
    let result = parse_posix_script("true && echo success").unwrap();
    assert_eq!(result.commands.len(), 1);
    match &result.commands[0] {
        PosixCommand::AndOr(and_or) => {
            assert!(matches!(and_or.operator, AndOrOperator::And));
        }
        _ => panic!("Expected and-or command"),
    }
}

#[test]
fn parser_posix_test_parse_assignment() {
    let result = parse_posix_script("VAR=value echo $VAR").unwrap();
    assert_eq!(result.commands.len(), 1);
    match &result.commands[0] {
        PosixCommand::Simple(cmd) => {
            assert_eq!(cmd.assignments.len(), 1);
            assert_eq!(cmd.assignments[0].name, "VAR");
            assert_eq!(cmd.assignments[0].value, "value");
            assert_eq!(cmd.name, "echo");
            assert_eq!(cmd.args, vec!["$VAR"]);
        }
        _ => panic!("Expected simple command"),
    }
}

#[test]
fn parser_posix_test_parse_empty_input() {
    let result = parse_posix_script("").unwrap();
    assert_eq!(result.commands.len(), 0);
}

#[test]
fn parser_posix_test_parse_comments() {
    let result = parse_posix_script("# This is a comment\necho hello").unwrap();
    assert_eq!(result.commands.len(), 1);
    match &result.commands[0] {
        PosixCommand::Simple(cmd) => {
            assert_eq!(cmd.name, "echo");
            assert_eq!(cmd.args, vec!["hello"]);
        }
        _ => panic!("Expected simple command"),
    }
}

#[test]
fn parser_posix_test_parse_if_statement() {
    let result = parse_posix_script("if true then echo yes fi").unwrap();
    assert_eq!(result.commands.len(), 1);
    match &result.commands[0] {
        PosixCommand::Compound(cmd) => match &cmd.kind {
            CompoundCommandKind::If {
                condition,
                then_body,
                ..
            } => {
                assert!(!condition.is_empty());
                assert!(!then_body.is_empty());
            }
            _ => panic!("Expected if command"),
        },
        _ => panic!("Expected compound command"),
    }
}

#[test]
fn test_parse_for_loop() {
    let input = "for i in 1 2 3 do echo $i done";
    let result = parse_posix_script(input).unwrap();
    assert_eq!(result.commands.len(), 1);
    match &result.commands[0] {
        PosixCommand::Compound(cmd) => match &cmd.kind {
            CompoundCommandKind::For {
                variable,
                words,
                body,
            } => {
                assert_eq!(variable, "i");
                assert_eq!(words, &vec!["1", "2", "3"]);
                assert!(!body.is_empty());
            }
            _ => panic!("Expected for command"),
        },
        _ => panic!("Expected compound command"),
    }
}

#[test]
fn test_parse_while_loop() {
    let input = "while true do echo running done";
    let result = parse_posix_script(input).unwrap();
    assert_eq!(result.commands.len(), 1);
    match &result.commands[0] {
        PosixCommand::Compound(cmd) => match &cmd.kind {
            CompoundCommandKind::While { condition, body } => {
                assert!(!condition.is_empty());
                assert!(!body.is_empty());
            }
            _ => panic!("Expected while command"),
        },
        _ => panic!("Expected compound command"),
    }
}

#[test]
fn test_parse_brace_group() {
    let input = "{ echo hello }";
    let result = parse_posix_script(input).unwrap();
    assert_eq!(result.commands.len(), 1);
    match &result.commands[0] {
        PosixCommand::Compound(cmd) => match &cmd.kind {
            CompoundCommandKind::BraceGroup(commands) => {
                assert_eq!(commands.len(), 1);
            }
            _ => panic!("Expected brace group"),
        },
        _ => panic!("Expected compound command"),
    }
}

#[test]
fn test_parse_subshell() {
    let input = "( echo hello )";
    let result = parse_posix_script(input).unwrap();
    assert_eq!(result.commands.len(), 1);
    match &result.commands[0] {
        PosixCommand::Compound(cmd) => match &cmd.kind {
            CompoundCommandKind::Subshell(commands) => {
                assert_eq!(commands.len(), 1);
            }
            _ => panic!("Expected subshell"),
        },
        _ => panic!("Expected compound command"),
    }
}

#[test]
fn test_parse_arithmetic() {
    let input = "$(( 1 + 2 ))";
    let result = parse_posix_script(input).unwrap();
    assert_eq!(result.commands.len(), 1);
    match &result.commands[0] {
        PosixCommand::Compound(cmd) => match &cmd.kind {
            CompoundCommandKind::Arithmetic { expression } => {
                assert_eq!(expression, "1 + 2");
            }
            _ => panic!("Expected arithmetic"),
        },
        _ => panic!("Expected compound command"),
    }
}

#[test]
fn test_fallback_parsing() {
    let input = "echo hello";
    let result = parse_posix_script(input).unwrap();
    assert_eq!(result.commands.len(), 1);
}
