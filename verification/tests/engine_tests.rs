//! End-to-end engine tests: registries, parse-then-convert scenarios, the
//! formatting pass and the reverse translation.

use nu_posix::plugin::builtin::BuiltinRegistry;
use nu_posix::plugin::passes::{basic_nu_to_posix_conversion, format_nu_script};
use nu_posix::plugin::sus::{BaseConverter, CommandRegistry};
use nu_posix::plugin::{parse_posix_script, PosixToNuConverter};

fn convert_text(input: &str) -> String {
    let converter = PosixToNuConverter::new();
    let script = parse_posix_script(input).unwrap();
    converter.convert(&script).unwrap()
}

#[test]
fn test_builtin_converters_basic() {
    let registry = BuiltinRegistry::new();
    let test_cases = vec![
        ("cd", vec![], "cd"),
        ("cd", vec!["/tmp".to_string()], "cd /tmp"),
        ("pwd", vec![], "pwd"),
        ("exit", vec![], "exit"),
        ("true", vec![], "true"),
        ("false", vec![], "false"),
    ];
    for (builtin, args, expected_start) in test_cases {
        let result = registry.convert_builtin(builtin, &args);
        assert!(result.is_ok(), "Failed to convert {}: {:?}", builtin, result);
        let output = result.unwrap();
        assert!(
            output.starts_with(expected_start),
            "Expected {} to start with '{}', got: {}",
            builtin,
            expected_start,
            output
        );
    }
}

#[test]
fn test_sus_converters_basic() {
    let registry = CommandRegistry::new();
    let test_cases = vec![
        ("echo", vec!["hello".to_string()], "print"),
        ("ls", vec![], "ls"),
        ("cat", vec!["file.txt".to_string()], "open"),
        ("head", vec![], "first"),
        ("tail", vec![], "last"),
        ("sort", vec![], "sort"),
        ("uniq", vec![], "uniq"),
    ];
    for (command, args, expected_start) in test_cases {
        let result = registry.convert_command(command, &args);
        assert!(result.is_ok(), "Failed to convert {}: {:?}", command, result);
        let output = result.unwrap();
        assert!(
            output.starts_with(expected_start),
            "Expected {} to start with '{}', got: {}",
            command,
            expected_start,
            output
        );
    }
}

#[test]
fn test_all_registered_converters() {
    let builtin_registry = BuiltinRegistry::new();
    let sus_registry = CommandRegistry::new();
    let builtin_names = builtin_registry.get_builtin_names();
    let sus_names = sus_registry.get_command_names();
    for &builtin in &builtin_names {
        let result = builtin_registry.convert_builtin(builtin, &[]);
        assert!(result.is_ok(), "Builtin '{}' failed: {:?}", builtin, result);
    }
    for &command in &sus_names {
        let result = sus_registry.convert_command(command, &[]);
        assert!(result.is_ok(), "Command '{}' failed: {:?}", command, result);
    }
}

#[test]
fn test_argument_handling() {
    let builtin_registry = BuiltinRegistry::new();
    let sus_registry = CommandRegistry::new();
    let spaced_arg = "file with spaces.txt".to_string();
    let special_arg = "file$var*.txt".to_string();
    let result = builtin_registry.convert_builtin("cd", &[spaced_arg.clone()]);
    assert!(result.is_ok(), "cd with spaced arg failed: {:?}", result);
    let output = result.unwrap();
    assert!(
        output.contains("\"file with spaces.txt\""),
        "Expected quoted arg, got: {}",
        output
    );
    let result = sus_registry.convert_command("cat", &[special_arg.clone()]);
    assert!(result.is_ok(), "cat with special arg failed: {:?}", result);
    let output = result.unwrap();
    assert!(
        output.contains("\"file$var*.txt\""),
        "Expected quoted arg, got: {}",
        output
    );
}

#[test]
fn test_roundtrip_simple_echo() {
    assert_eq!(convert_text("echo hello world"), "print hello world");
}

#[test]
fn test_roundtrip_pipeline() {
    assert_eq!(convert_text("ls | grep test"), "ls | where $it =~ test");
}

#[test]
fn test_roundtrip_and_or() {
    assert_eq!(
        convert_text("true && echo success"),
        "(true) and (print success)"
    );
}

#[test]
fn test_roundtrip_or() {
    assert_eq!(
        convert_text("false || echo fallback"),
        "(false) or (print fallback)"
    );
}

#[test]
fn test_roundtrip_comment_suppression() {
    assert_eq!(convert_text("# comment\necho hi"), "print hi");
}

#[test]
fn test_roundtrip_assignment() {
    assert_eq!(
        convert_text("VAR=value echo $VAR"),
        "$VAR = \"value\"; print \"$VAR\""
    );
}

#[test]
fn test_roundtrip_multiple_lines() {
    assert_eq!(
        convert_text("echo one\necho two"),
        "print one\nprint two"
    );
}

#[test]
fn test_never_panics_on_junk() {
    let junk = vec![
        "",
        "   ",
        "|||",
        "&&",
        "if then fi",
        "for in do done",
        "while do done",
        "case in",
        "{ }",
        "( )",
        "$(( ))",
        "\"unterminated",
        "a | b | c | d && e || f",
        "\u{1F41A} \u{00E9}\u{00E8} | wc -l",
        "x=1 y=2 z=3",
        "[ -f a -a -r b ]",
        "echo \\",
    ];
    for input in junk {
        let out = convert_text(input);
        let _ = out;
    }
}

#[test]
fn test_quoting_idempotence() {
    let base = BaseConverter;
    let once = base.quote_arg("with space");
    let twice = base.quote_arg(&once);
    assert_eq!(once, twice);
    assert_eq!(base.quote_arg("plain"), "plain");
    assert_eq!(base.quote_arg(&base.quote_arg("plain")), "plain");
}

#[test]
fn test_priority_order_test_builtin() {
    let converter = PosixToNuConverter::new();
    let builtins = BuiltinRegistry::new();
    let args = vec!["-d".to_string(), "somedir".to_string()];
    let through_dispatcher = converter.convert_command_name("test", &args).unwrap();
    let through_builtins = builtins.convert_builtin("test", &args).unwrap();
    assert_eq!(through_dispatcher, through_builtins);
    assert_eq!(through_dispatcher, "(\"somedir\" | path type) == \"dir\"");
}

#[test]
fn test_bracket_alias_equivalence() {
    let builtins = BuiltinRegistry::new();
    let cases: Vec<Vec<String>> = vec![
        vec![],
        vec!["hello".to_string()],
        vec!["-f".to_string(), "x".to_string()],
        vec!["1".to_string(), "-lt".to_string(), "2".to_string()],
        vec![
            "[".to_string(),
            "-f".to_string(),
            "a".to_string(),
            "-o".to_string(),
            "-d".to_string(),
            "b".to_string(),
            "]".to_string(),
        ],
    ];
    for args in cases {
        let via_bracket = builtins.convert_builtin("[", &args).unwrap();
        let via_test = builtins.convert_builtin("test", &args).unwrap();
        assert_eq!(via_bracket, via_test, "alias mismatch for {:?}", args);
    }
}

#[test]
fn test_format_nu_script_indents() {
    let input = "if true {\nprint yes\n}";
    assert_eq!(format_nu_script(input), "if true {\n  print yes\n}\n");
}

#[test]
fn test_basic_nu_to_posix_conversion() {
    assert_eq!(basic_nu_to_posix_conversion("print hello"), "echo hello");
    assert_eq!(
        basic_nu_to_posix_conversion("ls | where name"),
        "ls | grep name"
    );
}

#[test]
fn test_exit_code_normalisation() {
    let builtins = BuiltinRegistry::new();
    assert_eq!(
        builtins
            .convert_builtin("exit", &["042".to_string()])
            .unwrap(),
        "exit 42"
    );
    assert_eq!(
        builtins
            .convert_builtin("exit", &["99999999999".to_string()])
            .unwrap(),
        "exit 1"
    );
}

#[test]
fn test_arithmetic_roundtrip() {
    assert_eq!(convert_text("$(( 1 + 2 ))"), "math eval \"1 + 2\"");
}

#[test]
fn test_for_loop_roundtrip() {
    assert_eq!(
        convert_text("for i in 1 2 3 do echo $i done"),
        "[1, 2, 3] | each { |i| \n  print \"$i\"\n}"
    );
}

#[test]
fn test_until_loop_roundtrip() {
    assert_eq!(
        convert_text("until true do echo x done"),
        "while not (true) {\n  print x\n}"
    );
}
