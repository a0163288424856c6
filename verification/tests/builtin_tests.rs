//! Tests of the builtin conversion table.

use nu_posix::plugin::builtin::cd::CdBuiltinConverter;
use nu_posix::plugin::builtin::exit::ExitBuiltinConverter;
use nu_posix::plugin::builtin::false_builtin::FalseBuiltinConverter;
use nu_posix::plugin::builtin::jobs::JobsBuiltinConverter;
use nu_posix::plugin::builtin::kill::KillBuiltinConverter;
use nu_posix::plugin::builtin::pwd::PwdBuiltinConverter;
use nu_posix::plugin::builtin::read::ReadBuiltinConverter;
use nu_posix::plugin::builtin::test::TestBuiltinConverter;
use nu_posix::plugin::builtin::true_builtin::TrueBuiltinConverter;
use nu_posix::plugin::builtin::{BaseBuiltinConverter, BuiltinConverter, BuiltinRegistry};

#[test]
fn test_cd_builtin_converter() {
    let converter = CdBuiltinConverter;
    assert_eq!(converter.convert(&[]).unwrap(), "cd");
    assert_eq!(converter.convert(&["~".to_string()]).unwrap(), "cd");
    assert_eq!(converter.convert(&["-".to_string()]).unwrap(), "cd -");
    assert_eq!(converter.convert(&["/tmp".to_string()]).unwrap(), "cd /tmp");
    assert_eq!(
        converter.convert(&["my folder".to_string()]).unwrap(),
        "cd \"my folder\""
    );
    assert_eq!(
        converter
            .convert(&["-L".to_string(), "/tmp".to_string()])
            .unwrap(),
        "cd /tmp"
    );
    assert_eq!(
        converter
            .convert(&["-P".to_string(), "/tmp".to_string()])
            .unwrap(),
        "cd /tmp"
    );
}

#[test]
fn test_exit_builtin_converter() {
    let converter = ExitBuiltinConverter;
    assert_eq!(converter.convert(&[]).unwrap(), "exit");
    assert_eq!(converter.convert(&["0".to_string()]).unwrap(), "exit 0");
    assert_eq!(converter.convert(&["1".to_string()]).unwrap(), "exit 1");
    assert_eq!(converter.convert(&["42".to_string()]).unwrap(), "exit 42");
    assert_eq!(
        converter.convert(&["invalid".to_string()]).unwrap(),
        "exit 1"
    );
    assert_eq!(
        converter
            .convert(&["2".to_string(), "extra".to_string()])
            .unwrap(),
        "exit 2"
    );
    assert_eq!(
        converter
            .convert(&["bad".to_string(), "3".to_string()])
            .unwrap(),
        "exit 1"
    );
}

#[test]
fn test_true_builtin_converter() {
    let converter = TrueBuiltinConverter;
    assert_eq!(converter.convert(&[]).unwrap(), "true");
    assert_eq!(converter.convert(&["arg1".to_string()]).unwrap(), "true");
    assert_eq!(
        converter
            .convert(&["arg1".to_string(), "arg2".to_string()])
            .unwrap(),
        "true"
    );
    assert_eq!(converter.convert(&["--help".to_string()]).unwrap(), "true");
}

#[test]
fn test_false_builtin_converter() {
    let converter = FalseBuiltinConverter;
    assert_eq!(converter.convert(&[]).unwrap(), "false");
    assert_eq!(converter.convert(&["arg1".to_string()]).unwrap(), "false");
    assert_eq!(
        converter
            .convert(&["arg1".to_string(), "arg2".to_string()])
            .unwrap(),
        "false"
    );
    assert_eq!(converter.convert(&["--help".to_string()]).unwrap(), "false");
}

#[test]
fn test_pwd_builtin_converter() {
    let converter = PwdBuiltinConverter;
    assert_eq!(converter.convert(&[]).unwrap(), "pwd");
    assert_eq!(converter.convert(&["-L".to_string()]).unwrap(), "pwd");
    assert_eq!(
        converter.convert(&["--logical".to_string()]).unwrap(),
        "pwd"
    );
    assert_eq!(
        converter.convert(&["-P".to_string()]).unwrap(),
        "pwd | path expand"
    );
    assert_eq!(
        converter.convert(&["--physical".to_string()]).unwrap(),
        "pwd | path expand"
    );
    assert_eq!(
        converter
            .convert(&["-L".to_string(), "-P".to_string()])
            .unwrap(),
        "pwd | path expand"
    );
}

#[test]
fn test_jobs_builtin_converter() {
    let converter = JobsBuiltinConverter;
    assert_eq!(converter.convert(&[]).unwrap(), "jobs");
    assert_eq!(
        converter.convert(&["-l".to_string()]).unwrap(),
        "jobs | select job_id pid command status"
    );
    assert_eq!(
        converter.convert(&["-p".to_string()]).unwrap(),
        "jobs | get pid"
    );
    assert_eq!(
        converter.convert(&["-r".to_string()]).unwrap(),
        "jobs | where status == \"running\""
    );
    assert_eq!(
        converter.convert(&["-s".to_string()]).unwrap(),
        "jobs | where status == \"stopped\""
    );
    assert_eq!(
        converter.convert(&["%1".to_string()]).unwrap(),
        "jobs | where (job_id == \"1\")"
    );
    assert_eq!(
        converter.convert(&["%%".to_string()]).unwrap(),
        "jobs | where (job_id == \"current\")"
    );
    assert_eq!(
        converter.convert(&["%-".to_string()]).unwrap(),
        "jobs | where (job_id == \"previous\")"
    );
    assert_eq!(
        converter
            .convert(&["%1".to_string(), "%2".to_string()])
            .unwrap(),
        "jobs | where (job_id == \"1\" or job_id == \"2\")"
    );
    assert_eq!(
        converter
            .convert(&["-l".to_string(), "-r".to_string()])
            .unwrap(),
        "jobs | select job_id pid command status | where status == \"running\""
    );
}

#[test]
fn test_kill_builtin_converter() {
    let converter = KillBuiltinConverter;
    assert_eq!(converter.convert(&[]).unwrap(), "kill");
    assert_eq!(
        converter.convert(&["1234".to_string()]).unwrap(),
        "kill 1234"
    );
    assert_eq!(
        converter
            .convert(&["-9".to_string(), "1234".to_string()])
            .unwrap(),
        "kill --signal 9 1234"
    );
    assert_eq!(
        converter
            .convert(&["-KILL".to_string(), "1234".to_string()])
            .unwrap(),
        "kill --signal KILL 1234"
    );
    assert_eq!(
        converter
            .convert(&["-s".to_string(), "INT".to_string(), "1234".to_string()])
            .unwrap(),
        "kill --signal INT 1234"
    );
    assert_eq!(
        converter
            .convert(&["1234".to_string(), "5678".to_string()])
            .unwrap(),
        "[1234 5678] | each { |pid| kill $pid }"
    );
    assert_eq!(
        converter
            .convert(&["-9".to_string(), "1234".to_string(), "5678".to_string()])
            .unwrap(),
        "[1234 5678] | each { |pid| kill --signal 9 $pid }"
    );
    assert_eq!(
        converter.convert(&["%1".to_string()]).unwrap(),
        "jobs | where job_id == \"1\" | get pid | each { |pid| kill $pid }"
    );
    assert_eq!(
        converter.convert(&["%%".to_string()]).unwrap(),
        "jobs | where job_id == \"current\" | get pid | each { |pid| kill $pid }"
    );
    assert_eq!(
        converter
            .convert(&["-9".to_string(), "%1".to_string()])
            .unwrap(),
        "jobs | where job_id == \"1\" | get pid | each { |pid| kill --signal 9 $pid }"
    );
    assert_eq!(
        converter.convert(&["-l".to_string()]).unwrap(),
        "# Signal list: HUP INT QUIT ILL TRAP ABRT BUS FPE KILL USR1 SEGV USR2 PIPE ALRM TERM"
    );
    assert_eq!(
        converter
            .convert(&["%1".to_string(), "1234".to_string()])
            .unwrap(),
        "jobs | where job_id == \"1\" | get pid | each { |pid| kill $pid }; kill 1234"
    );
}

#[test]
fn test_read_builtin_converter() {
    let converter = ReadBuiltinConverter;
    assert_eq!(converter.convert(&[]).unwrap(), "input");
    assert_eq!(converter.convert(&["-s".to_string()]).unwrap(), "input -s");
    assert_eq!(
        converter
            .convert(&["-p".to_string(), "Enter value: ".to_string()])
            .unwrap(),
        "print \"Enter value: \"; input"
    );
    assert_eq!(
        converter.convert(&["var".to_string()]).unwrap(),
        "input | $env.var = $in"
    );
    assert_eq!(
        converter
            .convert(&["var1".to_string(), "var2".to_string()])
            .unwrap(),
        "input | split words | $env.var1 = ($in | get 0 | default \"\"); $env.var2 = ($in | get 1 | default \"\")"
    );
    assert_eq!(
        converter
            .convert(&["-t".to_string(), "5".to_string()])
            .unwrap(),
        "input # timeout: 5s"
    );
    assert_eq!(
        converter
            .convert(&["-d".to_string(), ":".to_string()])
            .unwrap(),
        "input # delimiter: \":\""
    );
    assert_eq!(
        converter
            .convert(&[
                "-s".to_string(),
                "-p".to_string(),
                "Password: ".to_string()
            ])
            .unwrap(),
        "print \"Password: \"; input -s"
    );
}

#[test]
fn test_test_builtin_converter() {
    let converter = TestBuiltinConverter;
    assert_eq!(converter.convert(&[]).unwrap(), "false");
    assert_eq!(
        converter.convert(&["hello".to_string()]).unwrap(),
        "(\"hello\" | is-not-empty)"
    );
    assert_eq!(
        converter
            .convert(&["-f".to_string(), "file.txt".to_string()])
            .unwrap(),
        "(\"file.txt\" | path exists)"
    );
    assert_eq!(
        converter
            .convert(&["-d".to_string(), "dir".to_string()])
            .unwrap(),
        "(\"dir\" | path type) == \"dir\""
    );
    assert_eq!(
        converter
            .convert(&["-z".to_string(), "str".to_string()])
            .unwrap(),
        "(\"str\" | is-empty)"
    );
    assert_eq!(
        converter
            .convert(&["-n".to_string(), "str".to_string()])
            .unwrap(),
        "(\"str\" | is-not-empty)"
    );
    assert_eq!(
        converter
            .convert(&["hello".to_string(), "=".to_string(), "world".to_string()])
            .unwrap(),
        "\"hello\" == \"world\""
    );
    assert_eq!(
        converter
            .convert(&["hello".to_string(), "!=".to_string(), "world".to_string()])
            .unwrap(),
        "\"hello\" != \"world\""
    );
    assert_eq!(
        converter
            .convert(&["5".to_string(), "-eq".to_string(), "5".to_string()])
            .unwrap(),
        "5 == 5"
    );
    assert_eq!(
        converter
            .convert(&["5".to_string(), "-lt".to_string(), "10".to_string()])
            .unwrap(),
        "5 < 10"
    );
    assert_eq!(
        converter
            .convert(&[
                "[".to_string(),
                "5".to_string(),
                "-eq".to_string(),
                "5".to_string(),
                "]".to_string()
            ])
            .unwrap(),
        "5 == 5"
    );
    assert_eq!(
        converter
            .convert(&["-s".to_string(), "file.txt".to_string()])
            .unwrap(),
        "(\"file.txt\" | path exists and (open \"file.txt\" | length) > 0)"
    );
    assert_eq!(
        converter
            .convert(&["-L".to_string(), "link".to_string()])
            .unwrap(),
        "(\"link\" | path type) == \"symlink\""
    );
    assert_eq!(
        converter
            .convert(&[
                "file1".to_string(),
                "-nt".to_string(),
                "file2".to_string()
            ])
            .unwrap(),
        "(\"file1\" | path exists) and (\"file2\" | path exists) and ((\"file1\" | get modified) > (\"file2\" | get modified))"
    );
}

#[test]
fn test_complex_expressions() {
    let converter = TestBuiltinConverter;
    assert_eq!(
        converter
            .convert(&[
                "[".to_string(),
                "-f".to_string(),
                "file".to_string(),
                "-a".to_string(),
                "-r".to_string(),
                "file".to_string(),
                "]".to_string()
            ])
            .unwrap(),
        "((\"file\" | path exists)) and ((\"file\" | path exists and (\"file\" | path type) == \"file\"))"
    );
}

#[test]
fn test_builtin_registry() {
    let registry = BuiltinRegistry::new();
    assert!(registry.find_converter("cd").is_some());
    assert!(registry.find_converter("exit").is_some());
    assert!(registry.find_converter("pwd").is_some());
    assert!(registry.find_converter("test").is_some());
    assert!(registry.find_converter("nonexistent").is_none());
    assert!(registry.convert_builtin("[", &["arg".to_string()]).is_ok());
}

#[test]
fn test_base_builtin_converter_quoting() {
    let base = BaseBuiltinConverter;
    assert_eq!(base.quote_arg("simple"), "simple");
    assert_eq!(base.quote_arg("with space"), "\"with space\"");
    assert_eq!(base.quote_arg("with$var"), "\"with$var\"");
    assert_eq!(base.quote_arg("with*glob"), "\"with*glob\"");
}

#[test]
fn test_format_args() {
    let base = BaseBuiltinConverter;
    let args = vec![
        "simple".to_string(),
        "with space".to_string(),
        "normal".to_string(),
    ];
    assert_eq!(base.format_args(&args), "simple \"with space\" normal");
}
