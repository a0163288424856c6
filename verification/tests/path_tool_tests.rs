//! Tests of the path-oriented and miscellaneous utility converters.

use nu_posix::plugin::sus::basename::BasenameConverter;
use nu_posix::plugin::sus::date::{convert_strftime_to_nu_format, DateConverter};
use nu_posix::plugin::sus::dirname::DirnameConverter;
use nu_posix::plugin::sus::ps::PsConverter;
use nu_posix::plugin::sus::realpath::RealpathConverter;
use nu_posix::plugin::sus::seq::SeqConverter;
use nu_posix::plugin::sus::stat::StatConverter;
use nu_posix::plugin::sus::CommandConverter;

#[test]
fn test_basename_converter() {
    let converter = BasenameConverter;
    assert_eq!(converter.convert(&[]).unwrap(), "basename");
    assert_eq!(
        converter
            .convert(&["/path/to/file.txt".to_string()])
            .unwrap(),
        "\"/path/to/file.txt\" | path basename"
    );
    assert_eq!(
        converter
            .convert(&["/path/to/file.txt".to_string(), ".txt".to_string()])
            .unwrap(),
        "\"/path/to/file.txt\" | path basename | str replace --regex \"\\.txt\"$ \"\""
    );
    assert_eq!(
        converter
            .convert(&[
                "-s".to_string(),
                ".txt".to_string(),
                "/path/to/file.txt".to_string()
            ])
            .unwrap(),
        "\"/path/to/file.txt\" | path basename | str replace --regex \"\\.txt\"$ \"\""
    );
    assert_eq!(
        converter
            .convert(&[
                "-a".to_string(),
                "/path/to/file1.txt".to_string(),
                "/path/to/file2.txt".to_string()
            ])
            .unwrap(),
        "[\"/path/to/file1.txt\" \"/path/to/file2.txt\"] | each { |path| $path | path basename } | str join (char newline)"
    );
    assert_eq!(
        converter
            .convert(&[
                "-a".to_string(),
                "-s".to_string(),
                ".txt".to_string(),
                "/path/to/file1.txt".to_string(),
                "/path/to/file2.txt".to_string()
            ])
            .unwrap(),
        "[\"/path/to/file1.txt\" \"/path/to/file2.txt\"] | each { |path| $path | path basename | str replace --regex \"\\.txt\"$ \"\" } | str join (char newline)"
    );
    assert_eq!(
        converter
            .convert(&[
                "-z".to_string(),
                "-a".to_string(),
                "/path/to/file1".to_string(),
                "/path/to/file2".to_string()
            ])
            .unwrap(),
        "[\"/path/to/file1\" \"/path/to/file2\"] | each { |path| $path | path basename } | str join (char null)"
    );
    assert_eq!(
        converter
            .convert(&["/path/to/file with spaces.txt".to_string()])
            .unwrap(),
        "\"/path/to/file with spaces.txt\" | path basename"
    );
}

#[test]
fn test_dirname_converter() {
    let converter = DirnameConverter;
    assert_eq!(converter.convert(&[]).unwrap(), "dirname");
    assert_eq!(
        converter
            .convert(&["/path/to/file.txt".to_string()])
            .unwrap(),
        "\"/path/to/file.txt\" | path dirname"
    );
    assert_eq!(
        converter
            .convert(&[
                "/path/to/file1.txt".to_string(),
                "/path/to/file2.txt".to_string()
            ])
            .unwrap(),
        "[\"/path/to/file1.txt\" \"/path/to/file2.txt\"] | each { |path| $path | path dirname } | str join (char newline)"
    );
    assert_eq!(
        converter
            .convert(&[
                "-z".to_string(),
                "/path/to/file1".to_string(),
                "/path/to/file2".to_string()
            ])
            .unwrap(),
        "[\"/path/to/file1\" \"/path/to/file2\"] | each { |path| $path | path dirname } | str join (char null)"
    );
    assert_eq!(
        converter
            .convert(&["/path/to/file with spaces.txt".to_string()])
            .unwrap(),
        "\"/path/to/file with spaces.txt\" | path dirname"
    );
    assert_eq!(
        converter.convert(&["/".to_string()]).unwrap(),
        "\"/\" | path dirname"
    );
    assert_eq!(
        converter.convert(&["./file.txt".to_string()]).unwrap(),
        "\"./file.txt\" | path dirname"
    );
}

#[test]
fn test_realpath_converter() {
    let converter = RealpathConverter;
    assert_eq!(converter.convert(&[]).unwrap(), "realpath");
    assert_eq!(
        converter
            .convert(&["/path/to/file.txt".to_string()])
            .unwrap(),
        "\"/path/to/file.txt\" | path expand"
    );
    assert_eq!(
        converter
            .convert(&[
                "/path/to/file1.txt".to_string(),
                "/path/to/file2.txt".to_string()
            ])
            .unwrap(),
        "[\"/path/to/file1.txt\" \"/path/to/file2.txt\"] | each { |path| $path | path expand } | str join (char newline)"
    );
    assert_eq!(
        converter
            .convert(&[
                "-z".to_string(),
                "/path/to/file1".to_string(),
                "/path/to/file2".to_string()
            ])
            .unwrap(),
        "[\"/path/to/file1\" \"/path/to/file2\"] | each { |path| $path | path expand } | str join (char null)"
    );
    assert_eq!(
        converter
            .convert(&["/path/to/file with spaces.txt".to_string()])
            .unwrap(),
        "\"/path/to/file with spaces.txt\" | path expand"
    );
    assert_eq!(
        converter.convert(&["./file.txt".to_string()]).unwrap(),
        "\"./file.txt\" | path expand"
    );
    assert_eq!(
        converter
            .convert(&[
                "--relative-to".to_string(),
                "/base/dir".to_string(),
                "/base/dir/file.txt".to_string()
            ])
            .unwrap(),
        "\"/base/dir/file.txt\" | path expand | path relative-to \"/base/dir\""
    );
    assert_eq!(
        converter
            .convert(&[
                "--relative-to".to_string(),
                "/base".to_string(),
                "/base/file1.txt".to_string(),
                "/base/file2.txt".to_string()
            ])
            .unwrap(),
        "[\"/base/file1.txt\" \"/base/file2.txt\"] | each { |path| $path | path expand | path relative-to \"/base\" } | str join (char newline)"
    );
    assert_eq!(
        converter
            .convert(&["-P".to_string(), "/path/to/file.txt".to_string()])
            .unwrap(),
        "\"/path/to/file.txt\" | path expand"
    );
    assert_eq!(
        converter
            .convert(&["-L".to_string(), "/path/to/file.txt".to_string()])
            .unwrap(),
        "\"/path/to/file.txt\" | path expand"
    );
}

#[test]
fn test_seq_converter() {
    let converter = SeqConverter;
    assert_eq!(converter.convert(&[]).unwrap(), "seq");
    assert_eq!(converter.convert(&["5".to_string()]).unwrap(), "1..5");
    assert_eq!(
        converter
            .convert(&["3".to_string(), "7".to_string()])
            .unwrap(),
        "3..7"
    );
    assert_eq!(
        converter
            .convert(&["2".to_string(), "3".to_string(), "10".to_string()])
            .unwrap(),
        "2..10 | step 3"
    );
    assert_eq!(
        converter
            .convert(&["10".to_string(), "1".to_string()])
            .unwrap(),
        "10..1 | reverse"
    );
    assert_eq!(
        converter
            .convert(&["10".to_string(), "-2".to_string(), "1".to_string()])
            .unwrap(),
        "10..1 | step -2"
    );
    assert_eq!(
        converter
            .convert(&[
                "-s".to_string(),
                ",".to_string(),
                "1".to_string(),
                "5".to_string()
            ])
            .unwrap(),
        "1..5 | str join \",\""
    );
    assert_eq!(
        converter
            .convert(&["-w".to_string(), "8".to_string(), "12".to_string()])
            .unwrap(),
        "8..12 | each { |n| $n | into string }"
    );
    assert_eq!(
        converter.convert(&["invalid".to_string()]).unwrap(),
        "seq invalid"
    );
}

#[test]
fn test_stat_converter() {
    let converter = StatConverter;
    assert_eq!(converter.convert(&[]).unwrap(), "stat");
    assert_eq!(
        converter.convert(&["file.txt".to_string()]).unwrap(),
        "file.txt | stat"
    );
    assert_eq!(
        converter
            .convert(&["file1.txt".to_string(), "file2.txt".to_string()])
            .unwrap(),
        "[file1.txt file2.txt] | each { |file| $file | stat } | to json -r"
    );
    assert_eq!(
        converter
            .convert(&["file with spaces.txt".to_string()])
            .unwrap(),
        "\"file with spaces.txt\" | stat"
    );
    assert_eq!(
        converter
            .convert(&["-t".to_string(), "file.txt".to_string()])
            .unwrap(),
        "file.txt | stat | select name size mode modified"
    );
    assert_eq!(
        converter
            .convert(&["-c".to_string(), "%n".to_string(), "file.txt".to_string()])
            .unwrap(),
        "file.txt | stat | get name"
    );
    assert_eq!(
        converter
            .convert(&["-c".to_string(), "%s".to_string(), "file.txt".to_string()])
            .unwrap(),
        "file.txt | stat | get size"
    );
    assert_eq!(
        converter
            .convert(&["-c".to_string(), "%f".to_string(), "file.txt".to_string()])
            .unwrap(),
        "file.txt | stat | get mode"
    );
    assert_eq!(
        converter
            .convert(&["-L".to_string(), "link.txt".to_string()])
            .unwrap(),
        "link.txt | stat"
    );
    assert_eq!(
        converter
            .convert(&["-f".to_string(), "/".to_string()])
            .unwrap(),
        "\"/\" | stat"
    );
    assert_eq!(
        converter
            .convert(&[
                "-z".to_string(),
                "file1.txt".to_string(),
                "file2.txt".to_string()
            ])
            .unwrap(),
        "[file1.txt file2.txt] | each { |file| $file | stat } | str join (char null)"
    );
}

#[test]
fn test_ps_converter() {
    let converter = PsConverter;
    assert_eq!(converter.convert(&[]).unwrap(), "ps");
    assert_eq!(converter.convert(&["-a".to_string()]).unwrap(), "ps");
    assert_eq!(
        converter
            .convert(&["-u".to_string(), "root".to_string()])
            .unwrap(),
        "ps | where user == root # Note: user format not fully supported"
    );
    assert_eq!(
        converter
            .convert(&["-p".to_string(), "1234".to_string()])
            .unwrap(),
        "ps | where pid == 1234"
    );
    assert_eq!(
        converter.convert(&["-f".to_string()]).unwrap(),
        "ps # Note: full format not fully supported"
    );
    assert_eq!(
        converter.convert(&["-aux".to_string()]).unwrap(),
        "ps # Note: user format not fully supported"
    );
    assert_eq!(
        converter.convert(&["--help".to_string()]).unwrap(),
        "ps --help"
    );
}

#[test]
fn test_ps_complex() {
    let converter = PsConverter;
    assert_eq!(
        converter
            .convert(&[
                "-a".to_string(),
                "-f".to_string(),
                "-u".to_string(),
                "admin".to_string()
            ])
            .unwrap(),
        "ps | where user == admin # Note: full format, user format not fully supported"
    );
    assert_eq!(
        converter
            .convert(&["-o".to_string(), "pid,comm,user".to_string()])
            .unwrap(),
        "ps # Note: custom fields: pid,comm,user not fully supported"
    );
    assert_eq!(
        converter.convert(&["-T".to_string()]).unwrap(),
        "ps # Note: tree format not fully supported"
    );
}

#[test]
fn test_date_converter() {
    let converter = DateConverter;
    assert_eq!(converter.convert(&[]).unwrap(), "date now");
    assert_eq!(
        converter.convert(&["+%Y-%m-%d".to_string()]).unwrap(),
        "date now | format date \"%Y-%m-%d\""
    );
    assert_eq!(
        converter.convert(&["-u".to_string()]).unwrap(),
        "date now | date to-timezone UTC"
    );
    assert_eq!(
        converter
            .convert(&["-d".to_string(), "now".to_string()])
            .unwrap(),
        "date now"
    );
    assert_eq!(
        converter.convert(&["-d".to_string(), "today".to_string()]).unwrap(),
        "date now | date to-record | update hour 0 | update minute 0 | update second 0 | date from-record"
    );
    assert_eq!(
        converter.convert(&["-I".to_string()]).unwrap(),
        "date now | format date \"%Y-%m-%dT%H:%M:%S%z\""
    );
    assert_eq!(
        converter.convert(&["-R".to_string()]).unwrap(),
        "date now | format date \"%a, %d %b %Y %H:%M:%S %z\""
    );
    assert_eq!(
        converter
            .convert(&["-r".to_string(), "file.txt".to_string()])
            .unwrap(),
        "ls \"file.txt\" | get modified | first"
    );
    assert_eq!(
        converter
            .convert(&["-u".to_string(), "+%Y-%m-%d %H:%M:%S".to_string()])
            .unwrap(),
        "date now | date to-timezone UTC | format date \"%Y-%m-%d %H:%M:%S\""
    );
}

#[test]
fn test_convert_strftime_to_nu_format() {
    assert_eq!(convert_strftime_to_nu_format("%Y-%m-%d"), "%Y-%m-%d");
    assert_eq!(convert_strftime_to_nu_format("%H:%M:%S"), "%H:%M:%S");
    assert_eq!(
        convert_strftime_to_nu_format("%Y-%m-%d %H:%M:%S %z"),
        "%Y-%m-%d %H:%M:%S %z"
    );
    assert_eq!(convert_strftime_to_nu_format("Today is %A"), "Today is %A");
    assert_eq!(
        convert_strftime_to_nu_format("%%Y means year"),
        "%%Y means year"
    );
}
