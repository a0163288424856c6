//! Tests of the `find` converter and its size parser.

use nu_posix::plugin::sus::find::{parse_size_value, FindConverter};
use nu_posix::plugin::sus::CommandConverter;

#[test]
fn test_find_converter() {
    let converter = FindConverter;
    assert_eq!(converter.convert(&[]).unwrap(), "find");
    assert_eq!(converter.convert(&[".".to_string()]).unwrap(), "ls/**/*");
    assert_eq!(
        converter
            .convert(&[".".to_string(), "-name".to_string(), "*.txt".to_string()])
            .unwrap(),
        "ls/**/* | where name =~ \".*\\.txt\" | get name"
    );
    assert_eq!(
        converter
            .convert(&[".".to_string(), "-type".to_string(), "f".to_string()])
            .unwrap(),
        "ls/**/* | where type == \"file\" | get name"
    );
    assert_eq!(
        converter
            .convert(&[
                ".".to_string(),
                "-name".to_string(),
                "*.rs".to_string(),
                "-type".to_string(),
                "f".to_string()
            ])
            .unwrap(),
        "ls/**/* | where name =~ \".*\\.rs\" and type == \"file\" | get name"
    );
    assert_eq!(
        converter
            .convert(&[
                ".".to_string(),
                "-name".to_string(),
                "*.tmp".to_string(),
                "-exec".to_string(),
                "rm".to_string(),
                "{}".to_string(),
                ";".to_string()
            ])
            .unwrap(),
        "ls/**/* | where name =~ \".*\\.tmp\" | each { |file| rm $file.name }"
    );
    assert_eq!(
        converter
            .convert(&["/tmp".to_string(), "-name".to_string(), "test".to_string()])
            .unwrap(),
        "ls \"/tmp\"/**/* | where name == \"test\" | get name"
    );
}

#[test]
fn test_parse_size_value() {
    assert_eq!(parse_size_value("100"), "100");
    assert_eq!(parse_size_value("1k"), "1024");
    assert_eq!(parse_size_value("1M"), "1048576");
    assert_eq!(parse_size_value("2G"), "2147483648");
    assert_eq!(parse_size_value("500b"), "256000");
    assert_eq!(parse_size_value(""), "0");
}
