//! Tests of the `sed` converter and its script parser.

use nu_posix::plugin::sus::sed::{
    parse_sed_script, parse_substitute_command, parse_transliterate_command, SedConverter,
};
use nu_posix::plugin::sus::CommandConverter;

#[test]
fn test_sed_converter() {
    let converter = SedConverter;
    assert_eq!(converter.convert(&[]).unwrap(), "sed");
    assert_eq!(
        converter.convert(&["s/old/new/".to_string()]).unwrap(),
        "lines | each { |line| $line | str replace \"old\" \"new\" }"
    );
    assert_eq!(
        converter.convert(&["d".to_string()]).unwrap(),
        "lines | where false"
    );
    assert_eq!(
        converter.convert(&["p".to_string()]).unwrap(),
        "lines | each { |line| print $line; $line }"
    );
    assert_eq!(
        converter
            .convert(&["s/old/new/".to_string(), "file.txt".to_string()])
            .unwrap(),
        "open \"file.txt\" | lines | each { |line| $line | str replace \"old\" \"new\" }"
    );
    assert_eq!(
        converter.convert(&["=".to_string()]).unwrap(),
        "lines | enumerate | each { |item| print $item.index; $item.item }"
    );
    assert_eq!(
        converter
            .convert(&["-n".to_string(), "p".to_string()])
            .unwrap(),
        "lines | each { |line| print $line; $line } # quiet mode - only explicit prints"
    );
    assert_eq!(
        converter.convert(&["s/old/new/;d".to_string()]).unwrap(),
        "lines | each { |line| $line | str replace \"old\" \"new\" } | where false"
    );
}

#[test]
fn test_parse_sed_script() {
    let commands = parse_sed_script("s/old/new/;d;p");
    assert_eq!(commands.len(), 3);
    assert_eq!(commands[0].command, 's');
    assert_eq!(commands[1].command, 'd');
    assert_eq!(commands[2].command, 'p');
}

#[test]
fn test_parse_substitute_command() {
    let subst = parse_substitute_command("/old/new/g").unwrap();
    assert_eq!(subst.pattern, "old");
    assert_eq!(subst.replacement, "new");
    assert_eq!(subst.global, true);
    assert_eq!(subst.print, false);
    let subst2 = parse_substitute_command("|foo|bar|p").unwrap();
    assert_eq!(subst2.pattern, "foo");
    assert_eq!(subst2.replacement, "bar");
    assert_eq!(subst2.global, false);
    assert_eq!(subst2.print, true);
}

#[test]
fn test_parse_transliterate_command() {
    let trans = parse_transliterate_command("/abc/xyz/").unwrap();
    assert_eq!(trans.from, "abc");
    assert_eq!(trans.to, "xyz");
    let trans2 = parse_transliterate_command("|123|456|").unwrap();
    assert_eq!(trans2.from, "123");
    assert_eq!(trans2.to, "456");
}
