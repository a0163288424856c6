//! Tests of the `cut` converter and its range-list parser.

use nu_posix::plugin::sus::cut::{parse_range_list, CutConverter};
use nu_posix::plugin::sus::CommandConverter;

#[test]
fn test_cut_converter() {
    let converter = CutConverter;
    assert_eq!(converter.convert(&[]).unwrap(), "cut");
    assert_eq!(
        converter
            .convert(&["-f".to_string(), "1,3".to_string()])
            .unwrap(),
        "lines | each { |line| $line | split row \"\\t\" | select 0 2 | str join \"\\t\" }"
    );
    assert_eq!(
        converter
            .convert(&[
                "-d".to_string(),
                ",".to_string(),
                "-f".to_string(),
                "2".to_string()
            ])
            .unwrap(),
        "lines | each { |line| $line | split row \",\" | select 1 | str join \",\" }"
    );
    assert_eq!(
        converter.convert(&["-c".to_string(), "1-3".to_string()]).unwrap(),
        "lines | each { |line| [($line | str substring 0..1) ($line | str substring 1..2) ($line | str substring 2..3)] | str join \"\" }"
    );
    assert_eq!(
        converter.convert(&["-f".to_string(), "1".to_string(), "data.txt".to_string()]).unwrap(),
        "open \"data.txt\" | lines | each { |line| $line | split row \"\\t\" | select 0 | str join \"\\t\" }"
    );
    assert_eq!(
        converter
            .convert(&[
                "-f".to_string(),
                "1,2".to_string(),
                "--output-delimiter".to_string(),
                "|".to_string()
            ])
            .unwrap(),
        "lines | each { |line| $line | split row \"\\t\" | select 0 1 | str join \"|\" }"
    );
}

#[test]
fn test_parse_range_list() {
    assert_eq!(parse_range_list("1,3,5"), vec![1, 3, 5]);
    assert_eq!(parse_range_list("1-3"), vec![1, 2, 3]);
    assert_eq!(parse_range_list("1,3-5,7"), vec![1, 3, 4, 5, 7]);
    assert_eq!(parse_range_list("5-7,3,1"), vec![1, 3, 5, 6, 7]);
    assert_eq!(parse_range_list(""), Vec::<usize>::new());
}
