//! Tests of the external-utility conversion table.

use nu_posix::plugin::sus::awk::AwkConverter;
use nu_posix::plugin::sus::cat::CatConverter;
use nu_posix::plugin::sus::cd::CdConverter;
use nu_posix::plugin::sus::chmod::ChmodConverter;
use nu_posix::plugin::sus::chown::ChownConverter;
use nu_posix::plugin::sus::cp::CpConverter;
use nu_posix::plugin::sus::echo::EchoConverter;
use nu_posix::plugin::sus::grep::GrepConverter;
use nu_posix::plugin::sus::head::HeadConverter;
use nu_posix::plugin::sus::ls::LsConverter;
use nu_posix::plugin::sus::mkdir::MkdirConverter;
use nu_posix::plugin::sus::mv::MvConverter;
use nu_posix::plugin::sus::rm::RmConverter;
use nu_posix::plugin::sus::rmdir::RmdirConverter;
use nu_posix::plugin::sus::sort::SortConverter;
use nu_posix::plugin::sus::tail::TailConverter;
use nu_posix::plugin::sus::tee::TeeConverter;
use nu_posix::plugin::sus::uniq::UniqConverter;
use nu_posix::plugin::sus::wc::WcConverter;
use nu_posix::plugin::sus::which::WhichConverter;
use nu_posix::plugin::sus::whoami::WhoamiConverter;
use nu_posix::plugin::sus::{BaseConverter, CommandConverter, CommandRegistry};

#[test]
fn test_echo_converter() {
    let converter = EchoConverter;
    assert_eq!(converter.convert(&[]).unwrap(), "print");
    assert_eq!(
        converter.convert(&["hello".to_string()]).unwrap(),
        "print hello"
    );
    assert_eq!(
        converter.convert(&["hello world".to_string()]).unwrap(),
        "print \"hello world\""
    );
    assert_eq!(
        converter
            .convert(&["hello".to_string(), "world".to_string()])
            .unwrap(),
        "print \"hello world\""
    );
    assert_eq!(
        converter
            .convert(&["-n".to_string(), "hello".to_string()])
            .unwrap(),
        "print hello"
    );
    assert_eq!(
        converter
            .convert(&["-e".to_string(), "hello\\nworld".to_string()])
            .unwrap(),
        "print \"hello\\nworld\""
    );
}

#[test]
fn test_awk_converter() {
    let converter = AwkConverter;
    assert_eq!(converter.convert(&[]).unwrap(), "^awk");
    assert_eq!(
        converter.convert(&["{ print $1 }".to_string()]).unwrap(),
        "^awk \"{ print $1 }\""
    );
    assert_eq!(
        converter
            .convert(&["{ print $1 }".to_string(), "file.txt".to_string()])
            .unwrap(),
        "^awk \"{ print $1 }\" file.txt"
    );
    assert_eq!(
        converter
            .convert(&[
                "-F".to_string(),
                ":".to_string(),
                "{ print $1 }".to_string(),
                "/etc/passwd".to_string()
            ])
            .unwrap(),
        "^awk -F : \"{ print $1 }\" /etc/passwd"
    );
    assert_eq!(
        converter
            .convert(&[
                "-v".to_string(),
                "var=value".to_string(),
                "{ print var }".to_string()
            ])
            .unwrap(),
        "^awk -v var=value \"{ print var }\""
    );
    assert_eq!(
        converter
            .convert(&["-f".to_string(), "script.awk".to_string()])
            .unwrap(),
        "^awk -f script.awk"
    );
    let result = converter
        .convert(&[
            "-F".to_string(),
            ",".to_string(),
            "-v".to_string(),
            "OFS=|".to_string(),
            "BEGIN { print \"start\" } { print $1, $2 } END { print \"end\" }".to_string(),
            "data.csv".to_string(),
        ])
        .unwrap();
    assert!(result.starts_with("^awk"));
    assert!(result.contains("-F"));
    assert!(result.contains(","));
    assert!(result.contains("-v"));
    assert!(result.contains("data.csv"));
    let result2 = converter
        .convert(&["{ print \"hello world\" }".to_string()])
        .unwrap();
    assert!(result2.starts_with("^awk"));
    assert!(result2.contains("hello world"));
}

#[test]
fn test_awk_complex_patterns() {
    let converter = AwkConverter;
    assert_eq!(
        converter
            .convert(&["/pattern/ { print $0 }".to_string()])
            .unwrap(),
        "^awk \"/pattern/ { print $0 }\""
    );
    assert_eq!(
        converter
            .convert(&[
                "BEGIN { FS=\":\" } /root/ { print $1 }".to_string(),
                "/etc/passwd".to_string()
            ])
            .unwrap(),
        "^awk \"BEGIN { FS=\\\":\\\" } /root/ { print $1 }\" /etc/passwd"
    );
    assert_eq!(
        converter
            .convert(&["/^[a-z]+$/ { print }".to_string()])
            .unwrap(),
        "^awk \"/^[a-z]+$/ { print }\""
    );
}

#[test]
fn test_cd_converter() {
    let converter = CdConverter;
    assert_eq!(converter.convert(&[]).unwrap(), "cd");
    assert_eq!(converter.convert(&["~".to_string()]).unwrap(), "cd");
    assert_eq!(converter.convert(&["-".to_string()]).unwrap(), "cd -");
    assert_eq!(converter.convert(&["/tmp".to_string()]).unwrap(), "cd /tmp");
    assert_eq!(
        converter.convert(&["my folder".to_string()]).unwrap(),
        "cd \"my folder\""
    );
    assert_eq!(
        converter
            .convert(&["-L".to_string(), "/tmp".to_string()])
            .unwrap(),
        "cd /tmp"
    );
    assert_eq!(
        converter
            .convert(&["-P".to_string(), "/tmp".to_string()])
            .unwrap(),
        "cd /tmp"
    );
}

#[test]
fn test_cat_converter() {
    let converter = CatConverter;
    assert_eq!(converter.convert(&[]).unwrap(), "input");
    assert_eq!(
        converter.convert(&["file.txt".to_string()]).unwrap(),
        "open --raw \"file.txt\""
    );
    assert_eq!(
        converter
            .convert(&["file1.txt".to_string(), "file2.txt".to_string()])
            .unwrap(),
        "[(open --raw \"file1.txt\"), (open --raw \"file2.txt\")] | str join"
    );
    assert_eq!(converter.convert(&["-".to_string()]).unwrap(), "input");
    assert_eq!(
        converter
            .convert(&["-n".to_string(), "file.txt".to_string()])
            .unwrap(),
        "open --raw \"file.txt\" | lines | enumerate | each { |x| $\"($x.index + 1)  ($x.item)\" } | str join (char nl)"
    );
    assert_eq!(
        converter
            .convert(&["-E".to_string(), "file.txt".to_string()])
            .unwrap(),
        "open --raw \"file.txt\" | str replace --all (char nl) '$'"
    );
    assert_eq!(
        converter
            .convert(&["-s".to_string(), "file.txt".to_string()])
            .unwrap(),
        "open --raw \"file.txt\" | lines | where ($it | str trim | str length) > 0 | str join (char nl)"
    );
    assert_eq!(
        converter
            .convert(&["-A".to_string(), "file.txt".to_string()])
            .unwrap(),
        "open --raw \"file.txt\" | str replace --all (char nl) '$' | str replace --all (char tab) '^I' | # show-nonprinting not fully supported"
    );
}

#[test]
fn test_grep_converter() {
    let converter = GrepConverter;
    assert_eq!(converter.convert(&[]).unwrap(), "grep");
    assert_eq!(
        converter.convert(&["test".to_string()]).unwrap(),
        "lines | where $it =~ \"test\""
    );
    assert_eq!(
        converter
            .convert(&["test".to_string(), "file.txt".to_string()])
            .unwrap(),
        "open \"file.txt\" | lines | where $it =~ \"test\""
    );
    assert_eq!(
        converter
            .convert(&["-v".to_string(), "test".to_string()])
            .unwrap(),
        "lines | where $it !~ \"test\""
    );
    assert_eq!(
        converter
            .convert(&["-q".to_string(), "test".to_string()])
            .unwrap(),
        "lines | where $it =~ \"test\" | length | $in > 0"
    );
    assert_eq!(
        converter
            .convert(&["-c".to_string(), "test".to_string()])
            .unwrap(),
        "lines | where $it =~ \"test\" | length"
    );
    assert_eq!(
        converter
            .convert(&["-i".to_string(), "test".to_string()])
            .unwrap(),
        "lines | where $it =~ \"test\" # case-insensitive"
    );
    assert_eq!(
        converter
            .convert(&["-w".to_string(), "test".to_string()])
            .unwrap(),
        "lines | where $it =~ \"\\btest\\b\""
    );
    assert_eq!(
        converter
            .convert(&["-F".to_string(), "test.txt".to_string()])
            .unwrap(),
        "lines | where $it =~ \"test.txt\""
    );
}

#[test]
fn test_head_converter() {
    let converter = HeadConverter;
    assert_eq!(converter.convert(&[]).unwrap(), "first 10");
    assert_eq!(
        converter
            .convert(&["-n".to_string(), "5".to_string()])
            .unwrap(),
        "first 5"
    );
    assert_eq!(converter.convert(&["-5".to_string()]).unwrap(), "first 5");
    assert_eq!(
        converter.convert(&["file.txt".to_string()]).unwrap(),
        "open \"file.txt\" | lines | first 10"
    );
    assert_eq!(
        converter
            .convert(&["-n".to_string(), "3".to_string(), "file.txt".to_string()])
            .unwrap(),
        "open \"file.txt\" | lines | first 3"
    );
    assert_eq!(converter.convert(&["-".to_string()]).unwrap(), "first 10");
    assert_eq!(
        converter
            .convert(&["-c".to_string(), "100".to_string()])
            .unwrap(),
        "first 100 bytes"
    );
}

#[test]
fn test_tail_converter() {
    let converter = TailConverter;
    assert_eq!(converter.convert(&[]).unwrap(), "last 10");
    assert_eq!(
        converter
            .convert(&["-n".to_string(), "5".to_string()])
            .unwrap(),
        "last 5"
    );
    assert_eq!(converter.convert(&["-5".to_string()]).unwrap(), "last 5");
    assert_eq!(converter.convert(&["+5".to_string()]).unwrap(), "skip 4");
    assert_eq!(
        converter.convert(&["file.txt".to_string()]).unwrap(),
        "open \"file.txt\" | lines | last 10"
    );
    assert_eq!(
        converter
            .convert(&["-n".to_string(), "3".to_string(), "file.txt".to_string()])
            .unwrap(),
        "open \"file.txt\" | lines | last 3"
    );
    assert_eq!(converter.convert(&["-".to_string()]).unwrap(), "last 10");
    assert_eq!(
        converter
            .convert(&["-f".to_string(), "file.txt".to_string()])
            .unwrap(),
        "open \"file.txt\" | lines | last 10 # follow mode not fully supported"
    );
    assert_eq!(
        converter
            .convert(&["-c".to_string(), "100".to_string()])
            .unwrap(),
        "last 100 bytes"
    );
}

#[test]
fn test_ls_converter() {
    let converter = LsConverter;
    assert_eq!(converter.convert(&[]).unwrap(), "ls");
    assert_eq!(converter.convert(&["-l".to_string()]).unwrap(), "ls --long");
    assert_eq!(converter.convert(&["-a".to_string()]).unwrap(), "ls --all");
    assert_eq!(
        converter.convert(&["-la".to_string()]).unwrap(),
        "ls --long --all"
    );
    assert_eq!(converter.convert(&["/tmp".to_string()]).unwrap(), "ls /tmp");
    assert_eq!(
        converter
            .convert(&["-l".to_string(), "/home".to_string()])
            .unwrap(),
        "ls --long /home"
    );
    assert_eq!(
        converter.convert(&["my folder".to_string()]).unwrap(),
        "ls \"my folder\""
    );
    assert_eq!(
        converter.convert(&["-t".to_string()]).unwrap(),
        "ls --sort-by modified"
    );
    assert_eq!(
        converter.convert(&["-S".to_string()]).unwrap(),
        "ls --sort-by size"
    );
    assert_eq!(
        converter.convert(&["-r".to_string()]).unwrap(),
        "ls --reverse"
    );
}

#[test]
fn test_sort_converter() {
    let converter = SortConverter;
    assert_eq!(converter.convert(&[]).unwrap(), "sort");
    assert_eq!(
        converter.convert(&["file.txt".to_string()]).unwrap(),
        "open file.txt | lines | sort"
    );
    assert_eq!(
        converter
            .convert(&["-r".to_string(), "file.txt".to_string()])
            .unwrap(),
        "open file.txt | lines | sort --reverse"
    );
    assert_eq!(converter.convert(&["-n".to_string(), "numbers.txt".to_string()]).unwrap(),
        "open numbers.txt | lines | where ($it | str trim | is-empty | not) | each { |line| $line | into int } | sort");
    assert_eq!(
        converter
            .convert(&["-u".to_string(), "file.txt".to_string()])
            .unwrap(),
        "open file.txt | lines | sort | uniq"
    );
    assert_eq!(
        converter
            .convert(&["-f".to_string(), "file.txt".to_string()])
            .unwrap(),
        "open file.txt | lines | sort --ignore-case"
    );
    assert_eq!(
        converter
            .convert(&["file1.txt".to_string(), "file2.txt".to_string()])
            .unwrap(),
        "open file1.txt file2.txt | lines | sort"
    );
    assert_eq!(
        converter
            .convert(&[
                "-o".to_string(),
                "output.txt".to_string(),
                "input.txt".to_string()
            ])
            .unwrap(),
        "open input.txt | lines | sort | save output.txt"
    );
}

#[test]
fn test_sort_complex() {
    let converter = SortConverter;
    assert_eq!(
        converter
            .convert(&["-ru".to_string(), "file.txt".to_string()])
            .unwrap(),
        "open file.txt | lines | sort --reverse | uniq"
    );
    assert_eq!(converter.convert(&["-nr".to_string(), "numbers.txt".to_string()]).unwrap(),
        "open numbers.txt | lines | where ($it | str trim | is-empty | not) | each { |line| $line | into int } | sort --reverse");
}

#[test]
fn test_uniq_converter() {
    let converter = UniqConverter;
    assert_eq!(converter.convert(&[]).unwrap(), "uniq");
    assert_eq!(
        converter.convert(&["file.txt".to_string()]).unwrap(),
        "open file.txt | lines | uniq"
    );
    assert_eq!(
        converter
            .convert(&["-c".to_string(), "file.txt".to_string()])
            .unwrap(),
        "open file.txt | lines | group-by | transpose key count | select key count"
    );
    assert_eq!(
        converter
            .convert(&["-d".to_string(), "file.txt".to_string()])
            .unwrap(),
        "open file.txt | lines | group-by | where ($it | length) > 1 | transpose | get column0"
    );
    assert_eq!(
        converter
            .convert(&["-u".to_string(), "file.txt".to_string()])
            .unwrap(),
        "open file.txt | lines | group-by | where ($it | length) == 1 | transpose | get column0"
    );
    assert_eq!(
        converter
            .convert(&["input.txt".to_string(), "output.txt".to_string()])
            .unwrap(),
        "open input.txt | lines | uniq | save output.txt"
    );
}

#[test]
fn test_uniq_complex() {
    let converter = UniqConverter;
    assert_eq!(
        converter
            .convert(&["-ci".to_string(), "file.txt".to_string()])
            .unwrap(),
        "open file.txt | lines | group-by | transpose key count | select key count # Note: ignore-case not directly supported"
    );
    assert_eq!(
        converter
            .convert(&["-f".to_string(), "2".to_string(), "file.txt".to_string()])
            .unwrap(),
        "open file.txt | lines | uniq # Note: skip-fields 2 not fully supported"
    );
}

#[test]
fn test_wc_converter() {
    let converter = WcConverter;
    assert_eq!(converter.convert(&[]).unwrap(), "wc");
    assert_eq!(
        converter.convert(&["-l".to_string()]).unwrap(),
        "lines | length"
    );
    assert_eq!(
        converter.convert(&["-w".to_string()]).unwrap(),
        "split words | length"
    );
    assert_eq!(
        converter.convert(&["-c".to_string()]).unwrap(),
        "str length"
    );
    assert_eq!(
        converter
            .convert(&["-l".to_string(), "file.txt".to_string()])
            .unwrap(),
        "open --raw \"file.txt\" | lines | length"
    );
    assert_eq!(
        converter
            .convert(&["-w".to_string(), "file.txt".to_string()])
            .unwrap(),
        "open --raw \"file.txt\" | split words | length"
    );
    assert_eq!(
        converter
            .convert(&["-c".to_string(), "file.txt".to_string()])
            .unwrap(),
        "open --raw \"file.txt\" | str length"
    );
    assert_eq!(
        converter
            .convert(&["-l".to_string(), "-".to_string()])
            .unwrap(),
        "lines | length"
    );
    assert_eq!(
        converter
            .convert(&[
                "-l".to_string(),
                "file1.txt".to_string(),
                "file2.txt".to_string()
            ])
            .unwrap(),
        "open --raw \"file1.txt\" | lines | length; open --raw \"file2.txt\" | lines | length"
    );
}

#[test]
fn test_tee_converter() {
    let converter = TeeConverter;
    assert_eq!(converter.convert(&[]).unwrap(), "tee");
    assert_eq!(
        converter.convert(&["output.txt".to_string()]).unwrap(),
        "tee output.txt"
    );
    assert_eq!(
        converter
            .convert(&["-a".to_string(), "output.txt".to_string()])
            .unwrap(),
        "tee -a output.txt"
    );
    assert_eq!(
        converter
            .convert(&["file1.txt".to_string(), "file2.txt".to_string()])
            .unwrap(),
        "tee file1.txt file2.txt"
    );
    assert_eq!(
        converter
            .convert(&[
                "-a".to_string(),
                "file1.txt".to_string(),
                "file2.txt".to_string()
            ])
            .unwrap(),
        "tee -a file1.txt file2.txt"
    );
    assert_eq!(
        converter
            .convert(&["file with spaces.txt".to_string()])
            .unwrap(),
        "tee \"file with spaces.txt\""
    );
    assert_eq!(
        converter
            .convert(&["-i".to_string(), "output.txt".to_string()])
            .unwrap(),
        "tee output.txt"
    );
    assert_eq!(
        converter
            .convert(&[
                "-a".to_string(),
                "-i".to_string(),
                "output.txt".to_string()
            ])
            .unwrap(),
        "tee -a output.txt"
    );
    assert_eq!(
        converter
            .convert(&["--append".to_string(), "output.txt".to_string()])
            .unwrap(),
        "tee -a output.txt"
    );
    assert_eq!(
        converter
            .convert(&["--ignore-interrupts".to_string(), "output.txt".to_string()])
            .unwrap(),
        "tee output.txt"
    );
}

#[test]
fn test_rm_converter() {
    let converter = RmConverter;
    assert_eq!(converter.convert(&[]).unwrap(), "rm");
    assert_eq!(
        converter.convert(&["file.txt".to_string()]).unwrap(),
        "rm \"file.txt\""
    );
    assert_eq!(
        converter
            .convert(&["-r".to_string(), "directory".to_string()])
            .unwrap(),
        "rm -r directory"
    );
    assert_eq!(
        converter
            .convert(&["-f".to_string(), "file.txt".to_string()])
            .unwrap(),
        "rm --force \"file.txt\""
    );
    assert_eq!(
        converter
            .convert(&["-rf".to_string(), "directory".to_string()])
            .unwrap(),
        "rm directory"
    );
    assert_eq!(
        converter
            .convert(&["file1.txt".to_string(), "file2.txt".to_string()])
            .unwrap(),
        "rm \"file1.txt\" \"file2.txt\""
    );
    assert_eq!(
        converter.convert(&["my file.txt".to_string()]).unwrap(),
        "rm \"my file.txt\""
    );
    assert_eq!(
        converter
            .convert(&["-t".to_string(), "file.txt".to_string()])
            .unwrap(),
        "rm --trash \"file.txt\""
    );
}

#[test]
fn test_rmdir_converter() {
    let converter = RmdirConverter;
    assert_eq!(converter.convert(&[]).unwrap(), "rm");
    assert_eq!(
        converter.convert(&["directory".to_string()]).unwrap(),
        "rm directory # Note: rmdir only removes empty directories"
    );
    assert_eq!(
        converter
            .convert(&["-p".to_string(), "path/to/directory".to_string()])
            .unwrap(),
        "rm --recursive \"path/to/directory\" # Note: rmdir only removes empty directories"
    );
    assert_eq!(
        converter
            .convert(&["-v".to_string(), "directory".to_string()])
            .unwrap(),
        "rm --verbose directory # Note: rmdir only removes empty directories"
    );
    assert_eq!(
        converter
            .convert(&["dir1".to_string(), "dir2".to_string(), "dir3".to_string()])
            .unwrap(),
        "rm dir1 dir2 dir3 # Note: rmdir only removes empty directories"
    );
    assert_eq!(
        converter.convert(&["my directory".to_string()]).unwrap(),
        "rm \"my directory\" # Note: rmdir only removes empty directories"
    );
    assert_eq!(
        converter
            .convert(&[
                "--ignore-fail-on-non-empty".to_string(),
                "directory".to_string()
            ])
            .unwrap(),
        "rm directory"
    );
}

#[test]
fn test_rmdir_complex() {
    let converter = RmdirConverter;
    assert_eq!(
        converter
            .convert(&["-pv".to_string(), "deep/nested/directory".to_string()])
            .unwrap(),
        "rm --verbose --recursive \"deep/nested/directory\" # Note: rmdir only removes empty directories"
    );
}

#[test]
fn test_mkdir_converter() {
    let converter = MkdirConverter;
    assert_eq!(converter.convert(&[]).unwrap(), "mkdir");
    assert_eq!(
        converter.convert(&["directory".to_string()]).unwrap(),
        "mkdir directory"
    );
    assert_eq!(
        converter
            .convert(&["-p".to_string(), "path/to/directory".to_string()])
            .unwrap(),
        "mkdir \"path/to/directory\" # creates parent directories automatically"
    );
    assert_eq!(
        converter.convert(&["my directory".to_string()]).unwrap(),
        "mkdir \"my directory\""
    );
    assert_eq!(
        converter
            .convert(&["dir1".to_string(), "dir2".to_string(), "dir3".to_string()])
            .unwrap(),
        "mkdir dir1 dir2 dir3"
    );
    assert_eq!(
        converter
            .convert(&["-v".to_string(), "directory".to_string()])
            .unwrap(),
        "mkdir --verbose directory"
    );
}

#[test]
fn test_cp_converter() {
    let converter = CpConverter;
    assert_eq!(converter.convert(&[]).unwrap(), "cp");
    assert_eq!(
        converter
            .convert(&["file1".to_string(), "file2".to_string()])
            .unwrap(),
        "cp file1 file2"
    );
    assert_eq!(
        converter
            .convert(&["-r".to_string(), "dir1".to_string(), "dir2".to_string()])
            .unwrap(),
        "cp -r dir1 dir2"
    );
    assert_eq!(
        converter
            .convert(&["-f".to_string(), "file1".to_string(), "file2".to_string()])
            .unwrap(),
        "cp --force file1 file2"
    );
    assert_eq!(
        converter
            .convert(&["my file".to_string(), "new file".to_string()])
            .unwrap(),
        "cp \"my file\" \"new file\""
    );
    assert_eq!(
        converter
            .convert(&[
                "file1".to_string(),
                "file2".to_string(),
                "dir/".to_string()
            ])
            .unwrap(),
        "cp file1 file2 \"dir/\""
    );
}

#[test]
fn test_mv_converter() {
    let converter = MvConverter;
    assert_eq!(converter.convert(&[]).unwrap(), "mv");
    assert_eq!(
        converter
            .convert(&["file1".to_string(), "file2".to_string()])
            .unwrap(),
        "mv file1 file2"
    );
    assert_eq!(
        converter
            .convert(&["-f".to_string(), "file1".to_string(), "file2".to_string()])
            .unwrap(),
        "mv --force file1 file2"
    );
    assert_eq!(
        converter
            .convert(&["my file".to_string(), "new file".to_string()])
            .unwrap(),
        "mv \"my file\" \"new file\""
    );
    assert_eq!(
        converter
            .convert(&[
                "file1".to_string(),
                "file2".to_string(),
                "dir/".to_string()
            ])
            .unwrap(),
        "mv file1 file2 \"dir/\""
    );
}

#[test]
fn test_chmod_converter() {
    let converter = ChmodConverter;
    assert_eq!(converter.convert(&[]).unwrap(), "chmod");
    assert_eq!(
        converter
            .convert(&["755".to_string(), "file.txt".to_string()])
            .unwrap(),
        "chmod 755 file.txt # Note: uses external chmod command"
    );
    assert_eq!(
        converter
            .convert(&[
                "-R".to_string(),
                "644".to_string(),
                "directory".to_string()
            ])
            .unwrap(),
        "ls directory | each { |file| chmod 644 $file.name } # Note: uses external chmod command"
    );
    assert_eq!(
        converter
            .convert(&[
                "-v".to_string(),
                "755".to_string(),
                "script.sh".to_string()
            ])
            .unwrap(),
        "chmod 755 script.sh --verbose # Note: uses external chmod command"
    );
    assert_eq!(
        converter
            .convert(&[
                "644".to_string(),
                "file1.txt".to_string(),
                "file2.txt".to_string()
            ])
            .unwrap(),
        "chmod 644 file1.txt file2.txt # Note: uses external chmod command"
    );
    assert_eq!(
        converter
            .convert(&["u+x".to_string(), "script.sh".to_string()])
            .unwrap(),
        "chmod u+x script.sh # Note: uses external chmod command"
    );
    assert_eq!(
        converter
            .convert(&[
                "--reference".to_string(),
                "ref.txt".to_string(),
                "target.txt".to_string()
            ])
            .unwrap(),
        "chmod --reference=ref.txt target.txt # Note: uses external chmod command"
    );
}

#[test]
fn test_chmod_complex() {
    let converter = ChmodConverter;
    assert_eq!(
        converter
            .convert(&[
                "-Rv".to_string(),
                "755".to_string(),
                "directory".to_string()
            ])
            .unwrap(),
        "ls directory | each { |file| chmod 755 $file.name } --verbose # Note: uses external chmod command"
    );
    assert_eq!(
        converter
            .convert(&["644".to_string(), "my file.txt".to_string()])
            .unwrap(),
        "chmod 644 \"my file.txt\" # Note: uses external chmod command"
    );
}

#[test]
fn test_chown_converter() {
    let converter = ChownConverter;
    assert_eq!(converter.convert(&[]).unwrap(), "chown");
    assert_eq!(
        converter
            .convert(&["user".to_string(), "file.txt".to_string()])
            .unwrap(),
        "chown user file.txt # Note: uses external chown command"
    );
    assert_eq!(
        converter
            .convert(&["user:group".to_string(), "file.txt".to_string()])
            .unwrap(),
        "chown user:group file.txt # Note: uses external chown command"
    );
    assert_eq!(
        converter
            .convert(&[
                "-R".to_string(),
                "user".to_string(),
                "directory".to_string()
            ])
            .unwrap(),
        "ls directory | each { |file| chown user $file.name } # Note: uses external chown command"
    );
    assert_eq!(
        converter
            .convert(&[
                "-v".to_string(),
                "user".to_string(),
                "file.txt".to_string()
            ])
            .unwrap(),
        "chown user file.txt --verbose # Note: uses external chown command"
    );
    assert_eq!(
        converter
            .convert(&[
                "user:group".to_string(),
                "file1.txt".to_string(),
                "file2.txt".to_string()
            ])
            .unwrap(),
        "chown user:group file1.txt file2.txt # Note: uses external chown command"
    );
    assert_eq!(
        converter
            .convert(&[
                "--reference".to_string(),
                "ref.txt".to_string(),
                "target.txt".to_string()
            ])
            .unwrap(),
        "chown --reference=ref.txt target.txt # Note: uses external chown command"
    );
}

#[test]
fn test_chown_complex() {
    let converter = ChownConverter;
    assert_eq!(
        converter
            .convert(&[
                "-Rv".to_string(),
                "user:group".to_string(),
                "directory".to_string()
            ])
            .unwrap(),
        "ls directory | each { |file| chown user:group $file.name } --verbose # Note: uses external chown command"
    );
    assert_eq!(
        converter
            .convert(&["user".to_string(), "my file.txt".to_string()])
            .unwrap(),
        "chown user \"my file.txt\" # Note: uses external chown command"
    );
    assert_eq!(
        converter
            .convert(&["-c".to_string(), "user".to_string(), "file.txt".to_string()])
            .unwrap(),
        "chown user file.txt --changes # Note: uses external chown command"
    );
}

#[test]
fn test_which_converter() {
    let converter = WhichConverter;
    assert_eq!(converter.convert(&[]).unwrap(), "which");
    assert_eq!(converter.convert(&["ls".to_string()]).unwrap(), "which ls");
    assert_eq!(
        converter
            .convert(&["-a".to_string(), "python".to_string()])
            .unwrap(),
        "which -a python"
    );
    assert_eq!(
        converter
            .convert(&["-s".to_string(), "nonexistent".to_string()])
            .unwrap(),
        "which nonexistent | ignore"
    );
    assert_eq!(
        converter
            .convert(&["ls".to_string(), "cat".to_string(), "grep".to_string()])
            .unwrap(),
        "which ls cat grep"
    );
    assert_eq!(
        converter.convert(&["my command".to_string()]).unwrap(),
        "which \"my command\""
    );
}

#[test]
fn test_which_complex() {
    let converter = WhichConverter;
    assert_eq!(
        converter
            .convert(&["-a".to_string(), "python".to_string(), "node".to_string()])
            .unwrap(),
        "[which -a python, which -a node] | each { |cmd| ^$cmd }"
    );
    assert_eq!(
        converter
            .convert(&["-as".to_string(), "python".to_string()])
            .unwrap(),
        "which -a python | ignore"
    );
}

#[test]
fn test_whoami_converter() {
    let converter = WhoamiConverter;
    assert_eq!(
        converter.convert(&[]).unwrap(),
        "$env.USER? | default (whoami)"
    );
    assert_eq!(
        converter.convert(&["--help".to_string()]).unwrap(),
        "whoami --help"
    );
    assert_eq!(
        converter.convert(&["--version".to_string()]).unwrap(),
        "whoami --version"
    );
    assert_eq!(converter.convert(&["-x".to_string()]).unwrap(), "whoami -x");
}

#[test]
fn test_whoami_complex() {
    let converter = WhoamiConverter;
    assert_eq!(
        converter
            .convert(&["--help".to_string(), "--version".to_string()])
            .unwrap(),
        "whoami --help --version"
    );
}

#[test]
fn test_command_registry() {
    let registry = CommandRegistry::new();
    assert!(registry.find_converter("echo").is_some());
    assert!(registry.find_converter("ls").is_some());
    assert!(registry.find_converter("grep").is_some());
    assert!(registry.find_converter("sort").is_some());
    assert!(registry.find_converter("uniq").is_some());
    assert!(registry.find_converter("rmdir").is_some());
    assert!(registry.find_converter("chmod").is_some());
    assert!(registry.find_converter("chown").is_some());
    assert!(registry.find_converter("nonexistent").is_none());
}

#[test]
fn test_base_converter_quoting() {
    let base = BaseConverter;
    assert_eq!(base.quote_arg("simple"), "simple");
    assert_eq!(base.quote_arg("with space"), "\"with space\"");
    assert_eq!(base.quote_arg("with$var"), "\"with$var\"");
    assert_eq!(base.quote_arg("with*glob"), "\"with*glob\"");
}

#[test]
fn mod_test_format_args() {
    let base = BaseConverter;
    let args = vec![
        "simple".to_string(),
        "with space".to_string(),
        "normal".to_string(),
    ];
    assert_eq!(base.format_args(&args), "simple \"with space\" normal");
}
