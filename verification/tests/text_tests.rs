use dab_s3_logs::listing::{
    build_profile_arg, build_s3_uri, parse_stdout, trim_trailing_slashes,
};
use dab_s3_logs::profiles::{clean_profile, get_aws_profiles, parse_profiles};
use dab_s3_logs::text::{find_bracketed, is_hidden_name, remove_pat, split_char, trim};

#[test]
fn trim_strips_both_ends() {
    assert_eq!(trim("  hello \t"), "hello");
    assert_eq!(trim("no-space"), "no-space");
    assert_eq!(trim("   "), "");
    assert_eq!(trim(""), "");
    assert_eq!(trim(" a b "), "a b");
}

#[test]
fn remove_pat_removes_all_occurrences() {
    assert_eq!(remove_pat("PRE staging PRE", "PRE"), " staging ");
    assert_eq!(remove_pat("abcabc", "b"), "acac");
    assert_eq!(remove_pat("nothing here", "xyz"), "nothing here");
    assert_eq!(remove_pat("aaa", "aa"), "a");
}

#[test]
fn split_char_keeps_empty_segments() {
    assert_eq!(split_char("a\nb\nc", '\n'), vec!["a", "b", "c"]);
    assert_eq!(split_char("a\n\nb", '\n'), vec!["a", "", "b"]);
    assert_eq!(split_char("", '\n'), vec![""]);
    assert_eq!(split_char("tail\n", '\n'), vec!["tail", ""]);
}

#[test]
fn find_bracketed_returns_leftmost_span() {
    assert_eq!(find_bracketed("[default]"), Some(String::from("[default]")));
    assert_eq!(find_bracketed("x [a] y [b]"), Some(String::from("[a]")));
    assert_eq!(find_bracketed("no brackets"), None);
    assert_eq!(find_bracketed("open [only"), None);
    assert_eq!(find_bracketed("] before ["), None);
    assert_eq!(
        find_bracketed("[profile dev]"),
        Some(String::from("[profile dev]"))
    );
}

#[test]
fn hidden_names_start_with_a_dot() {
    assert!(is_hidden_name(".git"));
    assert!(!is_hidden_name("logs"));
    assert!(!is_hidden_name(""));
}

#[test]
fn clean_profile_strips_brackets_word_and_space() {
    assert_eq!(clean_profile("[profile dev]"), "dev");
    assert_eq!(clean_profile("[default]"), "default");
    assert_eq!(clean_profile("[ staging ]"), "staging");
}

#[test]
fn parse_profiles_cleans_each_match() {
    let raw = vec![
        String::from("[profile dev]"),
        String::from("[default]"),
    ];
    assert_eq!(parse_profiles(raw), vec!["dev", "default"]);
}

#[test]
fn get_aws_profiles_reads_bracketed_lines() {
    let lines = vec![
        String::from("[default]"),
        String::from("region = eu-west-1"),
        String::from("[profile dev]"),
        String::from(""),
        String::from("[profile prod]"),
    ];
    assert_eq!(get_aws_profiles(lines), vec!["default", "dev", "prod"]);
}

#[test]
fn parse_stdout_cleans_and_drops_empty_lines() {
    let out = parse_stdout("   PRE staging/\n\n  file.txt  \nPRE\n");
    assert_eq!(out, vec!["staging/", "file.txt"]);
}

#[test]
fn build_profile_arg_formats_flag() {
    assert_eq!(build_profile_arg("dev"), "--profile=dev");
}

#[test]
fn build_s3_uri_formats_uri() {
    assert_eq!(build_s3_uri("bucket", "prefix/path"), "s3://bucket/prefix/path");
}

#[test]
fn trim_trailing_slashes_removes_all() {
    assert_eq!(trim_trailing_slashes("dir/"), "dir");
    assert_eq!(trim_trailing_slashes("dir//"), "dir");
    assert_eq!(trim_trailing_slashes("plain"), "plain");
    assert_eq!(trim_trailing_slashes(""), "");
}
