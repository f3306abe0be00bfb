use hook_learner::domains::{join_domains, normalize_domains, split_domains, summary_line_of};
use hook_learner::messages::{
    check_hook_path, color_error, hook_not_executable_line, hook_not_found_lines, success_line_of,
    HookPathError,
};
use hook_learner::numerals::usize_to_decimal;
use hook_learner::text::trim_end;

#[test]
fn decimal_single_digits() {
    assert_eq!(usize_to_decimal(0).as_str(), "0");
    assert_eq!(usize_to_decimal(7).as_str(), "7");
    assert_eq!(usize_to_decimal(9).as_str(), "9");
}

#[test]
fn decimal_multi_digits() {
    assert_eq!(usize_to_decimal(10).as_str(), "10");
    assert_eq!(usize_to_decimal(12345).as_str(), "12345");
    assert_eq!(usize_to_decimal(1000000).as_str(), "1000000");
}

#[test]
fn trim_end_removes_trailing_whitespace() {
    assert_eq!(trim_end("hi \n").as_str(), "hi");
    assert_eq!(trim_end("line\r\n").as_str(), "line");
    assert_eq!(trim_end("a\u{3000}\t ").as_str(), "a");
}

#[test]
fn trim_end_keeps_leading_and_inner_whitespace() {
    assert_eq!(trim_end("  a b  ").as_str(), "  a b");
    assert_eq!(trim_end("").as_str(), "");
    assert_eq!(trim_end(" \t\r\n").as_str(), "");
}

#[test]
fn join_puts_commas_between_domains() {
    let v = vec!["a".to_string(), "b".to_string(), "c".to_string()];
    assert_eq!(join_domains(&v).as_str(), "a,b,c");
    let one = vec!["solo".to_string()];
    assert_eq!(join_domains(&one).as_str(), "solo");
    let none: Vec<String> = Vec::new();
    assert_eq!(join_domains(&none).as_str(), "");
}

#[test]
fn split_separates_on_every_comma() {
    assert_eq!(split_domains("a,b,c"), vec!["a", "b", "c"]);
    assert_eq!(split_domains("solo"), vec!["solo"]);
    assert_eq!(split_domains(""), vec![""]);
    assert_eq!(split_domains("a,,b"), vec!["a", "", "b"]);
    assert_eq!(split_domains(",a,"), vec!["", "a", ""]);
}

#[test]
fn normalize_accepts_both_input_forms() {
    let repeated = vec!["a".to_string(), "b".to_string(), "c".to_string()];
    let joined_flag = vec!["a,b".to_string(), "c".to_string()];
    let (all_1, parts_1) = normalize_domains(&repeated);
    let (all_2, parts_2) = normalize_domains(&joined_flag);
    assert_eq!(all_1.as_str(), "a,b,c");
    assert_eq!(all_2.as_str(), "a,b,c");
    assert_eq!(parts_1, vec!["a", "b", "c"]);
    assert_eq!(parts_2, vec!["a", "b", "c"]);
    assert_eq!(join_domains(&parts_1), all_1);
}

#[test]
fn summary_line_one_domain() {
    let v = vec!["example.com".to_string()];
    assert_eq!(
        summary_line_of(&v).as_str(),
        "Learning hook process for example.com"
    );
}

#[test]
fn summary_line_two_domains() {
    let v = vec!["a.org".to_string(), "b.org".to_string()];
    assert_eq!(
        summary_line_of(&v).as_str(),
        "Learning hook process for a.org and b.org"
    );
}

#[test]
fn summary_line_three_domains() {
    let v = vec!["a.org".to_string(), "b.org".to_string(), "c.org".to_string()];
    assert_eq!(
        summary_line_of(&v).as_str(),
        "Learning hook process for a.org and 2 more domains"
    );
}

#[test]
fn summary_line_five_domains() {
    let v = vec![
        "a".to_string(),
        "b".to_string(),
        "c".to_string(),
        "d".to_string(),
        "e".to_string(),
    ];
    assert_eq!(
        summary_line_of(&v).as_str(),
        "Learning hook process for a and 4 more domains"
    );
}

#[test]
fn color_wraps_in_red_escapes() {
    assert_eq!(color_error("oops").as_str(), "\u{1b}[31moops\u{1b}[0m");
}

#[test]
fn missing_hook_is_rejected_first() {
    assert_eq!(check_hook_path(false, false), Some(HookPathError::NotFound));
    assert_eq!(check_hook_path(false, true), Some(HookPathError::NotFound));
    assert_eq!(
        check_hook_path(true, false),
        Some(HookPathError::NotExecutable)
    );
    assert_eq!(check_hook_path(true, true), None);
}

#[test]
fn not_found_lines_name_path_and_env() {
    let lines = hook_not_found_lines("./hook.sh", "/usr/bin:/bin");
    assert_eq!(lines.len(), 2);
    assert_eq!(
        lines[0].as_str(),
        "\u{1b}[31mUnable to find auth-hook command ./hook.sh in the PATH.\u{1b}[0m"
    );
    assert_eq!(
        lines[1].as_str(),
        "\u{1b}[31m(PATH is /usr/bin:/bin)\u{1b}[0m"
    );
}

#[test]
fn not_executable_line_names_path() {
    assert_eq!(
        hook_not_executable_line("./hook.sh").as_str(),
        "\u{1b}[31mauth-hook command ./hook.sh exists, but is not executable.\u{1b}[0m"
    );
}

#[test]
fn success_line_text() {
    assert_eq!(success_line_of().as_str(), "The result was successful.");
}
