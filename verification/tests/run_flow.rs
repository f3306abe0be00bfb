use hook_learner::invocation::{
    build_request, hook_environment, process_exit_code, process_hook_output, RunTally,
};

fn three_domains() -> (Vec<String>, String) {
    let v = vec!["a.org".to_string(), "b.org".to_string(), "c.org".to_string()];
    let all = "a.org,b.org,c.org".to_string();
    (v, all)
}

#[test]
fn remaining_challenges_counts_down_to_zero() {
    let (v, all) = three_domains();
    assert_eq!(build_request(&v, &all, 0).remaining_challenges, 2);
    assert_eq!(build_request(&v, &all, 1).remaining_challenges, 1);
    assert_eq!(build_request(&v, &all, 2).remaining_challenges, 0);
}

#[test]
fn request_names_its_domain_and_the_whole_list() {
    let (v, all) = three_domains();
    for i in 0..v.len() {
        let req = build_request(&v, &all, i);
        assert_eq!(req.domain, v[i]);
        assert_eq!(req.all_domains, all);
    }
}

#[test]
fn validation_token_is_a_fresh_hyphenated_uuid() {
    let (v, all) = three_domains();
    let t1 = build_request(&v, &all, 0).validation_token;
    let t2 = build_request(&v, &all, 0).validation_token;
    for t in [&t1, &t2] {
        assert_eq!(t.len(), 36);
        for (i, c) in t.chars().enumerate() {
            if i == 8 || i == 13 || i == 18 || i == 23 {
                assert_eq!(c, '-');
            } else {
                assert!(c.is_ascii_hexdigit() && !c.is_ascii_uppercase());
            }
        }
    }
    assert_ne!(t1, t2);
}

#[test]
fn environment_holds_exactly_four_variables() {
    let (v, all) = three_domains();
    let req = build_request(&v, &all, 1);
    let env = hook_environment(&req);
    assert_eq!(env.len(), 4);
    assert_eq!(env[0].0.as_str(), "HOOK_DOMAIN");
    assert_eq!(env[0].1.as_str(), "b.org");
    assert_eq!(env[1].0.as_str(), "HOOK_VALIDATION");
    assert_eq!(env[1].1, req.validation_token);
    assert_eq!(env[2].0.as_str(), "HOOK_REMAINING_CHALLENGES");
    assert_eq!(env[2].1.as_str(), "1");
    assert_eq!(env[3].0.as_str(), "HOOK_ALL_DOMAINS");
    assert_eq!(env[3].1.as_str(), "a.org,b.org,c.org");
}

#[test]
fn stdout_only_hook_passes_and_is_echoed() {
    let report = process_hook_output("a.org", "all good\n", "");
    assert_eq!(report.err_code, 0);
    assert_eq!(
        report.output_lines,
        vec![
            "Hook '--auth-hook' for a.org ran with output:".to_string(),
            "all good".to_string(),
        ]
    );
    assert!(report.error_lines.is_empty());
}

#[test]
fn stderr_hook_fails_and_is_echoed_in_red() {
    let report = process_hook_output("a.org", "", "bad cert\n");
    assert_eq!(report.err_code, 1);
    assert!(report.output_lines.is_empty());
    assert_eq!(
        report.error_lines,
        vec![
            "\u{1b}[31mHook '--auth-hook' for a.org ran with error output:\u{1b}[0m".to_string(),
            "\u{1b}[31mbad cert\u{1b}[0m".to_string(),
        ]
    );
}

#[test]
fn silent_hook_passes_without_echo() {
    let report = process_hook_output("a.org", "", "");
    assert_eq!(report.err_code, 0);
    assert!(report.output_lines.is_empty());
    assert!(report.error_lines.is_empty());
}

#[test]
fn whitespace_only_streams_trim_to_nothing() {
    let report = process_hook_output("a.org", "\n", " \t\n");
    assert_eq!(report.err_code, 0);
    assert!(report.output_lines.is_empty());
    assert!(report.error_lines.is_empty());
}

#[test]
fn clean_run_is_successful() {
    let mut tally = RunTally::new();
    tally.record(0);
    tally.record(0);
    assert!(tally.is_success());
    assert_eq!(process_exit_code(&tally), 0);
}

#[test]
fn reported_errors_spoil_success_but_not_exit_code() {
    let mut tally = RunTally::new();
    tally.record(0);
    tally.record(1);
    tally.record(1);
    assert_eq!(tally.err_total, 2);
    assert!(!tally.is_success());
    assert_eq!(process_exit_code(&tally), 0);
}
