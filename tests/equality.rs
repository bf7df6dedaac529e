use zia::env::EnvVars;
use zia::execution::CommandExecution;
use zia::report::{CommandComparison, Report, Timestamp};

fn execution(stdout: &str, retcode: i32, duration: u128) -> CommandExecution {
    CommandExecution {
        stdout: stdout.to_string(),
        stderr: String::new(),
        retcode,
        duration,
        log_file: None,
        env: Some(EnvVars::from_pairs(vec![
            ("A".to_string(), "1".to_string()),
            ("B".to_string(), "2".to_string()),
        ])),
        binary_realpath: "/bin/x".to_string(),
    }
}

fn report(secs: i64, stdout: &str, with_diff: bool) -> Report {
    let mut c = CommandComparison::new("c".to_string(), execution(stdout, 0, 3), execution("same", 0, 4));
    if with_diff {
        c.diff_stdout = Some(vec!["<span>x</span>".to_string()]);
    }
    Report { timestamp: Timestamp { secs, nanos: 5 }, command_comparisons: vec![c] }
}

#[test]
fn executions_differing_in_duration_are_equal() {
    assert!(execution("o", 0, 1) == execution("o", 0, 999_999));
}

#[test]
fn executions_differing_in_retcode_are_not_equal() {
    assert!(execution("o", 0, 1) != execution("o", 1, 1));
}

#[test]
fn executions_differing_in_env_are_not_equal() {
    let a = execution("o", 0, 1);
    let mut b = execution("o", 0, 1);
    b.env = Some(EnvVars::from_pairs(vec![("A".to_string(), "1".to_string())]));
    assert!(a != b);
    b.env = None;
    assert!(a != b);
}

#[test]
fn env_order_does_not_matter_for_equality() {
    let a = execution("o", 0, 1);
    let mut b = execution("o", 0, 1);
    b.env = Some(EnvVars::from_pairs(vec![
        ("B".to_string(), "2".to_string()),
        ("A".to_string(), "1".to_string()),
    ]));
    assert!(a == b);
}

#[test]
fn report_equality_is_reflexive_and_symmetric() {
    let a = report(1, "same", false);
    let b = report(1, "other", false);
    assert!(a == a);
    assert!(a != b);
    assert!(b != a);
}

#[test]
fn report_equality_ignores_timestamp_and_diffs() {
    assert!(report(1, "same", false) == report(2, "same", true));
}

#[test]
fn report_equality_needs_same_length() {
    let a = report(1, "same", false);
    let b = Report::new(Timestamp { secs: 1, nanos: 5 });
    assert!(a != b);
}

#[test]
fn comparison_equality_needs_same_name() {
    let a = CommandComparison::new("a".to_string(), execution("x", 0, 1), execution("x", 0, 1));
    let b = CommandComparison::new("b".to_string(), execution("x", 0, 2), execution("x", 0, 3));
    let c = CommandComparison::new("a".to_string(), execution("x", 0, 2), execution("x", 0, 3));
    assert!(a != b);
    assert!(a == c);
}
