use zia::config::{Command, Config};
use zia::env::EnvVars;
use zia::execution::{CommandExecution, ExecutionError};
use zia::report::{run, run_at, Timestamp};

fn command(name: &str) -> Command {
    Command {
        name: name.to_string(),
        env: Some(EnvVars::from_pairs(vec![("ZIA_ENV1".to_string(), "rob".to_string())])),
        args: vec!["list".to_string()],
    }
}

fn config(commands: Vec<Command>) -> Config {
    Config { bin1: "/bin/one".to_string(), bin2: "/bin/two".to_string(), commands }
}

fn exec(bin: &str, cmd: &Command, out: &str, err: &str, code: i32) -> CommandExecution {
    CommandExecution::from_output(
        &bin.to_string(),
        cmd,
        out.as_bytes().to_vec(),
        err.as_bytes().to_vec(),
        Some(code),
        7,
    )
    .unwrap()
}

#[test]
fn from_output_builds_the_record() {
    let cmd = command("c");
    let ce = exec("/bin/one", &cmd, "out", "err", 3);
    assert_eq!(ce.stdout, "out");
    assert_eq!(ce.stderr, "err");
    assert_eq!(ce.retcode, 3);
    assert_eq!(ce.duration, 7);
    assert_eq!(ce.log_file, None);
    assert_eq!(ce.binary_realpath, "/bin/one");
    assert_eq!(ce.env.unwrap().get(&"ZIA_ENV1".to_string()), Some(&"rob".to_string()));
}

#[test]
fn from_output_rejects_invalid_text() {
    let cmd = command("c");
    let r = CommandExecution::from_output(&"/b".to_string(), &cmd, vec![0xff, 0xfe], vec![], Some(0), 1);
    assert!(matches!(r, Err(ExecutionError::DecodeError)));
    let r = CommandExecution::from_output(&"/b".to_string(), &cmd, vec![], vec![0xc3], None, 1);
    assert!(matches!(r, Err(ExecutionError::DecodeError)));
}

#[test]
fn from_output_without_exit_code_is_a_process_error() {
    let cmd = command("c");
    let r = CommandExecution::from_output(&"/b".to_string(), &cmd, vec![], vec![], None, 1);
    assert!(matches!(r, Err(ExecutionError::ProcessError)));
}

#[test]
fn from_output_decodes_utf8() {
    let cmd = command("c");
    let r = CommandExecution::from_output(&"/b".to_string(), &cmd, "ʕ•ᴥ•ʔ".as_bytes().to_vec(), vec![], Some(0), 1)
        .unwrap();
    assert_eq!(r.stdout, "ʕ•ᴥ•ʔ");
}

#[test]
fn identical_runs_have_no_diffs_and_are_ok() {
    let cfg = config(vec![command("test_cmd")]);
    let c = &cfg.commands[0];
    let runs = vec![(exec("/bin/one", c, "out", "err", 0), exec("/bin/two", c, "out", "err", 0))];
    let r = run_at(&cfg, Timestamp { secs: 0, nanos: 0 }, runs);
    assert_eq!(r.command_comparisons.len(), 1);
    assert_eq!(r.command_comparisons[0].diff_stdout, None);
    assert_eq!(r.command_comparisons[0].diff_stderr, None);
    assert_eq!(r.generate_summary_with("H", "ok", "FAILED"), "H (1 commands)\n\n+ cmd \"test_cmd\" ... ok\n");
}

#[test]
fn retcode_mismatch_keeps_diffs_empty() {
    let cfg = config(vec![command("test_cmd")]);
    let c = &cfg.commands[0];
    let runs = vec![(exec("/bin/one", c, "out", "err", 1), exec("/bin/two", c, "out", "err", 0))];
    let r = run_at(&cfg, Timestamp { secs: 0, nanos: 0 }, runs);
    assert_eq!(r.command_comparisons[0].diff_stdout, None);
    assert_eq!(r.command_comparisons[0].diff_stderr, None);
    assert_eq!(r.generate_summary_with("H", "ok", "FAILED"), "H (1 commands)\n\n+ cmd \"test_cmd\" ... FAILED\n");
}

#[test]
fn added_stdout_line_gives_a_diff() {
    let cfg = config(vec![command("a"), command("b")]);
    let runs = vec![
        (exec("/bin/one", &cfg.commands[0], "l1\nl2\n", "", 0), exec("/bin/two", &cfg.commands[0], "l1\nl2\nl3\n", "", 0)),
        (exec("/bin/one", &cfg.commands[1], "same", "", 0), exec("/bin/two", &cfg.commands[1], "same", "", 0)),
    ];
    let r = run(&cfg, runs);
    assert_eq!(r.command_comparisons[0].name, "a");
    assert_eq!(r.command_comparisons[1].name, "b");
    assert_eq!(
        r.command_comparisons[0].diff_stdout,
        Some(vec![
            "<span>l1</span>".to_string(),
            "<span>l2</span>".to_string(),
            "<span class='text-success'>l3</span>".to_string(),
        ])
    );
    assert_eq!(r.command_comparisons[0].diff_stderr, None);
    assert_eq!(r.command_comparisons[1].diff_stdout, None);
}

#[test]
fn no_commands_give_an_empty_report() {
    let cfg = config(vec![]);
    let r = run_at(&cfg, Timestamp { secs: 9, nanos: 1 }, vec![]);
    assert!(r.command_comparisons.is_empty());
    assert_eq!(r.timestamp, Timestamp { secs: 9, nanos: 1 });
    assert_eq!(r.generate_summary_with("H", "ok", "FAILED"), "H (0 commands)\n\n");
}

#[test]
fn missing_binary_reports_the_first() {
    let cfg = config(vec![]);
    assert_eq!(cfg.missing_binary(false, false), Some("/bin/one".to_string()));
    assert_eq!(cfg.missing_binary(true, false), Some("/bin/two".to_string()));
    assert_eq!(cfg.missing_binary(true, true), None);
}

#[test]
fn env_vars_later_pair_wins() {
    let mut e = EnvVars::from_pairs(vec![
        ("K".to_string(), "1".to_string()),
        ("K".to_string(), "2".to_string()),
    ]);
    assert_eq!(e.len(), 1);
    assert_eq!(e.get(&"K".to_string()), Some(&"2".to_string()));
    e.insert("J".to_string(), "3".to_string());
    e.insert("K".to_string(), "4".to_string());
    assert_eq!(e.len(), 2);
    assert_eq!(e.get(&"K".to_string()), Some(&"4".to_string()));
    assert_eq!(e.get(&"Z".to_string()), None);
    assert!(e.duplicate().same_as(&e));
    assert!(!EnvVars::new().same_as(&e));
}
