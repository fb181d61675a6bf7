use git2_process_filter::text::trim;
use git2_process_filter::{
    clean_key, filter_attribute, next_wait_action, plan_command, select_strategy, settle,
    settle_with_text, smudge_key, Direction, ExitPoll, FilterError, Invocation, IoStage, Limits,
    ProcessFilter, Strategy, WaitAction, DEFAULT_TIMEOUT_MS, POLL_INTERVAL_MS, STREAM_THRESHOLD,
};

fn short_limits() -> Limits {
    Limits { stream_threshold: 16, timeout_ms: 50, poll_interval_ms: 5 }
}

#[test]
fn standard_limits() {
    let l = Limits::standard();
    assert_eq!(l.stream_threshold, 64 * 1024);
    assert_eq!(l.timeout_ms, 300_000);
    assert_eq!(l.poll_interval_ms, 10);
    assert_eq!(STREAM_THRESHOLD, 65536);
    assert_eq!(DEFAULT_TIMEOUT_MS, 300_000);
    assert_eq!(POLL_INTERVAL_MS, 10);
}

#[test]
fn strategy_switches_above_threshold() {
    assert_eq!(select_strategy(0, STREAM_THRESHOLD), Strategy::Buffered);
    assert_eq!(select_strategy(11, STREAM_THRESHOLD), Strategy::Buffered);
    assert_eq!(select_strategy(65535, STREAM_THRESHOLD), Strategy::Buffered);
    assert_eq!(select_strategy(65536, STREAM_THRESHOLD), Strategy::Buffered);
    assert_eq!(select_strategy(65537, STREAM_THRESHOLD), Strategy::Streaming);
    assert_eq!(select_strategy(100_000, STREAM_THRESHOLD), Strategy::Streaming);
}

#[test]
fn empty_template_passes_through() {
    for len in [0usize, 11, 100_000] {
        assert!(matches!(
            plan_command("", "a.bin", len, Limits::standard()),
            Invocation::PassThrough
        ));
    }
}

#[test]
fn blank_template_passes_through() {
    assert!(matches!(
        plan_command(" \t ", "a.bin", 3, Limits::standard()),
        Invocation::PassThrough
    ));
    assert!(matches!(plan_command("''", "a.bin", 3, Limits::standard()), Invocation::PassThrough));
}

#[test]
fn plan_differs_across_threshold_only_in_strategy() {
    let small = plan_command("cat -- %f", "x y", 65536, Limits::standard());
    let large = plan_command("cat -- %f", "x y", 65537, Limits::standard());
    match (small, large) {
        (
            Invocation::Spawn { program: p1, args: a1, strategy: s1 },
            Invocation::Spawn { program: p2, args: a2, strategy: s2 },
        ) => {
            assert_eq!(p1, "cat");
            assert_eq!(p1, p2);
            assert_eq!(a1, vec!["--", "x", "y"]);
            assert_eq!(a1, a2);
            assert_eq!(s1, Strategy::Buffered);
            assert_eq!(s2, Strategy::Streaming);
        }
        _ => panic!("expected two spawns"),
    }
}

#[test]
fn filter_picks_command_by_direction() {
    let f = ProcessFilter::new("tr a-z A-Z", "tr A-Z a-z");
    assert_eq!(f.command_for(Direction::ToStorage), "tr a-z A-Z");
    assert_eq!(f.command_for(Direction::ToWorkingCopy), "tr A-Z a-z");
    match f.plan(Direction::ToWorkingCopy, "t.txt", 12, short_limits()) {
        Invocation::Spawn { program, args, strategy } => {
            assert_eq!(program, "tr");
            assert_eq!(args, vec!["A-Z", "a-z"]);
            assert_eq!(strategy, Strategy::Buffered);
        }
        _ => panic!("expected a spawn"),
    }
}

#[test]
fn unconfigured_direction_passes_through() {
    let f = ProcessFilter::new("cat", "");
    assert!(matches!(
        f.plan(Direction::ToWorkingCopy, "t.txt", 12, short_limits()),
        Invocation::PassThrough
    ));
    assert!(matches!(
        f.plan(Direction::ToStorage, "t.txt", 17, short_limits()),
        Invocation::Spawn { strategy: Strategy::Streaming, .. }
    ));
}

#[test]
fn exited_child_is_settled() {
    assert_eq!(
        next_wait_action(ExitPoll::Exited { success: true }, 10_000, short_limits()),
        WaitAction::Finish { success: true }
    );
    assert_eq!(
        next_wait_action(ExitPoll::Exited { success: false }, 0, short_limits()),
        WaitAction::Finish { success: false }
    );
}

#[test]
fn running_child_within_timeout_is_polled_again() {
    assert_eq!(next_wait_action(ExitPoll::Running, 0, short_limits()), WaitAction::Sleep { ms: 5 });
    assert_eq!(next_wait_action(ExitPoll::Running, 50, short_limits()), WaitAction::Sleep { ms: 5 });
}

#[test]
fn running_child_past_timeout_is_killed() {
    assert_eq!(next_wait_action(ExitPoll::Running, 51, short_limits()), WaitAction::Kill);
    assert_eq!(
        next_wait_action(ExitPoll::Running, 300_001, Limits::standard()),
        WaitAction::Kill
    );
}

#[test]
fn failed_wait_is_abandoned() {
    assert_eq!(next_wait_action(ExitPoll::Failed, 0, short_limits()), WaitAction::Abandon);
}

#[test]
fn success_returns_output() {
    match settle("cat", true, b"hello world".to_vec(), b"") {
        Ok(c) => {
            assert_eq!(c.output, b"hello world".to_vec());
            assert!(c.warning.is_none());
        }
        Err(e) => panic!("unexpected error: {}", e.message()),
    }
}

#[test]
fn success_with_error_output_warns() {
    match settle("tool", true, vec![1, 2, 3], b"  careful\n") {
        Ok(c) => {
            assert_eq!(c.output, vec![1, 2, 3]);
            assert_eq!(c.warning.as_deref(), Some("careful"));
        }
        Err(e) => panic!("unexpected error: {}", e.message()),
    }
}

#[test]
fn failure_carries_error_output() {
    match settle("sh", false, b"partial".to_vec(), b"boom\n") {
        Err(e) => {
            assert!(e.message().contains("boom"));
            assert_eq!(e.message(), "'sh' failed: boom");
            assert!(matches!(e, FilterError::NonZeroExit { .. }));
        }
        Ok(_) => panic!("expected an error"),
    }
}

#[test]
fn failure_without_error_output() {
    match settle("false", false, Vec::new(), b"") {
        Err(e) => assert_eq!(e.message(), "'false' failed: "),
        Ok(_) => panic!("expected an error"),
    }
}

#[test]
fn invalid_utf8_error_output_is_decoded_lossily() {
    match settle("x", false, Vec::new(), &[0x62, 0xff, 0x61, b'\n']) {
        Err(e) => assert_eq!(e.message(), "'x' failed: b\u{fffd}a"),
        Ok(_) => panic!("expected an error"),
    }
}

#[test]
fn settle_with_text_trims() {
    match settle_with_text("p", false, Vec::new(), true, "\t boom \u{3000}") {
        Err(FilterError::NonZeroExit { program, stderr }) => {
            assert_eq!(program, "p");
            assert_eq!(stderr, "boom");
        }
        _ => panic!("expected an unsuccessful exit"),
    }
    match settle_with_text("p", true, vec![7], false, "ignored") {
        Ok(c) => {
            assert_eq!(c.output, vec![7]);
            assert!(c.warning.is_none());
        }
        Err(_) => panic!("expected success"),
    }
}

#[test]
fn trim_removes_unicode_white_space() {
    assert_eq!(trim("  a b \n"), "a b");
    assert_eq!(trim("\u{a0}\u{2003}x\u{85}"), "x");
    assert_eq!(trim(" \t\r\n"), "");
    assert_eq!(trim(""), "");
    assert_eq!(trim("inner  space"), "inner  space");
}

#[test]
fn error_messages() {
    let spawn = FilterError::SpawnFailure {
        program: "nope".to_string(),
        detail: "No such file or directory".to_string(),
    };
    assert_eq!(spawn.message(), "failed to spawn 'nope': No such file or directory");
    let write = FilterError::IoFailure {
        stage: IoStage::WriteInput,
        program: "cat".to_string(),
        detail: "Broken pipe".to_string(),
    };
    assert_eq!(write.message(), "failed to write to stdin: Broken pipe");
    let read = FilterError::IoFailure {
        stage: IoStage::ReadOutput,
        program: "cat".to_string(),
        detail: "bad".to_string(),
    };
    assert_eq!(read.message(), "failed to read stdout: bad");
    let open = FilterError::IoFailure {
        stage: IoStage::OpenInput,
        program: "cat".to_string(),
        detail: String::new(),
    };
    assert_eq!(open.message(), "failed to open stdin");
    let open_out = FilterError::IoFailure {
        stage: IoStage::OpenOutput,
        program: "cat".to_string(),
        detail: String::new(),
    };
    assert_eq!(open_out.message(), "failed to open stdout");
    let wait = FilterError::IoFailure {
        stage: IoStage::Wait,
        program: "cat".to_string(),
        detail: "gone".to_string(),
    };
    assert_eq!(wait.message(), "failed to wait for 'cat': gone");
    let timeout = FilterError::Timeout { program: "sleep".to_string(), timeout_ms: 300_000 };
    assert_eq!(timeout.message(), "'sleep' timed out after 300s");
    assert_eq!(FilterError::ConcurrencyFailure.message(), "write thread panicked");
}

#[test]
fn configuration_keys() {
    assert_eq!(clean_key("lfs"), "filter.lfs.clean");
    assert_eq!(smudge_key("lfs"), "filter.lfs.smudge");
    assert_eq!(filter_attribute("upper"), "filter=upper");
}

#[test]
fn new_filter_keeps_both_templates() {
    let f = ProcessFilter::new("git-lfs clean -- %f", "");
    assert_eq!(f.clean_cmd, "git-lfs clean -- %f");
    assert_eq!(f.smudge_cmd, "");
}

fn timeout_message(ms: u64) -> String {
    FilterError::Timeout { program: "p".to_string(), timeout_ms: ms }.message()
}

#[test]
fn timeout_message_shows_duration_as_debug_output() {
    assert_eq!(timeout_message(300_000), "'p' timed out after 300s");
    assert_eq!(timeout_message(0), "'p' timed out after 0ns");
    assert_eq!(timeout_message(1), "'p' timed out after 1ms");
    assert_eq!(timeout_message(999), "'p' timed out after 999ms");
    assert_eq!(timeout_message(1000), "'p' timed out after 1s");
    assert_eq!(timeout_message(1500), "'p' timed out after 1.5s");
    assert_eq!(timeout_message(1050), "'p' timed out after 1.05s");
    assert_eq!(timeout_message(1001), "'p' timed out after 1.001s");
    assert_eq!(timeout_message(12_340), "'p' timed out after 12.34s");
    for ms in [0u64, 1, 7, 999, 1000, 1001, 1010, 1100, 1234, 60_000, 86_399_999] {
        let expected = format!("'p' timed out after {:?}", std::time::Duration::from_millis(ms));
        assert_eq!(timeout_message(ms), expected);
    }
}
