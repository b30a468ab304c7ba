use runner::AttemptOutcome;
use runner::CrashLedger;
use runner::Event;
use runner::BackupStrategy;
use runner::CommandDescriptor;
use runner::OutputBuffer;
use runner::Phase;
use runner::RestartMode;
use runner::Severity;
use runner::Supervision;
use runner::TuiEvent;
use runner::TuiState;
use runner::parse_period;
use runner::tab_titles;

fn descriptor(mode: RestartMode, strategy: Option<BackupStrategy>) -> CommandDescriptor {
    CommandDescriptor {
        command: String::from("/bin/false"),
        args: Vec::new(),
        stdout_history: 1000,
        mode,
        name: String::from("false"),
        backup_strategy: strategy,
    }
}

#[test]
fn test_run_once_single_attempt() {
    let mut sup = Supervision::new(descriptor(RestartMode::RunOnce, None), 0);
    assert!(matches!(sup.phase(), Phase::Primary));
    let launch = sup.next_launch().expect("the first attempt must be launched");
    assert_eq!(launch.command, "/bin/false");
    assert!(sup.record_outcome(AttemptOutcome::Failure, 0).is_none());
    assert!(matches!(sup.phase(), Phase::Done));
    assert!(sup.next_launch().is_none());
}

#[test]
fn test_scenario_run_once_success() {
    // a RunOnce command exiting 0: one started/ended pair, no crash dump
    let d = descriptor(RestartMode::RunOnce, None);
    let mut state = TuiState::build(vec![String::from("false")]);
    let mut buffer = OutputBuffer::with_capacity(d.stdout_history);
    let mut sup = Supervision::new(d, 0);

    assert!(sup.next_launch().is_some());
    state.apply_event(TuiEvent::CommandStarted(0));
    // the command printed nothing and exited 0
    state.apply_event(TuiEvent::CommandEnded(0));
    assert!(sup.record_outcome(AttemptOutcome::Success, 5).is_none());

    assert!(sup.next_launch().is_none());
    assert!(buffer.render_crash_dump().is_none());
    assert_eq!(buffer.len(), 0);

    let tab = &state.tabs[0];
    let messages: Vec<(Severity, String)> = tab.content.iter().cloned().collect();
    assert_eq!(
        messages,
        vec![
            (Severity::System, String::from("Command Started")),
            (Severity::System, String::from("Command ended")),
        ]
    );
}

#[test]
fn test_keep_alive_relaunches_after_success() {
    let mut sup = Supervision::new(descriptor(RestartMode::KeepAlive, None), 3);
    for t in 0..5 {
        assert!(sup.next_launch().is_some(), "a KeepAlive command is always relaunched");
        assert!(sup.record_outcome(AttemptOutcome::Success, t).is_none());
        assert!(matches!(sup.phase(), Phase::Primary));
    }
    // failures without a strategy relaunch it too
    for t in 5..10 {
        assert!(sup.next_launch().is_some());
        assert!(sup.record_outcome(AttemptOutcome::Failure, t).is_none());
        assert!(matches!(sup.phase(), Phase::Primary));
    }
}

#[test]
fn test_until_success_stops_on_first_success() {
    let mut sup = Supervision::new(descriptor(RestartMode::RunUntilSuccess, None), 0);
    for t in 0..3 {
        assert!(sup.next_launch().is_some());
        assert!(sup.record_outcome(AttemptOutcome::Failure, t).is_none());
        assert!(matches!(sup.phase(), Phase::Primary));
    }
    assert!(sup.next_launch().is_some());
    assert!(sup.record_outcome(AttemptOutcome::Success, 3).is_none());
    assert!(matches!(sup.phase(), Phase::Done));
    assert!(sup.next_launch().is_none());
    assert!(sup.next_launch().is_none());
}

#[test]
fn test_scenario_gives_up_on_third_crash() {
    // {command: /bin/false, mode: RunUntilSuccess,
    //  backup_strategy: {times: 2, period: "1m"}}: the threshold first
    // trips on the third failure inside the minute, and with no remedy
    // the command is abandoned
    let strategy = BackupStrategy {
        times: 2,
        period_secs: parse_period("1m").unwrap(),
        script: None,
        safe_mode: None,
    };
    let mut sup = Supervision::new(descriptor(RestartMode::RunUntilSuccess, Some(strategy)), 7);

    assert!(sup.next_launch().is_some());
    assert!(sup.record_outcome(AttemptOutcome::Failure, 0).is_none());
    assert!(matches!(sup.phase(), Phase::Primary), "not after the first failure");

    assert!(sup.next_launch().is_some());
    assert!(sup.record_outcome(AttemptOutcome::Failure, 10).is_none());
    assert!(matches!(sup.phase(), Phase::Primary), "not after the second failure");

    assert!(sup.next_launch().is_some());
    let notice = sup.record_outcome(AttemptOutcome::Failure, 20);
    match notice {
        Some(TuiEvent::System(id, text)) => {
            assert_eq!(id, 7);
            assert_eq!(text, "Crash limit reached with no handling strategy, giving up!");
        }
        _ => panic!("the third failure inside the window must give up"),
    }
    assert!(matches!(sup.phase(), Phase::GivenUp));

    // escalation idempotence: nothing is ever launched again
    assert!(sup.next_launch().is_none());
    assert!(sup.next_launch().is_none());
}

#[test]
fn test_crashes_outside_window_do_not_count() {
    let strategy = BackupStrategy {
        times: 2,
        period_secs: 60,
        script: None,
        safe_mode: None,
    };
    let mut sup = Supervision::new(descriptor(RestartMode::KeepAlive, Some(strategy)), 0);
    // failures spaced beyond the window never accumulate past the threshold
    for k in 0..6 {
        assert!(sup.next_launch().is_some());
        assert!(sup.record_outcome(AttemptOutcome::Failure, k * 100).is_none());
        assert!(matches!(sup.phase(), Phase::Primary));
    }
}

#[test]
fn test_escalation_runs_script_then_safe_mode() {
    let strategy = BackupStrategy {
        times: 0,
        period_secs: 3600,
        script: Some(String::from("cleanup.sh")),
        safe_mode: Some(vec![String::from("--safe")]),
    };
    let mut sup = Supervision::new(descriptor(RestartMode::RunUntilSuccess, Some(strategy)), 1);

    let first = sup.next_launch().unwrap();
    assert_eq!(first.command, "/bin/false");

    // one failure already exceeds a threshold of zero
    assert!(sup.record_outcome(AttemptOutcome::Failure, 0).is_none());
    assert!(matches!(sup.phase(), Phase::Script));

    let script = sup.next_launch().unwrap();
    assert_eq!(script.command, "cleanup.sh");
    assert_eq!(script.name, "cleanup.sh");
    assert!(script.args.is_empty());
    assert!(matches!(script.mode, RestartMode::RunOnceAndWait));
    assert!(script.backup_strategy.is_none());
    assert_eq!(script.stdout_history, 1000);

    // the script's own outcome is not judged; the safe-mode relaunch follows
    assert!(sup.record_outcome(AttemptOutcome::Failure, 1).is_none());
    assert!(matches!(sup.phase(), Phase::SafeMode));

    let safe = sup.next_launch().unwrap();
    assert_eq!(safe.command, "/bin/false");
    assert_eq!(safe.args, vec![String::from("--safe")]);
    assert_eq!(safe.name, "false");
    assert!(matches!(safe.mode, RestartMode::RunOnceAndWait));
    assert!(safe.backup_strategy.is_none());

    // then the normal restart loop resumes
    assert!(sup.record_outcome(AttemptOutcome::Success, 2).is_none());
    assert!(matches!(sup.phase(), Phase::Primary));
    assert_eq!(sup.next_launch().unwrap().command, "/bin/false");
}

#[test]
fn test_escalation_script_only_resumes_primary() {
    let strategy = BackupStrategy {
        times: 0,
        period_secs: 3600,
        script: Some(String::from("cleanup.sh")),
        safe_mode: None,
    };
    let mut sup = Supervision::new(descriptor(RestartMode::KeepAlive, Some(strategy)), 0);
    assert!(sup.next_launch().is_some());
    assert!(sup.record_outcome(AttemptOutcome::Failure, 0).is_none());
    assert!(matches!(sup.phase(), Phase::Script));
    assert!(sup.record_outcome(AttemptOutcome::Success, 1).is_none());
    assert!(matches!(sup.phase(), Phase::Primary));
}

#[test]
fn test_crash_ledger_window_boundary() {
    let mut ledger = CrashLedger::new();
    ledger.record(0);
    ledger.record(30);
    ledger.record(60);
    // the window is strict: a crash exactly at now - period does not count
    assert_eq!(ledger.count_recent(60, 60), 2);
    assert_eq!(ledger.count_recent(60, 61), 3);
    assert_eq!(ledger.count_recent(90, 30), 0);
    assert_eq!(ledger.count_recent(90, 31), 1);
    assert_eq!(ledger.count_recent(200, 30), 0);
}

#[test]
fn test_event_wrapper() {
    let tick: Event<char> = Event::Tick;
    assert!(matches!(tick, Event::Tick));
    let input = Event::Input('x');
    match input {
        Event::Input(c) => assert_eq!(c, 'x'),
        Event::Tick => panic!("an input event must stay an input event"),
    }
}

#[test]
fn test_blocks_launcher() {
    assert!(!RestartMode::RunOnce.blocks_launcher());
    assert!(RestartMode::RunOnceAndWait.blocks_launcher());
    assert!(!RestartMode::RunUntilSuccess.blocks_launcher());
    assert!(RestartMode::RunUntilSuccessAndWait.blocks_launcher());
    assert!(!RestartMode::KeepAlive.blocks_launcher());
}

#[test]
fn test_tab_titles_in_order() {
    let commands = vec![
        CommandDescriptor {
            command: String::from("/bin/a"),
            args: Vec::new(),
            stdout_history: 10,
            mode: RestartMode::RunOnce,
            name: String::from("a"),
            backup_strategy: None,
        },
        CommandDescriptor {
            command: String::from("/bin/b"),
            args: Vec::new(),
            stdout_history: 10,
            mode: RestartMode::KeepAlive,
            name: String::from("b"),
            backup_strategy: None,
        },
    ];
    let titles = tab_titles(&commands);
    assert_eq!(titles, vec![String::from("a"), String::from("b")]);
}
