use runner::CommandDescriptor;
use runner::ConfigError;
use runner::RestartMode;
use runner::parse_i64;
use runner::parse_period;
use runner::str_eq;

#[test]
fn app_config_test_get_name() {
    let mut cfg = CommandDescriptor {
        command: String::from("ls"),
        args: Vec::new(),
        stdout_history: 100,
        mode: RestartMode::KeepAlive,
        name: String::from("ls"),
        backup_strategy: None,
    };
    assert_eq!(CommandDescriptor::get_name(&cfg.command).unwrap(), "ls");

    cfg.command = String::from("test.exe");
    assert_eq!(CommandDescriptor::get_name(&cfg.command).unwrap(), "test");

    cfg.command = String::from("path/test.exe");
    assert_eq!(CommandDescriptor::get_name(&cfg.command).unwrap(), "test");

    cfg.command = String::from("path/test");
    assert_eq!(CommandDescriptor::get_name(&cfg.command).unwrap(), "test");
}

#[test]
fn command_config_test_get_name() {
    assert_eq!(
        CommandDescriptor::get_name(&String::from("ls")).unwrap(),
        String::from("ls")
    );
    assert_eq!(
        CommandDescriptor::get_name(&String::from("test.exe")).unwrap(),
        String::from("test")
    );
    assert_eq!(
        CommandDescriptor::get_name(&String::from("path/test.exe")).unwrap(),
        String::from("test")
    );
    assert_eq!(
        CommandDescriptor::get_name(&String::from("path/test")).unwrap(),
        String::from("test")
    );
}

#[test]
fn test_get_name_rejects_paths_without_stem() {
    assert!(CommandDescriptor::get_name("").is_err());
    assert!(CommandDescriptor::get_name("/").is_err());
    assert!(CommandDescriptor::get_name(".").is_err());
    assert!(CommandDescriptor::get_name("..").is_err());
    assert!(CommandDescriptor::get_name("a/..").is_err());
    match CommandDescriptor::get_name("..") {
        Err(ConfigError::BadCommandConfig(field, ctx)) => {
            assert_eq!(field, "command");
            assert_eq!(ctx, "..");
        }
        _ => panic!("a parent-directory path must be rejected"),
    }
}

#[test]
fn test_get_name_ignores_trailing_separators() {
    assert_eq!(CommandDescriptor::get_name("path/").unwrap(), "path");
    assert_eq!(CommandDescriptor::get_name("a/b.exe//").unwrap(), "b");
    assert_eq!(CommandDescriptor::get_name(".bashrc").unwrap(), ".bashrc");
    assert_eq!(CommandDescriptor::get_name("dir/.profile").unwrap(), ".profile");
}

#[test]
fn test_parse_period_round_trip() {
    assert_eq!(parse_period("125w").unwrap(), 125 * 7 * 24 * 60 * 60);
    assert_eq!(parse_period("1m").unwrap(), 60);
    assert!(parse_period("5x").is_err());
}

#[test]
fn test_parse_period_units() {
    assert_eq!(parse_period("30s").unwrap(), 30);
    assert_eq!(parse_period("2h").unwrap(), 7200);
    assert_eq!(parse_period("3d").unwrap(), 3 * 86400);
    assert_eq!(parse_period("-5s").unwrap(), -5);
}

#[test]
fn test_parse_period_errors() {
    match parse_period("5x") {
        Err(ConfigError::BadCommandConfig(field, ctx)) => {
            assert_eq!(field, "backup strategy duration");
            assert_eq!(ctx, "5x");
        }
        _ => panic!("an unknown unit suffix must be rejected"),
    }
    match parse_period("xs") {
        Err(ConfigError::BadCommandConfig(field, ctx)) => {
            assert_eq!(field, "backup strategy period");
            assert_eq!(ctx, "xs");
        }
        _ => panic!("a non-numeric count must be rejected"),
    }
    assert!(parse_period("").is_err());
    assert!(parse_period("s").is_err());
    assert!(parse_period("125").is_err());
    // 9223372036854775807 weeks of seconds does not fit an i64
    assert!(parse_period("9223372036854775807w").is_err());
}

#[test]
fn test_backup_strategy_values() {
    let strategy = runner::BackupStrategy {
        times: 13,
        period_secs: parse_period("125w").unwrap(),
        script: Some(String::from("cleanup.sh")),
        safe_mode: Some(vec![String::from("safe"), String::from("mode")]),
    };
    assert_eq!(strategy.times, 13u64);
    assert_eq!(strategy.period_secs, 125 * 7 * 24 * 60 * 60);
    assert_eq!(strategy.script, Some(String::from("cleanup.sh")));
    assert_eq!(
        strategy.safe_mode,
        Some(vec![String::from("safe"), String::from("mode")])
    );
    assert!(strategy.has_remedy());

    let bare = runner::BackupStrategy {
        times: 5,
        period_secs: parse_period("1m").unwrap(),
        script: None,
        safe_mode: None,
    };
    assert_eq!(bare.period_secs, 60);
    assert!(!bare.has_remedy());
}

#[test]
fn test_mode_names() {
    assert_eq!(RestartMode::from_name("run once"), Some(RestartMode::RunOnce));
    assert_eq!(
        RestartMode::from_name("run once and wait"),
        Some(RestartMode::RunOnceAndWait)
    );
    assert_eq!(
        RestartMode::from_name("run until success"),
        Some(RestartMode::RunUntilSuccess)
    );
    assert_eq!(
        RestartMode::from_name("run until success and wait"),
        Some(RestartMode::RunUntilSuccessAndWait)
    );
    assert_eq!(RestartMode::from_name("keep alive"), Some(RestartMode::KeepAlive));
    assert_eq!(RestartMode::from_name("sometimes"), None);
    assert_eq!(RestartMode::from_name(""), None);
}

#[test]
fn test_parse_i64_values() {
    assert_eq!(parse_i64("123"), Some(123));
    assert_eq!(parse_i64("-5"), Some(-5));
    assert_eq!(parse_i64("+7"), Some(7));
    assert_eq!(parse_i64("0"), Some(0));
    assert_eq!(parse_i64("9223372036854775807"), Some(i64::MAX));
    assert_eq!(parse_i64("-9223372036854775808"), Some(i64::MIN));
    assert_eq!(parse_i64("9223372036854775808"), None);
    assert_eq!(parse_i64(""), None);
    assert_eq!(parse_i64("-"), None);
    assert_eq!(parse_i64("12a"), None);
    assert_eq!(parse_i64("1.5"), None);
}

#[test]
fn test_str_eq() {
    assert!(str_eq("abc", "abc"));
    assert!(!str_eq("abc", "abd"));
    assert!(!str_eq("abc", "ab"));
    assert!(str_eq("", ""));
}

#[test]
fn test_duplicate_preserves_fields() {
    let d = CommandDescriptor {
        command: String::from("/bin/echo"),
        args: vec![String::from("-n"), String::from("hi")],
        stdout_history: 42,
        mode: RestartMode::RunUntilSuccess,
        name: String::from("echo"),
        backup_strategy: Some(runner::BackupStrategy {
            times: 1,
            period_secs: 60,
            script: Some(String::from("fix.sh")),
            safe_mode: None,
        }),
    };
    let c = d.duplicate();
    assert_eq!(c.command, d.command);
    assert_eq!(c.args, d.args);
    assert_eq!(c.stdout_history, d.stdout_history);
    assert_eq!(c.name, d.name);
    let st = c.backup_strategy.unwrap();
    assert_eq!(st.times, 1);
    assert_eq!(st.period_secs, 60);
    assert_eq!(st.script, Some(String::from("fix.sh")));
    assert_eq!(st.safe_mode, None);
}
