use wp_epub_cli::args::{parse_args, Operation, UsageError};
use wp_epub_cli::dispatch::{
    context_label, error_line, fetch_success_message, login_success_message,
    logout_success_message, plan_action, resolve_output_dir, start_message, title_or_sentinel,
    usage_message, Action,
};
use wp_epub_cli::numbers::{decimal, parse_u32, parse_u64};
use wp_epub_cli::session::{default_session_config, Session};

fn argv(args: &[&str]) -> Vec<String> {
    args.iter().map(|a| a.to_string()).collect()
}

#[test]
fn fetch_with_all_flags() {
    let r = parse_args(&argv(&["do", "--id", "42", "--img", "-s", "5"]));
    match r {
        Ok(Operation::Fetch(f)) => {
            assert_eq!(f.id, 42);
            assert!(f.include_images);
            assert_eq!(f.output_dir, None);
            assert_eq!(f.concurrency, 5);
        }
        _ => panic!("expected a fetch operation"),
    }
}

#[test]
fn fetch_example_call_parameters() {
    let r = parse_args(&argv(&["do", "--id", "42", "--img", "-s", "5"])).unwrap();
    let a = plan_action(r, "/tmp/out".to_string());
    match a {
        Action::FetchStory { id, include_images, concurrency, output_dir, request_title } => {
            assert_eq!(id, 42);
            assert!(include_images);
            assert_eq!(concurrency, 5);
            assert_eq!(output_dir, "/tmp/out");
            assert!(request_title);
        }
        _ => panic!("expected a fetch action"),
    }
}

#[test]
fn fetch_defaults() {
    let r = parse_args(&argv(&["do", "--id", "7"])).unwrap();
    match r {
        Operation::Fetch(f) => {
            assert_eq!(f.id, 7);
            assert!(!f.include_images);
            assert_eq!(f.output_dir, None);
            assert_eq!(f.concurrency, 20);
        }
        _ => panic!("expected a fetch operation"),
    }
}

#[test]
fn fetch_omitted_output_resolves_to_cwd() {
    let r = parse_args(&argv(&["do", "--id", "7"])).unwrap();
    let a = plan_action(r, "/work".to_string());
    match a {
        Action::FetchStory { output_dir, .. } => assert_eq!(output_dir, "/work"),
        _ => panic!("expected a fetch action"),
    }
}

#[test]
fn fetch_explicit_output_wins() {
    let r = parse_args(&argv(&["do", "--id", "7", "-o", "/books"])).unwrap();
    let a = plan_action(r, "/work".to_string());
    match a {
        Action::FetchStory { output_dir, .. } => assert_eq!(output_dir, "/books"),
        _ => panic!("expected a fetch action"),
    }
}

#[test]
fn fetch_short_flags() {
    let r = parse_args(&argv(&["do", "-d", "9", "-i", "-o", "/x", "-s", "3"])).unwrap();
    match r {
        Operation::Fetch(f) => {
            assert_eq!(f.id, 9);
            assert!(f.include_images);
            assert_eq!(f.output_dir, Some("/x".to_string()));
            assert_eq!(f.concurrency, 3);
        }
        _ => panic!("expected a fetch operation"),
    }
}

#[test]
fn login_parses_credentials() {
    let r = parse_args(&argv(&["login", "-u", "alice", "-p", "secret"])).unwrap();
    match r {
        Operation::Login(l) => {
            assert_eq!(l.username, "alice");
            assert_eq!(l.password, "secret");
        }
        _ => panic!("expected a login operation"),
    }
}

#[test]
fn login_long_flags() {
    let r = parse_args(&argv(&["login", "--username", "bob", "--password", "pw"])).unwrap();
    match r {
        Operation::Login(l) => {
            assert_eq!(l.username, "bob");
            assert_eq!(l.password, "pw");
        }
        _ => panic!("expected a login operation"),
    }
}

#[test]
fn logout_parses() {
    let r = parse_args(&argv(&["logout"])).unwrap();
    assert!(matches!(r, Operation::Logout));
}

#[test]
fn no_subcommand_is_usage_error() {
    let r = parse_args(&argv(&[]));
    assert_eq!(r.unwrap_err(), UsageError::MissingCommand);
}

#[test]
fn unknown_subcommand_is_usage_error() {
    let r = parse_args(&argv(&["upload", "--id", "1"]));
    assert_eq!(r.unwrap_err(), UsageError::UnknownCommand);
}

#[test]
fn unknown_flag_is_usage_error() {
    let r = parse_args(&argv(&["do", "--id", "1", "--bogus"]));
    assert_eq!(r.unwrap_err(), UsageError::UnknownFlag);
}

#[test]
fn flag_without_value_is_usage_error() {
    let r = parse_args(&argv(&["do", "--id"]));
    assert_eq!(r.unwrap_err(), UsageError::MissingValue);
}

#[test]
fn duplicate_flag_is_usage_error() {
    let r = parse_args(&argv(&["do", "--id", "1", "-d", "2"]));
    assert_eq!(r.unwrap_err(), UsageError::DuplicateFlag);
}

#[test]
fn missing_story_id_is_usage_error() {
    let r = parse_args(&argv(&["do", "--img"]));
    assert_eq!(r.unwrap_err(), UsageError::MissingStoryId);
}

#[test]
fn missing_username_is_usage_error() {
    let r = parse_args(&argv(&["login", "-p", "pw"]));
    assert_eq!(r.unwrap_err(), UsageError::MissingUsername);
}

#[test]
fn missing_password_is_usage_error() {
    let r = parse_args(&argv(&["login", "-u", "alice"]));
    assert_eq!(r.unwrap_err(), UsageError::MissingPassword);
}

#[test]
fn empty_username_is_rejected_before_any_network_call() {
    let r = parse_args(&argv(&["login", "-u", "", "-p", "pw"]));
    assert_eq!(r.unwrap_err(), UsageError::EmptyUsername);
}

#[test]
fn empty_password_is_rejected_before_any_network_call() {
    let r = parse_args(&argv(&["login", "-u", "alice", "-p", ""]));
    assert_eq!(r.unwrap_err(), UsageError::EmptyPassword);
}

#[test]
fn malformed_story_id_is_usage_error() {
    let r = parse_args(&argv(&["do", "--id", "12x"]));
    assert_eq!(r.unwrap_err(), UsageError::InvalidNumber);
}

#[test]
fn story_id_above_range_is_usage_error() {
    let r = parse_args(&argv(&["do", "--id", "18446744073709551616"]));
    assert_eq!(r.unwrap_err(), UsageError::InvalidNumber);
}

#[test]
fn story_id_at_range_limit_parses() {
    let r = parse_args(&argv(&["do", "--id", "18446744073709551615"])).unwrap();
    match r {
        Operation::Fetch(f) => assert_eq!(f.id, u64::MAX),
        _ => panic!("expected a fetch operation"),
    }
}

#[test]
fn zero_concurrency_is_usage_error() {
    let r = parse_args(&argv(&["do", "--id", "1", "-s", "0"]));
    assert_eq!(r.unwrap_err(), UsageError::ZeroConcurrency);
}

#[test]
fn concurrency_above_range_is_usage_error() {
    let r = parse_args(&argv(&["do", "--id", "1", "-s", "4294967296"]));
    assert_eq!(r.unwrap_err(), UsageError::InvalidNumber);
}

#[test]
fn logout_takes_no_arguments() {
    let r = parse_args(&argv(&["logout", "now"]));
    assert_eq!(r.unwrap_err(), UsageError::UnexpectedArgument);
}

#[test]
fn exactly_one_action_per_invocation() {
    let fetch = parse_args(&argv(&["do", "--id", "1"])).unwrap();
    let login = parse_args(&argv(&["login", "-u", "a", "-p", "b"])).unwrap();
    let logout = parse_args(&argv(&["logout"])).unwrap();
    assert!(matches!(plan_action(fetch, "/w".into()), Action::FetchStory { .. }));
    assert!(matches!(plan_action(login, "/w".into()), Action::Login { .. }));
    assert!(matches!(plan_action(logout, "/w".into()), Action::Logout));
}

#[test]
fn missing_title_reports_sentinel() {
    assert_eq!(title_or_sentinel(None), "Unknown Title");
}

#[test]
fn present_title_is_kept() {
    assert_eq!(title_or_sentinel(Some("My Story".to_string())), "My Story");
}

#[test]
fn fetch_success_line_names_title() {
    assert_eq!(
        fetch_success_message(Some("My Story".to_string())),
        "Story processing completed successfully, title=My Story"
    );
    assert_eq!(
        fetch_success_message(None),
        "Story processing completed successfully, title=Unknown Title"
    );
}

#[test]
fn login_start_line_names_the_user() {
    let op = parse_args(&argv(&["login", "-u", "alice", "-p", "secret"])).unwrap();
    let line = start_message(&op);
    assert!(line.contains("alice"));
    assert_eq!(line, "Handling 'login' command, username=alice");
    assert_eq!(login_success_message(), "Login successful!");
}

#[test]
fn fetch_start_line_names_the_id() {
    let op = parse_args(&argv(&["do", "--id", "42"])).unwrap();
    assert_eq!(start_message(&op), "Handling 'do' command, id=42");
}

#[test]
fn logout_lines() {
    let op = parse_args(&argv(&["logout"])).unwrap();
    assert_eq!(start_message(&op), "Handling 'logout' command");
    assert_eq!(logout_success_message(), "Logout successful!");
}

#[test]
fn context_labels_distinguish_operations() {
    let fetch = parse_args(&argv(&["do", "--id", "1"])).unwrap();
    let login = parse_args(&argv(&["login", "-u", "a", "-p", "b"])).unwrap();
    let logout = parse_args(&argv(&["logout"])).unwrap();
    assert_eq!(context_label(&fetch), "Failed to process story");
    assert_eq!(context_label(&login), "Failed to login");
    assert_eq!(context_label(&logout), "Failed to logout");
}

#[test]
fn error_line_wraps_cause_once() {
    assert_eq!(
        error_line("Failed to login", "wrong password"),
        "Failed to login: wrong password"
    );
}

#[test]
fn usage_messages_name_the_fault() {
    assert_eq!(
        usage_message(&UsageError::MissingCommand),
        "usage error: a subcommand is required (do, login, logout)"
    );
    assert_eq!(
        usage_message(&UsageError::ZeroConcurrency),
        "usage error: the concurrency limit must be positive"
    );
}

#[test]
fn resolve_output_dir_prefers_explicit() {
    assert_eq!(
        resolve_output_dir(Some("/books".to_string()), "/cwd".to_string()),
        "/books"
    );
    assert_eq!(resolve_output_dir(None, "/cwd".to_string()), "/cwd");
}

#[test]
fn decimal_renders_and_parses_back() {
    assert_eq!(decimal(0), "0");
    assert_eq!(decimal(42), "42");
    assert_eq!(decimal(u64::MAX), "18446744073709551615");
    assert_eq!(parse_u64(&decimal(907)), Some(907));
}

#[test]
fn parse_u64_accepts_digits_only() {
    assert_eq!(parse_u64("0"), Some(0));
    assert_eq!(parse_u64("042"), Some(42));
    assert_eq!(parse_u64(""), None);
    assert_eq!(parse_u64("-1"), None);
    assert_eq!(parse_u64("1 2"), None);
    assert_eq!(parse_u64("18446744073709551615"), Some(u64::MAX));
    assert_eq!(parse_u64("18446744073709551616"), None);
    assert_eq!(parse_u64("99999999999999999999999"), None);
}

#[test]
fn parse_u32_bounds() {
    assert_eq!(parse_u32("4294967295"), Some(u32::MAX));
    assert_eq!(parse_u32("4294967296"), None);
    assert_eq!(parse_u32("20"), Some(20));
}

#[test]
fn session_builds_from_default_config() {
    let cfg = default_session_config();
    assert!(cfg.cookie_store);
    assert_eq!(cfg.timeout_ms, None);
    assert!(cfg.user_agent.starts_with("Mozilla/5.0"));
    let s = Session::new(cfg);
    assert!(s.is_ok());
}

#[test]
fn session_config_is_kept() {
    let mut cfg = default_session_config();
    cfg.timeout_ms = Some(30_000);
    let s = Session::new(cfg).unwrap();
    assert_eq!(s.config.timeout_ms, Some(30_000));
    assert!(s.config.cookie_store);
}
