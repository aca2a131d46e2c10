use dispatchrr::service::{DeclaredInput, GitHubService, LookupStep};
use dispatchrr::text::{decimal_string, join, split_once_char};

#[test]
fn workflow_file_text_decodes_wrapped_base64() {
    let t = GitHubService::workflow_file_text("aGVs\nbG8g\r\nd29y\nbGQ=\n").unwrap();
    assert_eq!(t, "hello world");
    assert!(GitHubService::workflow_file_text("***").is_err());
}

#[test]
fn declared_input_becomes_field_and_line() {
    let d = DeclaredInput {
        name: Some("env".to_string()),
        description: Some("Target".to_string()),
        required: Some(true),
        default: Some("dev".to_string()),
        input_type: Some("choice".to_string()),
        options: vec!["dev".to_string(), "prod".to_string()],
    };
    let (line, f) = GitHubService::input_field(&d);
    assert_eq!(line, "env: Target [type: choice] [required: true] [default: dev] [options: dev, prod]");
    assert_eq!(f.value, "dev");
    assert_eq!(f.input_type, "choice");
    assert!(f.required);
}

#[test]
fn declared_input_defaults() {
    let d = DeclaredInput { name: None, description: None, required: None, default: None, input_type: None, options: vec![] };
    let (lines, fields) = GitHubService::input_fields(&vec![d]);
    assert_eq!(lines, vec!["unknown: [type: string] [required: false]".to_string()]);
    assert_eq!(fields[0].name, "unknown");
    assert_eq!(fields[0].value, "");
}

#[test]
fn lookup_policy_retries_five_times() {
    assert_eq!(GitHubService::lookup_step(0, None), LookupStep::Query { wait: false });
    assert_eq!(GitHubService::lookup_step(1, None), LookupStep::Query { wait: true });
    assert_eq!(GitHubService::lookup_step(4, None), LookupStep::Query { wait: true });
    assert_eq!(GitHubService::lookup_step(5, None), LookupStep::GiveUp);
    assert_eq!(GitHubService::lookup_step(2, Some(7)), LookupStep::Found(7));
}

#[test]
fn log_tail_keeps_last_two_hundred_lines() {
    let log: String = (0..250).map(|i| format!("line {}\r\n", i)).collect();
    let tail = GitHubService::tail_lines(&log);
    let lines: Vec<&str> = tail.split('\n').collect();
    assert_eq!(lines.len(), 200);
    assert_eq!(lines[0], "line 50");
    assert_eq!(lines[199], "line 249");
    assert_eq!(GitHubService::tail_lines("a\nb"), "a\nb");
    assert_eq!(GitHubService::tail_lines(""), "");
}

#[test]
fn run_report_defaults() {
    let svc = GitHubService::new();
    let r = svc.get_latest_run_logs(9, None, Err("not ready".to_string()));
    assert_eq!(r, (9, "unknown".to_string(), "pending".to_string(), "(logs not yet available: not ready)".to_string()));
    let r2 = svc.get_latest_run_logs(3, Some((Some("done".to_string()), None)), Ok("x\ny\n".to_string()));
    assert_eq!(r2, (3, "done".to_string(), "pending".to_string(), "x\ny".to_string()));
}

#[test]
fn api_paths_and_errors() {
    assert_eq!(
        GitHubService::contents_path("a/b", "ci.yml", Some("dev")),
        "repos/a/b/contents/.github/workflows/ci.yml?ref=dev"
    );
    assert_eq!(GitHubService::contents_path("a/b", "ci.yml", None), "repos/a/b/contents/.github/workflows/ci.yml");
    let msgs = vec!["bad".to_string(), "worse".to_string()];
    assert_eq!(GitHubService::graphql_error(Some(&msgs)), "GitHub API error: bad; worse");
    assert_eq!(GitHubService::graphql_error(None), "GitHub API error: Repository not found");
}

#[test]
fn text_helpers() {
    assert_eq!(decimal_string(0), "0");
    assert_eq!(decimal_string(1234567), "1234567");
    assert_eq!(join(&vec![], ", "), "");
    assert_eq!(split_once_char("a/b/c", '/'), Some(("a".to_string(), "b/c".to_string())));
    assert_eq!(split_once_char("abc", '/'), None);
}
