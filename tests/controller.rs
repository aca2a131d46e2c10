use dispatchrr::actions::Action;
use dispatchrr::app::{AppState, Focus, Modal};
use dispatchrr::config::{Config, ReplayConfig, ReplayInput, RepoConfig};
use dispatchrr::dispatch::{capture_replay, dispatch_args, preview};
use dispatchrr::domain::{InputField, Repo, Workflow};
use dispatchrr::event::{KeyCode, KeyPress};

fn key(code: KeyCode) -> KeyPress {
    KeyPress { code, ctrl: false }
}

fn ch(c: char) -> KeyPress {
    key(KeyCode::Char(c))
}

fn text_field(name: &str, value: &str) -> InputField {
    InputField {
        name: name.to_string(),
        description: String::new(),
        input_type: "string".to_string(),
        required: false,
        default_value: String::new(),
        options: vec![],
        value: value.to_string(),
    }
}

fn workflow(name: &str) -> Workflow {
    Workflow { id: "wf-0".to_string(), name: name.to_string(), inputs: vec![] }
}

/// A state with one repository, branch and workflow selected.
fn selected_state(repo: &str, branch: &str, wf: &str, fields: Vec<InputField>) -> AppState {
    let mut config = Config::default();
    config.repos.push(RepoConfig { name: repo.to_string(), replays: vec![] });
    let mut s = AppState::new(config);
    s.data.branches = vec![branch.to_string()];
    s.ui.filtered_branch_indices = vec![0];
    s.ui.branches_sel = Some(0);
    s.data.workflows = vec![workflow(wf)];
    s.ui.filtered_workflow_indices = vec![0];
    s.ui.workflows_sel = Some(0);
    s.data.input_fields = fields;
    s
}

#[test]
fn save_replay_captures_non_empty_values() {
    let fields = vec![text_field("env", ""), text_field("version", "1.2")];
    let r = capture_replay("deploy.yml", &fields).unwrap();
    assert_eq!(r.inputs.len(), 1);
    assert_eq!(r.inputs[0].name, "version");
    assert_eq!(r.inputs[0].value, "1.2");
    assert_eq!(r.description, "version=1.2");
    assert_eq!(r.workflow, "deploy.yml");
}

#[test]
fn save_replay_refused_when_all_values_empty() {
    let fields = vec![text_field("env", ""), text_field("version", "")];
    assert!(capture_replay("deploy.yml", &fields).is_none());
    let mut s = selected_state("acme/api", "main", "deploy.yml", fields);
    let r = s.save_replay();
    assert!(r.is_err());
    assert!(s.config.repos[0].replays.is_empty());
}

#[test]
fn save_replay_stores_preset_for_repo() {
    let fields = vec![text_field("env", "prod"), text_field("version", "1.2")];
    let mut s = selected_state("acme/api", "main", "deploy.yml", fields);
    assert!(s.save_replay().is_ok());
    let replays = &s.config.repos[0].replays;
    assert_eq!(replays.len(), 1);
    assert_eq!(replays[0].description, "env=prod, version=1.2");
    assert_eq!(replays[0].workflow, "deploy.yml");
}

#[test]
fn dispatch_preview_matches_dispatch_call() {
    let fields = vec![text_field("tag", "v1")];
    let s = selected_state("acme/api", "release", "deploy.yml", fields);
    let (args, shown) = s.build_dispatch_command().unwrap();
    assert_eq!(shown, "gh workflow run deploy.yml --repo acme/api --ref release -f tag=v1");
    let run_args = dispatch_args("acme/api", "release", "deploy.yml", &s.data.input_fields);
    assert_eq!(args, run_args);
    assert_eq!(preview(&run_args), shown);
}

#[test]
fn confirmed_command_is_dispatched() {
    let fields = vec![text_field("tag", "v1")];
    let mut s = selected_state("acme/api", "release", "deploy.yml", fields);
    s.ui.modal = Modal::Inputs { selected: 0, editing: false };
    s.handle_key(ch('D'));
    let (confirmed, shown) = match &s.ui.modal {
        Modal::ConfirmDispatch { args, preview } => (args.clone(), preview.clone()),
        _ => panic!("confirmation expected"),
    };
    assert_eq!(shown, "gh workflow run deploy.yml --repo acme/api --ref release -f tag=v1");
    match s.handle_key(ch('y')) {
        Action::Dispatch { args } => assert_eq!(args, confirmed),
        _ => panic!("dispatch expected"),
    }
    assert!(matches!(s.ui.modal, Modal::PostDispatchPrompt));
}

#[test]
fn dispatch_refused_without_branch() {
    let mut s = selected_state("acme/api", "release", "deploy.yml", vec![]);
    s.ui.branches_sel = None;
    let e = s.build_dispatch_command().unwrap_err();
    assert_eq!(e, "No branch selected.");
}

#[test]
fn cancel_confirmation_closes_without_dispatch() {
    let mut s = selected_state("acme/api", "release", "deploy.yml", vec![]);
    s.ui.modal = Modal::ConfirmDispatch { args: vec!["x".to_string()], preview: "gh x".to_string() };
    assert!(matches!(s.handle_key(ch('n')), Action::Nothing));
    assert!(matches!(s.ui.modal, Modal::Closed));
}

#[test]
fn boolean_toggles_through_key_events() {
    let mut f = text_field("debug", "false");
    f.input_type = "boolean".to_string();
    let mut s = selected_state("acme/api", "main", "ci.yml", vec![f]);
    s.ui.modal = Modal::Inputs { selected: 0, editing: false };
    s.handle_key(key(KeyCode::Enter));
    s.handle_key(ch('a'));
    assert_eq!(s.data.input_fields[0].value, "true");
    s.handle_key(ch('b'));
    assert_eq!(s.data.input_fields[0].value, "false");
}

#[test]
fn choice_cycles_through_key_events() {
    let mut f = text_field("env", "staging");
    f.input_type = "choice".to_string();
    f.options = vec!["dev".to_string(), "staging".to_string(), "prod".to_string()];
    let mut s = selected_state("acme/api", "main", "ci.yml", vec![f]);
    s.ui.modal = Modal::Inputs { selected: 0, editing: false };
    s.handle_key(key(KeyCode::Tab));
    assert_eq!(s.data.input_fields[0].value, "prod");
    s.handle_key(key(KeyCode::Tab));
    assert_eq!(s.data.input_fields[0].value, "dev");
}

#[test]
fn inputs_modal_escape_ends_editing_then_closes() {
    let mut s = selected_state("acme/api", "main", "ci.yml", vec![text_field("tag", "")]);
    s.ui.modal = Modal::Inputs { selected: 0, editing: true };
    s.handle_key(key(KeyCode::Esc));
    assert!(matches!(s.ui.modal, Modal::Inputs { selected: 0, editing: false }));
    s.handle_key(key(KeyCode::Esc));
    assert!(matches!(s.ui.modal, Modal::Closed));
}

#[test]
fn inputs_modal_field_selection_wraps() {
    let fields = vec![text_field("a", ""), text_field("b", ""), text_field("c", "")];
    let mut s = selected_state("acme/api", "main", "ci.yml", fields);
    s.ui.modal = Modal::Inputs { selected: 0, editing: false };
    s.handle_key(ch('k'));
    assert!(matches!(s.ui.modal, Modal::Inputs { selected: 2, editing: false }));
    s.handle_key(key(KeyCode::Down));
    assert!(matches!(s.ui.modal, Modal::Inputs { selected: 0, editing: false }));
}

#[test]
fn one_modal_at_a_time_through_a_session() {
    let mut s = selected_state("acme/api", "main", "ci.yml", vec![text_field("tag", "v1")]);
    s.handle_key(ch('?'));
    assert!(matches!(s.ui.modal, Modal::Help));
    s.handle_key(ch('a'));
    assert!(matches!(s.ui.modal, Modal::Closed));
    s.handle_key(ch('a'));
    assert!(matches!(s.ui.modal, Modal::AddRepo { .. }));
    s.handle_key(key(KeyCode::Esc));
    assert!(matches!(s.ui.modal, Modal::Closed));
    s.handle_key(ch('i'));
    assert!(matches!(s.ui.modal, Modal::Inputs { .. }));
    s.handle_key(ch('D'));
    assert!(matches!(s.ui.modal, Modal::ConfirmDispatch { .. }));
    s.handle_key(ch('y'));
    assert!(matches!(s.ui.modal, Modal::PostDispatchPrompt));
    s.run_workflow(Err("boom".to_string()));
    assert!(matches!(s.ui.modal, Modal::PostDispatchPrompt));
    assert!(s.ui.output_is_error);
    s.handle_key(ch('x'));
    assert!(matches!(s.ui.modal, Modal::Closed));
}

#[test]
fn add_repo_requires_both_fields() {
    let mut s = AppState::new(Config::default());
    s.handle_key(ch('a'));
    s.handle_key(ch('o'));
    let a = s.handle_key(key(KeyCode::Enter));
    assert!(matches!(a, Action::Nothing));
    assert!(s.ui.output_is_error);
    assert!(matches!(s.ui.modal, Modal::AddRepo { .. }));
    s.handle_key(key(KeyCode::Tab));
    s.handle_key(ch('r'));
    match s.handle_key(key(KeyCode::Enter)) {
        Action::AddRepo { owner, name } => {
            assert_eq!(owner, "o");
            assert_eq!(name, "r");
        },
        _ => panic!("add expected"),
    }
    assert!(matches!(s.ui.modal, Modal::Closed));
}

#[test]
fn add_repo_outcome_appends_and_saves() {
    let mut s = AppState::new(Config::default());
    let a = s.add_repo("acme", "api", Ok((vec!["main".to_string()], vec!["ci.yml".to_string()])));
    assert!(matches!(a, Action::SaveConfig));
    assert_eq!(s.data.repos.len(), 1);
    assert_eq!(s.data.repos[0].name, "acme/api");
    assert_eq!(s.config.repos[0].name, "acme/api");
    assert_eq!(s.ui.filtered_repo_indices, vec![0]);
    let b = s.add_repo("acme", "web", Err("not found".to_string()));
    assert!(matches!(b, Action::Nothing));
    assert_eq!(s.data.repos.len(), 1);
    assert_eq!(s.ui.output.as_deref(), Some("Error adding repo: not found"));
}

#[test]
fn enter_on_repo_requests_branches_and_advances_on_success() {
    let mut config = Config::default();
    config.repos.push(RepoConfig { name: "acme/api".to_string(), replays: vec![] });
    let mut s = AppState::new(config);
    match s.handle_key(key(KeyCode::Enter)) {
        Action::LoadBranches { index, owner, name } => {
            assert_eq!(index, 0);
            assert_eq!(owner, "acme");
            assert_eq!(name, "api");
        },
        _ => panic!("branch request expected"),
    }
    assert_eq!(s.ui.focus, Focus::Repo);
    s.load_branches(0, Ok((vec!["main".to_string(), "dev".to_string()], vec!["a.yml".to_string()])));
    assert_eq!(s.ui.focus, Focus::Branches);
    assert_eq!(s.data.branches, vec!["main".to_string(), "dev".to_string()]);
    assert_eq!(s.data.workflows[0].name, "a.yml");
    assert_eq!(s.data.workflows[0].id, "wf-0");
    assert_eq!(s.ui.branches_sel, Some(0));
}

#[test]
fn failed_branch_load_keeps_focus() {
    let mut config = Config::default();
    config.repos.push(RepoConfig { name: "acme/api".to_string(), replays: vec![] });
    let mut s = AppState::new(config);
    s.load_branches(0, Err("offline".to_string()));
    assert_eq!(s.ui.focus, Focus::Repo);
    assert!(s.ui.output_is_error);
}

#[test]
fn repo_without_slash_is_rejected() {
    let mut config = Config::default();
    config.repos.push(RepoConfig { name: "noslash".to_string(), replays: vec![] });
    let mut s = AppState::new(config);
    assert!(matches!(s.handle_key(key(KeyCode::Enter)), Action::Nothing));
    assert!(s.ui.output_is_error);
}

#[test]
fn loading_inputs_opens_inputs_modal() {
    let mut s = selected_state("acme/api", "main", "ci.yml", vec![]);
    s.load_inputs("ci.yml", Ok((vec!["tag: [type: string]".to_string()], vec![text_field("tag", "")])));
    assert_eq!(s.ui.focus, Focus::Inputs);
    assert!(matches!(s.ui.modal, Modal::Inputs { selected: 0, editing: false }));
}

#[test]
fn focus_ring_cycles() {
    let mut s = AppState::new(Config::default());
    for expected in [Focus::Branches, Focus::Workflows, Focus::Inputs, Focus::Output, Focus::Repo] {
        s.handle_key(key(KeyCode::Tab));
        assert_eq!(s.ui.focus, expected);
    }
    s.handle_key(key(KeyCode::BackTab));
    assert_eq!(s.ui.focus, Focus::Output);
}

#[test]
fn open_replays_without_presets_reports_instead() {
    let mut s = selected_state("acme/api", "main", "ci.yml", vec![]);
    s.handle_key(ch('r'));
    assert!(matches!(s.ui.modal, Modal::Closed));
    assert_eq!(s.ui.output.as_deref(), Some("No saved replays for 'acme/api'."));
}

fn preset(wf: &str, pairs: &[(&str, &str)]) -> ReplayConfig {
    let inputs: Vec<ReplayInput> =
        pairs.iter().map(|(n, v)| ReplayInput { name: n.to_string(), value: v.to_string() }).collect();
    ReplayConfig { workflow: wf.to_string(), description: "d".to_string(), inputs }
}

#[test]
fn replay_runs_against_current_branch() {
    let mut s = selected_state("acme/api", "hotfix", "ci.yml", vec![]);
    s.config.repos[0].replays.push(preset("deploy.yml", &[("env", "prod")]));
    s.handle_key(ch('r'));
    assert!(matches!(s.ui.modal, Modal::Replays { selected: 0 }));
    match s.handle_key(key(KeyCode::Enter)) {
        Action::DispatchReplay { args } => {
            assert_eq!(preview(&args), "gh workflow run deploy.yml --repo acme/api --ref hotfix -f env=prod");
        },
        _ => panic!("replay dispatch expected"),
    }
    s.run_replay(Ok(()));
    assert!(matches!(s.ui.modal, Modal::PostDispatchPrompt));
}

#[test]
fn deleting_last_replay_closes_modal() {
    let mut s = selected_state("acme/api", "main", "ci.yml", vec![]);
    s.config.repos[0].replays.push(preset("a.yml", &[("x", "1")]));
    s.config.repos[0].replays.push(preset("b.yml", &[("y", "2")]));
    s.handle_key(ch('r'));
    s.handle_key(ch('j'));
    assert!(matches!(s.ui.modal, Modal::Replays { selected: 1 }));
    assert!(matches!(s.handle_key(ch('d')), Action::SaveConfig));
    assert_eq!(s.config.repos[0].replays.len(), 1);
    assert_eq!(s.config.repos[0].replays[0].workflow, "a.yml");
    assert!(matches!(s.ui.modal, Modal::Replays { selected: 0 }));
    s.handle_key(ch('d'));
    assert!(s.config.repos[0].replays.is_empty());
    assert!(matches!(s.ui.modal, Modal::Closed));
}

#[test]
fn browser_urls() {
    let mut s = selected_state("acme/api", "main", "ci.yml", vec![]);
    assert_eq!(s.open_repo_in_browser().unwrap(), "https://github.com/acme/api");
    assert_eq!(s.open_run_in_browser().unwrap_err(), "No workflow run to view.");
    s.watch_workflow_logs(Ok((42, "completed".to_string(), "success".to_string(), "ok".to_string())));
    assert_eq!(s.open_run_in_browser().unwrap(), "https://github.com/acme/api/actions/runs/42");
    assert!(s.ui.output.as_deref().unwrap().starts_with("Run #42 | status: completed | conclusion: success\n"));
}

#[test]
fn search_typing_filters_focused_panel() {
    let mut config = Config::default();
    for n in ["acme/api", "acme/web", "other/tool"] {
        config.repos.push(RepoConfig { name: n.to_string(), replays: vec![] });
    }
    let mut s = AppState::new(config);
    s.handle_key(ch('/'));
    assert!(s.ui.search_active);
    s.handle_key(ch('t'));
    s.handle_key(ch('o'));
    s.handle_key(ch('o'));
    assert_eq!(s.ui.filtered_repo_indices, vec![2]);
    s.handle_key(key(KeyCode::Esc));
    assert!(!s.ui.search_active);
    assert_eq!(s.ui.filtered_repo_indices, vec![0, 1, 2]);
    assert_eq!(s.ui.repos_sel, Some(0));
}

#[test]
fn quit_keys() {
    let mut s = AppState::new(Config::default());
    assert!(matches!(s.handle_key(ch('q')), Action::Quit));
    assert!(matches!(s.handle_key(key(KeyCode::Esc)), Action::Quit));
}

#[test]
fn config_keeps_replays_when_repos_are_saved() {
    let mut config = Config::default();
    config.repos.push(RepoConfig { name: "acme/api".to_string(), replays: vec![preset("a.yml", &[("x", "1")])] });
    let mut s = AppState::new(config);
    s.data.repos.push(Repo { name: "new/one".to_string(), branches: vec![], workflows: vec![] });
    s.save_repos_to_config();
    assert_eq!(s.config.repos.len(), 2);
    assert_eq!(s.config.repos[0].replays.len(), 1);
    assert!(s.config.repos[1].replays.is_empty());
}

#[test]
fn enter_on_choice_field_keeps_browsing() {
    let mut f = text_field("env", "dev");
    f.input_type = "choice".to_string();
    f.options = vec!["dev".to_string(), "prod".to_string()];
    let mut s = selected_state("acme/api", "main", "ci.yml", vec![f, text_field("tag", "")]);
    s.ui.modal = Modal::Inputs { selected: 0, editing: false };
    s.handle_key(key(KeyCode::Enter));
    assert!(matches!(s.ui.modal, Modal::Inputs { selected: 0, editing: false }));
    s.handle_key(ch('j'));
    s.handle_key(key(KeyCode::Enter));
    assert!(matches!(s.ui.modal, Modal::Inputs { selected: 1, editing: true }));
    s.handle_key(ch('v'));
    s.handle_key(key(KeyCode::Enter));
    assert!(matches!(s.ui.modal, Modal::Inputs { selected: 1, editing: false }));
    assert_eq!(s.data.input_fields[1].value, "v");
}

#[test]
fn start_up_selects_first_saved_repo_only() {
    let empty = AppState::new(Config::default());
    assert_eq!(empty.ui.repos_sel, None);
    assert_eq!(empty.ui.branches_sel, None);
    let mut config = Config::default();
    config.repos.push(RepoConfig { name: "acme/api".to_string(), replays: vec![] });
    let s = AppState::new(config);
    assert_eq!(s.ui.repos_sel, Some(0));
    assert_eq!(s.data.repos[0].name, "acme/api");
    assert_eq!(s.ui.focus, Focus::Repo);
}

#[test]
fn dispatch_report_lists_command_and_inputs() {
    let fields = vec![text_field("tag", "v1"), text_field("env", "")];
    let mut s = selected_state("acme/api", "release", "deploy.yml", fields);
    s.run_workflow(Ok(()));
    assert!(s.ui.output_is_success);
    assert_eq!(s.ui.dispatch_output_lines.len(), 10);
    assert_eq!(s.ui.dispatch_output_lines[3].0, "  gh workflow run deploy.yml --repo acme/api --ref release -f tag=v1");
    assert_eq!(s.ui.dispatch_output_lines[6].0, "  tag = v1");
}

#[test]
fn add_repo_keeps_selected_position() {
    let mut config = Config::default();
    config.repos.push(RepoConfig { name: "b/two".to_string(), replays: vec![] });
    config.repos.push(RepoConfig { name: "a/one".to_string(), replays: vec![] });
    let mut s = AppState::new(config);
    s.ui.filtered_repo_indices = vec![1, 0];
    s.ui.repos_sel = Some(1);
    s.add_repo("c", "three", Ok((vec![], vec![])));
    assert_eq!(s.ui.filtered_repo_indices, vec![0, 1, 2]);
    assert_eq!(s.ui.repos_sel, Some(1));
}

#[test]
fn confirmation_and_validation_messages() {
    let mut s = selected_state("acme/api", "main", "ci.yml", vec![]);
    s.ui.modal = Modal::ConfirmDispatch { args: vec![], preview: String::new() };
    s.handle_key(ch('n'));
    assert_eq!(s.ui.output.as_deref(), Some("Dispatch cancelled."));
    s.handle_key(ch('a'));
    s.handle_key(key(KeyCode::Enter));
    assert_eq!(s.ui.output.as_deref(), Some("Both owner and repo fields are required."));
}

#[test]
fn failed_loads_report_context() {
    let mut s = selected_state("acme/api", "main", "ci.yml", vec![]);
    s.load_workflows("main", Err("boom".to_string()));
    assert_eq!(s.ui.output.as_deref(), Some("Error loading workflows: boom"));
    s.load_inputs("ci.yml", Err("bad".to_string()));
    assert_eq!(s.ui.output.as_deref(), Some("Error loading inputs: bad"));
    s.watch_workflow_logs(Err("gone".to_string()));
    assert_eq!(
        s.ui.output.as_deref(),
        Some("Error fetching logs: gone\n\nPress 'l' to retry, 'v' to open in browser, or any other key to dismiss.")
    );
}

#[test]
fn replay_report_marks_success() {
    let mut s = selected_state("acme/api", "hotfix", "ci.yml", vec![]);
    s.config.repos[0].replays.push(preset("deploy.yml", &[("env", "prod"), ("v", "2")]));
    s.handle_key(ch('r'));
    s.run_replay(Ok(()));
    assert!(s.ui.output_is_success);
    assert!(s.ui.dispatch_output_lines.is_empty());
    assert_eq!(
        s.ui.output.as_deref(),
        Some("\u{2713} Replay dispatched!\n\nCommand:\n  gh workflow run deploy.yml --repo acme/api --ref hotfix -f env=prod -f v=2\n\nInputs:\n  env = prod\n  v = 2\n\nPress 'l' to watch run logs, 'v' to open in browser, or any other key to continue.")
    );
}

#[test]
fn tab_on_boolean_field_changes_nothing() {
    let mut f = text_field("debug", "true");
    f.input_type = "boolean".to_string();
    let mut s = selected_state("acme/api", "main", "ci.yml", vec![f]);
    s.ui.modal = Modal::Inputs { selected: 0, editing: true };
    s.handle_key(key(KeyCode::Tab));
    s.handle_key(key(KeyCode::Backspace));
    assert_eq!(s.data.input_fields[0].value, "true");
    assert!(matches!(s.ui.modal, Modal::Inputs { selected: 0, editing: true }));
}

#[test]
fn loaded_workflows_are_numbered() {
    let mut s = selected_state("acme/api", "main", "ci.yml", vec![]);
    s.load_workflows("main", Ok(vec!["a.yml".to_string(), "b.yml".to_string()]));
    assert_eq!(s.data.workflows[1].id, "wf-1");
    assert!(s.data.workflows[1].inputs.is_empty());
}
