//! The operations of the controller that hand work to the outside world, and
//! the ones that take its outcome back.
use crate::app::{keep_selection, kept_position, lemma_identity_valid, panels_kept, repo_names, AppState, DispatchOutputColor, Focus, Modal, UiState};
use crate::config::ReplayInput;
use crate::text::{join, joined};
use crate::config::{replays_of, with_replay, without_replay, ReplayConfig, ReplayView};
use crate::dispatch::{
    capture_replay, captured, command_args, command_arguments, description_of, dispatch_args, preview,
    preview_of,
};
use crate::domain::{InputField, Workflow};
use crate::selection::identity_indices;
use crate::text::{concat, concat3, decimal, decimal_string, repeat_char, split_first, split_once_char};
use vstd::prelude::*;

verus! {

/// Work that the state machine asks the surrounding process to do. Each
/// request names the method of [`AppState`] that takes its outcome back.
#[derive(Debug)]
pub enum Action {
    Nothing,
    /// Leave the event loop.
    Quit,
    /// Fetch the details of a new repository, then `add_repo`.
    AddRepo { owner: String, name: String },
    /// Fetch branches and workflows of repository `index`, then `load_branches`.
    LoadBranches { index: usize, owner: String, name: String },
    /// Fetch the workflows of a branch, then `load_workflows`.
    LoadWorkflows { owner: String, name: String, branch: String },
    /// Fetch the inputs a workflow declares, then `load_inputs`.
    LoadInputs { repo: String, workflow: String, branch_ref: Option<String> },
    /// Run `gh` with these arguments, then `run_workflow`.
    Dispatch { args: Vec<String> },
    /// Run `gh` with these arguments, then `run_replay`.
    DispatchReplay { args: Vec<String> },
    /// Find the latest run of a workflow and its logs, then `watch_workflow_logs`.
    FetchLogs { repo: String, workflow: String },
    /// Write the configuration to the persistent store.
    SaveConfig,
    /// Open a page in the browser.
    OpenUrl { url: String },
}

/// The web page of a repository.
pub open spec fn repo_url(repo: Seq<char>) -> Seq<char> {
    "https://github.com/"@ + repo
}

/// The web page of a workflow run.
pub open spec fn run_url(repo: Seq<char>, run_id: u64) -> Seq<char> {
    repo_url(repo) + "/actions/runs/"@ + decimal(run_id as nat)
}

/// The text that shows a run's logs.
pub open spec fn run_report(run_id: u64, status: Seq<char>, conclusion: Seq<char>, logs: Seq<char>) -> Seq<char> {
    "Run #"@ + decimal(run_id as nat) + " | status: "@ + status + " | conclusion: "@ + conclusion + "\n"@ + Seq::new(
        60,
        |i: int| '\u{2500}',
    ) + "\n\n"@ + logs
        + "\n\nPress 'l' to refresh logs, 'v' to open in browser, or any other key to dismiss."@
}

/// Workflow `i` is identified as `wf-i` and declares no inputs yet.
pub open spec fn numbered(ws: Seq<Workflow>) -> bool {
    forall|i: int| 0 <= i < ws.len() ==> (#[trigger] ws[i]).id@ == "wf-"@ + decimal(i as nat) && ws[i].inputs@.len() == 0
}

/// The text that reports a dispatched preset.
pub open spec fn replay_report(args: Seq<Seq<char>>, pairs: Seq<(Seq<char>, Seq<char>)>) -> Seq<char> {
    "\u{2713} Replay dispatched!\n\nCommand:\n  "@ + preview_of(args) + "\n\nInputs:\n"@ + joined(
        pairs.map_values(|p: (Seq<char>, Seq<char>)| input_line(p)),
        "\n"@,
    ) + "\n\nPress 'l' to watch run logs, 'v' to open in browser, or any other key to continue."@
}

/// `  name = value`.
pub open spec fn input_line(p: (Seq<char>, Seq<char>)) -> Seq<char> {
    "  "@ + p.0 + " = "@ + p.1
}

/// One `  name = value` line per input.
pub fn input_lines(inputs: &Vec<ReplayInput>) -> (r: Vec<String>)
    ensures
        r.deep_view() == inputs@.map_values(|i: ReplayInput| i@).map_values(|p: (Seq<char>, Seq<char>)| input_line(p)),
{
    let ghost target = inputs@.map_values(|i: ReplayInput| i@).map_values(|p: (Seq<char>, Seq<char>)| input_line(p));
    let mut r: Vec<String> = Vec::new();
    let mut k: usize = 0;
    while k < inputs.len()
        invariant
            k <= inputs.len(),
            target == inputs@.map_values(|i: ReplayInput| i@).map_values(|p: (Seq<char>, Seq<char>)| input_line(p)),
            r.deep_view() == target.subrange(0, k as int),
        decreases inputs.len() - k,
    {
        let ghost pre = r.deep_view();
        let mut line = concat3("  ", inputs[k].name.as_str(), " = ");
        line.append(inputs[k].value.as_str());
        r.push(line);
        assert(r.deep_view() =~= pre.push(target[k as int]));
        assert(target.subrange(0, k + 1) =~= target.subrange(0, k as int).push(target[k as int]));
        k = k + 1;
    }
    assert(target.subrange(0, k as int) =~= target);
    r
}

/// Workflows with the given file names, in order.
pub fn workflows_from(names: &Vec<String>) -> (r: Vec<Workflow>)
    ensures
        crate::app::workflow_labels(r@) == names.deep_view(),
        numbered(r@),
{
    let mut r: Vec<Workflow> = Vec::new();
    let mut k: usize = 0;
    while k < names.len()
        invariant
            k <= names.len(),
            crate::app::workflow_labels(r@) == names.deep_view().subrange(0, k as int),
            r@.len() == k,
            numbered(r@),
        decreases names.len() - k,
    {
        let ghost pre = r@;
        let id_num = decimal_string(k as u64);
        let id = concat("wf-", id_num.as_str());
        r.push(Workflow { id, name: names[k].clone(), inputs: Vec::new() });
        assert(crate::app::workflow_labels(r@) =~= crate::app::workflow_labels(pre).push(names@[k as int]@));
        assert(names.deep_view().subrange(0, k + 1) =~= names.deep_view().subrange(0, k as int).push(names@[k as int]@));
        k = k + 1;
    }
    assert(names.deep_view().subrange(0, k as int) =~= names.deep_view());
    r
}

/// `new` is `old` after the presets of the selected repository were loaded:
/// the replays modal opens on the first of them, or a message says why not.
pub open spec fn replays_opened(old: AppState, new: AppState) -> bool {
    &&& new.config == old.config
    &&& old.selected_repo() is None ==> {
        &&& new.ui.output_is_error
        &&& new.ui.output is Some && new.ui.output->0@ == "No repo selected."@
        &&& new.ui.modal == old.ui.modal
        &&& new.data == old.data
    }
    &&& old.selected_repo() is Some ==> new.data.replays_list@.map_values(|x: ReplayConfig| x@)
        == replays_of(old.config@, old.selected_repo_name())
    &&& old.selected_repo() is Some && new.data.replays_list@.len() == 0 ==> {
        &&& new.ui.modal == old.ui.modal
        &&& !new.ui.output_is_error
        &&& new.ui.output is Some && new.ui.output->0@ == "No saved replays for '"@ + old.selected_repo_name() + "'."@
    }
    &&& old.selected_repo() is Some && new.data.replays_list@.len() > 0 ==> new.ui.modal == (Modal::Replays { selected: 0 })
    &&& new.data.repos == old.data.repos
    &&& new.data.branches == old.data.branches
    &&& new.data.workflows == old.data.workflows
    &&& new.data.input_fields == old.data.input_fields
}

impl AppState {
    /// The repository, branch and workflow that a dispatch targets, when all
    /// three are selected.
    pub open spec fn dispatch_target(&self) -> Option<(Seq<char>, Seq<char>, Seq<char>)> {
        match (self.selected_repo(), self.selected_branch(), self.selected_workflow()) {
            (Some(r), Some(b), Some(w)) => Some(
                (self.data.repos@[r as int].name@, self.data.branches@[b as int]@, self.data.workflows@[w as int].name@),
            ),
            _ => None,
        }
    }

    /// The arguments of the dispatch of the current selection and input values.
    pub open spec fn dispatch_command(&self) -> Option<Seq<Seq<char>>> {
        match self.dispatch_target() {
            Some(t) => Some(command_args(t.0, t.1, t.2, captured(self.data.input_fields@))),
            None => None,
        }
    }

    /// Why a fetch for the selected repository (and, with `branch`, the
    /// selected branch) cannot be asked for.
    pub open spec fn request_error(&self, branch: bool) -> Seq<char> {
        if self.selected_repo() is None {
            "No repo selected."@
        } else if branch && self.selected_branch() is None {
            "No branch selected."@
        } else {
            "Invalid repo format: '"@ + self.selected_repo_name() + "'. Expected 'owner/name'."@
        }
    }

    /// What is missing for a dispatch, the first of repository, branch, workflow.
    pub open spec fn missing_selection(&self) -> Seq<char> {
        if self.selected_repo() is None {
            "No repo selected."@
        } else if self.selected_branch() is None {
            "No branch selected."@
        } else {
            "No workflow selected."@
        }
    }

    /// The name of the selected repository.
    pub open spec fn selected_repo_name(&self) -> Seq<char> {
        self.data.repos@[self.selected_repo()->0 as int].name@
    }

    /// Shows `msg` as an error.
    pub fn show_error(&mut self, msg: String)
        ensures
            old(self).wf() ==> final(self).wf(),
            final(self).ui == (UiState { output: Some(msg), output_is_error: true, output_is_success: false, ..old(self).ui }),
            final(self).data == old(self).data,
            final(self).config == old(self).config,
    {
        self.ui.output = Some(msg);
        self.ui.output_is_error = true;
        self.ui.output_is_success = false;
    }

    /// Shows `msg` as information.
    pub fn show_info(&mut self, msg: String)
        ensures
            old(self).wf() ==> final(self).wf(),
            final(self).ui == (UiState { output: Some(msg), output_is_error: false, output_is_success: false, ..old(self).ui }),
            final(self).data == old(self).data,
            final(self).config == old(self).config,
    {
        self.ui.output = Some(msg);
        self.ui.output_is_error = false;
        self.ui.output_is_success = false;
    }

    /// The dispatch command of the current selection and input values, and its
    /// preview; the same projection serves the confirmation and the run.
    pub fn build_dispatch_command(&self) -> (r: Result<(Vec<String>, String), String>)
        ensures
            match r {
                Ok(c) => self.dispatch_command() == Some(c.0.deep_view()) && c.1@ == preview_of(c.0.deep_view()),
                Err(e) => self.dispatch_command() is None && e@ == self.missing_selection(),
            },
    {
        let ri = match self.selected_repo_real_index() {
            Some(i) => i,
            None => return Err(String::from_str("No repo selected.")),
        };
        let bi = match self.selected_branch_real_index() {
            Some(i) => i,
            None => return Err(String::from_str("No branch selected.")),
        };
        let wi = match self.selected_workflow_real_index() {
            Some(i) => i,
            None => return Err(String::from_str("No workflow selected.")),
        };
        let args = dispatch_args(
            self.data.repos[ri].name.as_str(),
            self.data.branches[bi].as_str(),
            self.data.workflows[wi].name.as_str(),
            &self.data.input_fields,
        );
        let p = preview(&args);
        Ok((args, p))
    }

    /// The saved repositories become the panel's repositories, in order, each
    /// keeping its presets.
    pub fn save_repos_to_config(&mut self)
        ensures
            old(self).wf() ==> final(self).wf(),
            crate::config::repo_names(final(self).config@) == crate::app::repo_labels(old(self).data.repos@),
            forall|j: int| 0 <= j < old(self).data.repos@.len() ==> (#[trigger] final(self).config@[j]).1
                == replays_of(old(self).config@, old(self).data.repos@[j].name@),
            final(self).data == old(self).data,
            final(self).ui == old(self).ui,
    {
        let names = repo_names(&self.data.repos);
        self.config.set_repos(&names);
        assert(crate::config::repo_names(self.config@).len() == self.config@.len());
        assert(crate::app::repo_labels(old(self).data.repos@).len() == old(self).data.repos@.len());
        assert(names.deep_view().len() == names@.len());
        assert forall|j: int| 0 <= j < old(self).data.repos@.len() implies (#[trigger] self.config@[j]).1
            == replays_of(old(self).config@, old(self).data.repos@[j].name@) by {
            assert(names.deep_view()[j] == names@[j]@);
            assert(crate::app::repo_labels(old(self).data.repos@)[j] == old(self).data.repos@[j].name@);
            assert(crate::config::repo_names(self.config@)[j] == self.config@[j].0);
        }
    }

    /// Saves the non-empty input values as a preset of the selected repository
    /// and workflow.
    pub fn save_replay(&mut self) -> (r: Result<(), String>)
        ensures
            panels_kept(*old(self), *final(self)),
            old(self).wf() ==> final(self).wf(),
            r is Ok <==> (old(self).selected_repo() is Some && old(self).selected_workflow() is Some
                && captured(old(self).data.input_fields@).len() > 0),
            r is Ok ==> final(self).config@ == with_replay(
                old(self).config@,
                old(self).selected_repo_name(),
                ReplayView {
                    workflow: old(self).data.workflows@[old(self).selected_workflow()->0 as int].name@,
                    description: description_of(captured(old(self).data.input_fields@)),
                    inputs: captured(old(self).data.input_fields@),
                },
            ),
            r is Err ==> *final(self) == *old(self),
            match r {
                Err(e) => e@ == if old(self).selected_repo() is None {
                    "No repo selected."@
                } else if old(self).selected_workflow() is None {
                    "No workflow selected."@
                } else {
                    "No inputs to save \u{2014} workflows without inputs don't need replays."@
                },
                Ok(_) => true,
            },
            final(self).data == old(self).data,
            final(self).ui.modal == old(self).ui.modal,
            final(self).ui.focus == old(self).ui.focus,
    {
        let ri = match self.selected_repo_real_index() {
            Some(i) => i,
            None => return Err(String::from_str("No repo selected.")),
        };
        let wi = match self.selected_workflow_real_index() {
            Some(i) => i,
            None => return Err(String::from_str("No workflow selected.")),
        };
        let replay = match capture_replay(self.data.workflows[wi].name.as_str(), &self.data.input_fields) {
            Some(rp) => rp,
            None => return Err(String::from_str("No inputs to save \u{2014} workflows without inputs don't need replays.")),
        };
        let mut msg = concat3("\u{2713} Replay saved for '", self.data.repos[ri].name.as_str(), "' \u{2192} ");
        msg.append(self.data.workflows[wi].name.as_str());
        msg.append("\n  ");
        msg.append(replay.description.as_str());
        let repo = self.data.repos[ri].name.clone();
        self.config.add_replay(repo.as_str(), replay);
        self.show_info(msg);
        Ok(())
    }

    /// Loads the presets of the selected repository and opens the replays
    /// modal; when there are none, reports that instead.
    pub fn open_replays(&mut self)
        ensures
            panels_kept(*old(self), *final(self)),
            old(self).wf() ==> final(self).wf(),
            replays_opened(*old(self), *final(self)),
    {
        let ri = match self.selected_repo_real_index() {
            Some(i) => i,
            None => {
                self.show_error(String::from_str("No repo selected."));
                return;
            },
        };
        let name = self.data.repos[ri].name.clone();
        self.data.replays_list = self.config.replays_for(name.as_str());
        if self.data.replays_list.len() == 0 {
            let msg = concat3("No saved replays for '", name.as_str(), "'.");
            self.show_info(msg);
            return;
        }
        self.ui.modal = Modal::Replays { selected: 0 };
    }

    /// The command that runs the selected preset against the selected
    /// repository and the branch selected now, and its preview. The preset's
    /// workflow is dispatched as it was saved: whether it still exists on that
    /// branch is for the remote tool to report, as a failed dispatch.
    pub fn replay_command(&self) -> (r: Result<(Vec<String>, String), String>)
        ensures
            match r {
                Ok(c) => {
                    &&& self.ui.modal is Replays
                    &&& self.ui.modal->Replays_selected < self.data.replays_list@.len()
                    &&& self.selected_repo() is Some
                    &&& self.selected_branch() is Some
                    &&& c.0.deep_view() == command_args(
                        self.selected_repo_name(),
                        self.data.branches@[self.selected_branch()->0 as int]@,
                        self.data.replays_list@[self.ui.modal->Replays_selected as int]@.workflow,
                        self.data.replays_list@[self.ui.modal->Replays_selected as int]@.inputs,
                    )
                    &&& c.1@ == preview_of(c.0.deep_view())
                },
                Err(_) => !(self.ui.modal is Replays && self.ui.modal->Replays_selected < self.data.replays_list@.len()
                    && self.selected_repo() is Some && self.selected_branch() is Some),
            },
    {
        let k = match self.ui.modal {
            Modal::Replays { selected } => selected,
            _ => return Err(String::from_str("No replay selected.")),
        };
        if k >= self.data.replays_list.len() {
            return Err(String::from_str("No replay selected."));
        }
        let ri = match self.selected_repo_real_index() {
            Some(i) => i,
            None => return Err(String::from_str("No repo selected.")),
        };
        let bi = match self.selected_branch_real_index() {
            Some(i) => i,
            None => return Err(String::from_str("No branch selected.")),
        };
        let replay = &self.data.replays_list[k];
        let args = command_arguments(
            self.data.repos[ri].name.as_str(),
            self.data.branches[bi].as_str(),
            replay.workflow.as_str(),
            &replay.inputs,
        );
        let p = preview(&args);
        Ok((args, p))
    }

    /// Deletes the selected preset of the selected repository; the modal
    /// closes when none is left.
    pub fn delete_replay(&mut self) -> (r: Result<(), String>)
        ensures
            panels_kept(*old(self), *final(self)),
            old(self).wf() ==> final(self).wf(),
            r is Ok <==> (old(self).ui.modal is Replays && old(self).selected_repo() is Some),
            r is Ok ==> final(self).config@ == without_replay(old(self).config@, old(self).selected_repo_name(), old(self).ui.modal->Replays_selected as int),
            r is Err ==> final(self).config == old(self).config && final(self).ui.modal == old(self).ui.modal,
            r is Ok && final(self).config@ != old(self).config@ ==> final(self).data.replays_list@.map_values(|x: ReplayConfig| x@)
                == replays_of(final(self).config@, old(self).selected_repo_name()),
            r is Ok && final(self).config@ != old(self).config@ && final(self).data.replays_list@.len() == 0 ==> final(self).ui.modal is Closed,
            r is Ok && final(self).config@ != old(self).config@ && final(self).data.replays_list@.len() > 0 ==> final(self).ui.modal == (Modal::Replays {
                selected: if old(self).ui.modal->Replays_selected >= final(self).data.replays_list@.len() {
                    (final(self).data.replays_list@.len() - 1) as usize
                } else {
                    old(self).ui.modal->Replays_selected
                },
            }),
            final(self).ui.modal is Replays || final(self).ui.modal == old(self).ui.modal || final(self).ui.modal is Closed,
            final(self).data.repos == old(self).data.repos,
            final(self).data.branches == old(self).data.branches,
            final(self).data.workflows == old(self).data.workflows,
            final(self).data.input_fields == old(self).data.input_fields,
            final(self).ui.focus == old(self).ui.focus,
    {
        let k = match self.ui.modal {
            Modal::Replays { selected } => selected,
            _ => return Err(String::from_str("No replay selected.")),
        };
        let ri = match self.selected_repo_real_index() {
            Some(i) => i,
            None => return Err(String::from_str("No repo selected.")),
        };
        let name = self.data.repos[ri].name.clone();
        match self.config.remove_replay(name.as_str(), k) {
            Some(removed) => {
                self.data.replays_list = self.config.replays_for(name.as_str());
                let n = self.data.replays_list.len();
                if n == 0 {
                    self.ui.modal = Modal::Closed;
                    let msg = concat3("Deleted replay '", removed.description.as_str(), "'. No replays remaining.");
                    self.show_info(msg);
                } else {
                    let sel = if k >= n { n - 1 } else { k };
                    self.ui.modal = Modal::Replays { selected: sel };
                    let msg = concat3("Deleted replay '", removed.description.as_str(), "'.");
                    self.show_info(msg);
                }
            },
            None => {},
        }
        Ok(())
    }

    /// The web page of the selected repository.
    pub fn open_repo_in_browser(&self) -> (r: Result<String, String>)
        ensures
            match r {
                Ok(url) => self.selected_repo() is Some && url@ == repo_url(self.selected_repo_name()),
                Err(e) => self.selected_repo() is None && e@ == "No repo selected."@,
            },
    {
        let ri = match self.selected_repo_real_index() {
            Some(i) => i,
            None => return Err(String::from_str("No repo selected.")),
        };
        Ok(concat("https://github.com/", self.data.repos[ri].name.as_str()))
    }

    /// The web page of the last run whose logs were fetched.
    pub fn open_run_in_browser(&self) -> (r: Result<String, String>)
        ensures
            match r {
                Ok(url) => self.selected_repo() is Some && self.ui.last_run_id is Some
                    && url@ == run_url(self.selected_repo_name(), self.ui.last_run_id->0),
                Err(e) => self.selected_repo() is None && e@ == "No repo selected."@
                    || self.selected_repo() is Some && self.ui.last_run_id is None && e@ == "No workflow run to view."@,
            },
    {
        let ri = match self.selected_repo_real_index() {
            Some(i) => i,
            None => return Err(String::from_str("No repo selected.")),
        };
        let id = match self.ui.last_run_id {
            Some(id) => id,
            None => return Err(String::from_str("No workflow run to view.")),
        };
        let mut url = concat3("https://github.com/", self.data.repos[ri].name.as_str(), "/actions/runs/");
        let digits = decimal_string(id);
        url.append(digits.as_str());
        Ok(url)
    }
}

impl AppState {
    /// The fetch of the selected repository's branches and workflows.
    pub fn request_branches(&self) -> (r: Result<Action, String>)
        ensures
            match r {
                Ok(a) => {
                    &&& self.selected_repo() is Some
                    &&& split_first(self.selected_repo_name(), '/') is Some
                    &&& a is LoadBranches
                    &&& a->LoadBranches_index == self.selected_repo()->0
                    &&& Some((a->LoadBranches_owner@, a->LoadBranches_name@)) == split_first(self.selected_repo_name(), '/')
                },
                Err(e) => (self.selected_repo() is None || split_first(self.selected_repo_name(), '/') is None)
                    && e@ == self.request_error(false),
            },
    {
        let ri = match self.selected_repo_real_index() {
            Some(i) => i,
            None => return Err(String::from_str("No repo selected.")),
        };
        match split_once_char(self.data.repos[ri].name.as_str(), '/') {
            Some((owner, name)) => Ok(Action::LoadBranches { index: ri, owner, name }),
            None => Err(concat3("Invalid repo format: '", self.data.repos[ri].name.as_str(), "'. Expected 'owner/name'.")),
        }
    }

    /// The fetch of the workflows of the selected branch.
    pub fn request_workflows(&self) -> (r: Result<Action, String>)
        ensures
            match r {
                Ok(a) => {
                    &&& self.selected_repo() is Some
                    &&& self.selected_branch() is Some
                    &&& split_first(self.selected_repo_name(), '/') is Some
                    &&& a is LoadWorkflows
                    &&& Some((a->LoadWorkflows_owner@, a->LoadWorkflows_name@)) == split_first(self.selected_repo_name(), '/')
                    &&& a->LoadWorkflows_branch@ == self.data.branches@[self.selected_branch()->0 as int]@
                },
                Err(e) => (self.selected_repo() is None || self.selected_branch() is None
                    || split_first(self.selected_repo_name(), '/') is None) && e@ == self.request_error(true),
            },
    {
        let ri = match self.selected_repo_real_index() {
            Some(i) => i,
            None => return Err(String::from_str("No repo selected.")),
        };
        let bi = match self.selected_branch_real_index() {
            Some(i) => i,
            None => return Err(String::from_str("No branch selected.")),
        };
        match split_once_char(self.data.repos[ri].name.as_str(), '/') {
            Some((owner, name)) => Ok(Action::LoadWorkflows { owner, name, branch: self.data.branches[bi].clone() }),
            None => Err(concat3("Invalid repo format: '", self.data.repos[ri].name.as_str(), "'. Expected 'owner/name'.")),
        }
    }

    /// The fetch of the inputs that the selected workflow declares, from the
    /// selected branch when one is selected.
    pub fn request_inputs(&self) -> (r: Result<Action, String>)
        ensures
            match r {
                Ok(a) => {
                    &&& self.selected_workflow() is Some
                    &&& self.selected_repo() is Some
                    &&& a is LoadInputs
                    &&& a->LoadInputs_repo@ == self.selected_repo_name()
                    &&& a->LoadInputs_workflow@ == self.data.workflows@[self.selected_workflow()->0 as int].name@
                    &&& match self.selected_branch() {
                        Some(b) => a->LoadInputs_branch_ref is Some && a->LoadInputs_branch_ref->0@ == self.data.branches@[b as int]@,
                        None => a->LoadInputs_branch_ref is None,
                    }
                },
                Err(e) => (self.selected_workflow() is None || self.selected_repo() is None) && e@ == if self.selected_workflow() is None {
                    "No workflow selected."@
                } else {
                    "No repo selected."@
                },
            },
    {
        let wi = match self.selected_workflow_real_index() {
            Some(i) => i,
            None => return Err(String::from_str("No workflow selected.")),
        };
        let ri = match self.selected_repo_real_index() {
            Some(i) => i,
            None => return Err(String::from_str("No repo selected.")),
        };
        let branch_ref = match self.selected_branch_real_index() {
            Some(i) => Some(self.data.branches[i].clone()),
            None => None,
        };
        Ok(Action::LoadInputs {
            repo: self.data.repos[ri].name.clone(),
            workflow: self.data.workflows[wi].name.clone(),
            branch_ref,
        })
    }

    /// Takes the details fetched for a new repository `owner/name`: it is
    /// appended to the panel and saved, or the error is shown.
    pub fn add_repo(&mut self, owner: &str, name: &str, fetched: Result<(Vec<String>, Vec<String>), String>) -> (a: Action)
        ensures
            old(self).wf() ==> final(self).wf(),
            match fetched {
                Ok(d) => {
                    &&& a is SaveConfig
                    &&& final(self).data.repos@.len() == old(self).data.repos@.len() + 1
                    &&& final(self).data.repos@.drop_last() == old(self).data.repos@
                    &&& final(self).data.repos@.last().name@ == owner@ + "/"@ + name@
                    &&& final(self).data.repos@.last().branches.deep_view() == d.0.deep_view()
                    &&& final(self).data.repos@.last().workflows.deep_view() == d.1.deep_view()
                    &&& final(self).ui.filtered_repo_indices@ == crate::selection::identity(final(self).data.repos@.len())
                    &&& final(self).ui.repos_sel == kept_position(old(self).ui.repos_sel, final(self).data.repos@.len())
                    &&& crate::config::repo_names(final(self).config@) == crate::app::repo_labels(final(self).data.repos@)
                    &&& !final(self).ui.output_is_error
                },
                Err(e) => {
                    &&& a is Nothing
                    &&& final(self).data == old(self).data
                    &&& final(self).config == old(self).config
                    &&& final(self).ui.output_is_error
                    &&& final(self).ui.output is Some && final(self).ui.output->0@ == "Error adding repo: "@ + e@
                    &&& panels_kept(*old(self), *final(self))
                },
            },
            final(self).ui.modal == old(self).ui.modal,
            final(self).ui.focus == old(self).ui.focus,
    {
        match fetched {
            Ok((branches, workflows)) => {
                let full = concat3(owner, "/", name);
                let msg = concat3("Added repo '", full.as_str(), "'");
                self.data.repos.push(crate::domain::Repo { name: full, branches, workflows });
                self.ui.repos_sel = keep_selection(self.ui.repos_sel, self.data.repos.len());
                self.ui.filtered_repo_indices = identity_indices(self.data.repos.len());
                proof {
                    lemma_identity_valid(self.data.repos@.len());
                }
                self.save_repos_to_config();
                self.show_info(msg);
                Action::SaveConfig
            },
            Err(e) => {
                self.show_error(concat("Error adding repo: ", e.as_str()));
                Action::Nothing
            },
        }
    }

    /// Takes the branches and workflows fetched for repository `index`: they
    /// replace the panels' collections, whose filters and selections reset,
    /// and focus moves on to the branches. On failure nothing but the output
    /// changes.
    pub fn load_branches(&mut self, index: usize, fetched: Result<(Vec<String>, Vec<String>), String>)
        ensures
            old(self).wf() ==> final(self).wf(),
            fetched is Ok && index < old(self).data.repos@.len() ==> {
                &&& final(self).data.branches.deep_view() == (fetched->Ok_0).0.deep_view()
                &&& crate::app::workflow_labels(final(self).data.workflows@) == (fetched->Ok_0).1.deep_view()
                &&& final(self).data.repos@.len() == old(self).data.repos@.len()
                &&& final(self).data.repos@[index as int].name == old(self).data.repos@[index as int].name
                &&& final(self).data.repos@[index as int].branches.deep_view() == (fetched->Ok_0).0.deep_view()
                &&& final(self).data.repos@[index as int].workflows.deep_view() == (fetched->Ok_0).1.deep_view()
                &&& forall|j: int| 0 <= j < old(self).data.repos@.len() && j != index ==> final(self).data.repos@[j] == old(self).data.repos@[j]
                &&& final(self).ui.filtered_branch_indices@ == crate::selection::identity(final(self).data.branches@.len())
                &&& final(self).ui.filtered_workflow_indices@ == crate::selection::identity(final(self).data.workflows@.len())
                &&& final(self).ui.branches_sel == crate::app::reset_position(final(self).ui.filtered_branch_indices@)
                &&& final(self).ui.workflows_sel == crate::app::reset_position(final(self).ui.filtered_workflow_indices@)
                &&& numbered(final(self).data.workflows@)
                &&& !final(self).ui.search_active
                &&& final(self).ui.focus is Branches
            },
            !(fetched is Ok && index < old(self).data.repos@.len()) ==> {
                &&& final(self).data == old(self).data
                &&& panels_kept(*old(self), *final(self))
                &&& final(self).ui.output_is_error
                &&& final(self).ui.output is Some
                &&& final(self).ui.output->0@ == match fetched {
                    Ok(_) => "No repo selected."@,
                    Err(e) => "Error loading branches: "@ + e@,
                }
            },
            final(self).ui.modal == old(self).ui.modal,
            final(self).config == old(self).config,
    {
        match fetched {
            Ok((branches, workflows)) => {
                if index >= self.data.repos.len() {
                    self.show_error(String::from_str("No repo selected."));
                    return;
                }
                let repo_name = self.data.repos[index].name.clone();
                self.data.repos[index].branches = branches.clone();
                self.data.repos[index].workflows = workflows.clone();
                proof {
                    broadcast use vstd::std_specs::vec::vec_clone_deep_view_proof;
                }
                self.data.branches = branches;
                self.data.workflows = workflows_from(&workflows);
                self.ui.filtered_branch_indices = identity_indices(self.data.branches.len());
                self.ui.filtered_workflow_indices = identity_indices(self.data.workflows.len());
                proof {
                    lemma_identity_valid(self.data.branches@.len());
                    lemma_identity_valid(self.data.workflows@.len());
                }
                self.ui.branches_sel = if self.data.branches.len() == 0 { None } else { Some(0) };
                self.ui.workflows_sel = if self.data.workflows.len() == 0 { None } else { Some(0) };
                self.ui.search_active = false;
                self.ui.search_query = String::new();
                let nb = decimal_string(self.data.branches.len() as u64);
                let nw = decimal_string(self.data.workflows.len() as u64);
                let mut msg = concat3("Loaded ", nb.as_str(), " branches and ");
                msg.append(nw.as_str());
                msg.append(" workflows for '");
                msg.append(repo_name.as_str());
                msg.append("'");
                self.show_info(msg);
                self.ui.focus = Focus::Branches;
            },
            Err(e) => {
                self.show_error(concat("Error loading branches: ", e.as_str()));
            },
        }
    }

    /// Takes the workflow file names fetched for `branch`: they replace the
    /// workflow panel's collection, whose filter and selection reset, and
    /// focus moves on to the workflows. On failure nothing but the output
    /// changes.
    pub fn load_workflows(&mut self, branch: &str, fetched: Result<Vec<String>, String>)
        ensures
            old(self).wf() ==> final(self).wf(),
            match fetched {
                Ok(names) => {
                    &&& crate::app::workflow_labels(final(self).data.workflows@) == names.deep_view()
                    &&& final(self).ui.filtered_workflow_indices@ == crate::selection::identity(final(self).data.workflows@.len())
                    &&& final(self).ui.workflows_sel == crate::app::reset_position(final(self).ui.filtered_workflow_indices@)
                    &&& final(self).data.repos == old(self).data.repos
                    &&& final(self).data.branches == old(self).data.branches
                    &&& numbered(final(self).data.workflows@)
                    &&& final(self).ui.focus is Workflows
                },
                Err(e) => {
                    &&& final(self).data == old(self).data
                    &&& panels_kept(*old(self), *final(self))
                    &&& final(self).ui.output_is_error
                    &&& final(self).ui.output is Some && final(self).ui.output->0@ == "Error loading workflows: "@ + e@
                },
            },
            final(self).ui.modal == old(self).ui.modal,
            final(self).config == old(self).config,
    {
        match fetched {
            Ok(names) => {
                self.data.workflows = workflows_from(&names);
                self.ui.filtered_workflow_indices = identity_indices(self.data.workflows.len());
                proof {
                    lemma_identity_valid(self.data.workflows@.len());
                }
                self.ui.workflows_sel = if self.data.workflows.len() == 0 { None } else { Some(0) };
                let msg = if names.len() == 0 {
                    concat3("No workflows found on branch '", branch, "'.")
                } else {
                    let n = decimal_string(names.len() as u64);
                    let mut m = concat3("Loaded ", n.as_str(), " workflows for branch '");
                    m.append(branch);
                    m.append("':\n");
                    let mut k: usize = 0;
                    while k < names.len()
                        decreases names.len() - k,
                    {
                        m.append("\n- ");
                        m.append(names[k].as_str());
                        k = k + 1;
                    }
                    m
                };
                self.show_info(msg);
                self.ui.focus = Focus::Workflows;
            },
            Err(e) => {
                self.show_error(concat("Error loading workflows: ", e.as_str()));
            },
        }
    }

    /// Takes the display lines and fields fetched for `workflow`: they replace
    /// the inputs, focus moves on to the inputs panel, and when the workflow
    /// declares at least one input the inputs modal opens on its first field.
    pub fn load_inputs(&mut self, workflow: &str, fetched: Result<(Vec<String>, Vec<InputField>), String>)
        ensures
            old(self).wf() ==> final(self).wf(),
            match fetched {
                Ok(d) => {
                    &&& final(self).data.inputs.deep_view() == d.0.deep_view()
                    &&& final(self).data.input_fields@ == d.1@
                    &&& final(self).ui.focus is Inputs
                    &&& final(self).ui.inputs_sel == (if d.0@.len() == 0 { None } else { Some(0usize) })
                    &&& d.1@.len() > 0 ==> final(self).ui.modal == (Modal::Inputs { selected: 0, editing: false })
                    &&& d.1@.len() == 0 ==> final(self).ui.modal == old(self).ui.modal
                    &&& final(self).data.repos == old(self).data.repos
                    &&& final(self).data.branches == old(self).data.branches
                    &&& final(self).data.workflows == old(self).data.workflows
                },
                Err(e) => {
                    &&& final(self).data == old(self).data
                    &&& panels_kept(*old(self), *final(self))
                    &&& final(self).ui.modal == old(self).ui.modal
                    &&& final(self).ui.output_is_error
                    &&& final(self).ui.output is Some && final(self).ui.output->0@ == "Error loading inputs: "@ + e@
                },
            },
            final(self).config == old(self).config,
    {
        match fetched {
            Ok((lines, fields)) => {
                let msg = if lines.len() == 0 {
                    concat3("Workflow '", workflow, "' has no dispatch inputs.\n\nPress 'i' or Enter to dispatch.")
                } else {
                    let mut m = concat3("Inputs for '", workflow, "':\n");
                    let mut k: usize = 0;
                    while k < lines.len()
                        decreases lines.len() - k,
                    {
                        m.append("\n- ");
                        m.append(lines[k].as_str());
                        k = k + 1;
                    }
                    m.append("\n\nPress 'i' to edit inputs and dispatch.");
                    m
                };
                self.ui.inputs_sel = if lines.len() == 0 { None } else { Some(0) };
                self.data.inputs = lines;
                let has_fields = fields.len() > 0;
                self.data.input_fields = fields;
                self.show_info(msg);
                self.ui.focus = Focus::Inputs;
                if has_fields {
                    self.ui.modal = Modal::Inputs { selected: 0, editing: false };
                }
            },
            Err(e) => {
                self.show_error(concat("Error loading inputs: ", e.as_str()));
            },
        }
    }

    /// Takes the outcome of a dispatch: the post-dispatch prompt opens either
    /// way, showing the command and inputs on success and the error on failure.
    pub fn run_workflow(&mut self, outcome: Result<(), String>)
        ensures
            panels_kept(*old(self), *final(self)),
            old(self).wf() ==> final(self).wf(),
            final(self).ui.modal is PostDispatchPrompt,
            outcome is Ok ==> final(self).ui.output_is_success && !final(self).ui.output_is_error,
            outcome is Ok ==> final(self).ui.dispatch_output_lines@.len() == old(self).data.input_fields@.len() + 8
                && final(self).ui.output is Some && final(self).ui.output->0@ == "dispatch_success"@
                && final(self).ui.dispatch_output_lines@[3].1 == DispatchOutputColor::Yellow,
            match outcome {
                Err(e) => final(self).ui.output is Some && final(self).ui.output->0@ == "Error dispatching workflow: "@ + e@,
                Ok(_) => true,
            },
            outcome is Ok && old(self).dispatch_command() is Some ==> final(self).ui.dispatch_output_lines@[3].0@
                == "  "@ + preview_of(old(self).dispatch_command()->0),
            outcome is Err ==> final(self).ui.output_is_error,
            final(self).data == old(self).data,
            final(self).config == old(self).config,
            final(self).ui.focus == old(self).ui.focus,
    {
        match outcome {
            Ok(()) => {
                let shown = match self.build_dispatch_command() {
                    Ok((_args, p)) => p,
                    Err(_) => String::new(),
                };
                let mut lines: Vec<(String, DispatchOutputColor)> = Vec::new();
                lines.push((String::from_str("\u{2713} Workflow dispatched!"), DispatchOutputColor::Green));
                lines.push((String::new(), DispatchOutputColor::White));
                lines.push((String::from_str("Command:"), DispatchOutputColor::Yellow));
                lines.push((concat("  ", shown.as_str()), DispatchOutputColor::Yellow));
                lines.push((String::new(), DispatchOutputColor::White));
                lines.push((String::from_str("Inputs:"), DispatchOutputColor::White));
                let ghost head = lines@;
                let mut k: usize = 0;
                while k < self.data.input_fields.len()
                    invariant
                        k <= self.data.input_fields.len(),
                        lines@.len() == 6 + k,
                        lines@[3] == head[3],
                    decreases self.data.input_fields.len() - k,
                {
                    let mut line = concat3("  ", self.data.input_fields[k].name.as_str(), " = ");
                    line.append(self.data.input_fields[k].value.as_str());
                    lines.push((line, DispatchOutputColor::White));
                    k = k + 1;
                }
                lines.push((String::new(), DispatchOutputColor::White));
                lines.push((
                    String::from_str("Press 'l' to watch run logs, 'v' to open in browser, or any other key to continue."),
                    DispatchOutputColor::Blue,
                ));
                self.ui.dispatch_output_lines = lines;
                self.ui.output = Some(String::from_str("dispatch_success"));
                self.ui.output_is_success = true;
                self.ui.output_is_error = false;
            },
            Err(e) => {
                self.show_error(concat("Error dispatching workflow: ", e.as_str()));
                self.ui.output_is_success = false;
            },
        }
        self.ui.modal = Modal::PostDispatchPrompt;
    }

    /// Takes the outcome of running the selected preset: on success the
    /// post-dispatch prompt opens, on failure the modal closes with the error.
    pub fn run_replay(&mut self, outcome: Result<(), String>)
        ensures
            panels_kept(*old(self), *final(self)),
            old(self).wf() ==> final(self).wf(),
            outcome is Ok ==> final(self).ui.modal is PostDispatchPrompt && !final(self).ui.output_is_error
                && final(self).ui.output_is_success && final(self).ui.dispatch_output_lines@.len() == 0,
            outcome is Ok && crate::event::replay_command_of(*old(self)) is Some ==> final(self).ui.output is Some
                && final(self).ui.output->0@ == replay_report(
                    crate::event::replay_command_of(*old(self))->0,
                    old(self).data.replays_list@[old(self).ui.modal->Replays_selected as int]@.inputs,
                ),
            match outcome {
                Err(e) => final(self).ui.modal is Closed && final(self).ui.output_is_error && final(self).ui.output is Some
                    && final(self).ui.output->0@ == "Error running replay: "@ + e@,
                Ok(_) => true,
            },
            final(self).data == old(self).data,
            final(self).config == old(self).config,
            final(self).ui.focus == old(self).ui.focus,
    {
        match outcome {
            Ok(()) => {
                let mut msg = String::from_str("\u{2713} Replay dispatched!\n\nCommand:\n  ");
                let mut inputs = String::new();
                match self.replay_command() {
                    Ok((_args, p)) => {
                        msg.append(p.as_str());
                        let k = match self.ui.modal {
                            Modal::Replays { selected } => selected,
                            _ => 0,
                        };
                        if k < self.data.replays_list.len() {
                            let lines = input_lines(&self.data.replays_list[k].inputs);
                            inputs = join(&lines, "\n");
                        }
                    },
                    Err(_) => {},
                }
                msg.append("\n\nInputs:\n");
                msg.append(inputs.as_str());
                msg.append("\n\nPress 'l' to watch run logs, 'v' to open in browser, or any other key to continue.");
                proof {
                    if crate::event::replay_command_of(*old(self)) is Some {
                        assert(msg@ =~= replay_report(
                            crate::event::replay_command_of(*old(self))->0,
                            old(self).data.replays_list@[old(self).ui.modal->Replays_selected as int]@.inputs,
                        ));
                    }
                }
                self.show_info(msg);
                self.ui.output_is_success = true;
                self.ui.dispatch_output_lines = Vec::new();
                self.ui.modal = Modal::PostDispatchPrompt;
            },
            Err(e) => {
                self.show_error(concat("Error running replay: ", e.as_str()));
                self.ui.modal = Modal::Closed;
            },
        }
    }

    /// Takes the latest run's id, status, conclusion and logs: they are shown
    /// and the id is kept for opening the run; the modal stays as it is so
    /// that the fetch can be retried.
    pub fn watch_workflow_logs(&mut self, fetched: Result<(u64, String, String, String), String>)
        ensures
            panels_kept(*old(self), *final(self)),
            old(self).wf() ==> final(self).wf(),
            match fetched {
                Ok(d) => final(self).ui.last_run_id == Some(d.0) && !final(self).ui.output_is_error
                    && final(self).ui.output is Some && final(self).ui.output->0@ == run_report(d.0, d.1@, d.2@, d.3@),
                Err(e) => final(self).ui.last_run_id == old(self).ui.last_run_id && final(self).ui.output_is_error
                    && final(self).ui.output is Some && final(self).ui.output->0@ == "Error fetching logs: "@ + e@
                        + "\n\nPress 'l' to retry, 'v' to open in browser, or any other key to dismiss."@,
            },
            final(self).ui.modal == old(self).ui.modal,
            final(self).data == old(self).data,
            final(self).config == old(self).config,
            final(self).ui.focus == old(self).ui.focus,
    {
        match fetched {
            Ok((run_id, status, conclusion, logs)) => {
                let id = decimal_string(run_id);
                let mut msg = concat3("Run #", id.as_str(), " | status: ");
                msg.append(status.as_str());
                msg.append(" | conclusion: ");
                msg.append(conclusion.as_str());
                msg.append("\n");
                let rule = repeat_char('\u{2500}', 60);
                msg.append(rule.as_str());
                msg.append("\n\n");
                msg.append(logs.as_str());
                msg.append("\n\nPress 'l' to refresh logs, 'v' to open in browser, or any other key to dismiss.");
                assert(msg@ =~= run_report(run_id, status@, conclusion@, logs@));
                self.ui.last_run_id = Some(run_id);
                self.show_info(msg);
            },
            Err(e) => {
                let msg = concat3(
                    "Error fetching logs: ",
                    e.as_str(),
                    "\n\nPress 'l' to retry, 'v' to open in browser, or any other key to dismiss.",
                );
                self.show_error(msg);
            },
        }
        self.ui.output_is_success = false;
    }
}

} // verus!
