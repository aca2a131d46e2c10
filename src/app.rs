//! The application state that the event loop owns, and the operations on it
//! that do not involve input events.
use crate::config::{Config, ReplayConfig};
use crate::domain::{InputField, Repo, Workflow};
use crate::selection::{filter_indices, filtered, identity, identity_indices, resolve_selection, resolved};
use vstd::prelude::*;

verus! {

/// The panels that can hold input focus, in ring order.
#[derive(Debug, Clone, Copy, PartialEq, Eq, Structural)]
pub enum Focus {
    Repo,
    Branches,
    Workflows,
    Inputs,
    Output,
}

/// The colour of a line of the dispatch report.
#[derive(Debug, Clone, Copy, PartialEq, Eq, Structural)]
pub enum DispatchOutputColor {
    Green,
    Yellow,
    White,
    Blue,
}

/// The single modal overlay that is active, with the buffers it owns.
#[derive(Debug)]
pub enum Modal {
    Closed,
    /// Adding a repository: the two text buffers and which one has focus.
    AddRepo { owner: String, name: String, focus_owner: bool },
    /// Editing workflow inputs: the selected field and whether it is being typed into.
    Inputs { selected: usize, editing: bool },
    /// Confirming a dispatch: the command that `y` runs and its preview.
    ConfirmDispatch { args: Vec<String>, preview: String },
    /// Browsing the replay presets of the selected repository.
    Replays { selected: usize },
    Help,
    /// Right after a dispatch: offers to fetch the run's logs or open it.
    PostDispatchPrompt,
}

/// The collections that the panels show.
#[derive(Debug)]
pub struct AppData {
    pub repos: Vec<Repo>,
    /// Branches of the selected repository.
    pub branches: Vec<String>,
    pub workflows: Vec<Workflow>,
    /// One display line per input of the selected workflow.
    pub inputs: Vec<String>,
    pub input_fields: Vec<InputField>,
    pub replays_list: Vec<ReplayConfig>,
}

/// Selection, focus, output and overlay state.
#[derive(Debug)]
pub struct UiState {
    /// Selected visible positions of the panels.
    pub repos_sel: Option<usize>,
    pub branches_sel: Option<usize>,
    pub workflows_sel: Option<usize>,
    pub inputs_sel: Option<usize>,
    pub focus: Focus,
    pub output: Option<String>,
    pub output_is_error: bool,
    pub output_is_success: bool,
    pub dispatch_output_lines: Vec<(String, DispatchOutputColor)>,
    pub modal: Modal,
    pub last_run_id: Option<u64>,
    pub search_active: bool,
    pub search_query: String,
    /// Visible position to backing index, per filtered panel.
    pub filtered_repo_indices: Vec<usize>,
    pub filtered_branch_indices: Vec<usize>,
    pub filtered_workflow_indices: Vec<usize>,
}

/// The whole state of the console.
#[derive(Debug)]
pub struct AppState {
    pub config: Config,
    pub data: AppData,
    pub ui: UiState,
}

/// The panel after `f` in the ring.
pub open spec fn focus_after(f: Focus) -> Focus {
    match f {
        Focus::Repo => Focus::Branches,
        Focus::Branches => Focus::Workflows,
        Focus::Workflows => Focus::Inputs,
        Focus::Inputs => Focus::Output,
        Focus::Output => Focus::Repo,
    }
}

/// The panel before `f` in the ring.
pub open spec fn focus_before(f: Focus) -> Focus {
    match f {
        Focus::Repo => Focus::Output,
        Focus::Branches => Focus::Repo,
        Focus::Workflows => Focus::Branches,
        Focus::Inputs => Focus::Workflows,
        Focus::Output => Focus::Inputs,
    }
}

impl Focus {
    /// The next panel in the ring.
    pub fn next(self) -> (r: Focus)
        ensures
            r == focus_after(self),
    {
        match self {
            Focus::Repo => Focus::Branches,
            Focus::Branches => Focus::Workflows,
            Focus::Workflows => Focus::Inputs,
            Focus::Inputs => Focus::Output,
            Focus::Output => Focus::Repo,
        }
    }

    /// The previous panel in the ring.
    pub fn previous(self) -> (r: Focus)
        ensures
            r == focus_before(self),
    {
        match self {
            Focus::Repo => Focus::Output,
            Focus::Branches => Focus::Repo,
            Focus::Workflows => Focus::Branches,
            Focus::Inputs => Focus::Workflows,
            Focus::Output => Focus::Inputs,
        }
    }
}

/// Going forward then back (or back then forward) returns to the same panel,
/// and five steps forward go round the ring.
pub proof fn lemma_focus_ring(f: Focus)
    ensures
        focus_before(focus_after(f)) == f,
        focus_after(focus_before(f)) == f,
        focus_after(focus_after(focus_after(focus_after(focus_after(f))))) == f,
{
}

/// The labels the repository panel is filtered on.
pub open spec fn repo_labels(repos: Seq<Repo>) -> Seq<Seq<char>> {
    repos.map_values(|r: Repo| r.name@)
}

/// The labels the workflow panel is filtered on.
pub open spec fn workflow_labels(ws: Seq<Workflow>) -> Seq<Seq<char>> {
    ws.map_values(|w: Workflow| w.name@)
}

/// The position a panel selects after its mapping is recomputed.
pub open spec fn reset_position(map: Seq<usize>) -> Option<usize> {
    if map.len() == 0 {
        None
    } else {
        Some(0usize)
    }
}

/// A mapping of visible positions to distinct indices of a backing
/// collection of `n` items.
pub open spec fn mapping_valid(m: Seq<usize>, n: nat) -> bool {
    &&& m.no_duplicates()
    &&& m.len() <= n
    &&& forall|k: int| 0 <= k < m.len() ==> m[k] < n
}

/// A selection in a list of `n` visible items: none when the list is empty,
/// else one of its positions.
pub open spec fn position_valid(sel: Option<usize>, n: nat) -> bool {
    if n == 0 {
        sel is None
    } else {
        sel is Some && sel->0 < n
    }
}

/// The selection kept by position when a list of `len` items is restored:
/// a selected position stays; with none selected, the first item when there
/// is one.
pub open spec fn kept_position(sel: Option<usize>, len: nat) -> Option<usize> {
    match sel {
        Some(p) => Some(p),
        None => reset_position(identity(len)),
    }
}

/// The panels, their selections and the search prompt are as they were.
pub open spec fn panels_kept(old: AppState, new: AppState) -> bool {
    &&& new.ui.focus == old.ui.focus
    &&& new.ui.search_active == old.ui.search_active
    &&& new.ui.search_query == old.ui.search_query
    &&& new.ui.repos_sel == old.ui.repos_sel
    &&& new.ui.branches_sel == old.ui.branches_sel
    &&& new.ui.workflows_sel == old.ui.workflows_sel
    &&& new.ui.inputs_sel == old.ui.inputs_sel
    &&& new.ui.filtered_repo_indices == old.ui.filtered_repo_indices
    &&& new.ui.filtered_branch_indices == old.ui.filtered_branch_indices
    &&& new.ui.filtered_workflow_indices == old.ui.filtered_workflow_indices
}

/// `new` is `old` after the focused panel's mapping was recomputed for the
/// current query, and its selection reset; nothing else changed.
pub open spec fn search_applied(old: AppState, new: AppState) -> bool {
    &&& new.data == old.data
    &&& new.config == old.config
    &&& new.ui.focus == old.ui.focus
    &&& new.ui.search_query == old.ui.search_query
    &&& new.ui.search_active == old.ui.search_active
    &&& new.ui.modal == old.ui.modal
    &&& new.ui.inputs_sel == old.ui.inputs_sel
    &&& new.ui.output == old.ui.output
    &&& new.ui.output_is_error == old.ui.output_is_error
    &&& new.ui.output_is_success == old.ui.output_is_success
    &&& new.ui.dispatch_output_lines == old.ui.dispatch_output_lines
    &&& new.ui.last_run_id == old.ui.last_run_id
    &&& (old.ui.focus is Repo ==> {
        &&& filtered(repo_labels(old.data.repos@), old.ui.search_query@, new.ui.filtered_repo_indices@)
        &&& new.ui.repos_sel == reset_position(new.ui.filtered_repo_indices@)
        &&& mapping_valid(new.ui.filtered_repo_indices@, old.data.repos@.len())
    })
    &&& (!(old.ui.focus is Repo) ==> new.ui.filtered_repo_indices == old.ui.filtered_repo_indices && new.ui.repos_sel == old.ui.repos_sel)
    &&& (old.ui.focus is Branches ==> {
        &&& filtered(old.data.branches.deep_view(), old.ui.search_query@, new.ui.filtered_branch_indices@)
        &&& new.ui.branches_sel == reset_position(new.ui.filtered_branch_indices@)
        &&& mapping_valid(new.ui.filtered_branch_indices@, old.data.branches@.len())
    })
    &&& (!(old.ui.focus is Branches) ==> new.ui.filtered_branch_indices == old.ui.filtered_branch_indices && new.ui.branches_sel == old.ui.branches_sel)
    &&& (old.ui.focus is Workflows ==> {
        &&& filtered(workflow_labels(old.data.workflows@), old.ui.search_query@, new.ui.filtered_workflow_indices@)
        &&& new.ui.workflows_sel == reset_position(new.ui.filtered_workflow_indices@)
        &&& mapping_valid(new.ui.filtered_workflow_indices@, old.data.workflows@.len())
    })
    &&& (!(old.ui.focus is Workflows) ==> new.ui.filtered_workflow_indices == old.ui.filtered_workflow_indices && new.ui.workflows_sel == old.ui.workflows_sel)
}

/// Applying an unchanged query again yields an identical mapping and selection.
pub proof fn lemma_search_idempotent(s1: AppState, s2: AppState, s3: AppState)
    requires
        search_applied(s1, s2),
        search_applied(s2, s3),
    ensures
        s3.ui.filtered_repo_indices@ == s2.ui.filtered_repo_indices@,
        s3.ui.filtered_branch_indices@ == s2.ui.filtered_branch_indices@,
        s3.ui.filtered_workflow_indices@ == s2.ui.filtered_workflow_indices@,
        s3.ui.repos_sel == s2.ui.repos_sel,
        s3.ui.branches_sel == s2.ui.branches_sel,
        s3.ui.workflows_sel == s2.ui.workflows_sel,
{
    let q = s1.ui.search_query@;
    if s1.ui.focus is Repo {
        crate::selection::lemma_filter_deterministic(repo_labels(s1.data.repos@), q, s2.ui.filtered_repo_indices@, s3.ui.filtered_repo_indices@);
    }
    if s1.ui.focus is Branches {
        crate::selection::lemma_filter_deterministic(s1.data.branches.deep_view(), q, s2.ui.filtered_branch_indices@, s3.ui.filtered_branch_indices@);
    }
    if s1.ui.focus is Workflows {
        crate::selection::lemma_filter_deterministic(workflow_labels(s1.data.workflows@), q, s2.ui.filtered_workflow_indices@, s3.ui.filtered_workflow_indices@);
    }
}

/// In a well-formed state each panel resolves to a backing item exactly when
/// its visible list is non-empty.
pub proof fn lemma_selection_resolves(s: AppState)
    requires
        s.wf(),
    ensures
        s.selected_repo() is Some <==> s.ui.filtered_repo_indices@.len() > 0,
        s.selected_branch() is Some <==> s.ui.filtered_branch_indices@.len() > 0,
        s.selected_workflow() is Some <==> s.ui.filtered_workflow_indices@.len() > 0,
{
}

/// The names of the repositories, in order.
pub fn repo_names(repos: &Vec<Repo>) -> (r: Vec<String>)
    ensures
        r.deep_view() == repo_labels(repos@),
{
    let mut r: Vec<String> = Vec::new();
    let mut k: usize = 0;
    while k < repos.len()
        invariant
            k <= repos.len(),
            r.deep_view() == repo_labels(repos@.subrange(0, k as int)),
        decreases repos.len() - k,
    {
        let ghost pre = r.deep_view();
        r.push(repos[k].name.clone());
        assert(r.deep_view() =~= pre.push(repos@[k as int].name@));
        assert(repo_labels(repos@.subrange(0, k + 1)) =~= repo_labels(repos@.subrange(0, k as int)).push(repos@[k as int].name@));
        k = k + 1;
    }
    assert(repos@.subrange(0, k as int) =~= repos@);
    r
}

/// The file names of the workflows, in order.
pub fn workflow_names(ws: &Vec<Workflow>) -> (r: Vec<String>)
    ensures
        r.deep_view() == workflow_labels(ws@),
{
    let mut r: Vec<String> = Vec::new();
    let mut k: usize = 0;
    while k < ws.len()
        invariant
            k <= ws.len(),
            r.deep_view() == workflow_labels(ws@.subrange(0, k as int)),
        decreases ws.len() - k,
    {
        let ghost pre = r.deep_view();
        r.push(ws[k].name.clone());
        assert(r.deep_view() =~= pre.push(ws@[k as int].name@));
        assert(workflow_labels(ws@.subrange(0, k + 1)) =~= workflow_labels(ws@.subrange(0, k as int)).push(ws@[k as int].name@));
        k = k + 1;
    }
    assert(ws@.subrange(0, k as int) =~= ws@);
    r
}

fn first_or_none(len: usize) -> (r: Option<usize>)
    ensures
        r == (if len == 0 { None } else { Some(0usize) }),
{
    if len == 0 {
        None
    } else {
        Some(0)
    }
}

/// The selection kept by position when a list of `len` items is restored.
pub fn keep_selection(sel: Option<usize>, len: usize) -> (r: Option<usize>)
    ensures
        r == kept_position(sel, len as nat),
{
    match sel {
        Some(p) => Some(p),
        None => first_or_none(len),
    }
}

/// The identity mapping lists distinct indices of its collection.
pub proof fn lemma_identity_valid(n: nat)
    requires
        n <= usize::MAX,
    ensures
        mapping_valid(identity(n), n),
{
    assert forall|a: int, b: int| 0 <= a < b < identity(n).len() implies identity(n)[a] != identity(n)[b] by {}
}

impl AppState {
    /// The invariant of the state: every mapping lists distinct backing
    /// indices; a selection is none exactly when its list is empty, else a
    /// position of it; the modal's positions lie within their lists.
    pub open spec fn wf(&self) -> bool {
        &&& mapping_valid(self.ui.filtered_repo_indices@, self.data.repos@.len())
        &&& mapping_valid(self.ui.filtered_branch_indices@, self.data.branches@.len())
        &&& mapping_valid(self.ui.filtered_workflow_indices@, self.data.workflows@.len())
        &&& position_valid(self.ui.repos_sel, self.ui.filtered_repo_indices@.len())
        &&& position_valid(self.ui.branches_sel, self.ui.filtered_branch_indices@.len())
        &&& position_valid(self.ui.workflows_sel, self.ui.filtered_workflow_indices@.len())
        &&& position_valid(self.ui.inputs_sel, self.data.inputs@.len())
        &&& (self.ui.modal is Inputs && self.data.input_fields@.len() > 0 ==> self.ui.modal->Inputs_selected < self.data.input_fields@.len())
        &&& (self.ui.modal is Replays && self.data.replays_list@.len() > 0 ==> self.ui.modal->Replays_selected < self.data.replays_list@.len())
    }

    /// The state at start-up, showing the repositories saved in `config`.
    pub fn new(config: Config) -> (r: AppState)
        ensures
            repo_labels(r.data.repos@) == crate::config::repo_names(config@),
            r.ui.filtered_repo_indices@ == identity(r.data.repos@.len()),
            r.ui.repos_sel == reset_position(r.ui.filtered_repo_indices@),
            r.ui.branches_sel is None && r.ui.workflows_sel is None && r.ui.inputs_sel is None,
            r.ui.focus is Repo,
            r.ui.modal is Closed,
            !r.ui.search_active,
            r.config@ == config@,
            r.wf(),
            forall|i: int| 0 <= i < r.data.repos@.len() ==> (#[trigger] r.data.repos@[i]).branches@.len() == 0
                && r.data.repos@[i].workflows@.len() == 0,
            r.data.branches@.len() == 0 && r.data.workflows@.len() == 0 && r.data.inputs@.len() == 0,
            r.data.input_fields@.len() == 0 && r.data.replays_list@.len() == 0,
            r.ui.last_run_id is None,
            r.ui.search_query@.len() == 0,
    {
        let mut repos: Vec<Repo> = Vec::new();
        let mut k: usize = 0;
        while k < config.repos.len()
            invariant
                k <= config.repos.len(),
                repo_labels(repos@) == crate::config::repo_names(config@).subrange(0, k as int),
                forall|i: int| 0 <= i < repos@.len() ==> (#[trigger] repos@[i]).branches@.len() == 0
                    && repos@[i].workflows@.len() == 0,
            decreases config.repos.len() - k,
        {
            let ghost pre = repos@;
            repos.push(Repo { name: config.repos[k].name.clone(), branches: Vec::new(), workflows: Vec::new() });
            assert(repo_labels(repos@) =~= repo_labels(pre).push(config.repos@[k as int].name@));
            assert(crate::config::repo_names(config@).subrange(0, k + 1) =~= crate::config::repo_names(config@).subrange(0, k as int).push(config.repos@[k as int].name@));
            k = k + 1;
        }
        assert(crate::config::repo_names(config@).subrange(0, k as int) =~= crate::config::repo_names(config@));
        let filtered_repo_indices = identity_indices(repos.len());
        let repos_sel = first_or_none(repos.len());
        proof {
            lemma_identity_valid(repos@.len());
            lemma_identity_valid(0);
            assert(Seq::<usize>::empty() =~= identity(0));
        }
        let output = if repos.len() > 0 {
            String::from_str("Ready to dispatch workflows...\n\nSelect a repo and press Enter to load branches.\nPress 'a' to add a new repo, '?' for all keybindings.")
        } else {
            String::from_str("Welcome to Lazy-Dispatchrr!\n\nPress 'a' to add a repo, '?' for all keybindings.")
        };
        AppState {
            config,
            data: AppData {
                repos,
                branches: Vec::new(),
                workflows: Vec::new(),
                inputs: Vec::new(),
                input_fields: Vec::new(),
                replays_list: Vec::new(),
            },
            ui: UiState {
                repos_sel,
                branches_sel: None,
                workflows_sel: None,
                inputs_sel: None,
                focus: Focus::Repo,
                output: Some(output),
                output_is_error: false,
                output_is_success: false,
                dispatch_output_lines: Vec::new(),
                modal: Modal::Closed,
                last_run_id: None,
                search_active: false,
                search_query: String::new(),
                filtered_repo_indices,
                filtered_branch_indices: Vec::new(),
                filtered_workflow_indices: Vec::new(),
            },
        }
    }

    /// The backing index of the selected repository.
    pub open spec fn selected_repo(&self) -> Option<usize> {
        resolved(self.ui.repos_sel, self.ui.filtered_repo_indices@, self.data.repos@.len())
    }

    /// The backing index of the selected branch.
    pub open spec fn selected_branch(&self) -> Option<usize> {
        resolved(self.ui.branches_sel, self.ui.filtered_branch_indices@, self.data.branches@.len())
    }

    /// The backing index of the selected workflow.
    pub open spec fn selected_workflow(&self) -> Option<usize> {
        resolved(self.ui.workflows_sel, self.ui.filtered_workflow_indices@, self.data.workflows@.len())
    }

    /// The backing index of the selected repository; `None` when nothing, or
    /// a stale position, is selected.
    pub fn selected_repo_real_index(&self) -> (r: Option<usize>)
        ensures
            r == self.selected_repo(),
            r is Some ==> r->0 < self.data.repos@.len(),
    {
        resolve_selection(self.ui.repos_sel, &self.ui.filtered_repo_indices, self.data.repos.len())
    }

    /// The backing index of the selected branch; `None` when nothing, or a
    /// stale position, is selected.
    pub fn selected_branch_real_index(&self) -> (r: Option<usize>)
        ensures
            r == self.selected_branch(),
            r is Some ==> r->0 < self.data.branches@.len(),
    {
        resolve_selection(self.ui.branches_sel, &self.ui.filtered_branch_indices, self.data.branches.len())
    }

    /// The backing index of the selected workflow; `None` when nothing, or a
    /// stale position, is selected.
    pub fn selected_workflow_real_index(&self) -> (r: Option<usize>)
        ensures
            r == self.selected_workflow(),
            r is Some ==> r->0 < self.data.workflows@.len(),
    {
        resolve_selection(self.ui.workflows_sel, &self.ui.filtered_workflow_indices, self.data.workflows.len())
    }

    /// Re-filters the focused panel on the current query and resets its selection.
    pub fn update_search_filter(&mut self)
        ensures
            search_applied(*old(self), *final(self)),
            old(self).wf() ==> final(self).wf(),
    {
        match self.ui.focus {
            Focus::Repo => {
                let labels = repo_names(&self.data.repos);
                let m = filter_indices(&labels, self.ui.search_query.as_str());
                self.ui.repos_sel = first_or_none(m.len());
                self.ui.filtered_repo_indices = m;
            },
            Focus::Branches => {
                let m = filter_indices(&self.data.branches, self.ui.search_query.as_str());
                self.ui.branches_sel = first_or_none(m.len());
                self.ui.filtered_branch_indices = m;
            },
            Focus::Workflows => {
                let labels = workflow_names(&self.data.workflows);
                let m = filter_indices(&labels, self.ui.search_query.as_str());
                self.ui.workflows_sel = first_or_none(m.len());
                self.ui.filtered_workflow_indices = m;
            },
            _ => {},
        }
    }

    /// Ends the search and restores every panel's full list, keeping the
    /// selected positions.
    pub fn reset_search(&mut self)
        ensures
            !final(self).ui.search_active,
            final(self).ui.search_query@.len() == 0,
            final(self).ui.filtered_repo_indices@ == identity(old(self).data.repos@.len()),
            final(self).ui.filtered_branch_indices@ == identity(old(self).data.branches@.len()),
            final(self).ui.filtered_workflow_indices@ == identity(old(self).data.workflows@.len()),
            final(self).data == old(self).data,
            final(self).config == old(self).config,
            final(self).ui.modal == old(self).ui.modal,
            final(self).ui.focus == old(self).ui.focus,
            final(self).ui.repos_sel == kept_position(old(self).ui.repos_sel, old(self).data.repos@.len()),
            final(self).ui.branches_sel == kept_position(old(self).ui.branches_sel, old(self).data.branches@.len()),
            final(self).ui.workflows_sel == kept_position(old(self).ui.workflows_sel, old(self).data.workflows@.len()),
            final(self).ui.inputs_sel == old(self).ui.inputs_sel,
            final(self).ui.output == old(self).ui.output,
            final(self).ui.output_is_error == old(self).ui.output_is_error,
            final(self).ui.output_is_success == old(self).ui.output_is_success,
            final(self).ui.dispatch_output_lines == old(self).ui.dispatch_output_lines,
            final(self).ui.last_run_id == old(self).ui.last_run_id,
            old(self).wf() ==> final(self).wf(),
    {
        self.ui.search_active = false;
        self.ui.search_query = String::new();
        self.ui.repos_sel = keep_selection(self.ui.repos_sel, self.data.repos.len());
        self.ui.branches_sel = keep_selection(self.ui.branches_sel, self.data.branches.len());
        self.ui.workflows_sel = keep_selection(self.ui.workflows_sel, self.data.workflows.len());
        self.ui.filtered_repo_indices = identity_indices(self.data.repos.len());
        self.ui.filtered_branch_indices = identity_indices(self.data.branches.len());
        self.ui.filtered_workflow_indices = identity_indices(self.data.workflows.len());
        proof {
            lemma_identity_valid(self.data.repos@.len());
            lemma_identity_valid(self.data.branches@.len());
            lemma_identity_valid(self.data.workflows@.len());
        }
    }
}

} // verus!
