//! Routing of key presses: the active modal, else the search prompt, else the
//! focused panel receives each one.
use crate::actions::{repo_url, run_url, Action};
use crate::app::{focus_after, focus_before, panels_kept, reset_position, AppState, Focus, Modal, UiState};
use crate::text::split_first;
use crate::dispatch::preview_of;
use crate::editor::{cycle_choice_backward, cycle_choice_forward, erase_char, type_char};
use crate::selection::{identity, next_position, previous_position, select_next, select_previous};
use crate::text::{concat, drop_last_char, push_char, str_eq};
use vstd::prelude::*;

verus! {

/// The keys the console tells apart.
#[derive(Debug, Clone, Copy, PartialEq, Eq, Structural)]
pub enum KeyCode {
    Char(char),
    Enter,
    Esc,
    Tab,
    BackTab,
    Backspace,
    Up,
    Down,
    Other,
}

/// A key press, with whether Control was held.
#[derive(Debug, Clone, Copy, PartialEq, Eq, Structural)]
pub struct KeyPress {
    pub code: KeyCode,
    pub ctrl: bool,
}

/// The key is character `c`.
pub open spec fn is_char(k: KeyPress, c: char) -> bool {
    k.code == KeyCode::Char(c)
}

/// "Move down": `j` or the down arrow.
pub open spec fn is_down(k: KeyPress) -> bool {
    is_char(k, 'j') || k.code is Down
}

/// "Move up": `k` or the up arrow.
pub open spec fn is_up(k: KeyPress) -> bool {
    is_char(k, 'k') || k.code is Up
}

fn key_is(k: KeyPress, c: char) -> (r: bool)
    ensures
        r == is_char(k, c),
{
    match k.code {
        KeyCode::Char(d) => d == c,
        _ => false,
    }
}

fn key_down(k: KeyPress) -> (r: bool)
    ensures
        r == is_down(k),
{
    key_is(k, 'j') || match k.code {
        KeyCode::Down => true,
        _ => false,
    }
}

fn key_up(k: KeyPress) -> (r: bool)
    ensures
        r == is_up(k),
{
    key_is(k, 'k') || match k.code {
        KeyCode::Up => true,
        _ => false,
    }
}

/// The modal that a key press leaves active, for each modal it meets.
pub open spec fn modal_step(old: AppState, key: KeyPress, new: AppState, a: Action) -> bool {
    match old.ui.modal {
        Modal::Help => new.ui.modal is Closed && a is Nothing,
        Modal::AddRepo { owner, name, focus_owner } => if key.code is Esc {
            new.ui.modal is Closed && a is Nothing
        } else if key.code is Enter {
            if owner@.len() == 0 || name@.len() == 0 {
                new.ui.modal == old.ui.modal && a is Nothing && new.ui.output_is_error
            } else {
                new.ui.modal is Closed && a is AddRepo && a->AddRepo_owner@ == owner@ && a->AddRepo_name@ == name@
            }
        } else {
            new.ui.modal is AddRepo && a is Nothing
        },
        Modal::ConfirmDispatch { args, preview } => if is_char(key, 'y') || is_char(key, 'Y') {
            new.ui.modal is PostDispatchPrompt && a is Dispatch && a->Dispatch_args.deep_view() == args.deep_view()
        } else {
            new.ui.modal is Closed && a is Nothing && new.data == old.data
        },
        Modal::PostDispatchPrompt => if is_char(key, 'l') || is_char(key, 'L') {
            new.ui.modal is PostDispatchPrompt
        } else {
            new.ui.modal is Closed
        },
        Modal::Inputs { selected, editing } => if key.code is Esc {
            if editing {
                new.ui.modal == (Modal::Inputs { selected, editing: false })
            } else {
                new.ui.modal is Closed
            }
        } else if !editing && is_char(key, 'D') {
            match old.dispatch_command() {
                Some(c) => new.ui.modal is ConfirmDispatch && new.ui.modal->ConfirmDispatch_args.deep_view() == c
                    && new.ui.modal->ConfirmDispatch_preview@ == preview_of(c),
                None => new.ui.modal is Closed && new.ui.output_is_error,
            }
        } else {
            new.ui.modal is Inputs
        },
        Modal::Replays { selected } => if key.code is Esc {
            new.ui.modal is Closed
        } else {
            new.ui.modal is Replays || new.ui.modal is Closed
        },
        Modal::Closed => if old.ui.search_active {
            new.ui.modal is Closed
        } else if is_char(key, '?') {
            new.ui.modal is Help
        } else if is_char(key, 'a') {
            new.ui.modal is AddRepo
        } else if is_char(key, 'i') {
            new.ui.modal is Inputs || new.ui.modal is ConfirmDispatch || new.ui.modal is Closed
        } else if is_char(key, 'r') {
            new.ui.modal is Replays || new.ui.modal is Closed
        } else if key.code is Enter && (old.ui.focus is Inputs || old.ui.focus is Workflows) {
            new.ui.modal is ConfirmDispatch || new.ui.modal is Closed
        } else {
            new.ui.modal is Closed
        },
    }
}

/// The command that running the selected preset dispatches, when a preset,
/// a repository and a branch are selected.
pub open spec fn replay_command_of(s: AppState) -> Option<Seq<Seq<char>>> {
    if s.ui.modal is Replays && s.ui.modal->Replays_selected < s.data.replays_list@.len() && s.selected_repo() is Some
        && s.selected_branch() is Some {
        Some(
            crate::dispatch::command_args(
                s.selected_repo_name(),
                s.data.branches@[s.selected_branch()->0 as int]@,
                s.data.replays_list@[s.ui.modal->Replays_selected as int]@.workflow,
                s.data.replays_list@[s.ui.modal->Replays_selected as int]@.inputs,
            ),
        )
    } else {
        None
    }
}

/// The focused panel's mapping is the filter of its labels by the current
/// query, and its selection is reset.
pub open spec fn filter_current(s: AppState) -> bool {
    &&& s.ui.focus is Repo ==> crate::selection::filtered(crate::app::repo_labels(s.data.repos@), s.ui.search_query@, s.ui.filtered_repo_indices@)
        && s.ui.repos_sel == reset_position(s.ui.filtered_repo_indices@)
    &&& s.ui.focus is Branches ==> crate::selection::filtered(s.data.branches.deep_view(), s.ui.search_query@, s.ui.filtered_branch_indices@)
        && s.ui.branches_sel == reset_position(s.ui.filtered_branch_indices@)
    &&& s.ui.focus is Workflows ==> crate::selection::filtered(crate::app::workflow_labels(s.data.workflows@), s.ui.search_query@, s.ui.filtered_workflow_indices@)
        && s.ui.workflows_sel == reset_position(s.ui.filtered_workflow_indices@)
}

/// The selection of the focused panel moved one item down (or up), wrapping.
pub open spec fn moved(old: AppState, new: AppState, down: bool) -> bool {
    let step = |sel: Option<usize>, len: nat| if down { next_position(sel, len) } else { previous_position(sel, len) };
    &&& new.data == old.data
    &&& new.config == old.config
    &&& new.ui.modal == old.ui.modal
    &&& new.ui.focus == old.ui.focus
    &&& new.ui.search_active == old.ui.search_active
    &&& new.ui.search_query == old.ui.search_query
    &&& new.ui.repos_sel == (if old.ui.focus is Repo { step(old.ui.repos_sel, old.ui.filtered_repo_indices@.len()) } else { old.ui.repos_sel })
    &&& new.ui.branches_sel == (if old.ui.focus is Branches { step(old.ui.branches_sel, old.ui.filtered_branch_indices@.len()) } else { old.ui.branches_sel })
    &&& new.ui.workflows_sel == (if old.ui.focus is Workflows { step(old.ui.workflows_sel, old.ui.filtered_workflow_indices@.len()) } else { old.ui.workflows_sel })
    &&& new.ui.inputs_sel == (if old.ui.focus is Inputs { step(old.ui.inputs_sel, old.data.inputs@.len()) } else { old.ui.inputs_sel })
    &&& new.ui.filtered_repo_indices == old.ui.filtered_repo_indices
    &&& new.ui.filtered_branch_indices == old.ui.filtered_branch_indices
    &&& new.ui.filtered_workflow_indices == old.ui.filtered_workflow_indices
}

/// The effect of a key on the help overlay.
pub open spec fn help_step(old: AppState, key: KeyPress, new: AppState, a: Action) -> bool {
    &&& panels_kept(old, new)
    &&& new.data == old.data
    &&& new.config == old.config
}

/// The effect of a key on the add-repository modal's buffers.
pub open spec fn add_repo_step(old: AppState, key: KeyPress, new: AppState, a: Action) -> bool {
    &&& panels_kept(old, new)
    &&& key.code is Enter && (old.ui.modal->AddRepo_owner@.len() == 0 || old.ui.modal->AddRepo_name@.len() == 0) ==> new.ui.output is Some
        && new.ui.output->0@ == "Both owner and repo fields are required."@
    &&& new.data == old.data
    &&& new.config == old.config
    &&& ((key.code is Tab || key.code is BackTab) ==> new.ui.modal == (Modal::AddRepo {
        owner: old.ui.modal->AddRepo_owner,
        name: old.ui.modal->AddRepo_name,
        focus_owner: !old.ui.modal->AddRepo_focus_owner,
    }))
    &&& (forall|c: char| key.code == KeyCode::Char(c) ==> {
        let m = old.ui.modal;
        let n = new.ui.modal;
        &&& n is AddRepo
        &&& n->AddRepo_focus_owner == m->AddRepo_focus_owner
        &&& m->AddRepo_focus_owner ==> n->AddRepo_owner@ == m->AddRepo_owner@.push(c) && n->AddRepo_name == m->AddRepo_name
        &&& !m->AddRepo_focus_owner ==> n->AddRepo_name@ == m->AddRepo_name@.push(c) && n->AddRepo_owner == m->AddRepo_owner
    })
    &&& (key.code is Backspace ==> {
        let m = old.ui.modal;
        let n = new.ui.modal;
        &&& n is AddRepo
        &&& n->AddRepo_focus_owner == m->AddRepo_focus_owner
        &&& m->AddRepo_focus_owner && m->AddRepo_owner@.len() > 0 ==> n->AddRepo_owner@ == m->AddRepo_owner@.drop_last()
        &&& !m->AddRepo_focus_owner && m->AddRepo_name@.len() > 0 ==> n->AddRepo_name@ == m->AddRepo_name@.drop_last()
    })
}

/// The effect of a key on the dispatch confirmation.
pub open spec fn confirm_step(old: AppState, key: KeyPress, new: AppState, a: Action) -> bool {
    &&& panels_kept(old, new)
    &&& !(is_char(key, 'y') || is_char(key, 'Y')) ==> new.ui.output is Some && new.ui.output->0@ == "Dispatch cancelled."@
        && !new.ui.output_is_error
    &&& new.data == old.data
    &&& new.config == old.config
}

/// The effect of a key on the post-dispatch prompt.
pub open spec fn prompt_step(old: AppState, key: KeyPress, new: AppState, a: Action) -> bool {
    &&& panels_kept(old, new)
    &&& new.data == old.data
    &&& new.config == old.config
    &&& (is_char(key, 'l') || is_char(key, 'L') ==> if old.selected_repo() is Some && old.selected_workflow() is Some {
        &&& a is FetchLogs
        &&& a->FetchLogs_repo@ == old.selected_repo_name()
        &&& a->FetchLogs_workflow@ == old.data.workflows@[old.selected_workflow()->0 as int].name@
    } else {
        a is Nothing && new.ui.output_is_error
    })
    &&& (is_char(key, 'v') ==> if old.selected_repo() is Some && old.ui.last_run_id is Some {
        a is OpenUrl && a->OpenUrl_url@ == run_url(old.selected_repo_name(), old.ui.last_run_id->0)
    } else {
        a is Nothing && new.ui.output_is_error
    })
    &&& (!(is_char(key, 'l') || is_char(key, 'L') || is_char(key, 'v')) ==> a is Nothing)
}

/// The effect of a key on the inputs modal and the field editor.
pub open spec fn inputs_step(old: AppState, key: KeyPress, new: AppState, a: Action) -> bool {
    &&& panels_kept(old, new)
    &&& ({
        let sel = old.ui.modal->Inputs_selected;
        let editing = old.ui.modal->Inputs_editing;
        let fields = old.data.input_fields@;
        let n = fields.len();
        &&& key.code is Tab && sel < n && crate::editor::cycles(fields[sel as int]) ==> crate::editor::value_set(
            fields, new.data.input_fields@, sel as int,
            crate::editor::cycled_forward(fields[sel as int].options.deep_view(), fields[sel as int].value@))
        &&& key.code is BackTab && sel < n && crate::editor::cycles(fields[sel as int]) ==> crate::editor::value_set(
            fields, new.data.input_fields@, sel as int,
            crate::editor::cycled_backward(fields[sel as int].options.deep_view(), fields[sel as int].value@))
        &&& forall|c: char| editing && key.code == KeyCode::Char(c) && sel < n ==> crate::editor::value_set(
            fields, new.data.input_fields@, sel as int, crate::editor::typed(fields[sel as int], c))
        &&& editing && key.code is Backspace && sel < n ==> crate::editor::value_set(
            fields, new.data.input_fields@, sel as int, crate::editor::erased(fields[sel as int]))
        &&& !editing && is_down(key) ==> new.ui.modal == (Modal::Inputs {
            selected: next_position(Some(sel), n)->0, editing: false })
        &&& !editing && is_up(key) ==> new.ui.modal == (Modal::Inputs {
            selected: previous_position(Some(sel), n)->0, editing: false })
        &&& key.code is Enter && editing ==> new.ui.modal == (Modal::Inputs { selected: sel, editing: false })
        &&& key.code is Enter && !editing ==> new.ui.modal == (Modal::Inputs {
            selected: sel, editing: sel < n && !crate::domain::has_type(fields[sel as int], "choice"@) })
        &&& !editing && is_char(key, 'S') ==> (a is SaveConfig <==> (old.selected_repo() is Some
            && old.selected_workflow() is Some && crate::dispatch::captured(fields).len() > 0))
        &&& !(!editing && is_char(key, 'S')) ==> a is Nothing && new.config == old.config
        &&& !editing && is_char(key, 'S') && a is SaveConfig ==> new.config@ == crate::config::with_replay(
            old.config@,
            old.selected_repo_name(),
            crate::config::ReplayView {
                workflow: old.data.workflows@[old.selected_workflow()->0 as int].name@,
                description: crate::dispatch::description_of(crate::dispatch::captured(fields)),
                inputs: crate::dispatch::captured(fields),
            },
        )
        &&& (key.code is Tab || key.code is BackTab) && !(sel < n && crate::editor::cycles(fields[sel as int]))
            ==> new.data.input_fields@ == old.data.input_fields@
        &&& editing && (key.code is Char || key.code is Backspace) && sel >= n ==> new.data.input_fields@ == old.data.input_fields@
        &&& !(key.code is Esc || key.code is Enter || (!editing && (is_down(key) || is_up(key) || is_char(key, 'D'))))
            ==> new.ui.modal == old.ui.modal
        &&& !(key.code is Tab || key.code is BackTab || (editing && (key.code is Backspace || key.code is Char)))
            ==> new.data.input_fields == old.data.input_fields
    })
    &&& new.data.repos == old.data.repos
    &&& new.data.branches == old.data.branches
    &&& new.data.workflows == old.data.workflows
}

/// The effect of a key on the replays modal.
pub open spec fn replays_step(old: AppState, key: KeyPress, new: AppState, a: Action) -> bool {
    &&& panels_kept(old, new)
    &&& ({
        let sel = old.ui.modal->Replays_selected;
        let n = old.data.replays_list@.len();
        &&& is_down(key) ==> new.ui.modal == (Modal::Replays { selected: next_position(Some(sel), n)->0 })
        &&& is_up(key) ==> new.ui.modal == (Modal::Replays { selected: previous_position(Some(sel), n)->0 })
        &&& key.code is Enter ==> match replay_command_of(old) {
            Some(c) => a is DispatchReplay && a->DispatchReplay_args.deep_view() == c,
            None => a is Nothing && new.ui.modal is Closed && new.ui.output_is_error,
        }
        &&& is_char(key, 'd') ==> (a is SaveConfig <==> old.selected_repo() is Some)
        &&& is_char(key, 'd') && a is SaveConfig ==> new.config@ == crate::config::without_replay(
            old.config@, old.selected_repo_name(), sel as int)
        &&& !is_char(key, 'd') ==> new.config == old.config
    })
    &&& new.data.repos == old.data.repos
    &&& new.data.input_fields == old.data.input_fields
}

/// The effect of a key on the search prompt.
pub open spec fn search_step(old: AppState, key: KeyPress, new: AppState, a: Action) -> bool {
    &&& (a is Nothing)
    &&& new.data == old.data
    &&& new.config == old.config
    &&& new.ui.focus == old.ui.focus
    &&& (key.code is Esc ==> {
        &&& !new.ui.search_active
        &&& new.ui.search_query@.len() == 0
        &&& new.ui.filtered_repo_indices@ == identity(old.data.repos@.len())
        &&& new.ui.filtered_branch_indices@ == identity(old.data.branches@.len())
        &&& new.ui.filtered_workflow_indices@ == identity(old.data.workflows@.len())
        &&& old.ui.focus is Repo ==> new.ui.repos_sel == reset_position(new.ui.filtered_repo_indices@)
        &&& old.ui.focus is Branches ==> new.ui.branches_sel == reset_position(new.ui.filtered_branch_indices@)
        &&& old.ui.focus is Workflows ==> new.ui.workflows_sel == reset_position(new.ui.filtered_workflow_indices@)
    })
    &&& (key.code is Enter ==> !new.ui.search_active && new.ui.search_query == old.ui.search_query
        && new.ui.filtered_repo_indices == old.ui.filtered_repo_indices
        && new.ui.filtered_branch_indices == old.ui.filtered_branch_indices
        && new.ui.filtered_workflow_indices == old.ui.filtered_workflow_indices)
    &&& (key.code is Backspace ==> new.ui.search_active && filter_current(new)
        && (old.ui.search_query@.len() > 0 ==> new.ui.search_query@ == old.ui.search_query@.drop_last())
        && (old.ui.search_query@.len() == 0 ==> new.ui.search_query@.len() == 0))
    &&& (key.code is Up || (key.ctrl && is_char(key, 'k')) ==> moved(old, new, false))
    &&& (key.code is Down || (key.ctrl && is_char(key, 'j')) ==> moved(old, new, true))
    &&& (forall|c: char| key.code == KeyCode::Char(c) && !(key.ctrl && (c == 'j' || c == 'k')) ==> {
        &&& new.ui.search_active
        &&& new.ui.search_query@ == old.ui.search_query@.push(c)
        &&& filter_current(new)
    })
}

/// The effect of a key on the panels when no modal and no search is active.
pub open spec fn base_step(old: AppState, key: KeyPress, new: AppState, a: Action) -> bool {
    &&& key.code is Tab ==> new.data == old.data && new.config == old.config
        && new.ui == (UiState { focus: focus_after(old.ui.focus), ..old.ui })
    &&& key.code is BackTab ==> new.data == old.data && new.config == old.config
        && new.ui == (UiState { focus: focus_before(old.ui.focus), ..old.ui })
    &&& is_char(key, 'r') ==> a is Nothing && crate::actions::replays_opened(old, new)
    &&& key.code is Enter && old.ui.focus is Repo ==> if old.selected_repo() is Some && split_first(old.selected_repo_name(), '/') is Some {
        &&& a is LoadBranches
        &&& a->LoadBranches_index == old.selected_repo()->0
        &&& Some((a->LoadBranches_owner@, a->LoadBranches_name@)) == split_first(old.selected_repo_name(), '/')
    } else {
        a is Nothing && new.ui.output_is_error && new.ui.output is Some && new.ui.output->0@ == old.request_error(false)
    }
    &&& key.code is Enter && old.ui.focus is Branches ==> if old.selected_repo() is Some && old.selected_branch() is Some
        && split_first(old.selected_repo_name(), '/') is Some {
        &&& a is LoadWorkflows
        &&& Some((a->LoadWorkflows_owner@, a->LoadWorkflows_name@)) == split_first(old.selected_repo_name(), '/')
        &&& a->LoadWorkflows_branch@ == old.data.branches@[old.selected_branch()->0 as int]@
    } else {
        a is Nothing && new.ui.output_is_error && new.ui.output is Some && new.ui.output->0@ == old.request_error(true)
    }
    &&& key.code is Enter && old.ui.focus is Workflows ==> if old.selected_workflow() is Some && old.selected_repo() is Some {
        &&& a is LoadInputs
        &&& a->LoadInputs_repo@ == old.selected_repo_name()
        &&& a->LoadInputs_workflow@ == old.data.workflows@[old.selected_workflow()->0 as int].name@
        &&& match old.selected_branch() {
            Some(b) => a->LoadInputs_branch_ref is Some && a->LoadInputs_branch_ref->0@ == old.data.branches@[b as int]@,
            None => a->LoadInputs_branch_ref is None,
        }
    } else {
        a is Nothing && new.ui.output_is_error && new.ui.output is Some && new.ui.output->0@ == if old.selected_workflow() is None {
            "No workflow selected."@
        } else {
            "No repo selected."@
        }
    }
    &&& (!is_char(key, '/') ==> new.ui.search_active == old.ui.search_active)
    &&& (key.code is Esc || is_char(key, 'q') ==> a is Quit)
    &&& (key.code is Tab ==> new.ui.focus == focus_after(old.ui.focus))
    &&& (key.code is BackTab ==> new.ui.focus == focus_before(old.ui.focus))
    &&& (is_down(key) ==> moved(old, new, true))
    &&& (is_up(key) ==> moved(old, new, false))
    &&& (is_char(key, 'a') ==> new.ui.modal is AddRepo && new.ui.modal->AddRepo_owner@.len() == 0
        && new.ui.modal->AddRepo_name@.len() == 0 && new.ui.modal->AddRepo_focus_owner)
    &&& (is_char(key, 'i') && old.data.input_fields@.len() > 0 ==> new.ui.modal == (Modal::Inputs { selected: 0, editing: false }))
    &&& (is_char(key, 'i') && old.data.input_fields@.len() == 0 && old.data.workflows@.len() > 0 ==> match old.dispatch_command() {
        Some(c) => new.ui.modal is ConfirmDispatch && new.ui.modal->ConfirmDispatch_args.deep_view() == c,
        None => new.ui.modal is Closed && new.ui.output_is_error,
    })
    &&& (is_char(key, '/') && (old.ui.focus is Repo || old.ui.focus is Branches || old.ui.focus is Workflows)
        ==> new.ui.search_active && new.ui.search_query@.len() == 0)
    &&& (is_char(key, 'v') ==> if old.selected_repo() is Some {
        a is OpenUrl && a->OpenUrl_url@ == repo_url(old.selected_repo_name())
    } else {
        a is Nothing && new.ui.output_is_error
    })
    &&& (key.code is Enter && old.ui.focus is Repo ==> a is LoadBranches || (a is Nothing && new.ui.output_is_error))
    &&& (key.code is Enter && old.ui.focus is Branches ==> a is LoadWorkflows || (a is Nothing && new.ui.output_is_error))
    &&& (key.code is Enter && old.ui.focus is Workflows ==> a is LoadInputs || (a is Nothing && new.ui.output_is_error))
    &&& (key.code is Enter && old.ui.focus is Inputs ==> match old.dispatch_command() {
        Some(c) => new.ui.modal is ConfirmDispatch && new.ui.modal->ConfirmDispatch_args.deep_view() == c,
        None => new.ui.modal is Closed && new.ui.output_is_error && new.ui.focus is Output,
    })
    &&& (key.code is Enter ==> new.data == old.data)
    &&& new.config == old.config
}

impl AppState {
    /// Any key dismisses the help overlay.
    fn handle_help(&mut self, key: KeyPress) -> (a: Action)
        requires
            old(self).ui.modal is Help,
        ensures
            old(self).wf() ==> final(self).wf(),
            modal_step(*old(self), key, *final(self), a),
            help_step(*old(self), key, *final(self), a),
    {
        self.ui.modal = Modal::Closed;
        Action::Nothing
    }

    /// Keys of the add-repository modal: typing into and switching between
    /// the owner and name buffers, submitting and cancelling.
    fn handle_add_repo(&mut self, key: KeyPress) -> (a: Action)
        requires
            old(self).ui.modal is AddRepo,
        ensures
            old(self).wf() ==> final(self).wf(),
            modal_step(*old(self), key, *final(self), a),
            add_repo_step(*old(self), key, *final(self), a),
    {
        let (mut owner, mut name, focus_owner) = match &self.ui.modal {
            Modal::AddRepo { owner, name, focus_owner } => (owner.clone(), name.clone(), *focus_owner),
            _ => (String::new(), String::new(), true),
        };
        match key.code {
            KeyCode::Esc => {
                self.ui.modal = Modal::Closed;
                Action::Nothing
            },
            KeyCode::Tab | KeyCode::BackTab => {
                self.ui.modal = Modal::AddRepo { owner, name, focus_owner: !focus_owner };
                Action::Nothing
            },
            KeyCode::Enter => {
                if owner.as_str().unicode_len() == 0 || name.as_str().unicode_len() == 0 {
                    self.show_error(String::from_str("Both owner and repo fields are required."));
                    Action::Nothing
                } else {
                    self.ui.modal = Modal::Closed;
                    Action::AddRepo { owner, name }
                }
            },
            KeyCode::Backspace => {
                if focus_owner {
                    owner = drop_last_char(owner.as_str());
                } else {
                    name = drop_last_char(name.as_str());
                }
                self.ui.modal = Modal::AddRepo { owner, name, focus_owner };
                Action::Nothing
            },
            KeyCode::Char(c) => {
                if focus_owner {
                    push_char(&mut owner, c);
                } else {
                    push_char(&mut name, c);
                }
                self.ui.modal = Modal::AddRepo { owner, name, focus_owner };
                Action::Nothing
            },
            _ => {
                self.ui.modal = Modal::AddRepo { owner, name, focus_owner };
                Action::Nothing
            },
        }
    }

    /// `y` runs the confirmed command, exactly the one previewed; any other
    /// key cancels.
    fn handle_confirm(&mut self, key: KeyPress) -> (a: Action)
        requires
            old(self).ui.modal is ConfirmDispatch,
        ensures
            old(self).wf() ==> final(self).wf(),
            modal_step(*old(self), key, *final(self), a),
            confirm_step(*old(self), key, *final(self), a),
    {
        if key_is(key, 'y') || key_is(key, 'Y') {
            let args = match &self.ui.modal {
                Modal::ConfirmDispatch { args, preview: _ } => args.clone(),
                _ => Vec::new(),
            };
            proof {
                broadcast use vstd::std_specs::vec::vec_clone_deep_view_proof;
            }
            self.ui.modal = Modal::PostDispatchPrompt;
            Action::Dispatch { args }
        } else {
            self.ui.modal = Modal::Closed;
            self.show_info(String::from_str("Dispatch cancelled."));
            Action::Nothing
        }
    }
}

impl AppState {
    /// Moves the focused panel's selection one item down or up, wrapping.
    fn move_selection(&mut self, down: bool)
        ensures
            old(self).wf() ==> final(self).wf(),
            moved(*old(self), *final(self), down),
    {
        match self.ui.focus {
            Focus::Repo => {
                let n = self.ui.filtered_repo_indices.len();
                self.ui.repos_sel = if down { select_next(self.ui.repos_sel, n) } else { select_previous(self.ui.repos_sel, n) };
            },
            Focus::Branches => {
                let n = self.ui.filtered_branch_indices.len();
                self.ui.branches_sel = if down { select_next(self.ui.branches_sel, n) } else { select_previous(self.ui.branches_sel, n) };
            },
            Focus::Workflows => {
                let n = self.ui.filtered_workflow_indices.len();
                self.ui.workflows_sel = if down { select_next(self.ui.workflows_sel, n) } else { select_previous(self.ui.workflows_sel, n) };
            },
            Focus::Inputs => {
                let n = self.data.inputs.len();
                self.ui.inputs_sel = if down { select_next(self.ui.inputs_sel, n) } else { select_previous(self.ui.inputs_sel, n) };
            },
            Focus::Output => {},
        }
    }

    /// Keys of the post-dispatch prompt: `l` fetches the latest run's logs and
    /// keeps the prompt, `v` opens the run in the browser, any other key
    /// dismisses it.
    fn handle_prompt(&mut self, key: KeyPress) -> (a: Action)
        requires
            old(self).ui.modal is PostDispatchPrompt,
        ensures
            old(self).wf() ==> final(self).wf(),
            modal_step(*old(self), key, *final(self), a),
            prompt_step(*old(self), key, *final(self), a),
    {
        if key_is(key, 'l') || key_is(key, 'L') {
            let ri = self.selected_repo_real_index();
            let wi = self.selected_workflow_real_index();
            match (ri, wi) {
                (Some(r), Some(w)) => Action::FetchLogs {
                    repo: self.data.repos[r].name.clone(),
                    workflow: self.data.workflows[w].name.clone(),
                },
                (None, _) => {
                    self.show_error(String::from_str("Error fetching logs: No repo selected."));
                    Action::Nothing
                },
                _ => {
                    self.show_error(String::from_str("Error fetching logs: No workflow selected."));
                    Action::Nothing
                },
            }
        } else if key_is(key, 'v') {
            self.ui.modal = Modal::Closed;
            match self.open_run_in_browser() {
                Ok(url) => Action::OpenUrl { url },
                Err(e) => {
                    self.show_error(concat("Error opening browser: ", e.as_str()));
                    Action::Nothing
                },
            }
        } else {
            self.ui.modal = Modal::Closed;
            Action::Nothing
        }
    }

    /// Keys of the inputs modal: the field editor, and the two actions that
    /// dispatch or save the current values.
    fn handle_inputs(&mut self, key: KeyPress) -> (a: Action)
        requires
            old(self).ui.modal is Inputs,
        ensures
            old(self).wf() ==> final(self).wf(),
            modal_step(*old(self), key, *final(self), a),
            inputs_step(*old(self), key, *final(self), a),
    {
        let (sel, editing) = match self.ui.modal {
            Modal::Inputs { selected, editing } => (selected, editing),
            _ => (0, false),
        };
        match key.code {
            KeyCode::Tab => {
                cycle_choice_forward(&mut self.data.input_fields, sel);
                Action::Nothing
            },
            KeyCode::BackTab => {
                cycle_choice_backward(&mut self.data.input_fields, sel);
                Action::Nothing
            },
            KeyCode::Esc => {
                self.ui.modal = if editing { Modal::Inputs { selected: sel, editing: false } } else { Modal::Closed };
                Action::Nothing
            },
            KeyCode::Enter => {
                // a choice is changed by cycling, never typed into
                let typed_into = sel < self.data.input_fields.len()
                    && !str_eq(self.data.input_fields[sel].input_type.as_str(), "choice");
                self.ui.modal = Modal::Inputs { selected: sel, editing: !editing && typed_into };
                Action::Nothing
            },
            KeyCode::Backspace => {
                if editing {
                    erase_char(&mut self.data.input_fields, sel);
                }
                Action::Nothing
            },
            KeyCode::Down | KeyCode::Up => {
                if !editing {
                    let n = self.data.input_fields.len();
                    let next = if key_down(key) { select_next(Some(sel), n) } else { select_previous(Some(sel), n) };
                    self.ui.modal = Modal::Inputs { selected: match next { Some(i) => i, None => sel }, editing: false };
                }
                Action::Nothing
            },
            KeyCode::Char(c) => {
                if editing {
                    type_char(&mut self.data.input_fields, sel, c);
                    Action::Nothing
                } else if c == 'j' || c == 'k' {
                    let n = self.data.input_fields.len();
                    let next = if c == 'j' { select_next(Some(sel), n) } else { select_previous(Some(sel), n) };
                    self.ui.modal = Modal::Inputs { selected: match next { Some(i) => i, None => sel }, editing: false };
                    Action::Nothing
                } else if c == 'D' {
                    match self.build_dispatch_command() {
                        Ok((args, preview)) => {
                            self.ui.modal = Modal::ConfirmDispatch { args, preview };
                        },
                        Err(e) => {
                            self.ui.modal = Modal::Closed;
                            self.show_error(concat("Error: ", e.as_str()));
                        },
                    }
                    Action::Nothing
                } else if c == 'S' {
                    match self.save_replay() {
                        Ok(()) => Action::SaveConfig,
                        Err(e) => {
                            self.show_error(concat("Error saving replay: ", e.as_str()));
                            Action::Nothing
                        },
                    }
                } else {
                    Action::Nothing
                }
            },
            _ => Action::Nothing,
        }
    }
}

impl AppState {
    /// Keys of the replays modal: move through the presets, run or delete the
    /// selected one, close.
    fn handle_replays(&mut self, key: KeyPress) -> (a: Action)
        requires
            old(self).ui.modal is Replays,
        ensures
            old(self).wf() ==> final(self).wf(),
            modal_step(*old(self), key, *final(self), a),
            replays_step(*old(self), key, *final(self), a),
    {
        let sel = match self.ui.modal {
            Modal::Replays { selected } => selected,
            _ => 0,
        };
        if key_down(key) || key_up(key) {
            let n = self.data.replays_list.len();
            let next = if key_down(key) { select_next(Some(sel), n) } else { select_previous(Some(sel), n) };
            self.ui.modal = Modal::Replays { selected: match next { Some(i) => i, None => sel } };
            return Action::Nothing;
        }
        match key.code {
            KeyCode::Esc => {
                self.ui.modal = Modal::Closed;
                Action::Nothing
            },
            KeyCode::Enter => match self.replay_command() {
                Ok((args, _preview)) => Action::DispatchReplay { args },
                Err(e) => {
                    self.ui.modal = Modal::Closed;
                    self.show_error(concat("Error running replay: ", e.as_str()));
                    Action::Nothing
                },
            },
            KeyCode::Char('d') => match self.delete_replay() {
                Ok(()) => Action::SaveConfig,
                Err(e) => {
                    self.show_error(concat("Error deleting replay: ", e.as_str()));
                    Action::Nothing
                },
            },
            _ => Action::Nothing,
        }
    }

    /// Keys of the search prompt: edit the query, refiltering the focused
    /// panel on every change; move the selection; confirm or cancel.
    fn handle_search(&mut self, key: KeyPress) -> (a: Action)
        requires
            old(self).ui.modal is Closed,
            old(self).ui.search_active,
        ensures
            old(self).wf() ==> final(self).wf(),
            modal_step(*old(self), key, *final(self), a),
            search_step(*old(self), key, *final(self), a),
    {
        match key.code {
            KeyCode::Esc => {
                self.reset_search();
                match self.ui.focus {
                    Focus::Repo => {
                        self.ui.repos_sel = if self.data.repos.len() == 0 { None } else { Some(0) };
                    },
                    Focus::Branches => {
                        self.ui.branches_sel = if self.data.branches.len() == 0 { None } else { Some(0) };
                    },
                    Focus::Workflows => {
                        self.ui.workflows_sel = if self.data.workflows.len() == 0 { None } else { Some(0) };
                    },
                    _ => {},
                }
            },
            KeyCode::Enter => {
                self.ui.search_active = false;
            },
            KeyCode::Backspace => {
                self.ui.search_query = drop_last_char(self.ui.search_query.as_str());
                self.update_search_filter();
            },
            KeyCode::Up => self.move_selection(false),
            KeyCode::Down => self.move_selection(true),
            KeyCode::Char(c) => {
                if key.ctrl && c == 'k' {
                    self.move_selection(false);
                } else if key.ctrl && c == 'j' {
                    self.move_selection(true);
                } else {
                    push_char(&mut self.ui.search_query, c);
                    self.update_search_filter();
                }
            },
            _ => {},
        }
        Action::Nothing
    }

    /// Opens the dispatch confirmation for the current selection and input
    /// values, or shows why it cannot be built.
    fn open_confirmation(&mut self)
        ensures
            old(self).wf() ==> final(self).wf(),
            match old(self).dispatch_command() {
                Some(c) => final(self).ui.modal is ConfirmDispatch && final(self).ui.modal->ConfirmDispatch_args.deep_view() == c
                    && final(self).ui.modal->ConfirmDispatch_preview@ == preview_of(c),
                None => final(self).ui.modal == old(self).ui.modal && final(self).ui.output_is_error,
            },
            final(self).data == old(self).data,
            final(self).config == old(self).config,
            panels_kept(*old(self), *final(self)),
    {
        match self.build_dispatch_command() {
            Ok((args, preview)) => {
                self.ui.modal = Modal::ConfirmDispatch { args, preview };
            },
            Err(e) => {
                self.show_error(concat("Error: ", e.as_str()));
            },
        }
    }

    /// Keys of the panels when no modal and no search is active.
    fn handle_base(&mut self, key: KeyPress) -> (a: Action)
        requires
            old(self).ui.modal is Closed,
            !old(self).ui.search_active,
        ensures
            old(self).wf() ==> final(self).wf(),
            modal_step(*old(self), key, *final(self), a),
            base_step(*old(self), key, *final(self), a),
    {
        if key_down(key) {
            self.move_selection(true);
            return Action::Nothing;
        }
        if key_up(key) {
            self.move_selection(false);
            return Action::Nothing;
        }
        match key.code {
            KeyCode::Esc => Action::Quit,
            KeyCode::Tab => {
                self.ui.focus = self.ui.focus.next();
                Action::Nothing
            },
            KeyCode::BackTab => {
                self.ui.focus = self.ui.focus.previous();
                Action::Nothing
            },
            KeyCode::Enter => {
                let request = match self.ui.focus {
                    Focus::Repo => self.request_branches(),
                    Focus::Branches => self.request_workflows(),
                    Focus::Workflows => self.request_inputs(),
                    Focus::Inputs => {
                        self.open_confirmation();
                        let confirming = match self.ui.modal {
                            Modal::ConfirmDispatch { .. } => true,
                            _ => false,
                        };
                        if !confirming {
                            self.ui.focus = Focus::Output;
                        }
                        return Action::Nothing;
                    },
                    Focus::Output => return Action::Nothing,
                };
                match request {
                    Ok(a) => a,
                    Err(e) => {
                        self.show_error(e);
                        Action::Nothing
                    },
                }
            },
            KeyCode::Char(c) => {
                if c == 'q' {
                    Action::Quit
                } else if c == '?' {
                    self.ui.modal = Modal::Help;
                    Action::Nothing
                } else if c == 'a' {
                    self.ui.modal = Modal::AddRepo { owner: String::new(), name: String::new(), focus_owner: true };
                    Action::Nothing
                } else if c == 'v' {
                    match self.open_repo_in_browser() {
                        Ok(url) => Action::OpenUrl { url },
                        Err(e) => {
                            self.show_error(concat("Error opening browser: ", e.as_str()));
                            Action::Nothing
                        },
                    }
                } else if c == 'i' {
                    if self.data.input_fields.len() > 0 {
                        self.ui.modal = Modal::Inputs { selected: 0, editing: false };
                    } else if self.data.workflows.len() > 0 {
                        self.open_confirmation();
                    }
                    Action::Nothing
                } else if c == '/' {
                    match self.ui.focus {
                        Focus::Repo | Focus::Branches | Focus::Workflows => {
                            self.ui.search_active = true;
                            self.ui.search_query = String::new();
                        },
                        _ => {},
                    }
                    Action::Nothing
                } else if c == 'r' {
                    self.open_replays();
                    Action::Nothing
                } else {
                    Action::Nothing
                }
            },
            _ => Action::Nothing,
        }
    }

    /// Routes one key press to the active modal, else to the search prompt,
    /// else to the focused panel, and returns the work it asks for.
    pub fn handle_key(&mut self, key: KeyPress) -> (a: Action)
        ensures
            old(self).wf() ==> final(self).wf(),
            modal_step(*old(self), key, *final(self), a),
            old(self).ui.modal is Help ==> help_step(*old(self), key, *final(self), a),
            old(self).ui.modal is AddRepo ==> add_repo_step(*old(self), key, *final(self), a),
            old(self).ui.modal is ConfirmDispatch ==> confirm_step(*old(self), key, *final(self), a),
            old(self).ui.modal is PostDispatchPrompt ==> prompt_step(*old(self), key, *final(self), a),
            old(self).ui.modal is Inputs ==> inputs_step(*old(self), key, *final(self), a),
            old(self).ui.modal is Replays ==> replays_step(*old(self), key, *final(self), a),
            old(self).ui.modal is Closed && old(self).ui.search_active ==> search_step(*old(self), key, *final(self), a),
            old(self).ui.modal is Closed && !old(self).ui.search_active ==> base_step(*old(self), key, *final(self), a),
    {
        match self.ui.modal {
            Modal::Help => self.handle_help(key),
            Modal::AddRepo { .. } => self.handle_add_repo(key),
            Modal::ConfirmDispatch { .. } => self.handle_confirm(key),
            Modal::PostDispatchPrompt => self.handle_prompt(key),
            Modal::Inputs { .. } => self.handle_inputs(key),
            Modal::Replays { .. } => self.handle_replays(key),
            Modal::Closed => if self.ui.search_active {
                self.handle_search(key)
            } else {
                self.handle_base(key)
            },
        }
    }
}

/// The number of overlays that `m` makes active.
pub open spec fn active_overlays(m: Modal) -> nat {
    (if m is AddRepo { 1nat } else { 0nat }) + (if m is Inputs { 1nat } else { 0nat }) + (if m is ConfirmDispatch {
        1nat
    } else {
        0nat
    }) + (if m is Replays { 1nat } else { 0nat }) + (if m is Help { 1nat } else { 0nat }) + (if m is PostDispatchPrompt {
        1nat
    } else {
        0nat
    })
}

/// In every state, at most one of the add-repository, inputs, confirmation,
/// replays, help and post-dispatch overlays is active.
pub proof fn lemma_single_modal(s: AppState)
    ensures
        active_overlays(s.ui.modal) <= 1,
{
}

/// What is confirmed is what runs: `D` in the inputs modal previews the
/// dispatch command of that state, and `y` then hands on exactly the
/// previewed arguments, whose preview is the one shown.
pub proof fn lemma_confirmed_is_dispatched(
    s0: AppState,
    k1: KeyPress,
    s1: AppState,
    a1: Action,
    k2: KeyPress,
    s2: AppState,
    a2: Action,
)
    requires
        s0.ui.modal is Inputs,
        !s0.ui.modal->Inputs_editing,
        is_char(k1, 'D'),
        s0.dispatch_command() is Some,
        modal_step(s0, k1, s1, a1),
        is_char(k2, 'y'),
        modal_step(s1, k2, s2, a2),
    ensures
        a2 is Dispatch,
        a2->Dispatch_args.deep_view() == s0.dispatch_command()->0,
        s1.ui.modal->ConfirmDispatch_preview@ == preview_of(a2->Dispatch_args.deep_view()),
        s2.ui.modal is PostDispatchPrompt,
{
}

/// In the inputs modal every key keeps a boolean field at one of its two
/// literals: typing toggles it, and nothing else changes it.
pub proof fn lemma_inputs_keep_booleans(old: AppState, key: KeyPress, new: AppState, a: Action, j: int)
    requires
        old.ui.modal is Inputs,
        inputs_step(old, key, new, a),
        0 <= j < old.data.input_fields@.len(),
        crate::domain::has_type(old.data.input_fields@[j], "boolean"@),
        old.data.input_fields@[j].value@ == "true"@ || old.data.input_fields@[j].value@ == "false"@,
    ensures
        j < new.data.input_fields@.len(),
        crate::domain::has_type(new.data.input_fields@[j], "boolean"@),
        new.data.input_fields@[j].value@ == "true"@ || new.data.input_fields@[j].value@ == "false"@,
{
    reveal_strlit("boolean");
    reveal_strlit("choice");
    assert("boolean"@ != "choice"@) by {
        assert("boolean"@.len() != "choice"@.len());
    }
    let sel = old.ui.modal->Inputs_selected as int;
    let editing = old.ui.modal->Inputs_editing;
    let fields = old.data.input_fields@;
    crate::editor::lemma_boolean_toggle(fields[j].value@);
    let nf = new.data.input_fields@;
    if key.code is Tab || key.code is BackTab {
        if sel < fields.len() && crate::editor::cycles(fields[sel]) {
            assert(sel != j);
            assert(nf[j] == fields[j]);
        } else {
            assert(nf == fields);
        }
    } else if editing && (key.code is Char || key.code is Backspace) {
        if sel < fields.len() {
            if sel == j {
                if let KeyCode::Char(c) = key.code {
                    assert(crate::editor::value_set(fields, nf, sel, crate::editor::typed(fields[sel], c)));
                    assert(nf[j].value@ == crate::editor::toggled(fields[j].value@));
                } else {
                    assert(crate::editor::value_set(fields, nf, sel, crate::editor::erased(fields[sel])));
                    assert(nf[j].value@ == fields[j].value@);
                }
            } else {
                if let KeyCode::Char(c) = key.code {
                    assert(crate::editor::value_set(fields, nf, sel, crate::editor::typed(fields[sel], c)));
                } else {
                    assert(crate::editor::value_set(fields, nf, sel, crate::editor::erased(fields[sel])));
                }
                assert(nf[j] == fields[j]);
            }
        } else {
            assert(nf == fields);
        }
    } else {
        assert(new.data.input_fields == old.data.input_fields);
    }
}

} // verus!
