use dispatchrr::app::{AppState, Focus};
use dispatchrr::config::Config;
use dispatchrr::domain::Repo;
use dispatchrr::selection::{filter_indices, identity_indices, rank_indices, resolve_selection, select_next, select_previous};

fn strings(v: &[&str]) -> Vec<String> {
    v.iter().map(|s| s.to_string()).collect()
}

fn branch_state(branches: &[&str]) -> AppState {
    let mut s = AppState::new(Config::default());
    s.data.branches = strings(branches);
    s.ui.filtered_branch_indices = identity_indices(branches.len());
    s.ui.focus = Focus::Branches;
    s
}

#[test]
fn filter_scenario_fe_keeps_feature_branch() {
    let labels = strings(&["main", "dev", "feature-x"]);
    assert_eq!(filter_indices(&labels, "fe"), vec![2]);
}

#[test]
fn search_on_branches_resets_selection_to_first() {
    let mut s = branch_state(&["main", "dev", "feature-x"]);
    s.ui.branches_sel = Some(2);
    s.ui.search_active = true;
    s.ui.search_query = "fe".to_string();
    s.update_search_filter();
    assert_eq!(s.ui.filtered_branch_indices, vec![2]);
    assert_eq!(s.ui.branches_sel, Some(0));
    assert_eq!(s.selected_branch_real_index(), Some(2));
}

#[test]
fn empty_query_gives_identity_mapping() {
    let labels = strings(&["b", "a", "c"]);
    assert_eq!(filter_indices(&labels, ""), vec![0, 1, 2]);
}

#[test]
fn filter_result_is_subset_without_duplicates() {
    let labels = strings(&["alpha", "beta", "gamma", "delta", "alphabet", "zeta"]);
    let r = filter_indices(&labels, "a");
    let mut seen = std::collections::HashSet::new();
    for i in &r {
        assert!(*i < labels.len());
        assert!(seen.insert(*i));
        assert!(labels[*i].contains('a'));
    }
    // every label holding an `a` matches
    assert_eq!(r.len(), 6);
}

#[test]
fn filter_excludes_non_matching_labels() {
    let labels = strings(&["release", "main", "hotfix"]);
    let r = filter_indices(&labels, "zz");
    assert!(r.is_empty());
}

#[test]
fn filter_ties_keep_backing_order() {
    let labels = strings(&["dev", "dev", "dev"]);
    assert_eq!(filter_indices(&labels, "dev"), vec![0, 1, 2]);
}

#[test]
fn applying_same_query_twice_is_idempotent() {
    let mut s = branch_state(&["main", "dev", "feature-x", "fix-ui", "feat-api"]);
    s.ui.search_query = "f".to_string();
    s.update_search_filter();
    let first = s.ui.filtered_branch_indices.clone();
    let sel = s.ui.branches_sel;
    s.update_search_filter();
    assert_eq!(s.ui.filtered_branch_indices, first);
    assert_eq!(s.ui.branches_sel, sel);
}

#[test]
fn no_match_leaves_no_selection() {
    let mut s = branch_state(&["main", "dev"]);
    s.ui.search_query = "qq".to_string();
    s.update_search_filter();
    assert!(s.ui.filtered_branch_indices.is_empty());
    assert_eq!(s.ui.branches_sel, None);
    assert_eq!(s.selected_branch_real_index(), None);
}

#[test]
fn resolution_with_empty_mapping_is_no_selection() {
    assert_eq!(resolve_selection(Some(0), &vec![], 3), None);
    assert_eq!(resolve_selection(None, &vec![0, 1], 2), None);
}

#[test]
fn resolution_with_stale_position_is_no_selection() {
    assert_eq!(resolve_selection(Some(5), &vec![0, 1], 2), None);
    // the mapping outlived a shrunken backing collection
    assert_eq!(resolve_selection(Some(1), &vec![0, 3], 2), None);
    assert_eq!(resolve_selection(Some(1), &vec![0, 1], 2), Some(1));
}

#[test]
fn selected_repo_after_repos_shrink_is_none() {
    let mut s = AppState::new(Config::default());
    s.data.repos.push(Repo { name: "a/b".to_string(), branches: vec![], workflows: vec![] });
    s.ui.filtered_repo_indices = vec![0, 1, 2];
    s.ui.repos_sel = Some(2);
    assert_eq!(s.selected_repo_real_index(), None);
    s.ui.repos_sel = Some(0);
    assert_eq!(s.selected_repo_real_index(), Some(0));
}

#[test]
fn navigation_wraps_both_ways() {
    assert_eq!(select_next(Some(2), 3), Some(0));
    assert_eq!(select_next(Some(0), 3), Some(1));
    assert_eq!(select_next(None, 3), Some(0));
    assert_eq!(select_previous(Some(0), 3), Some(2));
    assert_eq!(select_previous(Some(2), 3), Some(1));
    assert_eq!(select_next(Some(1), 0), Some(1));
    assert_eq!(select_previous(None, 0), None);
}

#[test]
fn reset_search_restores_every_list() {
    let mut s = branch_state(&["main", "dev", "feature-x"]);
    s.ui.search_active = true;
    s.ui.search_query = "fe".to_string();
    s.update_search_filter();
    s.reset_search();
    assert!(!s.ui.search_active);
    assert!(s.ui.search_query.is_empty());
    assert_eq!(s.ui.filtered_branch_indices, vec![0, 1, 2]);
}

#[test]
fn clearing_search_keeps_selected_positions_of_other_panels() {
    let mut s = branch_state(&["main", "dev", "feature-x"]);
    s.ui.search_query = "fe".to_string();
    s.update_search_filter();
    assert_eq!(s.ui.branches_sel, Some(0));
    s.ui.focus = Focus::Repo;
    s.reset_search();
    assert_eq!(s.ui.filtered_branch_indices, vec![0, 1, 2]);
    assert_eq!(s.ui.branches_sel, Some(0));
    assert_eq!(s.selected_branch_real_index(), Some(0));
}

#[test]
fn previous_from_stale_position_is_last_item() {
    assert_eq!(select_previous(Some(10), 3), Some(2));
    assert_eq!(select_previous(Some(3), 3), Some(2));
    assert_eq!(select_next(Some(10), 3), Some(2));
}

#[test]
fn ranking_from_given_scores() {
    assert_eq!(rank_indices(&vec![Some(1), None, Some(5), Some(1)]), vec![2, 0, 3]);
    assert_eq!(rank_indices(&vec![None, None]), Vec::<usize>::new());
}
