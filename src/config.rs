//! The persisted state: saved repositories and their replay presets.
use crate::text::first_index;
use vstd::prelude::*;

verus! {

/// Everything that is kept between sessions.
#[derive(Debug, Default)]
pub struct Config {
    pub repos: Vec<RepoConfig>,
}

/// A saved repository (`owner/name`) and its replay presets.
#[derive(Debug)]
pub struct RepoConfig {
    pub name: String,
    pub replays: Vec<ReplayConfig>,
}

/// A saved set of workflow inputs that can be dispatched again.
#[derive(Debug)]
pub struct ReplayConfig {
    /// The workflow file name, e.g. `deploy.yml`.
    pub workflow: String,
    /// `name=value` of every input, joined with `", "`.
    pub description: String,
    pub inputs: Vec<ReplayInput>,
}

/// One saved input value.
#[derive(Debug)]
pub struct ReplayInput {
    pub name: String,
    pub value: String,
}

/// A replay preset as plain values.
pub struct ReplayView {
    pub workflow: Seq<char>,
    pub description: Seq<char>,
    pub inputs: Seq<(Seq<char>, Seq<char>)>,
}

impl View for ReplayInput {
    type V = (Seq<char>, Seq<char>);

    open spec fn view(&self) -> (Seq<char>, Seq<char>) {
        (self.name@, self.value@)
    }
}

impl View for ReplayConfig {
    type V = ReplayView;

    open spec fn view(&self) -> ReplayView {
        ReplayView {
            workflow: self.workflow@,
            description: self.description@,
            inputs: self.inputs@.map_values(|i: ReplayInput| i@),
        }
    }
}

impl View for RepoConfig {
    type V = (Seq<char>, Seq<ReplayView>);

    open spec fn view(&self) -> (Seq<char>, Seq<ReplayView>) {
        (self.name@, self.replays@.map_values(|r: ReplayConfig| r@))
    }
}

impl View for Config {
    type V = Seq<(Seq<char>, Seq<ReplayView>)>;

    open spec fn view(&self) -> Seq<(Seq<char>, Seq<ReplayView>)> {
        self.repos@.map_values(|r: RepoConfig| r@)
    }
}

/// The names of the saved repositories.
pub open spec fn repo_names(c: Seq<(Seq<char>, Seq<ReplayView>)>) -> Seq<Seq<char>> {
    c.map_values(|r: (Seq<char>, Seq<ReplayView>)| r.0)
}

/// The position of the first saved repository called `name`.
pub open spec fn repo_position(c: Seq<(Seq<char>, Seq<ReplayView>)>, name: Seq<char>) -> Option<int> {
    first_index(repo_names(c), name, 0)
}

/// The presets saved for `name`; none when it is not saved.
pub open spec fn replays_of(c: Seq<(Seq<char>, Seq<ReplayView>)>, name: Seq<char>) -> Seq<ReplayView> {
    match repo_position(c, name) {
        Some(i) => c[i].1,
        None => Seq::empty(),
    }
}

/// `c` with `r` appended to the presets of `name`, which is added at the end
/// when it is not saved yet.
pub open spec fn with_replay(c: Seq<(Seq<char>, Seq<ReplayView>)>, name: Seq<char>, r: ReplayView) -> Seq<(Seq<char>, Seq<ReplayView>)> {
    match repo_position(c, name) {
        Some(i) => c.update(i, (c[i].0, c[i].1.push(r))),
        None => c.push((name, seq![r])),
    }
}

/// `c` without preset `k` of `name`, when both exist.
pub open spec fn without_replay(c: Seq<(Seq<char>, Seq<ReplayView>)>, name: Seq<char>, k: int) -> Seq<(Seq<char>, Seq<ReplayView>)> {
    match repo_position(c, name) {
        Some(i) => if 0 <= k < c[i].1.len() {
            c.update(i, (c[i].0, c[i].1.remove(k)))
        } else {
            c
        },
        None => c,
    }
}

impl ReplayInput {
    /// A copy of this input.
    pub fn duplicate(&self) -> (r: ReplayInput)
        ensures
            r@ == self@,
    {
        ReplayInput { name: self.name.clone(), value: self.value.clone() }
    }
}

/// A copy of a list of inputs.
pub fn duplicate_inputs(v: &Vec<ReplayInput>) -> (r: Vec<ReplayInput>)
    ensures
        r@.map_values(|i: ReplayInput| i@) == v@.map_values(|i: ReplayInput| i@),
{
    let mut r: Vec<ReplayInput> = Vec::new();
    let mut k: usize = 0;
    while k < v.len()
        invariant
            k <= v.len(),
            r@.map_values(|i: ReplayInput| i@) == v@.subrange(0, k as int).map_values(|i: ReplayInput| i@),
        decreases v.len() - k,
    {
        let ghost pre = r@;
        let d = v[k].duplicate();
        r.push(d);
        assert(r@.map_values(|i: ReplayInput| i@) =~= pre.map_values(|i: ReplayInput| i@).push(v@[k as int]@));
        assert(v@.subrange(0, k + 1).map_values(|i: ReplayInput| i@) =~= v@.subrange(0, k as int).map_values(|i: ReplayInput| i@).push(v@[k as int]@));
        k = k + 1;
    }
    assert(v@.subrange(0, k as int) =~= v@);
    r
}

impl ReplayConfig {
    /// A copy of this preset.
    pub fn duplicate(&self) -> (r: ReplayConfig)
        ensures
            r@ == self@,
    {
        ReplayConfig {
            workflow: self.workflow.clone(),
            description: self.description.clone(),
            inputs: duplicate_inputs(&self.inputs),
        }
    }
}

/// A copy of a list of presets.
pub fn duplicate_replays(v: &Vec<ReplayConfig>) -> (r: Vec<ReplayConfig>)
    ensures
        r@.map_values(|x: ReplayConfig| x@) == v@.map_values(|x: ReplayConfig| x@),
{
    let mut r: Vec<ReplayConfig> = Vec::new();
    let mut k: usize = 0;
    while k < v.len()
        invariant
            k <= v.len(),
            r@.map_values(|x: ReplayConfig| x@) == v@.subrange(0, k as int).map_values(|x: ReplayConfig| x@),
        decreases v.len() - k,
    {
        let ghost pre = r@;
        let d = v[k].duplicate();
        r.push(d);
        assert(r@.map_values(|x: ReplayConfig| x@) =~= pre.map_values(|x: ReplayConfig| x@).push(v@[k as int]@));
        assert(v@.subrange(0, k + 1).map_values(|x: ReplayConfig| x@) =~= v@.subrange(0, k as int).map_values(|x: ReplayConfig| x@).push(v@[k as int]@));
        k = k + 1;
    }
    assert(v@.subrange(0, k as int) =~= v@);
    r
}

impl Config {
    /// The position of the first saved repository called `name`.
    pub fn find_repo(&self, name: &str) -> (r: Option<usize>)
        ensures
            match r {
                Some(i) => repo_position(self@, name@) == Some(i as int) && i < self.repos@.len(),
                None => repo_position(self@, name@) is None,
            },
    {
        let ghost names = repo_names(self@);
        let mut k: usize = 0;
        while k < self.repos.len()
            invariant
                names == repo_names(self@),
                k <= self.repos.len(),
                first_index(names, name@, 0) == first_index(names, name@, k as int),
            decreases self.repos.len() - k,
        {
            assert(names[k as int] == self.repos@[k as int].name@);
            if crate::text::str_eq(self.repos[k].name.as_str(), name) {
                return Some(k);
            }
            k = k + 1;
        }
        None
    }

    /// Copies of the presets saved for `name`.
    pub fn replays_for(&self, name: &str) -> (r: Vec<ReplayConfig>)
        ensures
            r@.map_values(|x: ReplayConfig| x@) == replays_of(self@, name@),
    {
        match self.find_repo(name) {
            Some(i) => duplicate_replays(&self.repos[i].replays),
            None => Vec::new(),
        }
    }

    /// Appends `replay` to the presets of `name`, saving the repository first
    /// when it is not saved yet.
    pub fn add_replay(&mut self, name: &str, replay: ReplayConfig)
        ensures
            final(self)@ == with_replay(old(self)@, name@, replay@),
    {
        let ghost rv = replay@;
        match self.find_repo(name) {
            Some(i) => {
                self.repos[i].replays.push(replay);
                assert(self@ =~= with_replay(old(self)@, name@, rv)) by {
                    assert(self.repos@[i as int].replays@.map_values(|r: ReplayConfig| r@) =~= old(self).repos@[i as int].replays@.map_values(|r: ReplayConfig| r@).push(rv));
                }
            },
            None => {
                let mut replays: Vec<ReplayConfig> = Vec::new();
                replays.push(replay);
                self.repos.push(RepoConfig { name: String::from_str(name), replays });
                assert(self@ =~= with_replay(old(self)@, name@, rv)) by {
                    assert(self.repos@.last().replays@.map_values(|r: ReplayConfig| r@) =~= seq![rv]);
                }
            },
        }
    }

    /// Removes preset `k` of `name` and returns it, when both exist.
    pub fn remove_replay(&mut self, name: &str, k: usize) -> (r: Option<ReplayConfig>)
        ensures
            final(self)@ == without_replay(old(self)@, name@, k as int),
            r is Some <==> (repo_position(old(self)@, name@) is Some && k < replays_of(old(self)@, name@).len()),
            r is Some ==> r->0@ == replays_of(old(self)@, name@)[k as int],
    {
        match self.find_repo(name) {
            Some(i) => {
                if k < self.repos[i].replays.len() {
                    let removed = self.repos[i].replays.remove(k);
                    assert(self@ =~= without_replay(old(self)@, name@, k as int)) by {
                        assert(self.repos@[i as int].replays@.map_values(|r: ReplayConfig| r@) =~= old(self).repos@[i as int].replays@.map_values(|r: ReplayConfig| r@).remove(k as int));
                    }
                    Some(removed)
                } else {
                    None
                }
            },
            None => None,
        }
    }

    /// The saved repositories replaced by `names`, in that order, each keeping
    /// the presets saved for it before.
    pub fn set_repos(&mut self, names: &Vec<String>)
        ensures
            repo_names(final(self)@) == names.deep_view(),
            forall|j: int| 0 <= j < names@.len() ==> (#[trigger] final(self)@[j]).1 == replays_of(old(self)@, names@[j]@),
    {
        let ghost prev = self@;
        let mut repos: Vec<RepoConfig> = Vec::new();
        let mut j: usize = 0;
        while j < names.len()
            invariant
                prev == old(self)@,
                self@ == prev,
                j <= names.len(),
                repos@.len() == j,
                forall|m: int| 0 <= m < j ==> (#[trigger] repos@[m])@.0 == names@[m]@ && repos@[m]@.1 == replays_of(prev, names@[m]@),
            decreases names.len() - j,
        {
            let replays = self.replays_for(names[j].as_str());
            repos.push(RepoConfig { name: names[j].clone(), replays });
            j = j + 1;
        }
        self.repos = repos;
        assert(repo_names(self@) =~= names.deep_view());
    }
}

} // verus!
