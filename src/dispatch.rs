//! The dispatch command and replay presets, as pure projections of the
//! selected repository, branch, workflow and input values.
use crate::config::{ReplayConfig, ReplayInput};
use crate::domain::InputField;
use crate::text::{concat, join, joined};
use vstd::prelude::*;

verus! {

/// The name/value pair of every field whose value is non-empty, in order.
pub open spec fn captured(fields: Seq<InputField>) -> Seq<(Seq<char>, Seq<char>)>
    decreases fields.len(),
{
    if fields.len() == 0 {
        Seq::empty()
    } else {
        let rest = captured(fields.drop_last());
        let f = fields.last();
        if f.value@.len() > 0 {
            rest.push((f.name@, f.value@))
        } else {
            rest
        }
    }
}

/// `name=value`.
pub open spec fn assignment(p: (Seq<char>, Seq<char>)) -> Seq<char> {
    p.0 + "="@ + p.1
}

/// `-f name=value` for every pair, in order.
pub open spec fn flag_args(pairs: Seq<(Seq<char>, Seq<char>)>) -> Seq<Seq<char>>
    decreases pairs.len(),
{
    if pairs.len() == 0 {
        Seq::empty()
    } else {
        flag_args(pairs.drop_last()) + seq!["-f"@, assignment(pairs.last())]
    }
}

/// The arguments of `gh workflow run` for a workflow of a repository on a
/// branch, with the given input values.
pub open spec fn command_args(
    repo: Seq<char>,
    branch: Seq<char>,
    workflow: Seq<char>,
    pairs: Seq<(Seq<char>, Seq<char>)>,
) -> Seq<Seq<char>> {
    seq!["workflow"@, "run"@, workflow, "--repo"@, repo, "--ref"@, branch] + flag_args(pairs)
}

/// The command line shown to the operator for `args`.
pub open spec fn preview_of(args: Seq<Seq<char>>) -> Seq<char> {
    "gh "@ + joined(args, " "@)
}

/// The description of a preset: `name=value` of each pair, joined with `", "`.
pub open spec fn description_of(pairs: Seq<(Seq<char>, Seq<char>)>) -> Seq<char> {
    joined(pairs.map_values(|p: (Seq<char>, Seq<char>)| assignment(p)), ", "@)
}

/// `name=value` as a string.
pub fn assignment_text(name: &str, value: &str) -> (r: String)
    ensures
        r@ == assignment((name@, value@)),
{
    let mut r = concat(name, "=");
    r.append(value);
    r
}

/// The name/value pairs of the fields whose value is non-empty.
pub fn capture_inputs(fields: &Vec<InputField>) -> (r: Vec<ReplayInput>)
    ensures
        r@.map_values(|i: ReplayInput| i@) == captured(fields@),
{
    let mut r: Vec<ReplayInput> = Vec::new();
    let mut k: usize = 0;
    while k < fields.len()
        invariant
            k <= fields.len(),
            r@.map_values(|i: ReplayInput| i@) == captured(fields@.subrange(0, k as int)),
        decreases fields.len() - k,
    {
        let ghost pre = r@;
        assert(fields@.subrange(0, k + 1).drop_last() =~= fields@.subrange(0, k as int));
        if fields[k].value.as_str().unicode_len() > 0 {
            r.push(ReplayInput { name: fields[k].name.clone(), value: fields[k].value.clone() });
            assert(r@.map_values(|i: ReplayInput| i@) =~= pre.map_values(|i: ReplayInput| i@).push((fields@[k as int].name@, fields@[k as int].value@)));
        }
        k = k + 1;
    }
    assert(fields@.subrange(0, k as int) =~= fields@);
    r
}

/// The arguments of `gh workflow run` for the given target and input values.
pub fn command_arguments(repo: &str, branch: &str, workflow: &str, inputs: &Vec<ReplayInput>) -> (r: Vec<String>)
    ensures
        r.deep_view() == command_args(repo@, branch@, workflow@, inputs@.map_values(|i: ReplayInput| i@)),
{
    let ghost pairs = inputs@.map_values(|i: ReplayInput| i@);
    let mut r: Vec<String> = Vec::new();
    r.push(String::from_str("workflow"));
    r.push(String::from_str("run"));
    r.push(String::from_str(workflow));
    r.push(String::from_str("--repo"));
    r.push(String::from_str(repo));
    r.push(String::from_str("--ref"));
    r.push(String::from_str(branch));
    let ghost head = seq!["workflow"@, "run"@, workflow@, "--repo"@, repo@, "--ref"@, branch@];
    assert(r.deep_view() =~= head + flag_args(pairs.subrange(0, 0)));
    let mut k: usize = 0;
    while k < inputs.len()
        invariant
            pairs == inputs@.map_values(|i: ReplayInput| i@),
            k <= inputs.len(),
            r.deep_view() == head + flag_args(pairs.subrange(0, k as int)),
        decreases inputs.len() - k,
    {
        let ghost pre = r.deep_view();
        assert(pairs.subrange(0, k + 1).drop_last() =~= pairs.subrange(0, k as int));
        r.push(String::from_str("-f"));
        r.push(assignment_text(inputs[k].name.as_str(), inputs[k].value.as_str()));
        assert(r.deep_view() =~= pre + seq!["-f"@, assignment(pairs[k as int])]);
        k = k + 1;
    }
    assert(pairs.subrange(0, k as int) =~= pairs);
    r
}

/// The arguments that dispatch `workflow` of `repo` on `branch` with the
/// non-empty input values of `fields`.
pub fn dispatch_args(repo: &str, branch: &str, workflow: &str, fields: &Vec<InputField>) -> (r: Vec<String>)
    ensures
        r.deep_view() == command_args(repo@, branch@, workflow@, captured(fields@)),
{
    let inputs = capture_inputs(fields);
    command_arguments(repo, branch, workflow, &inputs)
}

/// The command line shown for `args`.
pub fn preview(args: &Vec<String>) -> (r: String)
    ensures
        r@ == preview_of(args.deep_view()),
{
    let joined_args = join(args, " ");
    concat("gh ", joined_args.as_str())
}

/// The description of a preset with the given inputs.
pub fn describe(inputs: &Vec<ReplayInput>) -> (r: String)
    ensures
        r@ == description_of(inputs@.map_values(|i: ReplayInput| i@)),
{
    let ghost pairs = inputs@.map_values(|i: ReplayInput| i@);
    let mut parts: Vec<String> = Vec::new();
    let mut k: usize = 0;
    while k < inputs.len()
        invariant
            pairs == inputs@.map_values(|i: ReplayInput| i@),
            k <= inputs.len(),
            parts.deep_view() == pairs.subrange(0, k as int).map_values(|p: (Seq<char>, Seq<char>)| assignment(p)),
        decreases inputs.len() - k,
    {
        let ghost pre = parts.deep_view();
        parts.push(assignment_text(inputs[k].name.as_str(), inputs[k].value.as_str()));
        assert(parts.deep_view() =~= pre.push(assignment(pairs[k as int])));
        assert(pairs.subrange(0, k + 1).map_values(|p: (Seq<char>, Seq<char>)| assignment(p)) =~= pairs.subrange(0, k as int).map_values(|p: (Seq<char>, Seq<char>)| assignment(p)).push(assignment(pairs[k as int])));
        k = k + 1;
    }
    assert(pairs.subrange(0, k as int) =~= pairs);
    join(&parts, ", ")
}

/// The preset that saving the fields' current values for `workflow` creates:
/// `None` when no field holds a non-empty value.
pub fn capture_replay(workflow: &str, fields: &Vec<InputField>) -> (r: Option<ReplayConfig>)
    ensures
        r is None <==> captured(fields@).len() == 0,
        r is Some ==> r->0@.workflow == workflow@
            && r->0@.inputs == captured(fields@)
            && r->0@.description == description_of(captured(fields@)),
{
    let inputs = capture_inputs(fields);
    if inputs.len() == 0 {
        return None;
    }
    let description = describe(&inputs);
    Some(ReplayConfig { workflow: String::from_str(workflow), description, inputs })
}

} // verus!
