//! The data the console browses: repositories, workflows and their inputs.
use vstd::prelude::*;

verus! {

/// A repository, identified by `owner/name`, with the branch and workflow
/// file names last fetched for it.
#[derive(Debug)]
pub struct Repo {
    pub name: String,
    pub branches: Vec<String>,
    pub workflows: Vec<String>,
}

/// A workflow of the selected branch.
#[derive(Debug)]
pub struct Workflow {
    pub id: String,
    pub name: String,
    pub inputs: Vec<String>,
}

/// A typed workflow-dispatch input and the value the operator gave it.
#[derive(Debug)]
pub struct InputField {
    pub name: String,
    pub description: String,
    /// One of `string`, `boolean`, `choice`, `environment`.
    pub input_type: String,
    pub required: bool,
    pub default_value: String,
    /// The allowed values of a `choice` input.
    pub options: Vec<String>,
    pub value: String,
}

/// `f` is an input of type `t`.
pub open spec fn has_type(f: InputField, t: Seq<char>) -> bool {
    f.input_type@ == t
}

} // verus!
