//! The calls of the version-control client that keep the storage tree in
//! step with its remote. This library says which calls are made and with
//! which arguments; running them is left to the program around it.

use vstd::prelude::*;

use crate::store::StoreError;

verus! {

/// One call of the version-control client on the storage tree.
#[derive(Debug)]
pub enum SyncStep {
    /// Fetch the remote's changes and merge them.
    Pull,
    /// Stage every change in the tree.
    AddAll,
    /// Commit what is staged under this message.
    Commit(String),
    /// Send the commits to the remote.
    Push,
}

/// The mathematical value of a [`SyncStep`].
pub enum SyncStepView {
    Pull,
    AddAll,
    Commit(Seq<char>),
    Push,
}

impl View for SyncStep {
    type V = SyncStepView;

    open spec fn view(&self) -> SyncStepView {
        match *self {
            SyncStep::Pull => SyncStepView::Pull,
            SyncStep::AddAll => SyncStepView::AddAll,
            SyncStep::Commit(message) => SyncStepView::Commit(message@),
            SyncStep::Push => SyncStepView::Push,
        }
    }
}

/// The values of a list of steps, in their order.
pub open spec fn step_views(steps: Seq<SyncStep>) -> Seq<SyncStepView> {
    Seq::new(steps.len(), |i: int| steps[i]@)
}

/// The texts of a list of arguments, in their order.
pub open spec fn argument_views(arguments: Seq<String>) -> Seq<Seq<char>> {
    Seq::new(arguments.len(), |i: int| arguments[i]@)
}

/// The arguments with which `git` runs a step on the tree at `root`. The
/// remote is `origin` and the branch is `main`.
pub open spec fn spec_arguments(step: SyncStepView, root: Seq<char>) -> Seq<Seq<char>> {
    match step {
        SyncStepView::Pull => seq!["-C"@, root, "pull"@, "origin"@, "main"@],
        SyncStepView::AddAll => seq!["-C"@, root, "add"@, "."@],
        SyncStepView::Commit(message) => seq!["-C"@, root, "commit"@, "-m"@, message],
        SyncStepView::Push => seq!["-C"@, root, "push"@, "origin"@, "main"@],
    }
}

/// The background work that follows the attempt to write a note: after a
/// successful write the changes are staged, committed under `message` and
/// pushed, in this order; after a failed write nothing is done.
pub open spec fn spec_sync_follows(saved: Result<String, StoreError>, message: Seq<char>) -> Seq<
    SyncStepView,
> {
    match saved {
        Ok(_) => seq![SyncStepView::AddAll, SyncStepView::Commit(message), SyncStepView::Push],
        Err(_) => Seq::empty(),
    }
}

impl SyncStep {
    /// The arguments with which `git` runs this step on the tree at `root`.
    pub fn arguments(&self, root: &str) -> (arguments: Vec<String>)
        ensures
            argument_views(arguments@) == spec_arguments(self@, root@),
    {
        let mut arguments: Vec<String> = Vec::new();
        arguments.push("-C".to_owned());
        arguments.push(root.to_owned());
        match self {
            SyncStep::Pull => {
                arguments.push("pull".to_owned());
                arguments.push("origin".to_owned());
                arguments.push("main".to_owned());
            },
            SyncStep::AddAll => {
                arguments.push("add".to_owned());
                arguments.push(".".to_owned());
            },
            SyncStep::Commit(message) => {
                arguments.push("commit".to_owned());
                arguments.push("-m".to_owned());
                arguments.push(message.clone());
            },
            SyncStep::Push => {
                arguments.push("push".to_owned());
                arguments.push("origin".to_owned());
                arguments.push("main".to_owned());
            },
        }
        arguments
    }
}

/// The background work that follows the attempt to write a note. The
/// steps are run in their order, each whatever became of the one before.
pub fn sync_follows(saved: &Result<String, StoreError>, message: String) -> (steps: Vec<SyncStep>)
    ensures
        step_views(steps@) == spec_sync_follows(*saved, message@),
{
    let mut steps: Vec<SyncStep> = Vec::new();
    match saved {
        Ok(_) => {
            steps.push(SyncStep::AddAll);
            steps.push(SyncStep::Commit(message));
            steps.push(SyncStep::Push);
        },
        Err(_) => {},
    }
    steps
}

} // verus!
