//! Steps: what the library asks its driver to do.
//!
//! A plan is a vector of [`Task`]s. The driver performs them in order. When
//! a step fails and its task is `required`, the driver stops and none of the
//! later tasks run; when the task is not required the failure is logged and
//! the driver goes on with the next one.

use crate::lines::strings;
use vstd::prelude::*;

verus! {

/// One action on the repair host.
#[derive(Debug, Clone, PartialEq, Eq)]
pub enum Step {
    /// Run a program with the given arguments, without a shell in between;
    /// it fails when the program cannot be started or exits with non-zero status.
    Run { program: String, args: Vec<String> },
    /// Create a directory and its parents.
    CreateDir { path: String },
    /// Remove a directory and everything below it.
    RemoveDir { path: String },
    /// Check the filesystem on a device with the tool that fits it.
    Check { device: String },
    /// Mount a device with the given filesystem-specific options.
    Mount { source: String, target: String, options: String },
    /// Bind-mount a directory.
    BindMount { source: String, target: String },
    /// Unmount a mount point, recursively or lazily.
    Unmount { target: String, recursive: bool },
    /// Write a file.
    WriteFile { path: String, content: String },
    /// Write a file that its owner alone can read and write: it is created
    /// with mode 0600, whatever the mask of the process is.
    WritePrivateFile { path: String, content: String },
    /// Delete a file.
    RemoveFile { path: String },
    /// Make sure that a file is there; the step fails when it is not.
    RequireFile { path: String },
}

/// Mathematical form of a [`Step`].
pub enum StepView {
    Run { program: Seq<char>, args: Seq<Seq<char>> },
    CreateDir { path: Seq<char> },
    RemoveDir { path: Seq<char> },
    Check { device: Seq<char> },
    Mount { source: Seq<char>, target: Seq<char>, options: Seq<char> },
    BindMount { source: Seq<char>, target: Seq<char> },
    Unmount { target: Seq<char>, recursive: bool },
    WriteFile { path: Seq<char>, content: Seq<char> },
    WritePrivateFile { path: Seq<char>, content: Seq<char> },
    RemoveFile { path: Seq<char> },
    RequireFile { path: Seq<char> },
}

impl View for Step {
    type V = StepView;

    open spec fn view(&self) -> StepView {
        match *self {
            Step::Run { program, args } => StepView::Run { program: program@, args: strings(args@) },
            Step::CreateDir { path } => StepView::CreateDir { path: path@ },
            Step::RemoveDir { path } => StepView::RemoveDir { path: path@ },
            Step::Check { device } => StepView::Check { device: device@ },
            Step::Mount { source, target, options } => StepView::Mount {
                source: source@,
                target: target@,
                options: options@,
            },
            Step::BindMount { source, target } => StepView::BindMount {
                source: source@,
                target: target@,
            },
            Step::Unmount { target, recursive } => StepView::Unmount { target: target@, recursive },
            Step::WriteFile { path, content } => StepView::WriteFile {
                path: path@,
                content: content@,
            },
            Step::WritePrivateFile { path, content } => StepView::WritePrivateFile {
                path: path@,
                content: content@,
            },
            Step::RemoveFile { path } => StepView::RemoveFile { path: path@ },
            Step::RequireFile { path } => StepView::RequireFile { path: path@ },
        }
    }
}

/// A step together with what its failure means for the rest of the plan.
#[derive(Debug, Clone, PartialEq, Eq)]
pub struct Task {
    pub step: Step,
    /// A failure of a required step ends the plan; any other failure is
    /// logged and the plan goes on.
    pub required: bool,
}

/// Mathematical form of a [`Task`].
pub struct TaskView {
    pub step: StepView,
    pub required: bool,
}

impl View for Task {
    type V = TaskView;

    open spec fn view(&self) -> TaskView {
        TaskView { step: self.step@, required: self.required }
    }
}

/// The views of the members of a sequence.
pub open spec fn views<T: View>(s: Seq<T>) -> Seq<T::V> {
    Seq::new(s.len(), |i: int| s[i]@)
}

/// The view of a sequence with one more member.
pub proof fn lemma_views_push<T: View>(s: Seq<T>, x: T)
    ensures
        views(s.push(x)) == views(s).push(x@),
{
    assert(views(s.push(x)) =~= views(s).push(x@));
}

/// A step whose failure ends the plan.
pub open spec fn must(step: StepView) -> TaskView {
    TaskView { step, required: true }
}

/// A step whose failure is logged and passed over.
pub open spec fn may(step: StepView) -> TaskView {
    TaskView { step, required: false }
}

/// The step that runs `program` with `args`.
pub open spec fn run(program: Seq<char>, args: Seq<Seq<char>>) -> StepView {
    StepView::Run { program, args }
}

/// The step that mounts `source` on `target`.
pub open spec fn mount(source: Seq<char>, target: Seq<char>, options: Seq<char>) -> StepView {
    StepView::Mount { source, target, options }
}

/// The step that unmounts `target`.
pub open spec fn unmount(target: Seq<char>, recursive: bool) -> StepView {
    StepView::Unmount { target, recursive }
}

/// The step that checks the filesystem on `device`.
pub open spec fn check(device: Seq<char>) -> StepView {
    StepView::Check { device }
}

/// The step that creates the directory `path`.
pub open spec fn create_dir(path: Seq<char>) -> StepView {
    StepView::CreateDir { path }
}

/// The step that removes the directory `path`.
pub open spec fn remove_dir(path: Seq<char>) -> StepView {
    StepView::RemoveDir { path }
}

/// The step that bind-mounts `source` on `target`.
pub open spec fn bind_mount(source: Seq<char>, target: Seq<char>) -> StepView {
    StepView::BindMount { source, target }
}

/// The step that writes `content` to the file `path`.
pub open spec fn write_file(path: Seq<char>, content: Seq<char>) -> StepView {
    StepView::WriteFile { path, content }
}

/// The step that writes `content` to the file `path` for its owner alone.
pub open spec fn write_private_file(path: Seq<char>, content: Seq<char>) -> StepView {
    StepView::WritePrivateFile { path, content }
}

/// The step that deletes the file `path`.
pub open spec fn remove_file(path: Seq<char>) -> StepView {
    StepView::RemoveFile { path }
}

/// The step that makes sure that the file `path` is there.
pub open spec fn require_file(path: Seq<char>) -> StepView {
    StepView::RequireFile { path }
}

/// Appends a required step to a plan.
pub fn push_must(plan: &mut Vec<Task>, step: Step)
    ensures
        views(final(plan)@) == views(old(plan)@).push(must(step@)),
{
    let task = Task { step, required: true };
    proof {
        lemma_views_push(plan@, task);
    }
    plan.push(task);
}

/// Appends a best-effort step to a plan.
pub fn push_may(plan: &mut Vec<Task>, step: Step)
    ensures
        views(final(plan)@) == views(old(plan)@).push(may(step@)),
{
    let task = Task { step, required: false };
    proof {
        lemma_views_push(plan@, task);
    }
    plan.push(task);
}

/// Builds the step that runs `program` with `args`.
pub fn step_run(program: &str, args: Vec<String>) -> (s: Step)
    ensures
        s@ == run(program@, strings(args@)),
{
    Step::Run { program: program.to_owned(), args }
}

/// A program and its arguments: a query whose output the library reads.
#[derive(Debug, Clone, PartialEq, Eq)]
pub struct Command {
    pub program: String,
    pub args: Vec<String>,
}

/// Mathematical form of a [`Command`].
pub struct CommandView {
    pub program: Seq<char>,
    pub args: Seq<Seq<char>>,
}

impl View for Command {
    type V = CommandView;

    open spec fn view(&self) -> CommandView {
        CommandView { program: self.program@, args: strings(self.args@) }
    }
}

/// Builds a query.
pub fn command(program: &str, args: Vec<String>) -> (c: Command)
    ensures
        c@ == (CommandView { program: program@, args: strings(args@) }),
{
    Command { program: program.to_owned(), args }
}

/// An argument list of one.
pub fn args1(a: &str) -> (v: Vec<String>)
    ensures
        strings(v@) == seq![a@],
{
    let mut v: Vec<String> = Vec::new();
    v.push(a.to_owned());
    assert(strings(v@) =~= seq![a@]);
    v
}

/// An argument list of two.
pub fn args2(a: &str, b: &str) -> (v: Vec<String>)
    ensures
        strings(v@) == seq![a@, b@],
{
    let mut v: Vec<String> = Vec::new();
    v.push(a.to_owned());
    v.push(b.to_owned());
    assert(strings(v@) =~= seq![a@, b@]);
    v
}

/// An argument list of three.
pub fn args3(a: &str, b: &str, c: &str) -> (v: Vec<String>)
    ensures
        strings(v@) == seq![a@, b@, c@],
{
    let mut v: Vec<String> = Vec::new();
    v.push(a.to_owned());
    v.push(b.to_owned());
    v.push(c.to_owned());
    assert(strings(v@) =~= seq![a@, b@, c@]);
    v
}

/// Adds an argument to a list.
pub fn push_arg(v: &mut Vec<String>, a: &str)
    ensures
        strings(final(v)@) == strings(old(v)@).push(a@),
{
    v.push(a.to_owned());
    assert(strings(v@) =~= strings(old(v)@).push(a@));
}

/// Builds the step that mounts `source` on `target`.
pub fn step_mount(source: &str, target: &str, options: &str) -> (s: Step)
    ensures
        s@ == mount(source@, target@, options@),
{
    Step::Mount { source: source.to_owned(), target: target.to_owned(), options: options.to_owned() }
}

/// Builds the step that unmounts `target`.
pub fn step_unmount(target: &str, recursive: bool) -> (s: Step)
    ensures
        s@ == unmount(target@, recursive),
{
    Step::Unmount { target: target.to_owned(), recursive }
}

/// Builds the step that checks the filesystem on `device`.
pub fn step_check(device: &str) -> (s: Step)
    ensures
        s@ == check(device@),
{
    Step::Check { device: device.to_owned() }
}

/// Builds the step that creates the directory `path`.
pub fn step_create_dir(path: &str) -> (s: Step)
    ensures
        s@ == create_dir(path@),
{
    Step::CreateDir { path: path.to_owned() }
}

/// Builds the step that removes the directory `path`.
pub fn step_remove_dir(path: &str) -> (s: Step)
    ensures
        s@ == remove_dir(path@),
{
    Step::RemoveDir { path: path.to_owned() }
}

/// Builds the step that bind-mounts `source` on `target`.
pub fn step_bind_mount(source: &str, target: &str) -> (s: Step)
    ensures
        s@ == bind_mount(source@, target@),
{
    Step::BindMount { source: source.to_owned(), target: target.to_owned() }
}

/// Builds the step that writes `content` to the file `path`.
pub fn step_write_file(path: &str, content: &str) -> (s: Step)
    ensures
        s@ == write_file(path@, content@),
{
    Step::WriteFile { path: path.to_owned(), content: content.to_owned() }
}

/// Builds the step that writes `content` to the file `path` for its owner alone.
pub fn step_write_private_file(path: &str, content: &str) -> (s: Step)
    ensures
        s@ == write_private_file(path@, content@),
{
    Step::WritePrivateFile { path: path.to_owned(), content: content.to_owned() }
}

/// Builds the step that deletes the file `path`.
pub fn step_remove_file(path: &str) -> (s: Step)
    ensures
        s@ == remove_file(path@),
{
    Step::RemoveFile { path: path.to_owned() }
}

/// Builds the step that makes sure that the file `path` is there.
pub fn step_require_file(path: &str) -> (s: Step)
    ensures
        s@ == require_file(path@),
{
    Step::RequireFile { path: path.to_owned() }
}

/// A plan without tasks.
pub fn empty_plan() -> (plan: Vec<Task>)
    ensures
        views(plan@) == Seq::<TaskView>::empty(),
{
    let plan: Vec<Task> = Vec::new();
    assert(views(plan@) =~= Seq::<TaskView>::empty());
    plan
}

/// Moves the tasks of `more` to the end of `plan`.
pub fn append_plan(plan: &mut Vec<Task>, more: Vec<Task>)
    ensures
        views(final(plan)@) == views(old(plan)@) + views(more@),
{
    let mut more = more;
    let ghost before = plan@;
    let ghost added = more@;
    plan.append(&mut more);
    assert(plan@ == before + added);
    assert(views(before + added) =~= views(before) + views(added));
}

} // verus!
