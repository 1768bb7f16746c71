//! The repair actions: which are there, and how one is run.

use crate::constants::{ACTION_IMPL_DIR, CHROOT_CLI, RESCUE_ROOT};
use crate::lines::{split, split_on, strings, texts};
use crate::partition::any_match;
use crate::scan::opt_text;
use crate::step::{
    args2,
    args3,
    command,
    empty_plan,
    must,
    push_arg,
    push_must,
    run,
    step_run,
    views,
    Command,
    CommandView,
    Task,
};
use crate::text::{
    contains,
    from_chars,
    join2,
    lowercase,
    same_text,
    text_contains,
    to_chars,
    to_lowercase,
    trim,
    trimmed,
};
use vstd::prelude::*;
use vstd::string::StringExecFns;

verus! {

/// The query that asks the terminal multiplexer for its version.
pub fn tmux_query() -> (c: Command)
    ensures
        c@ == (CommandView { program: "tmux"@, args: seq!["-V"@] }),
{
    command("tmux", crate::step::args1("-V"))
}

/// Whether the terminal multiplexer is installed: it is when it answered
/// the question for its version with anything at all. `version` is `None`
/// where it could not be asked.
pub fn is_tmux_installed(version: Option<&str>) -> (r: bool)
    ensures
        r == (opt_text(version) matches Some(v) && v.len() > 0),
{
    match version {
        Some(v) => !v.is_empty(),
        None => false,
    }
}

/// The file that implements an action.
pub open spec fn action_file(action: Seq<char>) -> Seq<char> {
    action + "-impl.sh"@
}

/// An action, named in lower case, is available: it is the interactive
/// one, or one of the files implements it.
pub open spec fn is_available(lowered: Seq<char>, files: Seq<Seq<char>>) -> bool {
    lowered == CHROOT_CLI@ || any_match(files, |file: Seq<char>| file == action_file(lowered))
}

/// Executable [`is_available`]. `files` are the names of the files in the
/// directory of the actions.
pub fn action_is_among(lowered: &str, files: &Vec<String>) -> (r: bool)
    ensures
        r == is_available(lowered@, strings(files@)),
{
    if same_text(lowered, CHROOT_CLI) {
        return true;
    }
    let wanted = join2(lowered, "-impl.sh");
    let mut i: usize = 0;
    while i < files.len()
        invariant
            i <= files.len(),
            wanted@ == action_file(lowered@),
            lowered@ != CHROOT_CLI@,
            forall|j: int| 0 <= j < i ==> (#[trigger] strings(files@)[j]) != action_file(lowered@),
        decreases files.len() - i,
    {
        if same_text(files[i].as_str(), wanted.as_str()) {
            assert(strings(files@)[i as int] == action_file(lowered@));
            return true;
        }
        i = i + 1;
    }
    false
}

/// Whether an action is available, whatever the case its name is written
/// in. `files` are the names of the files in the directory of the actions.
pub fn is_action_available(action_name: &str, files: &Vec<String>) -> (r: bool)
    ensures
        r == is_available(lowercase(action_name@), strings(files@)),
{
    let lowered = to_lowercase(action_name);
    action_is_among(lowered.as_str(), files)
}

/// The path of the file that implements an action.
pub open spec fn script_path(action: Seq<char>) -> Seq<char> {
    ACTION_IMPL_DIR@ + "/"@ + action_file(action)
}

/// How a repair action is run.
#[derive(Debug, PartialEq, Eq)]
pub struct ScriptRun {
    /// What makes the script runnable.
    pub prepare: Vec<Task>,
    /// The script, started inside the assembled tree.
    pub script: Command,
}

/// Plans the run of a repair action: the script is made runnable for its
/// owner alone and is started by a shell inside the assembled tree.
pub fn run_repair_script(action_name: &str) -> (r: ScriptRun)
    ensures
        views(r.prepare@) == seq![must(run("chmod"@, seq!["500"@, script_path(action_name@)]))],
        r.script@ == (CommandView {
            program: "chroot"@,
            args: seq![RESCUE_ROOT@, "/bin/bash"@, "-c"@, script_path(action_name@)],
        }),
{
    let mut file = String::from_str(ACTION_IMPL_DIR);
    file.append("/");
    file.append(action_name);
    file.append("-impl.sh");
    assert(file@ =~= script_path(action_name@));
    let mut prepare = empty_plan();
    push_must(&mut prepare, step_run("chmod", args2("500", file.as_str())));
    let mut args = args3(RESCUE_ROOT, "/bin/bash", "-c");
    push_arg(&mut args, file.as_str());
    assert(strings(args@) =~= seq![RESCUE_ROOT@, "/bin/bash"@, "-c"@, script_path(action_name@)]);
    ScriptRun { prepare, script: command("chroot", args) }
}

/// The names of the actions that were asked for: the pieces of the
/// setting between commas, each trimmed.
pub open spec fn action_names(actions: Seq<char>) -> Seq<Seq<char>> {
    Seq::new(split(actions, ',').len(), |i: int| trim(split(actions, ',')[i]))
}

/// Executable [`action_names`].
pub fn requested_actions(actions: &str) -> (names: Vec<String>)
    ensures
        strings(names@) == action_names(actions@),
{
    let pieces = split_on(&to_chars(actions), ',');
    let mut names: Vec<String> = Vec::new();
    let mut i: usize = 0;
    while i < pieces.len()
        invariant
            i <= pieces.len(),
            texts(pieces@) == split(actions@, ','),
            names.len() == i,
            forall|j: int| 0 <= j < i ==> (#[trigger] names@[j])@ == trim(split(actions@, ',')[j]),
        decreases pieces.len() - i,
    {
        assert(texts(pieces@)[i as int] == pieces@[i as int]@);
        names.push(from_chars(&trimmed(&pieces[i])));
        i = i + 1;
    }
    assert(strings(names@) =~= action_names(actions@));
    names
}

/// Whether the interactive action was asked for.
pub fn wants_chroot_cli(actions: &str) -> (r: bool)
    ensures
        r == contains(actions@, CHROOT_CLI@),
{
    text_contains(actions, CHROOT_CLI)
}

} // verus!
