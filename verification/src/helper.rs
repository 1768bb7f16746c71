//! What the stages have in common: the disk under recovery, the repair
//! host, and the teardown.

use crate::ade::{ade_cleanup_plan, ade_lvm_cleanup, close_mapping, close_rescueencrypt};
use crate::cli::{CliInfo, CliInfoView};
use crate::constants::{RESCUE_DISK, RESCUE_ROOT};
use crate::distro::{has_volumes, Distro, DistroView};
use crate::lines::{
    lines,
    split_lines,
    strings,
    strip_char,
    strip_start_text,
    texts,
    trim_char,
    trim_start_text,
};
use crate::mount::{
    disable_broken_disk,
    disable_plan,
    rename_back,
    rename_oldvg,
    rescan_host,
    rescan_plan,
    BootMounts,
    BootMountsView,
};
use crate::partition::{any_match, first_match, lemma_first_match_is, PartInfoView};
use crate::step::{
    append_plan,
    args2,
    command,
    empty_plan,
    may,
    push_may,
    step_unmount,
    unmount,
    views,
    Command,
    CommandView,
    Task,
    TaskView,
};
use crate::text::{
    begins_with,
    contains,
    from_chars,
    same_text,
    starts_with,
    text_contains,
    to_chars,
    trim,
    trim_text,
};
use vstd::prelude::*;

verus! {

/// Why the disk under recovery cannot be addressed.
#[derive(Debug, Clone, Copy, PartialEq, Eq, Structural)]
pub enum ConfigurationError {
    /// The path of the disk does not lead to a device.
    BadDiskPath,
}

/// The path that leads to the disk under recovery: the one that the
/// operator named, or the link that the platform sets.
pub open spec fn disk_link(cli: CliInfoView) -> Seq<char> {
    if cli.custom_recover_disk.len() > 0 {
        cli.custom_recover_disk
    } else {
        RESCUE_DISK@
    }
}

/// The query that resolves the path of the disk under recovery.
pub fn get_recovery_disk_path(cli_info: &CliInfo) -> (c: Command)
    ensures
        c@ == (CommandView { program: "readlink"@, args: seq!["-fe"@, disk_link(cli_info@)] }),
{
    if !cli_info.custom_recover_disk.as_str().is_empty() {
        command("readlink", args2("-fe", cli_info.custom_recover_disk.as_str()))
    } else {
        command("readlink", args2("-fe", RESCUE_DISK))
    }
}

/// The path that the answer to a resolving query gives: the answer
/// without the white space around it. An empty answer means that the path
/// leads nowhere.
pub fn realpath(resolved: &str) -> (r: Result<String, ConfigurationError>)
    ensures
        match r {
            Ok(path) => resolved@.len() > 0 && path@ == trim(resolved@),
            Err(e) => resolved@.len() == 0 && e == ConfigurationError::BadDiskPath,
        },
{
    if resolved.is_empty() {
        Err(ConfigurationError::BadDiskPath)
    } else {
        Ok(trim_text(resolved))
    }
}

/// Whether a disk hangs on an NVMe controller, judged by its path.
pub fn is_nvme_controller(disk_path: &str) -> (r: bool)
    ensures
        r == contains(disk_path@, "nvme"@),
{
    text_contains(disk_path, "nvme")
}

/// A tag of the repair source is among the names.
pub open spec fn has_repair_tag(names: Seq<Seq<char>>) -> bool {
    any_match(names, |name: Seq<char>| contains(name, "repair_source"@))
}

/// Whether one of the tag names says that the host is a repair host.
pub fn names_repair_source(tag_names: &Vec<String>) -> (r: bool)
    ensures
        r == has_repair_tag(strings(tag_names@)),
{
    let mut i: usize = 0;
    while i < tag_names.len()
        invariant
            i <= tag_names.len(),
            forall|j: int|
                0 <= j < i ==> !contains(#[trigger] strings(tag_names@)[j], "repair_source"@),
        decreases tag_names.len() - i,
    {
        if text_contains(tag_names[i].as_str(), "repair_source") {
            assert(contains(strings(tag_names@)[i as int], "repair_source"@));
            return true;
        }
        i = i + 1;
    }
    false
}

/// The texts that a JSON document holds under `name_key` in the members
/// of the array under `list_key`, in the order of the array. `None` where
/// the text is no JSON document, where the document is no object with
/// such an array, or where a member of the array has no text under
/// `name_key`.
///
/// This is what `serde_json::from_str` gives, read with `Value::get`,
/// `Value::as_array` and `Value::as_str`.
pub uninterp spec fn json_names(body: Seq<char>, list_key: Seq<char>, name_key: Seq<char>)
    -> Option<Seq<Seq<char>>>;

/// Reads the names out of a list of a JSON document.
///
/// Trusted: parses with `serde_json::from_str` and picks the members with
/// `Value::get`, `Value::as_array` and `Value::as_str`. The result depends
/// on the arguments alone; the contract only names it.
#[verifier::external_body]
fn read_json_names(body: &str, list_key: &str, name_key: &str) -> (r: Option<Vec<String>>)
    ensures
        match r {
            Some(names) => json_names(body@, list_key@, name_key@) == Some(strings(names@)),
            None => json_names(body@, list_key@, name_key@) is None,
        },
{
    let data: serde_json::Value = serde_json::from_str(body).ok()?;
    let list = data.get(list_key)?.as_array()?;
    list.iter().map(|tag| tag.get(name_key)?.as_str().map(|name| name.to_string())).collect()
}

/// What the answer of the metadata service says about the host: whether
/// one of the tags of the instance names a repair source. `None` where the
/// answer cannot be read.
pub open spec fn repair_vm_answer(body: Seq<char>) -> Option<bool> {
    match json_names(body, "tagsList"@, "name"@) {
        Some(names) => Some(has_repair_tag(names)),
        None => None,
    }
}

/// Whether the answer of the metadata service says that the host is a
/// repair host; `None` where the answer cannot be read.
pub fn is_repair_vm_imds(body: &str) -> (r: Option<bool>)
    ensures
        r == repair_vm_answer(body@),
{
    match read_json_names(body, "tagsList", "name") {
        Some(names) => Some(names_repair_source(&names)),
        None => None,
    }
}

/// Whether the answer of `id -u` names the superuser.
pub fn is_root_user(id_output: &str) -> (r: bool)
    ensures
        r == (trim(id_output@) == "0"@),
{
    same_text(trim_text(id_output).as_str(), "0")
}

/// Where the repair actions come from.
#[derive(Debug, PartialEq, Eq)]
pub enum ScriptSource {
    /// They are fetched from the archive.
    Download,
    /// They are copied from a directory of the operator.
    Local { directory: String },
    /// They are written from the built-in set.
    Builtin,
}

/// Decides where the repair actions come from: a requested download goes
/// first, then a directory of the operator, then the built-in set.
pub fn download_action_scripts_or(cli_info: &CliInfo) -> (r: ScriptSource)
    ensures
        cli_info@.download_action_scripts ==> r == ScriptSource::Download,
        !cli_info@.download_action_scripts && cli_info@.local_action_directory.len() > 0 ==> (r
            matches ScriptSource::Local { directory } && directory@
            == cli_info@.local_action_directory),
        !cli_info@.download_action_scripts && cli_info@.local_action_directory.len() == 0 ==> r
            == ScriptSource::Builtin,
{
    if cli_info.download_action_scripts {
        ScriptSource::Download
    } else if !cli_info.local_action_directory.as_str().is_empty() {
        ScriptSource::Local { directory: cli_info.local_action_directory.clone() }
    } else {
        ScriptSource::Builtin
    }
}

/// The value that the release file of the repair host gives for a key:
/// taken from the first line that starts with the key, without the key and
/// without the double quotes around it. `None` where no line starts with
/// the key.
pub open spec fn host_release_value(text: Seq<char>, key: Seq<char>) -> Option<Seq<char>> {
    let file = lines(text);
    let i = first_match(file, |line: Seq<char>| starts_with(line, key));
    if 0 <= i < file.len() {
        Some(trim_char(trim_start_text(file[i], key), '"'))
    } else {
        None
    }
}

fn host_value(text: &str, key: &str) -> (r: Option<String>)
    ensures
        match r {
            Some(value) => host_release_value(text@, key@) == Some(value@),
            None => host_release_value(text@, key@) is None,
        },
{
    let file = split_lines(&to_chars(text));
    let k = to_chars(key);
    let ghost p = |line: Seq<char>| starts_with(line, key@);
    let mut i: usize = 0;
    while i < file.len()
        invariant
            i <= file.len(),
            k@ == key@,
            texts(file@) == lines(text@),
            p == |line: Seq<char>| starts_with(line, key@),
            forall|j: int| 0 <= j < i ==> !p(#[trigger] texts(file@)[j]),
        decreases file.len() - i,
    {
        if begins_with(&file[i], &k) {
            proof {
                assert(p(texts(file@)[i as int]));
                lemma_first_match_is(texts(file@), p, i as int);
            }
            let value = strip_char(&strip_start_text(&file[i], &k), '"');
            return Some(from_chars(&value));
        }
        i = i + 1;
    }
    proof {
        lemma_first_match_is(texts(file@), p, file.len() as int);
    }
    None
}

/// The name of the distribution of the repair host, read from the text of
/// its release file.
pub fn get_repair_os_name(os_release: &str) -> (r: Option<String>)
    ensures
        match r {
            Some(value) => host_release_value(os_release@, "PRETTY_NAME="@) == Some(value@),
            None => host_release_value(os_release@, "PRETTY_NAME="@) is None,
        },
{
    host_value(os_release, "PRETTY_NAME=")
}

/// The version of the distribution of the repair host, read from the text
/// of its release file.
pub fn get_repair_os_version(os_release: &str) -> (r: Option<String>)
    ensures
        match r {
            Some(value) => host_release_value(os_release@, "VERSION_ID="@) == Some(value@),
            None => host_release_value(os_release@, "VERSION_ID="@) is None,
        },
{
    host_value(os_release, "VERSION_ID=")
}

/// The same steps, none of them required: in a teardown a failure is
/// logged and the next step still runs.
pub open spec fn relaxed(plan: Seq<TaskView>) -> Seq<TaskView> {
    Seq::new(plan.len(), |i: int| may(plan[i].step))
}

/// Executable [`relaxed`].
pub fn relax(plan: Vec<Task>) -> (r: Vec<Task>)
    ensures
        views(r@) == relaxed(views(plan@)),
{
    let mut plan = plan;
    let ghost given = views(plan@);
    let mut i: usize = 0;
    while i < plan.len()
        invariant
            i <= plan.len(),
            plan.len() == given.len(),
            forall|j: int| 0 <= j < i ==> (#[trigger] views(plan@)[j]) == may(given[j].step),
            forall|j: int| i <= j < plan.len() ==> (#[trigger] views(plan@)[j]) == given[j],
        decreases plan.len() - i,
    {
        let ghost before = views(plan@);
        plan[i].required = false;
        assert(views(plan@) =~= before.update(i as int, may(before[i as int].step)));
        i = i + 1;
    }
    assert(views(plan@) =~= relaxed(given));
    plan
}

/// What is put right for one partition with logical volumes on a disk
/// that is not encrypted: the disk is taken off the bus, the group of the
/// host gets its name back, and the bus is scanned anew.
pub open spec fn volume_teardown(disk: Seq<char>, old: BootMountsView) -> Seq<TaskView> {
    relaxed(disable_plan(disk) + seq![rename_back()] + rescan_plan(old))
}

/// The teardown for the partitions of a disk that is not encrypted: the
/// same for each partition with logical volumes.
pub open spec fn volumes_teardown(parts: Seq<PartInfoView>, disk: Seq<char>, old: BootMountsView)
    -> Seq<TaskView>
    decreases parts.len(),
{
    if parts.len() == 0 {
        seq![]
    } else {
        volumes_teardown(parts.drop_last(), disk, old) + (if parts.last().logical_volumes
            is Some {
            volume_teardown(disk, old)
        } else {
            seq![]
        })
    }
}

/// What is put right on the repair host after a recovery. For an
/// encrypted disk the group is deactivated and the mapping is closed; for
/// any other disk with logical volumes the disk is taken off the bus, the
/// group of the host gets its name back and the bus is scanned anew. No
/// step is required: each failure is logged and the next step still runs.
pub open spec fn cleanup_plan(
    d: DistroView,
    disk: Seq<char>,
    oldvg_exists: bool,
    old: BootMountsView,
) -> Seq<TaskView> {
    if d.is_ade {
        if has_volumes(d.partitions) {
            relaxed(ade_cleanup_plan(oldvg_exists))
        } else {
            seq![may(close_mapping())]
        }
    } else {
        volumes_teardown(d.partitions, disk, old)
    }
}

/// Plans what is put right on the repair host after a recovery.
/// `oldvg_exists` says whether a group was set aside; `old_mounts` are the
/// boot mounts of the host as they are before the teardown.
pub fn cleanup(distro: &Distro, disk_path: &str, oldvg_exists: bool, old_mounts: &BootMounts) -> (plan:
    Vec<Task>)
    ensures
        views(plan@) == cleanup_plan(distro@, disk_path@, oldvg_exists, old_mounts@),
{
    if distro.is_ade {
        if Distro::has_logical_volumes(&distro.partitions) {
            relax(ade_lvm_cleanup(oldvg_exists))
        } else {
            let plan = relax(close_rescueencrypt());
            assert(views(plan@) =~= seq![may(close_mapping())]);
            plan
        }
    } else {
        let ghost parts = distro@.partitions;
        let mut plan = empty_plan();
        let mut i: usize = 0;
        assert(parts.take(0) == Seq::<PartInfoView>::empty());
        while i < distro.partitions.len()
            invariant
                i <= distro.partitions.len(),
                parts == distro@.partitions,
                views(plan@) == volumes_teardown(parts.take(i as int), disk_path@, old_mounts@),
            decreases distro.partitions.len() - i,
        {
            proof {
                let upto = parts.take(i + 1);
                assert(upto.drop_last() == parts.take(i as int));
                assert(upto.last() == distro.partitions@[i as int]@);
            }
            if distro.partitions[i].logical_volumes.is_some() {
                let mut unit = disable_broken_disk(disk_path);
                append_plan(&mut unit, rename_oldvg());
                append_plan(&mut unit, rescan_host(old_mounts));
                append_plan(&mut plan, relax(unit));
            } else {
                assert(views(plan@) + Seq::<TaskView>::empty() == views(plan@));
            }
            i = i + 1;
        }
        assert(parts.take(distro.partitions.len() as int) == parts);
        plan
    }
}

/// The whole teardown: the assembled tree is unmounted, then the repair
/// host is put right.
pub open spec fn teardown_plan(
    d: DistroView,
    disk: Seq<char>,
    oldvg_exists: bool,
    old: BootMountsView,
) -> Seq<TaskView> {
    seq![may(unmount(RESCUE_ROOT@, true))] + cleanup_plan(d, disk, oldvg_exists, old)
}

/// Plans the whole teardown.
pub fn teardown(distro: &Distro, disk_path: &str, oldvg_exists: bool, old_mounts: &BootMounts) -> (plan:
    Vec<Task>)
    ensures
        views(plan@) == teardown_plan(distro@, disk_path@, oldvg_exists, old_mounts@),
{
    let mut plan = empty_plan();
    push_may(&mut plan, step_unmount(RESCUE_ROOT, true));
    append_plan(&mut plan, cleanup(distro, disk_path, oldvg_exists, old_mounts));
    plan
}

/// In a teardown no step is required, so that every step gets its turn.
pub proof fn lemma_teardown_is_best_effort(
    d: DistroView,
    disk: Seq<char>,
    oldvg_exists: bool,
    old: BootMountsView,
    i: int,
)
    requires
        0 <= i < teardown_plan(d, disk, oldvg_exists, old).len(),
    ensures
        !teardown_plan(d, disk, oldvg_exists, old)[i].required,
{
    let rest = cleanup_plan(d, disk, oldvg_exists, old);
    if i > 0 {
        assert(teardown_plan(d, disk, oldvg_exists, old)[i] == rest[i - 1]);
        if !d.is_ade {
            lemma_volumes_teardown_is_relaxed(d.partitions, disk, old, i - 1);
        }
    }
}

/// No step of the teardown for logical volumes is required.
pub proof fn lemma_volumes_teardown_is_relaxed(
    parts: Seq<PartInfoView>,
    disk: Seq<char>,
    old: BootMountsView,
    i: int,
)
    requires
        0 <= i < volumes_teardown(parts, disk, old).len(),
    ensures
        !volumes_teardown(parts, disk, old)[i].required,
    decreases parts.len(),
{
    if parts.len() > 0 {
        let before = volumes_teardown(parts.drop_last(), disk, old);
        if i < before.len() {
            lemma_volumes_teardown_is_relaxed(parts.drop_last(), disk, old, i);
        }
    }
}

} // verus!
