//! Filesystem checks, volume-group import and what is put right again on
//! the repair host afterwards.

use crate::constants::DEV;
use crate::lines::{
    lines,
    remove_text,
    split_lines,
    split_words,
    strings,
    texts,
    without_text,
    words,
};
use crate::partition::count_match;
use crate::scan::{partition_device, partition_path};
use crate::step::{
    append_plan,
    args1,
    args2,
    args3,
    command,
    empty_plan,
    may,
    mount,
    must,
    push_may,
    push_must,
    run,
    step_mount,
    step_run,
    step_unmount,
    step_write_file,
    unmount,
    views,
    write_file,
    Command,
    CommandView,
    Task,
    TaskView,
};
use crate::constants::ASSERT_PATH;
use crate::text::{
    contains,
    from_chars,
    holds,
    join2,
    join3,
    same_chars,
    same_text,
    text_contains,
    to_chars,
};
use vstd::prelude::*;

verus! {

// ---------------------------------------------------------------------------
// Filesystem checks
// ---------------------------------------------------------------------------
/// How a check is carried out.
#[derive(Debug, PartialEq, Eq)]
pub struct CheckPlan {
    /// What is done before the tool runs.
    pub prepare: Vec<Task>,
    /// The tool, which is run with its output discarded.
    pub tool: Command,
    /// Whether the tool is run a second time in order to read what it
    /// writes to its error stream.
    pub recheck: bool,
}

/// How a tool ended.
#[derive(Debug, Clone, Copy, PartialEq, Eq, Structural)]
pub enum ToolExit {
    /// The tool could not be started.
    NotStarted,
    /// The tool was ended by a signal.
    Signalled,
    /// The tool ended with this status.
    Code { code: i32 },
}

/// Why a check ends the recovery.
#[derive(Debug, Clone, Copy, PartialEq, Eq, Structural)]
pub enum CheckError {
    /// The filesystem cannot be repaired without an operator.
    RepairNeeded,
    /// The filesystem is damaged.
    GeneralError,
    /// The check was ended by a signal.
    Interrupted,
}

/// The message with which an older XFS tool turns down a newer on-disk
/// format that is nevertheless sound.
pub const XFS_UNSUPPORTED: &'static str = "Found unsupported filesystem features";

/// The filesystem is XFS.
pub open spec fn is_xfs(filesystem: Seq<char>) -> bool {
    filesystem == "xfs"@
}

/// The tool that checks a filesystem.
pub open spec fn check_tool(device: Seq<char>, filesystem: Seq<char>) -> CommandView {
    if is_xfs(filesystem) {
        CommandView { program: "xfs_repair"@, args: seq![device] }
    } else if filesystem == "fat16"@ {
        CommandView { program: "fsck.vfat"@, args: seq!["-p"@, device] }
    } else {
        CommandView { program: "fsck."@ + filesystem, args: seq!["-p"@, device] }
    }
}

/// What precedes the check of a filesystem: XFS is mounted and unmounted
/// once so that its log is replayed.
pub open spec fn check_preparation(device: Seq<char>, filesystem: Seq<char>) -> Seq<TaskView> {
    if is_xfs(filesystem) {
        seq![must(mount(device, ASSERT_PATH@, "nouuid"@)), must(unmount(ASSERT_PATH@, false))]
    } else {
        seq![]
    }
}

/// Plans the check of the filesystem on a device.
pub fn fsck_partition(partition_path: &str, filesystem: &str) -> (plan: CheckPlan)
    ensures
        views(plan.prepare@) == check_preparation(partition_path@, filesystem@),
        plan.tool@ == check_tool(partition_path@, filesystem@),
        plan.recheck == is_xfs(filesystem@),
{
    let mut prepare = empty_plan();
    if same_text(filesystem, "xfs") {
        push_must(&mut prepare, step_mount(partition_path, ASSERT_PATH, "nouuid"));
        push_must(&mut prepare, step_unmount(ASSERT_PATH, false));
        CheckPlan { prepare, tool: command("xfs_repair", args1(partition_path)), recheck: true }
    } else if same_text(filesystem, "fat16") {
        CheckPlan { prepare, tool: command("fsck.vfat", args2("-p", partition_path)), recheck: false }
    } else {
        let program = join2("fsck.", filesystem);
        CheckPlan {
            prepare,
            tool: command(program.as_str(), args2("-p", partition_path)),
            recheck: false,
        }
    }
}

/// The status that counts: a tool that could not be started counts as
/// having found nothing, and an XFS tool that turns the format down as
/// unsupported counts as having found nothing either.
pub open spec fn effective_exit(
    filesystem: Seq<char>,
    exit: ToolExit,
    recheck_errors: Option<Seq<char>>,
) -> ToolExit {
    if is_xfs(filesystem) && recheck_errors is Some && contains(
        recheck_errors->Some_0,
        XFS_UNSUPPORTED@,
    ) {
        ToolExit::Code { code: 0 }
    } else if exit == ToolExit::NotStarted {
        ToolExit::Code { code: 0 }
    } else {
        exit
    }
}

/// What a check means for the recovery. Status 4 says that the filesystem
/// needs an operator; status 1 from the XFS tool says that it is damaged;
/// a signal says that nothing is known. Everything else lets the recovery
/// go on.
pub open spec fn check_verdict(
    filesystem: Seq<char>,
    exit: ToolExit,
    recheck_errors: Option<Seq<char>>,
) -> Result<(), CheckError> {
    match effective_exit(filesystem, exit, recheck_errors) {
        ToolExit::Code { code } => if code == 4 {
            Err(CheckError::RepairNeeded)
        } else if code == 1 && is_xfs(filesystem) {
            Err(CheckError::GeneralError)
        } else {
            Ok(())
        },
        ToolExit::Signalled => Err(CheckError::Interrupted),
        ToolExit::NotStarted => Ok(()),
    }
}

/// Executable [`check_verdict`]. `recheck_errors` is what the second run
/// of the tool wrote to its error stream, where there was such a run.
pub fn fsck_verdict(filesystem: &str, exit: ToolExit, recheck_errors: Option<&str>) -> (r: Result<
    (),
    CheckError,
>)
    ensures
        r == check_verdict(filesystem@, exit, crate::scan::opt_text(recheck_errors)),
{
    let xfs = same_text(filesystem, "xfs");
    let excused = xfs && match recheck_errors {
        Some(errors) => text_contains(errors, XFS_UNSUPPORTED),
        None => false,
    };
    let effective = if excused {
        ToolExit::Code { code: 0 }
    } else {
        match exit {
            ToolExit::NotStarted => ToolExit::Code { code: 0 },
            other => other,
        }
    };
    match effective {
        ToolExit::Code { code } => {
            if code == 4 {
                Err(CheckError::RepairNeeded)
            } else if code == 1 && xfs {
                Err(CheckError::GeneralError)
            } else {
                Ok(())
            }
        },
        ToolExit::Signalled => Err(CheckError::Interrupted),
        ToolExit::NotStarted => Ok(()),
    }
}

// ---------------------------------------------------------------------------
// Boot mounts of the repair host
// ---------------------------------------------------------------------------
/// The devices behind the boot mount points of the repair host.
#[derive(Debug, Clone, PartialEq, Eq)]
pub struct BootMounts {
    /// Name of the device mounted on `/boot`.
    pub boot: Option<String>,
    /// Name of the device mounted on `/boot/efi`.
    pub efi: Option<String>,
}

/// Mathematical form of [`BootMounts`].
pub struct BootMountsView {
    pub boot: Option<Seq<char>>,
    pub efi: Option<Seq<char>>,
}

impl View for BootMounts {
    type V = BootMountsView;

    open spec fn view(&self) -> BootMountsView {
        BootMountsView {
            boot: match self.boot {
                Some(d) => Some(d@),
                None => None,
            },
            efi: match self.efi {
                Some(d) => Some(d@),
                None => None,
            },
        }
    }
}

/// A row of the block-device listing that shows a device mounted on `point`.
pub open spec fn shows_mount(line: Seq<char>, point: Seq<char>) -> bool {
    contains(line, "boot"@) && words(line).len() >= 2 && words(line)[1] == point
}

/// The device that the listing shows on `point`: the last such row decides.
pub open spec fn mounted_device(file: Seq<Seq<char>>, point: Seq<char>) -> Option<Seq<char>>
    decreases file.len(),
{
    if file.len() == 0 {
        None
    } else if shows_mount(file.last(), point) {
        Some(words(file.last())[0])
    } else {
        mounted_device(file.drop_last(), point)
    }
}

/// The boot mounts that a block-device listing shows.
pub open spec fn boot_mounts(listing: Seq<char>) -> BootMountsView {
    BootMountsView {
        boot: mounted_device(lines(listing), "/boot"@),
        efi: mounted_device(lines(listing), "/boot/efi"@),
    }
}

/// The query that lists the block devices with their mount points.
pub fn boot_mounts_query() -> (c: Command)
    ensures
        c@ == (CommandView { program: "lsblk"@, args: seq!["-ln"@, "-o"@, "NAME,MOUNTPOINT"@] }),
{
    command("lsblk", args3("-ln", "-o", "NAME,MOUNTPOINT"))
}

fn device_on(file: &Vec<Vec<char>>, point: &str) -> (r: Option<String>)
    ensures
        match r {
            Some(d) => mounted_device(texts(file@), point@) == Some(d@),
            None => mounted_device(texts(file@), point@) is None,
        },
{
    let boot = to_chars("boot");
    let target = to_chars(point);
    let mut found: Option<String> = None;
    let mut i: usize = 0;
    assert(texts(file@).take(0) == Seq::<Seq<char>>::empty());
    while i < file.len()
        invariant
            i <= file.len(),
            boot@ == "boot"@,
            target@ == point@,
            match found {
                Some(d) => mounted_device(texts(file@).take(i as int), point@) == Some(d@),
                None => mounted_device(texts(file@).take(i as int), point@) is None,
            },
        decreases file.len() - i,
    {
        proof {
            let upto = texts(file@).take(i + 1);
            assert(upto.drop_last() == texts(file@).take(i as int));
            assert(upto.last() == file@[i as int]@);
        }
        if holds(&file[i], &boot) {
            let fields = split_words(&file[i]);
            if fields.len() >= 2 {
                assert(texts(fields@)[0] == fields@[0]@);
                assert(texts(fields@)[1] == fields@[1]@);
                if same_chars(&fields[1], &target) {
                    found = Some(from_chars(&fields[0]));
                }
            }
        }
        i = i + 1;
    }
    assert(texts(file@).take(file.len() as int) == texts(file@));
    found
}

/// Reads the boot mounts of the repair host out of a block-device listing.
pub fn parse_boot_mounts(listing: &str) -> (r: BootMounts)
    ensures
        r@ == boot_mounts(listing@),
{
    let file = split_lines(&to_chars(listing));
    let boot = device_on(&file, "/boot");
    let efi = device_on(&file, "/boot/efi");
    BootMounts { boot, efi }
}

/// What puts the boot mounts of the repair host right again: both are
/// taken off, EFI first, and mounted anew from the devices that were there
/// before, boot first. `strict` says whether a failed unmount ends the plan.
pub open spec fn restore_mounts(old: BootMountsView, strict: bool) -> Seq<TaskView> {
    let release = |target: Seq<char>|
        TaskView { step: unmount(target, false), required: strict };
    (if old.efi is Some {
        seq![release("/boot/efi"@)]
    } else {
        seq![]
    }) + (if old.boot is Some {
        seq![release("/boot"@)]
    } else {
        seq![]
    }) + (if old.boot is Some {
        seq![must(mount(DEV@ + old.boot->Some_0, "/boot"@, ""@))]
    } else {
        seq![]
    }) + (if old.efi is Some {
        seq![must(mount(DEV@ + old.efi->Some_0, "/boot/efi"@, ""@))]
    } else {
        seq![]
    })
}

/// Executable [`restore_mounts`].
pub fn plan_restore_mounts(old: &BootMounts, strict: bool) -> (plan: Vec<Task>)
    ensures
        views(plan@) == restore_mounts(old@, strict),
{
    let mut plan = empty_plan();
    if old.efi.is_some() {
        if strict {
            push_must(&mut plan, step_unmount("/boot/efi", false));
        } else {
            push_may(&mut plan, step_unmount("/boot/efi", false));
        }
    }
    if old.boot.is_some() {
        if strict {
            push_must(&mut plan, step_unmount("/boot", false));
        } else {
            push_may(&mut plan, step_unmount("/boot", false));
        }
    }
    match &old.boot {
        Some(device) => {
            let source = join2(DEV, device.as_str());
            push_must(&mut plan, step_mount(source.as_str(), "/boot", ""));
        },
        None => {},
    }
    match &old.efi {
        Some(device) => {
            let source = join2(DEV, device.as_str());
            push_must(&mut plan, step_mount(source.as_str(), "/boot/efi", ""));
        },
        None => {},
    }
    assert(views(plan@) =~= restore_mounts(old@, strict));
    plan
}

// ---------------------------------------------------------------------------
// Volume-group import
// ---------------------------------------------------------------------------
/// What the LVM tools show about the volume groups on the repair host.
#[derive(Debug, Clone, Copy, PartialEq, Eq, Structural)]
pub struct VgObservation {
    /// A group is known under the temporary alias.
    pub rescuevg_present: bool,
    /// A group with the canonical name is active.
    pub host_rootvg_active: bool,
    /// How many physical volumes claim the canonical name.
    pub rootvg_count: usize,
}

/// The query that lists the names of the volume groups.
pub fn vgs_query() -> (c: Command)
    ensures
        c@ == (CommandView { program: "vgs"@, args: seq!["--noheadings"@, "-o"@, "vg_name"@] }),
{
    command("vgs", args3("--noheadings", "-o", "vg_name"))
}

/// The query that scans for physical volumes.
pub fn pvscan_query() -> (c: Command)
    ensures
        c@ == (CommandView { program: "pvscan"@, args: seq![] }),
{
    let args: Vec<String> = Vec::new();
    assert(strings(args@) =~= Seq::<Seq<char>>::empty());
    command("pvscan", args)
}

/// The listing of the groups shows the temporary alias.
pub open spec fn shows_rescuevg(vgs_output: Seq<char>) -> bool {
    contains(vgs_output, "rescuevg"@)
}

/// A row of the scan that counts a physical volume of the canonical
/// group: it names the group and is no warning, no note on duplicates and
/// no total.
pub open spec fn claims_rootvg(line: Seq<char>) -> bool {
    contains(line, "rootvg"@) && !contains(line, "WARNING"@) && !contains(line, "duplicate"@)
        && !contains(line, "Total"@)
}

/// How many physical volumes the scan shows for the canonical group.
pub open spec fn rootvg_claims(pvscan_output: Seq<char>) -> nat {
    count_match(lines(pvscan_output), |line: Seq<char>| claims_rootvg(line))
}

/// Executable [`rootvg_claims`].
pub fn count_rootvg(pvscan_output: &str) -> (r: usize)
    ensures
        r == rootvg_claims(pvscan_output@),
{
    let file = split_lines(&to_chars(pvscan_output));
    let rootvg = to_chars("rootvg");
    let warning = to_chars("WARNING");
    let duplicate = to_chars("duplicate");
    let total = to_chars("Total");
    let ghost p = |line: Seq<char>| claims_rootvg(line);
    let mut count: usize = 0;
    let mut i: usize = 0;
    assert(texts(file@).take(0) == Seq::<Seq<char>>::empty());
    while i < file.len()
        invariant
            i <= file.len(),
            texts(file@) == lines(pvscan_output@),
            rootvg@ == "rootvg"@,
            warning@ == "WARNING"@,
            duplicate@ == "duplicate"@,
            total@ == "Total"@,
            p == |line: Seq<char>| claims_rootvg(line),
            count <= i,
            count == count_match(texts(file@).take(i as int), p),
        decreases file.len() - i,
    {
        proof {
            let upto = texts(file@).take(i + 1);
            assert(upto.drop_last() == texts(file@).take(i as int));
            assert(upto.last() == file@[i as int]@);
        }
        let line = &file[i];
        if holds(line, &rootvg) && !holds(line, &warning) && !holds(line, &duplicate) && !holds(
            line,
            &total,
        ) {
            count = count + 1;
        }
        i = i + 1;
    }
    assert(texts(file@).take(file.len() as int) == texts(file@));
    count
}

/// Puts together what the tools show. `rootvg_active` says whether the
/// device directory of the canonical group exists.
pub fn observe_volume_groups(vgs_output: &str, rootvg_active: bool, pvscan_output: &str) -> (r:
    VgObservation)
    ensures
        r.rescuevg_present == shows_rescuevg(vgs_output@),
        r.host_rootvg_active == rootvg_active,
        r.rootvg_count == rootvg_claims(pvscan_output@),
{
    VgObservation {
        rescuevg_present: text_contains(vgs_output, "rescuevg"),
        host_rootvg_active: rootvg_active,
        rootvg_count: count_rootvg(pvscan_output),
    }
}

/// Whether the group of the disk has to be imported under an alias: no
/// group carries the alias yet, a group with the canonical name is active,
/// and the canonical name is not claimed by exactly one physical volume.
pub open spec fn import_needed(seen: VgObservation) -> bool {
    !seen.rescuevg_present && seen.host_rootvg_active && seen.rootvg_count != 1
}

/// The import: the group of the disk is cloned in under the alias, the
/// group of the host is set aside under the name `oldvg`, the alias gets
/// the canonical name, and the boot mounts of the host are put right.
/// Every tool is required: where the clone import fails, no group is renamed.
pub open spec fn import_plan(
    seen: VgObservation,
    device: Seq<char>,
    old: BootMountsView,
) -> Seq<TaskView> {
    if import_needed(seen) {
        seq![
            must(run("vgimportclone"@, seq!["-n"@, "rescuevg"@, device])),
            must(run("vgscan"@, seq!["--mknodes"@])),
            must(run("vgrename"@, seq!["rootvg"@, "oldvg"@])),
            must(run("vgrename"@, seq!["rescuevg"@, "rootvg"@])),
            must(run("vgchange"@, seq!["-ay"@])),
        ] + restore_mounts(old, false)
    } else {
        seq![]
    }
}

/// What precedes the look at the volume groups: a scan for physical volumes.
pub fn scan_volume_groups() -> (plan: Vec<Task>)
    ensures
        views(plan@) == seq![must(run("pvscan"@, seq![]))],
{
    let mut plan = empty_plan();
    let args: Vec<String> = Vec::new();
    assert(strings(args@) =~= Seq::<Seq<char>>::empty());
    push_must(&mut plan, step_run("pvscan", args));
    plan
}

/// Plans the import of the volume group that lies on a partition of the
/// disk. Where no import is needed the plan is empty, so that a second
/// call after an import does nothing.
pub fn importvg(
    seen: VgObservation,
    disk_path: &str,
    is_nvme: bool,
    partition_number: i32,
    old_mounts: &BootMounts,
) -> (plan: Vec<Task>)
    ensures
        views(plan@) == import_plan(
            seen,
            partition_path(disk_path@, is_nvme, partition_number as int),
            old_mounts@,
        ),
{
    let mut plan = empty_plan();
    if seen.rescuevg_present || !seen.host_rootvg_active || seen.rootvg_count == 1 {
        return plan;
    }
    let device = partition_device(disk_path, is_nvme, partition_number);
    push_must(&mut plan, step_run("vgimportclone", args3("-n", "rescuevg", device.as_str())));
    push_must(&mut plan, step_run("vgscan", args1("--mknodes")));
    push_must(&mut plan, step_run("vgrename", args2("rootvg", "oldvg")));
    push_must(&mut plan, step_run("vgrename", args2("rescuevg", "rootvg")));
    push_must(&mut plan, step_run("vgchange", args1("-ay")));
    append_plan(&mut plan, plan_restore_mounts(old_mounts, false));
    assert(views(plan@) =~= import_plan(seen, device@, old_mounts@));
    plan
}

/// A name that a volume group can carry during a recovery.
#[derive(Debug, Clone, Copy, PartialEq, Eq, Structural)]
pub enum VgName {
    /// The canonical name.
    Rootvg,
    /// The name under which the group of the host is set aside.
    Oldvg,
    /// The temporary alias.
    Rescuevg,
}

/// The alias mapping: under which name the group of the repair host and
/// the group of the disk are known. `None` stands for a group that is not there.
#[derive(Debug, Clone, Copy, PartialEq, Eq, Structural)]
pub struct VgAliases {
    pub host: Option<VgName>,
    pub disk: Option<VgName>,
}

/// What the tools show under an alias mapping.
pub open spec fn observed(names: VgAliases) -> VgObservation {
    let host_is_root = names.host == Some(VgName::Rootvg);
    let disk_is_root = names.disk == Some(VgName::Rootvg);
    VgObservation {
        rescuevg_present: names.host == Some(VgName::Rescuevg) || names.disk == Some(
            VgName::Rescuevg,
        ),
        host_rootvg_active: host_is_root || disk_is_root,
        rootvg_count: if host_is_root && disk_is_root {
            2usize
        } else if host_is_root || disk_is_root {
            1usize
        } else {
            0usize
        },
    }
}

/// The alias mapping after the import plan for it was carried out.
pub open spec fn imported(names: VgAliases) -> VgAliases {
    if import_needed(observed(names)) {
        VgAliases { host: Some(VgName::Oldvg), disk: Some(VgName::Rootvg) }
    } else {
        names
    }
}

/// Importing is idempotent: after an import a second one finds nothing to
/// do, plans no step and so no rename, and leaves the alias mapping as the
/// first one made it.
pub proof fn lemma_import_is_idempotent(names: VgAliases, device: Seq<char>, old: BootMountsView)
    ensures
        imported(imported(names)) == imported(names),
        !import_needed(observed(imported(names))),
        import_plan(observed(imported(names)), device, old) == Seq::<TaskView>::empty(),
{
}

// ---------------------------------------------------------------------------
// Putting the repair host right again
// ---------------------------------------------------------------------------
/// The step that gives the group of the host its name back.
pub open spec fn rename_back() -> TaskView {
    may(run("vgrename"@, seq!["oldvg"@, "rootvg"@]))
}

/// Plans the renaming of the host's group back to the canonical name. A
/// failure is logged and passed over.
pub fn rename_oldvg() -> (plan: Vec<Task>)
    ensures
        views(plan@) == seq![rename_back()],
{
    let mut plan = empty_plan();
    push_may(&mut plan, step_run("vgrename", args2("oldvg", "rootvg")));
    plan
}

/// The file through which a disk is taken off the bus.
pub open spec fn delete_file(disk_path: Seq<char>) -> Seq<char> {
    "/sys/block/"@ + without_text(disk_path, DEV@) + "/device/delete"@
}

/// Taking the disk off the bus: its group is deactivated, then the disk
/// is deleted from the bus.
pub open spec fn disable_plan(disk_path: Seq<char>) -> Seq<TaskView> {
    seq![
        must(run("vgchange"@, seq!["-an"@, "rootvg"@])),
        must(write_file(delete_file(disk_path), "1"@)),
    ]
}

/// Plans taking the disk under recovery off the bus.
pub fn disable_broken_disk(disk_path: &str) -> (plan: Vec<Task>)
    ensures
        views(plan@) == disable_plan(disk_path@),
{
    let name = from_chars(&remove_text(&to_chars(disk_path), &to_chars(DEV)));
    let file = join3("/sys/block/", name.as_str(), "/device/delete");
    let mut plan = empty_plan();
    push_must(&mut plan, step_run("vgchange", args2("-an", "rootvg")));
    push_must(&mut plan, step_write_file(file.as_str(), "1"));
    plan
}

/// The rescan of the bus: the scan is triggered, the device manager is
/// told, and the boot mounts of the host, which the rescan may have moved
/// to the wrong disk, are put right.
pub open spec fn rescan_plan(old: BootMountsView) -> Seq<TaskView> {
    seq![
        may(write_file("/sys/class/scsi_host/host1/scan"@, "- - -"@)),
        may(run("udevadm"@, seq!["trigger"@])),
    ] + restore_mounts(old, true)
}

/// Plans the rescan of the bus. `old_mounts` are the boot mounts of the
/// host as they were before.
pub fn rescan_host(old_mounts: &BootMounts) -> (plan: Vec<Task>)
    ensures
        views(plan@) == rescan_plan(old_mounts@),
{
    let mut plan = empty_plan();
    push_may(&mut plan, step_write_file("/sys/class/scsi_host/host1/scan", "- - -"));
    push_may(&mut plan, step_run("udevadm", args1("trigger")));
    append_plan(&mut plan, plan_restore_mounts(old_mounts, true));
    plan
}

} // verus!
