//! The encrypted-volume handler: how an encrypted disk is unlocked and how
//! the passphrase is disposed of.

use crate::cli::{CliInfo, CliInfoView, PASSWORD_MASK};
use crate::constants::{
    ADE_OSENCRYPT_PATH,
    INVESTIGATEROOT_DIR,
    RESCUE_BEK,
    RESCUE_BEK_BOOT,
    RESCUE_BEK_LINUX_PASS_PHRASE_FILE_NAME,
    RESCUE_ENCRYPT,
    RESCUE_ROOTVG,
    RESCUE_TMP_LINUX_PASS_PHRASE_FILE_NAME,
    TYPE_LINUX,
};
use crate::distro::Distro;
use crate::lines::strings;
use crate::partition::{
    any_match,
    boot_partition_number,
    find_boot_partition_number,
    find_root_partition_number,
    has_lvm_partition,
    root_partition_number,
    PartInfo,
    PartInfoView,
};
use crate::scan::{partition_device, partition_path};
use crate::step::{
    append_plan,
    args1,
    args2,
    args3,
    command,
    empty_plan,
    may,
    mount,
    must,
    push_arg,
    push_may,
    push_must,
    remove_file,
    require_file,
    run,
    step_mount,
    step_remove_file,
    step_require_file,
    step_run,
    step_unmount,
    step_write_private_file,
    unmount,
    views,
    write_private_file,
    Command,
    CommandView,
    StepView,
    Task,
    TaskView,
};
use crate::text::{join2, same_text, trim, trim_text};
use vstd::prelude::*;

verus! {

/// Why an encrypted disk cannot be unlocked.
#[derive(Debug, Clone, Copy, PartialEq, Eq, Structural)]
pub enum AdeError {
    /// No partition is unresolved, so that there is nothing to unlock.
    NoEncryptedPartition,
    /// No passphrase was supplied and no key device is attached.
    NoKeyDevice,
    /// An encrypted partition is neither an LVM physical volume nor a
    /// Linux filesystem.
    UnknownPartitionType,
}

/// Where the recovery runs.
#[derive(Debug, Clone, Copy, PartialEq, Eq, Structural)]
pub enum AdeContext {
    /// On a repair host that the platform set up.
    RepairVm,
    /// On any other host.
    Manual,
}

/// The context that the answer of the metadata service stands for. No
/// answer at all means that the host is no repair host.
pub open spec fn context_of(is_repair_vm: Option<bool>) -> AdeContext {
    if is_repair_vm == Some(true) {
        AdeContext::RepairVm
    } else {
        AdeContext::Manual
    }
}

/// Executable [`context_of`]. `is_repair_vm` is `None` where the metadata
/// service could not be reached or gave an answer that cannot be read.
pub fn detect_context(is_repair_vm: Option<bool>) -> (r: AdeContext)
    ensures
        r == context_of(is_repair_vm),
{
    match is_repair_vm {
        Some(true) => AdeContext::RepairVm,
        _ => AdeContext::Manual,
    }
}

/// The query that tells whether a directory is a mount point: it succeeds
/// exactly when it is one.
pub fn is_mountpoint(directory: &str) -> (c: Command)
    ensures
        c@ == (CommandView { program: "mountpoint"@, args: seq!["-q"@, directory@] }),
{
    command("mountpoint", args2("-q", directory))
}

/// The step that closes the mapping of the unlocked volume.
pub open spec fn close_mapping() -> StepView {
    run("cryptsetup"@, seq!["close"@, RESCUE_ENCRYPT@])
}

/// What takes down a volume that the platform attached by itself: it is
/// unmounted, its volume group is deactivated where the disk has one, and
/// its mapping is closed.
pub open spec fn existing_setup_teardown(parts: Seq<PartInfoView>) -> Seq<TaskView> {
    seq![must(unmount(INVESTIGATEROOT_DIR@, true))] + (if any_match(
        parts,
        |p: PartInfoView| p.is_lvm(),
    ) {
        seq![must(run("vgchange"@, seq!["-an"@, RESCUE_ROOTVG@]))]
    } else {
        seq![]
    }) + seq![must(run("cryptsetup"@, seq!["close"@, "osencrypt"@]))]
}

/// Plans the take-down of a volume that the platform attached by itself.
pub fn modify_existing_ade_setup(partitions: &Vec<PartInfo>) -> (plan: Vec<Task>)
    ensures
        views(plan@) == existing_setup_teardown(views(partitions@)),
{
    let mut plan = empty_plan();
    push_must(&mut plan, step_unmount(INVESTIGATEROOT_DIR, true));
    if has_lvm_partition(partitions) {
        push_must(&mut plan, step_run("vgchange", args2("-an", RESCUE_ROOTVG)));
    }
    push_must(&mut plan, step_run("cryptsetup", args2("close", "osencrypt")));
    assert(views(plan@) =~= existing_setup_teardown(views(partitions@)));
    plan
}

/// What has to be taken down before the disk is unlocked: on a repair
/// host, the volume that the platform attached by itself, if it is
/// mounted; nothing otherwise.
pub open spec fn ade_preparation(
    context: AdeContext,
    investigateroot_mounted: bool,
    parts: Seq<PartInfoView>,
) -> Seq<TaskView> {
    if context == AdeContext::RepairVm && investigateroot_mounted {
        existing_setup_teardown(parts)
    } else {
        seq![]
    }
}

/// Plans what precedes the unlock.
pub fn prepare_ade_environment(
    context: AdeContext,
    investigateroot_mounted: bool,
    partitions: &Vec<PartInfo>,
) -> (plan: Vec<Task>)
    ensures
        views(plan@) == ade_preparation(context, investigateroot_mounted, views(partitions@)),
{
    match context {
        AdeContext::RepairVm => {
            if investigateroot_mounted {
                modify_existing_ade_setup(partitions)
            } else {
                empty_plan()
            }
        },
        AdeContext::Manual => empty_plan(),
    }
}

/// The step that makes a directory with its parents by the `mkdir` tool.
pub open spec fn make_dir(path: Seq<char>) -> TaskView {
    must(run("mkdir"@, seq!["-p"@, path]))
}

/// Plans the mount point of the key device.
pub fn create_rescue_bek_dir() -> (plan: Vec<Task>)
    ensures
        views(plan@) == seq![make_dir(RESCUE_BEK@)],
{
    let mut plan = empty_plan();
    push_must(&mut plan, step_run("mkdir", args2("-p", RESCUE_BEK)));
    plan
}

/// Plans the mount point of the boot partition.
pub fn create_rescue_bek_boot() -> (plan: Vec<Task>)
    ensures
        views(plan@) == seq![make_dir(RESCUE_BEK_BOOT@)],
{
    let mut plan = empty_plan();
    push_must(&mut plan, step_run("mkdir", args2("-p", RESCUE_BEK_BOOT)));
    plan
}

/// The query that finds the key device by its label.
pub fn key_device_query() -> (c: Command)
    ensures
        c@ == (CommandView {
            program: "blkid"@,
            args: seq!["-t"@, "LABEL=BEK VOLUME"@, "-o"@, "device"@],
        }),
{
    let mut args = args3("-t", "LABEL=BEK VOLUME", "-o");
    push_arg(&mut args, "device");
    assert(strings(args@) =~= seq!["-t"@, "LABEL=BEK VOLUME"@, "-o"@, "device"@]);
    command("blkid", args)
}

/// The mount of the key device that a label query found; `None` where it
/// found none. Once the device is mounted the passphrase file must be on
/// it: a key device without that file ends the plan.
pub open spec fn key_device_mount(found: Seq<char>) -> Option<Seq<TaskView>> {
    if found.len() == 0 {
        None
    } else {
        Some(
            seq![
                make_dir(RESCUE_BEK@),
                must(mount(trim(found), RESCUE_BEK@, ""@)),
                must(require_file(RESCUE_BEK_LINUX_PASS_PHRASE_FILE_NAME@)),
            ],
        )
    }
}

/// Whether the passphrase has to come from the key device: it has when
/// the operator supplied none.
pub fn needs_key_device(cli_info: &CliInfo) -> (r: bool)
    ensures
        r == (cli_info@.ade_password.len() == 0),
{
    cli_info.ade_password.as_str().is_empty()
}

/// Plans the mount of the key device. `found` is the answer to
/// [`key_device_query`]. Fails exactly when that answer is empty.
pub fn mount_bek_volume(found: &str) -> (r: Result<Vec<Task>, AdeError>)
    ensures
        match r {
            Ok(plan) => key_device_mount(found@) == Some(views(plan@)),
            Err(e) => e == AdeError::NoKeyDevice && key_device_mount(found@) is None,
        },
{
    if found.is_empty() {
        return Err(AdeError::NoKeyDevice);
    }
    let mut plan = create_rescue_bek_dir();
    let device = trim_text(found);
    push_must(&mut plan, step_mount(device.as_str(), RESCUE_BEK, ""));
    push_must(&mut plan, step_require_file(RESCUE_BEK_LINUX_PASS_PHRASE_FILE_NAME));
    Ok(plan)
}

/// Plans the unmount of the key device.
pub fn umount_bek_volume() -> (plan: Vec<Task>)
    ensures
        views(plan@) == seq![must(unmount(RESCUE_BEK@, false))],
{
    let mut plan = empty_plan();
    push_must(&mut plan, step_unmount(RESCUE_BEK, false));
    plan
}

/// The mount of the boot partition, which holds the header of the
/// encrypted volume; nothing where the disk has no boot partition and the
/// header is supplied from elsewhere.
pub open spec fn boot_mount(parts: Seq<PartInfoView>, disk: Seq<char>, is_nvme: bool) -> Seq<
    TaskView,
> {
    match boot_partition_number(parts) {
        Some(n) => seq![
            make_dir(RESCUE_BEK_BOOT@),
            must(mount(partition_path(disk, is_nvme, n), RESCUE_BEK_BOOT@, ""@)),
        ],
        None => seq![],
    }
}

/// Plans the mount of the boot partition.
pub fn mount_boot_partition(disk_path: &str, is_nvme: bool, partitions: &Vec<PartInfo>) -> (plan:
    Vec<Task>)
    ensures
        views(plan@) == boot_mount(views(partitions@), disk_path@, is_nvme),
{
    match find_boot_partition_number(partitions) {
        Some(n) => {
            let mut plan = create_rescue_bek_boot();
            let device = partition_device(disk_path, is_nvme, n);
            push_must(&mut plan, step_mount(device.as_str(), RESCUE_BEK_BOOT, ""));
            plan
        },
        None => empty_plan(),
    }
}

/// Plans the unmount of the boot partition.
pub fn umount_boot_partition() -> (plan: Vec<Task>)
    ensures
        views(plan@) == seq![must(unmount(RESCUE_BEK_BOOT@, false))],
{
    let mut plan = empty_plan();
    push_must(&mut plan, step_unmount(RESCUE_BEK_BOOT, false));
    plan
}

/// Plans the temporary file that holds the passphrase. The file is
/// private: its owner alone can read it.
pub fn create_pass_phrase_file(phrase: &str) -> (plan: Vec<Task>)
    ensures
        views(plan@) == seq![
            must(write_private_file(RESCUE_TMP_LINUX_PASS_PHRASE_FILE_NAME@, phrase@)),
        ],
{
    let mut plan = empty_plan();
    push_must(&mut plan, step_write_private_file(RESCUE_TMP_LINUX_PASS_PHRASE_FILE_NAME, phrase));
    plan
}

/// Plans the closing of the mapping of the unlocked volume.
pub fn close_rescueencrypt() -> (plan: Vec<Task>)
    ensures
        views(plan@) == seq![must(close_mapping())],
{
    let mut plan = empty_plan();
    push_must(&mut plan, step_run("cryptsetup", args2("close", RESCUE_ENCRYPT)));
    plan
}

/// An unlock: what is done, and what is undone when it fails.
///
/// The driver performs `steps` in order. When a required step fails it
/// performs `unwind`, each step of it as far as it goes, and reports the
/// failure; it never tries the unlock a second time.
#[derive(Debug, PartialEq, Eq)]
pub struct UnlockPlan {
    pub steps: Vec<Task>,
    pub unwind: Vec<Task>,
}

/// Mathematical form of an [`UnlockPlan`].
pub struct UnlockPlanView {
    pub steps: Seq<TaskView>,
    pub unwind: Seq<TaskView>,
}

impl View for UnlockPlan {
    type V = UnlockPlanView;

    open spec fn view(&self) -> UnlockPlanView {
        UnlockPlanView { steps: views(self.steps@), unwind: views(self.unwind@) }
    }
}

/// The header of the encrypted volume on the boot partition.
pub open spec fn header_file() -> Seq<char> {
    RESCUE_BEK_BOOT@ + "/luks/osluksheader"@
}

/// The step that unlocks `device` with the passphrase in `key_file`.
pub open spec fn open_volume(key_file: Seq<char>, device: Seq<char>) -> TaskView {
    must(
        run(
            "cryptsetup"@,
            seq![
                "luksOpen"@,
                "--key-file"@,
                key_file,
                "--header"@,
                header_file(),
                device,
                RESCUE_ENCRYPT@,
            ],
        ),
    )
}

/// The unmount of the boot partition, where one was mounted.
pub open spec fn boot_release(parts: Seq<PartInfoView>, required: bool) -> Seq<TaskView> {
    if boot_partition_number(parts) is Some {
        seq![TaskView { step: unmount(RESCUE_BEK_BOOT@, false), required }]
    } else {
        seq![]
    }
}

/// The unlock with a passphrase that the operator supplied: the
/// passphrase goes into a private temporary file, the volume is opened
/// with it, and the file is deleted, whether the volume opened or not.
pub open spec fn unlock_with_passphrase(
    passphrase: Seq<char>,
    parts: Seq<PartInfoView>,
    disk: Seq<char>,
    is_nvme: bool,
    root: int,
) -> UnlockPlanView {
    let key = RESCUE_TMP_LINUX_PASS_PHRASE_FILE_NAME@;
    UnlockPlanView {
        steps: seq![must(write_private_file(key, passphrase))] + boot_mount(parts, disk, is_nvme) + seq![
            open_volume(key, partition_path(disk, is_nvme, root)),
        ] + boot_release(parts, true) + seq![must(remove_file(key))],
        unwind: boot_release(parts, false) + seq![may(close_mapping()), may(remove_file(key))],
    }
}

/// The unlock with the passphrase on the key device.
pub open spec fn unlock_with_key_device(
    key_mount: Seq<TaskView>,
    parts: Seq<PartInfoView>,
    disk: Seq<char>,
    is_nvme: bool,
    root: int,
) -> UnlockPlanView {
    UnlockPlanView {
        steps: key_mount + boot_mount(parts, disk, is_nvme) + seq![
            open_volume(
                RESCUE_BEK_LINUX_PASS_PHRASE_FILE_NAME@,
                partition_path(disk, is_nvme, root),
            ),
        ] + boot_release(parts, true) + seq![must(unmount(RESCUE_BEK@, false))],
        unwind: seq![may(unmount(RESCUE_BEK@, false))] + boot_release(parts, false) + seq![
            may(close_mapping()),
        ],
    }
}

/// The unlock of the disk, or why there is none. `key_device` is the
/// answer to the label query for the key device; it is read only when no
/// passphrase was supplied.
pub open spec fn unlock_plan(
    passphrase: Seq<char>,
    parts: Seq<PartInfoView>,
    disk: Seq<char>,
    is_nvme: bool,
    key_device: Seq<char>,
) -> Result<UnlockPlanView, AdeError> {
    match root_partition_number(parts) {
        None => Err(AdeError::NoEncryptedPartition),
        Some(root) => if passphrase.len() > 0 {
            Ok(unlock_with_passphrase(passphrase, parts, disk, is_nvme, root))
        } else {
            match key_device_mount(key_device) {
                Some(key_mount) => Ok(
                    unlock_with_key_device(key_mount, parts, disk, is_nvme, root),
                ),
                None => Err(AdeError::NoKeyDevice),
            }
        },
    }
}

fn plan_boot_release(partitions: &Vec<PartInfo>, required: bool) -> (plan: Vec<Task>)
    ensures
        views(plan@) == boot_release(views(partitions@), required),
{
    let mut plan = empty_plan();
    if find_boot_partition_number(partitions).is_some() {
        if required {
            push_must(&mut plan, step_unmount(RESCUE_BEK_BOOT, false));
        } else {
            push_may(&mut plan, step_unmount(RESCUE_BEK_BOOT, false));
        }
    }
    plan
}

fn plan_open_volume(key_file: &str, device: &str) -> (plan: Vec<Task>)
    ensures
        views(plan@) == seq![open_volume(key_file@, device@)],
{
    let header = join2(RESCUE_BEK_BOOT, "/luks/osluksheader");
    let mut args = args3("luksOpen", "--key-file", key_file);
    push_arg(&mut args, "--header");
    push_arg(&mut args, header.as_str());
    push_arg(&mut args, device);
    push_arg(&mut args, RESCUE_ENCRYPT);
    assert(strings(args@) =~= seq![
        "luksOpen"@,
        "--key-file"@,
        key_file@,
        "--header"@,
        header_file(),
        device@,
        RESCUE_ENCRYPT@,
    ]);
    let mut plan = empty_plan();
    push_must(&mut plan, step_run("cryptsetup", args));
    plan
}

/// Plans the unlock of the encrypted partition and removes the passphrase
/// from the settings.
///
/// With a passphrase in the settings, the passphrase is written to a
/// private temporary file, used once, and the file is deleted on success
/// and on failure alike; the settings hold a mask afterwards. Without one,
/// the passphrase file on the key device is used.
///
/// Fails, and leaves the settings as they are, when no partition is
/// unresolved, or when there is neither a passphrase nor a key device.
pub fn enable_encrypted_partition(
    cli_info: &mut CliInfo,
    partitions: &Vec<PartInfo>,
    disk_path: &str,
    is_nvme: bool,
    key_device: &str,
) -> (r: Result<UnlockPlan, AdeError>)
    ensures
        match unlock_plan(
            old(cli_info)@.ade_password,
            views(partitions@),
            disk_path@,
            is_nvme,
            key_device@,
        ) {
            Ok(plan) => r is Ok && r->Ok_0@ == plan,
            Err(e) => r == Err::<UnlockPlan, AdeError>(e),
        },
        final(cli_info)@ == if r is Ok && old(cli_info)@.ade_password.len() > 0 {
            CliInfoView { ade_password: PASSWORD_MASK@, ..old(cli_info)@ }
        } else {
            old(cli_info)@
        },
{
    let root = match find_root_partition_number(partitions) {
        Some(root) => root,
        None => {
            return Err(AdeError::NoEncryptedPartition);
        },
    };
    let device = partition_device(disk_path, is_nvme, root);
    let ghost parts = views(partitions@);
    if !cli_info.ade_password.as_str().is_empty() {
        let mut steps = create_pass_phrase_file(cli_info.ade_password.as_str());
        append_plan(&mut steps, mount_boot_partition(disk_path, is_nvme, partitions));
        append_plan(
            &mut steps,
            plan_open_volume(RESCUE_TMP_LINUX_PASS_PHRASE_FILE_NAME, device.as_str()),
        );
        append_plan(&mut steps, plan_boot_release(partitions, true));
        push_must(&mut steps, step_remove_file(RESCUE_TMP_LINUX_PASS_PHRASE_FILE_NAME));
        let mut unwind = plan_boot_release(partitions, false);
        push_may(&mut unwind, step_run("cryptsetup", args2("close", RESCUE_ENCRYPT)));
        push_may(&mut unwind, step_remove_file(RESCUE_TMP_LINUX_PASS_PHRASE_FILE_NAME));
        proof {
            let want = unlock_with_passphrase(
                cli_info@.ade_password,
                parts,
                disk_path@,
                is_nvme,
                root as int,
            );
            assert(views(steps@) =~= want.steps);
            assert(views(unwind@) =~= want.unwind);
        }
        cli_info.clear_password();
        Ok(UnlockPlan { steps, unwind })
    } else {
        let mut steps = match mount_bek_volume(key_device) {
            Ok(plan) => plan,
            Err(e) => {
                return Err(e);
            },
        };
        let ghost key_mount = views(steps@);
        append_plan(&mut steps, mount_boot_partition(disk_path, is_nvme, partitions));
        append_plan(
            &mut steps,
            plan_open_volume(RESCUE_BEK_LINUX_PASS_PHRASE_FILE_NAME, device.as_str()),
        );
        append_plan(&mut steps, plan_boot_release(partitions, true));
        push_must(&mut steps, step_unmount(RESCUE_BEK, false));
        let mut unwind = empty_plan();
        push_may(&mut unwind, step_unmount(RESCUE_BEK, false));
        append_plan(&mut unwind, plan_boot_release(partitions, false));
        push_may(&mut unwind, step_run("cryptsetup", args2("close", RESCUE_ENCRYPT)));
        proof {
            let want = unlock_with_key_device(key_mount, parts, disk_path@, is_nvme, root as int);
            assert(views(steps@) =~= want.steps);
            assert(views(unwind@) =~= want.unwind);
        }
        Ok(UnlockPlan { steps, unwind })
    }
}

/// Plans the unlock of a disk that the platform has not attached by itself.
/// It is the unlock of [`enable_encrypted_partition`].
pub fn mount_ade_manually(
    cli_info: &mut CliInfo,
    partitions: &Vec<PartInfo>,
    disk_path: &str,
    is_nvme: bool,
    key_device: &str,
) -> (r: Result<UnlockPlan, AdeError>)
    ensures
        match unlock_plan(
            old(cli_info)@.ade_password,
            views(partitions@),
            disk_path@,
            is_nvme,
            key_device@,
        ) {
            Ok(plan) => r is Ok && r->Ok_0@ == plan,
            Err(e) => r == Err::<UnlockPlan, AdeError>(e),
        },
        final(cli_info)@ == if r is Ok && old(cli_info)@.ade_password.len() > 0 {
            CliInfoView { ade_password: PASSWORD_MASK@, ..old(cli_info)@ }
        } else {
            old(cli_info)@
        },
{
    enable_encrypted_partition(cli_info, partitions, disk_path, is_nvme, key_device)
}

/// A passphrase that the operator supplied is disposed of on every path:
/// the plan starts by writing it to the private temporary file; exactly
/// one step of the plan is the unlock, which reads that file; and both the
/// plan and what undoes it on failure end by deleting the file.
pub proof fn lemma_passphrase_is_disposed(
    passphrase: Seq<char>,
    parts: Seq<PartInfoView>,
    disk: Seq<char>,
    is_nvme: bool,
    key_device: Seq<char>,
)
    requires
        passphrase.len() > 0,
        unlock_plan(passphrase, parts, disk, is_nvme, key_device) is Ok,
    ensures
        ({
            let plan = unlock_plan(passphrase, parts, disk, is_nvme, key_device)->Ok_0;
            let key = RESCUE_TMP_LINUX_PASS_PHRASE_FILE_NAME@;
            let device = partition_path(disk, is_nvme, root_partition_number(parts)->Some_0);
            &&& plan.steps[0] == must(write_private_file(key, passphrase))
            &&& plan.steps.last() == must(remove_file(key))
            &&& plan.unwind.last() == may(remove_file(key))
            &&& exists|at: int|
                0 <= at < plan.steps.len() && plan.steps[at] == open_volume(key, device) && forall|
                    i: int,
                |
                    0 <= i < plan.steps.len() && i != at ==> #[trigger] plan.steps[i]
                        != open_volume(key, device)
        }),
{
    let root = root_partition_number(parts)->Some_0;
    let plan = unlock_with_passphrase(passphrase, parts, disk, is_nvme, root);
    let key = RESCUE_TMP_LINUX_PASS_PHRASE_FILE_NAME@;
    let device = partition_path(disk, is_nvme, root);
    let boot = boot_mount(parts, disk, is_nvme);
    let release = boot_release(parts, true);
    let at: int = 1 + boot.len() as int;
    assert(plan.steps[at] == open_volume(key, device));
    reveal_strlit("mkdir");
    reveal_strlit("cryptsetup");
    assert("mkdir"@.len() != "cryptsetup"@.len());
    assert forall|i: int| 0 <= i < plan.steps.len() && i != at implies #[trigger] plan.steps[i]
        != open_volume(key, device) by {
        if 1 <= i < at {
            assert(plan.steps[i] == boot[i - 1]);
        } else if at < i < at + 1 + release.len() {
            assert(plan.steps[i] == release[i - at - 1]);
        }
    }
}

/// The renaming that frees the canonical name for the unlocked disk.
pub open spec fn rename_plan() -> Seq<TaskView> {
    seq![
        must(run("vgrename"@, seq!["rootvg"@, "oldvg"@])),
        must(run("vgrename"@, seq!["rescuevg"@, "rootvg"@])),
    ]
}

/// Plans the renaming of the groups after a clone import: the group of
/// the host is set aside, the alias gets the canonical name.
pub fn ade_rename_rootvg() -> (plan: Vec<Task>)
    ensures
        views(plan@) == rename_plan(),
{
    let mut plan = empty_plan();
    push_must(&mut plan, step_run("vgrename", args2("rootvg", "oldvg")));
    push_must(&mut plan, step_run("vgrename", args2("rescuevg", "rootvg")));
    plan
}

/// The import of the volume group on the unlocked volume. Where the host
/// has a group of the canonical name, the group is cloned in under the
/// alias and the names are swapped; otherwise it is activated as it is.
pub open spec fn ade_import_plan(host_rootvg_active: bool) -> Seq<TaskView> {
    if host_rootvg_active {
        seq![
            must(run("vgimportclone"@, seq!["-n"@, "rescuevg"@, ADE_OSENCRYPT_PATH@])),
            must(run("vgchange"@, seq!["-ay"@, "rescuevg"@])),
            must(run("vgscan"@, seq!["--mknodes"@])),
        ] + rename_plan()
    } else {
        seq![
            must(run("vgchange"@, seq!["-ay"@, "rootvg"@])),
            must(run("vgscan"@, seq!["--mknodes"@])),
        ]
    }
}

/// Plans the import of the volume group on the unlocked volume.
pub fn ade_importvg(host_rootvg_active: bool) -> (plan: Vec<Task>)
    ensures
        views(plan@) == ade_import_plan(host_rootvg_active),
{
    let mut plan = empty_plan();
    if host_rootvg_active {
        push_must(
            &mut plan,
            step_run("vgimportclone", args3("-n", "rescuevg", ADE_OSENCRYPT_PATH)),
        );
        push_must(&mut plan, step_run("vgchange", args2("-ay", "rescuevg")));
        push_must(&mut plan, step_run("vgscan", args1("--mknodes")));
        append_plan(&mut plan, ade_rename_rootvg());
    } else {
        push_must(&mut plan, step_run("vgchange", args2("-ay", "rootvg")));
        push_must(&mut plan, step_run("vgscan", args1("--mknodes")));
    }
    assert(views(plan@) =~= ade_import_plan(host_rootvg_active));
    plan
}

/// The take-down of an unlocked disk with logical volumes: the group is
/// deactivated, the mapping is closed, and the group of the host gets its
/// name back where it was set aside.
pub open spec fn ade_cleanup_plan(oldvg_exists: bool) -> Seq<TaskView> {
    if oldvg_exists {
        seq![
            may(run("vgchange"@, seq!["-an"@, "rootvg"@])),
            may(close_mapping()),
            must(run("vgrename"@, seq!["oldvg"@, "rootvg"@])),
        ]
    } else {
        seq![may(run("vgchange"@, seq!["-an"@, "rootvg"@])), must(close_mapping())]
    }
}

/// Plans the take-down of an unlocked disk with logical volumes.
pub fn ade_lvm_cleanup(oldvg_exists: bool) -> (plan: Vec<Task>)
    ensures
        views(plan@) == ade_cleanup_plan(oldvg_exists),
{
    let mut plan = empty_plan();
    push_may(&mut plan, step_run("vgchange", args2("-an", "rootvg")));
    if oldvg_exists {
        push_may(&mut plan, step_run("cryptsetup", args2("close", RESCUE_ENCRYPT)));
        push_must(&mut plan, step_run("vgrename", args2("oldvg", "rootvg")));
    } else {
        push_must(&mut plan, step_run("cryptsetup", args2("close", RESCUE_ENCRYPT)));
    }
    assert(views(plan@) =~= ade_cleanup_plan(oldvg_exists));
    plan
}

/// What follows the unlock for the encrypted partitions, in the order of
/// the list: an LVM physical volume has its group imported, a Linux
/// filesystem needs nothing, and any other type is not supported.
pub open spec fn after_unlock(parts: Seq<PartInfoView>, host_rootvg_active: bool) -> Result<
    Seq<TaskView>,
    AdeError,
>
    decreases parts.len(),
{
    if parts.len() == 0 {
        Ok(seq![])
    } else {
        let rest = after_unlock(parts.drop_first(), host_rootvg_active);
        let p = parts[0];
        if !p.is_unresolved() {
            rest
        } else if p.is_lvm() {
            match rest {
                Ok(tasks) => Ok(ade_import_plan(host_rootvg_active) + tasks),
                Err(e) => Err(e),
            }
        } else if p.part_type == TYPE_LINUX@ {
            rest
        } else {
            Err(AdeError::UnknownPartitionType)
        }
    }
}

impl Distro {
    /// Plans what follows a successful unlock. Fails exactly when an
    /// encrypted partition is of a type that is not supported.
    pub fn enable_ade(partitions: &Vec<PartInfo>, host_rootvg_active: bool) -> (r: Result<
        Vec<Task>,
        AdeError,
    >)
        ensures
            match r {
                Ok(plan) => after_unlock(views(partitions@), host_rootvg_active) == Ok::<
                    Seq<TaskView>,
                    AdeError,
                >(views(plan@)),
                Err(e) => after_unlock(views(partitions@), host_rootvg_active) == Err::<
                    Seq<TaskView>,
                    AdeError,
                >(e),
            },
    {
        // The first unsupported type decides, whatever precedes it.
        let ghost all = views(partitions@);
        let mut i: usize = partitions.len();
        let mut plan = empty_plan();
        assert(all.skip(all.len() as int) =~= Seq::<PartInfoView>::empty());
        let mut failed: bool = false;
        while i > 0
            invariant
                i <= partitions.len(),
                all == views(partitions@),
                match after_unlock(all.skip(i as int), host_rootvg_active) {
                    Ok(tasks) => !failed && views(plan@) == tasks,
                    Err(e) => failed && e == AdeError::UnknownPartitionType,
                },
            decreases i,
        {
            i = i - 1;
            let ghost here = all.skip(i as int);
            proof {
                assert(here[0] == partitions@[i as int]@);
                assert(here.drop_first() == all.skip(i + 1));
            }
            let p = &partitions[i];
            if p.is_unresolved() {
                if p.is_lvm() {
                    if !failed {
                        let mut head = ade_importvg(host_rootvg_active);
                        append_plan(&mut head, plan);
                        plan = head;
                    }
                } else if !same_text(p.part_type.as_str(), TYPE_LINUX) {
                    failed = true;
                }
            }
        }
        assert(all.skip(0) == all);
        if failed {
            Err(AdeError::UnknownPartitionType)
        } else {
            Ok(plan)
        }
    }
}

} // verus!
