//! The mount orchestrator: builds the tree that repair actions `chroot` into.
//!
//! The order of the plan is its point. The root comes first, volumes that
//! live below it after it, boot before the EFI partition that is nested in
//! it, and the support filesystems only when the tree stands.

use crate::constants::{
    ADE_OSENCRYPT_PATH,
    DEV_MAPPER,
    RESCUE_ROOT,
    RESCUE_ROOT_BOOT,
    RESCUE_ROOT_BOOT_EFI,
};
use crate::distro::{Distro, DistroKind, DistroSubType, DistroType, DistroView};
use crate::lines::strings;

use crate::partition::{
    first_match,
    lemma_first_match_is,
    mount_option,
    nouuid_option,
    LogicalVolume,
    LogicalVolumeView,
    PartInfo,
    PartInfoView,
};
use crate::scan::{corrected_path, partition_device, partition_path};
use crate::step::{
    append_plan,
    args2,
    bind_mount,
    command,
    create_dir,
    empty_plan,
    mount,
    must,
    push_arg,
    push_must,
    step_bind_mount,
    step_create_dir,
    step_mount,
    views,
    Command,
    CommandView,
    StepView,
    Task,
    TaskView,
};
use crate::text::{
    begins_with,
    contains,
    copy_range,
    ends_with,
    finishes_with,
    from_chars,
    holds,
    join2,
    join3,
    same_text,
    starts_with,
    to_chars,
    trim,
    trimmed,
};
use vstd::prelude::*;
use vstd::string::StringExecFns;

verus! {

/// Why the tree cannot be planned.
#[derive(Debug, Clone, Copy, PartialEq, Eq, Structural)]
pub enum MountError {
    /// No partition is marked as holding the operating system.
    NoOsPartition,
    /// A logical volume is not named like a volume of the root group, so
    /// that its place in the tree is unknown.
    VolumeName,
}

// ---------------------------------------------------------------------------
// Classification
// ---------------------------------------------------------------------------
/// "true" or "false".
pub open spec fn bool_text(state: bool) -> Seq<char> {
    if state {
        "true"@
    } else {
        "false"@
    }
}

/// How a flag is written into the environment.
pub fn convert_bool(state: bool) -> (r: String)
    ensures
        r@ == bool_text(state),
{
    if state {
        "true".to_owned()
    } else {
        "false".to_owned()
    }
}

/// A family with a subtype.
pub open spec fn kind(distro_type: DistroType, distro_subtype: DistroSubType) -> DistroKind {
    DistroKind { distro_type, distro_subtype }
}

/// The known distribution names, in the order in which they are tried.
pub open spec fn kind_table() -> Seq<(Seq<char>, DistroKind)> {
    seq![
        ("Ubuntu"@, kind(DistroType::Ubuntu, DistroSubType::Plain)),
        ("Debian"@, kind(DistroType::Debian, DistroSubType::Plain)),
        ("Red Hat"@, kind(DistroType::RedHat, DistroSubType::Plain)),
        ("Oracle Linux"@, kind(DistroType::RedHat, DistroSubType::OracleLinux)),
        ("SLES"@, kind(DistroType::Suse, DistroSubType::Plain)),
        ("Azure Linux"@, kind(DistroType::AzureLinux, DistroSubType::Plain)),
        ("Linux Mariner"@, kind(DistroType::AzureLinux, DistroSubType::Plain)),
        ("AlmaLinux"@, kind(DistroType::RedHat, DistroSubType::AlmaLinux)),
        ("Rocky Linux"@, kind(DistroType::RedHat, DistroSubType::RockyLinux)),
        ("CentOS"@, kind(DistroType::RedHat, DistroSubType::CentOS)),
    ]
}

/// The kind of the first entry of `table` whose pattern occurs in `name`;
/// undefined where none does.
pub open spec fn kind_in(table: Seq<(Seq<char>, DistroKind)>, name: Seq<char>) -> DistroKind
    decreases table.len(),
{
    if table.len() == 0 {
        kind(DistroType::Undefined, DistroSubType::Plain)
    } else if contains(name, table[0].0) {
        table[0].1
    } else {
        kind_in(table.drop_first(), name)
    }
}

/// Family and subtype of the distribution with the given name.
pub open spec fn distro_kind(name: Seq<char>) -> DistroKind {
    kind_in(kind_table(), name)
}

/// The patterns and kinds of a table.
pub open spec fn table_view(table: Seq<(&'static str, DistroKind)>) -> Seq<(Seq<char>, DistroKind)> {
    Seq::new(table.len(), |i: int| (table[i].0@, table[i].1))
}

/// Executable [`kind_table`].
pub fn known_kinds() -> (table: Vec<(&'static str, DistroKind)>)
    ensures
        table_view(table@) == kind_table(),
{
    let plain = DistroSubType::Plain;
    let mut table: Vec<(&'static str, DistroKind)> = Vec::new();
    table.push(("Ubuntu", DistroKind { distro_type: DistroType::Ubuntu, distro_subtype: plain }));
    table.push(("Debian", DistroKind { distro_type: DistroType::Debian, distro_subtype: plain }));
    table.push(("Red Hat", DistroKind { distro_type: DistroType::RedHat, distro_subtype: plain }));
    table.push(
        (
            "Oracle Linux",
            DistroKind {
                distro_type: DistroType::RedHat,
                distro_subtype: DistroSubType::OracleLinux,
            },
        ),
    );
    table.push(("SLES", DistroKind { distro_type: DistroType::Suse, distro_subtype: plain }));
    table.push(
        ("Azure Linux", DistroKind { distro_type: DistroType::AzureLinux, distro_subtype: plain }),
    );
    table.push(
        (
            "Linux Mariner",
            DistroKind { distro_type: DistroType::AzureLinux, distro_subtype: plain },
        ),
    );
    table.push(
        (
            "AlmaLinux",
            DistroKind { distro_type: DistroType::RedHat, distro_subtype: DistroSubType::AlmaLinux },
        ),
    );
    table.push(
        (
            "Rocky Linux",
            DistroKind {
                distro_type: DistroType::RedHat,
                distro_subtype: DistroSubType::RockyLinux,
            },
        ),
    );
    table.push(
        (
            "CentOS",
            DistroKind { distro_type: DistroType::RedHat, distro_subtype: DistroSubType::CentOS },
        ),
    );
    assert(table_view(table@) =~= kind_table());
    table
}

/// Family and subtype of a distribution: the first known name that occurs
/// in the distribution's name decides.
pub fn get_distro_kind(distro: &Distro) -> (r: DistroKind)
    ensures
        r == distro_kind(distro@.distro_name_version.name),
{
    let name = to_chars(distro.distro_name_version.name.as_str());
    let table = known_kinds();
    let ghost all = table_view(table@);
    let mut i: usize = 0;
    assert(all.skip(0) == all);
    while i < table.len()
        invariant
            i <= table.len(),
            all == table_view(table@),
            all == kind_table(),
            name@ == distro@.distro_name_version.name,
            kind_in(all, name@) == kind_in(all.skip(i as int), name@),
        decreases table.len() - i,
    {
        let ghost here = all.skip(i as int);
        assert(here[0] == all[i as int]);
        assert(here.drop_first() == all.skip(i + 1));
        if holds(&name, &to_chars(table[i].0)) {
            assert(kind_in(here, name@) == here[0].1);
            return table[i].1;
        }
        i = i + 1;
    }
    DistroKind { distro_type: DistroType::Undefined, distro_subtype: DistroSubType::Plain }
}

/// The disk path as partition numbers are appended to it.
pub fn get_corrected_recover_path(disk_path: &str, is_nvme: bool) -> (r: String)
    ensures
        r@ == corrected_path(disk_path@, is_nvme),
{
    if is_nvme {
        join2(disk_path, "p")
    } else {
        disk_path.to_owned()
    }
}

// ---------------------------------------------------------------------------
// Which partition plays which part
// ---------------------------------------------------------------------------
/// Position of the partition that holds the operating system.
pub open spec fn os_index(parts: Seq<PartInfoView>) -> int {
    first_match(parts, |p: PartInfoView| p.contains_os)
}

/// Position of the EFI system partition.
pub open spec fn efi_index(parts: Seq<PartInfoView>) -> int {
    first_match(parts, |p: PartInfoView| p.is_efi())
}

/// Position of the boot partition: the first one that neither holds the
/// operating system nor is the EFI system partition.
pub open spec fn boot_index(parts: Seq<PartInfoView>) -> int {
    first_match(parts, |p: PartInfoView| !p.contains_os && !p.is_efi())
}

/// The partitions that make up the tree, by position in the list.
#[derive(Debug, Clone, Copy, PartialEq, Eq, Structural)]
pub struct Roles {
    pub os: usize,
    pub boot: Option<usize>,
    pub efi: Option<usize>,
}

/// Finds the partitions that make up the tree. `None` exactly when no
/// partition holds the operating system.
pub fn find_roles(partitions: &Vec<PartInfo>) -> (r: Option<Roles>)
    ensures
        match r {
            Some(roles) => {
                let parts = views(partitions@);
                &&& roles.os == os_index(parts)
                &&& roles.os < parts.len()
                &&& match roles.boot {
                    Some(b) => b == boot_index(parts) && b < parts.len(),
                    None => boot_index(parts) == parts.len(),
                }
                &&& match roles.efi {
                    Some(e) => e == efi_index(parts) && e < parts.len(),
                    None => efi_index(parts) == parts.len(),
                }
            },
            None => os_index(views(partitions@)) == partitions.len(),
        },
{
    let ghost parts = views(partitions@);
    let ghost is_os = |p: PartInfoView| p.contains_os;
    let ghost is_efi = |p: PartInfoView| p.is_efi();
    let ghost is_boot = |p: PartInfoView| !p.contains_os && !p.is_efi();
    let n: usize = partitions.len();
    let mut os: Option<usize> = None;
    let mut boot: Option<usize> = None;
    let mut efi: Option<usize> = None;
    let mut i: usize = 0;
    while i < n
        invariant
            n == partitions.len(),
            i <= n,
            parts == views(partitions@),
            is_os == |p: PartInfoView| p.contains_os,
            is_efi == |p: PartInfoView| p.is_efi(),
            is_boot == |p: PartInfoView| !p.contains_os && !p.is_efi(),
            match os {
                Some(k) => k < i && first_match(parts, is_os) == k,
                None => forall|j: int| 0 <= j < i ==> !is_os(#[trigger] parts[j]),
            },
            match efi {
                Some(k) => k < i && first_match(parts, is_efi) == k,
                None => forall|j: int| 0 <= j < i ==> !is_efi(#[trigger] parts[j]),
            },
            match boot {
                Some(k) => k < i && first_match(parts, is_boot) == k,
                None => forall|j: int| 0 <= j < i ==> !is_boot(#[trigger] parts[j]),
            },
        decreases n - i,
    {
        let p = &partitions[i];
        assert(p@ == parts[i as int]);
        let efi_here = p.is_efi();
        if os.is_none() && p.contains_os {
            proof {
                lemma_first_match_is(parts, is_os, i as int);
            }
            os = Some(i);
        }
        if efi.is_none() && efi_here {
            proof {
                lemma_first_match_is(parts, is_efi, i as int);
            }
            efi = Some(i);
        }
        if boot.is_none() && !p.contains_os && !efi_here {
            proof {
                lemma_first_match_is(parts, is_boot, i as int);
            }
            boot = Some(i);
        }
        i = i + 1;
    }
    proof {
        if os is None {
            lemma_first_match_is(parts, is_os, n as int);
        }
        if efi is None {
            lemma_first_match_is(parts, is_efi, n as int);
        }
        if boot is None {
            lemma_first_match_is(parts, is_boot, n as int);
        }
    }
    match os {
        Some(os) => Some(Roles { os, boot, efi }),
        None => None,
    }
}

// ---------------------------------------------------------------------------
// The plan
// ---------------------------------------------------------------------------
/// Name of the root volume.
pub const ROOT_VOLUME: &'static str = "rootvg-rootlv";

/// Name of the root's temporary-storage volume, which is left out of the tree.
pub const TMP_VOLUME: &'static str = "rootvg-tmplv";

/// What the names of the volumes of the root group start with.
pub const VOLUME_PREFIX: &'static str = "rootvg-";

/// What the names of the volumes of the root group end with.
pub const VOLUME_SUFFIX: &'static str = "lv";

/// The device through which `name` is reached.
pub open spec fn mapper_device(name: Seq<char>) -> Seq<char> {
    DEV_MAPPER@ + name
}

/// A volume that makes up the root of the tree.
pub open spec fn is_root_volume(v: LogicalVolumeView) -> bool {
    v.name == ROOT_VOLUME@
}

/// A volume that is mounted below the root.
pub open spec fn is_sibling_volume(v: LogicalVolumeView) -> bool {
    v.name != ROOT_VOLUME@ && v.name != TMP_VOLUME@
}

/// The directory below the root that a volume is named for: what stands
/// between `rootvg-` and `lv` in its name. `None` where the name is not
/// built that way, where nothing stands between the two, or where what
/// stands there would lead out of the directory level.
pub open spec fn volume_directory(name: Seq<char>) -> Option<Seq<char>> {
    if starts_with(name, VOLUME_PREFIX@) && ends_with(
        name.skip(VOLUME_PREFIX@.len() as int),
        VOLUME_SUFFIX@,
    ) {
        let rest = name.skip(VOLUME_PREFIX@.len() as int);
        let directory = rest.take(rest.len() - VOLUME_SUFFIX@.len());
        if directory.len() > 0 && !directory.contains('/') {
            Some(directory)
        } else {
            None
        }
    } else {
        None
    }
}

/// The mounts of the root volumes, in the order of the list.
pub open spec fn root_mounts(volumes: Seq<LogicalVolumeView>) -> Seq<TaskView>
    decreases volumes.len(),
{
    if volumes.len() == 0 {
        seq![]
    } else {
        let before = root_mounts(volumes.drop_last());
        let v = volumes.last();
        if is_root_volume(v) {
            before.push(must(mount(mapper_device(v.name), RESCUE_ROOT@, mount_option(v.fstype))))
        } else {
            before
        }
    }
}

/// The mount of one volume below the root.
pub open spec fn sibling_mount(v: LogicalVolumeView) -> Option<TaskView> {
    match volume_directory(v.name) {
        Some(directory) => Some(
            must(mount(mapper_device(v.name), RESCUE_ROOT@ + directory, mount_option(v.fstype))),
        ),
        None => None,
    }
}

/// The mounts of the volumes below the root, in the order of the list;
/// `None` where one of them has no place in the tree.
pub open spec fn sibling_mounts(volumes: Seq<LogicalVolumeView>) -> Option<Seq<TaskView>>
    decreases volumes.len(),
{
    if volumes.len() == 0 {
        Some(seq![])
    } else {
        let rest = sibling_mounts(volumes.drop_first());
        if !is_sibling_volume(volumes[0]) {
            rest
        } else {
            match (sibling_mount(volumes[0]), rest) {
                (Some(task), Some(tasks)) => Some(seq![task] + tasks),
                _ => None,
            }
        }
    }
}

/// The device that holds the root filesystem of a disk without logical volumes.
pub open spec fn raw_root_device(d: DistroView, disk: Seq<char>, is_nvme: bool) -> Seq<char> {
    if d.is_ade {
        ADE_OSENCRYPT_PATH@
    } else {
        partition_path(disk, is_nvme, d.partitions[os_index(d.partitions)].number)
    }
}

/// The mounts that put the root in place: the root volume, then the
/// volumes below it; or the one partition that holds the system.
/// `root_fs` is what the block-device listing says about the filesystem
/// on that partition.
pub open spec fn root_part(d: DistroView, disk: Seq<char>, is_nvme: bool, root_fs: Seq<char>)
    -> Option<Seq<TaskView>> {
    match d.partitions[os_index(d.partitions)].logical_volumes {
        Some(volumes) => match sibling_mounts(volumes) {
            Some(siblings) => Some(root_mounts(volumes) + siblings),
            None => None,
        },
        None => Some(
            seq![
                must(
                    mount(
                        raw_root_device(d, disk, is_nvme),
                        RESCUE_ROOT@,
                        mount_option(trim(root_fs)),
                    ),
                ),
            ],
        ),
    }
}

/// The mount of the boot partition, if there is one.
pub open spec fn boot_part(d: DistroView, disk: Seq<char>, is_nvme: bool) -> Seq<TaskView> {
    let b = boot_index(d.partitions);
    if 0 <= b < d.partitions.len() {
        seq![
            must(
                mount(
                    partition_path(disk, is_nvme, d.partitions[b].number),
                    RESCUE_ROOT_BOOT@,
                    mount_option(d.partitions[b].fstype),
                ),
            ),
        ]
    } else {
        seq![]
    }
}

/// The mount of the EFI system partition, if there is one.
pub open spec fn efi_part(d: DistroView, disk: Seq<char>, is_nvme: bool) -> Seq<TaskView> {
    let e = efi_index(d.partitions);
    if 0 <= e < d.partitions.len() {
        seq![
            must(
                mount(
                    partition_path(disk, is_nvme, d.partitions[e].number),
                    RESCUE_ROOT_BOOT_EFI@,
                    ""@,
                ),
            ),
        ]
    } else {
        seq![]
    }
}

/// The plan that assembles the tree of the disk: the root directory, the
/// root, boot, and the EFI partition, in this order.
pub open spec fn mount_sequence(d: DistroView, disk: Seq<char>, is_nvme: bool, root_fs: Seq<char>)
    -> Result<Seq<TaskView>, MountError> {
    if !(0 <= os_index(d.partitions) < d.partitions.len()) {
        Err(MountError::NoOsPartition)
    } else {
        match root_part(d, disk, is_nvme, root_fs) {
            Some(root) => Ok(
                seq![must(create_dir(RESCUE_ROOT@))] + root + boot_part(d, disk, is_nvme)
                    + efi_part(d, disk, is_nvme),
            ),
            None => Err(MountError::VolumeName),
        }
    }
}

fn directory_of(name: &str) -> (r: Option<String>)
    ensures
        match r {
            Some(directory) => volume_directory(name@) == Some(directory@),
            None => volume_directory(name@) is None,
        },
{
    let v = to_chars(name);
    let prefix = to_chars(VOLUME_PREFIX);
    let suffix = to_chars(VOLUME_SUFFIX);
    if !begins_with(&v, &prefix) {
        return None;
    }
    let rest = copy_range(&v, prefix.len(), v.len());
    assert(rest@ == name@.skip(VOLUME_PREFIX@.len() as int));
    if !finishes_with(&rest, &suffix) {
        return None;
    }
    let directory = copy_range(&rest, 0, rest.len() - suffix.len());
    assert(directory@ == rest@.take(rest@.len() - VOLUME_SUFFIX@.len()));
    if directory.len() == 0 {
        return None;
    }
    let mut i: usize = 0;
    while i < directory.len()
        invariant
            i <= directory.len(),
            directory.len() > 0,
            volume_directory(name@) == if !directory@.contains('/') {
                Some(directory@)
            } else {
                None
            },
            forall|k: int| 0 <= k < i ==> directory@[k] != '/',
        decreases directory.len() - i,
    {
        if directory[i] == '/' {
            assert(directory@[i as int] == '/');
            assert(directory@.contains('/'));
            return None;
        }
        i = i + 1;
    }
    Some(from_chars(&directory))
}

fn plan_root_mounts(volumes: &Vec<LogicalVolume>) -> (plan: Vec<Task>)
    ensures
        views(plan@) == root_mounts(views(volumes@)),
{
    let mut plan = empty_plan();
    let mut i: usize = 0;
    assert(views(volumes@).take(0) == Seq::<LogicalVolumeView>::empty());
    while i < volumes.len()
        invariant
            i <= volumes.len(),
            views(plan@) == root_mounts(views(volumes@).take(i as int)),
        decreases volumes.len() - i,
    {
        proof {
            let upto = views(volumes@).take(i + 1);
            assert(upto.drop_last() == views(volumes@).take(i as int));
            assert(upto.last() == volumes@[i as int]@);
        }
        let v = &volumes[i];
        if same_text(v.name.as_str(), ROOT_VOLUME) {
            let device = join2(DEV_MAPPER, v.name.as_str());
            push_must(
                &mut plan,
                step_mount(device.as_str(), RESCUE_ROOT, nouuid_option(v.fstype.as_str())),
            );
        }
        i = i + 1;
    }
    assert(views(volumes@).take(volumes.len() as int) == views(volumes@));
    plan
}

fn plan_sibling_mounts(volumes: &Vec<LogicalVolume>) -> (r: Option<Vec<Task>>)
    ensures
        match r {
            Some(plan) => sibling_mounts(views(volumes@)) == Some(views(plan@)),
            None => sibling_mounts(views(volumes@)) is None,
        },
{
    let ghost all = views(volumes@);
    let mut plan = empty_plan();
    let mut i: usize = 0;
    assert(all.skip(0) == all);
    assert(views(plan@) + Seq::<TaskView>::empty() =~= Seq::<TaskView>::empty());
    while i < volumes.len()
        invariant
            i <= volumes.len(),
            all == views(volumes@),
            sibling_mounts(all) == match sibling_mounts(all.skip(i as int)) {
                Some(rest) => Some(views(plan@) + rest),
                None => None,
            },
        decreases volumes.len() - i,
    {
        let ghost here = all.skip(i as int);
        proof {
            assert(here[0] == volumes@[i as int]@);
            assert(here.drop_first() == all.skip(i + 1));
        }
        let v = &volumes[i];
        if !same_text(v.name.as_str(), ROOT_VOLUME) && !same_text(v.name.as_str(), TMP_VOLUME) {
            match directory_of(v.name.as_str()) {
                Some(directory) => {
                    let device = join2(DEV_MAPPER, v.name.as_str());
                    let target = join2(RESCUE_ROOT, directory.as_str());
                    let ghost before = views(plan@);
                    push_must(
                        &mut plan,
                        step_mount(
                            device.as_str(),
                            target.as_str(),
                            nouuid_option(v.fstype.as_str()),
                        ),
                    );
                    proof {
                        let task = sibling_mount(here[0])->Some_0;
                        assert(views(plan@) == before.push(task));
                        match sibling_mounts(here.drop_first()) {
                            Some(rest) => {
                                assert(before + (seq![task] + rest) == before.push(task) + rest);
                            },
                            None => {},
                        }
                    }
                },
                None => {
                    assert(sibling_mounts(here) is None);
                    return None;
                },
            }
        }
        i = i + 1;
    }
    assert(views(plan@) + Seq::<TaskView>::empty() == views(plan@));
    Some(plan)
}

/// The query that tells the filesystem on the partition that holds the
/// system. It is needed, and given, exactly when the system does not live
/// on logical volumes.
pub fn root_filesystem_query(distro: &Distro, disk_path: &str, is_nvme: bool) -> (r: Option<
    Command,
>)
    ensures
        ({
            let parts = distro@.partitions;
            let os = os_index(parts);
            if 0 <= os < parts.len() && parts[os].logical_volumes is None {
                r is Some && r->Some_0@ == (CommandView {
                    program: "lsblk"@,
                    args: seq![
                        "-nf"@,
                        "-o"@,
                        "FSTYPE"@,
                        raw_root_device(distro@, disk_path@, is_nvme),
                    ],
                })
            } else {
                r is None
            }
        }),
{
    let roles = match find_roles(&distro.partitions) {
        Some(roles) => roles,
        None => {
            return None;
        },
    };
    let os = &distro.partitions[roles.os];
    assert(os@ == distro@.partitions[roles.os as int]);
    if os.logical_volumes.is_some() {
        return None;
    }
    let device = if distro.is_ade {
        ADE_OSENCRYPT_PATH.to_owned()
    } else {
        partition_device(disk_path, is_nvme, os.number)
    };
    let mut args = args2("-nf", "-o");
    push_arg(&mut args, "FSTYPE");
    push_arg(&mut args, device.as_str());
    assert(strings(args@) =~= seq!["-nf"@, "-o"@, "FSTYPE"@, device@]);
    Some(command("lsblk", args))
}

/// Plans the mounts that assemble the tree of the disk under the rescue
/// root: first the root itself, then the volumes that live below it, then
/// boot, then the EFI partition that is nested in boot. Every step is
/// required: the first failure ends the plan.
///
/// Fails when no partition holds the operating system, or when a logical
/// volume other than the root and its temporary storage is not named for a
/// directory of the root.
pub fn mount_required_partitions(distro: &Distro, disk_path: &str, is_nvme: bool, root_fs: &str)
    -> (r: Result<Vec<Task>, MountError>)
    ensures
        match r {
            Ok(plan) => mount_sequence(distro@, disk_path@, is_nvme, root_fs@) == Ok::<
                Seq<TaskView>,
                MountError,
            >(views(plan@)),
            Err(e) => mount_sequence(distro@, disk_path@, is_nvme, root_fs@) == Err::<
                Seq<TaskView>,
                MountError,
            >(e),
        },
{
    let roles = match find_roles(&distro.partitions) {
        Some(roles) => roles,
        None => {
            return Err(MountError::NoOsPartition);
        },
    };
    let ghost d = distro@;
    let os = &distro.partitions[roles.os];
    assert(os@ == d.partitions[roles.os as int]);
    let mut plan = empty_plan();
    push_must(&mut plan, step_create_dir(RESCUE_ROOT));
    match &os.logical_volumes {
        Some(volumes) => {
            let roots = plan_root_mounts(volumes);
            let siblings = match plan_sibling_mounts(volumes) {
                Some(siblings) => siblings,
                None => {
                    return Err(MountError::VolumeName);
                },
            };
            append_plan(&mut plan, roots);
            append_plan(&mut plan, siblings);
        },
        None => {
            let device = if distro.is_ade {
                ADE_OSENCRYPT_PATH.to_owned()
            } else {
                partition_device(disk_path, is_nvme, os.number)
            };
            let fs = from_chars(&trimmed(&to_chars(root_fs)));
            push_must(
                &mut plan,
                step_mount(device.as_str(), RESCUE_ROOT, nouuid_option(fs.as_str())),
            );
        },
    }
    let ghost root = root_part(d, disk_path@, is_nvme, root_fs@)->Some_0;
    assert(views(plan@) =~= seq![must(create_dir(RESCUE_ROOT@))] + root);
    match roles.boot {
        Some(b) => {
            let boot = &distro.partitions[b];
            assert(boot@ == d.partitions[b as int]);
            let device = partition_device(disk_path, is_nvme, boot.number);
            push_must(
                &mut plan,
                step_mount(device.as_str(), RESCUE_ROOT_BOOT, nouuid_option(boot.fstype.as_str())),
            );
        },
        None => {},
    }
    assert(views(plan@) =~= seq![must(create_dir(RESCUE_ROOT@))] + root + boot_part(
        d,
        disk_path@,
        is_nvme,
    ));
    match roles.efi {
        Some(e) => {
            let efi = &distro.partitions[e];
            assert(efi@ == d.partitions[e as int]);
            let device = partition_device(disk_path, is_nvme, efi.number);
            push_must(&mut plan, step_mount(device.as_str(), RESCUE_ROOT_BOOT_EFI, ""));
        },
        None => {},
    }
    assert(views(plan@) =~= seq![must(create_dir(RESCUE_ROOT@))] + root + boot_part(
        d,
        disk_path@,
        is_nvme,
    ) + efi_part(d, disk_path@, is_nvme));
    Ok(plan)
}

// ---------------------------------------------------------------------------
// The order of the plan
// ---------------------------------------------------------------------------
/// The task is a mount.
pub open spec fn is_mount(t: TaskView) -> bool {
    t.step is Mount
}

/// The task mounts something on `target`.
pub open spec fn mounts_on(t: TaskView, target: Seq<char>) -> bool {
    t.step matches StepView::Mount { target: onto, .. } && onto == target
}

/// The task mounts something on a directory directly below the rescue root.
pub open spec fn mounts_below_root(t: TaskView) -> bool {
    t.step matches StepView::Mount { target: onto, .. } && onto.len() > RESCUE_ROOT@.len()
        && onto.take(RESCUE_ROOT@.len() as int) == RESCUE_ROOT@ && !onto.skip(
        RESCUE_ROOT@.len() as int,
    ).contains('/')
}

/// Every mount of a root volume goes onto the rescue root.
pub proof fn lemma_root_mounts(volumes: Seq<LogicalVolumeView>, k: int)
    requires
        0 <= k < root_mounts(volumes).len(),
    ensures
        mounts_on(root_mounts(volumes)[k], RESCUE_ROOT@),
    decreases volumes.len(),
{
    if volumes.len() > 0 {
        let before = root_mounts(volumes.drop_last());
        if k < before.len() {
            lemma_root_mounts(volumes.drop_last(), k);
        }
    }
}

/// Every mount of a volume below the root goes onto a directory directly
/// below the rescue root.
pub proof fn lemma_sibling_mounts(volumes: Seq<LogicalVolumeView>, k: int)
    requires
        sibling_mounts(volumes) is Some,
        0 <= k < sibling_mounts(volumes)->Some_0.len(),
    ensures
        mounts_below_root(sibling_mounts(volumes)->Some_0[k]),
    decreases volumes.len(),
{
    if volumes.len() > 0 {
        let rest = sibling_mounts(volumes.drop_first());
        if !is_sibling_volume(volumes[0]) {
            lemma_sibling_mounts(volumes.drop_first(), k);
        } else {
            if k == 0 {
                let directory = volume_directory(volumes[0].name)->Some_0;
                let onto = RESCUE_ROOT@ + directory;
                assert(onto.take(RESCUE_ROOT@.len() as int) =~= RESCUE_ROOT@);
                assert(onto.skip(RESCUE_ROOT@.len() as int) =~= directory);
            } else {
                lemma_sibling_mounts(volumes.drop_first(), k - 1);
            }
        }
    }
}

/// What the three mount points are: the root ends in a slash, boot lies
/// directly below it, and the EFI mount point lies below boot.
pub proof fn lemma_mount_points()
    ensures
        RESCUE_ROOT@.len() == 17,
        RESCUE_ROOT_BOOT@.len() == 21,
        RESCUE_ROOT_BOOT_EFI@.len() == 25,
        RESCUE_ROOT_BOOT_EFI@[21] == '/',
{
    reveal_strlit("/srv/rescue-root/");
    reveal_strlit("/srv/rescue-root/boot");
    reveal_strlit("/srv/rescue-root/boot/efi");
}

/// Where each task of the plan comes from: the root directory, then the
/// mounts onto the root, then the mounts below it, then boot, then EFI.
pub proof fn lemma_mount_sequence_shape(
    d: DistroView,
    disk: Seq<char>,
    is_nvme: bool,
    root_fs: Seq<char>,
    k: int,
)
    requires
        mount_sequence(d, disk, is_nvme, root_fs) is Ok,
        0 <= k < mount_sequence(d, disk, is_nvme, root_fs)->Ok_0.len(),
    ensures
        ({
            let plan = mount_sequence(d, disk, is_nvme, root_fs)->Ok_0;
            let root = root_part(d, disk, is_nvme, root_fs)->Some_0;
            let boot = boot_part(d, disk, is_nvme);
            let efi = efi_part(d, disk, is_nvme);
            let onto_root = match d.partitions[os_index(d.partitions)].logical_volumes {
                Some(volumes) => root_mounts(volumes).len(),
                None => 1,
            };
            &&& plan.len() == 1 + root.len() + boot.len() + efi.len()
            &&& onto_root <= root.len()
            &&& boot.len() <= 1
            &&& efi.len() <= 1
            &&& k == 0 ==> plan[k] == must(create_dir(RESCUE_ROOT@))
            &&& 1 <= k < 1 + onto_root ==> mounts_on(plan[k], RESCUE_ROOT@)
            &&& 1 + onto_root <= k < 1 + root.len() ==> mounts_below_root(plan[k])
            &&& 1 + root.len() <= k < 1 + root.len() + boot.len() ==> mounts_on(
                plan[k],
                RESCUE_ROOT_BOOT@,
            )
            &&& 1 + root.len() + boot.len() <= k ==> mounts_on(plan[k], RESCUE_ROOT_BOOT_EFI@)
        }),
{
    let plan = mount_sequence(d, disk, is_nvme, root_fs)->Ok_0;
    let root = root_part(d, disk, is_nvme, root_fs)->Some_0;
    let boot = boot_part(d, disk, is_nvme);
    let efi = efi_part(d, disk, is_nvme);
    let head = seq![must(create_dir(RESCUE_ROOT@))];
    assert(plan == head + root + boot + efi);
    if 1 <= k < 1 + root.len() {
        assert(plan[k] == root[k - 1]);
        match d.partitions[os_index(d.partitions)].logical_volumes {
            Some(volumes) => {
                let roots = root_mounts(volumes);
                let siblings = sibling_mounts(volumes)->Some_0;
                assert(root == roots + siblings);
                if k - 1 < roots.len() {
                    assert(root[k - 1] == roots[k - 1]);
                    lemma_root_mounts(volumes, k - 1);
                } else {
                    assert(root[k - 1] == siblings[k - 1 - roots.len()]);
                    lemma_sibling_mounts(volumes, k - 1 - roots.len());
                }
            },
            None => {},
        }
    } else if 1 + root.len() <= k < 1 + root.len() + boot.len() {
        assert(plan[k] == boot[k - 1 - root.len()]);
    } else if 1 + root.len() + boot.len() <= k {
        assert(plan[k] == efi[k - 1 - root.len() - boot.len()]);
    }
}

/// The root is mounted before anything else: in every plan, a mount onto
/// the rescue root comes before every mount onto another place.
pub proof fn lemma_root_is_mounted_first(
    d: DistroView,
    disk: Seq<char>,
    is_nvme: bool,
    root_fs: Seq<char>,
    i: int,
    j: int,
)
    requires
        mount_sequence(d, disk, is_nvme, root_fs) is Ok,
        0 <= i < mount_sequence(d, disk, is_nvme, root_fs)->Ok_0.len(),
        0 <= j < mount_sequence(d, disk, is_nvme, root_fs)->Ok_0.len(),
        mounts_on(mount_sequence(d, disk, is_nvme, root_fs)->Ok_0[i], RESCUE_ROOT@),
        is_mount(mount_sequence(d, disk, is_nvme, root_fs)->Ok_0[j]),
        !mounts_on(mount_sequence(d, disk, is_nvme, root_fs)->Ok_0[j], RESCUE_ROOT@),
    ensures
        i < j,
{
    lemma_mount_points();
    lemma_mount_sequence_shape(d, disk, is_nvme, root_fs, i);
    lemma_mount_sequence_shape(d, disk, is_nvme, root_fs, j);
}

/// Boot is mounted before the EFI partition: in every plan, a mount onto
/// the boot mount point comes before every mount onto the EFI mount point.
pub proof fn lemma_boot_is_mounted_before_efi(
    d: DistroView,
    disk: Seq<char>,
    is_nvme: bool,
    root_fs: Seq<char>,
    i: int,
    j: int,
)
    requires
        mount_sequence(d, disk, is_nvme, root_fs) is Ok,
        0 <= i < mount_sequence(d, disk, is_nvme, root_fs)->Ok_0.len(),
        0 <= j < mount_sequence(d, disk, is_nvme, root_fs)->Ok_0.len(),
        mounts_on(mount_sequence(d, disk, is_nvme, root_fs)->Ok_0[i], RESCUE_ROOT_BOOT@),
        mounts_on(mount_sequence(d, disk, is_nvme, root_fs)->Ok_0[j], RESCUE_ROOT_BOOT_EFI@),
    ensures
        i < j,
{
    lemma_mount_points();
    lemma_mount_sequence_shape(d, disk, is_nvme, root_fs, i);
    lemma_mount_sequence_shape(d, disk, is_nvme, root_fs, j);
    let plan = mount_sequence(d, disk, is_nvme, root_fs)->Ok_0;
    if mounts_below_root(plan[j]) {
        let onto = RESCUE_ROOT_BOOT_EFI@;
        assert(onto.skip(17)[4] == onto[21]);
        assert(onto.skip(17).contains('/'));
    }
}

/// Whenever the disk has both a boot and an EFI partition, both are
/// mounted, boot directly before EFI, at the end of the plan.
pub proof fn lemma_boot_and_efi_close_the_plan(
    d: DistroView,
    disk: Seq<char>,
    is_nvme: bool,
    root_fs: Seq<char>,
)
    requires
        mount_sequence(d, disk, is_nvme, root_fs) is Ok,
        0 <= boot_index(d.partitions) < d.partitions.len(),
        0 <= efi_index(d.partitions) < d.partitions.len(),
    ensures
        ({
            let plan = mount_sequence(d, disk, is_nvme, root_fs)->Ok_0;
            &&& plan.len() >= 3
            &&& mounts_on(plan[plan.len() - 2], RESCUE_ROOT_BOOT@)
            &&& mounts_on(plan[plan.len() - 1], RESCUE_ROOT_BOOT_EFI@)
        }),
{
    let plan = mount_sequence(d, disk, is_nvme, root_fs)->Ok_0;
    lemma_mount_sequence_shape(d, disk, is_nvme, root_fs, 0);
    lemma_mount_sequence_shape(d, disk, is_nvme, root_fs, plan.len() - 2);
    lemma_mount_sequence_shape(d, disk, is_nvme, root_fs, plan.len() - 1);
}

/// Every mount of a volume below the root is the mount of one of the
/// volumes of the list.
pub proof fn lemma_sibling_mount_has_a_volume(volumes: Seq<LogicalVolumeView>, k: int) -> (j: int)
    requires
        sibling_mounts(volumes) is Some,
        0 <= k < sibling_mounts(volumes)->Some_0.len(),
    ensures
        0 <= j < volumes.len(),
        is_sibling_volume(volumes[j]),
        sibling_mount(volumes[j]) == Some(sibling_mounts(volumes)->Some_0[k]),
    decreases volumes.len(),
{
    let rest = volumes.drop_first();
    if !is_sibling_volume(volumes[0]) {
        let j = lemma_sibling_mount_has_a_volume(rest, k);
        assert(rest[j] == volumes[j + 1]);
        j + 1
    } else if k == 0 {
        0
    } else {
        let j = lemma_sibling_mount_has_a_volume(rest, k - 1);
        assert(rest[j] == volumes[j + 1]);
        j + 1
    }
}

/// No logical volume of the system is named for the boot directory.
pub open spec fn no_volume_is_named_for_boot(d: DistroView) -> bool {
    d.partitions[os_index(d.partitions)].logical_volumes matches Some(volumes) ==> forall|j: int|
        0 <= j < volumes.len() ==> volume_directory((#[trigger] volumes[j]).name) != Some("boot"@)
}

/// A disk whose system does not live on logical volumes can always be
/// planned, and its plan is the root directory, the root, boot and the
/// EFI partition, as far as the disk has them.
pub proof fn lemma_disk_without_volumes_is_always_planned(
    d: DistroView,
    disk: Seq<char>,
    is_nvme: bool,
    root_fs: Seq<char>,
)
    requires
        0 <= os_index(d.partitions) < d.partitions.len(),
        d.partitions[os_index(d.partitions)].logical_volumes is None,
    ensures
        mount_sequence(d, disk, is_nvme, root_fs) is Ok,
        mount_sequence(d, disk, is_nvme, root_fs)->Ok_0 == seq![
            must(create_dir(RESCUE_ROOT@)),
            must(
                mount(raw_root_device(d, disk, is_nvme), RESCUE_ROOT@, mount_option(trim(root_fs))),
            ),
        ] + boot_part(d, disk, is_nvme) + efi_part(d, disk, is_nvme),
{
    let plan = mount_sequence(d, disk, is_nvme, root_fs)->Ok_0;
    assert(plan =~= seq![
        must(create_dir(RESCUE_ROOT@)),
        must(mount(raw_root_device(d, disk, is_nvme), RESCUE_ROOT@, mount_option(trim(root_fs)))),
    ] + boot_part(d, disk, is_nvme) + efi_part(d, disk, is_nvme));
}

/// Whenever the disk has both a boot and an EFI partition, each of the two
/// mount points is mounted exactly once, boot before EFI: the only mount
/// onto the boot mount point is the last but one task of the plan, and the
/// only mount onto the EFI mount point is the last. This holds for every
/// disk on which no logical volume is named for the boot directory; such a
/// volume would share the mount point of the boot partition.
pub proof fn lemma_boot_and_efi_are_mounted_once(
    d: DistroView,
    disk: Seq<char>,
    is_nvme: bool,
    root_fs: Seq<char>,
    i: int,
)
    requires
        mount_sequence(d, disk, is_nvme, root_fs) is Ok,
        0 <= boot_index(d.partitions) < d.partitions.len(),
        0 <= efi_index(d.partitions) < d.partitions.len(),
        no_volume_is_named_for_boot(d),
        0 <= i < mount_sequence(d, disk, is_nvme, root_fs)->Ok_0.len(),
    ensures
        ({
            let plan = mount_sequence(d, disk, is_nvme, root_fs)->Ok_0;
            &&& mounts_on(plan[i], RESCUE_ROOT_BOOT@) <==> i == plan.len() - 2
            &&& mounts_on(plan[i], RESCUE_ROOT_BOOT_EFI@) <==> i == plan.len() - 1
        }),
{
    let plan = mount_sequence(d, disk, is_nvme, root_fs)->Ok_0;
    let root = root_part(d, disk, is_nvme, root_fs)->Some_0;
    lemma_mount_points();
    lemma_mount_sequence_shape(d, disk, is_nvme, root_fs, i);
    lemma_boot_and_efi_close_the_plan(d, disk, is_nvme, root_fs);
    assert(plan.len() == 1 + root.len() + 2);
    if mounts_below_root(plan[i]) {
        let efi = RESCUE_ROOT_BOOT_EFI@;
        assert(efi.skip(17)[4] == efi[21]);
        assert(efi.skip(17).contains('/'));
        if mounts_on(plan[i], RESCUE_ROOT_BOOT@) && 1 <= i < 1 + root.len() {
            let volumes = d.partitions[os_index(d.partitions)].logical_volumes->Some_0;
            let roots = root_mounts(volumes);
            let siblings = sibling_mounts(volumes)->Some_0;
            assert(plan == seq![must(create_dir(RESCUE_ROOT@))] + root + boot_part(
                d,
                disk,
                is_nvme,
            ) + efi_part(d, disk, is_nvme));
            assert(plan[i] == root[i - 1]);
            assert(root == roots + siblings);
            if i - 1 < roots.len() {
                assert(root[i - 1] == roots[i - 1]);
                lemma_root_mounts(volumes, i - 1);
            } else {
                let k = i - 1 - roots.len();
                assert(root[i - 1] == siblings[k]);
                let j = lemma_sibling_mount_has_a_volume(volumes, k);
                let directory = volume_directory(volumes[j].name)->Some_0;
                reveal_strlit("boot");
                reveal_strlit("/srv/rescue-root/boot");
                assert((RESCUE_ROOT@ + directory).skip(17) =~= directory);
                assert(RESCUE_ROOT_BOOT@.skip(17) =~= "boot"@);
            }
        }
    }
}

// ---------------------------------------------------------------------------
// Support filesystems
// ---------------------------------------------------------------------------
/// The pseudo-filesystems of the repair host that the tree needs.
pub open spec fn support_names() -> Seq<Seq<char>> {
    seq!["dev"@, "proc"@, "sys"@, "tmp"@, "dev/pts"@, "run"@]
}

/// The directories below the rescue root on which the support
/// filesystems are mounted.
pub open spec fn support_directories() -> Seq<TaskView> {
    Seq::new(
        support_names().len(),
        |i: int| must(create_dir(RESCUE_ROOT@ + "/"@ + support_names()[i])),
    )
}

/// The bind mounts of the support filesystems.
pub open spec fn support_mounts() -> Seq<TaskView> {
    Seq::new(
        support_names().len(),
        |i: int|
            must(
                bind_mount("/"@ + support_names()[i] + "/"@, RESCUE_ROOT@ + support_names()[i]),
            ),
    )
}

/// Executable [`support_names`].
pub fn support_filesystems() -> (names: Vec<&'static str>)
    ensures
        names.len() == support_names().len(),
        forall|i: int| 0 <= i < names.len() ==> (#[trigger] names@[i])@ == support_names()[i],
{
    let mut names: Vec<&'static str> = Vec::new();
    names.push("dev");
    names.push("proc");
    names.push("sys");
    names.push("tmp");
    names.push("dev/pts");
    names.push("run");
    names
}

/// Plans the directories for the support filesystems.
pub fn mkdir_support_filesystems() -> (plan: Vec<Task>)
    ensures
        views(plan@) == support_directories(),
{
    let names = support_filesystems();
    let mut plan = empty_plan();
    let mut i: usize = 0;
    while i < names.len()
        invariant
            i <= names.len(),
            names.len() == support_names().len(),
            forall|k: int| 0 <= k < names.len() ==> (#[trigger] names@[k])@ == support_names()[k],
            views(plan@).len() == i,
            forall|k: int| 0 <= k < i ==> (#[trigger] views(plan@)[k]) == support_directories()[k],
        decreases names.len() - i,
    {
        let path = join3(RESCUE_ROOT, "/", names[i]);
        push_must(&mut plan, step_create_dir(path.as_str()));
        i = i + 1;
    }
    assert(views(plan@) =~= support_directories());
    plan
}

/// Plans the bind mounts of the support filesystems.
pub fn mount_support_filesystems() -> (plan: Vec<Task>)
    ensures
        views(plan@) == support_mounts(),
{
    let names = support_filesystems();
    let mut plan = empty_plan();
    let mut i: usize = 0;
    while i < names.len()
        invariant
            i <= names.len(),
            names.len() == support_names().len(),
            forall|k: int| 0 <= k < names.len() ==> (#[trigger] names@[k])@ == support_names()[k],
            views(plan@).len() == i,
            forall|k: int| 0 <= k < i ==> (#[trigger] views(plan@)[k]) == support_mounts()[k],
        decreases names.len() - i,
    {
        let source = join3("/", names[i], "/");
        let target = join2(RESCUE_ROOT, names[i]);
        push_must(&mut plan, step_bind_mount(source.as_str(), target.as_str()));
        i = i + 1;
    }
    assert(views(plan@) =~= support_mounts());
    plan
}

/// The whole plan for a tree that can be entered: the partitions and
/// volumes of the disk, then the directories for the support filesystems,
/// then their bind mounts.
pub open spec fn chroot_plan(d: DistroView, disk: Seq<char>, is_nvme: bool, root_fs: Seq<char>)
    -> Result<Seq<TaskView>, MountError> {
    match mount_sequence(d, disk, is_nvme, root_fs) {
        Ok(mounts) => Ok(mounts + support_directories() + support_mounts()),
        Err(e) => Err(e),
    }
}

/// Plans the tree that repair actions are run in. Fails as
/// [`mount_required_partitions`] does.
pub fn prepare_chroot(distro: &Distro, disk_path: &str, is_nvme: bool, root_fs: &str) -> (r: Result<
    Vec<Task>,
    MountError,
>)
    ensures
        match r {
            Ok(plan) => chroot_plan(distro@, disk_path@, is_nvme, root_fs@) == Ok::<
                Seq<TaskView>,
                MountError,
            >(views(plan@)),
            Err(e) => chroot_plan(distro@, disk_path@, is_nvme, root_fs@) == Err::<
                Seq<TaskView>,
                MountError,
            >(e),
        },
{
    let mut plan = match mount_required_partitions(distro, disk_path, is_nvme, root_fs) {
        Ok(plan) => plan,
        Err(e) => {
            return Err(e);
        },
    };
    append_plan(&mut plan, mkdir_support_filesystems());
    append_plan(&mut plan, mount_support_filesystems());
    Ok(plan)
}

/// The support filesystems are bound only when the tree stands: in every
/// plan, each mount of a partition or volume comes before each bind mount.
pub proof fn lemma_support_filesystems_come_last(
    d: DistroView,
    disk: Seq<char>,
    is_nvme: bool,
    root_fs: Seq<char>,
    i: int,
    j: int,
)
    requires
        chroot_plan(d, disk, is_nvme, root_fs) is Ok,
        0 <= i < chroot_plan(d, disk, is_nvme, root_fs)->Ok_0.len(),
        0 <= j < chroot_plan(d, disk, is_nvme, root_fs)->Ok_0.len(),
        is_mount(chroot_plan(d, disk, is_nvme, root_fs)->Ok_0[i]),
        chroot_plan(d, disk, is_nvme, root_fs)->Ok_0[j].step is BindMount,
    ensures
        i < j,
{
    let mounts = mount_sequence(d, disk, is_nvme, root_fs)->Ok_0;
    let plan = chroot_plan(d, disk, is_nvme, root_fs)->Ok_0;
    assert(plan == mounts + support_directories() + support_mounts());
    if j < mounts.len() {
        assert(plan[j] == mounts[j]);
        lemma_mount_sequence_shape(d, disk, is_nvme, root_fs, j);
    } else if j < mounts.len() + support_directories().len() {
        assert(plan[j] == support_directories()[j - mounts.len()]);
    }
    if i >= mounts.len() {
        if i < mounts.len() + support_directories().len() {
            assert(plan[i] == support_directories()[i - mounts.len()]);
        } else {
            assert(plan[i] == support_mounts()[i - mounts.len() - support_directories().len()]);
        }
    }
}

} // verus!
