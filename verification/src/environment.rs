//! What the repair actions are told about the disk: the changes to the
//! process environment that precede them.

use crate::distro::{Distro, DistroKind, DistroType, DistroView};
use crate::number::{int_text, number_chars};
use crate::partition::PartInfoView;
use crate::prepare_chroot::{
    bool_text,
    boot_index,
    convert_bool,
    distro_kind,
    efi_index,
    find_roles,
    get_distro_kind,
    os_index,
    MountError,
};
use crate::scan::{partition_device, partition_path};
use crate::step::{lemma_views_push, views};
use crate::text::{from_chars, join3};
use vstd::prelude::*;

verus! {

/// One change to the environment.
#[derive(Debug, Clone, PartialEq, Eq)]
pub enum EnvChange {
    /// Give the variable a value.
    Assign { name: String, value: String },
    /// Take the variable away.
    Remove { name: String },
}

/// Mathematical form of an [`EnvChange`].
pub enum EnvChangeView {
    Assign { name: Seq<char>, value: Seq<char> },
    Remove { name: Seq<char> },
}

impl View for EnvChange {
    type V = EnvChangeView;

    open spec fn view(&self) -> EnvChangeView {
        match *self {
            EnvChange::Assign { name, value } => EnvChangeView::Assign { name: name@, value: value@ },
            EnvChange::Remove { name } => EnvChangeView::Remove { name: name@ },
        }
    }
}

/// The change that gives `name` the value `value`.
pub open spec fn assign(name: Seq<char>, value: Seq<char>) -> EnvChangeView {
    EnvChangeView::Assign { name, value }
}

/// The change that takes `name` away.
pub open spec fn remove(name: Seq<char>) -> EnvChangeView {
    EnvChangeView::Remove { name }
}

/// The flag that names the family of a distribution.
pub open spec fn family_flag(family: DistroType) -> Seq<char> {
    match family {
        DistroType::RedHat => "isRedHat"@,
        DistroType::Ubuntu => "isUbuntu"@,
        DistroType::Suse => "isSuse"@,
        DistroType::AzureLinux => "isAzureLinux"@,
        DistroType::Debian => "isDebian"@,
        DistroType::Undefined => "DISTROTYPE"@,
    }
}

/// What a kind of distribution adds to the environment: the flag of its
/// family and its subtype; for an unknown distribution, that it is unknown.
pub open spec fn kind_changes(kind: DistroKind) -> Seq<EnvChangeView> {
    if kind.distro_type == DistroType::Undefined {
        seq![assign("DISTROTYPE"@, "UNKNOWN"@), assign("DISTROSUBTYPE"@, "UNKNOWN"@)]
    } else {
        seq![
            assign(family_flag(kind.distro_type), bool_text(true)),
            assign("DISTROSUBTYPE"@, kind.distro_subtype.label()),
        ]
    }
}

/// What a boot or EFI partition adds to the environment: its number and
/// its device; nothing where there is no such partition.
pub open spec fn role_changes(
    parts: Seq<PartInfoView>,
    index: int,
    number_name: Seq<char>,
    path_name: Seq<char>,
    disk: Seq<char>,
    is_nvme: bool,
) -> Seq<EnvChangeView> {
    if 0 <= index < parts.len() {
        seq![
            assign(number_name, int_text(parts[index].number)),
            assign(path_name, partition_path(disk, is_nvme, parts[index].number)),
        ]
    } else {
        seq![]
    }
}

/// What the disk as a whole adds to the environment: name and version
/// of the distribution, whether it lives on logical volumes, whether the
/// disk is encrypted, the architecture of the system, the disk, and the
/// number of the partition that holds the system.
pub open spec fn disk_changes(d: DistroView, disk: Seq<char>) -> Seq<EnvChangeView> {
    seq![
        assign("DISTRONAME"@, "'"@ + d.distro_name_version.name + "'"@),
        assign("DISTROVERSION"@, d.distro_name_version.version_id),
        assign("isLVM"@, bool_text(d.is_lvm)),
        assign("isADE"@, bool_text(d.is_ade)),
        assign("ARCHITECTURE"@, d.architecture.label()),
        assign("RECOVER_DISK_PATH"@, disk),
        assign("OS_PARTITION"@, int_text(d.partitions[os_index(d.partitions)].number)),
    ]
}

/// The changes to the environment for a disk, in order.
pub open spec fn environment(d: DistroView, disk: Seq<char>, is_nvme: bool) -> Result<
    Seq<EnvChangeView>,
    MountError,
> {
    let parts = d.partitions;
    if !(0 <= os_index(parts) < parts.len()) {
        Err(MountError::NoOsPartition)
    } else {
        Ok(
            disk_changes(d, disk) + role_changes(
                parts,
                boot_index(parts),
                "BOOT_PARTITION"@,
                "boot_part_path"@,
                disk,
                is_nvme,
            ) + role_changes(
                parts,
                efi_index(parts),
                "EFI_PARTITION"@,
                "efi_part_path"@,
                disk,
                is_nvme,
            ) + seq![remove("SUDO_COMMAND"@)] + kind_changes(
                distro_kind(d.distro_name_version.name),
            ),
        )
    }
}

fn push_assign(changes: &mut Vec<EnvChange>, name: &str, value: &str)
    ensures
        views(final(changes)@) == views(old(changes)@).push(assign(name@, value@)),
{
    let change = EnvChange::Assign { name: name.to_owned(), value: value.to_owned() };
    proof {
        lemma_views_push(changes@, change);
    }
    changes.push(change);
}

fn push_role(
    changes: &mut Vec<EnvChange>,
    distro: &Distro,
    index: Option<usize>,
    number_name: &str,
    path_name: &str,
    disk_path: &str,
    is_nvme: bool,
)
    requires
        index matches Some(i) ==> i < distro.partitions.len(),
    ensures
        views(final(changes)@) == views(old(changes)@) + role_changes(
            distro@.partitions,
            match index {
                Some(i) => i as int,
                None => distro@.partitions.len() as int,
            },
            number_name@,
            path_name@,
            disk_path@,
            is_nvme,
        ),
{
    match index {
        Some(i) => {
            let part = &distro.partitions[i];
            assert(part@ == distro@.partitions[i as int]);
            let number = from_chars(&number_chars(part.number));
            let device = partition_device(disk_path, is_nvme, part.number);
            let ghost before = views(changes@);
            push_assign(changes, number_name, number.as_str());
            push_assign(changes, path_name, device.as_str());
            assert(views(changes@) =~= before + seq![
                assign(number_name@, int_text(part@.number)),
                assign(path_name@, partition_path(disk_path@, is_nvme, part@.number)),
            ]);
        },
        None => {
            assert(views(changes@) =~= views(changes@) + Seq::<EnvChangeView>::empty());
        },
    }
}

fn plan_disk_changes(distro: &Distro, disk_path: &str, os: usize) -> (changes: Vec<EnvChange>)
    requires
        os < distro.partitions.len(),
        os == os_index(distro@.partitions),
    ensures
        views(changes@) == disk_changes(distro@, disk_path@),
{
    let part = &distro.partitions[os];
    assert(part@ == distro@.partitions[os as int]);
    let mut changes: Vec<EnvChange> = Vec::new();
    assert(views(changes@) =~= Seq::<EnvChangeView>::empty());
    let quoted = join3("'", distro.distro_name_version.name.as_str(), "'");
    push_assign(&mut changes, "DISTRONAME", quoted.as_str());
    push_assign(&mut changes, "DISTROVERSION", distro.distro_name_version.version_id.as_str());
    push_assign(&mut changes, "isLVM", convert_bool(distro.is_lvm).as_str());
    push_assign(&mut changes, "isADE", convert_bool(distro.is_ade).as_str());
    push_assign(&mut changes, "ARCHITECTURE", distro.architecture.name());
    push_assign(&mut changes, "RECOVER_DISK_PATH", disk_path);
    let number = from_chars(&number_chars(part.number));
    push_assign(&mut changes, "OS_PARTITION", number.as_str());
    assert(views(changes@) =~= disk_changes(distro@, disk_path@));
    changes
}

/// The name of the flag of a family.
pub fn family_flag_name(family: DistroType) -> (r: &'static str)
    ensures
        r@ == family_flag(family),
{
    match family {
        DistroType::RedHat => "isRedHat",
        DistroType::Ubuntu => "isUbuntu",
        DistroType::Suse => "isSuse",
        DistroType::AzureLinux => "isAzureLinux",
        DistroType::Debian => "isDebian",
        DistroType::Undefined => "DISTROTYPE",
    }
}

/// Plans the environment of the repair actions: name and version of the
/// distribution, whether it lives on logical volumes, whether the disk is
/// encrypted, the architecture of the system, the disk and the partitions
/// that make up the tree, then the family of the distribution.
/// One variable is taken away so that the actions cannot read the command
/// line that started the recovery.
///
/// Fails exactly when no partition holds the operating system.
pub fn set_environment(distro: &Distro, disk_path: &str, is_nvme: bool) -> (r: Result<
    Vec<EnvChange>,
    MountError,
>)
    ensures
        match r {
            Ok(changes) => environment(distro@, disk_path@, is_nvme) == Ok::<
                Seq<EnvChangeView>,
                MountError,
            >(views(changes@)),
            Err(e) => environment(distro@, disk_path@, is_nvme) == Err::<
                Seq<EnvChangeView>,
                MountError,
            >(e),
        },
{
    let roles = match find_roles(&distro.partitions) {
        Some(roles) => roles,
        None => {
            return Err(MountError::NoOsPartition);
        },
    };
    let ghost d = distro@;
    let ghost parts = d.partitions;
    let mut changes = plan_disk_changes(distro, disk_path, roles.os);
    let ghost head = disk_changes(d, disk_path@);
    push_role(
        &mut changes,
        distro,
        roles.boot,
        "BOOT_PARTITION",
        "boot_part_path",
        disk_path,
        is_nvme,
    );
    push_role(&mut changes, distro, roles.efi, "EFI_PARTITION", "efi_part_path", disk_path, is_nvme);
    let ghost middle = head + role_changes(
        parts,
        boot_index(parts),
        "BOOT_PARTITION"@,
        "boot_part_path"@,
        disk_path@,
        is_nvme,
    ) + role_changes(
        parts,
        efi_index(parts),
        "EFI_PARTITION"@,
        "efi_part_path"@,
        disk_path@,
        is_nvme,
    );
    assert(views(changes@) == middle);
    let change = EnvChange::Remove { name: "SUDO_COMMAND".to_owned() };
    proof {
        lemma_views_push(changes@, change);
    }
    changes.push(change);
    let kind = get_distro_kind(distro);
    match kind.distro_type {
        DistroType::Undefined => {
            push_assign(&mut changes, "DISTROTYPE", "UNKNOWN");
            push_assign(&mut changes, "DISTROSUBTYPE", "UNKNOWN");
        },
        _ => {
            push_assign(
                &mut changes,
                family_flag_name(kind.distro_type),
                convert_bool(true).as_str(),
            );
            push_assign(&mut changes, "DISTROSUBTYPE", kind.distro_subtype.name());
        },
    }
    assert(views(changes@) =~= middle + seq![remove("SUDO_COMMAND"@)] + kind_changes(kind));
    Ok(changes)
}

/// The environment tells the repair actions whether the disk is encrypted
/// and for which processor the system was built: both are assigned
/// whenever there is an environment at all.
pub proof fn lemma_environment_tells_encryption_and_architecture(
    d: DistroView,
    disk: Seq<char>,
    is_nvme: bool,
)
    requires
        environment(d, disk, is_nvme) is Ok,
    ensures
        environment(d, disk, is_nvme)->Ok_0[3] == assign("isADE"@, bool_text(d.is_ade)),
        environment(d, disk, is_nvme)->Ok_0[4] == assign("ARCHITECTURE"@, d.architecture.label()),
{
}

} // verus!
