use alar::distro::{Distro, DistroKind, DistroSubType, DistroType};
use alar::environment::{set_environment, EnvChange};
use alar::partition::{LogicalVolume, PartInfo};
use alar::release::Architecture;
use alar::prepare_chroot::{
    convert_bool, find_roles, get_corrected_recover_path, get_distro_kind,
    mkdir_support_filesystems, mount_required_partitions, mount_support_filesystems,
    prepare_chroot, root_filesystem_query, MountError, Roles,
};
use alar::step::{Step, Task};

fn part(number: i32, part_type: &str, fstype: &str, contains_os: bool) -> PartInfo {
    PartInfo {
        number,
        part_type: part_type.to_string(),
        fstype: fstype.to_string(),
        contains_os,
        logical_volumes: None,
    }
}

fn volume(name: &str, fstype: &str) -> LogicalVolume {
    LogicalVolume { name: name.to_string(), fstype: fstype.to_string() }
}

fn must(step: Step) -> Task {
    Task { step, required: true }
}

fn mount(source: &str, target: &str, options: &str) -> Step {
    Step::Mount { source: source.to_string(), target: target.to_string(), options: options.to_string() }
}

fn create(path: &str) -> Step {
    Step::CreateDir { path: path.to_string() }
}

fn bind(source: &str, target: &str) -> Step {
    Step::BindMount { source: source.to_string(), target: target.to_string() }
}

fn assign(name: &str, value: &str) -> EnvChange {
    EnvChange::Assign { name: name.to_string(), value: value.to_string() }
}

fn named(name: &str) -> Distro {
    let mut distro = Distro::default();
    distro.distro_name_version.name = name.to_string();
    distro
}

fn kind(distro_type: DistroType, distro_subtype: DistroSubType) -> DistroKind {
    DistroKind { distro_type, distro_subtype }
}

fn raw_disk() -> Distro {
    let mut distro = named("Ubuntu");
    distro.distro_name_version.version_id = "22.04".to_string();
    distro.partitions = vec![
        part(1, "8300", "ext4", true),
        part(14, "0700", "xfs", false),
        part(15, "EF00", "vfat", false),
    ];
    distro
}

fn lvm_disk() -> Distro {
    let mut distro = named("Red Hat Enterprise Linux");
    distro.distro_name_version.version_id = "8.9".to_string();
    distro.is_lvm = true;
    let mut os = part(4, "8E00", "LVM2_member", true);
    os.logical_volumes = Some(vec![
        volume("rootvg-tmplv", "xfs"),
        volume("rootvg-usrlv", "xfs"),
        volume("rootvg-homelv", "ext4"),
        volume("rootvg-rootlv", "xfs"),
        volume("rootvg-varlv", "xfs"),
    ]);
    distro.partitions = vec![part(1, "EF00", "vfat", false), part(2, "8300", "xfs", false), os];
    distro
}

fn position(plan: &Vec<Task>, target: &str) -> usize {
    plan.iter()
        .position(|t| matches!(&t.step, Step::Mount { target: onto, .. } if onto == target))
        .unwrap()
}

#[test]
fn flags_are_written_as_words() {
    assert_eq!(convert_bool(true), "true");
    assert_eq!(convert_bool(false), "false");
}

#[test]
fn distribution_kinds_follow_the_table() {
    let plain = DistroSubType::Plain;
    assert_eq!(get_distro_kind(&named("Ubuntu")), kind(DistroType::Ubuntu, plain));
    assert_eq!(get_distro_kind(&named("Debian GNU/Linux")), kind(DistroType::Debian, plain));
    assert_eq!(get_distro_kind(&named("Red Hat Enterprise Linux")), kind(DistroType::RedHat, plain));
    assert_eq!(
        get_distro_kind(&named("Oracle Linux Server")),
        kind(DistroType::RedHat, DistroSubType::OracleLinux)
    );
    assert_eq!(get_distro_kind(&named("SLES")), kind(DistroType::Suse, plain));
    assert_eq!(get_distro_kind(&named("Microsoft Azure Linux")), kind(DistroType::AzureLinux, plain));
    assert_eq!(get_distro_kind(&named("Common Base Linux Mariner")), kind(DistroType::AzureLinux, plain));
    assert_eq!(get_distro_kind(&named("AlmaLinux")), kind(DistroType::RedHat, DistroSubType::AlmaLinux));
    assert_eq!(get_distro_kind(&named("Rocky Linux")), kind(DistroType::RedHat, DistroSubType::RockyLinux));
    assert_eq!(get_distro_kind(&named("CentOS Stream")), kind(DistroType::RedHat, DistroSubType::CentOS));
    assert_eq!(get_distro_kind(&named("Arch Linux")), kind(DistroType::Undefined, plain));
    assert_eq!(get_distro_kind(&named("")), kind(DistroType::Undefined, plain));
    assert_eq!(get_distro_kind(&named("ubuntu")), kind(DistroType::Undefined, plain));
}

#[test]
fn first_entry_of_the_table_wins() {
    let plain = DistroSubType::Plain;
    assert_eq!(get_distro_kind(&named("CentOS on Ubuntu")), kind(DistroType::Ubuntu, plain));
    assert_eq!(
        get_distro_kind(&named("Oracle Linux, Red Hat compatible")),
        kind(DistroType::RedHat, plain)
    );
    assert_eq!(get_distro_kind(&named("Rocky Linux vs AlmaLinux")), kind(DistroType::RedHat, DistroSubType::AlmaLinux));
}

#[test]
fn kinds_have_names() {
    assert_eq!(DistroType::default(), DistroType::Undefined);
    assert_eq!(DistroSubType::default(), DistroSubType::Plain);
    assert_eq!(DistroType::AzureLinux.name(), "AzureLinux");
    assert_eq!(DistroType::Undefined.name(), "Undefined");
    assert_eq!(DistroType::Debian.name(), "Debian");
    assert_eq!(DistroType::Suse.name(), "Suse");
    assert_eq!(DistroType::RedHat.name(), "RedHat");
    assert_eq!(DistroType::Ubuntu.name(), "Ubuntu");
    assert_eq!(DistroSubType::Plain.name(), "None");
    assert_eq!(DistroSubType::CentOS.name(), "CentOS");
    assert_eq!(DistroSubType::AlmaLinux.name(), "AlmaLinux");
    assert_eq!(DistroSubType::RockyLinux.name(), "RockyLinux");
    assert_eq!(DistroSubType::OracleLinux.name(), "OracleLinux");
}

#[test]
fn recover_path_follows_the_controller() {
    assert_eq!(get_corrected_recover_path("/dev/sdc", false), "/dev/sdc");
    assert_eq!(get_corrected_recover_path("/dev/nvme0n2", true), "/dev/nvme0n2p");
}

#[test]
fn roles_are_found_by_position() {
    assert_eq!(
        find_roles(&raw_disk().partitions),
        Some(Roles { os: 0, boot: Some(1), efi: Some(2) })
    );
    assert_eq!(
        find_roles(&vec![part(1, "8300", "ext4", true)]),
        Some(Roles { os: 0, boot: None, efi: None })
    );
    assert_eq!(find_roles(&vec![part(1, "8300", "ext4", false)]), None);
    assert_eq!(find_roles(&vec![]), None);
}

#[test]
fn raw_disk_is_mounted_root_boot_efi() {
    let plan = mount_required_partitions(&raw_disk(), "/dev/sdc", false, "ext4\n").unwrap();
    assert_eq!(
        plan,
        vec![
            must(create("/srv/rescue-root/")),
            must(mount("/dev/sdc1", "/srv/rescue-root/", "")),
            must(mount("/dev/sdc14", "/srv/rescue-root/boot", "nouuid")),
            must(mount("/dev/sdc15", "/srv/rescue-root/boot/efi", "")),
        ]
    );
    let xfs = mount_required_partitions(&raw_disk(), "/dev/nvme0n2", true, " xfs \n").unwrap();
    assert_eq!(xfs[1], must(mount("/dev/nvme0n2p1", "/srv/rescue-root/", "nouuid")));
    assert_eq!(xfs[3], must(mount("/dev/nvme0n2p15", "/srv/rescue-root/boot/efi", "")));
}

#[test]
fn encrypted_raw_disk_is_mounted_from_the_mapper() {
    let mut distro = raw_disk();
    distro.is_ade = true;
    let plan = mount_required_partitions(&distro, "/dev/sdc", false, "xfs").unwrap();
    assert_eq!(plan[1], must(mount("/dev/mapper/rescueencrypt", "/srv/rescue-root/", "nouuid")));
    let query = root_filesystem_query(&distro, "/dev/sdc", false).unwrap();
    assert_eq!(query.program, "lsblk");
    assert_eq!(query.args, vec!["-nf", "-o", "FSTYPE", "/dev/mapper/rescueencrypt"]);
    let clear = root_filesystem_query(&raw_disk(), "/dev/sdc", false).unwrap();
    assert_eq!(clear.args, vec!["-nf", "-o", "FSTYPE", "/dev/sdc1"]);
    assert_eq!(root_filesystem_query(&lvm_disk(), "/dev/sdc", false), None);
}

#[test]
fn volumes_are_mounted_root_first_and_without_temporary_storage() {
    let plan = mount_required_partitions(&lvm_disk(), "/dev/sdc", false, "").unwrap();
    assert_eq!(
        plan,
        vec![
            must(create("/srv/rescue-root/")),
            must(mount("/dev/mapper/rootvg-rootlv", "/srv/rescue-root/", "nouuid")),
            must(mount("/dev/mapper/rootvg-usrlv", "/srv/rescue-root/usr", "nouuid")),
            must(mount("/dev/mapper/rootvg-homelv", "/srv/rescue-root/home", "")),
            must(mount("/dev/mapper/rootvg-varlv", "/srv/rescue-root/var", "nouuid")),
            must(mount("/dev/sdc2", "/srv/rescue-root/boot", "nouuid")),
            must(mount("/dev/sdc1", "/srv/rescue-root/boot/efi", "")),
        ]
    );
}

#[test]
fn mount_order_holds_in_the_plans() {
    for plan in [
        mount_required_partitions(&lvm_disk(), "/dev/sdc", false, "").unwrap(),
        mount_required_partitions(&raw_disk(), "/dev/sdc", false, "xfs").unwrap(),
    ] {
        let root = position(&plan, "/srv/rescue-root/");
        let boot = position(&plan, "/srv/rescue-root/boot");
        let efi = position(&plan, "/srv/rescue-root/boot/efi");
        assert!(boot < efi);
        for (at, task) in plan.iter().enumerate() {
            if let Step::Mount { target, .. } = &task.step {
                if target != "/srv/rescue-root/" {
                    assert!(root < at);
                }
            }
        }
    }
}

#[test]
fn disk_without_system_has_no_plan() {
    let mut distro = raw_disk();
    distro.partitions[0].contains_os = false;
    assert_eq!(mount_required_partitions(&distro, "/dev/sdc", false, ""), Err(MountError::NoOsPartition));
    assert_eq!(prepare_chroot(&distro, "/dev/sdc", false, ""), Err(MountError::NoOsPartition));
    assert_eq!(set_environment(&distro, "/dev/sdc", false), Err(MountError::NoOsPartition));
    assert_eq!(root_filesystem_query(&distro, "/dev/sdc", false), None);
}

#[test]
fn volume_with_a_foreign_name_has_no_place() {
    for name in ["datavg-datalv", "rootvg-opt", "rootvg-lv", "rootvg-a/blv", "lv"] {
        let mut distro = lvm_disk();
        distro.partitions[2].logical_volumes = Some(vec![volume("rootvg-rootlv", "xfs"), volume(name, "xfs")]);
        assert_eq!(
            mount_required_partitions(&distro, "/dev/sdc", false, ""),
            Err(MountError::VolumeName)
        );
    }
}

#[test]
fn support_filesystems_are_bound_last() {
    assert_eq!(
        mkdir_support_filesystems(),
        vec![
            must(create("/srv/rescue-root//dev")),
            must(create("/srv/rescue-root//proc")),
            must(create("/srv/rescue-root//sys")),
            must(create("/srv/rescue-root//tmp")),
            must(create("/srv/rescue-root//dev/pts")),
            must(create("/srv/rescue-root//run")),
        ]
    );
    assert_eq!(
        mount_support_filesystems(),
        vec![
            must(bind("/dev/", "/srv/rescue-root/dev")),
            must(bind("/proc/", "/srv/rescue-root/proc")),
            must(bind("/sys/", "/srv/rescue-root/sys")),
            must(bind("/tmp/", "/srv/rescue-root/tmp")),
            must(bind("/dev/pts/", "/srv/rescue-root/dev/pts")),
            must(bind("/run/", "/srv/rescue-root/run")),
        ]
    );
    let plan = prepare_chroot(&raw_disk(), "/dev/sdc", false, "ext4").unwrap();
    assert_eq!(plan.len(), 4 + 6 + 6);
    let last_mount = plan.iter().rposition(|t| matches!(t.step, Step::Mount { .. })).unwrap();
    let first_bind = plan.iter().position(|t| matches!(t.step, Step::BindMount { .. })).unwrap();
    assert!(last_mount < first_bind);
    assert_eq!(plan[..4].to_vec(), mount_required_partitions(&raw_disk(), "/dev/sdc", false, "ext4").unwrap());
}

#[test]
fn environment_describes_the_disk() {
    let changes = set_environment(&raw_disk(), "/dev/sdc", false).unwrap();
    assert_eq!(
        changes,
        vec![
            assign("DISTRONAME", "'Ubuntu'"),
            assign("DISTROVERSION", "22.04"),
            assign("isLVM", "false"),
            assign("isADE", "false"),
            assign("ARCHITECTURE", "x86_64"),
            assign("RECOVER_DISK_PATH", "/dev/sdc"),
            assign("OS_PARTITION", "1"),
            assign("BOOT_PARTITION", "14"),
            assign("boot_part_path", "/dev/sdc14"),
            assign("EFI_PARTITION", "15"),
            assign("efi_part_path", "/dev/sdc15"),
            EnvChange::Remove { name: "SUDO_COMMAND".to_string() },
            assign("isUbuntu", "true"),
            assign("DISTROSUBTYPE", "None"),
        ]
    );
}

#[test]
fn environment_names_family_and_subtype() {
    let mut distro = lvm_disk();
    distro.distro_name_version.name = "Rocky Linux".to_string();
    distro.is_ade = true;
    distro.architecture = Architecture::Aarch64;
    let changes = set_environment(&distro, "/dev/nvme0n2", true).unwrap();
    assert_eq!(changes[2], assign("isLVM", "true"));
    assert_eq!(changes[3], assign("isADE", "true"));
    assert_eq!(changes[4], assign("ARCHITECTURE", "aarch64"));
    assert_eq!(changes[6], assign("OS_PARTITION", "4"));
    assert_eq!(changes[8], assign("boot_part_path", "/dev/nvme0n2p2"));
    assert_eq!(changes[10], assign("efi_part_path", "/dev/nvme0n2p1"));
    assert_eq!(changes[12], assign("isRedHat", "true"));
    assert_eq!(changes[13], assign("DISTROSUBTYPE", "RockyLinux"));
    let mut unknown = raw_disk();
    unknown.distro_name_version.name = "Gentoo".to_string();
    unknown.partitions = vec![part(1, "8300", "ext4", true)];
    let changes = set_environment(&unknown, "/dev/sdc", false).unwrap();
    assert_eq!(changes.len(), 10);
    assert_eq!(changes[8], assign("DISTROTYPE", "UNKNOWN"));
    assert_eq!(changes[9], assign("DISTROSUBTYPE", "UNKNOWN"));
    for (name, flag) in [("Debian", "isDebian"), ("SLES", "isSuse"), ("Azure Linux", "isAzureLinux")] {
        let mut distro = raw_disk();
        distro.distro_name_version.name = name.to_string();
        let changes = set_environment(&distro, "/dev/sdc", false).unwrap();
        assert_eq!(changes[12], assign(flag, "true"));
    }
}
