use alar::cli::CliInfo;
use alar::detect::{Detection, DetectionError, Outcome, ProbeContext, Request};
use alar::distro::{Distro, DistroError};
use alar::partition::{LogicalVolume, PartInfo};
use alar::pipeline::Findings;
use alar::release::{architecture_of, parse_os_release, Architecture};
use alar::step::{Step, Task};

fn part(number: i32, part_type: &str, fstype: &str) -> PartInfo {
    PartInfo {
        number,
        part_type: part_type.to_string(),
        fstype: fstype.to_string(),
        contains_os: false,
        logical_volumes: None,
    }
}

fn volume(name: &str, fstype: &str) -> LogicalVolume {
    LogicalVolume { name: name.to_string(), fstype: fstype.to_string() }
}

fn context(lvm_allowed: bool) -> ProbeContext {
    ProbeContext {
        disk_path: "/dev/sdc".to_string(),
        is_nvme: false,
        is_ade: false,
        mapper_fstype: "xfs".to_string(),
        lvm_allowed,
    }
}

fn must(step: Step) -> Task {
    Task { step, required: true }
}

fn may(step: Step) -> Task {
    Task { step, required: false }
}

fn check(device: &str) -> Step {
    Step::Check { device: device.to_string() }
}

fn mount(source: &str, target: &str, options: &str) -> Step {
    Step::Mount { source: source.to_string(), target: target.to_string(), options: options.to_string() }
}

fn unmount(target: &str, recursive: bool) -> Step {
    Step::Unmount { target: target.to_string(), recursive }
}

fn remove_dir(path: &str) -> Step {
    Step::RemoveDir { path: path.to_string() }
}

const UBUNTU: &str = "PRETTY_NAME=\"Ubuntu 22.04.3 LTS\"\nNAME=\"Ubuntu\"\nVERSION_ID=\"22.04\"\nVERSION=\"22.04.3 LTS (Jammy Jellyfish)\"\nID=ubuntu\n";

#[test]
fn release_file_gives_name_and_version_verbatim() {
    let identity = parse_os_release(UBUNTU);
    assert_eq!(identity.name, "Ubuntu");
    assert_eq!(identity.version_id, "22.04");
    let rolling = parse_os_release("  NAME=openSUSE Tumbleweed  \r\nVERSION_ID=\"20240101-rc\"\n");
    assert_eq!(rolling.name, "openSUSE Tumbleweed");
    assert_eq!(rolling.version_id, "20240101-rc");
    let none = parse_os_release("ID=x\n");
    assert_eq!(none.name, "");
    assert_eq!(none.version_id, "");
    let twice = parse_os_release("NAME=a\nNAME=\"b\"\n");
    assert_eq!(twice.name, "b");
}

#[test]
fn architecture_is_read_from_the_binary() {
    assert_eq!(
        architecture_of("/tmp/assert/bin/bash: ELF 64-bit LSB pie executable, ARM aarch64, version 1"),
        Architecture::Aarch64
    );
    assert_eq!(
        architecture_of("/tmp/assert/bin/bash: ELF 64-bit LSB pie executable, x86-64, version 1"),
        Architecture::X86_64
    );
    assert_eq!(architecture_of(""), Architecture::X86_64);
    assert_eq!(Architecture::Aarch64.name(), "aarch64");
    assert_eq!(Architecture::X86_64.name(), "x86_64");
}

#[test]
fn ubuntu_is_found_on_the_second_partition() {
    let parts = vec![part(1, "EF00", "vfat"), part(2, "0700", "ext4"), part(3, "8300", "ext4")];
    let mut detection = Detection::new(parts, context(true));
    assert_eq!(
        Detection::prepare(),
        vec![must(Step::CreateDir { path: "/tmp/assert".to_string() })]
    );
    let probe = match detection.next() {
        Request::Look { probe } => probe,
        Request::Done { .. } => panic!("a candidate is due"),
    };
    assert_eq!(probe.index, 1);
    assert_eq!(
        probe.mount,
        vec![must(check("/dev/sdc2")), must(mount("/dev/sdc2", "/tmp/assert", ""))]
    );
    assert!(probe.probe_architecture);
    assert_eq!(
        probe.found,
        vec![must(unmount("/tmp/assert", false)), may(remove_dir("/tmp/assert"))]
    );
    assert_eq!(probe.missing, vec![must(unmount("/tmp/assert", false))]);
    detection.answer(Some(UBUNTU), "/tmp/assert/bin/bash: ELF 64-bit LSB pie executable, x86-64");
    match detection.next() {
        Request::Done { outcome, cleanup } => {
            assert_eq!(outcome, Outcome::Detected { index: 1 });
            assert!(cleanup.is_empty());
        },
        Request::Look { .. } => panic!("nothing is left to look at"),
    }
    let distro = Distro::new(&CliInfo::new(), detection, None).unwrap();
    assert_eq!(distro.distro_name_version.name, "Ubuntu");
    assert_eq!(distro.distro_name_version.version_id, "22.04");
    assert_eq!(distro.architecture, Architecture::X86_64);
    let marked: Vec<bool> = distro.partitions.iter().map(|p| p.contains_os).collect();
    assert_eq!(marked, vec![false, true, false]);
    assert!(!distro.is_ade);
    assert!(!distro.is_lvm);
}

#[test]
fn context_follows_the_findings() {
    let locked = ProbeContext::new(
        "/dev/sdc",
        false,
        Findings { encrypted: true, has_lvm: false },
        Some("SGI XFS filesystem data"),
        true,
    );
    assert!(locked.is_ade);
    assert_eq!(locked.mapper_fstype, "xfs");
    assert_eq!(locked.disk_path, "/dev/sdc");
    assert!(locked.lvm_allowed);
    let clear =
        ProbeContext::new("/dev/nvme0n2", true, Findings { encrypted: false, has_lvm: true }, None, false);
    assert!(!clear.is_ade);
    assert!(clear.is_nvme);
    assert!(!clear.lvm_allowed);
    assert_eq!(clear.mapper_fstype, "xfs");
    let detection = Detection::new(vec![part(1, "8300", "crypt?")], locked);
    assert!(detection.is_ade());
}

#[test]
fn detection_resolves_the_architecture_from_the_binary() {
    let mut detection = Detection::new(vec![part(1, "8300", "xfs")], context(true));
    match detection.next() {
        Request::Look { probe } => {
            assert_eq!(
                probe.mount,
                vec![must(check("/dev/sdc1")), must(mount("/dev/sdc1", "/tmp/assert", "nouuid"))]
            );
        },
        Request::Done { .. } => panic!("a candidate is due"),
    }
    detection.answer(Some(UBUNTU), "ELF 64-bit LSB executable, ARM aarch64");
    let (_, identity, architecture, result) = detection.finish();
    assert_eq!(architecture, Architecture::Aarch64);
    assert_eq!(identity.name, "Ubuntu");
    assert_eq!(result, Some(Outcome::Detected { index: 0 }));
}

#[test]
fn detection_goes_through_the_candidates_in_table_order() {
    let parts = vec![part(1, "8300", "ext4"), part(15, "EF00", "vfat"), part(2, "8300", "xfs")];
    let mut detection = Detection::new(parts, context(true));
    let mut looked = Vec::new();
    loop {
        match detection.next() {
            Request::Look { probe } => {
                looked.push(probe.index);
                detection.answer(None, "");
            },
            Request::Done { outcome, cleanup } => {
                assert_eq!(outcome, Outcome::NoOsPartition);
                assert_eq!(cleanup, vec![may(remove_dir("/tmp/assert"))]);
                break;
            },
        }
    }
    assert_eq!(looked, vec![0, 2]);
    let (parts, _, _, result) = detection.finish();
    assert_eq!(result, Some(Outcome::NoOsPartition));
    assert!(parts.iter().all(|p| !p.contains_os));
}

#[test]
fn detection_stops_at_the_first_release_file() {
    let parts = vec![part(1, "8300", "ext4"), part(2, "8300", "ext4")];
    let mut detection = Detection::new(parts, context(true));
    detection.answer(Some("NAME=One\n"), "");
    detection.answer(Some("NAME=Two\n"), "");
    let (parts, identity, _, result) = detection.finish();
    assert_eq!(result, Some(Outcome::Detected { index: 0 }));
    assert_eq!(identity.name, "One");
    assert_eq!(parts.iter().filter(|p| p.contains_os).count(), 1);
}

#[test]
fn detection_forgets_marks_that_were_set_before() {
    let mut marked = part(1, "8300", "ext4");
    marked.contains_os = true;
    let detection = Detection::new(vec![marked, part(2, "8300", "ext4")], context(true));
    let (parts, _, _, result) = detection.finish();
    assert_eq!(result, None);
    assert!(parts.iter().all(|p| !p.contains_os));
}

#[test]
fn detection_of_a_disk_without_candidates_reports_no_system() {
    let mut detection = Detection::new(vec![part(15, "EF00", "vfat")], context(true));
    match detection.next() {
        Request::Done { outcome, .. } => assert_eq!(outcome, Outcome::NoOsPartition),
        Request::Look { .. } => panic!("an EFI partition is never looked at"),
    }
    detection.answer(Some(UBUNTU), "");
    assert_eq!(
        Distro::new(&CliInfo::new(), detection, None),
        Err(DistroError::NoOsPartition)
    );
}

#[test]
fn unfinished_detection_gives_no_distro() {
    let detection = Detection::new(vec![part(1, "8300", "ext4")], context(true));
    assert_eq!(Distro::new(&CliInfo::new(), detection, None), Err(DistroError::Unfinished));
}

#[test]
fn volume_group_is_mounted_root_first() {
    let mut lvm = part(2, "8E00", "LVM2_member");
    lvm.logical_volumes = Some(vec![
        volume("rootvg-usrlv", "xfs"),
        volume("rootvg-rootlv", "ext4"),
        volume("rootvg-homelv", "xfs"),
    ]);
    let mut detection = Detection::new(vec![part(1, "EF00", "vfat"), lvm], context(true));
    let probe = match detection.next() {
        Request::Look { probe } => probe,
        Request::Done { .. } => panic!("a candidate is due"),
    };
    assert_eq!(probe.index, 1);
    assert!(!probe.probe_architecture);
    assert_eq!(
        probe.mount,
        vec![
            must(check("/dev/rootvg/rootlv")),
            must(mount("/dev/rootvg/rootlv", "/tmp/assert", "")),
            must(check("/dev/rootvg/usrlv")),
            must(mount("/dev/rootvg/usrlv", "/tmp/assert/usr", "nouuid")),
        ]
    );
    assert_eq!(probe.found, vec![must(unmount("/tmp/assert", true))]);
    assert!(probe.missing.is_empty());
    detection.answer(Some("NAME=\"Red Hat Enterprise Linux\"\nVERSION_ID=\"8.9\"\n"), "aarch64");
    let distro = Distro::new(&CliInfo::new(), detection, None).unwrap();
    assert!(distro.is_lvm);
    assert_eq!(distro.architecture, Architecture::X86_64);
    assert_eq!(distro.distro_name_version.version_id, "8.9");
    assert!(distro.partitions[1].contains_os);
}

#[test]
fn volume_group_without_release_file_fails() {
    let mut lvm = part(2, "8E00", "LVM2_member");
    lvm.logical_volumes = Some(vec![volume("rootvg-rootlv", "xfs")]);
    let mut detection = Detection::new(vec![lvm, part(3, "8300", "ext4")], context(true));
    detection.answer(None, "");
    match detection.next() {
        Request::Done { outcome, cleanup } => {
            assert_eq!(outcome, Outcome::Failed { error: DetectionError::ReleaseFileMissing });
            assert!(cleanup.is_empty());
        },
        Request::Look { .. } => panic!("a volume group must hold the release file"),
    }
    assert_eq!(
        Distro::new(&CliInfo::new(), detection, None),
        Err(DistroError::Detection { error: DetectionError::ReleaseFileMissing })
    );
}

#[test]
fn volume_group_is_refused_on_a_host_that_cannot_take_it() {
    let mut lvm = part(2, "8E00", "LVM2_member");
    lvm.logical_volumes = Some(vec![volume("rootvg-rootlv", "xfs")]);
    let detection = Detection::new(vec![lvm], context(false));
    match detection.next() {
        Request::Done { outcome, .. } => {
            assert_eq!(outcome, Outcome::Failed { error: DetectionError::LvmNotAllowed })
        },
        Request::Look { .. } => panic!("the host may not take the disk"),
    }
}

#[test]
fn volume_group_without_volumes_is_refused() {
    let mut empty = part(2, "8E00", "LVM2_member");
    empty.logical_volumes = Some(vec![]);
    let detection = Detection::new(vec![empty], context(true));
    match detection.next() {
        Request::Done { outcome, .. } => {
            assert_eq!(outcome, Outcome::Failed { error: DetectionError::NoRootVolume })
        },
        Request::Look { .. } => panic!("there is no volume to mount"),
    }
    let unlisted = Detection::new(vec![part(2, "8E00", "LVM2_member")], context(true));
    match unlisted.next() {
        Request::Done { outcome, cleanup } => {
            assert_eq!(outcome, Outcome::NoOsPartition);
            assert!(cleanup.is_empty());
        },
        Request::Look { .. } => panic!("there is no volume to mount"),
    }
}

#[test]
fn unresolved_partition_is_looked_at_through_the_mapper() {
    let mut ctx = context(true);
    ctx.is_ade = true;
    ctx.mapper_fstype = "xfs".to_string();
    let mut detection = Detection::new(vec![part(1, "8300", "ext4"), part(2, "8300", "crypt?")], ctx);
    detection.answer(None, "");
    match detection.next() {
        Request::Look { probe } => {
            assert_eq!(probe.index, 1);
            assert_eq!(
                probe.mount,
                vec![
                    must(check("/dev/mapper/rescueencrypt")),
                    must(mount("/dev/mapper/rescueencrypt", "/tmp/assert", "nouuid")),
                ]
            );
        },
        Request::Done { .. } => panic!("a candidate is due"),
    }
    detection.answer(Some(UBUNTU), "x86-64");
    let distro = Distro::new(&CliInfo::new(), detection, Some("SGI XFS filesystem data")).unwrap();
    assert!(distro.is_ade);
    assert_eq!(distro.partitions[1].fstype, "xfs");
    assert!(distro.partitions.iter().all(|p| p.fstype != "crypt?"));
    assert!(distro.partitions[1].contains_os);
}

#[test]
fn repair_host_on_lvm_needs_a_capable_release() {
    assert!(Distro::is_repairvm_with_lvm_allowed(false, None));
    assert!(Distro::is_repairvm_with_lvm_allowed(false, Some("9.3")));
    assert!(Distro::is_repairvm_with_lvm_allowed(true, Some("7.9")));
    assert!(Distro::is_repairvm_with_lvm_allowed(true, Some(" 8.10\n")));
    assert!(!Distro::is_repairvm_with_lvm_allowed(true, Some("9.3")));
    assert!(!Distro::is_repairvm_with_lvm_allowed(true, Some("8")));
    assert!(!Distro::is_repairvm_with_lvm_allowed(true, Some("18.04")));
    assert!(!Distro::is_repairvm_with_lvm_allowed(true, None));
}

#[test]
fn repair_host_on_lvm_is_seen_in_the_mount_table() {
    let table = "/ /dev/mapper/rootvg-rootlv xfs rw\n/usr /dev/mapper/rootvg-usrlv xfs rw\n/boot /dev/sda2 xfs rw\n";
    assert!(Distro::is_lvm_on_repair_disk(table));
    assert!(!Distro::is_lvm_on_repair_disk("/ /dev/sda1 ext4 rw\n/usr/share /dev/sdb1 ext4\n"));
    assert!(!Distro::is_lvm_on_repair_disk("/home /dev/mapper/vg-home xfs\n/usr /dev/sda3 xfs\n"));
    assert!(!Distro::is_lvm_on_repair_disk(""));
    assert_eq!(Distro::mount_table_query().program, "findmnt");
}

#[test]
fn distro_flags_are_set() {
    let mut distro = Distro::default();
    assert!(!distro.is_ade);
    distro.set_is_ade(true);
    assert!(distro.is_ade);
    assert!(distro.partitions.is_empty());
    assert_eq!(distro.architecture, Architecture::X86_64);
}
