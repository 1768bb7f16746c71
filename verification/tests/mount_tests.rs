use alar::distro::Distro;
use alar::helper::{cleanup, relax, teardown};
use alar::mount::{
    boot_mounts_query, count_rootvg, disable_broken_disk, fsck_partition, fsck_verdict, importvg,
    observe_volume_groups, parse_boot_mounts, plan_restore_mounts, pvscan_query, rename_oldvg,
    rescan_host, scan_volume_groups, vgs_query, BootMounts, CheckError, ToolExit, VgObservation,
};
use alar::partition::{LogicalVolume, PartInfo};
use alar::step::{Step, Task};

fn must(step: Step) -> Task {
    Task { step, required: true }
}

fn may(step: Step) -> Task {
    Task { step, required: false }
}

fn run(program: &str, args: &[&str]) -> Step {
    Step::Run { program: program.to_string(), args: args.iter().map(|a| a.to_string()).collect() }
}

fn mount(source: &str, target: &str, options: &str) -> Step {
    Step::Mount { source: source.to_string(), target: target.to_string(), options: options.to_string() }
}

fn unmount(target: &str, recursive: bool) -> Step {
    Step::Unmount { target: target.to_string(), recursive }
}

fn write(path: &str, content: &str) -> Step {
    Step::WriteFile { path: path.to_string(), content: content.to_string() }
}

fn mounts(boot: Option<&str>, efi: Option<&str>) -> BootMounts {
    BootMounts { boot: boot.map(|d| d.to_string()), efi: efi.map(|d| d.to_string()) }
}

fn seen(rescuevg_present: bool, host_rootvg_active: bool, rootvg_count: usize) -> VgObservation {
    VgObservation { rescuevg_present, host_rootvg_active, rootvg_count }
}

fn part(number: i32, part_type: &str, fstype: &str, volumes: bool) -> PartInfo {
    PartInfo {
        number,
        part_type: part_type.to_string(),
        fstype: fstype.to_string(),
        contains_os: false,
        logical_volumes: if volumes {
            Some(vec![LogicalVolume { name: "rootvg-rootlv".to_string(), fstype: "xfs".to_string() }])
        } else {
            None
        },
    }
}

#[test]
fn check_of_xfs_replays_the_log_first() {
    let plan = fsck_partition("/dev/sdc2", "xfs");
    assert_eq!(
        plan.prepare,
        vec![must(mount("/dev/sdc2", "/tmp/assert", "nouuid")), must(unmount("/tmp/assert", false))]
    );
    assert_eq!(plan.tool.program, "xfs_repair");
    assert_eq!(plan.tool.args, vec!["/dev/sdc2"]);
    assert!(plan.recheck);
}

#[test]
fn check_of_other_filesystems_uses_their_own_tool() {
    let ext = fsck_partition("/dev/sdc2", "ext4");
    assert!(ext.prepare.is_empty());
    assert_eq!(ext.tool.program, "fsck.ext4");
    assert_eq!(ext.tool.args, vec!["-p", "/dev/sdc2"]);
    assert!(!ext.recheck);
    assert_eq!(fsck_partition("/dev/sdc1", "fat16").tool.program, "fsck.vfat");
    assert_eq!(fsck_partition("/dev/sdc1", "vfat").tool.program, "fsck.vfat");
    assert_eq!(fsck_partition("/dev/sdc1", "").tool.program, "fsck.");
}

#[test]
fn check_verdict_follows_the_status() {
    assert_eq!(fsck_verdict("ext4", ToolExit::Code { code: 0 }, None), Ok(()));
    assert_eq!(fsck_verdict("ext4", ToolExit::Code { code: 1 }, None), Ok(()));
    assert_eq!(fsck_verdict("ext4", ToolExit::Code { code: 8 }, None), Ok(()));
    assert_eq!(fsck_verdict("ext4", ToolExit::Code { code: 4 }, None), Err(CheckError::RepairNeeded));
    assert_eq!(fsck_verdict("xfs", ToolExit::Code { code: 4 }, Some("")), Err(CheckError::RepairNeeded));
    assert_eq!(fsck_verdict("xfs", ToolExit::Code { code: 1 }, Some("")), Err(CheckError::GeneralError));
    assert_eq!(fsck_verdict("xfs", ToolExit::Code { code: 1 }, None), Err(CheckError::GeneralError));
    assert_eq!(fsck_verdict("xfs", ToolExit::Code { code: 2 }, Some("")), Ok(()));
    assert_eq!(fsck_verdict("ext4", ToolExit::Signalled, None), Err(CheckError::Interrupted));
    assert_eq!(fsck_verdict("ext4", ToolExit::NotStarted, None), Ok(()));
}

#[test]
fn unsupported_xfs_features_count_as_sound() {
    let errors = "Phase 1 - find and verify superblock...\nFound unsupported filesystem features.  Exiting now.\n";
    assert_eq!(fsck_verdict("xfs", ToolExit::Code { code: 1 }, Some(errors)), Ok(()));
    assert_eq!(fsck_verdict("xfs", ToolExit::Code { code: 4 }, Some(errors)), Ok(()));
    assert_eq!(fsck_verdict("xfs", ToolExit::Signalled, Some(errors)), Ok(()));
    assert_eq!(fsck_verdict("ext4", ToolExit::Code { code: 4 }, Some(errors)), Err(CheckError::RepairNeeded));
}

#[test]
fn boot_mounts_are_read_from_the_listing() {
    let listing = "sda\nsda1  /boot\nsda2  /\nsda15 /boot/efi\nsdb1  /mnt\nsdc1  /boot\n";
    assert_eq!(parse_boot_mounts(listing), mounts(Some("sdc1"), Some("sda15")));
    assert_eq!(parse_boot_mounts("sda2 /\n"), mounts(None, None));
    assert_eq!(parse_boot_mounts(""), mounts(None, None));
    assert_eq!(parse_boot_mounts("bootdisk\nsda1 /bootstrap\n"), mounts(None, None));
    assert_eq!(boot_mounts_query().args, vec!["-ln", "-o", "NAME,MOUNTPOINT"]);
}

#[test]
fn boot_mounts_are_restored_boot_first() {
    assert_eq!(
        plan_restore_mounts(&mounts(Some("sda1"), Some("sda15")), true),
        vec![
            must(unmount("/boot/efi", false)),
            must(unmount("/boot", false)),
            must(mount("/dev/sda1", "/boot", "")),
            must(mount("/dev/sda15", "/boot/efi", "")),
        ]
    );
    assert_eq!(
        plan_restore_mounts(&mounts(None, Some("sda15")), false),
        vec![may(unmount("/boot/efi", false)), must(mount("/dev/sda15", "/boot/efi", ""))]
    );
    assert!(plan_restore_mounts(&mounts(None, None), true).is_empty());
}

#[test]
fn physical_volumes_of_the_root_group_are_counted() {
    let scan = "  WARNING: Not using device /dev/sdc2 for PV of rootvg\n  PV /dev/sda4   VG rootvg   lvm2 [63.02 GiB / 38.02 GiB free]\n  PV /dev/sdc4   VG rootvg   lvm2 [63.02 GiB]\n  PV /dev/sdd1   VG datavg   lvm2\n  Total: 3 [126.04 GiB] / in use: 3 [rootvg]\n  duplicate PV rootvg\n";
    assert_eq!(count_rootvg(scan), 2);
    assert_eq!(count_rootvg(""), 0);
    assert_eq!(count_rootvg("PV /dev/sda4 VG rootvg"), 1);
    let seen = observe_volume_groups("  rootvg\n  rescuevg\n", true, scan);
    assert_eq!(seen, VgObservation { rescuevg_present: true, host_rootvg_active: true, rootvg_count: 2 });
    assert!(!observe_volume_groups("  rootvg\n", false, "").rescuevg_present);
    assert_eq!(vgs_query().args, vec!["--noheadings", "-o", "vg_name"]);
    assert_eq!(pvscan_query().program, "pvscan");
    assert_eq!(scan_volume_groups(), vec![must(run("pvscan", &[]))]);
}

#[test]
fn import_clones_the_group_of_the_disk_under_an_alias() {
    let plan = importvg(seen(false, true, 2), "/dev/sdc", false, 4, &mounts(Some("sda1"), Some("sda15")));
    assert_eq!(
        plan,
        vec![
            must(run("vgimportclone", &["-n", "rescuevg", "/dev/sdc4"])),
            must(run("vgscan", &["--mknodes"])),
            must(run("vgrename", &["rootvg", "oldvg"])),
            must(run("vgrename", &["rescuevg", "rootvg"])),
            must(run("vgchange", &["-ay"])),
            may(unmount("/boot/efi", false)),
            may(unmount("/boot", false)),
            must(mount("/dev/sda1", "/boot", "")),
            must(mount("/dev/sda15", "/boot/efi", "")),
        ]
    );
}

#[test]
fn import_is_skipped_where_it_is_not_needed() {
    let none = mounts(None, None);
    assert!(importvg(seen(true, true, 2), "/dev/sdc", false, 4, &none).is_empty());
    assert!(importvg(seen(false, false, 2), "/dev/sdc", false, 4, &none).is_empty());
    assert!(importvg(seen(false, true, 1), "/dev/sdc", false, 4, &none).is_empty());
    assert!(!importvg(seen(false, true, 0), "/dev/sdc", false, 4, &none).is_empty());
    assert!(!importvg(seen(false, true, 3), "/dev/sdc", false, 4, &none).is_empty());
}

#[test]
fn import_twice_does_nothing_the_second_time() {
    let none = mounts(None, None);
    let before = observe_volume_groups(
        "  rootvg\n  rootvg\n",
        true,
        "PV /dev/sda4 VG rootvg\nPV /dev/sdc4 VG rootvg\n",
    );
    let first = importvg(before, "/dev/sdc", false, 4, &none);
    assert_eq!(first.len(), 5);
    let after = observe_volume_groups(
        "  oldvg\n  rootvg\n",
        true,
        "PV /dev/sda4 VG oldvg\nPV /dev/sdc4 VG rootvg\n",
    );
    assert!(importvg(after, "/dev/sdc", false, 4, &none).is_empty());
    assert!(importvg(after, "/dev/sdc", false, 4, &none).is_empty());
}

#[test]
fn host_is_put_right_after_a_recovery() {
    assert_eq!(rename_oldvg(), vec![may(run("vgrename", &["oldvg", "rootvg"]))]);
    assert_eq!(
        disable_broken_disk("/dev/sdc"),
        vec![must(run("vgchange", &["-an", "rootvg"])), must(write("/sys/block/sdc/device/delete", "1"))]
    );
    assert_eq!(
        rescan_host(&mounts(Some("sda1"), None)),
        vec![
            may(write("/sys/class/scsi_host/host1/scan", "- - -")),
            may(run("udevadm", &["trigger"])),
            must(unmount("/boot", false)),
            must(mount("/dev/sda1", "/boot", "")),
        ]
    );
}

#[test]
fn relaxed_plan_requires_nothing() {
    let plan = relax(vec![must(unmount("/a", false)), may(unmount("/b", true))]);
    assert_eq!(plan, vec![may(unmount("/a", false)), may(unmount("/b", true))]);
    assert!(relax(vec![]).is_empty());
}

#[test]
fn cleanup_of_an_encrypted_disk_closes_the_mapping() {
    let mut distro = Distro::default();
    distro.is_ade = true;
    distro.partitions = vec![part(1, "8300", "xfs", false)];
    let none = mounts(None, None);
    assert_eq!(
        cleanup(&distro, "/dev/sdc", false, &none),
        vec![may(run("cryptsetup", &["close", "rescueencrypt"]))]
    );
    distro.partitions = vec![part(1, "8E00", "LVM2_member", true)];
    assert_eq!(
        cleanup(&distro, "/dev/sdc", true, &none),
        vec![
            may(run("vgchange", &["-an", "rootvg"])),
            may(run("cryptsetup", &["close", "rescueencrypt"])),
            may(run("vgrename", &["oldvg", "rootvg"])),
        ]
    );
}

#[test]
fn cleanup_of_a_disk_with_volumes_restores_the_host() {
    let mut distro = Distro::default();
    distro.partitions = vec![part(1, "EF00", "vfat", false), part(2, "8E00", "LVM2_member", true)];
    let old = mounts(Some("sda1"), Some("sda15"));
    let plan = cleanup(&distro, "/dev/sdc", true, &old);
    assert_eq!(
        plan,
        vec![
            may(run("vgchange", &["-an", "rootvg"])),
            may(write("/sys/block/sdc/device/delete", "1")),
            may(run("vgrename", &["oldvg", "rootvg"])),
            may(write("/sys/class/scsi_host/host1/scan", "- - -")),
            may(run("udevadm", &["trigger"])),
            may(unmount("/boot/efi", false)),
            may(unmount("/boot", false)),
            may(mount("/dev/sda1", "/boot", "")),
            may(mount("/dev/sda15", "/boot/efi", "")),
        ]
    );
    let whole = teardown(&distro, "/dev/sdc", true, &old);
    assert_eq!(whole[0], may(unmount("/srv/rescue-root/", true)));
    assert_eq!(whole[1..].to_vec(), plan);
    assert!(whole.iter().all(|t| !t.required));
}

#[test]
fn cleanup_of_a_plain_disk_is_empty() {
    let mut distro = Distro::default();
    distro.partitions = vec![part(1, "EF00", "vfat", false), part(2, "8300", "ext4", false)];
    let none = mounts(None, None);
    assert!(cleanup(&distro, "/dev/sdc", false, &none).is_empty());
    assert_eq!(teardown(&distro, "/dev/sdc", false, &none), vec![may(unmount("/srv/rescue-root/", true))]);
}
