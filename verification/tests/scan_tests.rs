use alar::distro::Distro;
use alar::partition::{
    find_boot_partition_number, find_root_partition_number, has_lvm_partition, nouuid_option,
    LogicalVolume, PartInfo,
};
use alar::scan::{
    classify_filesystem, disk_name, mapper_filesystem, parse_logical_volumes,
    parse_partition_table, partition_device, probe_query, volume_query, ScanError, TableRow,
};

fn part(number: i32, part_type: &str, fstype: &str) -> PartInfo {
    PartInfo {
        number,
        part_type: part_type.to_string(),
        fstype: fstype.to_string(),
        contains_os: false,
        logical_volumes: None,
    }
}

fn row(number: i32, part_type: &str) -> TableRow {
    TableRow { number, part_type: part_type.to_string() }
}

const LISTING: &str = "Disk /dev/sdc: 62914560 sectors, 30.0 GiB\n\
Sector size (logical/physical): 512/4096 bytes\n\
Disk identifier (GUID): 12345678-0000-0000-0000-000000000000\n\
Partition table holds up to 128 entries\n\
\n\
Number  Start (sector)    End (sector)  Size       Code  Name\n\
   1         1026048        62914526   29.5 GiB    8300  \n\
  14            2048           10239   4.0 MiB     EF02  \n\
  15           10240          227327   106.0 MiB   EF00  \n";

#[test]
fn signatures_are_classified_by_the_first_keyword() {
    assert_eq!(classify_filesystem("sgi xfs filesystem data"), "xfs");
    assert_eq!(classify_filesystem("linux rev 1.0 ext4 filesystem data"), "ext4");
    assert_eq!(classify_filesystem("ext2"), "ext2");
    assert_eq!(classify_filesystem("ext3"), "ext3");
    assert_eq!(classify_filesystem("lvm2 pv (linux logical volume manager)"), "LVM2_member");
    assert_eq!(classify_filesystem("btrfs filesystem"), "btrfs");
    assert_eq!(classify_filesystem("zfs"), "zfs");
    assert_eq!(classify_filesystem("luks encrypted file, crypt"), "crypt");
    assert_eq!(classify_filesystem("dos/mbr boot sector, fat (32 bit)"), "vfat");
    assert_eq!(classify_filesystem("data"), "");
    assert_eq!(classify_filesystem(""), "");
    assert_eq!(classify_filesystem("ext4 on xfs"), "xfs");
}

#[test]
fn signatures_are_read_in_any_case() {
    assert_eq!(
        Distro::get_partition_filesystem("/dev/sdc1: SGI XFS filesystem data (blksz 4096)"),
        "xfs"
    );
    assert_eq!(Distro::get_partition_filesystem("/dev/sdc15: DOS/MBR boot sector, FAT (16 bit)"), "vfat");
    assert_eq!(Distro::get_partition_filesystem("/dev/sdc2: data"), "");
}

#[test]
fn mapper_filesystem_falls_back_to_xfs() {
    assert_eq!(mapper_filesystem(None), "xfs");
    assert_eq!(mapper_filesystem(Some("Linux rev 1.0 ext4 filesystem data")), "ext4");
    assert_eq!(mapper_filesystem(Some("data")), "");
}

#[test]
fn partition_table_is_read_from_the_listing() {
    let rows = parse_partition_table(LISTING).unwrap();
    assert_eq!(rows, vec![row(1, "8300"), row(15, "EF00")]);
}

#[test]
fn partition_table_reads_only_the_last_five_lines() {
    let listing = "   1 2048 4095 1.0 MiB 8300 a\n   2 4096 8191 2.0 MiB 8300 b\n   3 1 2 3 MiB 8300 c\n   4 1 2 3 MiB 8300 d\n   5 1 2 3 MiB 8300 e\n   6 1 2 3 MiB 8E00 f\n";
    let rows = parse_partition_table(listing).unwrap();
    assert_eq!(
        rows,
        vec![row(2, "8300"), row(3, "8300"), row(4, "8300"), row(5, "8300"), row(6, "8E00")]
    );
}

#[test]
fn partition_table_passes_over_lines_that_are_no_rows() {
    assert_eq!(parse_partition_table("").unwrap(), Vec::<TableRow>::new());
    assert_eq!(parse_partition_table("Number Start End Size Code Name\n\n").unwrap(), vec![]);
    assert_eq!(parse_partition_table("   7 1 2 3 MiB 8300 x\n").unwrap(), vec![]);
}

#[test]
fn partition_table_refuses_a_row_that_cannot_be_read() {
    assert_eq!(parse_partition_table("  1 2048 4095\n"), Err(ScanError::BadTableRow));
    assert_eq!(parse_partition_table("  1x 2048 4095 1.0 MiB 8300\n"), Err(ScanError::BadTableRow));
    assert_eq!(parse_partition_table(", 1 2 3 4 5 6\n"), Ok(vec![]));
}

#[test]
fn device_paths_follow_the_controller() {
    assert_eq!(partition_device("/dev/sdc", false, 2), "/dev/sdc2");
    assert_eq!(partition_device("/dev/nvme0n2", true, 15), "/dev/nvme0n2p15");
    assert_eq!(probe_query("/dev/sdc2").program, "file");
    assert_eq!(probe_query("/dev/sdc2").args, vec!["-sL", "/dev/sdc2"]);
    assert_eq!(Distro::get_all_partitions("/dev/sdc").args, vec!["/dev/sdc", "-p"]);
    assert_eq!(Distro::get_all_partitions("/dev/sdc").program, "sgdisk");
    assert_eq!(
        Distro::get_all_recovery_partitions("/dev/sdd"),
        Distro::get_all_partitions("/dev/sdd")
    );
    assert_eq!(volume_query("/dev/sdc2").args, vec!["-ln", "/dev/sdc2", "-o", "NAME,FSTYPE"]);
}

#[test]
fn partition_details_follow_table_and_probes() {
    let rows = vec![row(1, "EF00"), row(2, "0700"), row(3, "8300")];
    let probes = vec![
        "/dev/sdc1: DOS/MBR boot sector, FAT (32 bit)".to_string(),
        "/dev/sdc2: Linux rev 1.0 ext4 filesystem data".to_string(),
        "/dev/sdc3: data".to_string(),
    ];
    let parts = Distro::get_partition_details(&rows, &probes).unwrap();
    assert_eq!(parts, vec![part(1, "EF00", "vfat"), part(2, "0700", "ext4"), part(3, "8300", "crypt?")]);
}

#[test]
fn efi_partition_is_never_unresolved() {
    let rows = vec![row(15, "EF00"), row(1, "8300")];
    let probes = vec!["/dev/sdc15: data".to_string(), "/dev/sdc1: data".to_string()];
    let parts = Distro::get_partition_details(&rows, &probes).unwrap();
    assert_eq!(parts[0].fstype, "");
    assert_eq!(parts[1].fstype, "crypt?");
    assert!(!parts[0].is_unresolved());
    assert!(parts[1].is_unresolved());
}

#[test]
fn partition_details_need_one_probe_per_row() {
    let rows = vec![row(1, "8300")];
    assert_eq!(Distro::get_partition_details(&rows, &vec![]), Err(ScanError::ProbeCount));
}

#[test]
fn encryption_is_detected_by_the_sentinel() {
    let clear = vec![part(1, "EF00", "vfat"), part(2, "8300", "ext4")];
    let locked = vec![part(1, "EF00", "vfat"), part(2, "8300", "ext4"), part(3, "8E00", "crypt?")];
    assert!(!Distro::is_fs_crypt_detected(&clear));
    assert!(Distro::is_fs_crypt_detected(&locked));
    assert!(!Distro::is_fs_crypt_detected(&vec![]));
    assert_eq!(find_root_partition_number(&locked), Some(3));
    assert_eq!(find_root_partition_number(&clear), None);
    assert_eq!(find_boot_partition_number(&locked), Some(2));
    assert_eq!(find_boot_partition_number(&vec![part(1, "EF00", "vfat"), part(2, "8300", "crypt?")]), None);
    assert!(has_lvm_partition(&locked));
    assert!(!has_lvm_partition(&clear));
}

#[test]
fn partition_marks_and_options() {
    let mut p = part(2, "8300", "xfs");
    assert!(!p.contains_os);
    p.activate_is_os();
    assert!(p.contains_os);
    assert_eq!(p.number, 2);
    assert_eq!(p.fstype, "xfs");
    assert_eq!(nouuid_option("xfs"), "nouuid");
    assert_eq!(nouuid_option("ext4"), "");
    assert!(part(1, "8E00", "LVM2_member").is_lvm_member());
    assert!(!part(1, "8E00", "crypt?").is_lvm_member());
    assert!(part(1, "EF00", "vfat").is_efi());
    assert_eq!(PartInfo::new(4, "8300".to_string(), "ext4".to_string()), part(4, "8300", "ext4"));
}

#[test]
fn volumes_are_read_from_the_listing() {
    let listing = "sdc2 LVM2_member\nrootvg-tmplv xfs\nrootvg-usrlv xfs\nrootvg-rootlv   xfs\nsdc  \n";
    let volumes = parse_logical_volumes(listing, Some("sdc")).unwrap();
    let names: Vec<&str> = volumes.iter().map(|v| v.name.as_str()).collect();
    assert_eq!(names, vec!["rootvg-tmplv", "rootvg-usrlv", "rootvg-rootlv"]);
    assert_eq!(volumes[2].fstype, "xfs");
    assert_eq!(parse_logical_volumes("", None).unwrap(), Vec::<LogicalVolume>::new());
    assert_eq!(parse_logical_volumes("head\n", None).unwrap(), Vec::<LogicalVolume>::new());
}

#[test]
fn volume_row_without_filesystem_is_refused() {
    assert_eq!(parse_logical_volumes("head\nrootvg-rootlv\n", None), Err(ScanError::BadVolumeRow));
    assert_eq!(parse_logical_volumes("head\n\n", None), Err(ScanError::BadVolumeRow));
}

#[test]
fn disk_names_lose_the_device_directory() {
    assert_eq!(disk_name("/dev/sdc"), Some("sdc".to_string()));
    assert_eq!(disk_name("/dev/"), Some("".to_string()));
    assert_eq!(disk_name("/dev"), None);
}

#[test]
fn logical_volumes_are_recorded_for_an_lvm_partition() {
    let mut parts = vec![part(1, "EF00", "vfat"), part(2, "8E00", "LVM2_member")];
    let listing = "sdc2 LVM2_member\nrootvg-rootlv xfs\nrootvg-homelv ext4\n";
    assert_eq!(Distro::build_logical_volume_details(&mut parts, 1, listing, "/dev/sdc"), Ok(()));
    let volumes = parts[1].logical_volumes.clone().unwrap();
    assert_eq!(volumes.len(), 2);
    assert_eq!(volumes[1], LogicalVolume { name: "rootvg-homelv".to_string(), fstype: "ext4".to_string() });
    assert_eq!(parts[0], part(1, "EF00", "vfat"));
    assert!(Distro::has_logical_volumes(&parts));
}

#[test]
fn logical_volumes_are_refused_for_other_partitions() {
    let mut parts = vec![part(1, "EF00", "vfat"), part(2, "8E00", "LVM2_member")];
    let before = vec![part(1, "EF00", "vfat"), part(2, "8E00", "LVM2_member")];
    assert_eq!(Distro::build_logical_volume_details(&mut parts, 0, "x\n", "/dev/sdc"), Err(ScanError::NotLvm));
    assert_eq!(Distro::build_logical_volume_details(&mut parts, 2, "x\n", "/dev/sdc"), Err(ScanError::NotLvm));
    assert_eq!(Distro::build_logical_volume_details(&mut parts, 1, "x\n", "/dev"), Err(ScanError::BadDiskPath));
    assert_eq!(Distro::build_logical_volume_details(&mut parts, 1, "x\nrootlv\n", "/dev/sdc"), Err(ScanError::BadVolumeRow));
    assert_eq!(parts, before);
    assert!(!Distro::has_logical_volumes(&parts));
}

#[test]
fn unlocked_filesystem_replaces_the_sentinel() {
    let mut parts = vec![part(1, "EF00", "vfat"), part(2, "8300", "ext4"), part(3, "8300", "crypt?")];
    Distro::ade_set_no_lvm_partiton_fs(&mut parts, Some("/dev/mapper/rescueencrypt: SGI XFS filesystem"));
    assert_eq!(parts, vec![part(1, "EF00", "vfat"), part(2, "8300", "ext4"), part(3, "8300", "xfs")]);
    let mut parts = vec![part(3, "8300", "crypt?"), part(4, "8300", "crypt?")];
    Distro::ade_set_no_lvm_partiton_fs(&mut parts, None);
    assert_eq!(parts, vec![part(3, "8300", "xfs"), part(4, "8300", "xfs")]);
    assert!(!Distro::is_fs_crypt_detected(&parts));
}
