//! The partition scanner: from the partition-table listing and the
//! filesystem probes to the partition list.

use crate::constants::{TYPE_BIOS_BOOT, TYPE_EFI, UNRESOLVED};
use crate::distro::Distro;
use crate::lines::{
    lines,
    split_lines,
    split_words,
    strings,
    strip_start_char,
    texts,
    trim_start_char,
    words,
};
use crate::number::{int_text, number_chars, parse_i32, parse_number};
use crate::partition::{LogicalVolume, LogicalVolumeView, PartInfo, PartInfoView};
use crate::step::{args2, command, lemma_views_push, views, Command, CommandView};
use crate::text::{
    contains,
    copy_range,
    from_chars,
    holds,
    lowercase,
    same_text,
    to_chars,
    to_lowercase,
    trim,
    trimmed,
};
use vstd::prelude::*;
use vstd::string::StringExecFns;

verus! {

/// Why a scan was given up.
#[derive(Debug, Clone, Copy, PartialEq, Eq, Structural)]
pub enum ScanError {
    /// A row of the partition table has no number or no type code.
    BadTableRow,
    /// There is not one probe result for each partition.
    ProbeCount,
    /// A row of a volume listing has no name or no filesystem.
    BadVolumeRow,
    /// The partition that volumes are listed for is not an LVM physical volume.
    NotLvm,
    /// The disk path does not lie in the device directory.
    BadDiskPath,
}

// ---------------------------------------------------------------------------
// Filesystem signatures
// ---------------------------------------------------------------------------
/// The filesystem that the lower-cased description of a signature names.
/// The first keyword that occurs decides; the empty text means that none
/// was recognized.
pub open spec fn classify(lowered: Seq<char>) -> Seq<char> {
    if contains(lowered, "xfs"@) {
        "xfs"@
    } else if contains(lowered, "ext4"@) {
        "ext4"@
    } else if contains(lowered, "ext2"@) {
        "ext2"@
    } else if contains(lowered, "ext3"@) {
        "ext3"@
    } else if contains(lowered, "lvm2"@) {
        "LVM2_member"@
    } else if contains(lowered, "btrfs"@) {
        "btrfs"@
    } else if contains(lowered, "zfs"@) {
        "zfs"@
    } else if contains(lowered, "crypt"@) {
        "crypt"@
    } else if contains(lowered, "fat"@) {
        "vfat"@
    } else {
        ""@
    }
}

/// No recognized filesystem is spelled like the sentinel.
pub proof fn lemma_classified_is_resolved(lowered: Seq<char>)
    ensures
        classify(lowered) != UNRESOLVED@,
{
    reveal_strlit("crypt?");
    reveal_strlit("xfs");
    reveal_strlit("ext4");
    reveal_strlit("ext2");
    reveal_strlit("ext3");
    reveal_strlit("LVM2_member");
    reveal_strlit("btrfs");
    reveal_strlit("zfs");
    reveal_strlit("crypt");
    reveal_strlit("vfat");
    reveal_strlit("");
    assert(UNRESOLVED@.len() == 6);
    assert(classify(lowered).len() != 6);
}

/// Executable [`classify`].
pub fn classify_filesystem(lowered: &str) -> (r: &'static str)
    ensures
        r@ == classify(lowered@),
{
    let v = to_chars(lowered);
    if holds(&v, &to_chars("xfs")) {
        "xfs"
    } else if holds(&v, &to_chars("ext4")) {
        "ext4"
    } else if holds(&v, &to_chars("ext2")) {
        "ext2"
    } else if holds(&v, &to_chars("ext3")) {
        "ext3"
    } else if holds(&v, &to_chars("lvm2")) {
        "LVM2_member"
    } else if holds(&v, &to_chars("btrfs")) {
        "btrfs"
    } else if holds(&v, &to_chars("zfs")) {
        "zfs"
    } else if holds(&v, &to_chars("crypt")) {
        "crypt"
    } else if holds(&v, &to_chars("fat")) {
        "vfat"
    } else {
        ""
    }
}

/// The filesystem of an unlocked volume: what its probe shows, or XFS where
/// the probe itself failed.
pub open spec fn mapper_fstype(probe: Option<Seq<char>>) -> Seq<char> {
    match probe {
        Some(output) => classify(lowercase(output)),
        None => "xfs"@,
    }
}

/// Executable [`mapper_fstype`].
pub fn mapper_filesystem(probe: Option<&str>) -> (r: String)
    ensures
        r@ == mapper_fstype(
            match probe {
                Some(output) => Some(output@),
                None => None,
            },
        ),
{
    match probe {
        Some(output) => Distro::get_partition_filesystem(output),
        None => "xfs".to_owned(),
    }
}

// ---------------------------------------------------------------------------
// Device paths and queries
// ---------------------------------------------------------------------------
/// The disk path as partition numbers are appended to it: NVMe devices put
/// a `p` between disk and number.
pub open spec fn corrected_path(disk: Seq<char>, is_nvme: bool) -> Seq<char> {
    if is_nvme {
        disk + "p"@
    } else {
        disk
    }
}

/// The device of a partition.
pub open spec fn partition_path(disk: Seq<char>, is_nvme: bool, number: int) -> Seq<char> {
    corrected_path(disk, is_nvme) + int_text(number)
}

/// Executable [`partition_path`].
pub fn partition_device(disk: &str, is_nvme: bool, number: i32) -> (r: String)
    ensures
        r@ == partition_path(disk@, is_nvme, number as int),
{
    let mut r = String::from_str(disk);
    if is_nvme {
        r.append("p");
    }
    let digits = from_chars(&number_chars(number));
    r.append(digits.as_str());
    r
}

/// The query that describes the signature on a device.
pub fn probe_query(device: &str) -> (c: Command)
    ensures
        c@ == (CommandView { program: "file"@, args: seq!["-sL"@, device@] }),
{
    command("file", args2("-sL", device))
}

// ---------------------------------------------------------------------------
// The partition table
// ---------------------------------------------------------------------------
/// One row of the partition table: position and type code.
#[derive(Debug, Clone, PartialEq, Eq)]
pub struct TableRow {
    pub number: i32,
    pub part_type: String,
}

/// Mathematical form of a [`TableRow`].
pub struct TableRowView {
    pub number: int,
    pub part_type: Seq<char>,
}

impl View for TableRow {
    type V = TableRowView;

    open spec fn view(&self) -> TableRowView {
        TableRowView { number: self.number as int, part_type: self.part_type@ }
    }
}

/// How many lines from the end of the listing the scanner reads.
pub const TABLE_TAIL: usize = 5;

/// The last `n` members of `file`, or all of it where it has fewer.
pub open spec fn last_lines(file: Seq<Seq<char>>, n: int) -> Seq<Seq<char>> {
    if file.len() <= n {
        file
    } else {
        file.skip(file.len() - n)
    }
}

/// A row starts with one of these digits.
pub open spec fn is_row_start(c: char) -> bool {
    c == '1' || c == '2' || c == '3' || c == '4' || c == '5' || c == '6'
}

/// `line` is a row that the scanner reads: after leading spaces it starts
/// like a row, and it does not mention the BIOS-boot type.
pub open spec fn is_table_row(line: Seq<char>) -> bool {
    let t = trim_start_char(line, ' ');
    t.len() > 0 && is_row_start(t[0]) && !contains(line, TYPE_BIOS_BOOT@)
}

/// What a row says: its first field is the number, its sixth the type code.
pub open spec fn table_row(line: Seq<char>) -> Option<TableRowView> {
    let fields = words(trim(line));
    if fields.len() > 5 {
        match parse_i32(fields[0]) {
            Some(n) => Some(TableRowView { number: n as int, part_type: fields[5] }),
            None => None,
        }
    } else {
        None
    }
}

/// The rows among the given lines, in order; `None` where a row cannot be read.
pub open spec fn table_rows(file: Seq<Seq<char>>) -> Option<Seq<TableRowView>>
    decreases file.len(),
{
    if file.len() == 0 {
        Some(seq![])
    } else {
        let rest = table_rows(file.drop_first());
        if !is_table_row(file[0]) {
            rest
        } else {
            match (table_row(file[0]), rest) {
                (Some(row), Some(rows)) => Some(seq![row] + rows),
                _ => None,
            }
        }
    }
}

/// The partition table that a listing shows.
pub open spec fn partition_table(listing: Seq<char>) -> Option<Seq<TableRowView>> {
    table_rows(last_lines(lines(listing), TABLE_TAIL as int))
}

fn reads_as_row(line: &Vec<char>) -> (r: bool)
    ensures
        r == is_table_row(line@),
{
    let t = strip_start_char(line, ' ');
    if t.len() == 0 {
        return false;
    }
    let c: char = t[0];
    let starts = c == '1' || c == '2' || c == '3' || c == '4' || c == '5' || c == '6';
    starts && !holds(line, &to_chars(TYPE_BIOS_BOOT))
}

fn read_row(line: &Vec<char>) -> (r: Option<TableRow>)
    ensures
        match r {
            Some(row) => table_row(line@) == Some(row@),
            None => table_row(line@) is None,
        },
{
    let fields = split_words(&trimmed(line));
    if fields.len() > 5 {
        assert(texts(fields@)[0] == fields@[0]@);
        assert(texts(fields@)[5] == fields@[5]@);
        match parse_number(&fields[0]) {
            Some(number) => Some(TableRow { number, part_type: from_chars(&fields[5]) }),
            None => None,
        }
    } else {
        None
    }
}

/// Reads the partition table out of the listing that the partitioning tool
/// printed. Only the last five lines are read; of those, the lines that
/// start like a table row and do not mention the BIOS-boot type.
///
/// Fails exactly when one of those rows has fewer than six fields or a
/// first field that is no number.
pub fn parse_partition_table(listing: &str) -> (r: Result<Vec<TableRow>, ScanError>)
    ensures
        match r {
            Ok(rows) => partition_table(listing@) == Some(views(rows@)),
            Err(e) => e == ScanError::BadTableRow && partition_table(listing@) is None,
        },
{
    let file = split_lines(&to_chars(listing));
    let n: usize = file.len();
    let start: usize = if n <= TABLE_TAIL {
        0
    } else {
        n - TABLE_TAIL
    };
    let ghost tail = last_lines(lines(listing@), TABLE_TAIL as int);
    assert(tail == texts(file@).skip(start as int));
    let mut rows: Vec<TableRow> = Vec::new();
    let mut i: usize = start;
    assert(views(rows@) + Seq::<TableRowView>::empty() =~= Seq::<TableRowView>::empty());
    assert(tail.skip(0) == tail);
    while i < n
        invariant
            n == file.len(),
            start <= i <= n,
            tail == texts(file@).skip(start as int),
            tail == last_lines(lines(listing@), TABLE_TAIL as int),
            table_rows(tail) == match table_rows(tail.skip(i - start)) {
                Some(rest) => Some(views(rows@) + rest),
                None => None,
            },
        decreases n - i,
    {
        let ghost here = tail.skip(i - start);
        proof {
            assert(here[0] == file@[i as int]@);
            assert(here.drop_first() == tail.skip(i + 1 - start));
        }
        if reads_as_row(&file[i]) {
            match read_row(&file[i]) {
                Some(row) => {
                    proof {
                        lemma_views_push(rows@, row);
                        match table_rows(here.drop_first()) {
                            Some(rest) => {
                                assert(views(rows@) + (seq![row@] + rest) == views(rows@).push(
                                    row@,
                                ) + rest);
                            },
                            None => {},
                        }
                    }
                    rows.push(row);
                },
                None => {
                    assert(table_rows(here) is None);
                    return Err(ScanError::BadTableRow);
                },
            }
        }
        i = i + 1;
    }
    assert(views(rows@) + Seq::<TableRowView>::empty() == views(rows@));
    Ok(rows)
}

// ---------------------------------------------------------------------------
// Partition details
// ---------------------------------------------------------------------------
/// The filesystem that the scanner records for a partition. A probe that
/// shows no known signature leaves the sentinel, except on an EFI system
/// partition, which is never taken to be encrypted.
pub open spec fn scanned_fstype(part_type: Seq<char>, probe: Seq<char>) -> Seq<char> {
    let found = classify(lowercase(probe));
    if found.len() == 0 && part_type != TYPE_EFI@ {
        UNRESOLVED@
    } else {
        found
    }
}

/// The entry that the scanner makes for a table row and its probe.
pub open spec fn scanned(row: TableRowView, probe: Seq<char>) -> PartInfoView {
    PartInfoView {
        number: row.number,
        part_type: row.part_type,
        fstype: scanned_fstype(row.part_type, probe),
        contains_os: false,
        logical_volumes: None,
    }
}

/// A scanned EFI system partition is never unresolved.
pub proof fn lemma_scanned_efi_is_resolved(row: TableRowView, probe: Seq<char>)
    requires
        row.part_type == TYPE_EFI@,
    ensures
        !scanned(row, probe).is_unresolved(),
{
    lemma_classified_is_resolved(lowercase(probe));
}

impl Distro {
    /// The query that lists the partition table of a disk.
    pub fn get_all_partitions(disk_path: &str) -> (c: Command)
        ensures
            c@ == (CommandView { program: "sgdisk"@, args: seq![disk_path@, "-p"@] }),
    {
        command("sgdisk", args2(disk_path, "-p"))
    }

    /// The query that lists the partition table of the disk under recovery,
    /// given the path that its link resolves to.
    pub fn get_all_recovery_partitions(recover_disk: &str) -> (c: Command)
        ensures
            c@ == (CommandView { program: "sgdisk"@, args: seq![recover_disk@, "-p"@] }),
    {
        Self::get_all_partitions(recover_disk)
    }

    /// The filesystem that the description of a signature names, whatever
    /// the case it is written in; empty where none is recognized.
    pub fn get_partition_filesystem(probe_output: &str) -> (r: String)
        ensures
            r@ == classify(lowercase(probe_output@)),
    {
        let lowered = to_lowercase(probe_output);
        classify_filesystem(lowered.as_str()).to_owned()
    }

    /// Builds the partition list from the table rows and the probe result
    /// of each row's device, in the order of the table.
    ///
    /// Fails exactly when the two differ in number. No entry is marked as
    /// holding the operating system, and none has logical volumes yet. An
    /// EFI system partition never gets the sentinel.
    pub fn get_partition_details(rows: &Vec<TableRow>, probes: &Vec<String>) -> (r: Result<
        Vec<PartInfo>,
        ScanError,
    >)
        ensures
            rows.len() != probes.len() ==> r == Err::<Vec<PartInfo>, ScanError>(
                ScanError::ProbeCount,
            ),
            rows.len() == probes.len() ==> r is Ok && r->Ok_0.len() == rows.len() && (forall|
                i: int,
            |
                0 <= i < rows.len() ==> (#[trigger] r->Ok_0@[i])@ == scanned(
                    rows@[i]@,
                    probes@[i]@,
                )),
            r is Ok ==> forall|i: int|
                0 <= i < r->Ok_0.len() && (#[trigger] r->Ok_0@[i])@.is_efi() ==> !r->Ok_0@[i]@.is_unresolved(),
    {
        if rows.len() != probes.len() {
            return Err(ScanError::ProbeCount);
        }
        let mut parts: Vec<PartInfo> = Vec::new();
        let mut i: usize = 0;
        while i < rows.len()
            invariant
                rows.len() == probes.len(),
                i <= rows.len(),
                parts.len() == i,
                forall|k: int|
                    0 <= k < i ==> (#[trigger] parts@[k])@ == scanned(rows@[k]@, probes@[k]@),
                forall|k: int|
                    0 <= k < i && (#[trigger] parts@[k])@.is_efi() ==> !parts@[k]@.is_unresolved(),
            decreases rows.len() - i,
        {
            let found = Self::get_partition_filesystem(probes[i].as_str());
            let part_type = rows[i].part_type.clone();
            let fstype = if found.as_str().is_empty() && !same_text(part_type.as_str(), TYPE_EFI) {
                UNRESOLVED.to_owned()
            } else {
                found
            };
            proof {
                if rows@[i as int]@.part_type == TYPE_EFI@ {
                    lemma_scanned_efi_is_resolved(rows@[i as int]@, probes@[i as int]@);
                }
            }
            parts.push(PartInfo::new(rows[i].number, part_type, fstype));
            i = i + 1;
        }
        Ok(parts)
    }
}

// ---------------------------------------------------------------------------
// Logical volumes
// ---------------------------------------------------------------------------
/// What a row of a volume listing says: its first word is the name, its
/// second the filesystem.
pub open spec fn volume_row(line: Seq<char>) -> Option<LogicalVolumeView> {
    let fields = words(trim(line));
    if fields.len() >= 2 {
        Some(LogicalVolumeView { name: fields[0], fstype: fields[1] })
    } else {
        None
    }
}

/// A line is left out of a volume listing where it mentions the excluded name.
pub open spec fn is_excluded(line: Seq<char>, exclude: Option<Seq<char>>) -> bool {
    match exclude {
        Some(name) => contains(line, name),
        None => false,
    }
}

/// The volumes that the given lines list, in order; `None` where a row
/// cannot be read.
pub open spec fn volume_rows(file: Seq<Seq<char>>, exclude: Option<Seq<char>>) -> Option<
    Seq<LogicalVolumeView>,
>
    decreases file.len(),
{
    if file.len() == 0 {
        Some(seq![])
    } else {
        let rest = volume_rows(file.drop_first(), exclude);
        if is_excluded(file[0], exclude) {
            rest
        } else {
            match (volume_row(file[0]), rest) {
                (Some(row), Some(rows)) => Some(seq![row] + rows),
                _ => None,
            }
        }
    }
}

/// `file` without its first member.
pub open spec fn after_first(file: Seq<Seq<char>>) -> Seq<Seq<char>> {
    if file.len() == 0 {
        file
    } else {
        file.drop_first()
    }
}

/// The volumes that a block-device listing shows. Its first line is the
/// device that was asked about and is passed over; so is every line that
/// mentions the excluded name.
pub open spec fn listed_volumes(listing: Seq<char>, exclude: Option<Seq<char>>) -> Option<
    Seq<LogicalVolumeView>,
> {
    volume_rows(after_first(lines(listing)), exclude)
}

/// The text of an optional string.
pub open spec fn opt_text(o: Option<&str>) -> Option<Seq<char>> {
    match o {
        Some(s) => Some(s@),
        None => None,
    }
}

/// The query that lists the block devices below `device` with their filesystems.
pub fn volume_query(device: &str) -> (c: Command)
    ensures
        c@ == (CommandView {
            program: "lsblk"@,
            args: seq!["-ln"@, device@, "-o"@, "NAME,FSTYPE"@],
        }),
{
    let mut args = args2("-ln", device);
    crate::step::push_arg(&mut args, "-o");
    crate::step::push_arg(&mut args, "NAME,FSTYPE");
    assert(strings(args@) =~= seq!["-ln"@, device@, "-o"@, "NAME,FSTYPE"@]);
    command("lsblk", args)
}

/// Reads the logical volumes out of a block-device listing.
///
/// Fails exactly when a row that is not passed over has fewer than two words.
pub fn parse_logical_volumes(listing: &str, exclude: Option<&str>) -> (r: Result<
    Vec<LogicalVolume>,
    ScanError,
>)
    ensures
        match r {
            Ok(volumes) => listed_volumes(listing@, opt_text(exclude)) == Some(views(volumes@)),
            Err(e) => e == ScanError::BadVolumeRow && listed_volumes(listing@, opt_text(exclude))
                is None,
        },
{
    let file = split_lines(&to_chars(listing));
    let n: usize = file.len();
    let start: usize = if n == 0 {
        0
    } else {
        1
    };
    let ghost ex = opt_text(exclude);
    let ghost tail = after_first(lines(listing@));
    assert(tail == texts(file@).skip(start as int));
    let mut volumes: Vec<LogicalVolume> = Vec::new();
    let mut i: usize = start;
    assert(views(volumes@) + Seq::<LogicalVolumeView>::empty() =~= Seq::<
        LogicalVolumeView,
    >::empty());
    assert(tail.skip(0) == tail);
    while i < n
        invariant
            n == file.len(),
            start <= i <= n,
            ex == opt_text(exclude),
            tail == texts(file@).skip(start as int),
            tail == after_first(lines(listing@)),
            volume_rows(tail, ex) == match volume_rows(tail.skip(i - start), ex) {
                Some(rest) => Some(views(volumes@) + rest),
                None => None,
            },
        decreases n - i,
    {
        let ghost here = tail.skip(i - start);
        proof {
            assert(here[0] == file@[i as int]@);
            assert(here.drop_first() == tail.skip(i + 1 - start));
        }
        let skip: bool = match exclude {
            Some(name) => holds(&file[i], &to_chars(name)),
            None => false,
        };
        if !skip {
            let fields = split_words(&trimmed(&file[i]));
            if fields.len() < 2 {
                assert(volume_rows(here, ex) is None);
                return Err(ScanError::BadVolumeRow);
            }
            assert(texts(fields@)[0] == fields@[0]@);
            assert(texts(fields@)[1] == fields@[1]@);
            let volume = LogicalVolume {
                name: from_chars(&fields[0]),
                fstype: from_chars(&fields[1]),
            };
            proof {
                lemma_views_push(volumes@, volume);
                match volume_rows(here.drop_first(), ex) {
                    Some(rest) => {
                        assert(views(volumes@) + (seq![volume@] + rest) == views(volumes@).push(
                            volume@,
                        ) + rest);
                    },
                    None => {},
                }
            }
            volumes.push(volume);
        }
        i = i + 1;
    }
    assert(views(volumes@) + Seq::<LogicalVolumeView>::empty() == views(volumes@));
    Ok(volumes)
}

/// The name of a disk below the device directory: its path without the
/// first five characters.
pub open spec fn device_name(disk_path: Seq<char>) -> Option<Seq<char>> {
    if disk_path.len() >= 5 {
        Some(disk_path.skip(5))
    } else {
        None
    }
}

/// Executable [`device_name`].
pub fn disk_name(disk_path: &str) -> (r: Option<String>)
    ensures
        match r {
            Some(name) => device_name(disk_path@) == Some(name@),
            None => device_name(disk_path@) is None,
        },
{
    let v = to_chars(disk_path);
    if v.len() >= 5 {
        let rest = copy_range(&v, 5, v.len());
        assert(rest@ == v@.skip(5));
        Some(from_chars(&rest))
    } else {
        None
    }
}

} // verus!
