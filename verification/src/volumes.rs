//! Logical volumes and unlocked filesystems: what the resolvers add to the
//! partition list after the scan.

use crate::constants::{FS_LVM, UNRESOLVED};
use crate::distro::Distro;
use crate::partition::{
    first_match,
    lemma_first_match_is,
    LogicalVolumeView,
    PartInfo,
    PartInfoView,
};
use crate::scan::{
    device_name,
    disk_name,
    lemma_classified_is_resolved,
    listed_volumes,
    mapper_filesystem,
    mapper_fstype,
    opt_text,
    parse_logical_volumes,
    ScanError,
};
use crate::step::views;
use crate::text::lowercase;
use crate::pipeline::Findings;
use vstd::prelude::*;

verus! {

/// The volumes that a listing shows for the partition at `index`, or why
/// there are none to record. The disk's own entry in the listing is passed
/// over.
pub open spec fn built_volumes(
    parts: Seq<PartInfoView>,
    index: int,
    listing: Seq<char>,
    disk_path: Seq<char>,
) -> Result<Seq<LogicalVolumeView>, ScanError> {
    if !(0 <= index < parts.len()) || !parts[index].is_lvm() {
        Err(ScanError::NotLvm)
    } else {
        match device_name(disk_path) {
            None => Err(ScanError::BadDiskPath),
            Some(name) => match listed_volumes(listing, Some(name)) {
                Some(volumes) => Ok(volumes),
                None => Err(ScanError::BadVolumeRow),
            },
        }
    }
}

/// The same row with its logical volumes recorded.
pub open spec fn with_volumes(p: PartInfoView, volumes: Seq<LogicalVolumeView>) -> PartInfoView {
    PartInfoView { logical_volumes: Some(volumes), ..p }
}

/// The position of the encrypted partition where it is an LVM physical
/// volume; `None` where no partition is unresolved or the first unresolved
/// one is of another type.
pub open spec fn encrypted_lvm_index(parts: Seq<PartInfoView>) -> Option<int> {
    let i = first_match(parts, |p: PartInfoView| p.is_unresolved());
    if 0 <= i < parts.len() && parts[i].is_lvm() {
        Some(i)
    } else {
        None
    }
}

/// The same row once an unlocked filesystem has been found on it.
pub open spec fn resolved(p: PartInfoView, fstype: Seq<char>) -> PartInfoView {
    if p.is_unresolved() {
        p.with_fstype(fstype)
    } else {
        p
    }
}

/// The filesystem of an unlocked volume is never the sentinel.
pub proof fn lemma_mapper_fstype_is_resolved(probe: Option<Seq<char>>)
    ensures
        mapper_fstype(probe) != UNRESOLVED@,
{
    match probe {
        Some(output) => {
            lemma_classified_is_resolved(lowercase(output));
        },
        None => {
            reveal_strlit("xfs");
            reveal_strlit("crypt?");
            assert("xfs"@.len() == 3);
            assert(UNRESOLVED@.len() == 6);
        },
    }
}

impl Distro {
    /// Records the logical volumes of the LVM partition at `index`, read
    /// from the block-device listing of that partition.
    ///
    /// Fails, and changes nothing, when `index` is no LVM partition, when
    /// the disk path is too short to hold a device name, or when a row of
    /// the listing cannot be read.
    pub fn build_logical_volume_details(
        partitions: &mut Vec<PartInfo>,
        index: usize,
        listing: &str,
        disk_path: &str,
    ) -> (r: Result<(), ScanError>)
        ensures
            match built_volumes(views(old(partitions)@), index as int, listing@, disk_path@) {
                Ok(volumes) => r is Ok && views(final(partitions)@) == views(
                    old(partitions)@,
                ).update(index as int, with_volumes(views(old(partitions)@)[index as int], volumes)),
                Err(e) => r == Err::<(), ScanError>(e) && final(partitions)@ == old(partitions)@,
            },
    {
        if index >= partitions.len() || !partitions[index].is_lvm() {
            return Err(ScanError::NotLvm);
        }
        let name = match disk_name(disk_path) {
            Some(name) => name,
            None => {
                return Err(ScanError::BadDiskPath);
            },
        };
        let volumes = match parse_logical_volumes(listing, Some(name.as_str())) {
            Ok(volumes) => volumes,
            Err(e) => {
                return Err(e);
            },
        };
        let ghost listed = views(volumes@);
        partitions[index].logical_volumes = Some(volumes);
        assert(views(partitions@) =~= views(old(partitions)@).update(
            index as int,
            with_volumes(views(old(partitions)@)[index as int], listed),
        ));
        Ok(())
    }

    /// After an unlock: where the encrypted partition is an LVM physical
    /// volume, records the LVM signature and the logical volumes that the
    /// listing of the mapper device shows, and answers `true`. Where no
    /// partition is unresolved, or the first unresolved one is of another
    /// type, nothing changes and the answer is `false`.
    ///
    /// Fails, and changes nothing, when a row of the listing cannot be read.
    pub fn ade_prepare_lv(partitions: &mut Vec<PartInfo>, listing: &str) -> (r: Result<
        bool,
        ScanError,
    >)
        ensures
            match encrypted_lvm_index(views(old(partitions)@)) {
                None => r == Ok::<bool, ScanError>(false) && final(partitions)@ == old(partitions)@,
                Some(i) => match listed_volumes(listing@, None) {
                    Some(volumes) => r == Ok::<bool, ScanError>(true) && views(final(partitions)@)
                        == views(old(partitions)@).update(
                        i,
                        with_volumes(views(old(partitions)@)[i].with_fstype(FS_LVM@), volumes),
                    ),
                    None => r == Err::<bool, ScanError>(ScanError::BadVolumeRow) && final(partitions)@ == old(partitions)@,
                },
            },
    {
        let ghost p = |p: PartInfoView| p.is_unresolved();
        let mut i: usize = 0;
        while i < partitions.len() && !partitions[i].is_unresolved()
            invariant
                i <= partitions.len(),
                p == |p: PartInfoView| p.is_unresolved(),
                forall|j: int| 0 <= j < i ==> !p(#[trigger] views(partitions@)[j]),
            decreases partitions.len() - i,
        {
            i = i + 1;
        }
        proof {
            if i < partitions.len() {
                assert(p(views(partitions@)[i as int]));
            }
            lemma_first_match_is(views(partitions@), p, i as int);
        }
        if i >= partitions.len() || !partitions[i].is_lvm() {
            return Ok(false);
        }
        let volumes = match parse_logical_volumes(listing, None) {
            Ok(volumes) => volumes,
            Err(e) => {
                return Err(e);
            },
        };
        let ghost listed = views(volumes@);
        partitions[i].fstype = FS_LVM.to_owned();
        partitions[i].logical_volumes = Some(volumes);
        assert(views(partitions@) =~= views(old(partitions)@).update(
            i as int,
            with_volumes(views(old(partitions)@)[i as int].with_fstype(FS_LVM@), listed),
        ));
        Ok(true)
    }

    /// Gives every partition that is still unresolved the filesystem of the
    /// unlocked volume: what the probe of the mapper device shows, or XFS
    /// where that probe failed. Afterwards no partition is unresolved.
    pub fn ade_set_no_lvm_partiton_fs(partitions: &mut Vec<PartInfo>, mapper_probe: Option<&str>)
        ensures
            final(partitions).len() == old(partitions).len(),
            forall|i: int|
                0 <= i < old(partitions).len() ==> (#[trigger] views(final(partitions)@)[i])
                    == resolved(views(old(partitions)@)[i], mapper_fstype(opt_text(mapper_probe))),
            forall|i: int|
                0 <= i < final(partitions).len() ==> !(#[trigger] views(
                    final(partitions)@,
                )[i]).is_unresolved(),
    {
        let ghost fs = mapper_fstype(opt_text(mapper_probe));
        proof {
            lemma_mapper_fstype_is_resolved(opt_text(mapper_probe));
        }
        let mut i: usize = 0;
        while i < partitions.len()
            invariant
                i <= partitions.len(),
                partitions.len() == old(partitions).len(),
                fs == mapper_fstype(opt_text(mapper_probe)),
                fs != UNRESOLVED@,
                forall|j: int|
                    0 <= j < i ==> (#[trigger] views(partitions@)[j]) == resolved(
                        views(old(partitions)@)[j],
                        fs,
                    ),
                forall|j: int|
                    i <= j < partitions.len() ==> (#[trigger] views(partitions@)[j]) == views(
                        old(partitions)@,
                    )[j],
            decreases partitions.len() - i,
        {
            if partitions[i].is_unresolved() {
                let ghost before = views(partitions@);
                partitions[i].fstype = mapper_filesystem(mapper_probe);
                assert(views(partitions@) =~= before.update(
                    i as int,
                    before[i as int].with_fstype(fs),
                ));
            }
            i = i + 1;
        }
    }
}

/// The positions of the LVM physical volumes, in the order of the table.
pub open spec fn volume_positions(parts: Seq<PartInfoView>) -> Seq<usize>
    decreases parts.len(),
{
    if parts.len() == 0 {
        seq![]
    } else if parts.last().is_lvm() {
        volume_positions(parts.drop_last()).push((parts.len() - 1) as usize)
    } else {
        volume_positions(parts.drop_last())
    }
}

/// Where logical volumes are resolved.
#[derive(Debug, Clone, PartialEq, Eq)]
pub enum VolumeWork {
    /// On the mapper device of the unlocked volume.
    Mapper,
    /// On the partitions at these positions, one after the other.
    Partitions { indices: Vec<usize> },
}

/// Decides where logical volumes are resolved: on an encrypted disk, on
/// the mapper device of the unlocked volume; on any other disk, on each
/// LVM physical volume in the order of the table.
pub fn volume_work(partitions: &Vec<PartInfo>, found: Findings) -> (r: VolumeWork)
    ensures
        found.encrypted ==> r == VolumeWork::Mapper,
        !found.encrypted ==> (r matches VolumeWork::Partitions { indices } && indices@
            == volume_positions(views(partitions@))),
{
    if found.encrypted {
        return VolumeWork::Mapper;
    }
    let ghost parts = views(partitions@);
    let mut indices: Vec<usize> = Vec::new();
    let mut i: usize = 0;
    assert(parts.take(0) == Seq::<PartInfoView>::empty());
    while i < partitions.len()
        invariant
            i <= partitions.len(),
            parts == views(partitions@),
            indices@ == volume_positions(parts.take(i as int)),
        decreases partitions.len() - i,
    {
        proof {
            let upto = parts.take(i + 1);
            assert(upto.drop_last() == parts.take(i as int));
            assert(upto.last() == partitions@[i as int]@);
        }
        if partitions[i].is_lvm() {
            indices.push(i);
        }
        i = i + 1;
    }
    assert(parts.take(partitions.len() as int) == parts);
    VolumeWork::Partitions { indices }
}

} // verus!
