//! The partition list: what the scanner found on the disk under recovery.

use crate::constants::{FS_LVM, FS_XFS, TYPE_EFI, TYPE_LVM, UNRESOLVED};
use crate::step::views;
use crate::text::same_text;
use vstd::prelude::*;

verus! {

/// A logical volume of a volume group.
#[derive(Debug, PartialEq, Eq)]
pub struct LogicalVolume {
    pub name: String,
    pub fstype: String,
}

/// Mathematical form of a [`LogicalVolume`].
pub struct LogicalVolumeView {
    pub name: Seq<char>,
    pub fstype: Seq<char>,
}

impl View for LogicalVolume {
    type V = LogicalVolumeView;

    open spec fn view(&self) -> LogicalVolumeView {
        LogicalVolumeView { name: self.name@, fstype: self.fstype@ }
    }
}

impl Clone for LogicalVolume {
    fn clone(&self) -> (r: Self)
        ensures
            r == *self,
    {
        LogicalVolume { name: self.name.clone(), fstype: self.fstype.clone() }
    }
}

/// One row of the partition table together with what was found on it.
#[derive(Debug, PartialEq, Eq)]
pub struct PartInfo {
    /// Position in the partition table, counted from 1.
    pub number: i32,
    /// Partition-type code of the table row.
    pub part_type: String,
    /// Detected filesystem, or the sentinel for "no signature: likely encrypted".
    pub fstype: String,
    /// Whether the release metadata was found on this partition.
    pub contains_os: bool,
    /// The logical volumes, once a resolver has listed them.
    pub logical_volumes: Option<Vec<LogicalVolume>>,
}

/// Mathematical form of a [`PartInfo`].
pub struct PartInfoView {
    pub number: int,
    pub part_type: Seq<char>,
    pub fstype: Seq<char>,
    pub contains_os: bool,
    pub logical_volumes: Option<Seq<LogicalVolumeView>>,
}

impl View for PartInfo {
    type V = PartInfoView;

    open spec fn view(&self) -> PartInfoView {
        PartInfoView {
            number: self.number as int,
            part_type: self.part_type@,
            fstype: self.fstype@,
            contains_os: self.contains_os,
            logical_volumes: match self.logical_volumes {
                Some(volumes) => Some(views(volumes@)),
                None => None,
            },
        }
    }
}

impl Clone for PartInfo {
    fn clone(&self) -> (r: Self)
        ensures
            r@ == self@,
    {
        let logical_volumes = match &self.logical_volumes {
            Some(volumes) => {
                let mut copy: Vec<LogicalVolume> = Vec::new();
                let mut i: usize = 0;
                while i < volumes.len()
                    invariant
                        i <= volumes.len(),
                        copy.len() == i,
                        forall|j: int| 0 <= j < i ==> copy@[j] == volumes@[j],
                    decreases volumes.len() - i,
                {
                    copy.push(volumes[i].clone());
                    i = i + 1;
                }
                assert(views(copy@) =~= views(volumes@));
                Some(copy)
            },
            None => None,
        };
        PartInfo {
            number: self.number,
            part_type: self.part_type.clone(),
            fstype: self.fstype.clone(),
            contains_os: self.contains_os,
            logical_volumes,
        }
    }
}

impl PartInfoView {
    /// The filesystem is still the sentinel.
    pub open spec fn is_unresolved(self) -> bool {
        self.fstype == UNRESOLVED@
    }

    /// The row is an EFI system partition.
    pub open spec fn is_efi(self) -> bool {
        self.part_type == TYPE_EFI@
    }

    /// The row is an LVM physical volume.
    pub open spec fn is_lvm(self) -> bool {
        self.part_type == TYPE_LVM@
    }

    /// The row is an LVM physical volume that carries the LVM signature.
    pub open spec fn is_lvm_member(self) -> bool {
        self.part_type == TYPE_LVM@ && self.fstype == FS_LVM@
    }

    /// The row can hold the boot files: it is neither the EFI system
    /// partition nor still unresolved.
    pub open spec fn is_boot_candidate(self) -> bool {
        !self.is_efi() && !self.is_unresolved()
    }

    /// The same row with the operating system found on it.
    pub open spec fn with_os(self) -> PartInfoView {
        PartInfoView { contains_os: true, ..self }
    }

    /// The same row with another filesystem.
    pub open spec fn with_fstype(self, fstype: Seq<char>) -> PartInfoView {
        PartInfoView { fstype, ..self }
    }
}

/// Position of the first member of `s` that satisfies `p`, or `s.len()`
/// where none does.
pub open spec fn first_match<T>(s: Seq<T>, p: spec_fn(T) -> bool) -> int
    decreases s.len(),
{
    if s.len() == 0 {
        0
    } else if p(s[0]) {
        0
    } else {
        1 + first_match(s.drop_first(), p)
    }
}

/// What [`first_match`] finds.
pub proof fn lemma_first_match<T>(s: Seq<T>, p: spec_fn(T) -> bool)
    ensures
        0 <= first_match(s, p) <= s.len(),
        first_match(s, p) < s.len() ==> p(s[first_match(s, p)]),
        forall|j: int| 0 <= j < first_match(s, p) ==> !p(#[trigger] s[j]),
    decreases s.len(),
{
    if s.len() > 0 && !p(s[0]) {
        let t = s.drop_first();
        lemma_first_match(t, p);
        assert forall|j: int| 0 <= j < first_match(s, p) implies !p(#[trigger] s[j]) by {
            if j > 0 {
                assert(s[j] == t[j - 1]);
            }
        }
    }
}

/// A position with no match before it, and a match at it or the end of `s`,
/// is the first match.
pub proof fn lemma_first_match_is<T>(s: Seq<T>, p: spec_fn(T) -> bool, k: int)
    requires
        0 <= k <= s.len(),
        forall|j: int| 0 <= j < k ==> !p(#[trigger] s[j]),
        k < s.len() ==> p(s[k]),
    ensures
        first_match(s, p) == k,
{
    lemma_first_match(s, p);
}

/// Some member of `s` satisfies `p`.
pub open spec fn any_match<T>(s: Seq<T>, p: spec_fn(T) -> bool) -> bool {
    exists|i: int| 0 <= i < s.len() && p(#[trigger] s[i])
}

/// Number of members of `s` that satisfy `p`.
pub open spec fn count_match<T>(s: Seq<T>, p: spec_fn(T) -> bool) -> nat
    decreases s.len(),
{
    if s.len() == 0 {
        0
    } else {
        count_match(s.drop_last(), p) + if p(s.last()) {
            1nat
        } else {
            0nat
        }
    }
}

/// The number of the first partition that is still unresolved: the encrypted
/// root.
pub open spec fn root_partition_number(parts: Seq<PartInfoView>) -> Option<int> {
    let i = first_match(parts, |p: PartInfoView| p.is_unresolved());
    if 0 <= i < parts.len() {
        Some(parts[i].number)
    } else {
        None
    }
}

/// The number of the first partition that can hold the boot files.
pub open spec fn boot_partition_number(parts: Seq<PartInfoView>) -> Option<int> {
    let i = first_match(parts, |p: PartInfoView| p.is_boot_candidate());
    if 0 <= i < parts.len() {
        Some(parts[i].number)
    } else {
        None
    }
}

impl PartInfo {
    /// A table row with nothing found on it yet.
    pub fn new(number: i32, part_type: String, fstype: String) -> (p: PartInfo)
        ensures
            p@ == (PartInfoView {
                number: number as int,
                part_type: part_type@,
                fstype: fstype@,
                contains_os: false,
                logical_volumes: None,
            }),
    {
        PartInfo { number, part_type, fstype, contains_os: false, logical_volumes: None }
    }

    /// Marks the partition as the one that holds the operating system.
    pub fn activate_is_os(&mut self)
        ensures
            final(self)@ == old(self)@.with_os(),
    {
        self.contains_os = true;
    }

    /// Executable [`PartInfoView::is_unresolved`].
    pub fn is_unresolved(&self) -> (r: bool)
        ensures
            r == self@.is_unresolved(),
    {
        same_text(self.fstype.as_str(), UNRESOLVED)
    }

    /// Executable [`PartInfoView::is_efi`].
    pub fn is_efi(&self) -> (r: bool)
        ensures
            r == self@.is_efi(),
    {
        same_text(self.part_type.as_str(), TYPE_EFI)
    }

    /// Executable [`PartInfoView::is_lvm`].
    pub fn is_lvm(&self) -> (r: bool)
        ensures
            r == self@.is_lvm(),
    {
        same_text(self.part_type.as_str(), TYPE_LVM)
    }

    /// Executable [`PartInfoView::is_lvm_member`].
    pub fn is_lvm_member(&self) -> (r: bool)
        ensures
            r == self@.is_lvm_member(),
    {
        same_text(self.part_type.as_str(), TYPE_LVM) && same_text(self.fstype.as_str(), FS_LVM)
    }
}

/// The mount option that a filesystem needs: XFS must be told to accept a
/// UUID that the repair host's own disk may carry too.
pub open spec fn mount_option(fstype: Seq<char>) -> Seq<char> {
    if fstype == FS_XFS@ {
        "nouuid"@
    } else {
        ""@
    }
}

/// Executable [`mount_option`].
pub fn nouuid_option(fstype: &str) -> (r: &'static str)
    ensures
        r@ == mount_option(fstype@),
{
    if same_text(fstype, FS_XFS) {
        "nouuid"
    } else {
        ""
    }
}

/// Whether any partition is an LVM physical volume.
pub fn has_lvm_partition(partitions: &Vec<PartInfo>) -> (r: bool)
    ensures
        r == any_match(views(partitions@), |p: PartInfoView| p.is_lvm()),
{
    let mut i: usize = 0;
    while i < partitions.len()
        invariant
            i <= partitions.len(),
            forall|j: int| 0 <= j < i ==> !(#[trigger] views(partitions@)[j]).is_lvm(),
        decreases partitions.len() - i,
    {
        if partitions[i].is_lvm() {
            assert(views(partitions@)[i as int].is_lvm());
            return true;
        }
        i = i + 1;
    }
    false
}

/// The number of the encrypted root partition: the first partition that is
/// still unresolved. `None` exactly when no partition is.
pub fn find_root_partition_number(partitions: &Vec<PartInfo>) -> (r: Option<i32>)
    ensures
        match r {
            Some(n) => root_partition_number(views(partitions@)) == Some(n as int),
            None => root_partition_number(views(partitions@)) is None,
        },
        r is Some <==> any_match(views(partitions@), |p: PartInfoView| p.is_unresolved()),
{
    let ghost p = |p: PartInfoView| p.is_unresolved();
    let mut i: usize = 0;
    while i < partitions.len()
        invariant
            i <= partitions.len(),
            p == |p: PartInfoView| p.is_unresolved(),
            forall|j: int| 0 <= j < i ==> !p(#[trigger] views(partitions@)[j]),
        decreases partitions.len() - i,
    {
        if partitions[i].is_unresolved() {
            proof {
                assert(p(views(partitions@)[i as int]));
                lemma_first_match_is(views(partitions@), p, i as int);
            }
            return Some(partitions[i].number);
        }
        i = i + 1;
    }
    proof {
        lemma_first_match_is(views(partitions@), p, partitions.len() as int);
    }
    None
}

/// The number of the boot partition: the first partition that is neither the
/// EFI system partition nor unresolved. `None` exactly when there is none.
pub fn find_boot_partition_number(partitions: &Vec<PartInfo>) -> (r: Option<i32>)
    ensures
        match r {
            Some(n) => boot_partition_number(views(partitions@)) == Some(n as int),
            None => boot_partition_number(views(partitions@)) is None,
        },
        r is Some <==> any_match(views(partitions@), |p: PartInfoView| p.is_boot_candidate()),
{
    let ghost p = |p: PartInfoView| p.is_boot_candidate();
    let mut i: usize = 0;
    while i < partitions.len()
        invariant
            i <= partitions.len(),
            p == |p: PartInfoView| p.is_boot_candidate(),
            forall|j: int| 0 <= j < i ==> !p(#[trigger] views(partitions@)[j]),
        decreases partitions.len() - i,
    {
        if !partitions[i].is_efi() && !partitions[i].is_unresolved() {
            proof {
                assert(p(views(partitions@)[i as int]));
                lemma_first_match_is(views(partitions@), p, i as int);
            }
            return Some(partitions[i].number);
        }
        i = i + 1;
    }
    proof {
        lemma_first_match_is(views(partitions@), p, partitions.len() as int);
    }
    None
}

} // verus!
