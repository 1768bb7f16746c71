//! The distribution identifier: which partition holds the operating system,
//! and which distribution it is.
//!
//! Identification alternates between deciding and looking. The library
//! decides which candidate is mounted next and how; the driver mounts it,
//! looks for the release file and reports back. [`Detection`] holds the state
//! between the two and owns the partition list meanwhile.

use crate::constants::{
    ADE_OSENCRYPT_PATH,
    ASSERT_PATH,
    ASSERT_PATH_USR,
    RESCUE_ADE_ROOTLV,
    RESCUE_ADE_USRLV,
    ROOTVG_ROOTLV,
    ROOTVG_USRLV,
};
use crate::partition::{
    count_match,
    first_match,
    lemma_first_match_is,
    mount_option,
    nouuid_option,
    LogicalVolume,
    LogicalVolumeView,
    PartInfo,
    PartInfoView,
};
use crate::release::{
    architecture_in,
    architecture_of,
    parse_os_release,
    release_value,
    Architecture,
    DistroNameVersion,
    DistroNameVersionView,
};
use crate::scan::{opt_text, partition_device, partition_path};
use crate::step::{
    check,
    create_dir,
    empty_plan,
    may,
    mount,
    must,
    push_may,
    push_must,
    remove_dir,
    step_check,
    step_create_dir,
    step_mount,
    step_remove_dir,
    step_unmount,
    unmount,
    views,
    Task,
    TaskView,
};
use crate::text::{contains, text_contains};
use crate::pipeline::Findings;
use crate::scan::{mapper_filesystem, mapper_fstype};
use vstd::prelude::*;

verus! {

/// What the identifier needs to know about the host and the disk.
#[derive(Debug, Clone, PartialEq, Eq)]
pub struct ProbeContext {
    /// Resolved path of the disk under recovery.
    pub disk_path: String,
    /// The disk hangs on an NVMe controller.
    pub is_nvme: bool,
    /// The disk is encrypted and was unlocked.
    pub is_ade: bool,
    /// Filesystem on the unlocked volume; read only for unresolved partitions.
    pub mapper_fstype: String,
    /// The repair host may take a disk with logical volumes.
    pub lvm_allowed: bool,
}

/// Mathematical form of a [`ProbeContext`].
pub struct ProbeContextView {
    pub disk_path: Seq<char>,
    pub is_nvme: bool,
    pub is_ade: bool,
    pub mapper_fstype: Seq<char>,
    pub lvm_allowed: bool,
}

impl View for ProbeContext {
    type V = ProbeContextView;

    open spec fn view(&self) -> ProbeContextView {
        ProbeContextView {
            disk_path: self.disk_path@,
            is_nvme: self.is_nvme,
            is_ade: self.is_ade,
            mapper_fstype: self.mapper_fstype@,
            lvm_allowed: self.lvm_allowed,
        }
    }
}

impl ProbeContext {
    /// The context for a scanned disk. The disk counts as encrypted
    /// exactly when the scan found it so; the filesystem of the unlocked
    /// volume is what the probe of the mapper device shows.
    pub fn new(
        disk_path: &str,
        is_nvme: bool,
        found: Findings,
        mapper_probe: Option<&str>,
        lvm_allowed: bool,
    ) -> (c: ProbeContext)
        ensures
            c@ == (ProbeContextView {
                disk_path: disk_path@,
                is_nvme,
                is_ade: found.encrypted,
                mapper_fstype: mapper_fstype(opt_text(mapper_probe)),
                lvm_allowed,
            }),
    {
        ProbeContext {
            disk_path: disk_path.to_owned(),
            is_nvme,
            is_ade: found.encrypted,
            mapper_fstype: mapper_filesystem(mapper_probe),
            lvm_allowed,
        }
    }
}

/// Why identification was given up.
#[derive(Debug, Clone, Copy, PartialEq, Eq, Structural)]
pub enum DetectionError {
    /// The repair host itself runs on logical volumes and is not of a
    /// release that can take a second volume group.
    LvmNotAllowed,
    /// The volume group of the disk has no logical volume.
    NoRootVolume,
    /// The volume group was mounted and holds no release file.
    ReleaseFileMissing,
}

/// How identification ended.
#[derive(Debug, Clone, Copy, PartialEq, Eq, Structural)]
pub enum Outcome {
    /// The release file was found on the partition at this position.
    Detected { index: usize },
    /// No candidate holds a release file: this is no system disk.
    NoOsPartition,
    /// Identification was given up.
    Failed { error: DetectionError },
}

/// One look at a candidate.
#[derive(Debug, PartialEq, Eq)]
pub struct Probe {
    /// Position of the candidate in the partition list.
    pub index: usize,
    /// Checks and mounts that bring the candidate below the scratch path.
    pub mount: Vec<Task>,
    /// Whether the system binary is examined when the release file is there.
    pub probe_architecture: bool,
    /// What to do after the release file was found and read.
    pub found: Vec<Task>,
    /// What to do when there is no release file.
    pub missing: Vec<Task>,
}

/// Mathematical form of a [`Probe`].
pub struct ProbeView {
    pub index: int,
    pub mount: Seq<TaskView>,
    pub probe_architecture: bool,
    pub found: Seq<TaskView>,
    pub missing: Seq<TaskView>,
}

impl View for Probe {
    type V = ProbeView;

    open spec fn view(&self) -> ProbeView {
        ProbeView {
            index: self.index as int,
            mount: views(self.mount@),
            probe_architecture: self.probe_architecture,
            found: views(self.found@),
            missing: views(self.missing@),
        }
    }
}

/// What the driver is asked to do next.
#[derive(Debug, PartialEq, Eq)]
pub enum Request {
    /// Look at a candidate and answer with what was found.
    Look { probe: Probe },
    /// Nothing is left to look at.
    Done { outcome: Outcome, cleanup: Vec<Task> },
}

/// The decision behind a [`Request`].
pub enum Decision {
    /// Look at the partition at `index`; `volumes` says whether its logical
    /// volumes are mounted rather than the partition itself.
    Look { index: int, volumes: bool },
    /// Nothing is left to look at.
    Done { outcome: Outcome },
}

/// State of an identification.
pub struct Detection {
    partitions: Vec<PartInfo>,
    context: ProbeContext,
    cursor: usize,
    outcome: Option<Outcome>,
    identity: DistroNameVersion,
    architecture: Architecture,
}

/// Mathematical form of a [`Detection`].
pub struct DetectionView {
    pub partitions: Seq<PartInfoView>,
    pub context: ProbeContextView,
    /// Every candidate before this position has been looked at.
    pub cursor: int,
    /// Set once identification has ended by an answer.
    pub outcome: Option<Outcome>,
    pub identity: DistroNameVersionView,
    pub architecture: Architecture,
}

/// The same list with no partition marked as holding the operating system.
pub open spec fn unmarked(parts: Seq<PartInfoView>) -> Seq<PartInfoView> {
    Seq::new(parts.len(), |i: int| PartInfoView { contains_os: false, ..parts[i] })
}

/// The checks and mounts for a partition that is looked at directly. An
/// unresolved partition is reached through the mapper device of the
/// unlocked volume.
pub open spec fn partition_probe(p: PartInfoView, context: ProbeContextView) -> Seq<TaskView> {
    let device = if p.is_unresolved() {
        ADE_OSENCRYPT_PATH@
    } else {
        partition_path(context.disk_path, context.is_nvme, p.number)
    };
    let fstype = if p.is_unresolved() {
        context.mapper_fstype
    } else {
        p.fstype
    };
    seq![must(check(device)), must(mount(device, ASSERT_PATH@, mount_option(fstype)))]
}

/// The checks and mounts for the volumes whose name contains `tag`.
pub open spec fn volume_probe(
    volumes: Seq<LogicalVolumeView>,
    tag: Seq<char>,
    device: Seq<char>,
    target: Seq<char>,
) -> Seq<TaskView>
    decreases volumes.len(),
{
    if volumes.len() == 0 {
        seq![]
    } else {
        let before = volume_probe(volumes.drop_last(), tag, device, target);
        let volume = volumes.last();
        if contains(volume.name, tag) {
            before + seq![
                must(check(device)),
                must(mount(device, target, mount_option(volume.fstype))),
            ]
        } else {
            before
        }
    }
}

/// The device of the root volume.
pub open spec fn root_volume_device(is_ade: bool) -> Seq<char> {
    if is_ade {
        RESCUE_ADE_ROOTLV@
    } else {
        ROOTVG_ROOTLV@
    }
}

/// The device of the `/usr` volume.
pub open spec fn usr_volume_device(is_ade: bool) -> Seq<char> {
    if is_ade {
        RESCUE_ADE_USRLV@
    } else {
        ROOTVG_USRLV@
    }
}

/// The checks and mounts for a volume group: the root volume first, then
/// the `/usr` volume below it.
pub open spec fn volumes_probe(volumes: Seq<LogicalVolumeView>, is_ade: bool) -> Seq<TaskView> {
    volume_probe(volumes, "rootlv"@, root_volume_device(is_ade), ASSERT_PATH@) + volume_probe(
        volumes,
        "usrlv"@,
        usr_volume_device(is_ade),
        ASSERT_PATH_USR@,
    )
}

impl DetectionView {
    /// The invariant of an identification: the cursor lies within the list,
    /// and a partition is marked as holding the operating system exactly
    /// when identification ended on it.
    pub open spec fn wf(self) -> bool {
        &&& 0 <= self.cursor <= self.partitions.len()
        &&& match self.outcome {
            Some(Outcome::Detected { index }) => index < self.partitions.len() && forall|j: int|
                0 <= j < self.partitions.len() ==> ((#[trigger] self.partitions[j]).contains_os
                    <==> j == index),
            _ => forall|j: int|
                0 <= j < self.partitions.len() ==> !(#[trigger] self.partitions[j]).contains_os,
        }
    }

    /// Position of the next candidate: the first partition at or after the
    /// cursor that is no EFI system partition; the length of the list where
    /// none is left.
    pub open spec fn candidate(self) -> int {
        self.cursor + first_match(
            self.partitions.skip(self.cursor),
            |p: PartInfoView| !p.is_efi(),
        )
    }

    /// What is done next.
    pub open spec fn decision(self) -> Decision {
        match self.outcome {
            Some(outcome) => Decision::Done { outcome },
            None => {
                let i = self.candidate();
                if !(0 <= i < self.partitions.len()) {
                    Decision::Done { outcome: Outcome::NoOsPartition }
                } else if self.partitions[i].is_lvm_member() {
                    if !self.context.lvm_allowed {
                        Decision::Done {
                            outcome: Outcome::Failed { error: DetectionError::LvmNotAllowed },
                        }
                    } else {
                        match self.partitions[i].logical_volumes {
                            None => Decision::Done { outcome: Outcome::NoOsPartition },
                            Some(volumes) => if volumes.len() == 0 {
                                Decision::Done {
                                    outcome: Outcome::Failed { error: DetectionError::NoRootVolume },
                                }
                            } else {
                                Decision::Look { index: i, volumes: true }
                            },
                        }
                    }
                } else {
                    Decision::Look { index: i, volumes: false }
                }
            },
        }
    }

    /// The look that a decision asks for.
    pub open spec fn probe(self, index: int, volumes: bool) -> ProbeView {
        if volumes {
            ProbeView {
                index,
                mount: volumes_probe(
                    self.partitions[index].logical_volumes->Some_0,
                    self.context.is_ade,
                ),
                probe_architecture: false,
                found: seq![must(unmount(ASSERT_PATH@, true))],
                missing: seq![],
            }
        } else {
            ProbeView {
                index,
                mount: partition_probe(self.partitions[index], self.context),
                probe_architecture: true,
                found: seq![must(unmount(ASSERT_PATH@, false)), may(remove_dir(ASSERT_PATH@))],
                missing: seq![must(unmount(ASSERT_PATH@, false))],
            }
        }
    }

    /// What is tidied up once nothing is left to look at: the scratch
    /// directory goes when every candidate was looked at in vain. It stays
    /// where something may still be mounted on it.
    pub open spec fn cleanup(self) -> Seq<TaskView> {
        if self.outcome is None && !(0 <= self.candidate() < self.partitions.len()) {
            seq![may(remove_dir(ASSERT_PATH@))]
        } else {
            seq![]
        }
    }

    /// The state after the driver's answer to a look: `release` is the text
    /// of the release file if there is one, `binary_info` the description
    /// of the system binary.
    pub open spec fn answered(self, release: Option<Seq<char>>, binary_info: Seq<char>)
        -> DetectionView {
        match self.decision() {
            Decision::Done { .. } => self,
            Decision::Look { index, volumes } => match release {
                Some(text) => DetectionView {
                    partitions: self.partitions.update(index, self.partitions[index].with_os()),
                    outcome: Some(Outcome::Detected { index: index as usize }),
                    identity: DistroNameVersionView {
                        name: release_value(text, "NAME="@),
                        version_id: release_value(text, "VERSION_ID="@),
                    },
                    architecture: if volumes {
                        self.architecture
                    } else {
                        architecture_in(binary_info)
                    },
                    ..self
                },
                None => if volumes {
                    DetectionView {
                        outcome: Some(
                            Outcome::Failed { error: DetectionError::ReleaseFileMissing },
                        ),
                        ..self
                    }
                } else {
                    DetectionView { cursor: index + 1, ..self }
                },
            },
        }
    }

    /// How identification stands: the recorded outcome, or the one that the
    /// next decision gives; `None` while a look is still to be made.
    pub open spec fn result(self) -> Option<Outcome> {
        match self.decision() {
            Decision::Done { outcome } => Some(outcome),
            Decision::Look { .. } => None,
        }
    }
}

/// Where at most one position satisfies `p`, the count is at most one.
pub proof fn lemma_count_at_most_one<T>(s: Seq<T>, p: spec_fn(T) -> bool, k: int)
    requires
        forall|j: int| 0 <= j < s.len() && p(#[trigger] s[j]) ==> j == k,
    ensures
        count_match(s, p) <= 1,
        !(0 <= k < s.len()) ==> count_match(s, p) == 0,
        0 <= k < s.len() && p(s[k]) ==> count_match(s, p) == 1,
    decreases s.len(),
{
    if s.len() > 0 {
        let t = s.drop_last();
        assert forall|j: int| 0 <= j < t.len() && p(#[trigger] t[j]) implies j == k by {
            assert(t[j] == s[j]);
        }
        lemma_count_at_most_one(t, p, k);
        if k == s.len() - 1 {
            lemma_count_at_most_one(t, p, -1);
        } else {
            if 0 <= k < t.len() {
                assert(t[k] == s[k]);
            }
        }
    }
}

/// At most one partition holds the operating system, at every point of an
/// identification; exactly one does once it was detected, and none does
/// when identification ended otherwise.
pub proof fn lemma_at_most_one_os(d: DetectionView)
    requires
        d.wf(),
    ensures
        count_match(d.partitions, |p: PartInfoView| p.contains_os) <= 1,
        d.outcome matches Some(Outcome::Detected { index }) ==> count_match(
            d.partitions,
            |p: PartInfoView| p.contains_os,
        ) == 1 && d.partitions[index as int].contains_os,
        !(d.outcome matches Some(Outcome::Detected { .. })) ==> count_match(
            d.partitions,
            |p: PartInfoView| p.contains_os,
        ) == 0,
{
    let p = |p: PartInfoView| p.contains_os;
    match d.outcome {
        Some(Outcome::Detected { index }) => {
            lemma_count_at_most_one(d.partitions, p, index as int);
        },
        _ => {
            lemma_count_at_most_one(d.partitions, p, -1);
        },
    }
}

/// An EFI system partition is never looked at.
pub proof fn lemma_efi_is_never_probed(d: DetectionView)
    requires
        d.wf(),
    ensures
        d.decision() matches Decision::Look { index, .. } ==> 0 <= index < d.partitions.len()
            && !d.partitions[index].is_efi() && index >= d.cursor,
{
    let rest = d.partitions.skip(d.cursor);
    let p = |p: PartInfoView| !p.is_efi();
    crate::partition::lemma_first_match(rest, p);
    if 0 <= d.candidate() < d.partitions.len() {
        assert(rest[d.candidate() - d.cursor] == d.partitions[d.candidate()]);
    }
}

/// An answer keeps the invariant.
pub proof fn lemma_answer_keeps_wf(d: DetectionView, release: Option<Seq<char>>, info: Seq<char>)
    requires
        d.wf(),
        d.partitions.len() <= usize::MAX,
    ensures
        d.answered(release, info).wf(),
{
    lemma_efi_is_never_probed(d);
}

enum Located {
    Look { index: usize, volumes: bool },
    /// `exhausted` says that every candidate was looked at in vain.
    Done { outcome: Outcome, exhausted: bool },
}

impl Located {
    spec fn decision(self) -> Decision {
        match self {
            Located::Look { index, volumes } => Decision::Look { index: index as int, volumes },
            Located::Done { outcome, .. } => Decision::Done { outcome },
        }
    }
}

fn volume_tasks(volumes: &Vec<LogicalVolume>, tag: &str, device: &str, target: &str) -> (plan: Vec<
    Task,
>)
    ensures
        views(plan@) == volume_probe(views(volumes@), tag@, device@, target@),
{
    let mut plan = empty_plan();
    let mut i: usize = 0;
    assert(views(volumes@).take(0) == Seq::<LogicalVolumeView>::empty());
    while i < volumes.len()
        invariant
            i <= volumes.len(),
            views(plan@) == volume_probe(views(volumes@).take(i as int), tag@, device@, target@),
        decreases volumes.len() - i,
    {
        proof {
            let upto = views(volumes@).take(i + 1);
            assert(upto.drop_last() == views(volumes@).take(i as int));
            assert(upto.last() == volumes@[i as int]@);
        }
        if text_contains(volumes[i].name.as_str(), tag) {
            let ghost before = views(plan@);
            push_must(&mut plan, step_check(device));
            push_must(
                &mut plan,
                step_mount(device, target, nouuid_option(volumes[i].fstype.as_str())),
            );
            assert(views(plan@) == before + seq![
                must(check(device@)),
                must(mount(device@, target@, mount_option(volumes@[i as int]@.fstype))),
            ]);
        }
        i = i + 1;
    }
    assert(views(volumes@).take(volumes.len() as int) == views(volumes@));
    plan
}

impl Detection {
    /// The mathematical state.
    pub closed spec fn view(&self) -> DetectionView {
        DetectionView {
            partitions: views(self.partitions@),
            context: self.context@,
            cursor: self.cursor as int,
            outcome: self.outcome,
            identity: self.identity@,
            architecture: self.architecture,
        }
    }

    /// Starts an identification on a scanned partition list. No partition
    /// counts as holding the operating system until it was found there.
    pub fn new(partitions: Vec<PartInfo>, context: ProbeContext) -> (d: Detection)
        ensures
            d@.wf(),
            d@ == (DetectionView {
                partitions: unmarked(views(partitions@)),
                context: context@,
                cursor: 0,
                outcome: None,
                identity: DistroNameVersionView { name: seq![], version_id: seq![] },
                architecture: Architecture::X86_64,
            }),
    {
        let mut partitions = partitions;
        let ghost given = views(partitions@);
        let mut i: usize = 0;
        while i < partitions.len()
            invariant
                i <= partitions.len(),
                partitions.len() == given.len(),
                forall|j: int|
                    0 <= j < i ==> (#[trigger] views(partitions@)[j]) == (PartInfoView {
                        contains_os: false,
                        ..given[j]
                    }),
                forall|j: int| i <= j < partitions.len() ==> (#[trigger] views(partitions@)[j]) == given[j],
            decreases partitions.len() - i,
        {
            let ghost before = views(partitions@);
            partitions[i].contains_os = false;
            assert(views(partitions@) =~= before.update(
                i as int,
                PartInfoView { contains_os: false, ..before[i as int] },
            ));
            i = i + 1;
        }
        assert(views(partitions@) =~= unmarked(given));
        Detection {
            partitions,
            context,
            cursor: 0,
            outcome: None,
            identity: DistroNameVersion::unknown(),
            architecture: Architecture::X86_64,
        }
    }

    /// Whether the disk is encrypted and was unlocked.
    pub fn is_ade(&self) -> (r: bool)
        ensures
            r == self@.context.is_ade,
    {
        self.context.is_ade
    }

    /// What has to be there before the first look: the scratch directory.
    pub fn prepare() -> (plan: Vec<Task>)
        ensures
            views(plan@) == seq![must(create_dir(ASSERT_PATH@))],
    {
        let mut plan = empty_plan();
        push_must(&mut plan, step_create_dir(ASSERT_PATH));
        plan
    }

    fn locate(&self) -> (r: Located)
        requires
            self@.wf(),
        ensures
            r.decision() == self@.decision(),
            r matches Located::Look { index, .. } ==> index < self.partitions.len(),
            r matches Located::Done { exhausted, .. } ==> exhausted == (self@.outcome is None && !(0
                <= self@.candidate() < self@.partitions.len())),
    {
        match self.outcome {
            Some(outcome) => {
                return Located::Done { outcome, exhausted: false };
            },
            None => {},
        }
        let ghost rest = views(self.partitions@).skip(self.cursor as int);
        let ghost p = |p: PartInfoView| !p.is_efi();
        let mut i: usize = self.cursor;
        while i < self.partitions.len() && self.partitions[i].is_efi()
            invariant
                self.cursor <= i <= self.partitions.len(),
                rest == views(self.partitions@).skip(self.cursor as int),
                p == |p: PartInfoView| !p.is_efi(),
                forall|j: int| 0 <= j < i - self.cursor ==> !p(#[trigger] rest[j]),
            decreases self.partitions.len() - i,
        {
            assert(rest[i - self.cursor] == views(self.partitions@)[i as int]);
            i = i + 1;
        }
        proof {
            if i < self.partitions.len() {
                assert(rest[i - self.cursor] == views(self.partitions@)[i as int]);
            }
            lemma_first_match_is(rest, p, i - self.cursor);
        }
        if i >= self.partitions.len() {
            return Located::Done { outcome: Outcome::NoOsPartition, exhausted: true };
        }
        if self.partitions[i].is_lvm_member() {
            if !self.context.lvm_allowed {
                return Located::Done {
                    outcome: Outcome::Failed { error: DetectionError::LvmNotAllowed },
                    exhausted: false,
                };
            }
            match &self.partitions[i].logical_volumes {
                None => Located::Done { outcome: Outcome::NoOsPartition, exhausted: false },
                Some(volumes) => {
                    if volumes.len() == 0 {
                        Located::Done {
                            outcome: Outcome::Failed { error: DetectionError::NoRootVolume },
                            exhausted: false,
                        }
                    } else {
                        Located::Look { index: i, volumes: true }
                    }
                },
            }
        } else {
            Located::Look { index: i, volumes: false }
        }
    }

    /// What the driver has to do next: look at the next candidate, or stop.
    /// EFI system partitions are passed over, and so is nothing else.
    pub fn next(&self) -> (r: Request)
        requires
            self@.wf(),
        ensures
            match self@.decision() {
                Decision::Look { index, volumes } => r matches Request::Look { probe } && probe@
                    == self@.probe(index, volumes) && !self@.partitions[index].is_efi(),
                Decision::Done { outcome } => r matches Request::Done { outcome: o, cleanup } && o
                    == outcome && views(cleanup@) == self@.cleanup(),
            },
    {
        proof {
            lemma_efi_is_never_probed(self@);
        }
        match self.locate() {
            Located::Done { outcome, exhausted } => {
                let mut cleanup = empty_plan();
                if exhausted {
                    push_may(&mut cleanup, step_remove_dir(ASSERT_PATH));
                }
                assert(views(cleanup@) =~= self@.cleanup());
                Request::Done { outcome, cleanup }
            },
            Located::Look { index, volumes } => {
                let part = &self.partitions[index];
                if volumes {
                    let list = match &part.logical_volumes {
                        Some(list) => list,
                        None => {
                            proof {
                                assert(false);
                            }
                            return Request::Done {
                                outcome: Outcome::NoOsPartition,
                                cleanup: Vec::new(),
                            };
                        },
                    };
                    let root = if self.context.is_ade {
                        RESCUE_ADE_ROOTLV
                    } else {
                        ROOTVG_ROOTLV
                    };
                    let usr = if self.context.is_ade {
                        RESCUE_ADE_USRLV
                    } else {
                        ROOTVG_USRLV
                    };
                    let mut mount = volume_tasks(list, "rootlv", root, ASSERT_PATH);
                    crate::step::append_plan(
                        &mut mount,
                        volume_tasks(list, "usrlv", usr, ASSERT_PATH_USR),
                    );
                    let mut found = empty_plan();
                    push_must(&mut found, step_unmount(ASSERT_PATH, true));
                    let missing = empty_plan();
                    proof {
                        let want = self@.probe(index as int, true);
                        assert(views(list@) == self@.partitions[index as int].logical_volumes->Some_0);
                        assert(views(mount@) =~= want.mount);
                        assert(views(found@) =~= want.found);
                        assert(views(missing@) =~= want.missing);
                    }
                    Request::Look {
                        probe: Probe {
                            index,
                            mount,
                            probe_architecture: false,
                            found,
                            missing,
                        },
                    }
                } else {
                    let unresolved = part.is_unresolved();
                    let device = if unresolved {
                        ADE_OSENCRYPT_PATH.to_owned()
                    } else {
                        partition_device(
                            self.context.disk_path.as_str(),
                            self.context.is_nvme,
                            part.number,
                        )
                    };
                    let options = if unresolved {
                        nouuid_option(self.context.mapper_fstype.as_str())
                    } else {
                        nouuid_option(part.fstype.as_str())
                    };
                    let mut mount = empty_plan();
                    push_must(&mut mount, step_check(device.as_str()));
                    push_must(&mut mount, step_mount(device.as_str(), ASSERT_PATH, options));
                    let mut found = empty_plan();
                    push_must(&mut found, step_unmount(ASSERT_PATH, false));
                    push_may(&mut found, step_remove_dir(ASSERT_PATH));
                    let mut missing = empty_plan();
                    push_must(&mut missing, step_unmount(ASSERT_PATH, false));
                    proof {
                        let want = self@.probe(index as int, false);
                        assert(part@ == self@.partitions[index as int]);
                        assert(views(mount@) =~= want.mount);
                        assert(views(found@) =~= want.found);
                        assert(views(missing@) =~= want.missing);
                    }
                    Request::Look {
                        probe: Probe { index, mount, probe_architecture: true, found, missing },
                    }
                }
            },
        }
    }

    /// Takes the driver's answer to the look that [`Detection::next`] asked
    /// for. With a release file the candidate is marked as holding the
    /// operating system and identification ends; without one the next
    /// candidate is due, unless a volume group was mounted, which must hold
    /// the file. When nothing was asked for, nothing changes.
    pub fn answer(&mut self, release: Option<&str>, binary_info: &str)
        requires
            old(self)@.wf(),
        ensures
            final(self)@ == old(self)@.answered(opt_text(release), binary_info@),
            final(self)@.wf(),
    {
        proof {
            assert(self@.partitions.len() == self.partitions.len());
            lemma_answer_keeps_wf(self@, opt_text(release), binary_info@);
        }
        match self.locate() {
            Located::Done { .. } => {},
            Located::Look { index, volumes } => {
                match release {
                    Some(text) => {
                        self.partitions[index].activate_is_os();
                        assert(views(self.partitions@) =~= views(old(self).partitions@).update(
                            index as int,
                            views(old(self).partitions@)[index as int].with_os(),
                        ));
                        self.outcome = Some(Outcome::Detected { index });
                        self.identity = parse_os_release(text);
                        if !volumes {
                            self.architecture = architecture_of(binary_info);
                        }
                    },
                    None => {
                        if volumes {
                            self.outcome = Some(
                                Outcome::Failed { error: DetectionError::ReleaseFileMissing },
                            );
                        } else {
                            self.cursor = index + 1;
                        }
                    },
                }
            },
        }
    }

    /// Ends the identification and hands out what it holds.
    pub fn finish(self) -> (r: (Vec<PartInfo>, DistroNameVersion, Architecture, Option<Outcome>))
        requires
            self@.wf(),
        ensures
            views(r.0@) == self@.partitions,
            r.1@ == self@.identity,
            r.2 == self@.architecture,
            r.3 == self@.result(),
            count_match(views(r.0@), |p: PartInfoView| p.contains_os) <= 1,
            r.3 matches Some(Outcome::Detected { index }) ==> index < r.0.len() && forall|j: int|
                0 <= j < r.0.len() ==> ((#[trigger] views(r.0@)[j]).contains_os <==> j == index),
    {
        proof {
            lemma_at_most_one_os(self@);
        }
        let result = match self.locate() {
            Located::Done { outcome, .. } => Some(outcome),
            Located::Look { .. } => None,
        };
        (self.partitions, self.identity, self.architecture, result)
    }
}

} // verus!
