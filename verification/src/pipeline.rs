//! The order of the stages of a recovery.
//!
//! A recovery passes through its stages once, from the scan to the
//! teardown. Which stage follows depends on what the scan found and on
//! whether the stage succeeded; it never depends on anything else, and no
//! stage is entered a second time.

use crate::partition::{any_match, PartInfo, PartInfoView};
use crate::step::views;
use vstd::prelude::*;

verus! {

/// A stage of a recovery.
#[derive(Debug, Clone, Copy, PartialEq, Eq, Structural)]
pub enum Stage {
    /// The partition table and the filesystem signatures are read.
    Scan,
    /// The encrypted volume is unlocked.
    Unlock,
    /// Volume groups are imported and logical volumes are listed.
    Volumes,
    /// The partition that holds the operating system is looked for.
    Identify,
    /// The tree is assembled.
    Mount,
    /// The repair actions run.
    Repair,
    /// The tree is taken down and the repair host is put right.
    Teardown,
    /// Nothing is left to do.
    Done,
}

/// What the scan found, as far as the order of the stages depends on it.
#[derive(Debug, Clone, Copy, PartialEq, Eq, Structural)]
pub struct Findings {
    /// A partition is unresolved: the disk is taken to be encrypted.
    pub encrypted: bool,
    /// Logical volumes are to be resolved: on a disk that is not
    /// encrypted, a partition is an LVM physical volume; on an encrypted
    /// disk, an unresolved partition is one.
    pub has_lvm: bool,
}

/// The partition has logical volumes to resolve.
pub open spec fn needs_volumes(p: PartInfoView, encrypted: bool) -> bool {
    p.is_lvm() && (encrypted ==> p.is_unresolved())
}

/// What a partition list means for the order of the stages.
pub open spec fn findings(parts: Seq<PartInfoView>) -> Findings {
    let encrypted = any_match(parts, |p: PartInfoView| p.is_unresolved());
    Findings {
        encrypted,
        has_lvm: any_match(parts, |p: PartInfoView| needs_volumes(p, encrypted)),
    }
}

/// Executable [`findings`].
pub fn survey(partitions: &Vec<PartInfo>) -> (r: Findings)
    ensures
        r == findings(views(partitions@)),
{
    let encrypted = crate::distro::Distro::is_fs_crypt_detected(partitions);
    let mut i: usize = 0;
    while i < partitions.len()
        invariant
            i <= partitions.len(),
            encrypted == any_match(views(partitions@), |p: PartInfoView| p.is_unresolved()),
            forall|j: int|
                0 <= j < i ==> !needs_volumes(#[trigger] views(partitions@)[j], encrypted),
        decreases partitions.len() - i,
    {
        let p = &partitions[i];
        if p.is_lvm() && (!encrypted || p.is_unresolved()) {
            assert(needs_volumes(views(partitions@)[i as int], encrypted));
            return Findings { encrypted, has_lvm: true };
        }
        i = i + 1;
    }
    Findings { encrypted, has_lvm: false }
}

/// Position of a stage in the order of a recovery.
pub open spec fn rank(stage: Stage) -> int {
    match stage {
        Stage::Scan => 0,
        Stage::Unlock => 1,
        Stage::Volumes => 2,
        Stage::Identify => 3,
        Stage::Mount => 4,
        Stage::Repair => 5,
        Stage::Teardown => 6,
        Stage::Done => 7,
    }
}

/// The stage after the volumes have been dealt with, or need not be.
pub open spec fn after_unlock(found: Findings) -> Stage {
    if found.has_lvm {
        Stage::Volumes
    } else {
        Stage::Identify
    }
}

/// The stage that follows a stage. A failed scan or a failed unlock ends
/// the recovery, since neither leaves anything behind: the unlock undoes
/// itself. Every later stage is followed by the teardown when it fails,
/// and the repair actions are followed by it in any case.
pub open spec fn following(stage: Stage, found: Findings, succeeded: bool) -> Stage {
    match stage {
        Stage::Scan => if !succeeded {
            Stage::Done
        } else if found.encrypted {
            Stage::Unlock
        } else {
            after_unlock(found)
        },
        Stage::Unlock => if succeeded {
            after_unlock(found)
        } else {
            Stage::Done
        },
        Stage::Volumes => if succeeded {
            Stage::Identify
        } else {
            Stage::Teardown
        },
        Stage::Identify => if succeeded {
            Stage::Mount
        } else {
            Stage::Teardown
        },
        Stage::Mount => if succeeded {
            Stage::Repair
        } else {
            Stage::Teardown
        },
        Stage::Repair => Stage::Teardown,
        Stage::Teardown => Stage::Done,
        Stage::Done => Stage::Done,
    }
}

/// Executable [`following`].
pub fn next_stage(stage: Stage, found: Findings, succeeded: bool) -> (r: Stage)
    ensures
        r == following(stage, found, succeeded),
{
    let resume = if found.has_lvm {
        Stage::Volumes
    } else {
        Stage::Identify
    };
    match stage {
        Stage::Scan => {
            if !succeeded {
                Stage::Done
            } else if found.encrypted {
                Stage::Unlock
            } else {
                resume
            }
        },
        Stage::Unlock => {
            if succeeded {
                resume
            } else {
                Stage::Done
            }
        },
        Stage::Volumes => {
            if succeeded {
                Stage::Identify
            } else {
                Stage::Teardown
            }
        },
        Stage::Identify => {
            if succeeded {
                Stage::Mount
            } else {
                Stage::Teardown
            }
        },
        Stage::Mount => {
            if succeeded {
                Stage::Repair
            } else {
                Stage::Teardown
            }
        },
        Stage::Repair => Stage::Teardown,
        Stage::Teardown => Stage::Done,
        Stage::Done => Stage::Done,
    }
}

/// No stage is entered a second time: the stage that follows a stage lies
/// further on in the order of a recovery, until nothing is left to do.
pub proof fn lemma_no_stage_is_reentered(stage: Stage, found: Findings, succeeded: bool)
    ensures
        stage != Stage::Done ==> rank(stage) < rank(following(stage, found, succeeded)),
        stage == Stage::Done ==> following(stage, found, succeeded) == Stage::Done,
{
}

/// The unlock is entered only for an encrypted disk, and the volumes only
/// where there are volumes to resolve.
pub proof fn lemma_stages_follow_the_findings(stage: Stage, found: Findings, succeeded: bool)
    ensures
        following(stage, found, succeeded) == Stage::Unlock ==> found.encrypted && stage
            == Stage::Scan,
        following(stage, found, succeeded) == Stage::Volumes ==> found.has_lvm,
        stage == Stage::Scan && succeeded && found.encrypted ==> following(
            stage,
            found,
            succeeded,
        ) == Stage::Unlock,
{
}

/// Once something on the repair host may have been changed, the teardown
/// is never passed over: from the stage of the volumes on, no stage is
/// followed by the end of the recovery, except the teardown itself.
pub proof fn lemma_teardown_is_not_passed_over(stage: Stage, found: Findings, succeeded: bool)
    ensures
        rank(Stage::Volumes) <= rank(stage) < rank(Stage::Teardown) ==> following(
            stage,
            found,
            succeeded,
        ) != Stage::Done,
        following(stage, found, succeeded) == Stage::Done ==> stage == Stage::Done || stage
            == Stage::Teardown || (!succeeded && (stage == Stage::Scan || stage == Stage::Unlock)),
{
}

} // verus!
