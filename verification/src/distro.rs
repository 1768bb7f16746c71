//! The disk under recovery as a whole: its partitions, the distribution
//! found on it, and how it is laid out.

use crate::cli::{blank_cli, CliInfo, CliInfoView};
use crate::detect::{Detection, DetectionError, Outcome};
use crate::lines::{lines, split_lines, texts};
use crate::partition::{any_match, PartInfo, PartInfoView};
use crate::release::{Architecture, DistroNameVersion, DistroNameVersionView};
use crate::scan::{mapper_fstype, opt_text};
use crate::step::{command, views, Command, CommandView};
use crate::text::{begins_with, contains, holds, starts_with, to_chars, trim, trimmed};
use crate::volumes::resolved;
use vstd::prelude::*;

verus! {

/// Family of a distribution.
#[derive(Debug, Clone, Copy, PartialEq, Eq, Structural)]
pub enum DistroType {
    Debian,
    Suse,
    RedHat,
    Ubuntu,
    AzureLinux,
    Undefined,
}

impl DistroType {
    /// How the family is written.
    pub open spec fn label(self) -> Seq<char> {
        match self {
            DistroType::Debian => "Debian"@,
            DistroType::Suse => "Suse"@,
            DistroType::RedHat => "RedHat"@,
            DistroType::Ubuntu => "Ubuntu"@,
            DistroType::AzureLinux => "AzureLinux"@,
            DistroType::Undefined => "Undefined"@,
        }
    }

    /// Executable [`DistroType::label`].
    pub fn name(&self) -> (r: &'static str)
        ensures
            r@ == self.label(),
    {
        match self {
            DistroType::Debian => "Debian",
            DistroType::Suse => "Suse",
            DistroType::RedHat => "RedHat",
            DistroType::Ubuntu => "Ubuntu",
            DistroType::AzureLinux => "AzureLinux",
            DistroType::Undefined => "Undefined",
        }
    }
}

impl Default for DistroType {
    fn default() -> (r: Self)
        ensures
            r == DistroType::Undefined,
    {
        DistroType::Undefined
    }
}

/// Member of a family that needs its own treatment.
#[derive(Debug, Clone, Copy, PartialEq, Eq, Structural)]
pub enum DistroSubType {
    CentOS,
    AlmaLinux,
    RockyLinux,
    OracleLinux,
    /// The family itself, without a subtype.
    Plain,
}

impl DistroSubType {
    /// How the subtype is written.
    pub open spec fn label(self) -> Seq<char> {
        match self {
            DistroSubType::CentOS => "CentOS"@,
            DistroSubType::AlmaLinux => "AlmaLinux"@,
            DistroSubType::RockyLinux => "RockyLinux"@,
            DistroSubType::OracleLinux => "OracleLinux"@,
            DistroSubType::Plain => "None"@,
        }
    }

    /// Executable [`DistroSubType::label`].
    pub fn name(&self) -> (r: &'static str)
        ensures
            r@ == self.label(),
    {
        match self {
            DistroSubType::CentOS => "CentOS",
            DistroSubType::AlmaLinux => "AlmaLinux",
            DistroSubType::RockyLinux => "RockyLinux",
            DistroSubType::OracleLinux => "OracleLinux",
            DistroSubType::Plain => "None",
        }
    }
}

impl Default for DistroSubType {
    fn default() -> (r: Self)
        ensures
            r == DistroSubType::Plain,
    {
        DistroSubType::Plain
    }
}

/// Family and subtype of a distribution, derived from its name.
#[derive(Debug, Clone, Copy, PartialEq, Eq, Structural)]
pub struct DistroKind {
    pub distro_type: DistroType,
    pub distro_subtype: DistroSubType,
}

/// Everything that is known about the disk under recovery.
#[derive(Debug, PartialEq, Eq)]
pub struct Distro {
    pub partitions: Vec<PartInfo>,
    pub distro_name_version: DistroNameVersion,
    pub cli_info: CliInfo,
    /// The disk is encrypted and was unlocked.
    pub is_ade: bool,
    /// The operating system lives on logical volumes.
    pub is_lvm: bool,
    pub architecture: Architecture,
}

/// Mathematical form of a [`Distro`].
pub struct DistroView {
    pub partitions: Seq<PartInfoView>,
    pub distro_name_version: DistroNameVersionView,
    pub cli_info: CliInfoView,
    pub is_ade: bool,
    pub is_lvm: bool,
    pub architecture: Architecture,
}

impl View for Distro {
    type V = DistroView;

    open spec fn view(&self) -> DistroView {
        DistroView {
            partitions: views(self.partitions@),
            distro_name_version: self.distro_name_version@,
            cli_info: self.cli_info@,
            is_ade: self.is_ade,
            is_lvm: self.is_lvm,
            architecture: self.architecture,
        }
    }
}

/// A disk of which nothing is known yet.
pub open spec fn blank_distro() -> DistroView {
    DistroView {
        partitions: seq![],
        distro_name_version: DistroNameVersionView { name: seq![], version_id: seq![] },
        cli_info: blank_cli(),
        is_ade: false,
        is_lvm: false,
        architecture: Architecture::X86_64,
    }
}

impl Default for Distro {
    fn default() -> (r: Self)
        ensures
            r@ == blank_distro(),
    {
        let r = Distro {
            partitions: Vec::new(),
            distro_name_version: DistroNameVersion::unknown(),
            cli_info: CliInfo::new(),
            is_ade: false,
            is_lvm: false,
            architecture: Architecture::X86_64,
        };
        assert(r@.partitions =~= Seq::<PartInfoView>::empty());
        r
    }
}

/// Why no [`Distro`] could be assembled.
#[derive(Debug, Clone, Copy, PartialEq, Eq, Structural)]
pub enum DistroError {
    /// Identification has not ended: a look is still to be made.
    Unfinished,
    /// No partition holds a release file: this is no system disk.
    NoOsPartition,
    /// Identification was given up.
    Detection { error: DetectionError },
}

/// The error that stands for the way an identification ended, if it did
/// not end with a detected system.
pub open spec fn failure_of(result: Option<Outcome>) -> Option<DistroError> {
    match result {
        None => Some(DistroError::Unfinished),
        Some(Outcome::NoOsPartition) => Some(DistroError::NoOsPartition),
        Some(Outcome::Failed { error }) => Some(DistroError::Detection { error }),
        Some(Outcome::Detected { .. }) => None,
    }
}

/// A line of the mount table shows a `/usr` that lives on the device mapper.
pub open spec fn is_mapped_usr(line: Seq<char>) -> bool {
    contains(line, "mapper"@) && contains(line, "usr"@)
}

/// The mount table of the repair host shows that the host itself runs on
/// logical volumes.
pub open spec fn host_uses_lvm(mount_table: Seq<char>) -> bool {
    any_match(lines(mount_table), |line: Seq<char>| is_mapped_usr(line))
}

/// A release of the repair host that can take a second volume group: one
/// of the two major versions 7 and 8.
pub open spec fn is_lvm_capable_version(version: Seq<char>) -> bool {
    starts_with(trim(version), "7."@) || starts_with(trim(version), "8."@)
}

/// Whether a repair host may take a disk with logical volumes. A host that
/// does not run on logical volumes itself always may; one that does only
/// when its release is known and capable.
pub open spec fn lvm_allowed(host_on_lvm: bool, host_version: Option<Seq<char>>) -> bool {
    if host_on_lvm {
        match host_version {
            Some(version) => is_lvm_capable_version(version),
            None => false,
        }
    } else {
        true
    }
}

/// Some partition has its logical volumes recorded.
pub open spec fn has_volumes(parts: Seq<PartInfoView>) -> bool {
    any_match(parts, |p: PartInfoView| p.logical_volumes is Some)
}

impl Distro {
    /// The query that prints the mount table of the repair host.
    pub fn mount_table_query() -> (c: Command)
        ensures
            c@ == (CommandView { program: "findmnt"@, args: seq![] }),
    {
        let args: Vec<String> = Vec::new();
        assert(crate::lines::strings(args@) =~= Seq::<Seq<char>>::empty());
        command("findmnt", args)
    }

    /// Whether the repair host itself runs on logical volumes, judged by its
    /// mount table.
    pub fn is_lvm_on_repair_disk(mount_table: &str) -> (r: bool)
        ensures
            r == host_uses_lvm(mount_table@),
    {
        let file = split_lines(&to_chars(mount_table));
        let mapper = to_chars("mapper");
        let usr = to_chars("usr");
        let mut i: usize = 0;
        while i < file.len()
            invariant
                i <= file.len(),
                texts(file@) == lines(mount_table@),
                mapper@ == "mapper"@,
                usr@ == "usr"@,
                forall|j: int| 0 <= j < i ==> !is_mapped_usr(#[trigger] texts(file@)[j]),
            decreases file.len() - i,
        {
            if holds(&file[i], &mapper) && holds(&file[i], &usr) {
                assert(is_mapped_usr(texts(file@)[i as int]));
                return true;
            }
            i = i + 1;
        }
        false
    }

    /// Whether the repair host may take a disk with logical volumes.
    /// `host_version` is the version that the host's own release file
    /// gives, or `None` where it gives none.
    pub fn is_repairvm_with_lvm_allowed(host_on_lvm: bool, host_version: Option<&str>) -> (r: bool)
        ensures
            r == lvm_allowed(host_on_lvm, opt_text(host_version)),
    {
        if !host_on_lvm {
            return true;
        }
        match host_version {
            Some(version) => {
                let v = trimmed(&to_chars(version));
                begins_with(&v, &to_chars("7.")) || begins_with(&v, &to_chars("8."))
            },
            None => false,
        }
    }

    /// Assembles what is known about the disk once identification has ended.
    ///
    /// Succeeds exactly when a system was detected. The disk counts as
    /// encrypted exactly when the identification ran on an unlocked disk.
    /// Every partition that was still unresolved has the filesystem of the
    /// unlocked volume, so that none is unresolved any more, and exactly
    /// one partition is marked as holding the operating system.
    pub fn new(cli_info: &CliInfo, detection: Detection, mapper_probe: Option<&str>) -> (r: Result<
        Distro,
        DistroError,
    >)
        requires
            detection@.wf(),
        ensures
            match failure_of(detection@.result()) {
                Some(e) => r == Err::<Distro, DistroError>(e),
                None => r is Ok && ({
                    let d = r->Ok_0@;
                    &&& d.partitions.len() == detection@.partitions.len()
                    &&& forall|i: int|
                        0 <= i < d.partitions.len() ==> (#[trigger] d.partitions[i]) == resolved(
                            detection@.partitions[i],
                            mapper_fstype(opt_text(mapper_probe)),
                        )
                    &&& d.distro_name_version == detection@.identity
                    &&& d.architecture == detection@.architecture
                    &&& d.cli_info == cli_info@
                    &&& d.is_ade == detection@.context.is_ade
                    &&& d.is_lvm == has_volumes(detection@.partitions)
                    &&& forall|i: int|
                        0 <= i < d.partitions.len() ==> !(#[trigger] d.partitions[i]).is_unresolved()
                    &&& forall|i: int|
                        0 <= i < d.partitions.len() ==> ((#[trigger] d.partitions[i]).contains_os
                            <==> Some(Outcome::Detected { index: i as usize })
                            == detection@.result())
                }),
            },
    {
        let is_ade = detection.is_ade();
        let (mut partitions, identity, architecture, result) = detection.finish();
        match result {
            None => {
                return Err(DistroError::Unfinished);
            },
            Some(Outcome::NoOsPartition) => {
                return Err(DistroError::NoOsPartition);
            },
            Some(Outcome::Failed { error }) => {
                return Err(DistroError::Detection { error });
            },
            Some(Outcome::Detected { .. }) => {},
        }
        let is_lvm = Self::has_logical_volumes(&partitions);
        Self::ade_set_no_lvm_partiton_fs(&mut partitions, mapper_probe);
        Ok(
            Distro {
                partitions,
                distro_name_version: identity,
                cli_info: cli_info.clone(),
                is_ade,
                is_lvm,
                architecture,
            },
        )
    }

    /// Whether some partition has its logical volumes recorded.
    pub fn has_logical_volumes(partitions: &Vec<PartInfo>) -> (r: bool)
        ensures
            r == has_volumes(views(partitions@)),
    {
        let mut i: usize = 0;
        while i < partitions.len()
            invariant
                i <= partitions.len(),
                forall|j: int|
                    0 <= j < i ==> (#[trigger] views(partitions@)[j]).logical_volumes is None,
            decreases partitions.len() - i,
        {
            if partitions[i].logical_volumes.is_some() {
                assert(views(partitions@)[i as int].logical_volumes is Some);
                return true;
            }
            i = i + 1;
        }
        false
    }

    /// Records whether the disk is encrypted.
    pub fn set_is_ade(&mut self, is_ade: bool)
        ensures
            final(self)@ == (DistroView { is_ade, ..old(self)@ }),
    {
        self.is_ade = is_ade;
    }

    /// Whether any partition is still unresolved, which is taken to mean
    /// that the disk is encrypted.
    pub fn is_fs_crypt_detected(partitions: &Vec<PartInfo>) -> (r: bool)
        ensures
            r == any_match(views(partitions@), |p: PartInfoView| p.is_unresolved()),
    {
        let mut i: usize = 0;
        while i < partitions.len()
            invariant
                i <= partitions.len(),
                forall|j: int| 0 <= j < i ==> !(#[trigger] views(partitions@)[j]).is_unresolved(),
            decreases partitions.len() - i,
        {
            if partitions[i].is_unresolved() {
                assert(views(partitions@)[i as int].is_unresolved());
                return true;
            }
            i = i + 1;
        }
        false
    }
}

} // verus!
