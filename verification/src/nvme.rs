//! Finding the disk under recovery on a host with NVMe controllers.

use crate::constants::DEV;
use crate::lines::{first_index, lemma_first_index_is, strings};
use crate::partition::{first_match, lemma_first_match_is};
use crate::step::views;
use crate::text::{contains, copy_range, from_chars, join2, text_contains, to_chars};
use vstd::prelude::*;

verus! {

/// An NVMe controller with the disks behind it.
#[derive(Debug, Clone, PartialEq, Eq)]
pub struct NvmeController {
    pub name: String,
    pub model: String,
    pub disks: Vec<String>,
}

/// Mathematical form of an [`NvmeController`].
pub struct NvmeControllerView {
    pub name: Seq<char>,
    pub model: Seq<char>,
    pub disks: Seq<Seq<char>>,
}

impl View for NvmeController {
    type V = NvmeControllerView;

    open spec fn view(&self) -> NvmeControllerView {
        NvmeControllerView { name: self.name@, model: self.model@, disks: strings(self.disks@) }
    }
}

/// Why the disk under recovery cannot be found.
#[derive(Debug, Clone, Copy, PartialEq, Eq, Structural)]
pub enum NvmeError {
    /// The mount table names no NVMe partition as the host's EFI partition.
    OsDiskUnknown,
    /// No controller for remote disks is there.
    NoController,
    /// The controller has no disk besides the host's own.
    NoDisk,
    /// The controller has more than one disk besides the host's own, so
    /// that the operator has to name the disk.
    SeveralDisks,
}

/// The pattern of the mount-table entry of the host's EFI partition.
pub const EFI_MOUNT_PATTERN: &'static str = "/dev/nvme.*/boot/efi.*";

/// The model of the controller for local disks, which never holds the
/// disk under recovery.
pub const LOCAL_DISK_MODEL: &'static str = "Microsoft NVMe Direct Disk";

/// The successive non-overlapping matches of a regular expression in a
/// text, from left to right; `None` where the pattern is no regular
/// expression.
///
/// This is what `regex::Regex::new` followed by `Regex::find_iter` gives.
pub uninterp spec fn regex_matches(pattern: Seq<char>, text: Seq<char>) -> Option<Seq<Seq<char>>>;

/// All matches of a pattern in a text.
///
/// Trusted: compiles the pattern with `regex::Regex::new` and collects the
/// text of each match of `Regex::find_iter`. Both depend on pattern and
/// text alone; the contract only names the result.
#[verifier::external_body]
fn find_all(pattern: &str, text: &str) -> (r: Option<Vec<String>>)
    ensures
        match r {
            Some(found) => regex_matches(pattern@, text@) == Some(strings(found@)),
            None => regex_matches(pattern@, text@) is None,
        },
{
    let re = regex::Regex::new(pattern).ok()?;
    Some(re.find_iter(text).map(|m| m.as_str().to_string()).collect())
}

/// The device of a mount-table entry: what stands before its first space.
pub open spec fn entry_device(entry: Seq<char>) -> Seq<char> {
    entry.take(first_index(entry, ' '))
}

/// The device that the matching entries of a mount table name: the last
/// entry decides; the empty text where there is none.
pub open spec fn mounted_nvme_device(entries: Option<Seq<Seq<char>>>) -> Seq<char> {
    match entries {
        Some(found) => if found.len() > 0 {
            entry_device(found.last())
        } else {
            seq![]
        },
        None => seq![],
    }
}

/// Executable [`mounted_nvme_device`].
pub fn device_of_entries(entries: &Option<Vec<String>>) -> (r: String)
    ensures
        r@ == mounted_nvme_device(
            match *entries {
                Some(found) => Some(strings(found@)),
                None => None,
            },
        ),
{
    match entries {
        Some(found) => {
            if found.len() == 0 {
                return String::new();
            }
            let entry = to_chars(found[found.len() - 1].as_str());
            assert(entry@ == strings(found@).last());
            let n: usize = entry.len();
            let mut i: usize = 0;
            while i < n && entry[i] != ' '
                invariant
                    n == entry.len(),
                    i <= n,
                    forall|j: int| 0 <= j < i ==> entry@[j] != ' ',
                decreases n - i,
            {
                i = i + 1;
            }
            proof {
                lemma_first_index_is(entry@, ' ', i as int);
            }
            let device = copy_range(&entry, 0, i);
            assert(device@ == entry@.take(i as int));
            from_chars(&device)
        },
        None => String::new(),
    }
}

/// The NVMe partition that the mount table shows as the host's EFI
/// partition; the empty text where it shows none.
pub fn get_nvme_mounts(mount_table: &str) -> (r: String)
    ensures
        r@ == mounted_nvme_device(regex_matches(EFI_MOUNT_PATTERN@, mount_table@)),
{
    let entries = find_all(EFI_MOUNT_PATTERN, mount_table);
    device_of_entries(&entries)
}

/// The disk of an NVMe partition: the seven characters that follow the
/// device directory. `None` where the device is too short to name one.
pub open spec fn disk_of_partition(device: Seq<char>) -> Option<Seq<char>> {
    if device.len() >= 12 {
        Some(device.subrange(5, 12))
    } else {
        None
    }
}

/// The controller can hold the disk under recovery.
pub open spec fn is_remote(c: NvmeControllerView) -> bool {
    !contains(c.model, LOCAL_DISK_MODEL@)
}

/// Position of the first controller that can hold the disk under recovery.
pub open spec fn remote_controller(controllers: Seq<NvmeControllerView>) -> int {
    first_match(controllers, |c: NvmeControllerView| is_remote(c))
}

/// Finds the first controller that can hold the disk under recovery.
pub fn first_remote_controller(controllers: &Vec<NvmeController>) -> (r: Option<usize>)
    ensures
        match r {
            Some(k) => k < controllers.len() && k == remote_controller(views(controllers@)),
            None => remote_controller(views(controllers@)) == controllers.len(),
        },
{
    let ghost all = views(controllers@);
    let ghost p = |c: NvmeControllerView| is_remote(c);
    let mut i: usize = 0;
    while i < controllers.len()
        invariant
            i <= controllers.len(),
            all == views(controllers@),
            p == |c: NvmeControllerView| is_remote(c),
            forall|j: int| 0 <= j < i ==> !p(#[trigger] all[j]),
        decreases controllers.len() - i,
    {
        if !text_contains(controllers[i].model.as_str(), LOCAL_DISK_MODEL) {
            proof {
                assert(p(all[i as int]));
                lemma_first_match_is(all, p, i as int);
            }
            return Some(i);
        }
        i = i + 1;
    }
    proof {
        lemma_first_match_is(all, p, controllers.len() as int);
    }
    None
}

/// The disks of a controller besides the host's own.
pub open spec fn other_disks(disks: Seq<Seq<char>>, own: Seq<char>) -> Seq<Seq<char>>
    decreases disks.len(),
{
    if disks.len() == 0 {
        seq![]
    } else if disks.last() == own {
        other_disks(disks.drop_last(), own)
    } else {
        other_disks(disks.drop_last(), own).push(disks.last())
    }
}

/// The disk under recovery on a host with NVMe controllers, given the
/// partition that holds the host's own EFI partition. It is the one disk
/// besides the host's own behind the first controller for remote disks.
pub open spec fn recovery_disk(controllers: Seq<NvmeControllerView>, efi_device: Seq<char>)
    -> Result<Seq<char>, NvmeError> {
    let k = remote_controller(controllers);
    match disk_of_partition(efi_device) {
        None => Err(NvmeError::OsDiskUnknown),
        Some(own) => if !(0 <= k < controllers.len()) {
            Err(NvmeError::NoController)
        } else {
            let rest = other_disks(controllers[k].disks, own);
            if rest.len() > 1 {
                Err(NvmeError::SeveralDisks)
            } else if rest.len() == 0 {
                Err(NvmeError::NoDisk)
            } else {
                Ok(DEV@ + rest[0])
            }
        },
    }
}

/// Finds the disk under recovery among the disks of the controllers,
/// given the partition that holds the host's own EFI partition. The
/// controllers are taken in the order in which they are given.
pub fn recovery_disk_among(controllers: &Vec<NvmeController>, efi_device: &str) -> (r: Result<
    String,
    NvmeError,
>)
    ensures
        match r {
            Ok(path) => recovery_disk(views(controllers@), efi_device@) == Ok::<
                Seq<char>,
                NvmeError,
            >(path@),
            Err(e) => recovery_disk(views(controllers@), efi_device@) == Err::<
                Seq<char>,
                NvmeError,
            >(e),
        },
{
    let ghost all = views(controllers@);
    let device = to_chars(efi_device);
    if device.len() < 12 {
        return Err(NvmeError::OsDiskUnknown);
    }
    let own = copy_range(&device, 5, 12);
    let k = match first_remote_controller(controllers) {
        Some(k) => k,
        None => {
            return Err(NvmeError::NoController);
        },
    };
    let c = &controllers[k];
    assert(c@ == all[k as int]);
    let mut rest: Vec<String> = Vec::new();
    let mut i: usize = 0;
    assert(strings(c.disks@).take(0) == Seq::<Seq<char>>::empty());
    assert(strings(rest@) =~= Seq::<Seq<char>>::empty());
    while i < c.disks.len()
        invariant
            i <= c.disks.len(),
            strings(rest@) == other_disks(strings(c.disks@).take(i as int), own@),
        decreases c.disks.len() - i,
    {
        proof {
            let upto = strings(c.disks@).take(i + 1);
            assert(upto.drop_last() == strings(c.disks@).take(i as int));
            assert(upto.last() == c.disks@[i as int]@);
        }
        if !crate::text::spells(&own, c.disks[i].as_str()) {
            let disk = c.disks[i].clone();
            assert(strings(rest@.push(disk)) =~= strings(rest@).push(disk@));
            rest.push(disk);
        }
        i = i + 1;
    }
    assert(strings(c.disks@).take(c.disks.len() as int) == strings(c.disks@));
    if rest.len() > 1 {
        Err(NvmeError::SeveralDisks)
    } else if rest.len() == 0 {
        Err(NvmeError::NoDisk)
    } else {
        assert(strings(rest@)[0] == rest@[0]@);
        Ok(join2(DEV, rest[0].as_str()))
    }
}

/// Finds the disk under recovery on a host with NVMe controllers.
/// `controllers` are the controllers of the host with their models and
/// disks, in the order of their names; `mount_table` is the text of the
/// host's mount table.
pub fn get_recovery_nvme_disk_path(controllers: &Vec<NvmeController>, mount_table: &str) -> (r:
    Result<String, NvmeError>)
    ensures
        match r {
            Ok(path) => recovery_disk(
                views(controllers@),
                mounted_nvme_device(regex_matches(EFI_MOUNT_PATTERN@, mount_table@)),
            ) == Ok::<Seq<char>, NvmeError>(path@),
            Err(e) => recovery_disk(
                views(controllers@),
                mounted_nvme_device(regex_matches(EFI_MOUNT_PATTERN@, mount_table@)),
            ) == Err::<Seq<char>, NvmeError>(e),
        },
{
    let efi = get_nvme_mounts(mount_table);
    recovery_disk_among(controllers, efi.as_str())
}

} // verus!
