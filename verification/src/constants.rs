//! Fixed paths, names and codes of the recovery environment.

use vstd::prelude::*;

verus! {

/// Where the platform links the disk under recovery.
pub const RESCUE_DISK: &'static str = "/dev/disk/azure/scsi1/lun0";

/// Mount point of the key device.
pub const RESCUE_BEK: &'static str = "/srv/rescue-bek/";

/// Mount point of the boot partition while a volume is unlocked.
pub const RESCUE_BEK_BOOT: &'static str = "/srv/rescue-bek-boot";

/// The passphrase file on the key device.
pub const RESCUE_BEK_LINUX_PASS_PHRASE_FILE_NAME: &'static str =
    "/srv/rescue-bek/LinuxPassPhraseFileName";

/// The private temporary passphrase file.
pub const RESCUE_TMP_LINUX_PASS_PHRASE_FILE_NAME: &'static str = "/tmp/LinuxPassPhraseFileName";

/// Scratch mount point used while a partition is probed.
pub const ASSERT_PATH: &'static str = "/tmp/assert";

/// Scratch mount point of the `/usr` volume while a volume group is probed.
pub const ASSERT_PATH_USR: &'static str = "/tmp/assert/usr";

/// The release-metadata file below the scratch mount point.
pub const OS_RELEASE: &'static str = "/tmp/assert/etc/os-release";

/// The system binary whose layout tells the architecture.
pub const ASSERT_BASH: &'static str = "/tmp/assert/bin/bash";

/// The mapper device of an unlocked volume.
pub const ADE_OSENCRYPT_PATH: &'static str = "/dev/mapper/rescueencrypt";

/// Name of the mapping that the unlock creates.
pub const RESCUE_ENCRYPT: &'static str = "rescueencrypt";

/// Mount point on which the platform may have attached the volume itself.
pub const INVESTIGATEROOT_DIR: &'static str = "/investigateroot";

/// The canonical volume-group name.
pub const RESCUE_ROOTVG: &'static str = "rootvg";

/// Root volume of an imported group.
pub const ROOTVG_ROOTLV: &'static str = "/dev/rootvg/rootlv";

/// `/usr` volume of an imported group.
pub const ROOTVG_USRLV: &'static str = "/dev/rootvg/usrlv";

/// `/usr` volume of an imported group on an unlocked volume.
pub const RESCUE_ADE_USRLV: &'static str = "/dev/rootvg/usrlv";

/// Root volume of an imported group on an unlocked volume.
pub const RESCUE_ADE_ROOTLV: &'static str = "/dev/rootvg/rootlv";

/// Root of the assembled tree.
pub const RESCUE_ROOT: &'static str = "/srv/rescue-root/";

/// Mount point of the boot partition in the assembled tree.
pub const RESCUE_ROOT_BOOT: &'static str = "/srv/rescue-root/boot";

/// Mount point of the EFI partition in the assembled tree.
pub const RESCUE_ROOT_BOOT_EFI: &'static str = "/srv/rescue-root/boot/efi";

/// Directory that holds the repair actions.
pub const ACTION_IMPL_DIR: &'static str = "/tmp/action_implementation";

/// Name of the interactive action.
pub const CHROOT_CLI: &'static str = "chroot-cli";

/// Archive of the repair actions.
pub const TARBALL: &'static str = "https://github.com/Azure/ALAR/tarball/master";

/// Filesystem sentinel of a partition without a recognizable signature,
/// which is taken to be encrypted.
pub const UNRESOLVED: &'static str = "crypt?";

/// Partition-type code: EFI system.
pub const TYPE_EFI: &'static str = "EF00";

/// Partition-type code: BIOS boot.
pub const TYPE_BIOS_BOOT: &'static str = "EF02";

/// Partition-type code: LVM physical volume.
pub const TYPE_LVM: &'static str = "8E00";

/// Partition-type code: Linux filesystem.
pub const TYPE_LINUX: &'static str = "8300";

/// Filesystem name of an LVM physical volume.
pub const FS_LVM: &'static str = "LVM2_member";

/// Filesystem name: XFS.
pub const FS_XFS: &'static str = "xfs";

/// Mount option that lets two filesystems with one UUID be mounted.
pub const OPTION_NOUUID: &'static str = "nouuid";

/// Device directory.
pub const DEV: &'static str = "/dev/";

/// Directory of the device-mapper nodes.
pub const DEV_MAPPER: &'static str = "/dev/mapper/";

} // verus!
