use alar::action::{
    action_is_among, is_action_available, is_tmux_installed, requested_actions, run_repair_script,
    tmux_query, wants_chroot_cli,
};
use alar::cli::{CliInfo, Initiator};
use alar::distro::Distro;
use alar::global::{get_endpoint, get_ikey, parse_connection_string, ConnectionError, TelemetryConfig};
use alar::helper::{
    download_action_scripts_or, get_recovery_disk_path, get_repair_os_name,
    get_repair_os_version, is_repair_vm_imds, is_root_user, names_repair_source, realpath,
    ConfigurationError,
    ScriptSource,
};
use alar::nvme::{
    device_of_entries, get_nvme_mounts, get_recovery_nvme_disk_path, recovery_disk_among,
    NvmeController, NvmeError,
};
use alar::release::Architecture;
use alar::step::{Step, Task};
use alar::telemetry::{
    create_exception_envelope, create_trace_envelope, OsNameArchitecture, ReportStamp,
    SeverityLevel,
};

fn pair(name: &str, value: &str) -> (String, String) {
    (name.to_string(), value.to_string())
}

fn stamp() -> ReportStamp {
    ReportStamp {
        time: "2024-05-01T10:00:00.000Z".to_string(),
        ikey: "key-1".to_string(),
        sdk_version: "1.2.3".to_string(),
    }
}

fn controller(name: &str, model: &str, disks: &[&str]) -> NvmeController {
    NvmeController {
        name: name.to_string(),
        model: model.to_string(),
        disks: disks.iter().map(|d| d.to_string()).collect(),
    }
}

const HOST_RELEASE: &str = "NAME=\"Red Hat Enterprise Linux\"\nVERSION=\"8.9 (Ootpa)\"\nVERSION_ID=\"8.9\"\nPRETTY_NAME=\"Red Hat Enterprise Linux 8.9 (Ootpa)\"\n";

const MOUNTS: &str = "sysfs /sys sysfs rw 0 0\n/dev/nvme0n1p1 / ext4 rw,relatime 0 0\n/dev/nvme0n1p15 /boot/efi vfat rw,relatime 0 0\n/dev/sdb1 /mnt ext4 rw 0 0\n";

#[test]
fn run_tests() {
    let mut cli_info = CliInfo::default();
    cli_info.actions = "test".to_owned();
    cli_info.initiator = Initiator::Cli;
    let mut distro = Distro::default();
    distro.architecture = Architecture::X86_64;
    let repair_info = OsNameArchitecture::new(distro.architecture, None, None);
    let envelope = create_trace_envelope(
        SeverityLevel::Information,
        "Test message",
        &cli_info,
        &distro,
        &repair_info,
        &stamp(),
    );
    assert_eq!(envelope.name, "Microsoft.ApplicationInsights.Message");
    let envelope = create_exception_envelope(
        SeverityLevel::Error,
        "TestException",
        "Test exception message",
        "Test stack trace",
        &cli_info,
        &distro,
        &repair_info,
        &stamp(),
    );
    assert_eq!(envelope.name, "Microsoft.ApplicationInsights.Exception");
}

#[test]
fn trace_report_says_what_was_done() {
    let mut cli_info = CliInfo::new();
    cli_info.actions = "fstab".to_string();
    cli_info.initiator = Initiator::SelfHelp;
    let mut distro = Distro::default();
    distro.distro_name_version.name = "Ubuntu".to_string();
    distro.distro_name_version.version_id = "22.04".to_string();
    let host = OsNameArchitecture::new(
        Architecture::Aarch64,
        Some("Ubuntu 20.04 LTS".to_string()),
        Some("20.04".to_string()),
    );
    let report = create_trace_envelope(SeverityLevel::Information, "done", &cli_info, &distro, &host, &stamp());
    assert_eq!(report.time, "2024-05-01T10:00:00.000Z");
    assert_eq!(report.iKey, "key-1");
    assert_eq!(report.tags, vec![pair("ai.cloud.role", "ALAR"), pair("ai.internal.sdkVersion", "1.2.3")]);
    assert_eq!(report.data.baseType, "MessageData");
    assert_eq!(report.data.baseData.ver, 2);
    assert_eq!(report.data.baseData.message, "done");
    assert_eq!(report.data.baseData.severityLevel, SeverityLevel::Information);
    assert_eq!(
        report.data.baseData.properties,
        vec![
            pair("Initiator", "SelfHelp"),
            pair("Action", "fstab"),
            pair("Architecture", "aarch64"),
            pair("RepairDistroNameVersion", "Ubuntu 20.04 LTS : 20.04"),
            pair("RecoverDistroNameVersion", "Ubuntu : 22.04"),
        ]
    );
}

#[test]
fn exception_report_says_what_went_wrong() {
    let mut cli_info = CliInfo::new();
    cli_info.actions = "initrd".to_string();
    cli_info.initiator = Initiator::RecoverVm;
    let distro = Distro::default();
    let host = OsNameArchitecture::new(Architecture::X86_64, None, None);
    assert_eq!(host.repair_os_name, "Unknown");
    assert_eq!(host.repair_os_version, "Unknown");
    assert_eq!(host.arch, "x86_64");
    let report = create_exception_envelope(
        SeverityLevel::Warning,
        "ActionNotFound",
        "The action initrd is not available",
        "",
        &cli_info,
        &distro,
        &host,
        &stamp(),
    );
    assert_eq!(
        report.tags,
        vec![
            pair("ai.cloud.role", "ALAR"),
            pair("ai.internal.sdkVersion", "1.2.3"),
            pair("Initiator", "RecoverVm"),
            pair("Action", "initrd"),
        ]
    );
    assert_eq!(report.data.baseType, "ExceptionData");
    assert_eq!(report.data.baseData.ver, 2);
    assert_eq!(report.data.baseData.severityLevel, SeverityLevel::Warning);
    assert_eq!(report.data.baseData.exceptions.len(), 1);
    assert_eq!(report.data.baseData.exceptions[0].typeName, "ActionNotFound");
    assert_eq!(report.data.baseData.exceptions[0].message, "The action initrd is not available");
    assert_eq!(report.data.baseData.exceptions[0].stack, "");
    assert!(report.data.baseData.exceptions[0].hasFullStack);
    assert_eq!(report.data.baseData.properties[3], pair("RepairDistroNameVersion", "Unknown : Unknown"));
    assert_eq!(report.data.baseData.properties[4], pair("RecoverDistroNameVersion", " : "));
}

#[test]
fn connection_string_names_endpoint_and_key() {
    let cs = "InstrumentationKey=abc-123;IngestionEndpoint=https://westeurope.in.example.com/;LiveEndpoint=https://live.example.com/";
    assert_eq!(
        parse_connection_string(cs),
        Ok(("https://westeurope.in.example.com/".to_string(), "abc-123".to_string()))
    );
    assert_eq!(
        parse_connection_string(" ; IKEY = \"k\" ;; "),
        Ok(("https://dc.services.visualstudio.com".to_string(), "k".to_string()))
    );
    assert_eq!(
        parse_connection_string("ikey=a;InstrumentationKey=b=c"),
        Ok(("https://dc.services.visualstudio.com".to_string(), "b=c".to_string()))
    );
    assert_eq!(
        parse_connection_string("ikey"),
        Ok(("https://dc.services.visualstudio.com".to_string(), "".to_string()))
    );
}

#[test]
fn connection_string_without_key_is_refused() {
    assert_eq!(parse_connection_string(""), Err(ConnectionError::MissingInstrumentationKey));
    assert_eq!(
        parse_connection_string("IngestionEndpoint=https://x/"),
        Err(ConnectionError::MissingInstrumentationKey)
    );
    assert_eq!(
        parse_connection_string("\u{212a}ey=1;i\u{212a}ey=2"),
        Err(ConnectionError::MissingInstrumentationKey)
    );
}

#[test]
fn telemetry_configuration_follows_the_connection_string() {
    let config = TelemetryConfig::new("InstrumentationKey=abc;IngestionEndpoint=https://in.example.com//");
    assert_eq!(get_endpoint(&config), "https://in.example.com/v2/track");
    assert_eq!(get_ikey(&config), "abc");
    let legacy = TelemetryConfig::new("ikey=abc");
    assert_eq!(get_endpoint(&legacy), "https://dc.services.visualstudio.com/v2/track");
    let none = TelemetryConfig::new("nothing");
    assert_eq!(get_endpoint(&none), "");
    assert_eq!(get_ikey(&none), "");
}

#[test]
fn disk_under_recovery_is_resolved() {
    let mut cli_info = CliInfo::new();
    assert_eq!(get_recovery_disk_path(&cli_info).program, "readlink");
    assert_eq!(get_recovery_disk_path(&cli_info).args, vec!["-fe", "/dev/disk/azure/scsi1/lun0"]);
    cli_info.custom_recover_disk = "/dev/sdd".to_string();
    assert_eq!(get_recovery_disk_path(&cli_info).args, vec!["-fe", "/dev/sdd"]);
    assert_eq!(realpath("/dev/sdc\n"), Ok("/dev/sdc".to_string()));
    assert_eq!(realpath(""), Err(ConfigurationError::BadDiskPath));
}

#[test]
fn repair_host_is_known_by_its_tags() {
    let tags = vec!["owner".to_string(), "repair_source_vm1".to_string()];
    assert!(names_repair_source(&tags));
    assert!(!names_repair_source(&vec!["owner".to_string(), "repair".to_string()]));
    assert!(!names_repair_source(&vec![]));
}

#[test]
fn metadata_answer_is_read_as_json() {
    let repair = "{\"location\":\"westeurope\",\"tagsList\":[{\"name\":\"owner\",\"value\":\"me\"},{\"name\":\"repair_source\",\"value\":\"vm1\"}]}";
    assert_eq!(is_repair_vm_imds(repair), Some(true));
    let plain = "{\"tagsList\":[{\"name\":\"owner\",\"value\":\"me\"}]}";
    assert_eq!(is_repair_vm_imds(plain), Some(false));
    assert_eq!(is_repair_vm_imds("{\"tagsList\":[]}"), Some(false));
}

#[test]
fn metadata_answer_that_cannot_be_read_gives_no_answer() {
    assert_eq!(is_repair_vm_imds(""), None);
    assert_eq!(is_repair_vm_imds("<html>not found</html>"), None);
    assert_eq!(is_repair_vm_imds("{\"location\":\"westeurope\"}"), None);
    assert_eq!(is_repair_vm_imds("{\"tagsList\":\"repair_source\"}"), None);
    assert_eq!(is_repair_vm_imds("{\"tagsList\":[{\"value\":\"repair_source\"}]}"), None);
    assert_eq!(is_repair_vm_imds("{\"tagsList\":[{\"name\":7}]}"), None);
}

#[test]
fn superuser_is_known_by_its_number() {
    assert!(is_root_user("0\n"));
    assert!(!is_root_user("1000\n"));
    assert!(!is_root_user("00"));
    assert!(!is_root_user(""));
}

#[test]
fn action_scripts_come_from_one_source() {
    let mut cli_info = CliInfo::new();
    assert_eq!(download_action_scripts_or(&cli_info), ScriptSource::Builtin);
    cli_info.local_action_directory = "/opt/actions".to_string();
    assert_eq!(
        download_action_scripts_or(&cli_info),
        ScriptSource::Local { directory: "/opt/actions".to_string() }
    );
    cli_info.download_action_scripts = true;
    assert_eq!(download_action_scripts_or(&cli_info), ScriptSource::Download);
}

#[test]
fn repair_host_release_is_read() {
    assert_eq!(get_repair_os_name(HOST_RELEASE), Some("Red Hat Enterprise Linux 8.9 (Ootpa)".to_string()));
    assert_eq!(get_repair_os_version(HOST_RELEASE), Some("8.9".to_string()));
    assert_eq!(get_repair_os_version("VERSION_ID=VERSION_ID=\"\"7\"\nVERSION_ID=8\n"), Some("7".to_string()));
    assert_eq!(get_repair_os_version(" VERSION_ID=8\n"), None);
    assert_eq!(get_repair_os_name("NAME=x\n"), None);
}

#[test]
fn tmux_is_installed_when_it_answers() {
    assert!(is_tmux_installed(Some("tmux 3.2a\n")));
    assert!(!is_tmux_installed(Some("")));
    assert!(!is_tmux_installed(None));
    assert_eq!(tmux_query().args, vec!["-V"]);
}

#[test]
fn actions_are_found_among_the_files() {
    let files = vec!["fstab-impl.sh".to_string(), "helpers.sh".to_string(), "initrd-impl.sh".to_string()];
    assert!(is_action_available("fstab", &files));
    assert!(is_action_available("FSTAB", &files));
    assert!(is_action_available("Initrd", &files));
    assert!(is_action_available("Chroot-CLI", &vec![]));
    assert!(!is_action_available("kernel", &files));
    assert!(!is_action_available("helpers", &files));
    assert!(!is_action_available("", &files));
    assert!(action_is_among("fstab", &files));
    assert!(!action_is_among("FSTAB", &files));
}

#[test]
fn repair_script_is_run_inside_the_tree() {
    let run = run_repair_script("fstab");
    assert_eq!(
        run.prepare,
        vec![Task {
            step: Step::Run {
                program: "chmod".to_string(),
                args: vec!["500".to_string(), "/tmp/action_implementation/fstab-impl.sh".to_string()],
            },
            required: true,
        }]
    );
    assert_eq!(run.script.program, "chroot");
    assert_eq!(
        run.script.args,
        vec!["/srv/rescue-root/", "/bin/bash", "-c", "/tmp/action_implementation/fstab-impl.sh"]
    );
    assert_eq!(requested_actions("fstab, initrd ,kernel"), vec!["fstab", "initrd", "kernel"]);
    assert_eq!(requested_actions(""), vec![""]);
    assert!(wants_chroot_cli("fstab,chroot-cli"));
    assert!(!wants_chroot_cli("fstab"));
}

#[test]
fn efi_partition_of_the_host_is_found_in_the_mount_table() {
    assert_eq!(get_nvme_mounts(MOUNTS), "/dev/nvme0n1p15");
    assert_eq!(get_nvme_mounts("/dev/sda15 /boot/efi vfat rw 0 0\n"), "");
    assert_eq!(get_nvme_mounts(""), "");
    let twice = "/dev/nvme0n1p15 /boot/efi vfat\n/dev/nvme1n1p15 /mnt/boot/efi vfat\n";
    assert_eq!(get_nvme_mounts(twice), "/dev/nvme1n1p15");
    assert_eq!(device_of_entries(&Some(vec!["a b".to_string(), "c".to_string()])), "c");
    assert_eq!(device_of_entries(&Some(vec![])), "");
    assert_eq!(device_of_entries(&None), "");
}

#[test]
fn disk_under_recovery_is_the_other_disk_of_the_remote_controller() {
    let controllers = vec![
        controller("nvme1", "Microsoft NVMe Direct Disk v2", &["nvme1n1"]),
        controller("nvme0", "MSFT NVMe Accelerator v1.0", &["nvme0n1", "nvme0n2"]),
    ];
    assert_eq!(get_recovery_nvme_disk_path(&controllers, MOUNTS), Ok("/dev/nvme0n2".to_string()));
    assert_eq!(recovery_disk_among(&controllers, "/dev/nvme0n1p15"), Ok("/dev/nvme0n2".to_string()));
}

#[test]
fn disk_under_recovery_must_be_the_only_candidate() {
    let many = vec![controller("nvme0", "MSFT NVMe Accelerator", &["nvme0n1", "nvme0n2", "nvme0n3"])];
    assert_eq!(get_recovery_nvme_disk_path(&many, MOUNTS), Err(NvmeError::SeveralDisks));
    let own = vec![controller("nvme0", "MSFT NVMe Accelerator", &["nvme0n1"])];
    assert_eq!(get_recovery_nvme_disk_path(&own, MOUNTS), Err(NvmeError::NoDisk));
    let local = vec![controller("nvme1", "Microsoft NVMe Direct Disk", &["nvme1n1"])];
    assert_eq!(get_recovery_nvme_disk_path(&local, MOUNTS), Err(NvmeError::NoController));
    assert_eq!(get_recovery_nvme_disk_path(&vec![], MOUNTS), Err(NvmeError::NoController));
    assert_eq!(get_recovery_nvme_disk_path(&many, ""), Err(NvmeError::OsDiskUnknown));
    assert_eq!(recovery_disk_among(&many, "/dev/nvme0"), Err(NvmeError::OsDiskUnknown));
}
