//! Reports to the telemetry service: what a trace and an exception say.

use crate::cli::{CliInfo, CliInfoView, Initiator};
use crate::distro::{Distro, DistroView};
use crate::release::Architecture;
use crate::text::join3;
use vstd::prelude::*;

verus! {

/// How grave a report is.
#[derive(Debug, Clone, Copy, PartialEq, Eq, Structural)]
pub enum SeverityLevel {
    Verbose,
    Information,
    Warning,
    Error,
    Critical,
}

/// What an exception report says.
#[derive(Debug, PartialEq, Eq)]
#[allow(non_snake_case)]
pub struct ExceptionBaseData {
    pub ver: u8,
    pub exceptions: Vec<Exceptions>,
    pub severityLevel: SeverityLevel,
    pub properties: Vec<(String, String)>,
}

/// What a trace report says.
#[derive(Debug, PartialEq, Eq)]
#[allow(non_snake_case)]
pub struct TraceBaseData {
    pub ver: u8,
    pub message: String,
    pub severityLevel: SeverityLevel,
    pub properties: Vec<(String, String)>,
}

/// One exception of an exception report.
#[derive(Debug, PartialEq, Eq)]
#[allow(non_snake_case)]
pub struct Exceptions {
    pub typeName: String,
    pub message: String,
    pub stack: String,
    pub hasFullStack: bool,
}

/// The payload of a trace report.
#[derive(Debug, PartialEq, Eq)]
#[allow(non_snake_case)]
pub struct TraceBase {
    pub baseType: String,
    pub baseData: TraceBaseData,
}

/// The payload of an exception report.
#[derive(Debug, PartialEq, Eq)]
#[allow(non_snake_case)]
pub struct ExceptionBase {
    pub baseType: String,
    pub baseData: ExceptionBaseData,
}

/// A trace report.
#[derive(Debug, PartialEq, Eq)]
#[allow(non_snake_case)]
pub struct TraceEnvelope {
    pub name: String,
    pub time: String,
    pub iKey: String,
    pub tags: Vec<(String, String)>,
    pub data: TraceBase,
}

/// An exception report.
#[derive(Debug, PartialEq, Eq)]
#[allow(non_snake_case)]
pub struct ExceptionEnvelope {
    pub name: String,
    pub time: String,
    pub iKey: String,
    pub tags: Vec<(String, String)>,
    pub data: ExceptionBase,
}

/// The repair host, as reports describe it.
#[derive(Debug, PartialEq, Eq)]
pub struct OsNameArchitecture {
    pub repair_os_name: String,
    pub repair_os_version: String,
    pub arch: String,
}

/// The text of an optional string, or "Unknown".
pub open spec fn or_unknown(o: Option<String>) -> Seq<char> {
    match o {
        Some(s) => s@,
        None => "Unknown"@,
    }
}

impl OsNameArchitecture {
    /// Describes the repair host. Name and version are what its release
    /// file gives, or "Unknown" where it gives none.
    pub fn new(
        architecture: Architecture,
        repair_os_name: Option<String>,
        repair_os_version: Option<String>,
    ) -> (r: Self)
        ensures
            r.repair_os_name@ == or_unknown(repair_os_name),
            r.repair_os_version@ == or_unknown(repair_os_version),
            r.arch@ == architecture.label(),
    {
        let repair_os_name = match repair_os_name {
            Some(name) => name,
            None => "Unknown".to_owned(),
        };
        let repair_os_version = match repair_os_version {
            Some(version) => version,
            None => "Unknown".to_owned(),
        };
        OsNameArchitecture { repair_os_name, repair_os_version, arch: architecture.name().to_owned() }
    }
}

/// The texts of a list of pairs.
pub open spec fn pairs(v: Seq<(String, String)>) -> Seq<(Seq<char>, Seq<char>)> {
    Seq::new(v.len(), |i: int| (v[i].0@, v[i].1@))
}

/// The version of the report format.
pub const REPORT_VERSION: u8 = 2;

/// What every report says about the run.
pub open spec fn report_properties(
    cli: CliInfoView,
    d: DistroView,
    host_name: Seq<char>,
    host_version: Seq<char>,
    arch: Seq<char>,
) -> Seq<(Seq<char>, Seq<char>)> {
    seq![
        ("Initiator"@, cli.initiator.label()),
        ("Action"@, cli.actions),
        ("Architecture"@, arch),
        ("RepairDistroNameVersion"@, host_name + " : "@ + host_version),
        (
            "RecoverDistroNameVersion"@,
            d.distro_name_version.name + " : "@ + d.distro_name_version.version_id,
        ),
    ]
}

/// The tags of a trace report.
pub open spec fn trace_tags(sdk_version: Seq<char>) -> Seq<(Seq<char>, Seq<char>)> {
    seq![("ai.cloud.role"@, "ALAR"@), ("ai.internal.sdkVersion"@, sdk_version)]
}

/// The tags of an exception report.
pub open spec fn exception_tags(cli: CliInfoView, sdk_version: Seq<char>) -> Seq<
    (Seq<char>, Seq<char>),
> {
    trace_tags(sdk_version) + seq![
        ("Initiator"@, cli.initiator.label()),
        ("Action"@, cli.actions),
    ]
}

fn push_pair(list: &mut Vec<(String, String)>, name: &str, value: &str)
    ensures
        pairs(final(list)@) == pairs(old(list)@).push((name@, value@)),
{
    list.push((name.to_owned(), value.to_owned()));
    assert(pairs(list@) =~= pairs(old(list)@).push((name@, value@)));
}

fn properties_of(cli_info: &CliInfo, distro: &Distro, repair_info: &OsNameArchitecture) -> (r: Vec<
    (String, String),
>)
    ensures
        pairs(r@) == report_properties(
            cli_info@,
            distro@,
            repair_info.repair_os_name@,
            repair_info.repair_os_version@,
            repair_info.arch@,
        ),
{
    let mut list: Vec<(String, String)> = Vec::new();
    assert(pairs(list@) =~= Seq::<(Seq<char>, Seq<char>)>::empty());
    push_pair(&mut list, "Initiator", cli_info.initiator.name());
    push_pair(&mut list, "Action", cli_info.actions.as_str());
    push_pair(&mut list, "Architecture", repair_info.arch.as_str());
    let host = join3(
        repair_info.repair_os_name.as_str(),
        " : ",
        repair_info.repair_os_version.as_str(),
    );
    push_pair(&mut list, "RepairDistroNameVersion", host.as_str());
    let disk = join3(
        distro.distro_name_version.name.as_str(),
        " : ",
        distro.distro_name_version.version_id.as_str(),
    );
    push_pair(&mut list, "RecoverDistroNameVersion", disk.as_str());
    assert(pairs(list@) =~= report_properties(
        cli_info@,
        distro@,
        repair_info.repair_os_name@,
        repair_info.repair_os_version@,
        repair_info.arch@,
    ));
    list
}

/// What is outside a report's own content: when it was made, under which
/// key it is sent, and by which version of the tool.
#[derive(Debug, PartialEq, Eq)]
pub struct ReportStamp {
    pub time: String,
    pub ikey: String,
    pub sdk_version: String,
}

/// Builds an exception report.
pub fn create_exception_envelope(
    severity_level: SeverityLevel,
    kind_name: &str,
    message: &str,
    stack: &str,
    cli_info: &CliInfo,
    distro: &Distro,
    repair_info: &OsNameArchitecture,
    stamp: &ReportStamp,
) -> (r: ExceptionEnvelope)
    ensures
        r.name@ == "Microsoft.ApplicationInsights.Exception"@,
        r.time@ == stamp.time@,
        r.iKey@ == stamp.ikey@,
        pairs(r.tags@) == exception_tags(cli_info@, stamp.sdk_version@),
        r.data.baseType@ == "ExceptionData"@,
        r.data.baseData.ver == REPORT_VERSION,
        r.data.baseData.severityLevel == severity_level,
        r.data.baseData.exceptions.len() == 1,
        r.data.baseData.exceptions[0].typeName@ == kind_name@,
        r.data.baseData.exceptions[0].message@ == message@,
        r.data.baseData.exceptions[0].stack@ == stack@,
        r.data.baseData.exceptions[0].hasFullStack,
        pairs(r.data.baseData.properties@) == report_properties(
            cli_info@,
            distro@,
            repair_info.repair_os_name@,
            repair_info.repair_os_version@,
            repair_info.arch@,
        ),
{
    let properties = properties_of(cli_info, distro, repair_info);
    let mut tags: Vec<(String, String)> = Vec::new();
    assert(pairs(tags@) =~= Seq::<(Seq<char>, Seq<char>)>::empty());
    push_pair(&mut tags, "ai.cloud.role", "ALAR");
    push_pair(&mut tags, "ai.internal.sdkVersion", stamp.sdk_version.as_str());
    push_pair(&mut tags, "Initiator", cli_info.initiator.name());
    push_pair(&mut tags, "Action", cli_info.actions.as_str());
    assert(pairs(tags@) =~= exception_tags(cli_info@, stamp.sdk_version@));
    let mut exceptions: Vec<Exceptions> = Vec::new();
    exceptions.push(
        Exceptions {
            typeName: kind_name.to_owned(),
            message: message.to_owned(),
            stack: stack.to_owned(),
            hasFullStack: true,
        },
    );
    ExceptionEnvelope {
        name: "Microsoft.ApplicationInsights.Exception".to_owned(),
        time: stamp.time.clone(),
        iKey: stamp.ikey.clone(),
        tags,
        data: ExceptionBase {
            baseType: "ExceptionData".to_owned(),
            baseData: ExceptionBaseData {
                ver: REPORT_VERSION,
                exceptions,
                severityLevel: severity_level,
                properties,
            },
        },
    }
}

/// Builds a trace report.
pub fn create_trace_envelope(
    severity_level: SeverityLevel,
    message: &str,
    cli_info: &CliInfo,
    distro: &Distro,
    repair_info: &OsNameArchitecture,
    stamp: &ReportStamp,
) -> (r: TraceEnvelope)
    ensures
        r.name@ == "Microsoft.ApplicationInsights.Message"@,
        r.time@ == stamp.time@,
        r.iKey@ == stamp.ikey@,
        pairs(r.tags@) == trace_tags(stamp.sdk_version@),
        r.data.baseType@ == "MessageData"@,
        r.data.baseData.ver == REPORT_VERSION,
        r.data.baseData.severityLevel == severity_level,
        r.data.baseData.message@ == message@,
        pairs(r.data.baseData.properties@) == report_properties(
            cli_info@,
            distro@,
            repair_info.repair_os_name@,
            repair_info.repair_os_version@,
            repair_info.arch@,
        ),
{
    let properties = properties_of(cli_info, distro, repair_info);
    let mut tags: Vec<(String, String)> = Vec::new();
    assert(pairs(tags@) =~= Seq::<(Seq<char>, Seq<char>)>::empty());
    push_pair(&mut tags, "ai.cloud.role", "ALAR");
    push_pair(&mut tags, "ai.internal.sdkVersion", stamp.sdk_version.as_str());
    assert(pairs(tags@) =~= trace_tags(stamp.sdk_version@));
    TraceEnvelope {
        name: "Microsoft.ApplicationInsights.Message".to_owned(),
        time: stamp.time.clone(),
        iKey: stamp.ikey.clone(),
        tags,
        data: TraceBase {
            baseType: "MessageData".to_owned(),
            baseData: TraceBaseData {
                ver: REPORT_VERSION,
                message: message.to_owned(),
                severityLevel: severity_level,
                properties,
            },
        },
    }
}

} // verus!
