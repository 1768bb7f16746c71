//! What the operator asked for.

use crate::text::{text_contains, trim, trim_text};
use vstd::prelude::*;
use vstd::utf8::{decode_utf8, encode_utf8, valid_utf8};

verus! {

/// Who started the recovery.
#[derive(Debug, Clone, Copy, PartialEq, Eq, Structural)]
pub enum Initiator {
    RecoverVm,
    SelfHelp,
    Cli,
}

impl Initiator {
    /// How the initiator is written in reports.
    pub open spec fn label(self) -> Seq<char> {
        match self {
            Initiator::Cli => "CLI"@,
            Initiator::RecoverVm => "RecoverVm"@,
            Initiator::SelfHelp => "SelfHelp"@,
        }
    }

    /// Executable [`Initiator::label`].
    pub fn name(&self) -> (r: &'static str)
        ensures
            r@ == self.label(),
    {
        match self {
            Initiator::Cli => "CLI",
            Initiator::RecoverVm => "RecoverVm",
            Initiator::SelfHelp => "SelfHelp",
        }
    }
}

/// The settings of one run.
#[derive(Debug, PartialEq, Eq)]
pub struct CliInfo {
    /// Directory with the operator's own repair actions; empty for none.
    pub local_action_directory: String,
    /// Names of the actions to run, separated by commas.
    pub actions: String,
    pub initiator: Initiator,
    /// Path of the disk under recovery where it is not the default; empty for the default.
    pub custom_recover_disk: String,
    /// The decoded passphrase of an encrypted disk; empty for none.
    pub ade_password: String,
    /// Whether the repair actions are fetched instead of taken from the built-in set.
    pub download_action_scripts: bool,
}

/// Mathematical form of a [`CliInfo`].
pub struct CliInfoView {
    pub local_action_directory: Seq<char>,
    pub actions: Seq<char>,
    pub initiator: Initiator,
    pub custom_recover_disk: Seq<char>,
    pub ade_password: Seq<char>,
    pub download_action_scripts: bool,
}

impl View for CliInfo {
    type V = CliInfoView;

    open spec fn view(&self) -> CliInfoView {
        CliInfoView {
            local_action_directory: self.local_action_directory@,
            actions: self.actions@,
            initiator: self.initiator,
            custom_recover_disk: self.custom_recover_disk@,
            ade_password: self.ade_password@,
            download_action_scripts: self.download_action_scripts,
        }
    }
}

impl Clone for CliInfo {
    fn clone(&self) -> (r: Self)
        ensures
            r == *self,
    {
        CliInfo {
            local_action_directory: self.local_action_directory.clone(),
            actions: self.actions.clone(),
            initiator: self.initiator,
            custom_recover_disk: self.custom_recover_disk.clone(),
            ade_password: self.ade_password.clone(),
            download_action_scripts: self.download_action_scripts,
        }
    }
}

/// The settings before anything was asked for.
pub open spec fn blank_cli() -> CliInfoView {
    CliInfoView {
        local_action_directory: seq![],
        actions: seq![],
        initiator: Initiator::Cli,
        custom_recover_disk: seq![],
        ade_password: seq![],
        download_action_scripts: false,
    }
}

impl Default for CliInfo {
    fn default() -> (r: Self)
        ensures
            r@ == blank_cli(),
    {
        CliInfo {
            local_action_directory: String::new(),
            actions: String::new(),
            initiator: Initiator::Cli,
            custom_recover_disk: String::new(),
            ade_password: String::new(),
            download_action_scripts: false,
        }
    }
}

/// What stands in place of the passphrase once it has been used.
pub const PASSWORD_MASK: &'static str = "XXXXXXXX";

/// The bytes of a string, in the buffer that held the string.
///
/// Trusted: this is `String::into_bytes` of the standard library, which
/// is documented to convert the string into its byte vector without
/// copying the contents.
#[verifier::external_body]
fn into_bytes(s: String) -> (bytes: Vec<u8>)
    ensures
        bytes@ == encode_utf8(s@),
{
    s.into_bytes()
}

/// Overwrites every byte with zero.
pub fn scrub(bytes: &mut Vec<u8>)
    ensures
        final(bytes).len() == old(bytes).len(),
        forall|i: int| 0 <= i < final(bytes).len() ==> final(bytes)[i] == 0,
{
    let mut i: usize = 0;
    while i < bytes.len()
        invariant
            i <= bytes.len(),
            bytes.len() == old(bytes).len(),
            forall|k: int| 0 <= k < i ==> bytes[k] == 0,
        decreases bytes.len() - i,
    {
        bytes[i] = 0;
        i = i + 1;
    }
}

impl CliInfo {
    /// The settings before anything was asked for.
    pub fn new() -> (r: CliInfo)
        ensures
            r@ == blank_cli(),
    {
        CliInfo::default()
    }

    /// Removes the passphrase from memory: the bytes that held it are
    /// overwritten with zeros before they are given up, and a mask takes
    /// the place of the passphrase. Nothing else changes.
    pub fn clear_password(&mut self)
        ensures
            final(self)@ == (CliInfoView { ade_password: PASSWORD_MASK@, ..old(self)@ }),
    {
        let mut passphrase = PASSWORD_MASK.to_owned();
        core::mem::swap(&mut self.ade_password, &mut passphrase);
        let mut bytes = into_bytes(passphrase);
        scrub(&mut bytes);
    }
}

/// Why the operator's input was refused.
#[derive(Debug, Clone, Copy, PartialEq, Eq, Structural)]
pub enum CliError {
    /// The passphrase is not base64.
    PassphraseEncoding,
    /// The decoded passphrase is not text.
    PassphraseNotText,
}

/// What a base64 text decodes to under the standard alphabet with padding,
/// or `None` where it is not such a text.
///
/// This is what `simple_base64::decode` returns.
pub uninterp spec fn base64_decoding(input: Seq<char>) -> Option<Seq<u8>>;

#[verifier::external_type_specification]
#[verifier::external_body]
pub struct ExDecodeError(simple_base64::DecodeError);

/// Decodes base64.
///
/// Trusted: this is `simple_base64::decode`, which decodes with the standard
/// engine; the result depends on the input alone, and the contract only
/// names it.
#[verifier::external_body]
fn base64_decode(input: &str) -> (r: Result<Vec<u8>, simple_base64::DecodeError>)
    ensures
        match r {
            Ok(bytes) => base64_decoding(input@) == Some(bytes@),
            Err(_) => base64_decoding(input@) is None,
        },
{
    simple_base64::decode(input)
}

/// Reads bytes as UTF-8 text.
///
/// Trusted: this is `String::from_utf8` of the standard library, which
/// returns the text exactly when the bytes are valid UTF-8.
#[verifier::external_body]
fn utf8_text(bytes: Vec<u8>) -> (r: Option<String>)
    ensures
        match r {
            Some(s) => valid_utf8(bytes@) && s@ == decode_utf8(bytes@),
            None => !valid_utf8(bytes@),
        },
{
    String::from_utf8(bytes).ok()
}

/// The passphrase that decoded bytes spell.
pub open spec fn passphrase_of(bytes: Seq<u8>) -> Result<Seq<char>, CliError> {
    if valid_utf8(bytes) {
        Ok(decode_utf8(bytes))
    } else {
        Err(CliError::PassphraseNotText)
    }
}

/// The passphrase that an encoded input stands for.
pub open spec fn decoded_passphrase(encoded: Seq<char>) -> Result<Seq<char>, CliError> {
    match base64_decoding(encoded) {
        Some(bytes) => passphrase_of(bytes),
        None => Err(CliError::PassphraseEncoding),
    }
}

/// Executable [`passphrase_of`].
pub fn passphrase_from_bytes(bytes: Vec<u8>) -> (r: Result<String, CliError>)
    ensures
        match r {
            Ok(s) => passphrase_of(bytes@) == Ok::<Seq<char>, CliError>(s@),
            Err(e) => passphrase_of(bytes@) == Err::<Seq<char>, CliError>(e),
        },
{
    match utf8_text(bytes) {
        Some(s) => Ok(s),
        None => Err(CliError::PassphraseNotText),
    }
}

/// Decodes the passphrase that the operator supplied in base64.
pub fn decode_passphrase(encoded: &str) -> (r: Result<String, CliError>)
    ensures
        match r {
            Ok(s) => decoded_passphrase(encoded@) == Ok::<Seq<char>, CliError>(s@),
            Err(e) => decoded_passphrase(encoded@) == Err::<Seq<char>, CliError>(e),
        },
{
    match base64_decode(encoded) {
        Ok(bytes) => passphrase_from_bytes(bytes),
        Err(_) => Err(CliError::PassphraseEncoding),
    }
}

/// The arguments as the command line gave them.
#[derive(Debug, PartialEq, Eq)]
pub struct CliArgs {
    pub action: String,
    pub directory: Option<String>,
    pub download_action_scripts: bool,
    pub selfhelp_initiator: bool,
    pub custom_recover_disk: Option<String>,
    pub ade_password: Option<String>,
}

/// The text of an optional argument: empty where it was not given.
pub open spec fn or_empty(o: Option<String>) -> Seq<char> {
    match o {
        Some(s) => s@,
        None => seq![],
    }
}

/// Who started the run. The self-help flag decides first; otherwise the run
/// was started by the platform exactly when the host is a repair host and
/// the process tree shows the platform's command runner.
pub open spec fn initiator_of(selfhelp: bool, process_tree: Seq<char>, repair_vm: Option<bool>)
    -> Initiator {
    if selfhelp {
        Initiator::SelfHelp
    } else if repair_vm == Some(true) && crate::text::contains(process_tree, "run-command-ext"@) {
        Initiator::RecoverVm
    } else {
        Initiator::Cli
    }
}

/// Executable [`initiator_of`]. `repair_vm` is `None` where the metadata
/// service gave no answer.
pub fn resolve_initiator(selfhelp: bool, process_tree: &str, repair_vm: Option<bool>) -> (r:
    Initiator)
    ensures
        r == initiator_of(selfhelp, process_tree@, repair_vm),
{
    if selfhelp {
        Initiator::SelfHelp
    } else {
        match repair_vm {
            Some(true) => {
                if text_contains(process_tree, "run-command-ext") {
                    Initiator::RecoverVm
                } else {
                    Initiator::Cli
                }
            },
            _ => Initiator::Cli,
        }
    }
}

/// The actions to run: `fstab` where none was named.
pub open spec fn actions_of(action: Seq<char>) -> Seq<char> {
    if trim(action).len() == 0 {
        "fstab"@
    } else {
        action
    }
}

/// Turns the arguments into the settings of the run.
///
/// The passphrase is decoded from base64 and must be text; an absent
/// passphrase is decoded like an empty one. Every other argument is taken
/// as it stands, an absent one as the empty text.
pub fn cli(args: CliArgs, process_tree: &str, repair_vm: Option<bool>) -> (r: Result<
    CliInfo,
    CliError,
>)
    ensures
        match decoded_passphrase(or_empty(args.ade_password)) {
            Ok(passphrase) => r is Ok && r->Ok_0@ == (CliInfoView {
                local_action_directory: or_empty(args.directory),
                actions: actions_of(args.action@),
                initiator: initiator_of(args.selfhelp_initiator, process_tree@, repair_vm),
                custom_recover_disk: or_empty(args.custom_recover_disk),
                ade_password: passphrase,
                download_action_scripts: args.download_action_scripts,
            }),
            Err(e) => r == Err::<CliInfo, CliError>(e),
        },
{
    let encoded: String = match args.ade_password {
        Some(p) => p,
        None => String::new(),
    };
    let ade_password = match decode_passphrase(encoded.as_str()) {
        Ok(p) => p,
        Err(e) => {
            return Err(e);
        },
    };
    let actions = if trim_text(args.action.as_str()).as_str().is_empty() {
        "fstab".to_owned()
    } else {
        args.action
    };
    let local_action_directory = match args.directory {
        Some(d) => d,
        None => String::new(),
    };
    let custom_recover_disk = match args.custom_recover_disk {
        Some(d) => d,
        None => String::new(),
    };
    let initiator = resolve_initiator(args.selfhelp_initiator, process_tree, repair_vm);
    Ok(
        CliInfo {
            local_action_directory,
            actions,
            initiator,
            custom_recover_disk,
            ade_password,
            download_action_scripts: args.download_action_scripts,
        },
    )
}

} // verus!
