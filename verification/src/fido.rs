//! The FIDO2 commands: what each one does, in which order, and which keys can
//! carry it out.

use crate::plan::lemma_short_plan;
use crate::secrets::SecretOpts;
use crate::text::{cat2, cat3, cat4, cat5, contains_text, dec_text, dec_u32, has_run, lemma_holds, opt_str, opt_view};
use vstd::prelude::*;

verus! {

/// A command of the large-blob store, its path apart.
#[derive(Debug)]
pub enum LargeBlobCmd {
    /// List the entries.
    List,
    /// Show one entry.
    Get { index: usize },
    /// Add a note.
    Add { text: String, pin: SecretOpts },
    /// Replace a note.
    Edit { index: usize, text: String, pin: SecretOpts },
    /// Delete an entry.
    Delete { index: usize, yes: bool, pin: SecretOpts },
    /// Write an entry to a file.
    Export { index: usize, output: String, as_cert: bool },
    /// Erase all entries.
    Clear { yes: bool, pin: SecretOpts },
}

/// A command of the stored SSH certificates, its path apart.
#[derive(Debug)]
pub enum SshCertCmd {
    /// List the credentials.
    List { pin: SecretOpts },
    /// Write a certificate to a file.
    Extract { credential: Option<String>, out: Option<String>, force: bool, pin: SecretOpts },
}

/// A FIDO2 command, its path apart.
#[derive(Debug)]
pub enum FidoCmd {
    /// Show what the key says of itself.
    Info,
    /// Wipe the applet.
    Reset { yes: bool, reader: Option<String> },
    /// Show the PIN tries left.
    PinRetries,
    /// Set the first PIN.
    PinSet { new_pin: SecretOpts },
    /// Change the PIN.
    PinChange { old_pin: SecretOpts, new_pin: SecretOpts },
    /// Count the resident credentials.
    CredsMetadata { pin: SecretOpts },
    /// List the resident credentials.
    CredsList { pin: SecretOpts },
    /// Delete a resident credential.
    CredsDelete { cred_id: String, pin: SecretOpts },
    /// List the fingerprints.
    FingerprintList { pin: SecretOpts },
    /// Enroll a fingerprint.
    FingerprintEnroll { name: Option<String>, pin: SecretOpts },
    /// Rename a fingerprint.
    FingerprintRename { template_id: String, name: String, pin: SecretOpts },
    /// Delete a fingerprint.
    FingerprintDelete { template_id: String, pin: SecretOpts },
    /// Toggle whether user verification is always needed.
    AlwaysUv { pin: SecretOpts },
    /// Set the least length of a PIN.
    SetMinPin { length: u32, force_change: bool, pin: SecretOpts },
    /// Make the next use change the PIN.
    ForcePinChange { pin: SecretOpts },
    /// Enable enterprise attestation.
    EnterpriseAttestation { pin: SecretOpts },
    /// The large-blob store.
    LargeBlob { cmd: LargeBlobCmd },
    /// The stored SSH certificates.
    SshCert { cmd: SshCertCmd },
}

/// A secret a FIDO2 command asks for.
#[derive(Clone, Copy, Debug, PartialEq, Eq, Structural)]
pub enum FidoSecret {
    /// The PIN.
    Pin,
    /// The PIN in force.
    OldPin,
    /// The PIN to be.
    NewPin,
}

impl FidoSecret {
    /// What the messages call it.
    pub open spec fn name(self) -> Seq<char> {
        match self {
            FidoSecret::Pin => "PIN"@,
            FidoSecret::OldPin => "old PIN"@,
            FidoSecret::NewPin => "new PIN"@,
        }
    }

    /// What the messages call it.
    pub fn label(self) -> (r: &'static str)
        ensures
            r@ == self.name(),
    {
        match self {
            FidoSecret::Pin => "PIN",
            FidoSecret::OldPin => "old PIN",
            FidoSecret::NewPin => "new PIN",
        }
    }
}

/// What a session is opened for.
#[derive(Clone, Copy, Debug, PartialEq, Eq, Structural)]
pub enum FidoSession {
    /// Managing resident credentials.
    Credentials,
    /// Managing fingerprints.
    Fingerprints,
    /// Configuring the key.
    Configuration,
}

/// One operation of a plan.
#[derive(Clone, Copy, Debug, PartialEq, Eq, Structural)]
pub enum FidoOp {
    /// Read a secret from where the command says it is.
    Read(FidoSecret),
    /// Decode the credential id that was given.
    DecodeCredId,
    /// Decode the template id that was given.
    DecodeTemplateId,
    /// Resolve the key and open it.
    Open,
    /// Resolve the reader and power-cycle its card.
    OpenReader,
    /// Open an authorized session on the key.
    OpenSession(FidoSession),
    /// Show what the key says of itself.
    Info,
    /// Wipe the applet.
    Reset,
    /// Show the PIN tries left.
    PinRetries,
    /// Set the first PIN.
    SetPin,
    /// Change the PIN.
    ChangePin,
    /// Count the resident credentials.
    CredsMetadata,
    /// List the resident credentials.
    CredsList,
    /// Delete a resident credential.
    CredsDelete,
    /// List the fingerprints.
    FpList,
    /// Enroll a fingerprint.
    FpEnroll,
    /// Rename a fingerprint.
    FpRename,
    /// Delete a fingerprint.
    FpDelete,
    /// Toggle whether user verification is always needed.
    ToggleAlwaysUv,
    /// Set the least length of a PIN.
    SetMinPin(u32, bool),
    /// Make the next use change the PIN.
    ForcePinChange,
    /// Enable enterprise attestation.
    EnterpriseAttestation,
    /// Open the key and read its large-blob array.
    ReadBlobs,
    /// Show the entries.
    BlobList,
    /// Show one entry.
    BlobGet(usize),
    /// Add a note to the array just read.
    BlobAdd,
    /// Replace a note of the array just read.
    BlobEdit(usize),
    /// Take an entry out of the array just read, or refuse.
    BlobDelete(usize, bool),
    /// Empty the array, or refuse.
    BlobClear(bool),
    /// Authorize and write the changed array.
    WriteBlobs,
    /// Write an entry to a file.
    BlobExport(usize, bool),
    /// Find the SSH credentials and read the large-blob array.
    FindSshCredentials,
    /// List the SSH credentials.
    SshList,
    /// Choose an SSH credential and write its certificate.
    SshExtract,
    /// Say that it is done.
    Report,
}

/// What each command of the large-blob store does, in order.
pub open spec fn blob_plan_spec(cmd: LargeBlobCmd) -> Seq<FidoOp> {
    match cmd {
        LargeBlobCmd::List => seq![FidoOp::ReadBlobs, FidoOp::BlobList],
        LargeBlobCmd::Get { index } => seq![FidoOp::ReadBlobs, FidoOp::BlobGet(index)],
        LargeBlobCmd::Add { .. } => seq![
            FidoOp::Read(FidoSecret::Pin),
            FidoOp::ReadBlobs,
            FidoOp::BlobAdd,
            FidoOp::WriteBlobs,
            FidoOp::Report,
        ],
        LargeBlobCmd::Edit { index, .. } => seq![
            FidoOp::Read(FidoSecret::Pin),
            FidoOp::ReadBlobs,
            FidoOp::BlobEdit(index),
            FidoOp::WriteBlobs,
            FidoOp::Report,
        ],
        LargeBlobCmd::Delete { index, yes, .. } => seq![
            FidoOp::Read(FidoSecret::Pin),
            FidoOp::ReadBlobs,
            FidoOp::BlobDelete(index, yes),
            FidoOp::WriteBlobs,
            FidoOp::Report,
        ],
        LargeBlobCmd::Export { index, as_cert, .. } => seq![
            FidoOp::ReadBlobs,
            FidoOp::BlobExport(index, as_cert),
        ],
        LargeBlobCmd::Clear { yes, .. } => seq![
            FidoOp::Read(FidoSecret::Pin),
            FidoOp::ReadBlobs,
            FidoOp::BlobClear(yes),
            FidoOp::WriteBlobs,
            FidoOp::Report,
        ],
    }
}

/// Plans a command of the large-blob store. The array is always read again
/// just before it is changed.
pub fn run_fido_large_blob(cmd: &LargeBlobCmd) -> (r: Vec<FidoOp>)
    ensures
        r@ == blob_plan_spec(*cmd),
{
    let plan: Vec<FidoOp> = match cmd {
        LargeBlobCmd::List => vec![FidoOp::ReadBlobs, FidoOp::BlobList],
        LargeBlobCmd::Get { index } => vec![FidoOp::ReadBlobs, FidoOp::BlobGet(*index)],
        LargeBlobCmd::Add { .. } => vec![
            FidoOp::Read(FidoSecret::Pin),
            FidoOp::ReadBlobs,
            FidoOp::BlobAdd,
            FidoOp::WriteBlobs,
            FidoOp::Report,
        ],
        LargeBlobCmd::Edit { index, .. } => vec![
            FidoOp::Read(FidoSecret::Pin),
            FidoOp::ReadBlobs,
            FidoOp::BlobEdit(*index),
            FidoOp::WriteBlobs,
            FidoOp::Report,
        ],
        LargeBlobCmd::Delete { index, yes, .. } => vec![
            FidoOp::Read(FidoSecret::Pin),
            FidoOp::ReadBlobs,
            FidoOp::BlobDelete(*index, *yes),
            FidoOp::WriteBlobs,
            FidoOp::Report,
        ],
        LargeBlobCmd::Export { index, as_cert, .. } => vec![
            FidoOp::ReadBlobs,
            FidoOp::BlobExport(*index, *as_cert),
        ],
        LargeBlobCmd::Clear { yes, .. } => vec![
            FidoOp::Read(FidoSecret::Pin),
            FidoOp::ReadBlobs,
            FidoOp::BlobClear(*yes),
            FidoOp::WriteBlobs,
            FidoOp::Report,
        ],
    };
    assert(plan@ =~= blob_plan_spec(*cmd));
    plan
}

/// What each command of the SSH certificates does, in order.
pub open spec fn ssh_plan_spec(cmd: SshCertCmd) -> Seq<FidoOp> {
    seq![
        FidoOp::Read(FidoSecret::Pin),
        FidoOp::FindSshCredentials,
        match cmd {
            SshCertCmd::List { .. } => FidoOp::SshList,
            SshCertCmd::Extract { .. } => FidoOp::SshExtract,
        },
    ]
}

/// Plans a command of the SSH certificates.
pub fn run_fido_ssh_cert(cmd: &SshCertCmd) -> (r: Vec<FidoOp>)
    ensures
        r@ == ssh_plan_spec(*cmd),
{
    let last = match cmd {
        SshCertCmd::List { .. } => FidoOp::SshList,
        SshCertCmd::Extract { .. } => FidoOp::SshExtract,
    };
    let plan = vec![FidoOp::Read(FidoSecret::Pin), FidoOp::FindSshCredentials, last];
    assert(plan@ =~= ssh_plan_spec(*cmd));
    plan
}

/// The operations of a reset over HID.
pub fn run_fido_reset() -> (r: Vec<FidoOp>)
    ensures
        r@ == seq![FidoOp::Open, FidoOp::Reset, FidoOp::Report],
{
    let plan = vec![FidoOp::Open, FidoOp::Reset, FidoOp::Report];
    assert(plan@ =~= seq![FidoOp::Open, FidoOp::Reset, FidoOp::Report]);
    plan
}

/// The operations of a reset in a reader.
pub fn run_fido_reset_reader() -> (r: Vec<FidoOp>)
    ensures
        r@ == seq![FidoOp::OpenReader, FidoOp::Reset, FidoOp::Report],
{
    let plan = vec![FidoOp::OpenReader, FidoOp::Reset, FidoOp::Report];
    assert(plan@ =~= seq![FidoOp::OpenReader, FidoOp::Reset, FidoOp::Report]);
    plan
}

/// A session for one operation, after its PIN was read.
pub open spec fn session_ops(session: FidoSession, op: FidoOp) -> Seq<FidoOp> {
    seq![FidoOp::Read(FidoSecret::Pin), FidoOp::OpenSession(session), op]
}

/// What each command does, in order, or why it refuses before it begins.
/// `hint` names the key that a reset would wipe.
pub open spec fn fido_plan_spec(cmd: FidoCmd, hint: Seq<char>) -> Result<Seq<FidoOp>, Seq<char>> {
    match cmd {
        FidoCmd::Info => Ok(seq![FidoOp::Open, FidoOp::Info]),
        FidoCmd::Reset { yes, reader } => if !yes {
            Err("refusing to reset FIDO key without --yes (this wipes credentials)"@ + hint)
        } else if reader is Some {
            Ok(seq![FidoOp::OpenReader, FidoOp::Reset, FidoOp::Report])
        } else {
            Ok(seq![FidoOp::Open, FidoOp::Reset, FidoOp::Report])
        },
        FidoCmd::PinRetries => Ok(seq![FidoOp::Open, FidoOp::PinRetries]),
        FidoCmd::PinSet { .. } => Ok(
            seq![FidoOp::Read(FidoSecret::NewPin), FidoOp::Open, FidoOp::SetPin, FidoOp::Report],
        ),
        FidoCmd::PinChange { .. } => Ok(
            seq![
                FidoOp::Read(FidoSecret::OldPin),
                FidoOp::Read(FidoSecret::NewPin),
                FidoOp::Open,
                FidoOp::ChangePin,
                FidoOp::Report,
            ],
        ),
        FidoCmd::CredsMetadata { .. } => Ok(session_ops(FidoSession::Credentials, FidoOp::CredsMetadata)),
        FidoCmd::CredsList { .. } => Ok(session_ops(FidoSession::Credentials, FidoOp::CredsList)),
        FidoCmd::CredsDelete { .. } => Ok(
            seq![
                FidoOp::Read(FidoSecret::Pin),
                FidoOp::DecodeCredId,
                FidoOp::OpenSession(FidoSession::Credentials),
                FidoOp::CredsDelete,
                FidoOp::Report,
            ],
        ),
        FidoCmd::FingerprintList { .. } => Ok(session_ops(FidoSession::Fingerprints, FidoOp::FpList)),
        FidoCmd::FingerprintEnroll { .. } => Ok(session_ops(FidoSession::Fingerprints, FidoOp::FpEnroll)),
        FidoCmd::FingerprintRename { .. } => Ok(
            seq![
                FidoOp::Read(FidoSecret::Pin),
                FidoOp::DecodeTemplateId,
                FidoOp::OpenSession(FidoSession::Fingerprints),
                FidoOp::FpRename,
                FidoOp::Report,
            ],
        ),
        FidoCmd::FingerprintDelete { .. } => Ok(
            seq![
                FidoOp::Read(FidoSecret::Pin),
                FidoOp::DecodeTemplateId,
                FidoOp::OpenSession(FidoSession::Fingerprints),
                FidoOp::FpDelete,
                FidoOp::Report,
            ],
        ),
        FidoCmd::AlwaysUv { .. } => Ok(
            session_ops(FidoSession::Configuration, FidoOp::ToggleAlwaysUv).push(FidoOp::Report),
        ),
        FidoCmd::SetMinPin { length, force_change, .. } => Ok(
            session_ops(FidoSession::Configuration, FidoOp::SetMinPin(length, force_change)).push(
                FidoOp::Report,
            ),
        ),
        FidoCmd::ForcePinChange { .. } => Ok(
            session_ops(FidoSession::Configuration, FidoOp::ForcePinChange).push(FidoOp::Report),
        ),
        FidoCmd::EnterpriseAttestation { .. } => Ok(
            session_ops(FidoSession::Configuration, FidoOp::EnterpriseAttestation).push(FidoOp::Report),
        ),
        FidoCmd::LargeBlob { cmd } => Ok(blob_plan_spec(cmd)),
        FidoCmd::SshCert { cmd } => Ok(ssh_plan_spec(cmd)),
    }
}

/// What a planning result holds.
pub open spec fn fido_result(r: Result<Vec<FidoOp>, String>) -> Result<Seq<FidoOp>, Seq<char>> {
    match r {
        Ok(v) => Ok(v@),
        Err(e) => Err(e@),
    }
}

fn session_plan(session: FidoSession, op: FidoOp) -> (r: Vec<FidoOp>)
    ensures
        r@ == session_ops(session, op),
{
    let r = vec![FidoOp::Read(FidoSecret::Pin), FidoOp::OpenSession(session), op];
    assert(r@ =~= session_ops(session, op));
    r
}

fn reporting(mut plan: Vec<FidoOp>) -> (r: Vec<FidoOp>)
    ensures
        r@ == plan@.push(FidoOp::Report),
{
    plan.push(FidoOp::Report);
    plan
}

/// Plans a FIDO2 command. `hint` names the key that a reset would wipe.
pub fn run_fido(cmd: &FidoCmd, hint: &str) -> (r: Result<Vec<FidoOp>, String>)
    ensures
        fido_result(r) == fido_plan_spec(*cmd, hint@),
{
    let ghost want = fido_plan_spec(*cmd, hint@);
    let plan: Vec<FidoOp> = match cmd {
        FidoCmd::Info => vec![FidoOp::Open, FidoOp::Info],
        FidoCmd::Reset { yes, reader } => {
            if !*yes {
                return Err(cat2("refusing to reset FIDO key without --yes (this wipes credentials)", hint));
            }
            if reader.is_some() {
                run_fido_reset_reader()
            } else {
                run_fido_reset()
            }
        },
        FidoCmd::PinRetries => vec![FidoOp::Open, FidoOp::PinRetries],
        FidoCmd::PinSet { .. } => vec![
            FidoOp::Read(FidoSecret::NewPin),
            FidoOp::Open,
            FidoOp::SetPin,
            FidoOp::Report,
        ],
        FidoCmd::PinChange { .. } => vec![
            FidoOp::Read(FidoSecret::OldPin),
            FidoOp::Read(FidoSecret::NewPin),
            FidoOp::Open,
            FidoOp::ChangePin,
            FidoOp::Report,
        ],
        FidoCmd::CredsMetadata { .. } => session_plan(FidoSession::Credentials, FidoOp::CredsMetadata),
        FidoCmd::CredsList { .. } => session_plan(FidoSession::Credentials, FidoOp::CredsList),
        FidoCmd::CredsDelete { .. } => vec![
            FidoOp::Read(FidoSecret::Pin),
            FidoOp::DecodeCredId,
            FidoOp::OpenSession(FidoSession::Credentials),
            FidoOp::CredsDelete,
            FidoOp::Report,
        ],
        FidoCmd::FingerprintList { .. } => session_plan(FidoSession::Fingerprints, FidoOp::FpList),
        FidoCmd::FingerprintEnroll { .. } => session_plan(FidoSession::Fingerprints, FidoOp::FpEnroll),
        FidoCmd::FingerprintRename { .. } => vec![
            FidoOp::Read(FidoSecret::Pin),
            FidoOp::DecodeTemplateId,
            FidoOp::OpenSession(FidoSession::Fingerprints),
            FidoOp::FpRename,
            FidoOp::Report,
        ],
        FidoCmd::FingerprintDelete { .. } => vec![
            FidoOp::Read(FidoSecret::Pin),
            FidoOp::DecodeTemplateId,
            FidoOp::OpenSession(FidoSession::Fingerprints),
            FidoOp::FpDelete,
            FidoOp::Report,
        ],
        FidoCmd::AlwaysUv { .. } => reporting(
            session_plan(FidoSession::Configuration, FidoOp::ToggleAlwaysUv),
        ),
        FidoCmd::SetMinPin { length, force_change, .. } => reporting(
            session_plan(FidoSession::Configuration, FidoOp::SetMinPin(*length, *force_change)),
        ),
        FidoCmd::ForcePinChange { .. } => reporting(
            session_plan(FidoSession::Configuration, FidoOp::ForcePinChange),
        ),
        FidoCmd::EnterpriseAttestation { .. } => reporting(
            session_plan(FidoSession::Configuration, FidoOp::EnterpriseAttestation),
        ),
        FidoCmd::LargeBlob { cmd } => run_fido_large_blob(cmd),
        FidoCmd::SshCert { cmd } => run_fido_ssh_cert(cmd),
    };
    assert(want is Ok);
    assert(plan@ =~= want->Ok_0);
    Ok(plan)
}

/// The applet is wiped only when confirmed.
pub proof fn law_fido_reset_needs_yes(cmd: FidoCmd, hint: Seq<char>, i: int)
    requires
        fido_plan_spec(cmd, hint) is Ok,
        0 <= i < fido_plan_spec(cmd, hint)->Ok_0.len(),
        fido_plan_spec(cmd, hint)->Ok_0[i] == FidoOp::Reset,
    ensures
        cmd matches FidoCmd::Reset { yes, .. } && yes,
{
}

/// A changed large-blob array is written only after the array was read again
/// in the same command.
pub proof fn law_blobs_are_read_before_written(cmd: LargeBlobCmd, i: int)
    requires
        0 <= i < blob_plan_spec(cmd).len(),
        blob_plan_spec(cmd)[i] == FidoOp::WriteBlobs,
    ensures
        exists|j: int| 0 <= j < i && #[trigger] blob_plan_spec(cmd)[j] == FidoOp::ReadBlobs,
{
    assert(blob_plan_spec(cmd)[1] == FidoOp::ReadBlobs);
}

/// How a FIDO device is found.
#[derive(Debug)]
pub enum FidoPath {
    /// At this path, as given.
    Given(String),
    /// By this friendly name.
    ByName(String),
    /// Among those connected.
    Pick,
}

/// Chooses how a FIDO device is found: a path is taken as it is, a name is
/// looked up, and both together are refused.
pub fn resolve_fido_path(explicit: Option<&str>, name: Option<&str>) -> (r: Result<FidoPath, String>)
    ensures
        match r {
            Ok(FidoPath::Given(p)) => name is None && opt_str(explicit) == Some(p@),
            Ok(FidoPath::ByName(n)) => explicit is None && opt_str(name) == Some(n@),
            Ok(FidoPath::Pick) => explicit is None && name is None,
            Err(e) => explicit is Some && name is Some && e@ == "pass either --path or --device, not both"@,
        },
{
    match (explicit, name) {
        (Some(_), Some(_)) => Err("pass either --path or --device, not both".to_owned()),
        (Some(p), None) => Ok(FidoPath::Given(p.to_owned())),
        (None, Some(n)) => Ok(FidoPath::ByName(n.to_owned())),
        (None, None) => Ok(FidoPath::Pick),
    }
}

/// What only a CTAP2 key can do.
#[derive(Clone, Copy, Debug, PartialEq, Eq, Structural)]
pub enum CborUse {
    /// Managing credentials.
    Credentials,
    /// Managing fingerprints.
    Fingerprints,
    /// Configuring the key.
    Configuration,
    /// The large-blob store.
    LargeBlobs,
}

/// Why a key without CTAP2 cannot do it.
pub open spec fn u2f_only_text(what: CborUse) -> Seq<char> {
    match what {
        CborUse::Credentials => "device is U2F-only; CTAP2 credential management not supported"@,
        CborUse::Fingerprints => "device is U2F-only; CTAP2 bio enrollment not supported"@,
        CborUse::Configuration => "device is U2F-only; CTAP2 authenticatorConfig not supported"@,
        CborUse::LargeBlobs => "device is U2F-only; CTAP2 large blobs not supported"@,
    }
}

/// Refuses a key without CTAP2.
pub fn require_cbor(supports_cbor: bool, what: CborUse) -> (r: Result<(), String>)
    ensures
        r is Ok <==> supports_cbor,
        r matches Err(e) ==> e@ == u2f_only_text(what),
{
    if supports_cbor {
        return Ok(());
    }
    Err(
        match what {
            CborUse::Credentials => "device is U2F-only; CTAP2 credential management not supported",
            CborUse::Fingerprints => "device is U2F-only; CTAP2 bio enrollment not supported",
            CborUse::Configuration => "device is U2F-only; CTAP2 authenticatorConfig not supported",
            CborUse::LargeBlobs => "device is U2F-only; CTAP2 large blobs not supported",
        }.to_owned(),
    )
}

/// Refuses a key that does not offer the large-blob store.
pub fn require_large_blobs(option: Option<bool>) -> (r: Result<(), String>)
    ensures
        r is Ok <==> option == Some(true),
        r matches Err(e) ==> e@ == "this key does not support the FIDO2 large-blob store"@,
{
    match option {
        Some(true) => Ok(()),
        _ => Err("this key does not support the FIDO2 large-blob store".to_owned()),
    }
}

/// Refuses a key that does not offer configuration.
pub fn require_config(option: Option<bool>) -> (r: Result<(), String>)
    ensures
        r is Ok <==> option == Some(true),
        r matches Err(e) ==> e@ == "this authenticator does not advertise authenticatorConfig support"@,
{
    match option {
        Some(true) => Ok(()),
        _ => Err("this authenticator does not advertise authenticatorConfig support".to_owned()),
    }
}

/// Which command manages fingerprints.
#[derive(Clone, Copy, Debug, PartialEq, Eq, Structural)]
pub enum BioCommand {
    /// The standard one.
    Standard,
    /// The one from before the standard.
    Preview,
}

/// Chooses the command that manages fingerprints by which option the key
/// lists; whether any finger is enrolled does not matter.
pub fn bio_command(standard: Option<bool>, preview: Option<bool>) -> (r: Result<BioCommand, String>)
    ensures
        match r {
            Ok(BioCommand::Standard) => standard is Some,
            Ok(BioCommand::Preview) => standard is None && preview is Some,
            Err(e) => standard is None && preview is None && e@
                == "this authenticator does not advertise fingerprint enrollment"@,
        },
{
    if standard.is_some() {
        Ok(BioCommand::Standard)
    } else if preview.is_some() {
        Ok(BioCommand::Preview)
    } else {
        Err("this authenticator does not advertise fingerprint enrollment".to_owned())
    }
}

/// Why a card refused a reset straight after a power cycle.
pub const CARD_REFUSED: &'static str = "the card refused the reset even straight after a power cycle. Some cards only accept a FIDO reset over NFC (contactless) rather than a contact reader — try a contactless reader or the vendor's mobile app.";

/// The error of a reset in a reader: a refusal by the card is explained, the
/// others speak for themselves.
pub fn reader_reset_error(err: &str) -> (r: String)
    ensures
        r@ == (if has_run(err@, "NOT_ALLOWED"@) || has_run(err@, "0x30"@) {
            CARD_REFUSED@
        } else {
            err@
        }),
{
    if contains_text(err, "NOT_ALLOWED") || contains_text(err, "0x30") {
        CARD_REFUSED.to_owned()
    } else {
        err.to_owned()
    }
}

/// The closing line of a command; none for those that end by showing
/// something. `id` is the short form of the credential or template.
pub open spec fn fido_done_text(cmd: FidoCmd, id: Seq<char>) -> Option<Seq<char>> {
    match cmd {
        FidoCmd::Reset { .. } => Some("Reset complete. All credentials wiped, PIN cleared."@),
        FidoCmd::PinSet { .. } => Some("PIN set."@),
        FidoCmd::PinChange { .. } => Some("PIN changed."@),
        FidoCmd::CredsDelete { .. } => Some("Credential "@ + id + " deleted."@),
        FidoCmd::FingerprintRename { name, .. } => Some("Renamed "@ + id + " to \""@ + name@ + "\"."@),
        FidoCmd::FingerprintDelete { .. } => Some("Fingerprint "@ + id + " deleted."@),
        FidoCmd::AlwaysUv { .. } => Some(
            "Toggled \"always require user verification\". Run `fido info` to confirm the new state."@,
        ),
        FidoCmd::SetMinPin { length, force_change, .. } => Some(
            "Minimum PIN length set to "@ + dec_text(length as nat) + "."@ + (if force_change {
                " A PIN change is now required on next use."@
            } else {
                ""@
            }),
        ),
        FidoCmd::ForcePinChange { .. } => Some("A PIN change is now required on next use of this key."@),
        FidoCmd::EnterpriseAttestation { .. } => Some(
            "Enterprise attestation enabled. Disabling it again requires a reset."@,
        ),
        _ => None,
    }
}

/// The closing line of a command.
pub fn fido_done(cmd: &FidoCmd, id: &str) -> (r: Option<String>)
    ensures
        opt_view(r) == fido_done_text(*cmd, id@),
{
    match cmd {
        FidoCmd::Reset { .. } => Some("Reset complete. All credentials wiped, PIN cleared.".to_owned()),
        FidoCmd::PinSet { .. } => Some("PIN set.".to_owned()),
        FidoCmd::PinChange { .. } => Some("PIN changed.".to_owned()),
        FidoCmd::CredsDelete { .. } => Some(cat3("Credential ", id, " deleted.")),
        FidoCmd::FingerprintRename { name, .. } => Some(cat5("Renamed ", id, " to \"", name.as_str(), "\".")),
        FidoCmd::FingerprintDelete { .. } => Some(cat3("Fingerprint ", id, " deleted.")),
        FidoCmd::AlwaysUv { .. } => Some(
            "Toggled \"always require user verification\". Run `fido info` to confirm the new state.".to_owned(),
        ),
        FidoCmd::SetMinPin { length, force_change, .. } => Some(
            cat4(
                "Minimum PIN length set to ",
                dec_u32(*length).as_str(),
                ".",
                if *force_change {
                    " A PIN change is now required on next use."
                } else {
                    ""
                },
            ),
        ),
        FidoCmd::ForcePinChange { .. } => Some(
            "A PIN change is now required on next use of this key.".to_owned(),
        ),
        FidoCmd::EnterpriseAttestation { .. } => Some(
            "Enterprise attestation enabled. Disabling it again requires a reset.".to_owned(),
        ),
        _ => None,
    }
}

/// What is said before a key is reset over HID.
pub fn resetting_line(path: &str) -> (r: String)
    ensures
        r@ == "Resetting "@ + path@ + " — touch the key now…"@,
{
    cat3("Resetting ", path, " — touch the key now…")
}

/// What is said before a card is reset in its reader.
pub const POWER_CYCLING: &'static str = "Power-cycling the card and sending the reset\u{2026}";

/// What is said before a finger is put on the sensor.
pub const TOUCH_SENSOR: &'static str = "Touch the sensor now\u{2026}";

/// What a plan of the large-blob store does to one entry it does to the entry
/// that the command names, and it changes the array only as the command says.
#[verifier::spinoff_prover]
#[verifier::rlimit(40)]
pub proof fn law_blob_plan_acts_on_the_named_entry(cmd: LargeBlobCmd, op: FidoOp)
    ensures
        blob_plan_spec(cmd).contains(op) <==> match op {
            FidoOp::Read(secret) => secret == FidoSecret::Pin && !(cmd is List || cmd is Get || cmd is Export),
            FidoOp::ReadBlobs => true,
            FidoOp::BlobList => cmd is List,
            FidoOp::BlobGet(n) => cmd matches LargeBlobCmd::Get { index } && n == index,
            FidoOp::BlobAdd => cmd is Add,
            FidoOp::BlobEdit(n) => cmd matches LargeBlobCmd::Edit { index, .. } && n == index,
            FidoOp::BlobDelete(n, sure) => cmd matches LargeBlobCmd::Delete { index, yes, .. } && n == index && sure
                == yes,
            FidoOp::BlobClear(sure) => cmd matches LargeBlobCmd::Clear { yes, .. } && sure == yes,
            FidoOp::BlobExport(n, cert) => cmd matches LargeBlobCmd::Export { index, as_cert, .. } && n == index
                && cert == as_cert,
            FidoOp::WriteBlobs => !(cmd is List || cmd is Get || cmd is Export),
            FidoOp::Report => !(cmd is List || cmd is Get || cmd is Export),
            _ => false,
        },
{
    lemma_short_plan(blob_plan_spec(cmd), op);
}

/// A plan of the SSH certificates asks for the PIN, looks for the credentials,
/// and lists them or extracts one, as the command says.
pub proof fn law_ssh_plan_is_what_was_asked(cmd: SshCertCmd, op: FidoOp)
    ensures
        ssh_plan_spec(cmd).contains(op) <==> match op {
            FidoOp::Read(secret) => secret == FidoSecret::Pin,
            FidoOp::FindSshCredentials => true,
            FidoOp::SshList => cmd is List,
            FidoOp::SshExtract => cmd is Extract,
            _ => false,
        },
{
    lemma_short_plan(ssh_plan_spec(cmd), op);
}

/// A FIDO2 plan asks for the PINs that it has a use for, reaches the key in the
/// way that its work needs, and does what the command is for and nothing else.
#[verifier::spinoff_prover]
#[verifier::rlimit(60)]
pub proof fn law_fido_plan_is_what_was_asked(cmd: FidoCmd, hint: Seq<char>, op: FidoOp)
    requires
        fido_plan_spec(cmd, hint) is Ok,
        !(cmd is LargeBlob) && !(cmd is SshCert),
    ensures
        fido_plan_spec(cmd, hint)->Ok_0.contains(op) <==> match op {
            FidoOp::Read(FidoSecret::OldPin) => cmd is PinChange,
            FidoOp::Read(FidoSecret::NewPin) => cmd is PinSet || cmd is PinChange,
            FidoOp::Read(FidoSecret::Pin) => !(cmd is Info || cmd is Reset || cmd is PinRetries || cmd is PinSet
                || cmd is PinChange),
            FidoOp::DecodeCredId => cmd is CredsDelete,
            FidoOp::DecodeTemplateId => cmd is FingerprintRename || cmd is FingerprintDelete,
            FidoOp::Open => match cmd {
                FidoCmd::Reset { reader, .. } => reader is None,
                FidoCmd::Info | FidoCmd::PinRetries | FidoCmd::PinSet { .. } | FidoCmd::PinChange { .. } => true,
                _ => false,
            },
            FidoOp::OpenReader => cmd matches FidoCmd::Reset { reader, .. } && reader is Some,
            FidoOp::OpenSession(FidoSession::Credentials) => cmd is CredsMetadata || cmd is CredsList || cmd
                is CredsDelete,
            FidoOp::OpenSession(FidoSession::Fingerprints) => cmd is FingerprintList || cmd is FingerprintEnroll
                || cmd is FingerprintRename || cmd is FingerprintDelete,
            FidoOp::OpenSession(FidoSession::Configuration) => cmd is AlwaysUv || cmd is SetMinPin || cmd
                is ForcePinChange || cmd is EnterpriseAttestation,
            FidoOp::Info => cmd is Info,
            FidoOp::Reset => cmd is Reset,
            FidoOp::PinRetries => cmd is PinRetries,
            FidoOp::SetPin => cmd is PinSet,
            FidoOp::ChangePin => cmd is PinChange,
            FidoOp::CredsMetadata => cmd is CredsMetadata,
            FidoOp::CredsList => cmd is CredsList,
            FidoOp::CredsDelete => cmd is CredsDelete,
            FidoOp::FpList => cmd is FingerprintList,
            FidoOp::FpEnroll => cmd is FingerprintEnroll,
            FidoOp::FpRename => cmd is FingerprintRename,
            FidoOp::FpDelete => cmd is FingerprintDelete,
            FidoOp::ToggleAlwaysUv => cmd is AlwaysUv,
            FidoOp::SetMinPin(n, change) => cmd matches FidoCmd::SetMinPin { length, force_change, .. } && n == length
                && change == force_change,
            FidoOp::ForcePinChange => cmd is ForcePinChange,
            FidoOp::EnterpriseAttestation => cmd is EnterpriseAttestation,
            FidoOp::Report => !(cmd is Info || cmd is PinRetries || cmd is CredsMetadata || cmd is CredsList || cmd
                is FingerprintList || cmd is FingerprintEnroll),
            _ => false,
        },
{
    lemma_short_plan(fido_plan_spec(cmd, hint)->Ok_0, op);
}

/// A command within a FIDO2 command is planned as it is on its own, and only an
/// unconfirmed reset is refused.
pub proof fn law_fido_plan_hands_on(cmd: FidoCmd, hint: Seq<char>)
    ensures
        cmd matches FidoCmd::LargeBlob { cmd: c } ==> fido_plan_spec(cmd, hint) == Ok::<Seq<FidoOp>, Seq<char>>(
            blob_plan_spec(c),
        ),
        cmd matches FidoCmd::SshCert { cmd: c } ==> fido_plan_spec(cmd, hint) == Ok::<Seq<FidoOp>, Seq<char>>(
            ssh_plan_spec(c),
        ),
        fido_plan_spec(cmd, hint) is Err <==> (cmd matches FidoCmd::Reset { yes, .. } && !yes),
{
}

/// When an operation of a FIDO2 plan has its turn.
pub open spec fn fido_turn(op: FidoOp) -> int {
    match op {
        FidoOp::Read(FidoSecret::OldPin) => 0,
        FidoOp::Read(_) => 1,
        FidoOp::DecodeCredId => 2,
        FidoOp::DecodeTemplateId => 2,
        FidoOp::Open => 3,
        FidoOp::OpenReader => 3,
        FidoOp::OpenSession(_) => 3,
        FidoOp::ReadBlobs => 3,
        FidoOp::FindSshCredentials => 3,
        FidoOp::WriteBlobs => 5,
        FidoOp::Report => 6,
        _ => 4,
    }
}

/// The operations of a FIDO2 plan keep their turns, and none is done twice.
#[verifier::spinoff_prover]
#[verifier::rlimit(40)]
pub proof fn law_fido_plan_keeps_its_turns(cmd: FidoCmd, hint: Seq<char>, i: int, j: int)
    requires
        fido_plan_spec(cmd, hint) is Ok,
        0 <= i < j < fido_plan_spec(cmd, hint)->Ok_0.len(),
    ensures
        fido_turn(fido_plan_spec(cmd, hint)->Ok_0[i]) < fido_turn(fido_plan_spec(cmd, hint)->Ok_0[j]),
{
}

/// What is said of a credential or a fingerprint names it, and of a least PIN
/// length the length that was set.
pub proof fn law_fido_message_names_its_subject(cmd: FidoCmd, id: Seq<char>)
    ensures
        match cmd {
            FidoCmd::CredsDelete { .. } | FidoCmd::FingerprintDelete { .. } => fido_done_text(cmd, id) matches Some(t)
                && has_run(t, id),
            FidoCmd::FingerprintRename { name, .. } => fido_done_text(cmd, id) matches Some(t) && has_run(
                t,
                id + " to \""@ + name@,
            ),
            FidoCmd::SetMinPin { length, .. } => fido_done_text(cmd, id) matches Some(t) && has_run(
                t,
                dec_text(length as nat),
            ),
            _ => true,
        },
        cmd matches FidoCmd::SetMinPin { force_change, .. } && force_change ==> has_run(
            fido_done_text(cmd, id)->0,
            "A PIN change is now required on next use."@,
        ),
{
    if let Some(t) = fido_done_text(cmd, id) {
        match cmd {
            FidoCmd::CredsDelete { .. } => lemma_holds(t, "Credential "@, id, " deleted."@),
            FidoCmd::FingerprintDelete { .. } => lemma_holds(t, "Fingerprint "@, id, " deleted."@),
            FidoCmd::FingerprintRename { name, .. } => lemma_holds(t, "Renamed "@, id + " to \""@ + name@, "\"."@),
            FidoCmd::SetMinPin { length, force_change, .. } => {
                let n = dec_text(length as nat);
                let more = if force_change {
                    " A PIN change is now required on next use."@
                } else {
                    ""@
                };
                lemma_holds(t, "Minimum PIN length set to "@, n, "."@ + more);
                if force_change {
                    reveal_strlit(" A PIN change is now required on next use.");
                    reveal_strlit(" ");
                    reveal_strlit("A PIN change is now required on next use.");
                    assert(more =~= " "@ + "A PIN change is now required on next use."@);
                    lemma_holds(
                        t,
                        "Minimum PIN length set to "@ + n + "."@ + " "@,
                        "A PIN change is now required on next use."@,
                        Seq::empty(),
                    );
                }
            },
            _ => {},
        }
    }
}

} // verus!
