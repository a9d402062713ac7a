//! The PIV commands: what each one does, in which order, and what it says.
//!
//! A command becomes a plan: a list of operations that are carried out one
//! after the other until one fails. All secrets are read before the card is
//! opened, and nothing that the management key protects comes before its
//! authentication.

use crate::args::{KeyAlg, MgmtAlg, PinPolicy, Slot, TouchPolicy};
use crate::plan::lemma_short_plan;
use crate::secrets::SecretOpts;
use crate::text::{cat3, cat5, dec_text, dec_u32};
use vstd::prelude::*;

verus! {

/// A key pair to be made before it is signed with.
#[derive(Debug)]
pub struct InlineKeyGen {
    /// Whether to make one.
    pub generate_key: bool,
    /// Its algorithm.
    pub algorithm: KeyAlg,
    /// When it asks for the PIN.
    pub pin_policy: PinPolicy,
    /// When it asks for a touch.
    pub touch_policy: TouchPolicy,
    /// Where to leave a copy of its public key.
    pub save_pubkey: Option<String>,
}

/// A PIV command, its reader selector apart.
#[derive(Debug)]
pub enum PivCmd {
    /// Show the state of the applet.
    Status,
    /// Change the PIN.
    ChangePin { old_pin: SecretOpts, new_pin: SecretOpts },
    /// Change the PUK.
    ChangePuk { old_puk: SecretOpts, new_puk: SecretOpts },
    /// Set a new PIN with the PUK.
    UnblockPin { puk: SecretOpts, new_pin: SecretOpts },
    /// Set how many tries PIN and PUK have.
    SetRetries { pin_tries: u8, puk_tries: u8, mgmt_key: SecretOpts, pin: SecretOpts },
    /// Change the management key.
    ChangeManagementKey { old_key: SecretOpts, new_key: SecretOpts, new_algorithm: MgmtAlg, touch: bool },
    /// Make a key pair on the card.
    GenerateKey {
        slot: Slot,
        algorithm: KeyAlg,
        pin_policy: PinPolicy,
        touch_policy: TouchPolicy,
        mgmt_key: SecretOpts,
        save_pubkey: Option<String>,
    },
    /// Store a certificate.
    ImportCert { slot: Slot, file: String, mgmt_key: SecretOpts },
    /// Read a certificate.
    ExportCert { slot: Slot, file: Option<String> },
    /// Sign a certificate request.
    RequestCert {
        slot: Slot,
        subject: String,
        pin: SecretOpts,
        file: Option<String>,
        load_pubkey: Option<String>,
        mgmt_key: SecretOpts,
        keygen: InlineKeyGen,
    },
    /// Make a self-signed certificate and store it.
    SelfSign {
        slot: Slot,
        subject: String,
        days: u32,
        pin: SecretOpts,
        mgmt_key: SecretOpts,
        file: Option<String>,
        load_pubkey: Option<String>,
        keygen: InlineKeyGen,
    },
    /// Test the key of a slot against its certificate.
    Test { slot: Slot, pin: SecretOpts },
    /// Write a new cardholder identifier.
    NewChuid { mgmt_key: SecretOpts, days: u32, guid: Option<String> },
    /// Wipe the applet.
    Reset { yes: bool },
    /// Clear the certificate of a slot.
    DeleteCert { slot: Slot, mgmt_key: SecretOpts, yes: bool },
    /// Delete the private key of a slot.
    DeleteKey { slot: Slot, mgmt_key: SecretOpts, yes: bool },
    /// Move a private key to another slot.
    MoveKey { from: Slot, to: Slot, mgmt_key: SecretOpts },
}

/// A secret a PIV command asks for.
#[derive(Clone, Copy, Debug, PartialEq, Eq, Structural)]
pub enum PivSecret {
    /// The PIN.
    Pin,
    /// The PIN in force.
    OldPin,
    /// The PIN to be.
    NewPin,
    /// The PUK.
    Puk,
    /// The PUK in force.
    OldPuk,
    /// The PUK to be.
    NewPuk,
    /// The management key.
    MgmtKey,
    /// The management key in force.
    OldMgmtKey,
    /// The management key to be.
    NewMgmtKey,
}

impl PivSecret {
    /// What the messages call it.
    pub open spec fn name(self) -> Seq<char> {
        match self {
            PivSecret::Pin => "PIN"@,
            PivSecret::OldPin => "old PIN"@,
            PivSecret::NewPin => "new PIN"@,
            PivSecret::Puk => "PUK"@,
            PivSecret::OldPuk => "old PUK"@,
            PivSecret::NewPuk => "new PUK"@,
            PivSecret::MgmtKey => "management key"@,
            PivSecret::OldMgmtKey => "old management key"@,
            PivSecret::NewMgmtKey => "new management key"@,
        }
    }

    /// What the messages call it.
    pub fn label(self) -> (r: &'static str)
        ensures
            r@ == self.name(),
    {
        match self {
            PivSecret::Pin => "PIN",
            PivSecret::OldPin => "old PIN",
            PivSecret::NewPin => "new PIN",
            PivSecret::Puk => "PUK",
            PivSecret::OldPuk => "old PUK",
            PivSecret::NewPuk => "new PUK",
            PivSecret::MgmtKey => "management key",
            PivSecret::OldMgmtKey => "old management key",
            PivSecret::NewMgmtKey => "new management key",
        }
    }
}

/// One operation of a plan.
#[derive(Clone, Copy, Debug, PartialEq, Eq, Structural)]
pub enum PivOp {
    /// Read a secret from where the command says it is.
    Read(PivSecret),
    /// Refuse a new management key whose length does not fit the cipher.
    CheckNewKey(MgmtAlg),
    /// Read the certificate to import, as DER.
    ReadCertificateFile,
    /// Read a public key from its file.
    ReadPubkeyFile,
    /// Take the identifier that was given, or draw one.
    ChooseGuid,
    /// Open the applet in the resolved reader.
    Open,
    /// Authenticate with the management key.
    AuthenticateManagement,
    /// Verify the PIN.
    VerifyPin,
    /// Read the state of the applet.
    ReadStatus,
    /// Show the state of the applet.
    ShowStatus,
    /// Change the PIN.
    ChangePin,
    /// Change the PUK.
    ChangePuk,
    /// Set a new PIN with the PUK.
    UnblockPin,
    /// Set the tries of PIN and PUK.
    SetRetries(u8, u8),
    /// Set the management key.
    SetManagementKey(MgmtAlg, bool),
    /// Make a key pair.
    GenerateKey(Slot, KeyAlg, PinPolicy, TouchPolicy),
    /// Write the public key just made to its file.
    SavePubkey,
    /// Print the public key just made.
    PrintPubkey,
    /// Store a certificate.
    ImportCertificate(Slot),
    /// Read a certificate and hand it out.
    ExportCertificate(Slot),
    /// Keep a public key for the slot in the session.
    RememberPubkey(Slot),
    /// Sign a certificate request.
    SignRequest(Slot),
    /// Sign and store a certificate that is valid from then on, for that many
    /// days.
    SelfSign(Slot, u32),
    /// Run the self-tests.
    SelfTest(Slot),
    /// Fix the date that the cardholder identifier expires: that many days from
    /// then on.
    ChooseExpiry(u32),
    /// Write the cardholder identifier.
    WriteChuid,
    /// Wipe the applet, or refuse.
    Reset(bool),
    /// Clear a certificate.
    ClearCertificate(Slot),
    /// Delete a private key.
    DeleteKey(Slot),
    /// Move a private key.
    MoveKey(Slot, Slot),
    /// Say that it is done.
    Report,
}

/// Day number of the last date a certificate or an identifier can carry,
/// 9999-12-31, counted from 1970-01-01.
pub const LAST_DAY: u32 = 2932896;

/// Seconds in a day.
pub const DAY_SECONDS: u32 = 86400;

/// The largest number of days from `now` whose date can be represented.
pub open spec fn max_days(now: u32) -> int {
    LAST_DAY - (now / DAY_SECONDS)
}

/// The largest number of days from `now` (in seconds since 1970) whose date
/// can still be represented with a four-digit year.
pub fn max_valid_days(now: u32) -> (r: u32)
    ensures
        r == max_days(now),
{
    LAST_DAY - now / DAY_SECONDS
}

/// The message for a validity that is too long.
pub open spec fn days_text(days: u32, max: nat) -> Seq<char> {
    "--days "@ + dec_text(days as nat) + " exceeds the largest representable value ("@ + dec_text(max)
        + " days from now) — a CHUID/certificate date is a 4-digit year, capped at 9999-12-31"@
}

/// Refuses a number of days beyond what a certificate or an identifier can
/// represent.
pub fn check_valid_days(days: u32, now: u32) -> (r: Result<(), String>)
    ensures
        r is Ok <==> days <= max_days(now),
        r matches Err(e) ==> e@ == days_text(days, max_days(now) as nat),
{
    let max = max_valid_days(now);
    if days > max {
        return Err(
            cat5(
                "--days ",
                dec_u32(days).as_str(),
                " exceeds the largest representable value (",
                dec_u32(max).as_str(),
                " days from now) — a CHUID/certificate date is a 4-digit year, capped at 9999-12-31",
            ),
        );
    }
    Ok(())
}

/// The second that a certificate is valid until which was signed at `now`.
pub open spec fn valid_until(now: u32, days: u32) -> int {
    now + days * DAY_SECONDS
}

/// The two ends of the validity of a certificate that is signed at `now`, in
/// seconds since 1970.
pub fn validity(now: u32, days: u32) -> (r: (i64, i64))
    ensures
        r.0 == now,
        r.1 == valid_until(now, days),
{
    (now as i64, now as i64 + (days as i64) * 86400)
}

/// Why a retry count of zero is refused.
pub const ZERO_RETRIES: &'static str = "retry counts must be at least 1 — a zero count would leave the PIN or PUK permanently blocked";

/// Whether an option was offered at all.
pub open spec fn offered(o: SecretOpts) -> bool {
    o.env is Some || o.stdin
}

/// The operations that make a key pair before signing.
pub open spec fn keygen_ops(slot: Slot, keygen: InlineKeyGen) -> Seq<PivOp> {
    let make = PivOp::GenerateKey(slot, keygen.algorithm, keygen.pin_policy, keygen.touch_policy);
    if keygen.save_pubkey is Some {
        seq![make, PivOp::SavePubkey]
    } else {
        seq![make]
    }
}

/// The operations that bring a public key from its file.
pub open spec fn load_ops(slot: Slot, load_pubkey: Option<String>) -> Seq<PivOp> {
    if load_pubkey is Some {
        seq![PivOp::ReadPubkeyFile, PivOp::RememberPubkey(slot)]
    } else {
        Seq::empty()
    }
}

/// What each command does, in order, or why it refuses before it begins.
pub open spec fn piv_plan_spec(cmd: PivCmd, now: u32, slot_label: Seq<char>) -> Result<Seq<PivOp>, Seq<char>> {
    match cmd {
        PivCmd::Status => Ok(seq![PivOp::Open, PivOp::ReadStatus, PivOp::ShowStatus]),
        PivCmd::ChangePin { .. } => Ok(
            seq![
                PivOp::Read(PivSecret::OldPin),
                PivOp::Read(PivSecret::NewPin),
                PivOp::Open,
                PivOp::ChangePin,
                PivOp::Report,
            ],
        ),
        PivCmd::ChangePuk { .. } => Ok(
            seq![
                PivOp::Read(PivSecret::OldPuk),
                PivOp::Read(PivSecret::NewPuk),
                PivOp::Open,
                PivOp::ChangePuk,
                PivOp::Report,
            ],
        ),
        PivCmd::UnblockPin { .. } => Ok(
            seq![
                PivOp::Read(PivSecret::Puk),
                PivOp::Read(PivSecret::NewPin),
                PivOp::Open,
                PivOp::UnblockPin,
                PivOp::Report,
            ],
        ),
        PivCmd::SetRetries { pin_tries, puk_tries, .. } => if pin_tries == 0 || puk_tries == 0 {
            Err(ZERO_RETRIES@)
        } else {
            Ok(
                seq![
                    PivOp::Read(PivSecret::MgmtKey),
                    PivOp::Read(PivSecret::Pin),
                    PivOp::Open,
                    PivOp::AuthenticateManagement,
                    PivOp::VerifyPin,
                    PivOp::SetRetries(pin_tries, puk_tries),
                    PivOp::Report,
                ],
            )
        },
        PivCmd::ChangeManagementKey { new_algorithm, touch, .. } => Ok(
            seq![
                PivOp::Read(PivSecret::OldMgmtKey),
                PivOp::Read(PivSecret::NewMgmtKey),
                PivOp::CheckNewKey(new_algorithm),
                PivOp::Open,
                PivOp::AuthenticateManagement,
                PivOp::SetManagementKey(new_algorithm, touch),
                PivOp::Report,
            ],
        ),
        PivCmd::GenerateKey { slot, algorithm, pin_policy, touch_policy, save_pubkey, .. } => {
            let head = seq![
                PivOp::Read(PivSecret::MgmtKey),
                PivOp::Open,
                PivOp::AuthenticateManagement,
                PivOp::GenerateKey(slot, algorithm, pin_policy, touch_policy),
            ];
            if save_pubkey is Some {
                Ok(head.push(PivOp::SavePubkey).push(PivOp::PrintPubkey))
            } else {
                Ok(head.push(PivOp::PrintPubkey))
            }
        },
        PivCmd::ImportCert { slot, .. } => Ok(
            seq![
                PivOp::Read(PivSecret::MgmtKey),
                PivOp::ReadCertificateFile,
                PivOp::Open,
                PivOp::AuthenticateManagement,
                PivOp::ImportCertificate(slot),
                PivOp::Report,
            ],
        ),
        PivCmd::ExportCert { slot, .. } => Ok(seq![PivOp::Open, PivOp::ExportCertificate(slot)]),
        PivCmd::RequestCert { slot, load_pubkey, keygen, .. } => {
            let head = if keygen.generate_key {
                seq![
                    PivOp::Read(PivSecret::Pin),
                    PivOp::Read(PivSecret::MgmtKey),
                    PivOp::Open,
                    PivOp::AuthenticateManagement,
                ] + keygen_ops(slot, keygen)
            } else {
                seq![PivOp::Read(PivSecret::Pin), PivOp::Open] + load_ops(slot, load_pubkey)
            };
            Ok(head.push(PivOp::SignRequest(slot)))
        },
        PivCmd::SelfSign { slot, days, load_pubkey, keygen, .. } => if days == 0 {
            Err("validity must be at least 1 day"@)
        } else if days > max_days(now) {
            Err(days_text(days, max_days(now) as nat))
        } else {
            let head = seq![
                PivOp::Read(PivSecret::MgmtKey),
                PivOp::Read(PivSecret::Pin),
                PivOp::Open,
                PivOp::AuthenticateManagement,
            ];
            let key = if keygen.generate_key {
                keygen_ops(slot, keygen)
            } else {
                load_ops(slot, load_pubkey)
            };
            Ok((head + key).push(PivOp::SelfSign(slot, days)).push(PivOp::Report))
        },
        PivCmd::Test { slot, pin } => if offered(pin) {
            Ok(seq![PivOp::Read(PivSecret::Pin), PivOp::Open, PivOp::SelfTest(slot)])
        } else {
            Ok(seq![PivOp::Open, PivOp::SelfTest(slot)])
        },
        PivCmd::NewChuid { days, .. } => if days > max_days(now) {
            Err(days_text(days, max_days(now) as nat))
        } else {
            Ok(
                seq![
                    PivOp::ChooseGuid,
                    PivOp::ChooseExpiry(days),
                    PivOp::Read(PivSecret::MgmtKey),
                    PivOp::Open,
                    PivOp::AuthenticateManagement,
                    PivOp::WriteChuid,
                    PivOp::Report,
                ],
            )
        },
        PivCmd::Reset { yes } => Ok(seq![PivOp::Open, PivOp::ReadStatus, PivOp::Reset(yes), PivOp::Report]),
        PivCmd::DeleteCert { slot, yes, .. } => if yes {
            Ok(
                seq![
                    PivOp::Read(PivSecret::MgmtKey),
                    PivOp::Open,
                    PivOp::AuthenticateManagement,
                    PivOp::ClearCertificate(slot),
                    PivOp::Report,
                ],
            )
        } else {
            Err(
                "refusing to clear the certificate in "@ + slot_label
                    + " without --yes (this is irreversible; the slot's private key is left in place)"@,
            )
        },
        PivCmd::DeleteKey { slot, yes, .. } => if yes {
            Ok(
                seq![
                    PivOp::Read(PivSecret::MgmtKey),
                    PivOp::Open,
                    PivOp::AuthenticateManagement,
                    PivOp::DeleteKey(slot),
                    PivOp::Report,
                ],
            )
        } else {
            Err(
                "refusing to delete the private key in "@ + slot_label
                    + " without --yes (this is irreversible; the key material cannot be recovered)"@,
            )
        },
        PivCmd::MoveKey { from, to, .. } => Ok(
            seq![
                PivOp::Read(PivSecret::MgmtKey),
                PivOp::Open,
                PivOp::AuthenticateManagement,
                PivOp::MoveKey(from, to),
                PivOp::Report,
            ],
        ),
    }
}

/// What a planning result holds.
pub open spec fn plan_result(r: Result<Vec<PivOp>, String>) -> Result<Seq<PivOp>, Seq<char>> {
    match r {
        Ok(v) => Ok(v@),
        Err(e) => Err(e@),
    }
}

fn push_keygen(plan: &mut Vec<PivOp>, slot: Slot, keygen: &InlineKeyGen)
    ensures
        final(plan)@ == old(plan)@ + keygen_ops(slot, *keygen),
{
    let ghost before = plan@;
    plan.push(PivOp::GenerateKey(slot, keygen.algorithm, keygen.pin_policy, keygen.touch_policy));
    if keygen.save_pubkey.is_some() {
        plan.push(PivOp::SavePubkey);
    }
    assert(plan@ =~= before + keygen_ops(slot, *keygen));
}

fn push_load(plan: &mut Vec<PivOp>, slot: Slot, load_pubkey: &Option<String>)
    ensures
        final(plan)@ == old(plan)@ + load_ops(slot, *load_pubkey),
{
    let ghost before = plan@;
    if load_pubkey.is_some() {
        plan.push(PivOp::ReadPubkeyFile);
        plan.push(PivOp::RememberPubkey(slot));
    }
    assert(plan@ =~= before + load_ops(slot, *load_pubkey));
}

/// Plans a PIV command. `now` is the time in seconds since 1970 that a number
/// of days is checked against, `slot_label` the name of the slot the command is
/// about.
pub fn run_piv(cmd: &PivCmd, now: u32, slot_label: &str) -> (r: Result<Vec<PivOp>, String>)
    ensures
        plan_result(r) == piv_plan_spec(*cmd, now, slot_label@),
{
    let ghost want = piv_plan_spec(*cmd, now, slot_label@);
    let plan: Vec<PivOp> = match cmd {
        PivCmd::Status => vec![PivOp::Open, PivOp::ReadStatus, PivOp::ShowStatus],
        PivCmd::ChangePin { .. } => vec![
            PivOp::Read(PivSecret::OldPin),
            PivOp::Read(PivSecret::NewPin),
            PivOp::Open,
            PivOp::ChangePin,
            PivOp::Report,
        ],
        PivCmd::ChangePuk { .. } => vec![
            PivOp::Read(PivSecret::OldPuk),
            PivOp::Read(PivSecret::NewPuk),
            PivOp::Open,
            PivOp::ChangePuk,
            PivOp::Report,
        ],
        PivCmd::UnblockPin { .. } => vec![
            PivOp::Read(PivSecret::Puk),
            PivOp::Read(PivSecret::NewPin),
            PivOp::Open,
            PivOp::UnblockPin,
            PivOp::Report,
        ],
        PivCmd::SetRetries { pin_tries, puk_tries, .. } => {
            if *pin_tries == 0 || *puk_tries == 0 {
                return Err(ZERO_RETRIES.to_owned());
            }
            vec![
                PivOp::Read(PivSecret::MgmtKey),
                PivOp::Read(PivSecret::Pin),
                PivOp::Open,
                PivOp::AuthenticateManagement,
                PivOp::VerifyPin,
                PivOp::SetRetries(*pin_tries, *puk_tries),
                PivOp::Report,
            ]
        },
        PivCmd::ChangeManagementKey { new_algorithm, touch, .. } => vec![
            PivOp::Read(PivSecret::OldMgmtKey),
            PivOp::Read(PivSecret::NewMgmtKey),
            PivOp::CheckNewKey(*new_algorithm),
            PivOp::Open,
            PivOp::AuthenticateManagement,
            PivOp::SetManagementKey(*new_algorithm, *touch),
            PivOp::Report,
        ],
        PivCmd::GenerateKey { slot, algorithm, pin_policy, touch_policy, save_pubkey, .. } => {
            let mut p: Vec<PivOp> = vec![
                PivOp::Read(PivSecret::MgmtKey),
                PivOp::Open,
                PivOp::AuthenticateManagement,
                PivOp::GenerateKey(*slot, *algorithm, *pin_policy, *touch_policy),
            ];
            if save_pubkey.is_some() {
                p.push(PivOp::SavePubkey);
            }
            p.push(PivOp::PrintPubkey);
            p
        },
        PivCmd::ImportCert { slot, .. } => vec![
            PivOp::Read(PivSecret::MgmtKey),
            PivOp::ReadCertificateFile,
            PivOp::Open,
            PivOp::AuthenticateManagement,
            PivOp::ImportCertificate(*slot),
            PivOp::Report,
        ],
        PivCmd::ExportCert { slot, .. } => vec![PivOp::Open, PivOp::ExportCertificate(*slot)],
        PivCmd::RequestCert { slot, load_pubkey, keygen, .. } => {
            let mut p: Vec<PivOp> = vec![PivOp::Read(PivSecret::Pin)];
            if keygen.generate_key {
                p.push(PivOp::Read(PivSecret::MgmtKey));
                p.push(PivOp::Open);
                p.push(PivOp::AuthenticateManagement);
                assert(p@ =~= seq![
                    PivOp::Read(PivSecret::Pin),
                    PivOp::Read(PivSecret::MgmtKey),
                    PivOp::Open,
                    PivOp::AuthenticateManagement,
                ]);
                push_keygen(&mut p, *slot, keygen);
            } else {
                p.push(PivOp::Open);
                assert(p@ =~= seq![PivOp::Read(PivSecret::Pin), PivOp::Open]);
                push_load(&mut p, *slot, load_pubkey);
            }
            p.push(PivOp::SignRequest(*slot));
            p
        },
        PivCmd::SelfSign { slot, days, load_pubkey, keygen, .. } => {
            if *days == 0 {
                return Err("validity must be at least 1 day".to_owned());
            }
            match check_valid_days(*days, now) {
                Err(e) => {
                    return Err(e);
                },
                Ok(_) => {},
            }
            let mut p: Vec<PivOp> = vec![
                PivOp::Read(PivSecret::MgmtKey),
                PivOp::Read(PivSecret::Pin),
                PivOp::Open,
                PivOp::AuthenticateManagement,
            ];
            assert(p@ =~= seq![
                PivOp::Read(PivSecret::MgmtKey),
                PivOp::Read(PivSecret::Pin),
                PivOp::Open,
                PivOp::AuthenticateManagement,
            ]);
            if keygen.generate_key {
                push_keygen(&mut p, *slot, keygen);
            } else {
                push_load(&mut p, *slot, load_pubkey);
            }
            p.push(PivOp::SelfSign(*slot, *days));
            p.push(PivOp::Report);
            p
        },
        PivCmd::Test { slot, pin } => {
            if pin.env.is_some() || pin.stdin {
                vec![PivOp::Read(PivSecret::Pin), PivOp::Open, PivOp::SelfTest(*slot)]
            } else {
                vec![PivOp::Open, PivOp::SelfTest(*slot)]
            }
        },
        PivCmd::NewChuid { days, .. } => {
            match check_valid_days(*days, now) {
                Err(e) => {
                    return Err(e);
                },
                Ok(_) => {},
            }
            vec![
                PivOp::ChooseGuid,
                PivOp::ChooseExpiry(*days),
                PivOp::Read(PivSecret::MgmtKey),
                PivOp::Open,
                PivOp::AuthenticateManagement,
                PivOp::WriteChuid,
                PivOp::Report,
            ]
        },
        PivCmd::Reset { yes } => vec![PivOp::Open, PivOp::ReadStatus, PivOp::Reset(*yes), PivOp::Report],
        PivCmd::DeleteCert { slot, yes, .. } => {
            if !*yes {
                return Err(
                    cat3(
                        "refusing to clear the certificate in ",
                        slot_label,
                        " without --yes (this is irreversible; the slot's private key is left in place)",
                    ),
                );
            }
            vec![
                PivOp::Read(PivSecret::MgmtKey),
                PivOp::Open,
                PivOp::AuthenticateManagement,
                PivOp::ClearCertificate(*slot),
                PivOp::Report,
            ]
        },
        PivCmd::DeleteKey { slot, yes, .. } => {
            if !*yes {
                return Err(
                    cat3(
                        "refusing to delete the private key in ",
                        slot_label,
                        " without --yes (this is irreversible; the key material cannot be recovered)",
                    ),
                );
            }
            vec![
                PivOp::Read(PivSecret::MgmtKey),
                PivOp::Open,
                PivOp::AuthenticateManagement,
                PivOp::DeleteKey(*slot),
                PivOp::Report,
            ]
        },
        PivCmd::MoveKey { from, to, .. } => vec![
            PivOp::Read(PivSecret::MgmtKey),
            PivOp::Open,
            PivOp::AuthenticateManagement,
            PivOp::MoveKey(*from, *to),
            PivOp::Report,
        ],
    };
    assert(want is Ok);
    assert(plan@ =~= want->Ok_0);
    Ok(plan)
}

/// Operations that the management key protects.
pub open spec fn needs_management(op: PivOp) -> bool {
    match op {
        PivOp::SetRetries(_, _) => true,
        PivOp::SetManagementKey(_, _) => true,
        PivOp::GenerateKey(_, _, _, _) => true,
        PivOp::ImportCertificate(_) => true,
        PivOp::SelfSign(_, _) => true,
        PivOp::WriteChuid => true,
        PivOp::ClearCertificate(_) => true,
        PivOp::DeleteKey(_) => true,
        PivOp::MoveKey(_, _) => true,
        _ => false,
    }
}

/// Operations that cannot be taken back.
pub open spec fn destroys(op: PivOp) -> bool {
    match op {
        PivOp::Reset(yes) => yes,
        PivOp::ClearCertificate(_) => true,
        PivOp::DeleteKey(_) => true,
        _ => false,
    }
}

/// Whether the user confirmed the command.
pub open spec fn confirmed(cmd: PivCmd) -> bool {
    match cmd {
        PivCmd::Reset { yes } => yes,
        PivCmd::DeleteCert { yes, .. } => yes,
        PivCmd::DeleteKey { yes, .. } => yes,
        _ => false,
    }
}

/// The last second of the year 9999, counted from 1970.
pub const LAST_SECOND: i64 = 253402300799;

/// A certificate is valid for at least a day. Its dates can say until when just
/// where its days are no more than can be represented at the time it is signed,
/// and so they can when that is on the day on which its days were checked.
pub proof fn law_validity_can_be_written(cmd: PivCmd, now: u32, label: Seq<char>, i: int, signed: u32)
    requires
        piv_plan_spec(cmd, now, label) is Ok,
        0 <= i < piv_plan_spec(cmd, now, label)->Ok_0.len(),
    ensures
        piv_plan_spec(cmd, now, label)->Ok_0[i] matches PivOp::SelfSign(_, days) ==> {
            &&& signed + DAY_SECONDS <= valid_until(signed, days)
            &&& valid_until(signed, days) <= LAST_SECOND <==> days <= max_days(signed)
            &&& signed / DAY_SECONDS == now / DAY_SECONDS ==> valid_until(signed, days) <= LAST_SECOND
        },
{
}

/// Nothing is destroyed unless the user confirmed it.
pub proof fn law_piv_destroys_only_when_confirmed(cmd: PivCmd, now: u32, label: Seq<char>, i: int)
    requires
        piv_plan_spec(cmd, now, label) is Ok,
        0 <= i < piv_plan_spec(cmd, now, label)->Ok_0.len(),
        destroys(piv_plan_spec(cmd, now, label)->Ok_0[i]),
    ensures
        confirmed(cmd),
{
}

/// The management key is authenticated before anything it protects.
pub proof fn law_piv_management_comes_first(cmd: PivCmd, now: u32, label: Seq<char>, i: int)
    requires
        piv_plan_spec(cmd, now, label) is Ok,
        0 <= i < piv_plan_spec(cmd, now, label)->Ok_0.len(),
        needs_management(piv_plan_spec(cmd, now, label)->Ok_0[i]),
    ensures
        exists|j: int|
            0 <= j < i && #[trigger] piv_plan_spec(cmd, now, label)->Ok_0[j] == PivOp::AuthenticateManagement,
{
    let plan = piv_plan_spec(cmd, now, label)->Ok_0;
    assert(plan[2] == PivOp::AuthenticateManagement || plan[3] == PivOp::AuthenticateManagement || plan[4]
        == PivOp::AuthenticateManagement);
}

/// All secrets are read before the card is opened.
pub proof fn law_piv_secrets_before_the_card(
    cmd: PivCmd,
    now: u32,
    label: Seq<char>,
    i: int,
    j: int,
    secret: PivSecret,
)
    requires
        piv_plan_spec(cmd, now, label) is Ok,
        0 <= i < piv_plan_spec(cmd, now, label)->Ok_0.len(),
        0 <= j < piv_plan_spec(cmd, now, label)->Ok_0.len(),
        piv_plan_spec(cmd, now, label)->Ok_0[i] == PivOp::Read(secret),
        piv_plan_spec(cmd, now, label)->Ok_0[j] == PivOp::Open,
    ensures
        i < j,
{
}

/// A PIV command asks for the secrets that it has a use for, and for no other.
/// The card is opened, and the management key authenticated where it is needed.
#[verifier::spinoff_prover]
#[verifier::rlimit(60)]
pub proof fn law_piv_asks_for_what_it_uses(cmd: PivCmd, now: u32, label: Seq<char>, op: PivOp)
    requires
        piv_plan_spec(cmd, now, label) is Ok,
    ensures
        match op {
            PivOp::Read(PivSecret::OldPin) => piv_plan_spec(cmd, now, label)->Ok_0.contains(op) <==> (cmd is ChangePin),
            PivOp::Read(PivSecret::NewPin) => piv_plan_spec(cmd, now, label)->Ok_0.contains(op) <==> (cmd is ChangePin || cmd is UnblockPin),
            PivOp::Read(PivSecret::OldPuk) => piv_plan_spec(cmd, now, label)->Ok_0.contains(op) <==> (cmd is ChangePuk),
            PivOp::Read(PivSecret::NewPuk) => piv_plan_spec(cmd, now, label)->Ok_0.contains(op) <==> (cmd is ChangePuk),
            PivOp::Read(PivSecret::Puk) => piv_plan_spec(cmd, now, label)->Ok_0.contains(op) <==> (cmd is UnblockPin),
            PivOp::Read(PivSecret::OldMgmtKey) => piv_plan_spec(cmd, now, label)->Ok_0.contains(op) <==> (cmd is ChangeManagementKey),
            PivOp::Read(PivSecret::NewMgmtKey) => piv_plan_spec(cmd, now, label)->Ok_0.contains(op) <==> (cmd is ChangeManagementKey),
            PivOp::Read(PivSecret::Pin) => piv_plan_spec(cmd, now, label)->Ok_0.contains(op) <==> (cmd is SetRetries || cmd is RequestCert || cmd is SelfSign || (
            cmd matches PivCmd::Test { pin, .. } && (pin.env is Some || pin.stdin))),
            PivOp::Read(PivSecret::MgmtKey) => piv_plan_spec(cmd, now, label)->Ok_0.contains(op) <==> (match cmd {
                PivCmd::RequestCert { keygen, .. } => keygen.generate_key,
                PivCmd::SetRetries { .. } | PivCmd::GenerateKey { .. } | PivCmd::ImportCert { .. }
                | PivCmd::SelfSign { .. } | PivCmd::NewChuid { .. } | PivCmd::DeleteCert { .. }
                | PivCmd::DeleteKey { .. } | PivCmd::MoveKey { .. } => true,
                _ => false,
            }),
            PivOp::AuthenticateManagement => piv_plan_spec(cmd, now, label)->Ok_0.contains(op) <==> (match cmd {
                PivCmd::RequestCert { keygen, .. } => keygen.generate_key,
                PivCmd::Status | PivCmd::ChangePin { .. } | PivCmd::ChangePuk { .. } | PivCmd::UnblockPin { .. }
                | PivCmd::ExportCert { .. } | PivCmd::Test { .. } | PivCmd::Reset { .. } => false,
                _ => true,
            }),
            PivOp::Open => piv_plan_spec(cmd, now, label)->Ok_0.contains(op) <==> (true),
            _ => true,
        },
{
    lemma_short_plan(piv_plan_spec(cmd, now, label)->Ok_0, op);
}

/// What PIV commands set stands in the role that the command gave it: the tries
/// of PIN and PUK, the management key and its cipher, the days of an identifier.
/// Nothing is set, shown or said to be done that another command is for.
#[verifier::spinoff_prover]
#[verifier::rlimit(60)]
pub proof fn law_piv_settings_are_the_given_ones(cmd: PivCmd, now: u32, label: Seq<char>, op: PivOp)
    requires
        piv_plan_spec(cmd, now, label) is Ok,
    ensures
        match op {
            PivOp::VerifyPin => piv_plan_spec(cmd, now, label)->Ok_0.contains(op) <==> (cmd is SetRetries),
            PivOp::ReadStatus => piv_plan_spec(cmd, now, label)->Ok_0.contains(op) <==> (cmd is Status || cmd is Reset),
            PivOp::ShowStatus => piv_plan_spec(cmd, now, label)->Ok_0.contains(op) <==> (cmd is Status),
            PivOp::ChangePin => piv_plan_spec(cmd, now, label)->Ok_0.contains(op) <==> (cmd is ChangePin),
            PivOp::ChangePuk => piv_plan_spec(cmd, now, label)->Ok_0.contains(op) <==> (cmd is ChangePuk),
            PivOp::UnblockPin => piv_plan_spec(cmd, now, label)->Ok_0.contains(op) <==> (cmd is UnblockPin),
            PivOp::SetRetries(pin, puk) => piv_plan_spec(cmd, now, label)->Ok_0.contains(op) <==> (cmd matches PivCmd::SetRetries { pin_tries, puk_tries, .. } && pin
                == pin_tries && puk == puk_tries),
            PivOp::CheckNewKey(alg) => piv_plan_spec(cmd, now, label)->Ok_0.contains(op) <==> (cmd matches PivCmd::ChangeManagementKey { new_algorithm, .. } && alg
                == new_algorithm),
            PivOp::SetManagementKey(alg, on_touch) => piv_plan_spec(cmd, now, label)->Ok_0.contains(op) <==> (cmd matches PivCmd::ChangeManagementKey {
                new_algorithm,
                touch,
                ..
            } && alg == new_algorithm && on_touch == touch),
            PivOp::ChooseGuid => piv_plan_spec(cmd, now, label)->Ok_0.contains(op) <==> (cmd is NewChuid),
            PivOp::ChooseExpiry(d) => piv_plan_spec(cmd, now, label)->Ok_0.contains(op) <==> (cmd matches PivCmd::NewChuid { days, .. } && d == days),
            PivOp::WriteChuid => piv_plan_spec(cmd, now, label)->Ok_0.contains(op) <==> (cmd is NewChuid),
            PivOp::Reset(sure) => piv_plan_spec(cmd, now, label)->Ok_0.contains(op) <==> (cmd matches PivCmd::Reset { yes } && sure == yes),
            PivOp::Report => piv_plan_spec(cmd, now, label)->Ok_0.contains(op) <==> (!(cmd is Status || cmd is GenerateKey || cmd is ExportCert || cmd is RequestCert
                || cmd is Test)),
            _ => true,
        },
{
    lemma_short_plan(piv_plan_spec(cmd, now, label)->Ok_0, op);
}

/// A key pair is made, moved or deleted just where the command says so: with the
/// algorithm and the policies it names, in the slot it names, from and to the
/// slots it names. A public key is loaded, saved or printed where it asks for it.
#[verifier::spinoff_prover]
#[verifier::rlimit(60)]
pub proof fn law_piv_keys_stay_in_their_slots(cmd: PivCmd, now: u32, label: Seq<char>, op: PivOp)
    requires
        piv_plan_spec(cmd, now, label) is Ok,
    ensures
        match op {
            PivOp::GenerateKey(s, a, p, t) => piv_plan_spec(cmd, now, label)->Ok_0.contains(op) <==> (match cmd {
                PivCmd::GenerateKey { slot, algorithm, pin_policy, touch_policy, .. } => s == slot && a == algorithm
                    && p == pin_policy && t == touch_policy,
                PivCmd::RequestCert { slot, keygen, .. } => keygen.generate_key && s == slot && a == keygen.algorithm
                    && p == keygen.pin_policy && t == keygen.touch_policy,
                PivCmd::SelfSign { slot, keygen, .. } => keygen.generate_key && s == slot && a == keygen.algorithm
                    && p == keygen.pin_policy && t == keygen.touch_policy,
                _ => false,
            }),
            PivOp::SavePubkey => piv_plan_spec(cmd, now, label)->Ok_0.contains(op) <==> (match cmd {
                PivCmd::GenerateKey { save_pubkey, .. } => save_pubkey is Some,
                PivCmd::RequestCert { keygen, .. } => keygen.generate_key && keygen.save_pubkey is Some,
                PivCmd::SelfSign { keygen, .. } => keygen.generate_key && keygen.save_pubkey is Some,
                _ => false,
            }),
            PivOp::PrintPubkey => piv_plan_spec(cmd, now, label)->Ok_0.contains(op) <==> (cmd is GenerateKey),
            PivOp::ReadPubkeyFile => piv_plan_spec(cmd, now, label)->Ok_0.contains(op) <==> (match cmd {
                PivCmd::RequestCert { load_pubkey, keygen, .. } => !keygen.generate_key && load_pubkey is Some,
                PivCmd::SelfSign { load_pubkey, keygen, .. } => !keygen.generate_key && load_pubkey is Some,
                _ => false,
            }),
            PivOp::RememberPubkey(s) => piv_plan_spec(cmd, now, label)->Ok_0.contains(op) <==> (match cmd {
                PivCmd::RequestCert { slot, load_pubkey, keygen, .. } => !keygen.generate_key && load_pubkey is Some
                    && s == slot,
                PivCmd::SelfSign { slot, load_pubkey, keygen, .. } => !keygen.generate_key && load_pubkey is Some
                    && s == slot,
                _ => false,
            }),
            PivOp::ClearCertificate(s) => piv_plan_spec(cmd, now, label)->Ok_0.contains(op) <==> (cmd matches PivCmd::DeleteCert { slot, .. } && s == slot),
            PivOp::DeleteKey(s) => piv_plan_spec(cmd, now, label)->Ok_0.contains(op) <==> (cmd matches PivCmd::DeleteKey { slot, .. } && s == slot),
            PivOp::MoveKey(source, target) => piv_plan_spec(cmd, now, label)->Ok_0.contains(op) <==> (cmd matches PivCmd::MoveKey { from, to, .. } && source == from
                && target == to),
            _ => true,
        },
{
    lemma_short_plan(piv_plan_spec(cmd, now, label)->Ok_0, op);
}

/// A certificate is imported, exported, requested, signed or tested for the slot
/// that the command names, and signed for the days it names.
#[verifier::spinoff_prover]
#[verifier::rlimit(60)]
pub proof fn law_piv_certificates_stay_in_their_slots(cmd: PivCmd, now: u32, label: Seq<char>, op: PivOp)
    requires
        piv_plan_spec(cmd, now, label) is Ok,
    ensures
        match op {
            PivOp::ReadCertificateFile => piv_plan_spec(cmd, now, label)->Ok_0.contains(op) <==> (cmd is ImportCert),
            PivOp::ImportCertificate(s) => piv_plan_spec(cmd, now, label)->Ok_0.contains(op) <==> (cmd matches PivCmd::ImportCert { slot, .. } && s == slot),
            PivOp::ExportCertificate(s) => piv_plan_spec(cmd, now, label)->Ok_0.contains(op) <==> (cmd matches PivCmd::ExportCert { slot, .. } && s == slot),
            PivOp::SignRequest(s) => piv_plan_spec(cmd, now, label)->Ok_0.contains(op) <==> (cmd matches PivCmd::RequestCert { slot, .. } && s == slot),
            PivOp::SelfSign(s, d) => piv_plan_spec(cmd, now, label)->Ok_0.contains(op) <==> (cmd matches PivCmd::SelfSign { slot, days, .. } && s == slot && d == days),
            PivOp::SelfTest(s) => piv_plan_spec(cmd, now, label)->Ok_0.contains(op) <==> (cmd matches PivCmd::Test { slot, .. } && s == slot),
            _ => true,
        },
{
    lemma_short_plan(piv_plan_spec(cmd, now, label)->Ok_0, op);
}

/// When an operation of a PIV plan has its turn. The secret that is in force is
/// asked for before the one that replaces it.
pub open spec fn piv_turn(cmd: PivCmd, op: PivOp) -> int {
    match op {
        PivOp::ChooseGuid => 0,
        PivOp::ChooseExpiry(_) => 1,
        PivOp::Read(PivSecret::Pin) => if cmd is RequestCert {
            2
        } else {
            4
        },
        PivOp::Read(PivSecret::NewPin) => 4,
        PivOp::Read(PivSecret::NewPuk) => 4,
        PivOp::Read(PivSecret::NewMgmtKey) => 4,
        PivOp::Read(_) => 3,
        PivOp::CheckNewKey(_) => 5,
        PivOp::ReadCertificateFile => 5,
        PivOp::Open => 6,
        PivOp::AuthenticateManagement => 7,
        PivOp::VerifyPin => 8,
        PivOp::ReadStatus => 8,
        PivOp::ReadPubkeyFile => 8,
        PivOp::RememberPubkey(_) => 9,
        PivOp::GenerateKey(_, _, _, _) => 9,
        PivOp::SavePubkey => 10,
        PivOp::Report => 12,
        _ => 11,
    }
}

/// The operations of a PIV plan keep their turns, and none is done twice.
#[verifier::rlimit(60)]
#[verifier::spinoff_prover]
pub proof fn law_piv_plan_keeps_its_turns(cmd: PivCmd, now: u32, label: Seq<char>, i: int, j: int)
    requires
        piv_plan_spec(cmd, now, label) is Ok,
        0 <= i < j < piv_plan_spec(cmd, now, label)->Ok_0.len(),
    ensures
        piv_turn(cmd, piv_plan_spec(cmd, now, label)->Ok_0[i]) < piv_turn(
            cmd,
            piv_plan_spec(cmd, now, label)->Ok_0[j],
        ),
{
}

/// A PIV command is refused before it begins just where it would leave the PIN
/// or the PUK without tries, asks for dates that cannot be written, or destroys
/// something that nobody confirmed.
pub proof fn law_piv_refusals(cmd: PivCmd, now: u32, label: Seq<char>)
    ensures
        piv_plan_spec(cmd, now, label) is Err <==> match cmd {
            PivCmd::SetRetries { pin_tries, puk_tries, .. } => pin_tries == 0 || puk_tries == 0,
            PivCmd::SelfSign { days, .. } => days == 0 || now / 86400 + days > 2932896,
            PivCmd::NewChuid { days, .. } => now / 86400 + days > 2932896,
            PivCmd::DeleteCert { yes, .. } => !yes,
            PivCmd::DeleteKey { yes, .. } => !yes,
            _ => false,
        },
{
}

} // verus!
