//! What the PIV commands decide from a card's answers, and what they print.

use crate::args::MgmtAlg;
use crate::json_out::{PivChuidJson, PivSlotJson, PivStatusJson, PivTestJson, PivTestOpJson};
use crate::piv::{law_piv_asks_for_what_it_uses, piv_plan_spec, PivCmd, PivOp, PivSecret};
use crate::secrets::SecretOpts;
use crate::text::{
    cat2, cat3, cat4, cat5, cat6, cat7, dec_text, dec_u32, dec_u8, dec_usize, has_run, hex_encode, hex_nat,
    hex_text, hex_padded, lemma_holds, opt_view, pad_right, padded_left, padded_right, Lines,
};
use vstd::prelude::*;

verus! {

/// Why a stored certificate cannot be read.
#[derive(Clone, Copy, Debug, PartialEq, Eq, Structural)]
pub enum CertUnreadable {
    /// Its data is damaged.
    Damaged,
    /// It is too large.
    TooLarge,
}

impl CertUnreadable {
    /// The code the machine-readable output uses.
    pub open spec fn name(self) -> Seq<char> {
        match self {
            CertUnreadable::Damaged => "damaged"@,
            CertUnreadable::TooLarge => "too_large"@,
        }
    }

    /// The code the machine-readable output uses.
    pub fn code(self) -> (r: &'static str)
        ensures
            r@ == self.name(),
    {
        match self {
            CertUnreadable::Damaged => "damaged",
            CertUnreadable::TooLarge => "too_large",
        }
    }
}

/// The cardholder identifier, each field as text.
#[derive(Debug)]
pub struct PivChuid {
    /// The agency code.
    pub fasc_n: String,
    /// The identifier.
    pub guid: String,
    /// The expiration date.
    pub expiration: String,
    /// The signature; mostly empty.
    pub signature: String,
    /// The check code; mostly empty.
    pub lrc: String,
}

/// One slot of a PIV applet.
#[derive(Debug)]
pub struct PivSlotStatus {
    /// Name of the slot.
    pub label: String,
    /// Whether it holds a certificate.
    pub cert_present: bool,
    /// Length of the certificate in bytes.
    pub cert_len: usize,
    /// Why the certificate cannot be read, with the reason in words.
    pub cert_unreadable: Option<(CertUnreadable, String)>,
}

/// State of a PIV applet.
#[derive(Debug)]
pub struct PivStatus {
    /// Version, as text.
    pub version: Option<String>,
    /// Serial number.
    pub serial: Option<u32>,
    /// PIN tries left.
    pub pin_retries: Option<u8>,
    /// The cardholder identifier.
    pub chuid: Option<PivChuid>,
    /// The slots.
    pub slots: Vec<PivSlotStatus>,
}

/// The machine-readable form of a slot: a certificate that is not there has
/// length zero.
pub open spec fn slot_json_of(j: PivSlotJson, s: PivSlotStatus) -> bool {
    &&& j.slot@ == s.label@
    &&& j.cert_present == s.cert_present
    &&& j.cert_len == (if s.cert_present {
        s.cert_len
    } else {
        0
    })
    &&& match (j.cert_unreadable, s.cert_unreadable) {
        (Some(c), Some(r)) => c@ == r.0.name(),
        (None, None) => true,
        _ => false,
    }
}

/// The machine-readable form of a cardholder identifier.
pub open spec fn chuid_json_of(j: Option<PivChuidJson>, c: Option<PivChuid>) -> bool {
    match (j, c) {
        (Some(j), Some(c)) => {
            &&& j.fasc_n@ == c.fasc_n@
            &&& j.guid@ == c.guid@
            &&& j.expiration@ == c.expiration@
            &&& j.signature@ == c.signature@
            &&& j.lrc@ == c.lrc@
        },
        (None, None) => true,
        _ => false,
    }
}

/// The state of a PIV applet in machine-readable form.
pub fn piv_status_json(status: &PivStatus) -> (r: PivStatusJson)
    ensures
        opt_view(r.version) == opt_view(status.version),
        r.serial == status.serial,
        r.pin_retries == status.pin_retries,
        chuid_json_of(r.chuid, status.chuid),
        r.slots@.len() == status.slots@.len(),
        forall|i: int|
            0 <= i < r.slots@.len() ==> slot_json_of(#[trigger] r.slots@[i], status.slots@[i]),
{
    let mut slots: Vec<PivSlotJson> = Vec::new();
    let mut i: usize = 0;
    while i < status.slots.len()
        invariant
            i <= status.slots.len(),
            slots.len() == i,
            forall|k: int| 0 <= k < i ==> slot_json_of(#[trigger] slots@[k], status.slots@[k]),
        decreases status.slots.len() - i,
    {
        let s = &status.slots[i];
        let code: Option<&'static str> = match &s.cert_unreadable {
            Some(r) => Some(r.0.code()),
            None => None,
        };
        slots.push(
            PivSlotJson {
                slot: s.label.clone(),
                cert_present: s.cert_present,
                cert_len: if s.cert_present {
                    s.cert_len
                } else {
                    0
                },
                cert_unreadable: code,
            },
        );
        i = i + 1;
    }
    let chuid = match &status.chuid {
        Some(c) => Some(
            PivChuidJson {
                fasc_n: c.fasc_n.clone(),
                guid: c.guid.clone(),
                expiration: c.expiration.clone(),
                signature: c.signature.clone(),
                lrc: c.lrc.clone(),
            },
        ),
        None => None,
    };
    let version = match &status.version {
        Some(v) => Some(v.clone()),
        None => None,
    };
    PivStatusJson { version, serial: status.serial, pin_retries: status.pin_retries, chuid, slots }
}

/// A text, or a word that says it is empty.
pub open spec fn or_empty(s: Seq<char>) -> Seq<char> {
    if s.len() == 0 {
        "empty"@
    } else {
        s
    }
}

fn or_empty_of(s: &String) -> (r: String)
    ensures
        r@ == or_empty(s@),
{
    if s.as_str().is_empty() {
        "empty".to_owned()
    } else {
        s.clone()
    }
}

/// The line that shows a slot.
pub open spec fn slot_line(s: PivSlotStatus) -> Seq<char> {
    let head = "  "@ + padded_right(s.label@, 26, ' ');
    match s.cert_unreadable {
        Some(r) => head + " cert present but unreadable ("@ + r.1@ + ")"@,
        None => if s.cert_present {
            head + " cert present ("@ + dec_text(s.cert_len as nat) + " bytes)"@
        } else {
            head + " empty"@
        },
    }
}

/// The lines that show the cardholder identifier.
pub open spec fn chuid_lines(c: Option<PivChuid>) -> Seq<Seq<char>> {
    match c {
        Some(c) => seq![
            "CHUID:"@,
            "  FASC-N:      "@ + c.fasc_n@,
            "  GUID:        "@ + c.guid@,
            "  Expiration:  "@ + c.expiration@,
            "  Signature:   "@ + or_empty(c.signature@),
            "  LRC:         "@ + or_empty(c.lrc@),
        ],
        None => seq!["CHUID:       (unavailable)"@],
    }
}

/// The lines that show the state of a PIV applet.
pub open spec fn status_lines(st: PivStatus) -> Seq<Seq<char>> {
    seq![
        match st.version {
            Some(v) => "Version:     "@ + v@,
            None => "Version:     (unavailable)"@,
        },
        match st.serial {
            Some(n) => "Serial:      "@ + dec_text(n as nat) + " (0x"@ + padded_left(
                hex_nat(n as nat, true),
                8,
                '0',
            ) + ")"@,
            None => "Serial:      (unavailable)"@,
        },
        match st.pin_retries {
            Some(n) => if n == 0 {
                "PIN retries: 0 (blocked)"@
            } else {
                "PIN retries: "@ + dec_text(n as nat)
            },
            None => "PIN retries: (unavailable)"@,
        },
    ] + chuid_lines(st.chuid) + seq!["Slots:"@] + st.slots@.map_values(|s: PivSlotStatus| slot_line(s))
}

fn slot_line_of(s: &PivSlotStatus) -> (r: String)
    ensures
        r@ == slot_line(*s),
{
    let head = cat2("  ", pad_right(s.label.as_str(), 26, ' ').as_str());
    match &s.cert_unreadable {
        Some(reason) => cat4(head.as_str(), " cert present but unreadable (", reason.1.as_str(), ")"),
        None => {
            if s.cert_present {
                cat4(head.as_str(), " cert present (", dec_usize(s.cert_len).as_str(), " bytes)")
            } else {
                cat2(head.as_str(), " empty")
            }
        },
    }
}

/// The state of a PIV applet, line by line.
pub fn piv_status_lines(st: &PivStatus) -> (r: Lines)
    ensures
        r@ == status_lines(*st),
{
    let mut out = Lines::new();
    match &st.version {
        Some(v) => out.say(cat2("Version:     ", v.as_str())),
        None => out.put("Version:     (unavailable)"),
    }
    match st.serial {
        Some(n) => out.say(
            cat5(
                "Serial:      ",
                dec_u32(n).as_str(),
                " (0x",
                hex_padded(n as u64, 8, true).as_str(),
                ")",
            ),
        ),
        None => out.put("Serial:      (unavailable)"),
    }
    match st.pin_retries {
        Some(n) => {
            if n == 0 {
                out.put("PIN retries: 0 (blocked)");
            } else {
                out.say(cat2("PIN retries: ", dec_u8(n).as_str()));
            }
        },
        None => out.put("PIN retries: (unavailable)"),
    }
    let ghost head = out@;
    match &st.chuid {
        Some(c) => {
            out.put("CHUID:");
            out.say(cat2("  FASC-N:      ", c.fasc_n.as_str()));
            out.say(cat2("  GUID:        ", c.guid.as_str()));
            out.say(cat2("  Expiration:  ", c.expiration.as_str()));
            out.say(cat2("  Signature:   ", or_empty_of(&c.signature).as_str()));
            out.say(cat2("  LRC:         ", or_empty_of(&c.lrc).as_str()));
        },
        None => out.put("CHUID:       (unavailable)"),
    }
    assert(out@ =~= head + chuid_lines(st.chuid));
    out.put("Slots:");
    let ghost before = out@;
    let ghost all = st.slots@.map_values(|s: PivSlotStatus| slot_line(s));
    let mut i: usize = 0;
    assert(out@ =~= before + all.take(0));
    while i < st.slots.len()
        invariant
            i <= st.slots.len(),
            all == st.slots@.map_values(|s: PivSlotStatus| slot_line(s)),
            out@ == before + all.take(i as int),
        decreases st.slots.len() - i,
    {
        out.say(slot_line_of(&st.slots[i]));
        i = i + 1;
        assert(out@ =~= before + all.take(i as int));
    }
    assert(out@ =~= status_lines(*st));
    out
}

/// Where the secret that a command asks for is found.
pub fn secret_opts<'a>(cmd: &'a PivCmd, which: PivSecret) -> (r: Option<&'a SecretOpts>)
    ensures
        r == secret_opts_spec(cmd, which),
{
    match (cmd, which) {
        (PivCmd::ChangePin { old_pin, .. }, PivSecret::OldPin) => Some(old_pin),
        (PivCmd::ChangePin { new_pin, .. }, PivSecret::NewPin) => Some(new_pin),
        (PivCmd::ChangePuk { old_puk, .. }, PivSecret::OldPuk) => Some(old_puk),
        (PivCmd::ChangePuk { new_puk, .. }, PivSecret::NewPuk) => Some(new_puk),
        (PivCmd::UnblockPin { puk, .. }, PivSecret::Puk) => Some(puk),
        (PivCmd::UnblockPin { new_pin, .. }, PivSecret::NewPin) => Some(new_pin),
        (PivCmd::SetRetries { mgmt_key, .. }, PivSecret::MgmtKey) => Some(mgmt_key),
        (PivCmd::SetRetries { pin, .. }, PivSecret::Pin) => Some(pin),
        (PivCmd::ChangeManagementKey { old_key, .. }, PivSecret::OldMgmtKey) => Some(old_key),
        (PivCmd::ChangeManagementKey { new_key, .. }, PivSecret::NewMgmtKey) => Some(new_key),
        (PivCmd::GenerateKey { mgmt_key, .. }, PivSecret::MgmtKey) => Some(mgmt_key),
        (PivCmd::ImportCert { mgmt_key, .. }, PivSecret::MgmtKey) => Some(mgmt_key),
        (PivCmd::RequestCert { pin, .. }, PivSecret::Pin) => Some(pin),
        (PivCmd::RequestCert { mgmt_key, .. }, PivSecret::MgmtKey) => Some(mgmt_key),
        (PivCmd::SelfSign { pin, .. }, PivSecret::Pin) => Some(pin),
        (PivCmd::SelfSign { mgmt_key, .. }, PivSecret::MgmtKey) => Some(mgmt_key),
        (PivCmd::Test { pin, .. }, PivSecret::Pin) => Some(pin),
        (PivCmd::NewChuid { mgmt_key, .. }, PivSecret::MgmtKey) => Some(mgmt_key),
        (PivCmd::DeleteCert { mgmt_key, .. }, PivSecret::MgmtKey) => Some(mgmt_key),
        (PivCmd::DeleteKey { mgmt_key, .. }, PivSecret::MgmtKey) => Some(mgmt_key),
        (PivCmd::MoveKey { mgmt_key, .. }, PivSecret::MgmtKey) => Some(mgmt_key),
        _ => None,
    }
}

/// Each secret has its own option; none stands in for another.
pub open spec fn secret_opts_spec<'a>(cmd: &'a PivCmd, which: PivSecret) -> Option<&'a SecretOpts> {
    match which {
        PivSecret::OldPin => match cmd {
            PivCmd::ChangePin { old_pin, .. } => Some(old_pin),
            _ => None,
        },
        PivSecret::NewPin => match cmd {
            PivCmd::ChangePin { new_pin, .. } => Some(new_pin),
            PivCmd::UnblockPin { new_pin, .. } => Some(new_pin),
            _ => None,
        },
        PivSecret::OldPuk => match cmd {
            PivCmd::ChangePuk { old_puk, .. } => Some(old_puk),
            _ => None,
        },
        PivSecret::NewPuk => match cmd {
            PivCmd::ChangePuk { new_puk, .. } => Some(new_puk),
            _ => None,
        },
        PivSecret::Puk => match cmd {
            PivCmd::UnblockPin { puk, .. } => Some(puk),
            _ => None,
        },
        PivSecret::OldMgmtKey => match cmd {
            PivCmd::ChangeManagementKey { old_key, .. } => Some(old_key),
            _ => None,
        },
        PivSecret::NewMgmtKey => match cmd {
            PivCmd::ChangeManagementKey { new_key, .. } => Some(new_key),
            _ => None,
        },
        PivSecret::Pin => match cmd {
            PivCmd::SetRetries { pin, .. } => Some(pin),
            PivCmd::RequestCert { pin, .. } => Some(pin),
            PivCmd::SelfSign { pin, .. } => Some(pin),
            PivCmd::Test { pin, .. } => Some(pin),
            _ => None,
        },
        PivSecret::MgmtKey => match cmd {
            PivCmd::SetRetries { mgmt_key, .. } => Some(mgmt_key),
            PivCmd::GenerateKey { mgmt_key, .. } => Some(mgmt_key),
            PivCmd::ImportCert { mgmt_key, .. } => Some(mgmt_key),
            PivCmd::RequestCert { mgmt_key, .. } => Some(mgmt_key),
            PivCmd::SelfSign { mgmt_key, .. } => Some(mgmt_key),
            PivCmd::NewChuid { mgmt_key, .. } => Some(mgmt_key),
            PivCmd::DeleteCert { mgmt_key, .. } => Some(mgmt_key),
            PivCmd::DeleteKey { mgmt_key, .. } => Some(mgmt_key),
            PivCmd::MoveKey { mgmt_key, .. } => Some(mgmt_key),
            _ => None,
        },
    }
}

/// Refuses a new management key whose length does not fit its cipher.
pub fn check_new_key(len: usize, alg: MgmtAlg, alg_label: &str) -> (r: Result<(), String>)
    ensures
        r is Ok <==> len == alg.bytes(),
        r matches Err(e) ==> e@ == "new management key is "@ + dec_text(len as nat) + " bytes; "@ + alg_label@
            + " needs "@ + dec_text(alg.bytes()),
{
    if len != alg.key_len() {
        return Err(
            cat6(
                "new management key is ",
                dec_usize(len).as_str(),
                " bytes; ",
                alg_label,
                " needs ",
                dec_usize(alg.key_len()).as_str(),
            ),
        );
    }
    Ok(())
}

/// How the management key is authenticated.
#[derive(Debug)]
pub enum MgmtAuth {
    /// With this cipher.
    Use(MgmtAlg),
    /// With a cipher that has to be found by asking the card.
    Probe,
    /// Not at all: the key cannot be right.
    Refuse(String),
}

/// Chooses how the management key is authenticated. A key of the wrong length
/// is refused before the card sees it.
pub fn management_auth(reported: Option<MgmtAlg>, key_len: usize, alg_label: &str) -> (r: MgmtAuth)
    ensures
        match (reported, r) {
            (Some(a), MgmtAuth::Use(b)) => a == b && key_len == a.bytes(),
            (Some(a), MgmtAuth::Refuse(e)) => key_len != a.bytes() && e@ == "management key is "@ + dec_text(
                key_len as nat,
            ) + " bytes; this card's "@ + alg_label@ + " key needs "@ + dec_text(a.bytes()),
            (None, MgmtAuth::Probe) => true,
            _ => false,
        },
{
    match reported {
        Some(a) => {
            if key_len != a.key_len() {
                MgmtAuth::Refuse(
                    cat6(
                        "management key is ",
                        dec_usize(key_len).as_str(),
                        " bytes; this card's ",
                        alg_label,
                        " key needs ",
                        dec_usize(a.key_len()).as_str(),
                    ),
                )
            } else {
                MgmtAuth::Use(a)
            }
        },
        None => MgmtAuth::Probe,
    }
}

/// The error of a failed probe: only a verdict on the length is put in other
/// words.
pub fn probe_error(bad_length: bool, key_len: usize, err: &str) -> (r: String)
    ensures
        r@ == (if bad_length {
            "management key is "@ + dec_text(key_len as nat)
                + " bytes, which does not match any PIV management-key algorithm this card accepts"@
        } else {
            err@
        }),
{
    if bad_length {
        cat3(
            "management key is ",
            dec_usize(key_len).as_str(),
            " bytes, which does not match any PIV management-key algorithm this card accepts",
        )
    } else {
        err.to_owned()
    }
}

/// What a certificate that was read is done with.
#[derive(Debug)]
pub enum ExportTo {
    /// Written to that file.
    File(String),
    /// Written to standard output.
    Stdout,
    /// Nothing: the reason.
    Refuse(String),
}

/// Decides where an exported certificate goes: to the file if one was named,
/// else to standard output unless that is a terminal.
pub fn export_target(present: bool, slot_label: &str, file: Option<&str>, stdout_is_terminal: bool) -> (r:
    ExportTo)
    ensures
        match r {
            ExportTo::File(p) => present && file is Some && p@ == file->Some_0@,
            ExportTo::Stdout => present && file is None && !stdout_is_terminal,
            ExportTo::Refuse(e) => if !present {
                e@ == slot_label@ + " holds no certificate"@
            } else {
                file is None && stdout_is_terminal && e@
                    == "stdout is a terminal; pass --file PATH or pipe (e.g. | openssl x509 -inform der -text)"@
            },
        },
{
    if !present {
        return ExportTo::Refuse(cat2(slot_label, " holds no certificate"));
    }
    match file {
        Some(p) => ExportTo::File(p.to_owned()),
        None => {
            if stdout_is_terminal {
                ExportTo::Refuse(
                    "stdout is a terminal; pass --file PATH or pipe (e.g. | openssl x509 -inform der -text)".to_owned(),
                )
            } else {
                ExportTo::Stdout
            }
        },
    }
}

/// How the messages name the card about to be reset.
pub open spec fn reset_subject(serial: Option<u32>) -> Seq<char> {
    match serial {
        Some(v) => "serial "@ + dec_text(v as nat),
        None => "this device"@,
    }
}

/// Asks for consent to a PIV reset: it names the card and goes on only when confirmed.
/// What it hands back is how to name the card afterwards.
pub fn reset_consent(yes: bool, serial: Option<u32>) -> (r: Result<String, String>)
    ensures
        match r {
            Ok(s) => yes && s@ == reset_subject(serial),
            Err(e) => !yes && e@ == "refusing to reset the PIV application on "@ + reset_subject(serial)
                + " without --yes (this wipes all PIV keys, certificates, and PINs)"@,
        },
{
    let subject = match serial {
        Some(v) => cat2("serial ", dec_u32(v).as_str()),
        None => "this device".to_owned(),
    };
    if !yes {
        return Err(
            cat3(
                "refusing to reset the PIV application on ",
                subject.as_str(),
                " without --yes (this wipes all PIV keys, certificates, and PINs)",
            ),
        );
    }
    Ok(subject)
}

/// Facts that the closing line of a command mentions.
#[derive(Debug)]
pub struct PivFacts<'a> {
    /// Name of the slot.
    pub slot: &'a str,
    /// Name of the slot a key is moved to.
    pub to_slot: &'a str,
    /// Name of the cipher or algorithm.
    pub algorithm: &'a str,
    /// Length of the certificate.
    pub bytes: usize,
    /// The identifier written.
    pub guid: &'a [u8],
    /// How the card is named.
    pub subject: &'a str,
}

/// The closing line of a command; none for those that end by printing what
/// they read.
pub open spec fn done_text(cmd: PivCmd, f: PivFacts<'_>) -> Option<Seq<char>> {
    match cmd {
        PivCmd::ChangePin { .. } => Some("PIN changed."@),
        PivCmd::ChangePuk { .. } => Some("PUK changed."@),
        PivCmd::UnblockPin { .. } => Some("PIN unblocked and reset."@),
        PivCmd::SetRetries { pin_tries, puk_tries, .. } => Some(
            "PIN/PUK retry counts set to "@ + dec_text(pin_tries as nat) + "/"@ + dec_text(puk_tries as nat)
                + ". Both reset to factory defaults."@,
        ),
        PivCmd::ChangeManagementKey { touch, .. } => Some(
            "Management key changed to "@ + f.algorithm@ + (if touch {
                " (touch required)"@
            } else {
                ""@
            }) + "."@,
        ),
        PivCmd::ImportCert { .. } => Some(
            "Imported "@ + dec_text(f.bytes as nat) + "-byte certificate into "@ + f.slot@ + "."@,
        ),
        PivCmd::SelfSign { days, .. } => Some(
            "Self-signed certificate ("@ + dec_text(f.bytes as nat) + " bytes, "@ + dec_text(days as nat)
                + " days) created and stored in "@ + f.slot@ + "."@,
        ),
        PivCmd::NewChuid { .. } => Some("Wrote a new CHUID (GUID "@ + hex_text(f.guid@) + ")."@),
        PivCmd::Reset { .. } => Some(
            "PIV application reset to factory defaults on "@ + f.subject@ + "."@,
        ),
        PivCmd::DeleteCert { .. } => Some(
            "Cleared the certificate in "@ + f.slot@ + " (the private key remains)."@,
        ),
        PivCmd::DeleteKey { .. } => Some(
            "Deleted the private key in "@ + f.slot@ + " (the certificate object, if any, remains)."@,
        ),
        PivCmd::MoveKey { .. } => Some(
            "moved the private key "@ + f.slot@ + " \u{2192} "@ + f.to_slot@
                + "; the certificate remains in "@ + f.slot@,
        ),
        _ => None,
    }
}

/// The closing line of a command.
pub fn piv_done(cmd: &PivCmd, f: &PivFacts<'_>) -> (r: Option<String>)
    ensures
        opt_view(r) == done_text(*cmd, *f),
{
    match cmd {
        PivCmd::ChangePin { .. } => Some("PIN changed.".to_owned()),
        PivCmd::ChangePuk { .. } => Some("PUK changed.".to_owned()),
        PivCmd::UnblockPin { .. } => Some("PIN unblocked and reset.".to_owned()),
        PivCmd::SetRetries { pin_tries, puk_tries, .. } => Some(
            cat5(
                "PIN/PUK retry counts set to ",
                dec_u8(*pin_tries).as_str(),
                "/",
                dec_u8(*puk_tries).as_str(),
                ". Both reset to factory defaults.",
            ),
        ),
        PivCmd::ChangeManagementKey { touch, .. } => Some(
            cat4(
                "Management key changed to ",
                f.algorithm,
                if *touch {
                    " (touch required)"
                } else {
                    ""
                },
                ".",
            ),
        ),
        PivCmd::ImportCert { .. } => Some(
            cat5("Imported ", dec_usize(f.bytes).as_str(), "-byte certificate into ", f.slot, "."),
        ),
        PivCmd::SelfSign { days, .. } => Some(
            cat7(
                "Self-signed certificate (",
                dec_usize(f.bytes).as_str(),
                " bytes, ",
                dec_u32(*days).as_str(),
                " days) created and stored in ",
                f.slot,
                ".",
            ),
        ),
        PivCmd::NewChuid { .. } => Some(
            cat3("Wrote a new CHUID (GUID ", hex_encode(f.guid).as_str(), ")."),
        ),
        PivCmd::Reset { .. } => Some(
            cat3("PIV application reset to factory defaults on ", f.subject, "."),
        ),
        PivCmd::DeleteCert { .. } => Some(
            cat3("Cleared the certificate in ", f.slot, " (the private key remains)."),
        ),
        PivCmd::DeleteKey { .. } => Some(
            cat3("Deleted the private key in ", f.slot, " (the certificate object, if any, remains)."),
        ),
        PivCmd::MoveKey { .. } => Some(
            cat6(
                "moved the private key ",
                f.slot,
                " \u{2192} ",
                f.to_slot,
                "; the certificate remains in ",
                f.slot,
            ),
        ),
        _ => None,
    }
}

/// How one operation of a self-test ended.
#[derive(Debug)]
pub enum TestOutcome {
    /// The card's answer checks out.
    Passed,
    /// It does not apply, with the reason.
    Skipped(String),
    /// It failed, with the reason.
    Failed(String),
}

/// Whether no operation failed; skipped ones do not count.
pub open spec fn all_passed(results: Seq<(String, TestOutcome)>) -> bool {
    forall|i: int| 0 <= i < results.len() ==> !((#[trigger] results[i]).1 is Failed)
}

/// The machine-readable form of one operation.
pub open spec fn test_op_of(j: PivTestOpJson, r: (String, TestOutcome)) -> bool {
    &&& j.operation@ == r.0@
    &&& match r.1 {
        TestOutcome::Passed => j.result@ == "passed"@ && j.detail is None,
        TestOutcome::Skipped(_) => j.result@ == "skipped"@ && j.detail is None,
        TestOutcome::Failed(e) => j.result@ == "failed"@ && opt_view(j.detail) == Some(e@),
    }
}

/// The machine-readable form of a self-test.
pub fn piv_test_json(slot: &str, algorithm: &str, results: &Vec<(String, TestOutcome)>) -> (r: PivTestJson)
    ensures
        r.slot@ == slot@,
        r.algorithm@ == algorithm@,
        r.ok == all_passed(results@),
        r.operations@.len() == results@.len(),
        forall|i: int|
            0 <= i < results@.len() ==> test_op_of(#[trigger] r.operations@[i], results@[i]),
{
    let mut ok = true;
    let mut operations: Vec<PivTestOpJson> = Vec::new();
    let mut i: usize = 0;
    while i < results.len()
        invariant
            i <= results.len(),
            operations.len() == i,
            ok == all_passed(results@.take(i as int)),
            forall|k: int| 0 <= k < i ==> test_op_of(#[trigger] operations@[k], results@[k]),
        decreases results.len() - i,
    {
        let item = &results[i];
        let (word, detail, failed) = match &item.1 {
            TestOutcome::Passed => ("passed".to_owned(), None, false),
            TestOutcome::Skipped(_) => ("skipped".to_owned(), None, false),
            TestOutcome::Failed(e) => ("failed".to_owned(), Some(e.clone()), true),
        };
        operations.push(PivTestOpJson { operation: item.0.clone(), result: word, detail });
        let ghost before = ok;
        if failed {
            ok = false;
        }
        proof {
            let now = results@.take(i as int + 1);
            assert(now[i as int] == results@[i as int]);
            if before && !failed {
                assert forall|k: int| 0 <= k < now.len() implies !((#[trigger] now[k]).1 is Failed) by {
                    if k < i {
                        assert(results@.take(i as int)[k] == now[k]);
                    }
                }
            } else if !before {
                let k = choose|k: int| 0 <= k < i && (#[trigger] results@.take(i as int)[k]).1 is Failed;
                assert(now[k].1 is Failed);
            }
        }
        i = i + 1;
    }
    assert(results@.take(i as int) =~= results@);
    PivTestJson { slot: slot.to_owned(), algorithm: algorithm.to_owned(), ok, operations }
}

/// How the command ends once the self-tests have run.
pub fn piv_test_verdict(all_ok: bool) -> (r: Result<(), String>)
    ensures
        r is Ok <==> all_ok,
        r matches Err(e) ==> e@ == "one or more self-tests failed"@,
{
    if all_ok {
        Ok(())
    } else {
        Err("one or more self-tests failed".to_owned())
    }
}

/// Refuses a slot that cannot be tested: no certificate, or an algorithm that
/// no self-test applies to.
pub fn piv_test_confirm(has_cert: bool, slot_label: &str, applies: &Vec<bool>, alg_label: &str) -> (r: Result<
    (),
    String,
>)
    ensures
        match r {
            Ok(_) => has_cert && applies@.contains(true),
            Err(e) => if !has_cert {
                e@ == slot_label@ + " has no certificate to test against"@
            } else {
                !applies@.contains(true) && e@ == "no self-test applies to a "@ + alg_label@ + " key"@
            },
        },
{
    if !has_cert {
        return Err(cat2(slot_label, " has no certificate to test against"));
    }
    let mut i: usize = 0;
    while i < applies.len()
        invariant
            i <= applies.len(),
            has_cert,
            forall|k: int| 0 <= k < i ==> !(#[trigger] applies@[k]),
        decreases applies.len() - i,
    {
        if applies[i] {
            assert(applies@[i as int]);
            return Ok(());
        }
        i = i + 1;
    }
    Err(cat3("no self-test applies to a ", alg_label, " key"))
}

/// What the card is asked to do for one self-test operation.
#[derive(Clone, Copy, Debug, PartialEq, Eq, Structural)]
pub enum TestCall {
    /// Key agreement.
    Agree,
    /// Decryption.
    Decrypt,
    /// A signature.
    Sign,
}

/// Which call tests an operation, and whether the PIN has to be verified again
/// first: slots that ask for it on every use forget it after each operation.
pub fn test_call(key_agreement: bool, decrypt: bool, pin_given: bool, ran: usize) -> (r: (bool, TestCall))
    ensures
        r.0 == (pin_given && ran > 0),
        r.1 == (if key_agreement {
            TestCall::Agree
        } else if decrypt {
            TestCall::Decrypt
        } else {
            TestCall::Sign
        }),
{
    let call = if key_agreement {
        TestCall::Agree
    } else if decrypt {
        TestCall::Decrypt
    } else {
        TestCall::Sign
    };
    (pin_given && ran > 0, call)
}

/// The line printed while a key pair is made.
pub fn generating_line(alg_label: &str, slot_label: &str) -> (r: String)
    ensures
        r@ == "Generating "@ + alg_label@ + " in "@ + slot_label@ + " (touch the key if it blinks)…"@,
{
    cat5("Generating ", alg_label, " in ", slot_label, " (touch the key if it blinks)…")
}

/// The line printed once a public key was written to a file.
pub fn saved_pubkey_line(inline: bool, slot_label: &str, path: &str) -> (r: String)
    ensures
        r@ == (if inline {
            "Wrote a copy of "@ + slot_label@ + "'s generated public key to "@ + path@ + "."@
        } else {
            "Wrote key material for "@ + slot_label@ + " to "@ + path@
                + " — pass it to request-cert/self-sign's --load-pubkey if you sign this key from a separate command."@
        }),
{
    if inline {
        cat5("Wrote a copy of ", slot_label, "'s generated public key to ", path, ".")
    } else {
        cat5(
            "Wrote key material for ",
            slot_label,
            " to ",
            path,
            " — pass it to request-cert/self-sign's --load-pubkey if you sign this key from a separate command.",
        )
    }
}

/// Why an identifier that was given is refused.
pub const BAD_GUID: &'static str = "--guid must be 16 bytes of hex, dashes optional (e.g. aabbccdd-eeff-1122-3344-556677889900)";

/// Reports that the public key of a new key pair cannot be encoded.
pub fn pubkey_encoding_failed(reason: &str) -> (r: String)
    ensures
        r@ == "key generated, but encoding its public key failed: "@ + reason@,
{
    cat2("key generated, but encoding its public key failed: ", reason)
}

/// Reports that the key of a certificate cannot be read.
pub fn bad_certificate_key(reason: &str) -> (r: String)
    ensures
        r@ == "could not read the slot certificate's key: "@ + reason@,
{
    cat2("could not read the slot certificate's key: ", reason)
}

/// The note on a certificate written to a file.
pub fn exported_cert_line(len: usize, path: &str) -> (r: String)
    ensures
        r@ == "Wrote "@ + dec_text(len as nat) + "-byte DER certificate to "@ + path@ + "."@,
{
    cat5("Wrote ", dec_usize(len).as_str(), "-byte DER certificate to ", path, ".")
}

/// The note on a request written to a file.
pub fn saved_request_line(slot_label: &str, path: &str) -> (r: String)
    ensures
        r@ == "Wrote certificate request for "@ + slot_label@ + " to "@ + path@ + "."@,
{
    cat5("Wrote certificate request for ", slot_label, " to ", path, ".")
}

/// The note on a copy of a certificate.
pub fn saved_copy_line(path: &str) -> (r: String)
    ensures
        r@ == "PEM copy written to "@ + path@ + "."@,
{
    cat3("PEM copy written to ", path, ".")
}

/// What is said before the card signs; none where an operation does not.
pub fn piv_signing_line(op: PivOp) -> (r: Option<&'static str>)
    ensures
        match op {
            PivOp::SignRequest(_) => r matches Some(s) && s@
                == "Signing the request on the card (touch if it blinks)\u{2026}"@,
            PivOp::SelfSign(_, _) => r matches Some(s) && s@
                == "Signing the certificate on the card (touch if it blinks)\u{2026}"@,
            _ => r is None,
        },
{
    match op {
        PivOp::SignRequest(_) => Some("Signing the request on the card (touch if it blinks)\u{2026}"),
        PivOp::SelfSign(_, _) => Some("Signing the certificate on the card (touch if it blinks)\u{2026}"),
        _ => None,
    }
}

/// What is said before the self-tests.
pub fn testing_line(slot_label: &str, alg_label: &str) -> (r: String)
    ensures
        r@ == "\u{2192} Testing "@ + slot_label@ + " ("@ + alg_label@ + ") on the card (touch if it blinks)\u{2026}"@,
{
    cat5("\u{2192} Testing ", slot_label, " (", alg_label, ") on the card (touch if it blinks)\u{2026}")
}

/// Each secret of a PIV command is read from the option that was given for it, and
/// a secret that a plan asks for has such an option.
pub proof fn law_piv_secrets_come_from_their_options(cmd: PivCmd)
    ensures
        match cmd {
            PivCmd::ChangePin { old_pin, new_pin } => secret_opts_spec(&cmd, PivSecret::OldPin) == Some(&old_pin)
                && secret_opts_spec(&cmd, PivSecret::NewPin) == Some(&new_pin),
            PivCmd::ChangePuk { old_puk, new_puk } => secret_opts_spec(&cmd, PivSecret::OldPuk) == Some(&old_puk)
                && secret_opts_spec(&cmd, PivSecret::NewPuk) == Some(&new_puk),
            PivCmd::UnblockPin { puk, new_pin } => secret_opts_spec(&cmd, PivSecret::Puk) == Some(&puk)
                && secret_opts_spec(&cmd, PivSecret::NewPin) == Some(&new_pin),
            PivCmd::SetRetries { mgmt_key, pin, .. } => secret_opts_spec(&cmd, PivSecret::MgmtKey) == Some(&mgmt_key)
                && secret_opts_spec(&cmd, PivSecret::Pin) == Some(&pin),
            PivCmd::ChangeManagementKey { old_key, new_key, .. } => secret_opts_spec(&cmd, PivSecret::OldMgmtKey)
                == Some(&old_key) && secret_opts_spec(&cmd, PivSecret::NewMgmtKey) == Some(&new_key),
            PivCmd::GenerateKey { mgmt_key, .. } => secret_opts_spec(&cmd, PivSecret::MgmtKey) == Some(&mgmt_key),
            PivCmd::ImportCert { mgmt_key, .. } => secret_opts_spec(&cmd, PivSecret::MgmtKey) == Some(&mgmt_key),
            PivCmd::RequestCert { pin, mgmt_key, .. } => secret_opts_spec(&cmd, PivSecret::Pin) == Some(&pin)
                && secret_opts_spec(&cmd, PivSecret::MgmtKey) == Some(&mgmt_key),
            PivCmd::SelfSign { pin, mgmt_key, .. } => secret_opts_spec(&cmd, PivSecret::Pin) == Some(&pin)
                && secret_opts_spec(&cmd, PivSecret::MgmtKey) == Some(&mgmt_key),
            PivCmd::Test { pin, .. } => secret_opts_spec(&cmd, PivSecret::Pin) == Some(&pin),
            PivCmd::NewChuid { mgmt_key, .. } => secret_opts_spec(&cmd, PivSecret::MgmtKey) == Some(&mgmt_key),
            PivCmd::DeleteCert { mgmt_key, .. } => secret_opts_spec(&cmd, PivSecret::MgmtKey) == Some(&mgmt_key),
            PivCmd::DeleteKey { mgmt_key, .. } => secret_opts_spec(&cmd, PivSecret::MgmtKey) == Some(&mgmt_key),
            PivCmd::MoveKey { mgmt_key, .. } => secret_opts_spec(&cmd, PivSecret::MgmtKey) == Some(&mgmt_key),
            _ => forall|w: PivSecret| #[trigger] secret_opts_spec(&cmd, w) is None,
        },
{
}

/// No secret that a PIV plan asks for is without an option.
pub proof fn law_piv_secrets_have_options(cmd: PivCmd, now: u32, label: Seq<char>, which: PivSecret)
    requires
        piv_plan_spec(cmd, now, label) is Ok,
        piv_plan_spec(cmd, now, label)->Ok_0.contains(PivOp::Read(which)),
    ensures
        secret_opts_spec(&cmd, which) is Some,
{
    law_piv_asks_for_what_it_uses(cmd, now, label, PivOp::Read(which));
}

/// A slot in machine-readable form keeps every field of it in its place; a length
/// is told only of a certificate that is there.
pub proof fn law_slot_fields_keep_their_places(j: PivSlotJson, s: PivSlotStatus)
    requires
        slot_json_of(j, s),
    ensures
        j.slot@ == s.label@ && j.cert_present == s.cert_present,
        s.cert_present ==> j.cert_len == s.cert_len,
        !s.cert_present ==> j.cert_len == 0,
        j.cert_unreadable is Some <==> s.cert_unreadable is Some,
        s.cert_unreadable matches Some(r) ==> j.cert_unreadable->Some_0@ == (match r.0 {
            CertUnreadable::Damaged => "damaged"@,
            CertUnreadable::TooLarge => "too_large"@,
        }),
{
}

/// A cardholder identifier in machine-readable form keeps every field of it in its
/// place.
pub proof fn law_chuid_fields_keep_their_places(j: PivChuidJson, c: PivChuid)
    ensures
        chuid_json_of(Some(j), Some(c)) <==> j.fasc_n@ == c.fasc_n@ && j.guid@ == c.guid@ && j.expiration@
            == c.expiration@ && j.signature@ == c.signature@ && j.lrc@ == c.lrc@,
        !chuid_json_of(None, Some(c)) && !chuid_json_of(Some(j), None) && chuid_json_of(None, None),
{
}

/// A self-test in machine-readable form says how it ended, and why where it
/// failed.
pub proof fn law_test_outcome_is_told(j: PivTestOpJson, r: (String, TestOutcome))
    requires
        test_op_of(j, r),
    ensures
        j.operation@ == r.0@,
        r.1 is Passed ==> j.result@ == "passed"@ && j.detail is None,
        r.1 is Skipped ==> j.result@ == "skipped"@ && j.detail is None,
        r.1 matches TestOutcome::Failed(e) ==> j.result@ == "failed"@ && opt_view(j.detail) == Some(e@),
{
}

/// What is said of a key that was moved tells where it was from where it is now,
/// and the certificate is said to be where it was.
pub proof fn law_moved_key_is_told_by_its_slots(cmd: PivCmd, f: PivFacts<'_>)
    requires
        cmd is MoveKey,
    ensures
        ({
            let t = done_text(cmd, f)->0;
            &&& done_text(cmd, f) is Some
            &&& has_run(t, f.slot@ + " \u{2192} "@ + f.to_slot@)
            &&& t.skip(t.len() - f.slot@.len()) == f.slot@
        }),
{
    let t = done_text(cmd, f)->0;
    let tail = "; the certificate remains in "@;
    lemma_holds(t, "moved the private key "@, f.slot@ + " \u{2192} "@ + f.to_slot@, tail + f.slot@);
    assert(t.skip(t.len() - f.slot@.len()) =~= f.slot@);
}

/// What is said of a write names the slot it was made to, and of retry counts the
/// PIN's before the PUK's.
pub proof fn law_piv_message_names_the_slot(cmd: PivCmd, f: PivFacts<'_>)
    ensures
        match cmd {
            PivCmd::ImportCert { .. } | PivCmd::SelfSign { .. } => done_text(cmd, f) matches Some(t) && has_run(
                t,
                f.slot@,
            ) && has_run(t, dec_text(f.bytes as nat)),
            PivCmd::DeleteCert { .. } | PivCmd::DeleteKey { .. } => done_text(cmd, f) matches Some(t) && has_run(
                t,
                f.slot@,
            ),
            PivCmd::SetRetries { pin_tries, puk_tries, .. } => done_text(cmd, f) matches Some(t) && has_run(
                t,
                " "@ + dec_text(pin_tries as nat) + "/"@ + dec_text(puk_tries as nat) + "."@,
            ),
            PivCmd::NewChuid { .. } => done_text(cmd, f) matches Some(t) && has_run(t, hex_text(f.guid@)),
            PivCmd::Reset { .. } => done_text(cmd, f) matches Some(t) && has_run(t, f.subject@),
            PivCmd::ChangeManagementKey { .. } => done_text(cmd, f) matches Some(t) && has_run(t, f.algorithm@),
            _ => true,
        },
{
    if let Some(t) = done_text(cmd, f) {
        let n = dec_text(f.bytes as nat);
        match cmd {
            PivCmd::ImportCert { .. } => {
                lemma_holds(t, "Imported "@, n, "-byte certificate into "@ + f.slot@ + "."@);
                lemma_holds(t, "Imported "@ + n + "-byte certificate into "@, f.slot@, "."@);
            },
            PivCmd::SelfSign { days, .. } => {
                let d = " bytes, "@ + dec_text(days as nat) + " days) created and stored in "@;
                lemma_holds(t, "Self-signed certificate ("@, n, d + f.slot@ + "."@);
                lemma_holds(t, "Self-signed certificate ("@ + n + d, f.slot@, "."@);
            },
            PivCmd::DeleteCert { .. } => lemma_holds(
                t,
                "Cleared the certificate in "@,
                f.slot@,
                " (the private key remains)."@,
            ),
            PivCmd::DeleteKey { .. } => lemma_holds(
                t,
                "Deleted the private key in "@,
                f.slot@,
                " (the certificate object, if any, remains)."@,
            ),
            PivCmd::SetRetries { pin_tries, puk_tries, .. } => {
                reveal_strlit("PIN/PUK retry counts set to ");
                reveal_strlit("PIN/PUK retry counts set to");
                reveal_strlit(" ");
                reveal_strlit(". Both reset to factory defaults.");
                reveal_strlit(".");
                reveal_strlit(" Both reset to factory defaults.");
                assert("PIN/PUK retry counts set to "@ =~= "PIN/PUK retry counts set to"@ + " "@);
                assert(". Both reset to factory defaults."@ =~= "."@ + " Both reset to factory defaults."@);
                lemma_holds(
                    t,
                    "PIN/PUK retry counts set to"@,
                    " "@ + dec_text(pin_tries as nat) + "/"@ + dec_text(puk_tries as nat) + "."@,
                    " Both reset to factory defaults."@,
                );
            },
            PivCmd::NewChuid { .. } => lemma_holds(t, "Wrote a new CHUID (GUID "@, hex_text(f.guid@), ")."@),
            PivCmd::Reset { .. } => lemma_holds(
                t,
                "PIV application reset to factory defaults on "@,
                f.subject@,
                "."@,
            ),
            PivCmd::ChangeManagementKey { touch, .. } => {
                let tail = (if touch {
                    " (touch required)"@
                } else {
                    ""@
                }) + "."@;
                lemma_holds(t, "Management key changed to "@, f.algorithm@, tail);
            },
            _ => {},
        }
    }
}

/// The state of a card has a line for each of its slots, after the lines on the
/// card, and says that a PIN without tries is blocked.
pub proof fn law_piv_status_shows_every_slot(st: PivStatus, i: int)
    requires
        0 <= i < st.slots@.len(),
    ensures
        ({
            let lines = status_lines(st);
            let n = lines.len() - st.slots@.len();
            &&& n == (if st.chuid is Some {
                10int
            } else {
                5
            })
            &&& lines[n + i] == slot_line(st.slots@[i])
            &&& st.serial matches Some(v) ==> has_run(lines[1], dec_text(v as nat))
            &&& st.pin_retries == Some(0u8) ==> has_run(lines[2], "(blocked)"@)
            &&& st.pin_retries matches Some(v) ==> (v > 0 ==> has_run(lines[2], dec_text(v as nat)))
        }),
{
    let lines = status_lines(st);
    if let Some(v) = st.serial {
        let tail = " (0x"@ + padded_left(hex_nat(v as nat, true), 8, '0') + ")"@;
        lemma_holds(lines[1], "Serial:      "@, dec_text(v as nat), tail);
    }
    if let Some(v) = st.pin_retries {
        if v == 0 {
            reveal_strlit("PIN retries: 0 (blocked)");
            reveal_strlit("PIN retries: 0 ");
            reveal_strlit("(blocked)");
            assert("PIN retries: 0 (blocked)"@ =~= "PIN retries: 0 "@ + "(blocked)"@);
            lemma_holds(lines[2], "PIN retries: 0 "@, "(blocked)"@, Seq::empty());
        } else {
            lemma_holds(lines[2], "PIN retries: "@, dec_text(v as nat), Seq::empty());
        }
    }
}

/// The line of a slot shows the size of a certificate that is there, the reason
/// where it cannot be read, and that the slot is empty just where there is none.
pub proof fn law_slot_line_says_what_is_there(s: PivSlotStatus)
    ensures
        s.cert_unreadable matches Some(r) ==> has_run(slot_line(s), "unreadable ("@ + r.1@ + ")"@),
        s.cert_unreadable is None && s.cert_present ==> has_run(
            slot_line(s),
            "("@ + dec_text(s.cert_len as nat) + " bytes)"@,
        ),
        s.cert_unreadable is None && !s.cert_present ==> slot_line(s) == "  "@ + padded_right(s.label@, 26, ' ')
            + " empty"@,
{
    let head = "  "@ + padded_right(s.label@, 26, ' ');
    if let Some(r) = s.cert_unreadable {
        reveal_strlit(" cert present but unreadable (");
        reveal_strlit(" cert present but ");
        reveal_strlit("unreadable (");
        assert(" cert present but unreadable ("@ =~= " cert present but "@ + "unreadable ("@);
        lemma_holds(slot_line(s), head + " cert present but "@, "unreadable ("@ + r.1@ + ")"@, Seq::empty());
    } else if s.cert_present {
        reveal_strlit(" cert present (");
        reveal_strlit(" cert present ");
        reveal_strlit("(");
        assert(" cert present ("@ =~= " cert present "@ + "("@);
        let size = "("@ + dec_text(s.cert_len as nat) + " bytes)"@;
        lemma_holds(slot_line(s), head + " cert present "@, size, Seq::empty());
    }
}

} // verus!
