//! What the OTP applet answers, and how it is shown.

use crate::factory_reset::clone_opt;
use crate::json_out::{OtpEntryJson, OtpGetJson, OtpPinStatusJson, OtpSerialJson};
use crate::molto::{debug_text, quoted};
use crate::otp::{
    capability, otp_feature_capability, OtpAlgorithm, OtpCmd, OtpDeviceInfo, OtpFeature, OtpOp, OtpType,
};
use crate::sanitize::{clean, sanitize_terminal};
use crate::text::{
    cat2, cat3, cat4, cat5, cat7, dec_text, dec_u8, dec_usize, has_run, hex_encode, hex_text, lemma_holds,
    opt_view, Lines,
};
use vstd::prelude::*;

verus! {

/// One entry of an OTP key.
#[derive(Debug)]
pub struct OtpEntry {
    /// Name of the service.
    pub app_name: String,
    /// Name of the account.
    pub account_name: String,
    /// Kind of the entry.
    pub otp_type: OtpType,
    /// Digest of the entry.
    pub algorithm: OtpAlgorithm,
    /// The code, unless it is withheld until a touch.
    pub code: Option<String>,
    /// Whether a touch is needed.
    pub button_required: bool,
}

/// Name of a digest.
pub open spec fn algo_name(a: OtpAlgorithm) -> Seq<char> {
    match a {
        OtpAlgorithm::Sha1 => "SHA1"@,
        OtpAlgorithm::Sha256 => "SHA256"@,
    }
}

/// Name of a digest.
pub fn otp_algo_str_t2(a: OtpAlgorithm) -> (r: &'static str)
    ensures
        r@ == algo_name(a),
{
    match a {
        OtpAlgorithm::Sha1 => "SHA1",
        OtpAlgorithm::Sha256 => "SHA256",
    }
}

/// Name of a kind of entry.
pub open spec fn kind_name(t: OtpType) -> Seq<char> {
    match t {
        OtpType::Totp => "TOTP"@,
        OtpType::Hotp => "HOTP"@,
    }
}

/// Name of a kind of entry.
pub fn otp_type_str(t: OtpType) -> (r: &'static str)
    ensures
        r@ == kind_name(t),
{
    match t {
        OtpType::Totp => "TOTP",
        OtpType::Hotp => "HOTP",
    }
}

/// The machine-readable form of an entry.
pub open spec fn entry_json_is(j: OtpEntryJson, e: OtpEntry) -> bool {
    &&& j.app@ == e.app_name@
    &&& j.account@ == e.account_name@
    &&& j.otp_type@ == kind_name(e.otp_type)
    &&& j.algorithm@ == algo_name(e.algorithm)
    &&& opt_view(j.code) == opt_view(e.code)
    &&& j.touch_required == e.button_required
}

/// The entries in machine-readable form.
pub fn otp_entries_json(entries: &Vec<OtpEntry>) -> (r: Vec<OtpEntryJson>)
    ensures
        r@.len() == entries@.len(),
        forall|i: int| 0 <= i < entries@.len() ==> entry_json_is(#[trigger] r@[i], entries@[i]),
{
    let mut r: Vec<OtpEntryJson> = Vec::new();
    let mut i: usize = 0;
    while i < entries.len()
        invariant
            i <= entries.len(),
            r.len() == i,
            forall|k: int| 0 <= k < i ==> entry_json_is(#[trigger] r@[k], entries@[k]),
        decreases entries.len() - i,
    {
        let e = &entries[i];
        r.push(
            OtpEntryJson {
                app: e.app_name.clone(),
                account: e.account_name.clone(),
                otp_type: otp_type_str(e.otp_type),
                algorithm: otp_algo_str_t2(e.algorithm),
                code: clone_opt(&e.code),
                touch_required: e.button_required,
            },
        );
        i = i + 1;
    }
    r
}

/// Service and account in one.
pub open spec fn entry_label(app: Seq<char>, account: Seq<char>) -> Seq<char> {
    if app.len() == 0 {
        account
    } else {
        app + ":"@ + account
    }
}

/// Service and account in one; the account alone where there is no service.
pub fn otp_label(app: &str, account: &str) -> (r: String)
    ensures
        r@ == entry_label(app@, account@),
{
    if app.is_empty() {
        account.to_owned()
    } else {
        cat3(app, ":", account)
    }
}

/// The line of an entry. A code that is withheld shows as a dash.
pub open spec fn entry_line(e: OtpEntry) -> Seq<char> {
    clean(entry_label(e.app_name@, e.account_name@)) + "  ["@ + kind_name(e.otp_type) + "/"@ + algo_name(
        e.algorithm,
    ) + "]  "@ + (match e.code {
        Some(c) => c@,
        None => "\u{2014}"@,
    }) + (if e.button_required {
        "  (touch)"@
    } else {
        ""@
    })
}

/// The lines of all entries.
pub open spec fn entry_lines(entries: Seq<OtpEntry>) -> Seq<Seq<char>> {
    if entries.len() == 0 {
        seq!["(no OTP entries)"@]
    } else {
        entries.map_values(|e: OtpEntry| entry_line(e))
    }
}

fn entry_line_of(e: &OtpEntry) -> (r: String)
    ensures
        r@ == entry_line(*e),
{
    let label = sanitize_terminal(otp_label(e.app_name.as_str(), e.account_name.as_str()).as_str());
    let code = match &e.code {
        Some(c) => c.as_str(),
        None => "\u{2014}",
    };
    let tail = if e.button_required {
        "  (touch)"
    } else {
        ""
    };
    let head = cat7(
        label.as_str(),
        "  [",
        otp_type_str(e.otp_type),
        "/",
        otp_algo_str_t2(e.algorithm),
        "]  ",
        code,
    );
    cat2(head.as_str(), tail)
}

/// The entries, line by line.
pub fn otp_entries_lines(entries: &Vec<OtpEntry>) -> (r: Lines)
    ensures
        r@ == entry_lines(entries@),
{
    let mut out = Lines::new();
    if entries.len() == 0 {
        out.put("(no OTP entries)");
        assert(out@ =~= entry_lines(entries@));
        return out;
    }
    let ghost all = entries@.map_values(|e: OtpEntry| entry_line(e));
    let mut i: usize = 0;
    assert(out@ =~= all.take(0));
    while i < entries.len()
        invariant
            i <= entries.len(),
            all == entries@.map_values(|e: OtpEntry| entry_line(e)),
            out@ == all.take(i as int),
        decreases entries.len() - i,
    {
        out.say(entry_line_of(&entries[i]));
        i = i + 1;
        assert(out@ =~= all.take(i as int));
    }
    assert(all.take(i as int) =~= all);
    out
}

/// The code of an entry in machine-readable form, or that the key gave none.
pub fn otp_get_json(app: &str, account: &str, code: Option<String>) -> (r: Result<OtpGetJson, String>)
    ensures
        match (r, code) {
            (Ok(j), Some(c)) => j.app@ == app@ && j.account@ == account@ && j.code@ == c@,
            (Err(e), None) => e@ == "device did not return a code for that entry"@,
            _ => false,
        },
{
    match code {
        Some(c) => Ok(OtpGetJson { app: app.to_owned(), account: account.to_owned(), code: c }),
        None => Err("device did not return a code for that entry".to_owned()),
    }
}

/// The serial number in hexadecimal.
pub fn otp_serial_json(serial: &[u8]) -> (r: OtpSerialJson)
    ensures
        r.serial@ == hex_text(serial@),
{
    OtpSerialJson { serial: hex_encode(serial) }
}

/// State of the OTP PIN.
#[derive(Clone, Copy, Debug, PartialEq, Eq, Structural)]
pub struct PinFlag {
    /// Whether one is set.
    pub set: bool,
    /// Tries left.
    pub retries_left: u8,
    /// Tries at most.
    pub max_retries: u8,
}

/// The state of the PIN in machine-readable form; without the function only
/// that it is not supported.
pub fn pin_status_json(flag: Option<PinFlag>) -> (r: OtpPinStatusJson)
    ensures
        r.supported == (flag is Some),
        match flag {
            Some(f) => r.pin_set == Some(f.set) && r.retries_left == Some(f.retries_left) && r.max_retries
                == Some(f.max_retries),
            None => r.pin_set is None && r.retries_left is None && r.max_retries is None,
        },
{
    match flag {
        Some(f) => OtpPinStatusJson {
            supported: true,
            pin_set: Some(f.set),
            retries_left: Some(f.retries_left),
            max_retries: Some(f.max_retries),
        },
        None => OtpPinStatusJson { supported: false, pin_set: None, retries_left: None, max_retries: None },
    }
}

/// The line on the state of the PIN.
pub open spec fn pin_status_text(flag: Option<PinFlag>) -> Seq<char> {
    match flag {
        Some(f) => if f.set {
            "OTP PIN: set  (retries left: "@ + dec_text(f.retries_left as nat) + ", max: "@ + dec_text(
                f.max_retries as nat,
            ) + ")"@
        } else {
            "OTP PIN: not set"@
        },
        None => "OTP PIN: not offered by this key (the OTP-PIN feature arrived with R3.4)"@,
    }
}

/// The line on the state of the PIN.
pub fn pin_status_line(flag: Option<PinFlag>) -> (r: String)
    ensures
        r@ == pin_status_text(flag),
{
    match flag {
        Some(f) => {
            if f.set {
                cat5(
                    "OTP PIN: set  (retries left: ",
                    dec_u8(f.retries_left).as_str(),
                    ", max: ",
                    dec_u8(f.max_retries).as_str(),
                    ")",
                )
            } else {
                "OTP PIN: not set".to_owned()
            }
        },
        None => "OTP PIN: not offered by this key (the OTP-PIN feature arrived with R3.4)".to_owned(),
    }
}

/// The line on the fingerprint function.
pub fn fp_status_line(state: Option<bool>) -> (r: &'static str)
    ensures
        r@ == (match state {
            Some(true) => "Fingerprint-protected OTP: enabled"@,
            Some(false) => "Fingerprint-protected OTP: disabled (supported)"@,
            None => "Fingerprint-protected OTP: not available on this firmware"@,
        }),
{
    match state {
        Some(true) => "Fingerprint-protected OTP: enabled",
        Some(false) => "Fingerprint-protected OTP: disabled (supported)",
        None => "Fingerprint-protected OTP: not available on this firmware",
    }
}

/// What the configuration block says of interfaces and slots.
#[derive(Clone, Copy, Debug, PartialEq, Eq, Structural)]
pub struct OtpConfigFacts {
    /// Whether FIDO is off.
    pub fido_disabled: bool,
    /// Whether the keyboard is off.
    pub keyboard_disabled: bool,
    /// Whether the smart card is off.
    pub ccid_disabled: bool,
    /// Whether the block reaches the byte on the typing slot.
    pub has_config_byte: bool,
    /// Whether the typing slot is in use.
    pub button_configured: bool,
}

/// A word for an interface.
pub open spec fn on_off(disabled: bool) -> Seq<char> {
    if disabled {
        "disabled"@
    } else {
        "enabled"@
    }
}

fn on_off_of(disabled: bool) -> (r: &'static str)
    ensures
        r@ == on_off(disabled),
{
    if disabled {
        "disabled"
    } else {
        "enabled"
    }
}

/// A word for a function of the key.
pub open spec fn cap_word(c: Option<bool>) -> Seq<char> {
    match c {
        Some(true) => "yes"@,
        Some(false) => "no"@,
        None => "unknown (device returned a short config block)"@,
    }
}

fn cap_word_of(c: Option<bool>) -> (r: &'static str)
    ensures
        r@ == cap_word(c),
{
    match c {
        Some(true) => "yes",
        Some(false) => "no",
        None => "unknown (device returned a short config block)",
    }
}

/// A word for the typing slot.
pub open spec fn slot_word(f: OtpConfigFacts) -> Seq<char> {
    if !f.has_config_byte {
        "unknown (device returned a short config block)"@
    } else if f.button_configured {
        "configured"@
    } else {
        "empty"@
    }
}

/// The raw configuration of a key, shown before anything is made of it.
pub fn raw_config_line(raw: &[u8]) -> (r: String)
    ensures
        r@ == "READ_CONFIG returned "@ + dec_text(raw@.len()) + " bytes: "@ + hex_text(raw@),
{
    cat4("READ_CONFIG returned ", dec_usize(raw.len()).as_str(), " bytes: ", hex_encode(raw).as_str())
}

/// What the configuration of a key means, line by line. What a short block does
/// not tell is unknown.
pub fn otp_config_lines(info: &OtpDeviceInfo, f: &OtpConfigFacts) -> (r: Lines)
    ensures
        r@ == seq![
            "Device configuration:"@,
            "  FIDO interface:         "@ + on_off(f.fido_disabled),
            "  keyboard-HID interface: "@ + on_off(f.keyboard_disabled),
            "  CCID interface:         "@ + on_off(f.ccid_disabled),
            "  on-device OTP support:  "@ + cap_word(capability(Some(*info), OtpFeature::OnDevice)),
            "  HOTP-on-touch support:  "@ + cap_word(capability(Some(*info), OtpFeature::ButtonHotp)),
            "  HOTP-on-touch slot:     "@ + slot_word(*f),
        ],
{
    let mut out = Lines::new();
    out.put("Device configuration:");
    out.say(cat2("  FIDO interface:         ", on_off_of(f.fido_disabled)));
    out.say(cat2("  keyboard-HID interface: ", on_off_of(f.keyboard_disabled)));
    out.say(cat2("  CCID interface:         ", on_off_of(f.ccid_disabled)));
    out.say(
        cat2(
            "  on-device OTP support:  ",
            cap_word_of(otp_feature_capability(Some(info), OtpFeature::OnDevice)),
        ),
    );
    out.say(
        cat2(
            "  HOTP-on-touch support:  ",
            cap_word_of(otp_feature_capability(Some(info), OtpFeature::ButtonHotp)),
        ),
    );
    let slot = if !f.has_config_byte {
        "unknown (device returned a short config block)"
    } else if f.button_configured {
        "configured"
    } else {
        "empty"
    };
    out.say(cat2("  HOTP-on-touch slot:     ", slot));
    assert(out@ =~= seq![out@[0], out@[1], out@[2], out@[3], out@[4], out@[5], out@[6]]);
    out
}

/// The closing line of a command; none for those that end by showing
/// something.
pub open spec fn otp_done_text(cmd: OtpCmd) -> Option<Seq<char>> {
    match cmd {
        OtpCmd::Add { app, account, .. } => Some(
            "Added OTP entry "@ + debug_text(entry_label(app@, account@)) + "."@,
        ),
        OtpCmd::Delete { app, account, .. } => Some(
            "Deleted OTP entry "@ + debug_text(entry_label(app@, account@)) + "."@,
        ),
        OtpCmd::EraseAll { .. } => Some("Erased all OTP entries."@),
        OtpCmd::ButtonHotp { .. } => Some("Configured the HOTP-on-button keystroke slot."@),
        OtpCmd::DeleteButtonHotp => Some("Deleted the HOTP-on-button keystroke slot."@),
        OtpCmd::Interface { .. } => Some(
            "Interface configuration updated. Re-plug the key for it to take effect."@,
        ),
        OtpCmd::SetPin { .. } => Some("OTP PIN set. Codes now require the PIN to read."@),
        OtpCmd::Verify { .. } => Some("OTP PIN verified; read window open for this connection."@),
        OtpCmd::ChangePin { .. } => Some("OTP PIN changed."@),
        OtpCmd::RemovePin { .. } => Some("OTP PIN removed. Codes are readable without a PIN again."@),
        OtpCmd::FpEnable { .. } => Some(
            "Fingerprint protection enabled. Touch the sensor to unlock codes."@,
        ),
        OtpCmd::FpDisable { .. } => Some("Fingerprint protection disabled."@),
        _ => None,
    }
}

/// The closing line of a command.
pub fn otp_done(cmd: &OtpCmd) -> (r: Option<String>)
    ensures
        opt_view(r) == otp_done_text(*cmd),
{
    match cmd {
        OtpCmd::Add { app, account, .. } => {
            let label = otp_label(app.as_str(), account.as_str());
            Some(cat3("Added OTP entry ", quoted(label.as_str()).as_str(), "."))
        },
        OtpCmd::Delete { app, account, .. } => {
            let label = otp_label(app.as_str(), account.as_str());
            Some(cat3("Deleted OTP entry ", quoted(label.as_str()).as_str(), "."))
        },
        OtpCmd::EraseAll { .. } => Some("Erased all OTP entries.".to_owned()),
        OtpCmd::ButtonHotp { .. } => Some("Configured the HOTP-on-button keystroke slot.".to_owned()),
        OtpCmd::DeleteButtonHotp => Some("Deleted the HOTP-on-button keystroke slot.".to_owned()),
        OtpCmd::Interface { .. } => Some(
            "Interface configuration updated. Re-plug the key for it to take effect.".to_owned(),
        ),
        OtpCmd::SetPin { .. } => Some("OTP PIN set. Codes now require the PIN to read.".to_owned()),
        OtpCmd::Verify { .. } => Some("OTP PIN verified; read window open for this connection.".to_owned()),
        OtpCmd::ChangePin { .. } => Some("OTP PIN changed.".to_owned()),
        OtpCmd::RemovePin { .. } => Some("OTP PIN removed. Codes are readable without a PIN again.".to_owned()),
        OtpCmd::FpEnable { .. } => Some(
            "Fingerprint protection enabled. Touch the sensor to unlock codes.".to_owned(),
        ),
        OtpCmd::FpDisable { .. } => Some("Fingerprint protection disabled.".to_owned()),
        _ => None,
    }
}

/// Two secrets from two lines of standard input, or which one is missing.
pub open spec fn two_lines_spec(
    first: Option<Seq<char>>,
    second: Option<Seq<char>>,
    no_first: Seq<char>,
    no_second: Seq<char>,
) -> Result<(Seq<char>, Seq<char>), Seq<char>> {
    match (first, second) {
        (None, _) => Err(no_first),
        (Some(_), None) => Err(no_second),
        (Some(a), Some(b)) => Ok((a, b)),
    }
}

/// What two secrets hold.
pub open spec fn two_lines_view(r: Result<(String, String), String>) -> Result<(Seq<char>, Seq<char>), Seq<char>> {
    match r {
        Ok(p) => Ok((p.0@, p.1@)),
        Err(e) => Err(e@),
    }
}

fn two_lines(first: Option<String>, second: Option<String>, no_first: &str, no_second: &str) -> (r: Result<
    (String, String),
    String,
>)
    ensures
        two_lines_view(r) == two_lines_spec(opt_view(first), opt_view(second), no_first@, no_second@),
{
    match first {
        None => Err(no_first.to_owned()),
        Some(a) => match second {
            None => Err(no_second.to_owned()),
            Some(b) => Ok((a, b)),
        },
    }
}

/// The seed and the PIN from two lines of standard input.
pub fn seed_and_pin_lines(first: Option<String>, second: Option<String>) -> (r: Result<(String, String), String>)
    ensures
        two_lines_view(r) == two_lines_spec(
            opt_view(first),
            opt_view(second),
            "expected base32 seed on stdin line 1"@,
            "expected OTP PIN on stdin line 2"@,
        ),
{
    two_lines(first, second, "expected base32 seed on stdin line 1", "expected OTP PIN on stdin line 2")
}

/// The PIN in force and the one to be from two lines of standard input.
pub fn pin_lines(first: Option<String>, second: Option<String>) -> (r: Result<(String, String), String>)
    ensures
        two_lines_view(r) == two_lines_spec(
            opt_view(first),
            opt_view(second),
            "expected current PIN on stdin line 1"@,
            "expected new PIN on stdin line 2"@,
        ),
{
    two_lines(first, second, "expected current PIN on stdin line 1", "expected new PIN on stdin line 2")
}

/// The line that tells over which interface a session was opened.
pub fn otp_opened(over_card: bool) -> (r: &'static str)
    ensures
        r@ == (if over_card {
            "\u{2192} Token2 OTP on CCID/NFC"@
        } else {
            "\u{2192} Token2 OTP on USB-HID"@
        }),
{
    if over_card {
        "\u{2192} Token2 OTP on CCID/NFC"
    } else {
        "\u{2192} Token2 OTP on USB-HID"
    }
}

/// What the key waits for whenever it wants a touch.
pub const TOUCH_TO_CONTINUE: &'static str = "touch your key to continue\u{2026}";

/// What has to be typed for the interfaces to be changed.
pub const PHRASE_PROMPT: &'static str = "Type EXACTLY 'reconfigure interfaces' to proceed: ";

/// What the user is asked for before an operation; `finger` is whether a
/// fingerprint can unlock the codes.
pub fn otp_prompt(op: OtpOp, finger: bool) -> (r: Option<&'static str>)
    ensures
        match op {
            OtpOp::EraseAll => r matches Some(s) && s@ == "touch your key to confirm the erase\u{2026}"@,
            OtpOp::VerifyFingerprint => r matches Some(s) && s@
                == "Touch the fingerprint sensor to unlock OTP codes\u{2026}"@,
            OtpOp::Unlock(_) => if finger {
                r matches Some(s) && s@ == "Touch the fingerprint sensor (or wait to fall back to PIN)\u{2026}"@
            } else {
                r is None
            },
            _ => r is None,
        },
{
    match op {
        OtpOp::EraseAll => Some("touch your key to confirm the erase\u{2026}"),
        OtpOp::VerifyFingerprint => Some("Touch the fingerprint sensor to unlock OTP codes\u{2026}"),
        OtpOp::Unlock(_) => if finger {
            Some("Touch the fingerprint sensor (or wait to fall back to PIN)\u{2026}")
        } else {
            None
        },
        _ => None,
    }
}

/// The line that tells what unlocked the codes.
pub fn unlocked_line(by_finger: bool) -> (r: &'static str)
    ensures
        r@ == (if by_finger {
            "Unlocked with fingerprint."@
        } else {
            "Unlocked with PIN."@
        }),
{
    if by_finger {
        "Unlocked with fingerprint."
    } else {
        "Unlocked with PIN."
    }
}

/// Reports that the configuration block cannot be read.
pub fn config_failed(reason: &str) -> (r: String)
    ensures
        r@ == "READ_CONFIG failed: "@ + reason@,
{
    cat2("READ_CONFIG failed: ", reason)
}

/// Whether to ask for a finger before unlocking.
pub fn asks_for_finger(pin_only: bool, fp_enabled: Option<bool>) -> (r: bool)
    ensures
        r == (!pin_only && fp_enabled == Some(true)),
{
    match fp_enabled {
        Some(on) => !pin_only && on,
        None => false,
    }
}

/// An entry in machine-readable form keeps every field of it in its place.
pub proof fn law_otp_entry_fields_keep_their_places(j: OtpEntryJson, e: OtpEntry)
    requires
        entry_json_is(j, e),
    ensures
        j.app@ == e.app_name@ && j.account@ == e.account_name@ && opt_view(j.code) == opt_view(e.code),
        j.touch_required == e.button_required,
        e.otp_type == OtpType::Totp ==> j.otp_type@ == "TOTP"@,
        e.otp_type == OtpType::Hotp ==> j.otp_type@ == "HOTP"@,
        e.algorithm == OtpAlgorithm::Sha1 ==> j.algorithm@ == "SHA1"@,
        e.algorithm == OtpAlgorithm::Sha256 ==> j.algorithm@ == "SHA256"@,
{
}

/// Two lines of standard input are two secrets, the first line the first; one that
/// is missing is named.
pub proof fn law_two_lines_are_two_secrets(
    first: Option<Seq<char>>,
    second: Option<Seq<char>>,
    no_first: Seq<char>,
    no_second: Seq<char>,
)
    ensures
        first is None ==> two_lines_spec(first, second, no_first, no_second) == Err::<(Seq<char>, Seq<char>), Seq<char>>(
            no_first,
        ),
        first is Some && second is None ==> two_lines_spec(first, second, no_first, no_second) == Err::<
            (Seq<char>, Seq<char>),
            Seq<char>,
        >(no_second),
        first is Some && second is Some ==> two_lines_spec(first, second, no_first, no_second) == Ok::<
            (Seq<char>, Seq<char>),
            Seq<char>,
        >((first->0, second->0)),
{
}

/// An entry is called by its account, with the name of its application before it
/// where it has one.
pub proof fn law_entry_is_called_by_its_account(app: Seq<char>, account: Seq<char>)
    ensures
        app.len() == 0 ==> entry_label(app, account) == account,
        app.len() > 0 ==> entry_label(app, account) == app + ":"@ + account,
{
}

/// What a key says of itself is told as it says it, and what it does not say is
/// unknown.
pub proof fn law_unknown_is_not_told_as_no(f: OtpConfigFacts)
    ensures
        on_off(true) == "disabled"@ && on_off(false) == "enabled"@,
        cap_word(Some(true)) == "yes"@ && cap_word(Some(false)) == "no"@,
        cap_word(None) == "unknown (device returned a short config block)"@,
        !f.has_config_byte ==> slot_word(f) == cap_word(None),
        f.has_config_byte && f.button_configured ==> slot_word(f) == "configured"@,
        f.has_config_byte && !f.button_configured ==> slot_word(f) == "empty"@,
{
}

/// The line of an entry begins with what it is called, shows its code where there
/// is one, and says at its end whether a touch is needed.
pub proof fn law_otp_line_shows_the_code(e: OtpEntry)
    ensures
        ({
            let label = clean(entry_label(e.app_name@, e.account_name@));
            &&& entry_line(e).take(label.len() as int) == label
            &&& e.code matches Some(c) ==> has_run(entry_line(e), "]  "@ + c@)
            &&& e.button_required ==> entry_line(e).skip(entry_line(e).len() - "  (touch)"@.len()) == "  (touch)"@
            &&& !e.button_required ==> (e.code matches Some(c) ==> entry_line(e).skip(entry_line(e).len() - c@.len())
                == c@)
        }),
{
    let label = clean(entry_label(e.app_name@, e.account_name@));
    let kind = kind_name(e.otp_type) + "/"@ + algo_name(e.algorithm);
    let code = match e.code {
        Some(c) => c@,
        None => "\u{2014}"@,
    };
    let touch = if e.button_required {
        "  (touch)"@
    } else {
        ""@
    };
    reveal_strlit("");
    assert(entry_line(e) =~= label + "  ["@ + kind + "]  "@ + code + touch);
    lemma_entry_line_parts(e, label, kind, code, touch);
}

proof fn lemma_entry_line_parts(e: OtpEntry, label: Seq<char>, kind: Seq<char>, code: Seq<char>, touch: Seq<char>)
    requires
        entry_line(e) =~= label + "  ["@ + kind + "]  "@ + code + touch,
    ensures
        entry_line(e).take(label.len() as int) == label,
        has_run(entry_line(e), "]  "@ + code),
        entry_line(e).skip(entry_line(e).len() - touch.len()) == touch,
        touch.len() == 0 ==> entry_line(e).skip(entry_line(e).len() - code.len()) == code,
{
    let t = entry_line(e);
    assert(t.take(label.len() as int) =~= label);
    lemma_holds(t, label + "  ["@ + kind, "]  "@ + code, touch);
    assert(t.skip(t.len() - touch.len()) =~= touch);
    if touch.len() == 0 {
        assert(t.skip(t.len() - code.len()) =~= code);
    }
}

/// There is a line for every entry, in order, and one line where there is none.
pub proof fn law_every_otp_entry_has_a_line(entries: Seq<OtpEntry>, i: int)
    ensures
        entries.len() == 0 ==> entry_lines(entries).len() == 1,
        entries.len() > 0 ==> entry_lines(entries).len() == entries.len(),
        0 <= i < entries.len() ==> entry_lines(entries)[i] == entry_line(entries[i]),
{
}

/// The state of the PIN tells the tries that are left from those there are in all.
pub proof fn law_pin_state_tells_tries_apart(f: PinFlag)
    ensures
        f.set ==> has_run(pin_status_text(Some(f)), "retries left: "@ + dec_text(f.retries_left as nat)),
        f.set ==> has_run(pin_status_text(Some(f)), "max: "@ + dec_text(f.max_retries as nat)),
        pin_status_text(Some(f)) != pin_status_text(None),
{
    reveal_strlit("OTP PIN: set  (retries left: ");
    reveal_strlit("OTP PIN: set  (");
    reveal_strlit("retries left: ");
    reveal_strlit(", max: ");
    reveal_strlit(", ");
    reveal_strlit("max: ");
    reveal_strlit("OTP PIN: not set");
    reveal_strlit("OTP PIN: not offered by this key (the OTP-PIN feature arrived with R3.4)");
    assert("OTP PIN: set  (retries left: "@ =~= "OTP PIN: set  ("@ + "retries left: "@);
    assert(", max: "@ =~= ", "@ + "max: "@);
    let t = pin_status_text(Some(f));
    let left = dec_text(f.retries_left as nat);
    let max = dec_text(f.max_retries as nat);
    if f.set {
        lemma_holds(t, "OTP PIN: set  ("@, "retries left: "@ + left, ", max: "@ + max + ")"@);
        lemma_holds(t, "OTP PIN: set  (retries left: "@ + left + ", "@, "max: "@ + max, ")"@);
        assert(t[9] == 's');
        assert(pin_status_text(None)[9] == 'n');
    } else {
        assert(t.len() == 16);
        assert(pin_status_text(None).len() > 16);
    }
}

/// What changed the key is said, and it names the entry that was added or deleted;
/// what only reads says nothing of its own.
pub proof fn law_otp_message_names_the_entry(cmd: OtpCmd)
    ensures
        match cmd {
            OtpCmd::Add { app, account, .. } => otp_done_text(cmd) matches Some(t) && has_run(
                t,
                debug_text(entry_label(app@, account@)),
            ),
            OtpCmd::Delete { app, account, .. } => otp_done_text(cmd) matches Some(t) && has_run(
                t,
                debug_text(entry_label(app@, account@)),
            ),
            _ => true,
        },
{
    match cmd {
        OtpCmd::Add { app, account, .. } => lemma_holds(
            otp_done_text(cmd)->0,
            "Added OTP entry "@,
            debug_text(entry_label(app@, account@)),
            "."@,
        ),
        OtpCmd::Delete { app, account, .. } => lemma_holds(
            otp_done_text(cmd)->0,
            "Deleted OTP entry "@,
            debug_text(entry_label(app@, account@)),
            "."@,
        ),
        _ => {},
    }
}

} // verus!
