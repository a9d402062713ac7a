//! The commands of the Token2 OTP applet: which key they reach, what each one
//! does, in which order.

use crate::device::{Cap, Device};
use crate::plan::{lemma_short_increasing, lemma_short_plan};
use crate::sanitize::{clean, sanitize_terminal, trim, trimmed_of};
use crate::secrets::SecretOpts;
use crate::select::{has_name, hits, hits_of, is_named, lemma_hits};
use crate::text::{cat2, cat3, cat4, dec_text, dec_usize, join_strs, joined, opt_view, str_eq, str_views, Lines};
use vstd::prelude::*;

verus! {

/// The `--transport` option.
#[derive(Clone, Copy, Debug, PartialEq, Eq, Structural)]
pub enum OtpTransportArg {
    /// Whatever the key offers, USB-HID first.
    Auto,
    /// USB-HID only.
    Hid,
    /// PC/SC only.
    Ccid,
}

/// Where a selected key is reached.
#[derive(Debug)]
pub enum OtpTarget {
    /// At this HID path.
    HidPath(String),
    /// In this reader.
    Reader(String),
    /// At this HID path, and in this reader of the same key if that fails.
    HidThenReader(String, String),
}

/// What an [`OtpTarget`] holds.
pub enum OtpTargetView {
    /// A HID path.
    HidPath(Seq<char>),
    /// A reader.
    Reader(Seq<char>),
    /// A HID path, then a reader.
    HidThenReader(Seq<char>, Seq<char>),
}

impl View for OtpTarget {
    type V = OtpTargetView;

    open spec fn view(&self) -> OtpTargetView {
        match self {
            OtpTarget::HidPath(p) => OtpTargetView::HidPath(p@),
            OtpTarget::Reader(r) => OtpTargetView::Reader(r@),
            OtpTarget::HidThenReader(p, r) => OtpTargetView::HidThenReader(p@, r@),
        }
    }
}

/// For each device, whether it carries the name and has the OTP applet.
pub open spec fn otp_flags(devices: Seq<Device>, name: Seq<char>) -> Seq<bool> {
    devices.map_values(|d: Device| is_named(d, name) && d.caps.holds(Cap::Otp))
}

/// Where the selected key is reached, or why it cannot be.
pub open spec fn otp_target_spec(devices: Seq<Device>, name: Seq<char>, transport: OtpTransportArg) -> Result<
    OtpTargetView,
    Seq<char>,
> {
    let found = hits(otp_flags(devices, name));
    if found.len() == 0 {
        Err(
            "no connected OTP-capable device is named '"@ + name + "' (see `keyroostctl key-name list`)"@,
        )
    } else if found.len() > 1 {
        Err(
            dec_text(found.len()) + " connected devices are named '"@ + name
                + "'; refusing to guess which OTP key to use"@,
        )
    } else {
        let d = devices[found[0]];
        match transport {
            OtpTransportArg::Hid => match opt_view(d.hid_path) {
                Some(p) => Ok(OtpTargetView::HidPath(p)),
                None => Err("device '"@ + name + "' has no USB-HID interface for --transport hid"@),
            },
            OtpTransportArg::Ccid => match opt_view(d.reader) {
                Some(r) => Ok(OtpTargetView::Reader(r)),
                None => Err("device '"@ + name + "' has no PC/SC reader for --transport ccid"@),
            },
            OtpTransportArg::Auto => match (opt_view(d.hid_path), opt_view(d.reader)) {
                (Some(p), Some(r)) => Ok(OtpTargetView::HidThenReader(p, r)),
                (Some(p), None) => Ok(OtpTargetView::HidPath(p)),
                (None, Some(r)) => Ok(OtpTargetView::Reader(r)),
                (None, None) => Err(
                    "device '"@ + name + "' exposes no OTP transport (neither USB-HID nor PC/SC)"@,
                ),
            },
        }
    }
}

/// Finds where the key that the `--device` selector names is reached. Without a
/// selector there is no target. Fails when no key or more than one carries the
/// name, or when the key lacks the transport.
pub fn resolve_otp_target(devices: &[Device], name: Option<&str>, transport: OtpTransportArg) -> (r: Result<
    Option<OtpTarget>,
    String,
>)
    ensures
        match (name, r) {
            (None, Ok(None)) => true,
            (Some(n), Ok(Some(t))) => otp_target_spec(devices@, n@, transport) == Ok::<OtpTargetView, Seq<char>>(t@),
            (Some(n), Err(e)) => otp_target_spec(devices@, n@, transport) == Err::<OtpTargetView, Seq<char>>(e@),
            _ => false,
        },
{
    let name = match name {
        None => {
            return Ok(None);
        },
        Some(n) => n,
    };
    let mut flags: Vec<bool> = Vec::new();
    let mut i: usize = 0;
    while i < devices.len()
        invariant
            i <= devices.len(),
            flags@ == otp_flags(devices@, name@).take(i as int),
        decreases devices.len() - i,
    {
        flags.push(has_name(&devices[i], name) && devices[i].caps.has(Cap::Otp));
        i = i + 1;
        assert(flags@ =~= otp_flags(devices@, name@).take(i as int));
    }
    assert(flags@ =~= otp_flags(devices@, name@));
    let found = hits_of(&flags);
    let ghost idx = found@.map_values(|i: usize| i as int);
    assert(idx.len() == found.len());
    if found.len() == 0 {
        return Err(
            cat3(
                "no connected OTP-capable device is named '",
                name,
                "' (see `keyroostctl key-name list`)",
            ),
        );
    }
    if found.len() > 1 {
        return Err(
            cat4(
                dec_usize(found.len()).as_str(),
                " connected devices are named '",
                name,
                "'; refusing to guess which OTP key to use",
            ),
        );
    }
    assert(idx[0] == found@[0]);
    let d = &devices[found[0]];
    match transport {
        OtpTransportArg::Hid => match &d.hid_path {
            Some(p) => Ok(Some(OtpTarget::HidPath(p.clone()))),
            None => Err(cat3("device '", name, "' has no USB-HID interface for --transport hid")),
        },
        OtpTransportArg::Ccid => match &d.reader {
            Some(r) => Ok(Some(OtpTarget::Reader(r.clone()))),
            None => Err(cat3("device '", name, "' has no PC/SC reader for --transport ccid")),
        },
        OtpTransportArg::Auto => match (&d.hid_path, &d.reader) {
            (Some(p), Some(r)) => Ok(Some(OtpTarget::HidThenReader(p.clone(), r.clone()))),
            (Some(p), None) => Ok(Some(OtpTarget::HidPath(p.clone()))),
            (None, Some(r)) => Ok(Some(OtpTarget::Reader(r.clone()))),
            (None, None) => Err(
                cat3("device '", name, "' exposes no OTP transport (neither USB-HID nor PC/SC)"),
            ),
        },
    }
}

/// A target is only ever taken from one device: the only one that carries the
/// name and has the applet.
pub proof fn law_otp_target_is_the_named_key(devices: Seq<Device>, name: Seq<char>, transport: OtpTransportArg)
    requires
        otp_target_spec(devices, name, transport) is Ok,
    ensures
        exists|i: int|
            0 <= i < devices.len() && is_named(#[trigger] devices[i], name) && devices[i].caps.holds(Cap::Otp)
                && (forall|k: int|
                0 <= k < devices.len() && is_named(#[trigger] devices[k], name) && devices[k].caps.holds(Cap::Otp)
                    ==> k == i) && match otp_target_spec(devices, name, transport)->Ok_0 {
                OtpTargetView::HidPath(p) => opt_view(devices[i].hid_path) == Some(p),
                OtpTargetView::Reader(r) => opt_view(devices[i].reader) == Some(r),
                OtpTargetView::HidThenReader(p, r) => opt_view(devices[i].hid_path) == Some(p) && opt_view(
                    devices[i].reader,
                ) == Some(r),
            },
{
    let flags = otp_flags(devices, name);
    lemma_hits(flags);
    let i = hits(flags)[0];
    assert(flags[i]);
    assert(is_named(devices[i], name) && devices[i].caps.holds(Cap::Otp));
    assert forall|k: int|
        0 <= k < devices.len() && is_named(#[trigger] devices[k], name) && devices[k].caps.holds(
            Cap::Otp,
        ) implies k == i by {
        assert(flags[k]);
        assert(hits(flags).contains(k));
    }
}

/// How a session is opened.
#[derive(Debug)]
pub enum OtpOpen {
    /// On the selected key.
    Target(OtpTarget),
    /// On the first key found over this transport.
    Detect(OtpTransportArg),
}

/// Chooses how a session is opened: on the selected key, and only without a
/// selector on the first key found.
pub fn open_otp(devices: &[Device], name: Option<&str>, transport: OtpTransportArg) -> (r: Result<OtpOpen, String>)
    ensures
        match (name, r) {
            (None, Ok(OtpOpen::Detect(t))) => t == transport,
            (Some(n), Ok(OtpOpen::Target(t))) => otp_target_spec(devices@, n@, transport) == Ok::<
                OtpTargetView,
                Seq<char>,
            >(t@),
            (Some(n), Err(e)) => otp_target_spec(devices@, n@, transport) == Err::<OtpTargetView, Seq<char>>(e@),
            _ => false,
        },
{
    match resolve_otp_target(devices, name, transport) {
        Ok(Some(t)) => Ok(OtpOpen::Target(t)),
        Ok(None) => Ok(OtpOpen::Detect(transport)),
        Err(e) => Err(e),
    }
}

/// After the HID path of a key failed: the reader to fall back to, with the
/// note to print. Only a key with both has one.
pub fn hid_fallback(target: &OtpTarget, error: &str) -> (r: Option<(String, String)>)
    ensures
        match (target, r) {
            (OtpTarget::HidThenReader(_, reader), Some(f)) => f.0@ == reader@ && f.1@ == clean(
                "USB-HID path failed ("@ + error@ + "); trying the same key's smart-card reader\u{2026}"@,
            ),
            (OtpTarget::HidThenReader(_, _), None) => false,
            (_, f) => f is None,
        },
{
    match target {
        OtpTarget::HidThenReader(_, reader) => {
            let note = cat3(
                "USB-HID path failed (",
                error,
                "); trying the same key's smart-card reader\u{2026}",
            );
            Some((reader.clone(), sanitize_terminal(note.as_str())))
        },
        _ => None,
    }
}

/// The configuration block of a key.
#[derive(Clone, Copy, Debug, PartialEq, Eq, Structural)]
pub struct OtpDeviceInfo {
    /// How many bytes the key answered with.
    pub raw_len: usize,
    /// Its capability byte, number 9; zero where the block is too short.
    pub capabilities: u8,
}

impl OtpDeviceInfo {
    /// Reads a block. An empty one is none.
    pub fn parse(raw: &[u8]) -> (r: Option<OtpDeviceInfo>)
        ensures
            match r {
                Some(i) => raw@.len() > 0 && i.raw_len == raw@.len() && i.capabilities == (if raw@.len() > 9 {
                    raw@[9]
                } else {
                    0
                }),
                None => raw@.len() == 0,
            },
    {
        if raw.len() == 0 {
            return None;
        }
        let capabilities: u8 = if raw.len() > 9 {
            raw[9]
        } else {
            0
        };
        Some(OtpDeviceInfo { raw_len: raw.len(), capabilities })
    }

    /// Bit 0 says that the key stores OTP entries.
    pub open spec fn stores_otp(self) -> bool {
        self.capabilities & 0x01 != 0
    }

    /// Bit 5 says that the key has no slot that types a code.
    pub open spec fn types_hotp(self) -> bool {
        self.capabilities & 0x20 == 0
    }

    /// Whether the key stores OTP entries.
    pub fn totp_supported(self) -> (r: bool)
        ensures
            r == self.stores_otp(),
    {
        self.capabilities & 0x01 != 0
    }

    /// Whether the key has a slot that types a code.
    pub fn button_hotp_supported(self) -> (r: bool)
        ensures
            r == self.types_hotp(),
    {
        self.capabilities & 0x20 == 0
    }
}

/// A function that a key is made with or without.
#[derive(Clone, Copy, Debug, PartialEq, Eq, Structural)]
pub enum OtpFeature {
    /// Storing OTP entries.
    OnDevice,
    /// Typing a HOTP code on a touch.
    ButtonHotp,
}

/// What to say of a key without stored entries.
pub const NO_ON_DEVICE: &'static str = "this key does not have the on-device OTP function: it reports that it was supplied without it, so it cannot store TOTP or HOTP entries. Token2 keys aren't upgradable after purchase — OTP is a separate product configuration, not something that can be switched on later. Run `keyroostctl otp config` to see the capabilities the key reports.";

/// What to say of a key without a typing slot.
pub const NO_BUTTON_HOTP: &'static str = "this key does not have the HOTP-on-touch function: it reports that it was supplied without it. Token2 keys aren't upgradable after purchase — the keystroke slot is a separate product configuration, not something that can be switched on later. Run `keyroostctl otp config` to see the capabilities the key reports.";

impl OtpFeature {
    /// What to say of a key without the function.
    pub open spec fn missing_text(self) -> Seq<char> {
        match self {
            OtpFeature::OnDevice => NO_ON_DEVICE@,
            OtpFeature::ButtonHotp => NO_BUTTON_HOTP@,
        }
    }

    /// What to say of a key without the function.
    pub fn missing_message(self) -> (r: &'static str)
        ensures
            r@ == self.missing_text(),
    {
        match self {
            OtpFeature::OnDevice => NO_ON_DEVICE,
            OtpFeature::ButtonHotp => NO_BUTTON_HOTP,
        }
    }
}

/// What a key's block says of a function; nothing, when it was not read or
/// does not reach the capability byte.
pub open spec fn capability(info: Option<OtpDeviceInfo>, feature: OtpFeature) -> Option<bool> {
    match info {
        Some(i) => if i.raw_len < 10 {
            None
        } else {
            Some(
                match feature {
                    OtpFeature::OnDevice => i.stores_otp(),
                    OtpFeature::ButtonHotp => i.types_hotp(),
                },
            )
        },
        None => None,
    }
}

/// What a key's block says of a function.
pub fn otp_feature_capability(info: Option<&OtpDeviceInfo>, feature: OtpFeature) -> (r: Option<bool>)
    ensures
        r == capability(
            match info {
                Some(i) => Some(*i),
                None => None,
            },
            feature,
        ),
{
    match info {
        Some(i) => {
            if i.raw_len < 10 {
                return None;
            }
            Some(
                match feature {
                    OtpFeature::OnDevice => i.totp_supported(),
                    OtpFeature::ButtonHotp => i.button_hotp_supported(),
                },
            )
        },
        None => None,
    }
}

/// Stops a command whose function the key says it does not have. Not knowing
/// never stops one.
pub fn ensure_otp_feature(info: Option<&OtpDeviceInfo>, feature: OtpFeature) -> (r: Result<(), String>)
    ensures
        r is Err <==> capability(
            match info {
                Some(i) => Some(*i),
                None => None,
            },
            feature,
        ) == Some(false),
        r matches Err(e) ==> e@ == feature.missing_text(),
{
    match otp_feature_capability(info, feature) {
        Some(false) => Err(feature.missing_message().to_owned()),
        _ => Ok(()),
    }
}

/// A failed read or a short block never stops a command.
pub proof fn law_unknown_capability_never_blocks(info: OtpDeviceInfo, feature: OtpFeature)
    ensures
        capability(None, feature) != Some(false),
        info.raw_len < 10 ==> capability(Some(info), feature) != Some(false),
{
}

/// Digest of an OTP entry.
#[derive(Clone, Copy, Debug, PartialEq, Eq, Structural)]
pub enum OtpAlgorithm {
    /// SHA-1.
    Sha1,
    /// SHA-256.
    Sha256,
}

/// Kind of an OTP entry.
#[derive(Clone, Copy, Debug, PartialEq, Eq, Structural)]
pub enum OtpType {
    /// By time.
    Totp,
    /// By counter.
    Hotp,
}

/// A command of the OTP applet.
#[derive(Debug)]
pub enum OtpCmd {
    /// List the entries.
    List { pin: SecretOpts },
    /// Read one code.
    Get { app: String, account: String },
    /// Add an entry.
    Add {
        app: String,
        account: String,
        otp_type: OtpType,
        algorithm: OtpAlgorithm,
        digits: u8,
        period: u16,
        touch: bool,
        seed: SecretOpts,
        pin: SecretOpts,
    },
    /// Delete an entry.
    Delete { app: String, account: String, pin: SecretOpts },
    /// Delete all entries.
    EraseAll { yes: bool },
    /// Show the serial number.
    Serial,
    /// Set up the slot that types a code.
    ButtonHotp { digits: u8, no_enter: bool, long_touch: bool, numpad: bool, seed: SecretOpts },
    /// Clear the slot that types a code.
    DeleteButtonHotp,
    /// Show the configuration block.
    Config,
    /// Choose the interfaces that stay on.
    Interface { fido: bool, keyboard: bool, ccid: bool, yes: bool },
    /// Show the state of the PIN.
    PinStatus,
    /// Set a PIN.
    SetPin { pin: SecretOpts },
    /// Verify the PIN.
    Verify { pin: SecretOpts },
    /// Change the PIN.
    ChangePin { current_env: Option<String>, new_env: Option<String>, pin_stdin: bool },
    /// Remove the PIN.
    RemovePin { pin: SecretOpts },
    /// Show whether codes are behind a fingerprint.
    FpStatus,
    /// Put codes behind a fingerprint.
    FpEnable { pin: SecretOpts },
    /// Take codes from behind the fingerprint.
    FpDisable { pin: SecretOpts },
    /// List the entries after a fingerprint.
    FpList,
    /// List the entries after a fingerprint or a PIN.
    UnlockList { pin: SecretOpts, pin_only: bool },
}

/// A secret an OTP command asks for.
#[derive(Clone, Copy, Debug, PartialEq, Eq, Structural)]
pub enum OtpSecret {
    /// The seed of an entry.
    Seed,
    /// The PIN.
    Pin,
    /// The PIN to be.
    NewPin,
    /// The PIN in force.
    CurrentPin,
}

impl OtpSecret {
    /// What the messages call it.
    pub open spec fn name(self) -> Seq<char> {
        match self {
            OtpSecret::Seed => "seed"@,
            OtpSecret::Pin => "OTP PIN"@,
            OtpSecret::NewPin => "new OTP PIN"@,
            OtpSecret::CurrentPin => "current OTP PIN"@,
        }
    }

    /// What the messages call it.
    pub fn label(self) -> (r: &'static str)
        ensures
            r@ == self.name(),
    {
        match self {
            OtpSecret::Seed => "seed",
            OtpSecret::Pin => "OTP PIN",
            OtpSecret::NewPin => "new OTP PIN",
            OtpSecret::CurrentPin => "current OTP PIN",
        }
    }
}

/// One operation of a plan.
#[derive(Clone, Copy, Debug, PartialEq, Eq, Structural)]
pub enum OtpOp {
    /// Read a secret from where the command says it is.
    Read(OtpSecret),
    /// Read the seed and the PIN from two lines of standard input.
    ReadSeedAndPinLines,
    /// Read the PIN in force and the one to be from two lines of standard
    /// input.
    ReadPinLines,
    /// Decode the seed.
    DecodeSeed,
    /// Say what would change, and ask for the phrase unless it was confirmed.
    ConfirmInterfaces(bool),
    /// Open the applet.
    Open,
    /// Stop if the key says that it lacks the function.
    Ensure(OtpFeature),
    /// Take the time that codes are asked for.
    TakeTime,
    /// List the entries, behind the PIN if there is one.
    List,
    /// Read one code.
    Get,
    /// Add the entry that the command names.
    Write { otp_type: OtpType, algorithm: OtpAlgorithm, period: u16, digits: u8, touch: bool },
    /// Delete an entry.
    Delete,
    /// Ask for a touch and delete all entries.
    EraseAll,
    /// Show the serial number.
    Serial,
    /// Set up the slot that types a code.
    SetButton { digits: u8, enter: bool, long_touch: bool, numpad: bool },
    /// Clear the slot that types a code.
    DeleteButton,
    /// Show the configuration block.
    Config,
    /// Disable the interfaces that are not to stay on.
    SetInterfaces { fido: bool, keyboard: bool, ccid: bool },
    /// Show the state of the PIN.
    PinStatus,
    /// Set a PIN.
    SetPin,
    /// Verify the PIN.
    VerifyPin,
    /// Change the PIN.
    ChangePin,
    /// Remove the PIN.
    RemovePin,
    /// Show whether codes are behind a fingerprint.
    FpStatus,
    /// Put codes behind a fingerprint, or take them from there.
    SetFp(bool),
    /// Ask for a fingerprint.
    VerifyFingerprint,
    /// Unlock with a fingerprint where that is wanted, else with the PIN.
    Unlock(bool),
    /// List the entries once they are unlocked.
    ListUnlocked,
}

/// Why erasing is refused.
pub const ERASE_REFUSAL: &'static str = "refusing to erase all OTP entries without --yes";

/// Why fewer than two interfaces are refused.
pub const TOO_FEW_INTERFACES: &'static str = "at least two interfaces must stay enabled (--fido / --keyboard / --ccid); reducing to one or zero risks locking you out of the key";

/// How many of the three interfaces stay on.
pub open spec fn enabled_count(fido: bool, keyboard: bool, ccid: bool) -> nat {
    (if fido { 1nat } else { 0 }) + (if keyboard { 1nat } else { 0 }) + (if ccid { 1nat } else { 0 })
}

/// Whether a secret was offered.
pub open spec fn given(o: SecretOpts) -> bool {
    o.env is Some || o.stdin
}

/// The operation that reads the PIN, where one was offered.
pub open spec fn pin_op(o: SecretOpts) -> Seq<OtpOp> {
    if given(o) {
        seq![OtpOp::Read(OtpSecret::Pin)]
    } else {
        Seq::empty()
    }
}

/// What each command does, in order, or why it refuses before it begins.
pub open spec fn otp_plan_spec(cmd: OtpCmd) -> Result<Seq<OtpOp>, Seq<char>> {
    let open = seq![OtpOp::Open, OtpOp::Ensure(OtpFeature::OnDevice)];
    match cmd {
        OtpCmd::List { pin } => Ok(open + seq![OtpOp::TakeTime] + pin_op(pin) + seq![OtpOp::List]),
        OtpCmd::Get { .. } => Ok(open + seq![OtpOp::TakeTime, OtpOp::Get]),
        OtpCmd::Add { otp_type, algorithm, digits, period, touch, seed, pin, .. } => if 4 <= digits <= 10 {
            let read = if seed.stdin && pin.stdin {
                seq![OtpOp::ReadSeedAndPinLines]
            } else {
                seq![OtpOp::Read(OtpSecret::Seed)] + pin_op(pin)
            };
            Ok(
                read + seq![OtpOp::DecodeSeed] + open + seq![
                    OtpOp::Write { otp_type, algorithm, period, digits, touch },
                ],
            )
        } else {
            Err("--digits must be between 4 and 10"@)
        },
        OtpCmd::Delete { pin, .. } => Ok(pin_op(pin) + open + seq![OtpOp::Delete]),
        OtpCmd::EraseAll { yes } => if yes {
            Ok(open + seq![OtpOp::EraseAll])
        } else {
            Err(ERASE_REFUSAL@)
        },
        OtpCmd::Serial => Ok(seq![OtpOp::Open, OtpOp::Serial]),
        OtpCmd::ButtonHotp { digits, no_enter, long_touch, numpad, .. } => if digits == 6 || digits == 8 {
            Ok(
                seq![
                    OtpOp::Read(OtpSecret::Seed),
                    OtpOp::DecodeSeed,
                    OtpOp::Open,
                    OtpOp::Ensure(OtpFeature::ButtonHotp),
                    OtpOp::SetButton { digits, enter: !no_enter, long_touch, numpad },
                ],
            )
        } else {
            Err("button HOTP --digits must be 6 or 8"@)
        },
        OtpCmd::DeleteButtonHotp => Ok(
            seq![OtpOp::Open, OtpOp::Ensure(OtpFeature::ButtonHotp), OtpOp::DeleteButton],
        ),
        OtpCmd::Config => Ok(seq![OtpOp::Open, OtpOp::Config]),
        OtpCmd::Interface { fido, keyboard, ccid, yes } => if enabled_count(fido, keyboard, ccid) < 2 {
            Err(TOO_FEW_INTERFACES@)
        } else {
            Ok(
                seq![
                    OtpOp::ConfirmInterfaces(yes),
                    OtpOp::Open,
                    OtpOp::SetInterfaces { fido, keyboard, ccid },
                ],
            )
        },
        OtpCmd::PinStatus => Ok(open + seq![OtpOp::PinStatus]),
        OtpCmd::SetPin { .. } => Ok(seq![OtpOp::Read(OtpSecret::NewPin)] + open + seq![OtpOp::SetPin]),
        OtpCmd::Verify { .. } => Ok(seq![OtpOp::Read(OtpSecret::Pin)] + open + seq![OtpOp::VerifyPin]),
        OtpCmd::ChangePin { pin_stdin, .. } => Ok(
            (if pin_stdin {
                seq![OtpOp::ReadPinLines]
            } else {
                seq![OtpOp::Read(OtpSecret::CurrentPin), OtpOp::Read(OtpSecret::NewPin)]
            }) + open + seq![OtpOp::ChangePin],
        ),
        OtpCmd::RemovePin { .. } => Ok(
            seq![OtpOp::Read(OtpSecret::CurrentPin)] + open + seq![OtpOp::RemovePin],
        ),
        OtpCmd::FpStatus => Ok(open + seq![OtpOp::FpStatus]),
        OtpCmd::FpEnable { .. } => Ok(seq![OtpOp::Read(OtpSecret::Pin)] + open + seq![OtpOp::SetFp(true)]),
        OtpCmd::FpDisable { .. } => Ok(seq![OtpOp::Read(OtpSecret::Pin)] + open + seq![OtpOp::SetFp(false)]),
        OtpCmd::FpList => Ok(open + seq![OtpOp::TakeTime, OtpOp::VerifyFingerprint, OtpOp::ListUnlocked]),
        OtpCmd::UnlockList { pin, pin_only } => Ok(
            pin_op(pin) + open + seq![OtpOp::TakeTime, OtpOp::Unlock(!pin_only), OtpOp::ListUnlocked],
        ),
    }
}

/// What a planning result holds.
pub open spec fn otp_result(r: Result<Vec<OtpOp>, String>) -> Result<Seq<OtpOp>, Seq<char>> {
    match r {
        Ok(v) => Ok(v@),
        Err(e) => Err(e@),
    }
}

fn push_pin(plan: &mut Vec<OtpOp>, pin: &SecretOpts)
    ensures
        final(plan)@ == old(plan)@ + pin_op(*pin),
{
    let ghost before = plan@;
    if pin.env.is_some() || pin.stdin {
        plan.push(OtpOp::Read(OtpSecret::Pin));
    }
    assert(plan@ =~= before + pin_op(*pin));
}

fn push_open(plan: &mut Vec<OtpOp>)
    ensures
        final(plan)@ == old(plan)@ + seq![OtpOp::Open, OtpOp::Ensure(OtpFeature::OnDevice)],
{
    let ghost before = plan@;
    plan.push(OtpOp::Open);
    plan.push(OtpOp::Ensure(OtpFeature::OnDevice));
    assert(plan@ =~= before + seq![OtpOp::Open, OtpOp::Ensure(OtpFeature::OnDevice)]);
}

/// Plans a command of the OTP applet.
#[verifier::rlimit(40)]
pub fn run_otp(cmd: &OtpCmd) -> (r: Result<Vec<OtpOp>, String>)
    ensures
        otp_result(r) == otp_plan_spec(*cmd),
{
    let ghost want = otp_plan_spec(*cmd);
    let mut plan: Vec<OtpOp> = Vec::new();
    match cmd {
        OtpCmd::List { pin } => {
            push_open(&mut plan);
            plan.push(OtpOp::TakeTime);
            push_pin(&mut plan, pin);
            plan.push(OtpOp::List);
        },
        OtpCmd::Get { .. } => {
            push_open(&mut plan);
            plan.push(OtpOp::TakeTime);
            plan.push(OtpOp::Get);
        },
        OtpCmd::Add { otp_type, algorithm, digits, period, touch, seed, pin, .. } => {
            if *digits < 4 || *digits > 10 {
                return Err("--digits must be between 4 and 10".to_owned());
            }
            if seed.stdin && pin.stdin {
                plan.push(OtpOp::ReadSeedAndPinLines);
            } else {
                plan.push(OtpOp::Read(OtpSecret::Seed));
                push_pin(&mut plan, pin);
            }
            plan.push(OtpOp::DecodeSeed);
            push_open(&mut plan);
            plan.push(
                OtpOp::Write {
                    otp_type: *otp_type,
                    algorithm: *algorithm,
                    period: *period,
                    digits: *digits,
                    touch: *touch,
                },
            );
        },
        OtpCmd::Delete { pin, .. } => {
            push_pin(&mut plan, pin);
            push_open(&mut plan);
            plan.push(OtpOp::Delete);
        },
        OtpCmd::EraseAll { yes } => {
            if !*yes {
                return Err(ERASE_REFUSAL.to_owned());
            }
            push_open(&mut plan);
            plan.push(OtpOp::EraseAll);
        },
        OtpCmd::Serial => {
            plan.push(OtpOp::Open);
            plan.push(OtpOp::Serial);
        },
        OtpCmd::ButtonHotp { digits, no_enter, long_touch, numpad, .. } => {
            if *digits != 6 && *digits != 8 {
                return Err("button HOTP --digits must be 6 or 8".to_owned());
            }
            plan.push(OtpOp::Read(OtpSecret::Seed));
            plan.push(OtpOp::DecodeSeed);
            plan.push(OtpOp::Open);
            plan.push(OtpOp::Ensure(OtpFeature::ButtonHotp));
            plan.push(
                OtpOp::SetButton {
                    digits: *digits,
                    enter: !*no_enter,
                    long_touch: *long_touch,
                    numpad: *numpad,
                },
            );
        },
        OtpCmd::DeleteButtonHotp => {
            plan.push(OtpOp::Open);
            plan.push(OtpOp::Ensure(OtpFeature::ButtonHotp));
            plan.push(OtpOp::DeleteButton);
        },
        OtpCmd::Config => {
            plan.push(OtpOp::Open);
            plan.push(OtpOp::Config);
        },
        OtpCmd::Interface { fido, keyboard, ccid, yes } => {
            if !((*fido && *keyboard) || (*fido && *ccid) || (*keyboard && *ccid)) {
                return Err(TOO_FEW_INTERFACES.to_owned());
            }
            plan.push(OtpOp::ConfirmInterfaces(*yes));
            plan.push(OtpOp::Open);
            plan.push(OtpOp::SetInterfaces { fido: *fido, keyboard: *keyboard, ccid: *ccid });
        },
        OtpCmd::PinStatus => {
            push_open(&mut plan);
            plan.push(OtpOp::PinStatus);
        },
        OtpCmd::SetPin { .. } => {
            plan.push(OtpOp::Read(OtpSecret::NewPin));
            push_open(&mut plan);
            plan.push(OtpOp::SetPin);
        },
        OtpCmd::Verify { .. } => {
            plan.push(OtpOp::Read(OtpSecret::Pin));
            push_open(&mut plan);
            plan.push(OtpOp::VerifyPin);
        },
        OtpCmd::ChangePin { pin_stdin, .. } => {
            if *pin_stdin {
                plan.push(OtpOp::ReadPinLines);
            } else {
                plan.push(OtpOp::Read(OtpSecret::CurrentPin));
                plan.push(OtpOp::Read(OtpSecret::NewPin));
            }
            push_open(&mut plan);
            plan.push(OtpOp::ChangePin);
        },
        OtpCmd::RemovePin { .. } => {
            plan.push(OtpOp::Read(OtpSecret::CurrentPin));
            push_open(&mut plan);
            plan.push(OtpOp::RemovePin);
        },
        OtpCmd::FpStatus => {
            push_open(&mut plan);
            plan.push(OtpOp::FpStatus);
        },
        OtpCmd::FpEnable { .. } => {
            plan.push(OtpOp::Read(OtpSecret::Pin));
            push_open(&mut plan);
            plan.push(OtpOp::SetFp(true));
        },
        OtpCmd::FpDisable { .. } => {
            plan.push(OtpOp::Read(OtpSecret::Pin));
            push_open(&mut plan);
            plan.push(OtpOp::SetFp(false));
        },
        OtpCmd::FpList => {
            push_open(&mut plan);
            plan.push(OtpOp::TakeTime);
            plan.push(OtpOp::VerifyFingerprint);
            plan.push(OtpOp::ListUnlocked);
        },
        OtpCmd::UnlockList { pin, pin_only } => {
            push_pin(&mut plan, pin);
            push_open(&mut plan);
            plan.push(OtpOp::TakeTime);
            plan.push(OtpOp::Unlock(!*pin_only));
            plan.push(OtpOp::ListUnlocked);
        },
    }
    assert(want is Ok);
    assert(plan@ =~= want->Ok_0);
    Ok(plan)
}

/// No plan leaves fewer than two interfaces on.
pub proof fn law_two_interfaces_stay_on(fido: bool, keyboard: bool, ccid: bool, yes: bool)
    ensures
        otp_plan_spec(OtpCmd::Interface { fido, keyboard, ccid, yes }) is Ok <==> enabled_count(
            fido,
            keyboard,
            ccid,
        ) >= 2,
{
}

/// Everything is erased only when the user confirmed it, and only after the
/// key was asked whether it has anything to erase.
pub proof fn law_erase_needs_yes(cmd: OtpCmd, i: int)
    requires
        otp_plan_spec(cmd) is Ok,
        0 <= i < otp_plan_spec(cmd)->Ok_0.len(),
        otp_plan_spec(cmd)->Ok_0[i] == OtpOp::EraseAll,
    ensures
        cmd matches OtpCmd::EraseAll { yes } && yes,
        i == 2 && otp_plan_spec(cmd)->Ok_0[1] == OtpOp::Ensure(OtpFeature::OnDevice),
{
}

/// The bits that stand for the three interfaces.
#[derive(Clone, Copy, Debug, PartialEq, Eq, Structural)]
pub struct InterfaceBits {
    /// FIDO.
    pub fido: u8,
    /// Keyboard.
    pub keyboard: u8,
    /// Smart card.
    pub ccid: u8,
}

/// The mask of the interfaces to disable: the bits of those that do not stay
/// on.
pub fn disable_mask(fido: bool, keyboard: bool, ccid: bool, bits: InterfaceBits) -> (r: u8)
    ensures
        r == (if fido { 0u8 } else { bits.fido }) | (if keyboard { 0u8 } else { bits.keyboard }) | (if ccid {
            0u8
        } else {
            bits.ccid
        }),
{
    (if fido {
        0u8
    } else {
        bits.fido
    }) | (if keyboard {
        0u8
    } else {
        bits.keyboard
    }) | (if ccid {
        0u8
    } else {
        bits.ccid
    })
}

/// The names of the interfaces whose flag is `on`.
pub open spec fn interface_names(fido: bool, keyboard: bool, ccid: bool) -> Seq<Seq<char>> {
    (if fido {
        seq!["FIDO2/U2F"@]
    } else {
        Seq::empty()
    }) + (if keyboard {
        seq!["keyboard-HID"@]
    } else {
        Seq::empty()
    }) + (if ccid {
        seq!["CCID/smart-card"@]
    } else {
        Seq::empty()
    })
}

fn interface_names_of(fido: bool, keyboard: bool, ccid: bool) -> (r: Vec<&'static str>)
    ensures
        str_views(r@) == interface_names(fido, keyboard, ccid),
{
    let mut r: Vec<&'static str> = Vec::new();
    if fido {
        r.push("FIDO2/U2F");
    }
    if keyboard {
        r.push("keyboard-HID");
    }
    if ccid {
        r.push("CCID/smart-card");
    }
    assert(str_views(r@) =~= interface_names(fido, keyboard, ccid));
    r
}

/// What is said before the interfaces are changed.
pub fn interface_notice(fido: bool, keyboard: bool, ccid: bool) -> (r: Lines)
    ensures
        r@ == seq![
            "This will reconfigure the key's USB interfaces:"@,
            "  enable:  "@ + joined(interface_names(fido, keyboard, ccid), ", "@),
            "  disable: "@ + (if fido && keyboard && ccid {
                "(none)"@
            } else {
                joined(interface_names(!fido, !keyboard, !ccid), ", "@)
            }),
            "Disabling an interface removes the matching features until you re-enable it."@,
            "If you disable the interface you are currently connected over, you may not be"@,
            "able to reach the key to undo this. Proceed with caution."@,
        ],
{
    let mut out = Lines::new();
    out.put("This will reconfigure the key's USB interfaces:");
    let on = interface_names_of(fido, keyboard, ccid);
    out.say(cat2("  enable:  ", join_strs(&on, ", ").as_str()));
    let off = interface_names_of(!fido, !keyboard, !ccid);
    let list = if fido && keyboard && ccid {
        "(none)".to_owned()
    } else {
        join_strs(&off, ", ")
    };
    out.say(cat2("  disable: ", list.as_str()));
    out.put("Disabling an interface removes the matching features until you re-enable it.");
    out.put("If you disable the interface you are currently connected over, you may not be");
    out.put("able to reach the key to undo this. Proceed with caution.");
    assert(out@ =~= seq![out@[0], out@[1], out@[2], out@[3], out@[4], out@[5]]);
    out
}

/// Whether the phrase that was typed lets the interfaces be changed.
pub fn confirm_phrase(line: &str) -> (r: Result<(), String>)
    ensures
        r is Ok <==> trimmed_of(line@, "reconfigure interfaces"@),
        r matches Err(e) ==> e@ == "confirmation phrase did not match; aborted"@,
{
    let t = trim(line);
    let ok = str_eq(t.as_str(), "reconfigure interfaces");
    proof {
        if trimmed_of(line@, "reconfigure interfaces"@) {
            crate::sanitize::lemma_trim_unique(line@, t@, "reconfigure interfaces"@);
        }
    }
    if ok {
        Ok(())
    } else {
        Err("confirmation phrase did not match; aborted".to_owned())
    }
}

/// An OTP plan asks for the secrets that it has a use for, from two lines of
/// standard input where both come from there, and stops at a key without the
/// function that the command needs.
#[verifier::spinoff_prover]
#[verifier::rlimit(60)]
pub proof fn law_otp_asks_for_what_it_uses(cmd: OtpCmd, op: OtpOp)
    requires
        otp_plan_spec(cmd) is Ok,
    ensures
        match op {
            OtpOp::Read(secret) => otp_plan_spec(cmd)->Ok_0.contains(op) <==> (match secret {
                OtpSecret::Seed => match cmd {
                    OtpCmd::Add { seed, pin, .. } => !(seed.stdin && pin.stdin),
                    OtpCmd::ButtonHotp { .. } => true,
                    _ => false,
                },
                OtpSecret::Pin => match cmd {
                    OtpCmd::List { pin } => pin.env is Some || pin.stdin,
                    OtpCmd::Delete { pin, .. } => pin.env is Some || pin.stdin,
                    OtpCmd::UnlockList { pin, .. } => pin.env is Some || pin.stdin,
                    OtpCmd::Add { seed, pin, .. } => (pin.env is Some || pin.stdin) && !(seed.stdin && pin.stdin),
                    OtpCmd::Verify { .. } | OtpCmd::FpEnable { .. } | OtpCmd::FpDisable { .. } => true,
                    _ => false,
                },
                OtpSecret::NewPin => match cmd {
                    OtpCmd::SetPin { .. } => true,
                    OtpCmd::ChangePin { pin_stdin, .. } => !pin_stdin,
                    _ => false,
                },
                OtpSecret::CurrentPin => match cmd {
                    OtpCmd::RemovePin { .. } => true,
                    OtpCmd::ChangePin { pin_stdin, .. } => !pin_stdin,
                    _ => false,
                },
            }),
            OtpOp::ReadSeedAndPinLines => otp_plan_spec(cmd)->Ok_0.contains(op) <==> (cmd matches OtpCmd::Add {
                seed,
                pin,
                ..
            } && seed.stdin && pin.stdin),
            OtpOp::ReadPinLines => otp_plan_spec(cmd)->Ok_0.contains(op) <==> (cmd matches OtpCmd::ChangePin {
                pin_stdin,
                ..
            } && pin_stdin),
            OtpOp::DecodeSeed => otp_plan_spec(cmd)->Ok_0.contains(op) <==> (cmd is Add || cmd is ButtonHotp),
            OtpOp::Open => otp_plan_spec(cmd)->Ok_0.contains(op),
            OtpOp::Ensure(feature) => otp_plan_spec(cmd)->Ok_0.contains(op) <==> (match cmd {
                OtpCmd::ButtonHotp { .. } | OtpCmd::DeleteButtonHotp => feature == OtpFeature::ButtonHotp,
                OtpCmd::Serial | OtpCmd::Config | OtpCmd::Interface { .. } => false,
                _ => feature == OtpFeature::OnDevice,
            }),
            OtpOp::TakeTime => otp_plan_spec(cmd)->Ok_0.contains(op) <==> (cmd is List || cmd is Get || cmd is FpList
                || cmd is UnlockList),
            _ => true,
        },
{
    lemma_short_plan(otp_plan_spec(cmd)->Ok_0, op);
}

/// An OTP plan does to the key what the command is for and nothing else: an entry
/// is written as it was asked for, the typing slot set up as it was asked for, and
/// the interfaces that stay on are those that were named.
#[verifier::spinoff_prover]
#[verifier::rlimit(60)]
pub proof fn law_otp_plan_is_what_was_asked(cmd: OtpCmd, op: OtpOp)
    requires
        otp_plan_spec(cmd) is Ok,
        !(op is Read || op is ReadSeedAndPinLines || op is ReadPinLines || op is DecodeSeed || op is Open || op
            is Ensure || op is TakeTime),
    ensures
        otp_plan_spec(cmd)->Ok_0.contains(op) <==> match op {
            OtpOp::ConfirmInterfaces(sure) => cmd matches OtpCmd::Interface { yes, .. } && sure == yes,
            OtpOp::List => cmd is List,
            OtpOp::Get => cmd is Get,
            OtpOp::Write { otp_type: t, algorithm: a, period: p, digits: d, touch: b } => cmd matches OtpCmd::Add {
                otp_type,
                algorithm,
                period,
                digits,
                touch,
                ..
            } && t == otp_type && a == algorithm && p == period && d == digits && b == touch,
            OtpOp::Delete => cmd is Delete,
            OtpOp::EraseAll => cmd is EraseAll,
            OtpOp::Serial => cmd is Serial,
            OtpOp::SetButton { digits: d, enter: e, long_touch: l, numpad: n } => cmd matches OtpCmd::ButtonHotp {
                digits,
                no_enter,
                long_touch,
                numpad,
                ..
            } && d == digits && e != no_enter && l == long_touch && n == numpad,
            OtpOp::DeleteButton => cmd is DeleteButtonHotp,
            OtpOp::Config => cmd is Config,
            OtpOp::SetInterfaces { fido: f, keyboard: k, ccid: c } => cmd matches OtpCmd::Interface {
                fido,
                keyboard,
                ccid,
                ..
            } && f == fido && k == keyboard && c == ccid,
            OtpOp::PinStatus => cmd is PinStatus,
            OtpOp::SetPin => cmd is SetPin,
            OtpOp::VerifyPin => cmd is Verify,
            OtpOp::ChangePin => cmd is ChangePin,
            OtpOp::RemovePin => cmd is RemovePin,
            OtpOp::FpStatus => cmd is FpStatus,
            OtpOp::SetFp(on) => if on {
                cmd is FpEnable
            } else {
                cmd is FpDisable
            },
            OtpOp::VerifyFingerprint => cmd is FpList,
            OtpOp::Unlock(finger) => cmd matches OtpCmd::UnlockList { pin_only, .. } && finger != pin_only,
            _ => cmd is FpList || cmd is UnlockList,
        },
{
    lemma_short_plan(otp_plan_spec(cmd)->Ok_0, op);
}

/// When an operation of an OTP plan has its turn. A listing asks for the PIN only
/// once the key is open and the time is taken.
pub open spec fn otp_turn(cmd: OtpCmd, op: OtpOp) -> int {
    match op {
        OtpOp::Read(OtpSecret::Seed) => 0,
        OtpOp::Read(OtpSecret::CurrentPin) => 0,
        OtpOp::Read(OtpSecret::NewPin) => 1,
        OtpOp::Read(OtpSecret::Pin) => if cmd is List {
            6
        } else {
            1
        },
        OtpOp::ReadSeedAndPinLines => 0,
        OtpOp::ReadPinLines => 0,
        OtpOp::DecodeSeed => 2,
        OtpOp::ConfirmInterfaces(_) => 2,
        OtpOp::Open => 3,
        OtpOp::Ensure(_) => 4,
        OtpOp::TakeTime => 5,
        OtpOp::VerifyFingerprint => 6,
        OtpOp::Unlock(_) => 6,
        _ => 7,
    }
}

/// The operations of an OTP plan keep their turns, and none is done twice.
#[verifier::spinoff_prover]
#[verifier::rlimit(60)]
pub proof fn law_otp_plan_keeps_its_turns(cmd: OtpCmd, i: int, j: int)
    requires
        otp_plan_spec(cmd) is Ok,
        0 <= i < j < otp_plan_spec(cmd)->Ok_0.len(),
    ensures
        otp_turn(cmd, otp_plan_spec(cmd)->Ok_0[i]) < otp_turn(cmd, otp_plan_spec(cmd)->Ok_0[j]),
{
    let plan = otp_plan_spec(cmd)->Ok_0;
    let turns = plan.map_values(|op: OtpOp| otp_turn(cmd, op));
    match cmd {
        OtpCmd::List { pin } => if given(pin) {
            assert(turns =~= seq![3, 4, 5, 6, 7]);
        } else {
            assert(turns =~= seq![3, 4, 5, 7]);
        },
        OtpCmd::Add { seed, pin, .. } => if given(pin) && !(seed.stdin && pin.stdin) {
            assert(turns =~= seq![0, 1, 2, 3, 4, 7]);
        } else {
            assert(turns =~= seq![0, 2, 3, 4, 7]);
        },
        OtpCmd::Delete { pin, .. } => if given(pin) {
            assert(turns =~= seq![1, 3, 4, 7]);
        } else {
            assert(turns =~= seq![3, 4, 7]);
        },
        OtpCmd::UnlockList { pin, .. } => if given(pin) {
            assert(turns =~= seq![1, 3, 4, 5, 6, 7]);
        } else {
            assert(turns =~= seq![3, 4, 5, 6, 7]);
        },
        OtpCmd::ChangePin { pin_stdin, .. } => if pin_stdin {
            assert(turns =~= seq![0, 3, 4, 7]);
        } else {
            assert(turns =~= seq![0, 1, 3, 4, 7]);
        },
        _ => {},
    }
    lemma_short_increasing(turns, i, j);
}

/// An OTP command is refused before it begins just where its digits cannot be,
/// where everything would be erased unconfirmed, or where fewer than two
/// interfaces would stay on.
pub proof fn law_otp_refusals(cmd: OtpCmd)
    ensures
        otp_plan_spec(cmd) is Err <==> match cmd {
            OtpCmd::Add { digits, .. } => digits < 4 || digits > 10,
            OtpCmd::ButtonHotp { digits, .. } => digits != 6 && digits != 8,
            OtpCmd::EraseAll { yes } => !yes,
            OtpCmd::Interface { fido, keyboard, ccid, .. } => !(fido && keyboard || fido && ccid || keyboard && ccid),
            _ => false,
        },
{
}

/// Where exactly one connected key carries the name and has the applet, it is
/// reached over the transport that was asked for whenever it has that: USB-HID,
/// the reader, or, where either will do, the HID path first and the reader as what
/// is left when it fails.
pub proof fn law_otp_target_is_reached(devices: Seq<Device>, name: Seq<char>, transport: OtpTransportArg, i: int)
    requires
        0 <= i < devices.len(),
        forall|k: int|
            0 <= k < devices.len() ==> ((is_named(#[trigger] devices[k], name) && devices[k].caps.holds(Cap::Otp))
                <==> k == i),
    ensures
        ({
            let hid = opt_view(devices[i].hid_path);
            let reader = opt_view(devices[i].reader);
            match otp_target_spec(devices, name, transport) {
                Ok(OtpTargetView::HidPath(p)) => hid == Some(p) && (transport == OtpTransportArg::Hid || transport
                    == OtpTransportArg::Auto && reader is None),
                Ok(OtpTargetView::Reader(r)) => reader == Some(r) && (transport == OtpTransportArg::Ccid || transport
                    == OtpTransportArg::Auto && hid is None),
                Ok(OtpTargetView::HidThenReader(p, r)) => transport == OtpTransportArg::Auto && hid == Some(p)
                    && reader == Some(r),
                Err(_) => (transport != OtpTransportArg::Ccid ==> hid is None) && (transport != OtpTransportArg::Hid
                    ==> reader is None),
            }
        }),
{
    let flags = otp_flags(devices, name);
    lemma_hits(flags);
    assert(flags[i]) by {
        assert(is_named(devices[i], name));
    }
    assert(hits(flags).contains(i));
    let found = hits(flags);
    assert forall|a: int| 0 <= a < found.len() implies found[a] == i by {
        assert(flags[found[a]]);
        assert(is_named(devices[found[a]], name));
    }
    if found.len() > 1 {
        assert(found[0] == i && found[1] == i);
    }
}

/// A capability that a key reports is told as the key reports it: bit 0 says that
/// it stores entries, bit 5 that it has no slot that types a code.
pub proof fn law_capability_is_what_the_key_says(info: OtpDeviceInfo)
    ensures
        info.raw_len >= 10 ==> capability(Some(info), OtpFeature::OnDevice) == Some(info.capabilities & 1 == 1),
        info.raw_len >= 10 ==> capability(Some(info), OtpFeature::ButtonHotp) == Some(info.capabilities & 32 != 32),
        info.raw_len < 10 ==> forall|f: OtpFeature| #[trigger] capability(Some(info), f) is None,
        forall|f: OtpFeature| #[trigger] capability(None, f) is None,
{
    let c = info.capabilities;
    assert((c & 0x01 != 0) == (c & 1 == 1) && (c & 0x20 == 0) == (c & 32 != 32)) by (bit_vector);
}

/// The interfaces that are named are those that are on.
pub proof fn law_interfaces_are_those_that_are_on(fido: bool, keyboard: bool, ccid: bool)
    ensures
        ({
            let names = interface_names(fido, keyboard, ccid);
            &&& names.contains("FIDO2/U2F"@) <==> fido
            &&& names.contains("keyboard-HID"@) <==> keyboard
            &&& names.contains("CCID/smart-card"@) <==> ccid
        }),
{
    reveal_strlit("FIDO2/U2F");
    reveal_strlit("keyboard-HID");
    reveal_strlit("CCID/smart-card");
    assert("FIDO2/U2F"@.len() == 9 && "keyboard-HID"@.len() == 12 && "CCID/smart-card"@.len() == 15);
    let names = interface_names(fido, keyboard, ccid);
    lemma_short_plan(names, "FIDO2/U2F"@);
    lemma_short_plan(names, "keyboard-HID"@);
    lemma_short_plan(names, "CCID/smart-card"@);
}

} // verus!
