//! The shapes of the machine-readable output.
//!
//! Field names are the names the output uses; an absent optional field is left
//! out where the program that prints says so.

use vstd::prelude::*;

verus! {

/// One device of the overview.
#[derive(Debug)]
pub struct DeviceJson {
    pub vendor: String,
    pub model: String,
    pub name: Option<String>,
    pub serial: String,
    pub transport: String,
    pub kind: &'static str,
    pub caps: Vec<&'static str>,
    pub caps_unverified: Vec<&'static str>,
}

/// Serial and clock of a multi-profile token.
#[derive(Debug)]
pub struct MoltoInfoJson {
    pub serial: String,
    pub utc: u32,
    pub drift_seconds: i64,
}

/// The profiles of a multi-profile token.
#[derive(Debug)]
pub struct MoltoSlotsJson {
    pub serial: String,
    pub slots: Vec<MoltoSlotJson>,
}

/// One profile, as far as it can be read.
#[derive(Debug)]
pub struct MoltoSlotJson {
    pub slot: u8,
    pub occupied: bool,
    pub title: Option<String>,
    pub flag: u8,
    pub algorithm: u8,
    pub time_step: u8,
    pub digits: u8,
    pub time_a: u32,
    pub time_b: u32,
}

/// What a FIDO device says of itself.
#[derive(Debug)]
pub struct FidoInfoJson {
    pub device: String,
    pub channel_id: u32,
    pub ctaphid_protocol_version: u8,
    pub firmware: String,
    pub hid_caps: Vec<&'static str>,
    pub hid_caps_raw: u8,
    pub ctap2: Option<Ctap2InfoJson>,
}

/// The CTAP2 part of [`FidoInfoJson`].
#[derive(Debug)]
pub struct Ctap2InfoJson {
    pub versions: Vec<String>,
    pub extensions: Vec<String>,
    pub aaguid: String,
    pub options: Vec<OptionJson>,
    pub max_msg_size: Option<u64>,
    pub pin_uv_auth_protocols: Vec<u64>,
    pub transports: Vec<String>,
    pub min_pin_length: Option<u64>,
    pub force_pin_change: Option<bool>,
    pub firmware_version: Option<u64>,
}

/// One authenticator option.
#[derive(Debug)]
pub struct OptionJson {
    pub name: String,
    pub value: bool,
}

/// PIN attempts left on a FIDO device.
#[derive(Debug)]
pub struct FidoPinRetriesJson {
    pub pin_retries: u32,
}

/// State of a PIV applet.
#[derive(Debug)]
pub struct PivStatusJson {
    pub version: Option<String>,
    pub serial: Option<u32>,
    pub pin_retries: Option<u8>,
    pub chuid: Option<PivChuidJson>,
    pub slots: Vec<PivSlotJson>,
}

/// The cardholder identifier of a PIV applet.
#[derive(Debug)]
pub struct PivChuidJson {
    pub fasc_n: String,
    pub guid: String,
    pub expiration: String,
    pub signature: String,
    pub lrc: String,
}

/// One PIV slot.
#[derive(Debug)]
pub struct PivSlotJson {
    pub slot: String,
    pub cert_present: bool,
    pub cert_len: usize,
    pub cert_unreadable: Option<&'static str>,
}

/// Result of a PIV self-test.
#[derive(Debug)]
pub struct PivTestJson {
    pub slot: String,
    pub algorithm: String,
    pub ok: bool,
    pub operations: Vec<PivTestOpJson>,
}

/// One operation of a PIV self-test.
#[derive(Debug)]
pub struct PivTestOpJson {
    pub operation: String,
    pub result: String,
    pub detail: Option<String>,
}

/// State of an OpenPGP applet.
#[derive(Debug)]
pub struct OpenpgpStatusJson {
    pub aid: String,
    pub serial: Option<u32>,
    pub sig_algo: String,
    pub dec_algo: String,
    pub aut_algo: String,
    pub fingerprint_sig: Option<String>,
    pub fingerprint_dec: Option<String>,
    pub fingerprint_aut: Option<String>,
    pub pin_retries_pw1: u8,
    pub pin_retries_rc: u8,
    pub pin_retries_pw3: u8,
    pub signature_count: Option<u32>,
}

/// Serial of an OTP key.
#[derive(Debug)]
pub struct OtpSerialJson {
    pub serial: String,
}

/// One stored OATH credential.
#[derive(Debug)]
pub struct OathCredentialJson {
    pub name: String,
    pub oath_type: &'static str,
    pub algorithm: &'static str,
}

/// One calculated OATH code.
#[derive(Debug)]
pub struct OathCodeJson {
    pub name: String,
    pub code: String,
}

/// One entry of an OTP key.
#[derive(Debug)]
pub struct OtpEntryJson {
    pub app: String,
    pub account: String,
    pub otp_type: &'static str,
    pub algorithm: &'static str,
    pub code: Option<String>,
    pub touch_required: bool,
}

/// State of the OTP PIN; the three PIN fields are null when the key has none.
#[derive(Debug)]
pub struct OtpPinStatusJson {
    pub supported: bool,
    pub pin_set: Option<bool>,
    pub retries_left: Option<u8>,
    pub max_retries: Option<u8>,
}

/// One code read from an OTP key.
#[derive(Debug)]
pub struct OtpGetJson {
    pub app: String,
    pub account: String,
    pub code: String,
}

/// How many resident credentials there are and still fit.
#[derive(Debug)]
pub struct FidoCredsMetadataJson {
    pub existing_resident_credentials: u64,
    pub max_possible_remaining: u64,
}

/// The resident credentials, by relying party.
#[derive(Debug)]
pub struct FidoCredsListJson {
    pub relying_parties: Vec<FidoRelyingPartyJson>,
}

/// One relying party.
#[derive(Debug)]
pub struct FidoRelyingPartyJson {
    pub rp_id: String,
    pub rp_name: Option<String>,
    pub credentials: Vec<FidoCredentialJson>,
}

/// One resident credential.
#[derive(Debug)]
pub struct FidoCredentialJson {
    pub credential_id: String,
    pub user_id: String,
    pub user_name: Option<String>,
    pub user_display_name: Option<String>,
    pub algorithm: Option<i64>,
    pub algorithm_name: Option<&'static str>,
}

/// The entries of a large-blob array.
#[derive(Debug)]
pub struct FidoLargeBlobListJson {
    pub entries: Vec<FidoLargeBlobEntryJson>,
    pub capacity: FidoLargeBlobCapacityJson,
}

/// Space of a large-blob array.
#[derive(Debug)]
pub struct FidoLargeBlobCapacityJson {
    pub max_bytes: u64,
    pub used_bytes: u64,
    pub free_bytes: u64,
}

/// The fields of an OpenSSH certificate.
#[derive(Debug)]
pub struct FidoLargeBlobSshCertJson {
    pub key_type: String,
    pub serial: u64,
    pub cert_type: &'static str,
    pub key_id: String,
    pub principals: Vec<String>,
    pub valid_after: u64,
    pub valid_before: u64,
    pub validity: String,
    pub critical_options: Vec<String>,
    pub extensions: Vec<String>,
}

/// One entry of a large-blob array.
#[derive(Debug)]
pub struct FidoLargeBlobEntryJson {
    pub index: usize,
    pub size: u64,
    pub is_note: bool,
    pub text: Option<String>,
    pub kind: &'static str,
    pub ssh_cert: Option<FidoLargeBlobSshCertJson>,
}

/// One entry of a large-blob array, in full.
#[derive(Debug)]
pub struct FidoLargeBlobGetJson {
    pub index: usize,
    pub size: u64,
    pub is_note: bool,
    pub text: Option<String>,
    pub kind: &'static str,
    pub ssh_cert: Option<FidoLargeBlobSshCertJson>,
    pub hex: String,
}

/// What a programmable token says of itself.
#[derive(Debug)]
pub struct ProgInfoJson {
    pub serial: String,
    pub model: Option<String>,
    pub utc_time: u32,
}

} // verus!
