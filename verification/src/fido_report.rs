//! What FIDO2 keys answer, and how it is shown.

use crate::factory_reset::clone_opt;
use crate::json_out::{
    Ctap2InfoJson, FidoCredentialJson, FidoCredsListJson, FidoCredsMetadataJson, FidoInfoJson, FidoPinRetriesJson,
    FidoRelyingPartyJson, OptionJson,
};
use crate::molto::{debug_text, quoted};
use crate::plan::lemma_short_plan;
use crate::render::{aaguid_text, cose_algorithm_name, cose_name, format_aaguid, hex_head, hex_short};
use crate::sanitize::{clean, sanitize_terminal};
use crate::text::{
    byte_hex, cat2, cat3, cat4, cat5, cat6, dec_i64, dec_text, dec_u32, dec_u64, dec_u8, dec_usize, has_run,
    hex_encode, hex_nat, hex_padded, hex_text, hex_u8_upper, int_text, join, join_strs, joined, lemma_holds,
    lemma_views_push, opt_str, opt_view, padded_left, str_views, views, Lines,
};
use vstd::prelude::*;
use vstd::utf8::{decode_utf8, valid_utf8};

verus! {

/// What a HID transport says of itself when it is opened.
#[derive(Debug)]
pub struct CtapInit {
    /// Channel number.
    pub channel_id: u32,
    /// Version of the transport.
    pub protocol_version: u8,
    /// Major version of the device.
    pub device_major: u8,
    /// Minor version of the device.
    pub device_minor: u8,
    /// Build number of the device.
    pub device_build: u8,
    /// Capability byte.
    pub capabilities: u8,
    /// Whether it can wink.
    pub wink: bool,
    /// Whether it speaks CTAP2.
    pub cbor: bool,
    /// Whether it speaks U2F.
    pub u2f: bool,
}

/// What a CTAP2 key says of itself.
#[derive(Debug)]
pub struct Ctap2Info {
    /// Versions.
    pub versions: Vec<String>,
    /// Extensions.
    pub extensions: Vec<String>,
    /// Model identifier.
    pub aaguid: [u8; 16],
    /// Options and whether they are on.
    pub options: Vec<(String, bool)>,
    /// Longest message.
    pub max_msg_size: Option<u64>,
    /// PIN protocols.
    pub pin_uv_auth_protocols: Vec<u64>,
    /// Transports.
    pub transports: Vec<String>,
    /// Shortest PIN.
    pub min_pin_length: Option<u64>,
    /// Whether the PIN has to be changed.
    pub force_pin_change: Option<bool>,
    /// Firmware version.
    pub firmware_version: Option<u64>,
}

/// The capabilities of a HID transport, by name.
pub open spec fn hid_caps(i: CtapInit) -> Seq<Seq<char>> {
    (if i.wink {
        seq!["WINK"@]
    } else {
        Seq::empty()
    }) + (if i.cbor {
        seq!["CBOR"@]
    } else {
        Seq::empty()
    }) + (if i.u2f {
        seq!["U2F"@]
    } else {
        Seq::empty()
    })
}

/// The capabilities of a HID transport, by name.
pub fn hid_cap_names(i: &CtapInit) -> (r: Vec<&'static str>)
    ensures
        str_views(r@) == hid_caps(*i),
{
    let mut r: Vec<&'static str> = Vec::new();
    if i.wink {
        r.push("WINK");
    }
    if i.cbor {
        r.push("CBOR");
    }
    if i.u2f {
        r.push("U2F");
    }
    assert(str_views(r@) =~= hid_caps(*i));
    r
}

/// The version of a device.
pub open spec fn firmware_text(i: CtapInit) -> Seq<char> {
    dec_text(i.device_major as nat) + "."@ + dec_text(i.device_minor as nat) + "."@ + dec_text(
        i.device_build as nat,
    )
}

fn firmware_of(i: &CtapInit) -> (r: String)
    ensures
        r@ == firmware_text(*i),
{
    cat5(
        dec_u8(i.device_major).as_str(),
        ".",
        dec_u8(i.device_minor).as_str(),
        ".",
        dec_u8(i.device_build).as_str(),
    )
}

/// A copy of a list of texts.
pub fn clone_texts(list: &Vec<String>) -> (r: Vec<String>)
    ensures
        views(r@) == views(list@),
{
    let mut r: Vec<String> = Vec::new();
    let mut i: usize = 0;
    while i < list.len()
        invariant
            i <= list.len(),
            views(r@) == views(list@).take(i as int),
        decreases list.len() - i,
    {
        let s = list[i].clone();
        proof {
            lemma_views_push(r@, s);
        }
        r.push(s);
        i = i + 1;
        assert(views(r@) =~= views(list@).take(i as int));
    }
    assert(views(r@) =~= views(list@));
    r
}

fn clone_numbers(list: &Vec<u64>) -> (r: Vec<u64>)
    ensures
        r@ == list@,
{
    let mut r: Vec<u64> = Vec::new();
    let mut i: usize = 0;
    while i < list.len()
        invariant
            i <= list.len(),
            r@ == list@.take(i as int),
        decreases list.len() - i,
    {
        r.push(list[i]);
        i = i + 1;
        assert(r@ =~= list@.take(i as int));
    }
    assert(r@ =~= list@);
    r
}

/// The machine-readable form of what a CTAP2 key says of itself.
pub open spec fn ctap2_json_is(j: Ctap2InfoJson, i: Ctap2Info) -> bool {
    &&& views(j.versions@) == views(i.versions@)
    &&& views(j.extensions@) == views(i.extensions@)
    &&& j.aaguid@ == aaguid_text(i.aaguid@, 16)
    &&& j.options@.len() == i.options@.len()
    &&& forall|k: int|
        0 <= k < i.options@.len() ==> (#[trigger] j.options@[k]).name@ == i.options@[k].0@ && j.options@[k].value
            == i.options@[k].1
    &&& j.max_msg_size == i.max_msg_size
    &&& j.pin_uv_auth_protocols@ == i.pin_uv_auth_protocols@
    &&& views(j.transports@) == views(i.transports@)
    &&& j.min_pin_length == i.min_pin_length
    &&& j.force_pin_change == i.force_pin_change
    &&& j.firmware_version == i.firmware_version
}

fn ctap2_json(i: &Ctap2Info) -> (r: Ctap2InfoJson)
    ensures
        ctap2_json_is(r, *i),
{
    let mut options: Vec<OptionJson> = Vec::new();
    let mut k: usize = 0;
    while k < i.options.len()
        invariant
            k <= i.options.len(),
            options.len() == k,
            forall|n: int|
                0 <= n < k ==> (#[trigger] options@[n]).name@ == i.options@[n].0@ && options@[n].value
                    == i.options@[n].1,
        decreases i.options.len() - k,
    {
        let o = OptionJson { name: i.options[k].0.clone(), value: i.options[k].1 };
        options.push(o);
        k = k + 1;
    }
    Ctap2InfoJson {
        versions: clone_texts(&i.versions),
        extensions: clone_texts(&i.extensions),
        aaguid: format_aaguid(&i.aaguid),
        options,
        max_msg_size: i.max_msg_size,
        pin_uv_auth_protocols: clone_numbers(&i.pin_uv_auth_protocols),
        transports: clone_texts(&i.transports),
        min_pin_length: i.min_pin_length,
        force_pin_change: i.force_pin_change,
        firmware_version: i.firmware_version,
    }
}

/// What a key says of itself in machine-readable form. A key without CTAP2 has
/// no CTAP2 part, whatever was read.
pub fn fido_info_json(device: &str, init: &CtapInit, info: &Option<Ctap2Info>) -> (r: FidoInfoJson)
    ensures
        r.device@ == device@,
        r.channel_id == init.channel_id,
        r.ctaphid_protocol_version == init.protocol_version,
        r.firmware@ == firmware_text(*init),
        str_views(r.hid_caps@) == hid_caps(*init),
        r.hid_caps_raw == init.capabilities,
        match (r.ctap2, info) {
            (Some(j), Some(i)) => init.cbor && ctap2_json_is(j, *i),
            (None, Some(_)) => !init.cbor,
            (None, None) => true,
            (Some(_), None) => false,
        },
{
    let ctap2 = match info {
        Some(i) => {
            if init.cbor {
                Some(ctap2_json(i))
            } else {
                None
            }
        },
        None => None,
    };
    FidoInfoJson {
        device: device.to_owned(),
        channel_id: init.channel_id,
        ctaphid_protocol_version: init.protocol_version,
        firmware: firmware_of(init),
        hid_caps: hid_cap_names(init),
        hid_caps_raw: init.capabilities,
        ctap2,
    }
}

/// The lines on the transport.
pub open spec fn init_lines(device: Seq<char>, i: CtapInit) -> Seq<Seq<char>> {
    seq![
        "Device:    "@ + device,
        "Channel:   0x"@ + padded_left(hex_nat(i.channel_id as nat, false), 8, '0') + " (CTAPHID protocol v"@
            + dec_text(i.protocol_version as nat) + ")"@,
        "Firmware:  "@ + firmware_text(i),
        "Caps:      "@ + joined(hid_caps(i), "+"@) + " (raw 0x"@ + byte_hex(i.capabilities, true) + ")"@,
    ]
}

/// The options, each with its value.
pub open spec fn option_texts(options: Seq<(String, bool)>) -> Seq<Seq<char>> {
    options.map_values(
        |o: (String, bool)|
            clean(o.0@) + "="@ + (if o.1 {
                "true"@
            } else {
                "false"@
            }),
    )
}

/// The numbers, in decimal.
pub open spec fn number_texts(list: Seq<u64>) -> Seq<Seq<char>> {
    list.map_values(|n: u64| dec_text(n as nat))
}

/// A line, or none.
pub open spec fn line_if(cond: bool, line: Seq<char>) -> Seq<Seq<char>> {
    if cond {
        seq![line]
    } else {
        Seq::empty()
    }
}

/// A line with a number, or none.
pub open spec fn number_line(head: Seq<char>, n: Option<u64>) -> Seq<Seq<char>> {
    match n {
        Some(v) => seq![head + dec_text(v as nat)],
        None => Seq::empty(),
    }
}

/// The lines on what a CTAP2 key says of itself.
pub open spec fn ctap2_lines(i: Ctap2Info) -> Seq<Seq<char>> {
    seq![""@, "Versions:  "@ + clean(joined(views(i.versions@), ", "@))] + line_if(
        i.extensions@.len() > 0,
        "Extensions: "@ + clean(joined(views(i.extensions@), ", "@)),
    ) + seq!["AAGUID:    "@ + aaguid_text(i.aaguid@, 16)] + line_if(
        i.options@.len() > 0,
        "Options:   "@ + joined(option_texts(i.options@), ", "@),
    ) + number_line("MaxMsgSize: "@, i.max_msg_size) + line_if(
        i.pin_uv_auth_protocols@.len() > 0,
        "PIN/UV protocols: "@ + joined(number_texts(i.pin_uv_auth_protocols@), ", "@),
    ) + line_if(
        i.transports@.len() > 0,
        "Transports: "@ + clean(joined(views(i.transports@), ", "@)),
    ) + number_line("Min PIN length: "@, i.min_pin_length) + line_if(
        i.force_pin_change == Some(true),
        "Force PIN change: yes"@,
    ) + number_line("CTAP fwVer: "@, i.firmware_version)
}

fn say_number(out: &mut Lines, head: &str, n: Option<u64>)
    ensures
        final(out)@ == old(out)@ + number_line(head@, n),
{
    let ghost before = out@;
    match n {
        Some(v) => out.say(cat2(head, dec_u64(v).as_str())),
        None => {},
    }
    assert(out@ =~= before + number_line(head@, n));
}

fn option_texts_of(options: &Vec<(String, bool)>) -> (r: Vec<String>)
    ensures
        views(r@) == option_texts(options@),
{
    let mut r: Vec<String> = Vec::new();
    let mut i: usize = 0;
    while i < options.len()
        invariant
            i <= options.len(),
            views(r@) == option_texts(options@).take(i as int),
        decreases options.len() - i,
    {
        let s = cat3(
            sanitize_terminal(options[i].0.as_str()).as_str(),
            "=",
            if options[i].1 {
                "true"
            } else {
                "false"
            },
        );
        proof {
            lemma_views_push(r@, s);
            assert(s@ == option_texts(options@)[i as int]);
        }
        r.push(s);
        i = i + 1;
        assert(views(r@) =~= option_texts(options@).take(i as int));
    }
    assert(views(r@) =~= option_texts(options@));
    r
}

fn number_texts_of(list: &Vec<u64>) -> (r: Vec<String>)
    ensures
        views(r@) == number_texts(list@),
{
    let mut r: Vec<String> = Vec::new();
    let mut i: usize = 0;
    while i < list.len()
        invariant
            i <= list.len(),
            views(r@) == number_texts(list@).take(i as int),
        decreases list.len() - i,
    {
        let s = dec_u64(list[i]);
        proof {
            lemma_views_push(r@, s);
        }
        r.push(s);
        i = i + 1;
        assert(views(r@) =~= number_texts(list@).take(i as int));
    }
    assert(views(r@) =~= number_texts(list@));
    r
}

fn say_ctap2(i: &Ctap2Info) -> (out: Lines)
    ensures
        out@ == ctap2_lines(*i),
{
    let mut out = Lines::new();
    out.put("");
    out.say(cat2("Versions:  ", sanitize_terminal(join(&i.versions, ", ").as_str()).as_str()));
    let ghost a = out@;
    assert(a =~= seq![""@, "Versions:  "@ + clean(joined(views(i.versions@), ", "@))]);
    let ghost ext = line_if(
        i.extensions@.len() > 0,
        "Extensions: "@ + clean(joined(views(i.extensions@), ", "@)),
    );
    if i.extensions.len() > 0 {
        out.say(cat2("Extensions: ", sanitize_terminal(join(&i.extensions, ", ").as_str()).as_str()));
    }
    assert(out@ =~= a + ext);
    let ghost b = out@;
    out.say(cat2("AAGUID:    ", format_aaguid(&i.aaguid).as_str()));
    assert(out@ =~= b + seq!["AAGUID:    "@ + aaguid_text(i.aaguid@, 16)]);
    let ghost c = out@;
    if i.options.len() > 0 {
        let opts = option_texts_of(&i.options);
        out.say(cat2("Options:   ", join(&opts, ", ").as_str()));
    }
    assert(out@ =~= c + line_if(i.options@.len() > 0, "Options:   "@ + joined(option_texts(i.options@), ", "@)));
    say_number(&mut out, "MaxMsgSize: ", i.max_msg_size);
    let ghost d = out@;
    if i.pin_uv_auth_protocols.len() > 0 {
        let nums = number_texts_of(&i.pin_uv_auth_protocols);
        out.say(cat2("PIN/UV protocols: ", join(&nums, ", ").as_str()));
    }
    assert(out@ =~= d + line_if(
        i.pin_uv_auth_protocols@.len() > 0,
        "PIN/UV protocols: "@ + joined(number_texts(i.pin_uv_auth_protocols@), ", "@),
    ));
    let ghost e = out@;
    if i.transports.len() > 0 {
        out.say(cat2("Transports: ", sanitize_terminal(join(&i.transports, ", ").as_str()).as_str()));
    }
    assert(out@ =~= e + line_if(
        i.transports@.len() > 0,
        "Transports: "@ + clean(joined(views(i.transports@), ", "@)),
    ));
    say_number(&mut out, "Min PIN length: ", i.min_pin_length);
    let ghost f = out@;
    let force = match i.force_pin_change {
        Some(v) => v,
        None => false,
    };
    if force {
        out.put("Force PIN change: yes");
    }
    assert(out@ =~= f + line_if(i.force_pin_change == Some(true), "Force PIN change: yes"@));
    say_number(&mut out, "CTAP fwVer: ", i.firmware_version);
    out
}

/// What a key says of itself, line by line. Of a key without CTAP2 only the
/// transport is shown.
pub fn run_fido_info(device: &str, init: &CtapInit, info: &Option<Ctap2Info>) -> (r: Lines)
    ensures
        r@ == init_lines(device@, *init) + (if !init.cbor {
            seq![""@, "(device is U2F-only; CTAP2 GetInfo not available)"@]
        } else {
            match info {
                Some(i) => ctap2_lines(*i),
                None => Seq::empty(),
            }
        }),
{
    let mut out = Lines::new();
    out.say(cat2("Device:    ", device));
    out.say(
        cat5(
            "Channel:   0x",
            hex_padded(init.channel_id as u64, 8, false).as_str(),
            " (CTAPHID protocol v",
            dec_u8(init.protocol_version).as_str(),
            ")",
        ),
    );
    out.say(cat2("Firmware:  ", firmware_of(init).as_str()));
    let caps = hid_cap_names(init);
    out.say(
        cat5(
            "Caps:      ",
            join_strs(&caps, "+").as_str(),
            " (raw 0x",
            hex_u8_upper(init.capabilities).as_str(),
            ")",
        ),
    );
    assert(out@ =~= init_lines(device@, *init));
    let ghost head = out@;
    if !init.cbor {
        out.put("");
        out.put("(device is U2F-only; CTAP2 GetInfo not available)");
        assert(out@ =~= head + seq![""@, "(device is U2F-only; CTAP2 GetInfo not available)"@]);
    } else {
        match info {
            Some(i) => out.extend(say_ctap2(i)),
            None => {
                assert(out@ =~= head + Seq::<Seq<char>>::empty());
            },
        }
    }
    out
}

/// The PIN tries left, in machine-readable form.
pub fn pin_retries_json(n: u32) -> (r: FidoPinRetriesJson)
    ensures
        r.pin_retries == n,
{
    FidoPinRetriesJson { pin_retries: n }
}

/// The line on the PIN tries left.
pub fn pin_retries_line(n: u32) -> (r: String)
    ensures
        r@ == dec_text(n as nat) + " PIN attempt(s) remaining"@,
{
    cat2(dec_u32(n).as_str(), " PIN attempt(s) remaining")
}

/// The number of credentials, in machine-readable form.
pub fn creds_metadata_json(existing: u64, remaining: u64) -> (r: FidoCredsMetadataJson)
    ensures
        r.existing_resident_credentials == existing,
        r.max_possible_remaining == remaining,
{
    FidoCredsMetadataJson { existing_resident_credentials: existing, max_possible_remaining: remaining }
}

/// The line on the number of credentials.
pub fn creds_metadata_line(existing: u64, remaining: u64) -> (r: String)
    ensures
        r@ == dec_text(existing as nat) + " resident credential(s) stored, room for "@ + dec_text(
            remaining as nat,
        ) + " more"@,
{
    cat4(
        dec_u64(existing).as_str(),
        " resident credential(s) stored, room for ",
        dec_u64(remaining).as_str(),
        " more",
    )
}

/// One resident credential.
#[derive(Debug)]
pub struct Credential {
    /// Its identifier.
    pub credential_id: Vec<u8>,
    /// Handle of the user.
    pub user_id: Vec<u8>,
    /// Name of the user.
    pub user_name: Option<String>,
    /// Display name of the user.
    pub user_display_name: Option<String>,
    /// COSE algorithm.
    pub algorithm: Option<i64>,
}

/// One relying party and its credentials.
#[derive(Debug)]
pub struct RelyingParty {
    /// Its identifier.
    pub id: String,
    /// Its name.
    pub name: Option<String>,
    /// Whether the key gave the hash that its credentials are found by.
    pub has_hash: bool,
    /// Its credentials; none where there is no hash.
    pub credentials: Vec<Credential>,
}

/// Bytes as text, what is not UTF-8 replaced.
pub uninterp spec fn lossy_text(bytes: Seq<u8>) -> Seq<char>;

/// `String::from_utf8_lossy`: the text the bytes encode; where they are not
/// valid UTF-8, a text that depends on the bytes alone.
#[verifier::external_body]
pub(crate) fn lossy(bytes: &[u8]) -> (r: String)
    ensures
        r@ == lossy_text(bytes@),
        valid_utf8(bytes@) ==> r@ == decode_utf8(bytes@),
{
    String::from_utf8_lossy(bytes).into_owned()
}

/// The machine-readable form of a credential.
pub open spec fn credential_json_is(j: FidoCredentialJson, c: Credential) -> bool {
    &&& j.credential_id@ == hex_text(c.credential_id@)
    &&& j.user_id@ == lossy_text(c.user_id@)
    &&& opt_view(j.user_name) == opt_view(c.user_name)
    &&& opt_view(j.user_display_name) == opt_view(c.user_display_name)
    &&& j.algorithm == c.algorithm
    &&& opt_str(j.algorithm_name) == (match c.algorithm {
        Some(a) => Some(cose_name(a)),
        None => None,
    })
}

/// The machine-readable form of a relying party; an empty name is left out.
pub open spec fn party_json_is(j: FidoRelyingPartyJson, p: RelyingParty) -> bool {
    &&& j.rp_id@ == p.id@
    &&& opt_view(j.rp_name) == (match p.name {
        Some(n) => if n@.len() > 0 {
            Some(n@)
        } else {
            None
        },
        None => None,
    })
    &&& j.credentials@.len() == p.credentials@.len()
    &&& forall|i: int|
        0 <= i < p.credentials@.len() ==> credential_json_is(#[trigger] j.credentials@[i], p.credentials@[i])
}

fn credential_json(c: &Credential) -> (r: FidoCredentialJson)
    ensures
        credential_json_is(r, *c),
{
    FidoCredentialJson {
        credential_id: hex_encode(c.credential_id.as_slice()),
        user_id: lossy(c.user_id.as_slice()),
        user_name: clone_opt(&c.user_name),
        user_display_name: clone_opt(&c.user_display_name),
        algorithm: c.algorithm,
        algorithm_name: match c.algorithm {
            Some(a) => Some(cose_algorithm_name(a)),
            None => None,
        },
    }
}

fn party_json(p: &RelyingParty) -> (r: FidoRelyingPartyJson)
    ensures
        party_json_is(r, *p),
{
    let mut credentials: Vec<FidoCredentialJson> = Vec::new();
    let mut i: usize = 0;
    while i < p.credentials.len()
        invariant
            i <= p.credentials.len(),
            credentials.len() == i,
            forall|k: int| 0 <= k < i ==> credential_json_is(#[trigger] credentials@[k], p.credentials@[k]),
        decreases p.credentials.len() - i,
    {
        credentials.push(credential_json(&p.credentials[i]));
        i = i + 1;
    }
    let rp_name = match &p.name {
        Some(n) => {
            if n.as_str().is_empty() {
                None
            } else {
                Some(n.clone())
            }
        },
        None => None,
    };
    FidoRelyingPartyJson { rp_id: p.id.clone(), rp_name, credentials }
}

/// The resident credentials in machine-readable form.
pub fn creds_list_json(parties: &Vec<RelyingParty>) -> (r: FidoCredsListJson)
    ensures
        r.relying_parties@.len() == parties@.len(),
        forall|i: int|
            0 <= i < parties@.len() ==> party_json_is(#[trigger] r.relying_parties@[i], parties@[i]),
{
    let mut out: Vec<FidoRelyingPartyJson> = Vec::new();
    let mut i: usize = 0;
    while i < parties.len()
        invariant
            i <= parties.len(),
            out.len() == i,
            forall|k: int| 0 <= k < i ==> party_json_is(#[trigger] out@[k], parties@[k]),
        decreases parties.len() - i,
    {
        out.push(party_json(&parties[i]));
        i = i + 1;
    }
    FidoCredsListJson { relying_parties: out }
}

/// The line of a relying party.
pub open spec fn party_line(p: RelyingParty) -> Seq<char> {
    clean(p.id@) + (match p.name {
        Some(n) => if n@.len() > 0 {
            "  ("@ + clean(n@) + ")"@
        } else {
            Seq::empty()
        },
        None => Seq::empty(),
    }) + (if !p.has_hash {
        "  (credentials unavailable: device returned a malformed rpIdHash)"@
    } else if p.credentials@.len() == 0 {
        "  (no credentials)"@
    } else {
        "  ["@ + dec_text(p.credentials@.len()) + " credential(s)]"@
    })
}

/// A quoted field, or nothing.
pub open spec fn field_text(head: Seq<char>, o: Option<String>) -> Seq<char> {
    match o {
        Some(s) => head + debug_text(s@),
        None => Seq::empty(),
    }
}

/// The lines of a credential.
pub open spec fn cred_lines(c: Credential) -> Seq<Seq<char>> {
    let head = seq![
        "  cred "@ + hex_head(c.credential_id@, 8) + ": user "@ + debug_text(lossy_text(c.user_id@)) + field_text(
            "  name="@,
            c.user_name,
        ) + field_text("  display="@, c.user_display_name),
        "       id="@ + hex_text(c.credential_id@),
    ];
    match c.algorithm {
        Some(a) => head.push("       alg="@ + int_text(a as int) + " ("@ + cose_name(a) + ")"@),
        None => head,
    }
}

/// The lines of the first `n` credentials.
pub open spec fn all_cred_lines(creds: Seq<Credential>, n: nat) -> Seq<Seq<char>>
    decreases n,
{
    if n == 0 {
        Seq::empty()
    } else {
        all_cred_lines(creds, (n - 1) as nat) + cred_lines(creds[n - 1])
    }
}

/// The lines of the first `n` relying parties.
pub open spec fn party_lines(parties: Seq<RelyingParty>, n: nat) -> Seq<Seq<char>>
    decreases n,
{
    if n == 0 {
        Seq::empty()
    } else {
        let p = parties[n - 1];
        party_lines(parties, (n - 1) as nat).push(party_line(p)) + all_cred_lines(
            p.credentials@,
            p.credentials@.len(),
        )
    }
}

fn field_of(head: &str, o: &Option<String>) -> (r: String)
    ensures
        r@ == field_text(head@, *o),
{
    match o {
        Some(s) => cat2(head, quoted(s.as_str()).as_str()),
        None => String::new(),
    }
}

fn say_cred(c: &Credential) -> (out: Lines)
    ensures
        out@ == cred_lines(*c),
{
    let mut out = Lines::new();
    let user = lossy(c.user_id.as_slice());
    let name = field_of("  name=", &c.user_name);
    let display = field_of("  display=", &c.user_display_name);
    out.say(
        cat6(
            "  cred ",
            hex_short(c.credential_id.as_slice()).as_str(),
            ": user ",
            quoted(user.as_str()).as_str(),
            name.as_str(),
            display.as_str(),
        ),
    );
    out.say(cat2("       id=", hex_encode(c.credential_id.as_slice()).as_str()));
    match c.algorithm {
        Some(a) => out.say(cat5("       alg=", dec_i64(a).as_str(), " (", cose_algorithm_name(a), ")")),
        None => {},
    }
    assert(out@ =~= cred_lines(*c));
    out
}

fn party_line_of(p: &RelyingParty) -> (r: String)
    ensures
        r@ == party_line(*p),
{
    let name = match &p.name {
        Some(n) => {
            if n.as_str().is_empty() {
                String::new()
            } else {
                cat3("  (", sanitize_terminal(n.as_str()).as_str(), ")")
            }
        },
        None => String::new(),
    };
    let count = if !p.has_hash {
        "  (credentials unavailable: device returned a malformed rpIdHash)".to_owned()
    } else if p.credentials.len() == 0 {
        "  (no credentials)".to_owned()
    } else {
        cat3("  [", dec_usize(p.credentials.len()).as_str(), " credential(s)]")
    };
    cat3(sanitize_terminal(p.id.as_str()).as_str(), name.as_str(), count.as_str())
}

/// The resident credentials, line by line.
pub fn run_fido_creds_list(parties: &Vec<RelyingParty>) -> (r: Lines)
    ensures
        r@ == (if parties@.len() == 0 {
            seq!["(no resident credentials)"@]
        } else {
            party_lines(parties@, parties@.len())
        }),
{
    let mut out = Lines::new();
    if parties.len() == 0 {
        out.put("(no resident credentials)");
        assert(out@ =~= seq!["(no resident credentials)"@]);
        return out;
    }
    let mut i: usize = 0;
    while i < parties.len()
        invariant
            i <= parties.len(),
            out@ == party_lines(parties@, i as nat),
        decreases parties.len() - i,
    {
        let p = &parties[i];
        out.say(party_line_of(p));
        let ghost head = out@;
        let mut k: usize = 0;
        assert(out@ =~= head + all_cred_lines(p.credentials@, 0));
        while k < p.credentials.len()
            invariant
                k <= p.credentials.len(),
                out@ == head + all_cred_lines(p.credentials@, k as nat),
            decreases p.credentials.len() - k,
        {
            let ghost before = all_cred_lines(p.credentials@, k as nat);
            out.extend(say_cred(&p.credentials[k]));
            assert(out@ =~= head + (before + cred_lines(p.credentials@[k as int])));
            k = k + 1;
        }
        i = i + 1;
    }
    out
}

/// An enrolled fingerprint.
#[derive(Debug)]
pub struct Fingerprint {
    /// Its identifier.
    pub template_id: Vec<u8>,
    /// Its friendly name.
    pub friendly_name: Option<String>,
}

/// The line of a fingerprint.
pub open spec fn fingerprint_entry(f: Fingerprint) -> Seq<char> {
    "  id "@ + hex_text(f.template_id@) + "   "@ + (match f.friendly_name {
        Some(n) => clean(n@),
        None => "(unnamed)"@,
    })
}

/// The fingerprints, line by line.
pub fn run_fido_fingerprint_list(list: &Vec<Fingerprint>) -> (r: Lines)
    ensures
        r@ == (if list@.len() == 0 {
            seq!["(no fingerprints enrolled)"@]
        } else {
            seq!["Enrolled fingerprints:"@] + list@.map_values(|f: Fingerprint| fingerprint_entry(f)) + seq![
                "(use the id with --template-id to rename or delete)"@,
            ]
        }),
{
    let mut out = Lines::new();
    if list.len() == 0 {
        out.put("(no fingerprints enrolled)");
        assert(out@ =~= seq!["(no fingerprints enrolled)"@]);
        return out;
    }
    out.put("Enrolled fingerprints:");
    let ghost head = out@;
    let ghost all = list@.map_values(|f: Fingerprint| fingerprint_entry(f));
    let mut i: usize = 0;
    assert(out@ =~= head + all.take(0));
    while i < list.len()
        invariant
            i <= list.len(),
            all == list@.map_values(|f: Fingerprint| fingerprint_entry(f)),
            out@ == head + all.take(i as int),
        decreases list.len() - i,
    {
        let name = match &list[i].friendly_name {
            Some(n) => sanitize_terminal(n.as_str()),
            None => "(unnamed)".to_owned(),
        };
        out.say(cat4("  id ", hex_encode(list[i].template_id.as_slice()).as_str(), "   ", name.as_str()));
        i = i + 1;
        assert(out@ =~= head + all.take(i as int));
    }
    assert(all.take(i as int) =~= all);
    let ghost body = out@;
    out.put("(use the id with --template-id to rename or delete)");
    assert(out@ =~= body + seq!["(use the id with --template-id to rename or delete)"@]);
    out
}

/// What an enrollment does next.
#[derive(Debug)]
pub enum EnrollStep {
    /// Ask for another sample, with this prompt.
    Capture(String),
    /// Give the fingerprint its name.
    Name,
    /// Say that it is done.
    Done,
}

/// Decides what an enrollment does after a sample: as long as samples are
/// missing another one is asked for, then the fingerprint is named if a name
/// was given.
pub fn enroll_step(remaining: u32, name_given: bool) -> (r: EnrollStep)
    ensures
        match r {
            EnrollStep::Capture(p) => remaining > 0 && p@ == "  "@ + dec_text(remaining as nat)
                + " more sample(s) needed \u{2014} touch the sensor again\u{2026}"@,
            EnrollStep::Name => remaining == 0 && name_given,
            EnrollStep::Done => remaining == 0 && !name_given,
        },
{
    if remaining > 0 {
        EnrollStep::Capture(
            cat3(
                "  ",
                dec_u32(remaining).as_str(),
                " more sample(s) needed \u{2014} touch the sensor again\u{2026}",
            ),
        )
    } else if name_given {
        EnrollStep::Name
    } else {
        EnrollStep::Done
    }
}

/// The line that opens an enrollment; none where the sensor does not say how
/// many samples it needs.
pub fn enroll_intro(max_samples: Option<u32>) -> (r: Option<String>)
    ensures
        opt_view(r) == (match max_samples {
            Some(n) => if n > 0 {
                Some("Enrolling a fingerprint ("@ + dec_text(n as nat) + " good samples needed)."@)
            } else {
                None
            },
            None => None,
        }),
{
    match max_samples {
        Some(n) => {
            if n > 0 {
                Some(cat3("Enrolling a fingerprint (", dec_u32(n).as_str(), " good samples needed)."))
            } else {
                None
            }
        },
        None => None,
    }
}

/// The closing line of an enrollment.
pub fn enrolled_line(template_id: &[u8], name: Option<&str>) -> (r: String)
    ensures
        r@ == "Fingerprint enrolled: "@ + hex_text(template_id@) + (match name {
            Some(n) => "  ("@ + n@ + ")"@,
            None => ""@,
        }),
{
    let tail = match name {
        Some(n) => cat3("  (", n, ")"),
        None => "".to_owned(),
    };
    cat3("Fingerprint enrolled: ", hex_encode(template_id).as_str(), tail.as_str())
}

/// The relying parties are listed one after the other, each followed by its
/// credentials.
pub proof fn law_credentials_follow_their_party(parties: Seq<RelyingParty>, n: nat)
    requires
        n < parties.len(),
    ensures
        party_lines(parties, 0).len() == 0,
        party_lines(parties, n + 1) == party_lines(parties, n).push(party_line(parties[n as int])) + all_cred_lines(
            parties[n as int].credentials@,
            parties[n as int].credentials@.len(),
        ),
{
}

/// The credentials of a party are listed one after the other.
pub proof fn law_credentials_are_all_listed(creds: Seq<Credential>, n: nat)
    requires
        n < creds.len(),
    ensures
        all_cred_lines(creds, 0).len() == 0,
        all_cred_lines(creds, n + 1) == all_cred_lines(creds, n) + cred_lines(creds[n as int]),
        cred_lines(creds[n as int]).len() == (if creds[n as int].algorithm is Some {
            3int
        } else {
            2
        }),
{
}

/// A credential in machine-readable form keeps every field of it in its place.
pub proof fn law_credential_fields_keep_their_places(j: FidoCredentialJson, c: Credential)
    requires
        credential_json_is(j, c),
    ensures
        j.credential_id@ == hex_text(c.credential_id@) && j.user_id@ == lossy_text(c.user_id@),
        opt_view(j.user_name) == opt_view(c.user_name),
        opt_view(j.user_display_name) == opt_view(c.user_display_name),
        j.algorithm == c.algorithm,
        c.algorithm matches Some(a) ==> opt_str(j.algorithm_name) == Some(cose_name(a)),
        c.algorithm is None ==> j.algorithm_name is None,
{
}

/// What a key says of itself keeps every field of it in its place in
/// machine-readable form.
pub proof fn law_key_facts_keep_their_places(j: Ctap2InfoJson, i: Ctap2Info, k: int)
    requires
        ctap2_json_is(j, i),
    ensures
        views(j.versions@) == views(i.versions@) && views(j.extensions@) == views(i.extensions@),
        views(j.transports@) == views(i.transports@) && j.aaguid@ == aaguid_text(i.aaguid@, 16),
        j.options@.len() == i.options@.len(),
        0 <= k < i.options@.len() ==> j.options@[k].name@ == i.options@[k].0@ && j.options@[k].value == i.options@[k].1,
        j.max_msg_size == i.max_msg_size && j.pin_uv_auth_protocols@ == i.pin_uv_auth_protocols@,
        j.min_pin_length == i.min_pin_length && j.force_pin_change == i.force_pin_change && j.firmware_version
            == i.firmware_version,
{
}

/// A key's firmware is told from the larger number to the smaller, and the
/// capabilities that are named are those it has.
pub proof fn law_capabilities_named_are_there(i: CtapInit)
    ensures
        hid_caps(i).contains("WINK"@) <==> i.wink,
        hid_caps(i).contains("CBOR"@) <==> i.cbor,
        hid_caps(i).contains("U2F"@) <==> i.u2f,
        firmware_text(i) == dec_text(i.device_major as nat) + "."@ + dec_text(i.device_minor as nat) + "."@ + dec_text(
            i.device_build as nat,
        ),
{
    reveal_strlit("WINK");
    reveal_strlit("CBOR");
    reveal_strlit("U2F");
    assert("WINK"@[0] == 'W' && "CBOR"@[0] == 'C' && "U2F"@[0] == 'U');
    lemma_short_plan(hid_caps(i), "WINK"@);
    lemma_short_plan(hid_caps(i), "CBOR"@);
    lemma_short_plan(hid_caps(i), "U2F"@);
}

/// A relying party in machine-readable form keeps its credentials, in order.
pub proof fn law_party_fields_keep_their_places(j: FidoRelyingPartyJson, p: RelyingParty, k: int)
    requires
        party_json_is(j, p),
    ensures
        j.rp_id@ == p.id@,
        p.name matches Some(n) ==> (n@.len() > 0 ==> opt_view(j.rp_name) == Some(n@)),
        p.name is None ==> j.rp_name is None,
        j.credentials@.len() == p.credentials@.len(),
        0 <= k < p.credentials@.len() ==> j.credentials@[k].credential_id@ == hex_text(
            p.credentials@[k].credential_id@,
        ),
{
    if 0 <= k < p.credentials@.len() {
        assert(credential_json_is(j.credentials@[k], p.credentials@[k]));
    }
}

/// The line of a relying party counts its credentials, and tells none from what
/// could not be read.
pub proof fn law_party_line_counts_credentials(p: RelyingParty)
    ensures
        clean(p.id@).is_prefix_of(party_line(p)),
        p.has_hash && p.credentials@.len() > 0 ==> has_run(
            party_line(p),
            "["@ + dec_text(p.credentials@.len()) + " credential(s)]"@,
        ),
        p.has_hash && p.credentials@.len() == 0 ==> has_run(party_line(p), "(no credentials)"@),
        !p.has_hash ==> has_run(party_line(p), "  (credentials unavailable: device returned a malformed rpIdHash)"@),
{
    let t = party_line(p);
    let name = match p.name {
        Some(n) => if n@.len() > 0 {
            "  ("@ + clean(n@) + ")"@
        } else {
            Seq::empty()
        },
        None => Seq::empty(),
    };
    let head = clean(p.id@) + name;
    reveal_strlit("  ");
    if !p.has_hash {
        lemma_holds(t, head, "  (credentials unavailable: device returned a malformed rpIdHash)"@, Seq::empty());
    } else if p.credentials@.len() == 0 {
        reveal_strlit("  (no credentials)");
        reveal_strlit("(no credentials)");
        assert("  (no credentials)"@ =~= "  "@ + "(no credentials)"@);
        lemma_holds(t, head + "  "@, "(no credentials)"@, Seq::empty());
    } else {
        reveal_strlit("  [");
        reveal_strlit("[");
        assert("  ["@ =~= "  "@ + "["@);
        let n = "["@ + dec_text(p.credentials@.len()) + " credential(s)]"@;
        lemma_holds(t, head + "  "@, n, Seq::empty());
    }
}

/// A fingerprint is listed by its identifier, with its name where it has one.
pub proof fn law_fingerprint_is_listed_by_its_id(f: Fingerprint)
    ensures
        has_run(fingerprint_entry(f), "id "@ + hex_text(f.template_id@)),
        f.friendly_name matches Some(n) ==> has_run(fingerprint_entry(f), clean(n@)),
{
    let t = fingerprint_entry(f);
    let id = hex_text(f.template_id@);
    let name = match f.friendly_name {
        Some(n) => clean(n@),
        None => "(unnamed)"@,
    };
    reveal_strlit("  id ");
    reveal_strlit("  ");
    reveal_strlit("id ");
    assert("  id "@ =~= "  "@ + "id "@);
    lemma_holds(t, "  "@, "id "@ + id, "   "@ + name);
    lemma_holds(t, "  id "@ + id + "   "@, name, Seq::empty());
}

} // verus!
