use keyroost::fido::{
    bio_command, fido_done, reader_reset_error, require_cbor, require_config, require_large_blobs, resetting_line,
    resolve_fido_path, run_fido, run_fido_large_blob, run_fido_reset, run_fido_reset_reader, run_fido_ssh_cert,
    BioCommand, CborUse, FidoCmd, FidoOp, FidoPath, FidoSecret, FidoSession, LargeBlobCmd, SshCertCmd, CARD_REFUSED,
};
use keyroost::fido_report::{
    creds_list_json, creds_metadata_json, creds_metadata_line, enroll_intro, enroll_step, enrolled_line,
    fido_info_json, hid_cap_names, pin_retries_json, pin_retries_line, run_fido_creds_list, run_fido_fingerprint_list,
    run_fido_info, Credential, Ctap2Info, CtapInit, EnrollStep, Fingerprint, RelyingParty,
};
use keyroost::pick::{
    announce_target, disclosure, fido_target_hint, find_path, key_name_list, key_name_remove, no_fido_device_error,
    parse_number, pick_device_interactively, pick_from_devices, picker_lines, recorded_vendor, run_key_name,
    saved_line, FidoKey, KeyNameCmd, KeyNameOp, NamedKey,
};
use keyroost::secrets::SecretOpts;

fn opts() -> SecretOpts {
    SecretOpts { env: None, stdin: true }
}

#[test]
fn a_fido_reset_needs_yes_and_names_the_key() {
    let no = FidoCmd::Reset { yes: false, reader: None };
    assert_eq!(
        run_fido(&no, " — target: work at /dev/hidraw0"),
        Err("refusing to reset FIDO key without --yes (this wipes credentials) — target: work at /dev/hidraw0".to_string())
    );
    let yes = FidoCmd::Reset { yes: true, reader: None };
    assert_eq!(run_fido(&yes, "").unwrap(), run_fido_reset());
    let card = FidoCmd::Reset { yes: true, reader: Some("ACS".into()) };
    assert_eq!(run_fido(&card, "").unwrap(), run_fido_reset_reader());
    assert_eq!(run_fido_reset_reader()[0], FidoOp::OpenReader);
    assert_eq!(fido_done(&yes, "").as_deref(), Some("Reset complete. All credentials wiped, PIN cleared."));
    assert_eq!(resetting_line("/dev/hidraw0"), "Resetting /dev/hidraw0 — touch the key now…");
    assert_eq!(reader_reset_error("CTAP2 error NOT_ALLOWED"), CARD_REFUSED);
    assert_eq!(reader_reset_error("status 0x30"), CARD_REFUSED);
    assert_eq!(reader_reset_error("timeout"), "timeout");
}

#[test]
fn a_pin_is_read_before_the_key_is_opened() {
    assert_eq!(
        run_fido(&FidoCmd::CredsDelete { cred_id: "ab".into(), pin: opts() }, "").unwrap(),
        vec![
            FidoOp::Read(FidoSecret::Pin),
            FidoOp::DecodeCredId,
            FidoOp::OpenSession(FidoSession::Credentials),
            FidoOp::CredsDelete,
            FidoOp::Report,
        ]
    );
    let min = FidoCmd::SetMinPin { length: 8, force_change: true, pin: opts() };
    assert!(run_fido(&min, "").unwrap().contains(&FidoOp::SetMinPin(8, true)));
    assert_eq!(
        fido_done(&min, "").unwrap(),
        "Minimum PIN length set to 8. A PIN change is now required on next use."
    );
    assert_eq!(FidoSecret::OldPin.label(), "old PIN");
}

#[test]
fn blobs_are_read_again_before_they_are_written() {
    assert_eq!(
        run_fido_large_blob(&LargeBlobCmd::Delete { index: 2, yes: true, pin: opts() }),
        vec![
            FidoOp::Read(FidoSecret::Pin),
            FidoOp::ReadBlobs,
            FidoOp::BlobDelete(2, true),
            FidoOp::WriteBlobs,
            FidoOp::Report,
        ]
    );
    assert_eq!(
        run_fido(&FidoCmd::LargeBlob { cmd: LargeBlobCmd::List }, "").unwrap(),
        vec![FidoOp::ReadBlobs, FidoOp::BlobList]
    );
    assert_eq!(run_fido_ssh_cert(&SshCertCmd::List { pin: opts() })[2], FidoOp::SshList);
}

#[test]
fn a_path_and_a_name_exclude_each_other() {
    assert!(matches!(resolve_fido_path(Some("/dev/hidraw0"), None), Ok(FidoPath::Given(p)) if p == "/dev/hidraw0"));
    assert!(matches!(resolve_fido_path(None, Some("work")), Ok(FidoPath::ByName(n)) if n == "work"));
    assert!(matches!(resolve_fido_path(None, None), Ok(FidoPath::Pick)));
    assert!(resolve_fido_path(Some("/dev/hidraw0"), Some("work")).is_err());
}

#[test]
fn a_key_that_cannot_do_it_is_refused() {
    assert_eq!(require_cbor(true, CborUse::LargeBlobs), Ok(()));
    assert_eq!(
        require_cbor(false, CborUse::Fingerprints),
        Err("device is U2F-only; CTAP2 bio enrollment not supported".to_string())
    );
    assert_eq!(require_large_blobs(Some(true)), Ok(()));
    assert!(require_large_blobs(Some(false)).is_err());
    assert!(require_large_blobs(None).is_err());
    assert_eq!(require_config(Some(true)), Ok(()));
    assert!(require_config(None).is_err());
    // An option that is listed counts, whatever its value.
    assert_eq!(bio_command(Some(false), Some(true)), Ok(BioCommand::Standard));
    assert_eq!(bio_command(None, Some(false)), Ok(BioCommand::Preview));
    assert!(bio_command(None, None).is_err());
}

fn init() -> CtapInit {
    CtapInit {
        channel_id: 328706,
        protocol_version: 2,
        device_major: 5,
        device_minor: 4,
        device_build: 3,
        capabilities: 0x05,
        wink: true,
        cbor: true,
        u2f: false,
    }
}

fn info() -> Ctap2Info {
    Ctap2Info {
        versions: vec!["FIDO_2_0".into()],
        extensions: vec!["hmac-secret".into()],
        aaguid: [0; 16],
        options: vec![("rk".into(), true), ("up".into(), false)],
        max_msg_size: Some(1200),
        pin_uv_auth_protocols: vec![1, 2],
        transports: vec!["usb".into()],
        min_pin_length: None,
        force_pin_change: Some(true),
        firmware_version: None,
    }
}

#[test]
fn a_key_tells_of_itself() {
    assert_eq!(hid_cap_names(&init()), vec!["WINK", "CBOR"]);
    let j = fido_info_json("/dev/hidraw0", &init(), &Some(info()));
    assert_eq!(j.channel_id, 328706);
    assert_eq!(j.firmware, "5.4.3");
    assert_eq!(j.ctap2.unwrap().aaguid, "00000000-0000-0000-0000-000000000000");
    assert!(fido_info_json("/dev/hidraw0", &init(), &None).ctap2.is_none());
    let lines = run_fido_info("/dev/hidraw0", &init(), &Some(info())).lines;
    assert_eq!(lines[1], "Channel:   0x00050402 (CTAPHID protocol v2)");
    assert_eq!(lines[3], "Caps:      WINK+CBOR (raw 0x05)");
    assert!(lines.contains(&"Options:   rk=true, up=false".to_string()));
    assert!(lines.contains(&"MaxMsgSize: 1200".to_string()));
    assert!(lines.contains(&"Force PIN change: yes".to_string()));
    assert_eq!(pin_retries_line(8), "8 PIN attempt(s) remaining");
    assert_eq!(pin_retries_json(8).pin_retries, 8);
    assert_eq!(creds_metadata_line(3, 22), "3 resident credential(s) stored, room for 22 more");
    assert_eq!(creds_metadata_json(3, 22).max_possible_remaining, 22);
}

#[test]
fn credentials_are_listed_under_their_party() {
    let cred = Credential {
        credential_id: vec![0xaa, 0xbb, 0xcc, 0xdd],
        user_id: vec![b'u', 0xff, b'"'],
        user_name: Some("alice".into()),
        user_display_name: None,
        algorithm: Some(-7),
    };
    let parties = vec![RelyingParty {
        id: "example.com".into(),
        name: Some("Example".into()),
        has_hash: true,
        credentials: vec![cred],
    }];
    let lines = run_fido_creds_list(&parties).lines;
    let all = lines.join("\n");
    // Bytes that are no text are replaced, and what is special is escaped.
    assert!(all.contains("user \"u\u{fffd}\\\"\""), "{all}");
    assert!(all.contains("id=aabbccdd"), "{all}");
    assert!(all.contains("alg=-7 (ES256)"), "{all}");
    assert_eq!(run_fido_creds_list(&vec![]).lines, vec!["(no resident credentials)"]);
    let j = creds_list_json(&parties);
    assert_eq!(j.relying_parties[0].credentials[0].credential_id, "aabbccdd");
    assert_eq!(j.relying_parties[0].credentials[0].algorithm, Some(-7));
}

#[test]
fn fingerprints_are_enrolled_sample_by_sample() {
    assert!(matches!(enroll_step(2, true), EnrollStep::Capture(p) if p.contains("2 more sample(s) needed")));
    assert!(matches!(enroll_step(0, true), EnrollStep::Name));
    assert!(matches!(enroll_step(0, false), EnrollStep::Done));
    assert_eq!(enroll_intro(Some(4)).unwrap(), "Enrolling a fingerprint (4 good samples needed).");
    assert_eq!(enroll_intro(None), None);
    assert_eq!(enrolled_line(&[0xab], Some("thumb")), "Fingerprint enrolled: ab  (thumb)");
    let list = vec![Fingerprint { template_id: vec![1], friendly_name: None }];
    assert_eq!(run_fido_fingerprint_list(&list).lines[1], "  id 01   (unnamed)");
    assert_eq!(run_fido_fingerprint_list(&vec![]).lines, vec!["(no fingerprints enrolled)"]);
}

fn key(path: &str, name: Option<&str>) -> FidoKey {
    FidoKey {
        path: path.into(),
        product_name: "YubiKey".into(),
        serial: None,
        name: name.map(String::from),
    }
}

#[test]
fn a_choice_is_a_number_in_range() {
    assert_eq!(parse_number("12"), Some(12));
    assert_eq!(parse_number("+12"), Some(12));
    assert_eq!(parse_number("007"), Some(7));
    assert_eq!(parse_number("18446744073709551615"), Some(usize::MAX));
    assert_eq!(parse_number("18446744073709551616"), None);
    for bad in ["", "+", "-1", "1x", " 1", "++1"] {
        assert_eq!(parse_number(bad), None, "{bad:?}");
    }
    assert_eq!(pick_device_interactively(" 2 \n", 3), Ok(1));
    assert_eq!(pick_device_interactively("4\n", 3), Err("selection 4 out of range 1-3".to_string()));
    assert_eq!(pick_device_interactively("0\n", 3), Err("selection 0 out of range 1-3".to_string()));
    assert_eq!(pick_device_interactively("x\n", 3), Err("'x' is not a valid selection".to_string()));
}

#[test]
fn a_lone_key_is_used_without_asking() {
    let one = vec![key("/dev/hidraw0", None)];
    let two = vec![key("/dev/hidraw0", None), key("/dev/hidraw1", Some("work"))];
    assert_eq!(pick_from_devices(&one, None, None), Ok(0));
    assert_eq!(pick_from_devices(&two, Some("2"), None), Ok(1));
    assert!(pick_from_devices(&two, None, None).is_err());
    assert_eq!(
        pick_from_devices(&vec![], None, Some("a SoloKey bootloader")),
        Err(no_fido_device_error(Some("a SoloKey bootloader")))
    );
    assert!(picker_lines(&two).lines.join("\n").contains("work"));
    assert_eq!(find_path(&two, "/dev/hidraw1"), Ok(1));
    assert!(find_path(&two, "/dev/hidraw9").is_err());
    assert_eq!(
        fido_target_hint(None, &Some(vec![key("/dev/hidraw0", Some("work"))]), &None),
        " — target: work at /dev/hidraw0"
    );
    assert_eq!(fido_target_hint(Some("/dev/x"), &None, &None), " — target: /dev/x");
    assert_eq!(
        fido_target_hint(None, &Some(two), &None),
        " — 2 FIDO keys connected; pass --device or --path to choose"
    );
    assert_eq!(fido_target_hint(None, &None, &None), "");
    assert_eq!(announce_target(Some("work"), "YubiKey", "/dev/x"), "→ work (YubiKey, /dev/x)");
    assert_eq!(announce_target(None, "YubiKey", "/dev/x"), "→ YubiKey (/dev/x)");
}

#[test]
fn a_name_is_disclosed_before_it_is_saved() {
    let plan = run_key_name(&KeyNameCmd::Add { name: "work".into(), path: None });
    let at = |op: KeyNameOp| plan.iter().position(|o| *o == op).unwrap();
    assert!(at(KeyNameOp::Disclose) < at(KeyNameOp::Save));
    assert!(at(KeyNameOp::ValidateName) < at(KeyNameOp::ReadSerial));
    let lines = disclosure("work", "123", "YubiKey").lines;
    assert_eq!(lines[0], "Recording \"work\" \u{2192} serial 123 (YubiKey).");
    assert!(lines[1].contains("`keyroostctl key-name remove work`"));
    assert_eq!(recorded_vendor(0x1050), Some("yubico"));
    assert_eq!(recorded_vendor(0x20a0), None);
    assert_eq!(saved_line("/x/keys.json"), "Saved to /x/keys.json");
    let names = vec![NamedKey { name: "work".into(), serial: "123".into() }];
    let listed = key_name_list(&names, &vec![Some("123".into())]).lines.join("\n");
    assert!(listed.contains("work") && listed.contains("123"), "{listed}");
    assert_ne!(key_name_remove("work", true), key_name_remove("work", false));
}
