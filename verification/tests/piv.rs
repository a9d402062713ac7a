use keyroost::args::{
    CliPinPolicy, CliPivKeyAlg, CliPivMgmtAlg, CliPivSlot, CliTouchPolicy, KeyAlg, MgmtAlg, PinPolicy, Slot,
    TouchPolicy,
};
use keyroost::host::unix_now;
use keyroost::pem::{bad_pubkey, cert_to_der, spki_to_der, Encoded};
use keyroost::piv::{
    check_valid_days, max_valid_days, run_piv, validity, InlineKeyGen, PivCmd, PivOp, PivSecret, LAST_SECOND,
    ZERO_RETRIES,
};
use keyroost::piv_report::{
    bad_certificate_key, check_new_key, export_target, exported_cert_line, generating_line, management_auth, piv_done,
    piv_signing_line, piv_status_json, piv_status_lines, piv_test_confirm, piv_test_json, piv_test_verdict,
    probe_error, pubkey_encoding_failed, reset_consent, saved_copy_line, saved_pubkey_line, saved_request_line,
    secret_opts, test_call, testing_line, CertUnreadable, ExportTo, MgmtAuth, PivChuid, PivFacts, PivSlotStatus,
    PivStatus, TestCall, TestOutcome,
};
use keyroost::secrets::SecretOpts;

fn now() -> u32 {
    let since = std::time::SystemTime::now().duration_since(std::time::UNIX_EPOCH);
    unix_now(since.ok().map(|d| d.as_secs()))
}

fn opts(var: &str) -> SecretOpts {
    SecretOpts { env: Some(var.into()), stdin: false }
}

#[test]
fn check_valid_days_accepts_the_default_and_the_actual_ceiling() {
    assert!(check_valid_days(365, now()).is_ok());
    assert!(check_valid_days(max_valid_days(now()), now()).is_ok());
}

#[test]
fn check_valid_days_rejects_one_past_the_ceiling() {
    let t = now();
    let max = max_valid_days(t);
    let err = check_valid_days(max + 1, t).unwrap_err();
    assert!(err.contains("exceeds"));
}

#[test]
fn the_last_day_is_the_end_of_the_year_9999() {
    assert_eq!(max_valid_days(0), 2932896);
    assert_eq!(max_valid_days(86399), 2932896);
    assert_eq!(max_valid_days(86400), 2932895);
    assert_eq!(
        check_valid_days(2932897, 0).unwrap_err(),
        "--days 2932897 exceeds the largest representable value (2932896 days from now) — a CHUID/certificate date is a 4-digit year, capped at 9999-12-31"
    );
}

#[test]
fn piv_policy_values_map_one_to_one_onto_the_byte_layer() {
    for (cli, lib) in [
        (CliPinPolicy::Default, PinPolicy::Default),
        (CliPinPolicy::Never, PinPolicy::Never),
        (CliPinPolicy::Once, PinPolicy::Once),
        (CliPinPolicy::Always, PinPolicy::Always),
    ] {
        assert_eq!(cli.to_policy(), lib);
    }
    for (cli, lib) in [
        (CliTouchPolicy::Default, TouchPolicy::Default),
        (CliTouchPolicy::Never, TouchPolicy::Never),
        (CliTouchPolicy::Always, TouchPolicy::Always),
        (CliTouchPolicy::Cached, TouchPolicy::Cached),
    ] {
        assert_eq!(cli.to_policy(), lib);
    }
}

#[test]
fn slots_have_their_key_references() {
    assert_eq!(CliPivSlot::KeyMgmt.to_slot().key_ref(), 0x9D);
    assert_eq!(CliPivSlot::Retired1.to_slot().key_ref(), 0x82);
    assert_eq!(CliPivSlot::Retired20.to_slot().key_ref(), 0x95);
    assert_eq!(CliPivSlot::Auth.to_slot().key_ref(), 0x9A);
    assert_eq!(CliPivSlot::Sign.to_slot().key_ref(), 0x9C);
    assert_eq!(CliPivSlot::CardAuth.to_slot().key_ref(), 0x9E);
    assert_eq!(Slot::retired(0), None);
    assert_eq!(Slot::retired(20), Some(Slot::Retired(20)));
    assert_eq!(Slot::retired(21), None);
    assert_eq!(Slot::retired_all().len(), 20);
    assert_eq!(CliPivKeyAlg::EccP384.to_alg(), KeyAlg::EccP384);
    assert_eq!(CliPivMgmtAlg::Aes256.to_alg(), MgmtAlg::Aes256);
    assert_eq!(MgmtAlg::TripleDes.key_len(), 24);
    assert_eq!(MgmtAlg::Aes128.key_len(), 16);
    assert_eq!(MgmtAlg::Aes192.key_len(), 24);
    assert_eq!(MgmtAlg::Aes256.key_len(), 32);
}

fn keygen(generate_key: bool, save: bool) -> InlineKeyGen {
    InlineKeyGen {
        generate_key,
        algorithm: KeyAlg::EccP256,
        pin_policy: PinPolicy::Once,
        touch_policy: TouchPolicy::Always,
        save_pubkey: if save { Some("p.pem".into()) } else { None },
    }
}

#[test]
fn a_self_signed_certificate_is_valid_from_now() {
    let cmd = PivCmd::SelfSign {
        slot: Slot::Signature,
        subject: "CN=x".into(),
        days: 2,
        pin: opts("P"),
        mgmt_key: opts("M"),
        file: None,
        load_pubkey: None,
        keygen: keygen(true, true),
    };
    assert_eq!(
        run_piv(&cmd, 1000, "9c").unwrap(),
        vec![
            PivOp::Read(PivSecret::MgmtKey),
            PivOp::Read(PivSecret::Pin),
            PivOp::Open,
            PivOp::AuthenticateManagement,
            PivOp::GenerateKey(Slot::Signature, KeyAlg::EccP256, PinPolicy::Once, TouchPolicy::Always),
            PivOp::SavePubkey,
            PivOp::SelfSign(Slot::Signature, 2),
            PivOp::Report,
        ]
    );
    assert_eq!(validity(1030, 2), (1030, 1030 + 2 * 86400));
    assert_eq!(secret_opts(&cmd, PivSecret::Pin).and_then(|o| o.env.as_deref()), Some("P"));
    assert_eq!(secret_opts(&cmd, PivSecret::MgmtKey).and_then(|o| o.env.as_deref()), Some("M"));
    assert!(secret_opts(&cmd, PivSecret::Puk).is_none());
    let never = PivCmd::SelfSign {
        slot: Slot::Signature,
        subject: "CN=x".into(),
        days: 0,
        pin: opts("P"),
        mgmt_key: opts("M"),
        file: None,
        load_pubkey: None,
        keygen: keygen(false, false),
    };
    assert_eq!(run_piv(&never, 1000, "9c"), Err("validity must be at least 1 day".to_string()));
}

#[test]
fn a_certificate_ends_with_the_year_9999_at_the_latest() {
    let lasting = |days| PivCmd::SelfSign {
        slot: Slot::Signature,
        subject: "CN=x".into(),
        days,
        pin: opts("P"),
        mgmt_key: opts("M"),
        file: None,
        load_pubkey: None,
        keygen: keygen(false, false),
    };
    // Late in the evening, for as long as can be asked for.
    let plan = run_piv(&lasting(2932896), 86399, "9c").unwrap();
    assert_eq!(plan[4], PivOp::SelfSign(Slot::Signature, 2932896));
    assert_eq!(validity(86399, 2932896), (86399, LAST_SECOND));
    // Signed after midnight, it would last longer than its dates can say.
    assert_eq!(validity(86400, 2932896), (86400, LAST_SECOND + 1));
    assert!(run_piv(&lasting(2932896), 86400, "9c").is_err());
    let plan = run_piv(&lasting(2932895), 86400, "9c").unwrap();
    assert_eq!(plan[4], PivOp::SelfSign(Slot::Signature, 2932895));
    assert_eq!(validity(86400, 2932895), (86400, LAST_SECOND - 86399));
}

#[test]
fn a_request_needs_the_management_key_only_to_make_a_key() {
    let with = |keygen, load: Option<&str>| PivCmd::RequestCert {
        slot: Slot::Authentication,
        subject: "CN=x".into(),
        pin: opts("P"),
        file: None,
        load_pubkey: load.map(String::from),
        mgmt_key: opts("M"),
        keygen,
    };
    assert_eq!(
        run_piv(&with(keygen(false, false), Some("k.pem")), 0, "9a").unwrap(),
        vec![
            PivOp::Read(PivSecret::Pin),
            PivOp::Open,
            PivOp::ReadPubkeyFile,
            PivOp::RememberPubkey(Slot::Authentication),
            PivOp::SignRequest(Slot::Authentication),
        ]
    );
    let plan = run_piv(&with(keygen(true, false), None), 0, "9a").unwrap();
    assert_eq!(plan[1], PivOp::Read(PivSecret::MgmtKey));
    assert_eq!(plan[3], PivOp::AuthenticateManagement);
    assert_eq!(piv_signing_line(plan[plan.len() - 1]), Some("Signing the request on the card (touch if it blinks)…"));
    assert_eq!(piv_signing_line(PivOp::Open), None);
}

#[test]
fn destructive_piv_commands_ask_for_yes() {
    let cert = PivCmd::DeleteCert { slot: Slot::Signature, mgmt_key: opts("M"), yes: false };
    assert_eq!(
        run_piv(&cert, 0, "signature (9C)"),
        Err("refusing to clear the certificate in signature (9C) without --yes (this is irreversible; the slot's private key is left in place)".to_string())
    );
    let key = PivCmd::DeleteKey { slot: Slot::Signature, mgmt_key: opts("M"), yes: false };
    assert_eq!(
        run_piv(&key, 0, "signature (9C)"),
        Err("refusing to delete the private key in signature (9C) without --yes (this is irreversible; the key material cannot be recovered)".to_string())
    );
    assert_eq!(
        reset_consent(false, Some(5)),
        Err("refusing to reset the PIV application on serial 5 without --yes (this wipes all PIV keys, certificates, and PINs)".to_string())
    );
    assert_eq!(reset_consent(true, None), Ok("this device".to_string()));
    let retries = PivCmd::SetRetries { pin_tries: 0, puk_tries: 3, mgmt_key: opts("M"), pin: opts("P") };
    assert_eq!(run_piv(&retries, 0, ""), Err(ZERO_RETRIES.to_string()));
    let chuid = PivCmd::NewChuid { mgmt_key: opts("M"), days: 10, guid: None };
    assert_eq!(
        run_piv(&chuid, 77, "").unwrap(),
        vec![
            PivOp::ChooseGuid,
            PivOp::ChooseExpiry(10),
            PivOp::Read(PivSecret::MgmtKey),
            PivOp::Open,
            PivOp::AuthenticateManagement,
            PivOp::WriteChuid,
            PivOp::Report,
        ]
    );
}

#[test]
fn a_management_key_has_to_fit_its_cipher() {
    assert_eq!(check_new_key(24, MgmtAlg::TripleDes, "3DES"), Ok(()));
    assert_eq!(
        check_new_key(16, MgmtAlg::Aes256, "AES-256"),
        Err("new management key is 16 bytes; AES-256 needs 32".to_string())
    );
    assert!(matches!(management_auth(Some(MgmtAlg::Aes192), 24, "AES-192"), MgmtAuth::Use(MgmtAlg::Aes192)));
    assert!(matches!(management_auth(None, 24, ""), MgmtAuth::Probe));
    assert!(matches!(management_auth(Some(MgmtAlg::Aes256), 24, "AES-256"), MgmtAuth::Refuse(_)));
    assert_ne!(probe_error(true, 5, "why"), "why");
    assert_eq!(probe_error(false, 5, "why"), "why");
}

#[test]
fn a_certificate_is_not_thrown_at_a_terminal() {
    assert!(matches!(export_target(true, "9a", Some("c.der"), true), ExportTo::File(p) if p == "c.der"));
    assert!(matches!(export_target(true, "9a", None, false), ExportTo::Stdout));
    assert!(matches!(export_target(true, "9a", None, true), ExportTo::Refuse(_)));
    assert!(matches!(export_target(false, "9a", None, false), ExportTo::Refuse(e) if e == "9a holds no certificate"));
}

fn status() -> PivStatus {
    PivStatus {
        version: Some("5.4.3".into()),
        serial: Some(12345678),
        pin_retries: Some(0),
        chuid: Some(PivChuid {
            fasc_n: "d4e739da".into(),
            guid: "aabbccdd-eeff-1122-3344-556677889900".into(),
            expiration: "2030-01-01".into(),
            signature: String::new(),
            lrc: String::new(),
        }),
        slots: vec![
            PivSlotStatus { label: "9a".into(), cert_present: true, cert_len: 800, cert_unreadable: None },
            PivSlotStatus { label: "9c".into(), cert_present: false, cert_len: 9, cert_unreadable: None },
            PivSlotStatus {
                label: "9d".into(),
                cert_present: true,
                cert_len: 3,
                cert_unreadable: Some((CertUnreadable::Damaged, "it is broken".into())),
            },
        ],
    }
}

#[test]
fn a_status_tells_what_is_in_the_slots() {
    let j = piv_status_json(&status());
    assert_eq!(j.version.as_deref(), Some("5.4.3"));
    assert_eq!(j.serial, Some(12345678));
    assert_eq!(j.pin_retries, Some(0));
    assert_eq!(j.chuid.unwrap().guid, "aabbccdd-eeff-1122-3344-556677889900");
    assert_eq!(j.slots[0].cert_len, 800);
    assert_eq!(j.slots[1].cert_len, 0);
    assert_eq!(j.slots[2].cert_unreadable, Some("damaged"));
    assert!(j.slots[0].cert_unreadable.is_none());
    let lines = piv_status_lines(&status()).lines;
    assert_eq!(lines[0], "Version:     5.4.3");
    assert_eq!(lines[1], "Serial:      12345678 (0x00BC614E)");
    assert_eq!(lines[2], "PIN retries: 0 (blocked)");
    assert!(lines.iter().any(|l| l == "  Signature:   empty"));
    assert!(lines.iter().any(|l| l == "  9a                         cert present (800 bytes)"));
    assert!(lines.iter().any(|l| l == "  9c                         empty"));
    assert!(lines.iter().any(|l| l == "  9d                         cert present but unreadable (it is broken)"));
}

#[test]
fn a_self_test_is_reported_as_a_whole() {
    let results = vec![
        ("sign".to_string(), TestOutcome::Passed),
        ("decrypt".to_string(), TestOutcome::Skipped("n/a".into())),
        ("agree".to_string(), TestOutcome::Failed("bad".into())),
    ];
    let j = piv_test_json("9a", "RSA-2048", &results);
    assert!(!j.ok);
    assert_eq!(j.operations[0].result, "passed");
    assert_eq!(j.operations[1].result, "skipped");
    assert_eq!(j.operations[1].detail, None);
    assert_eq!(j.operations[2].detail.as_deref(), Some("bad"));
    assert_eq!(piv_test_verdict(false), Err("one or more self-tests failed".to_string()));
    assert_eq!(piv_test_verdict(true), Ok(()));
    assert_eq!(piv_test_confirm(true, "9a", &vec![false, true], "RSA"), Ok(()));
    assert_eq!(
        piv_test_confirm(false, "9a", &vec![true], "RSA"),
        Err("9a has no certificate to test against".to_string())
    );
    assert_eq!(
        piv_test_confirm(true, "9a", &vec![false], "X25519"),
        Err("no self-test applies to a X25519 key".to_string())
    );
    // The PIN is verified again before every test but the first.
    assert_eq!(test_call(false, false, true, 0), (false, TestCall::Sign));
    assert_eq!(test_call(true, false, true, 1), (true, TestCall::Agree));
    assert_eq!(test_call(false, true, false, 1), (false, TestCall::Decrypt));
}

#[test]
fn closing_lines_tell_what_was_done() {
    let facts = PivFacts { slot: "9d", to_slot: "82", algorithm: "AES-256", bytes: 900, guid: &[0xaa], subject: "serial 5" };
    let done = |cmd: &PivCmd| piv_done(cmd, &facts);
    assert_eq!(
        done(&PivCmd::MoveKey { from: Slot::KeyManagement, to: Slot::Retired(1), mgmt_key: opts("M") }).unwrap(),
        "moved the private key 9d \u{2192} 82; the certificate remains in 9d"
    );
    assert_eq!(
        done(&PivCmd::SetRetries { pin_tries: 5, puk_tries: 3, mgmt_key: opts("M"), pin: opts("P") }).unwrap(),
        "PIN/PUK retry counts set to 5/3. Both reset to factory defaults."
    );
    assert_eq!(
        done(&PivCmd::ImportCert { slot: Slot::KeyManagement, file: "f".into(), mgmt_key: opts("M") }).unwrap(),
        "Imported 900-byte certificate into 9d."
    );
    assert_eq!(
        done(&PivCmd::NewChuid { mgmt_key: opts("M"), days: 1, guid: None }).unwrap(),
        "Wrote a new CHUID (GUID aa)."
    );
    assert_eq!(
        done(&PivCmd::Reset { yes: true }).unwrap(),
        "PIV application reset to factory defaults on serial 5."
    );
    assert_eq!(done(&PivCmd::Status), None);
    assert_eq!(exported_cert_line(10, "c"), "Wrote 10-byte DER certificate to c.");
    assert_eq!(saved_request_line("9a", "r"), "Wrote certificate request for 9a to r.");
    assert_eq!(saved_copy_line("c"), "PEM copy written to c.");
    assert_eq!(generating_line("RSA-2048", "9a"), "Generating RSA-2048 in 9a (touch the key if it blinks)…");
    assert_eq!(testing_line("9a", "RSA"), "→ Testing 9a (RSA) on the card (touch if it blinks)…");
    assert!(saved_pubkey_line(false, "9a", "p").contains("--load-pubkey"));
    assert_eq!(saved_pubkey_line(true, "9a", "p"), "Wrote a copy of 9a's generated public key to p.");
    assert_eq!(pubkey_encoding_failed("x"), "key generated, but encoding its public key failed: x");
    assert_eq!(bad_certificate_key("x"), "could not read the slot certificate's key: x");
}

#[test]
fn a_certificate_file_is_pem_or_der() {
    let pem = "junk\n-----BEGIN CERTIFICATE-----\nQUJD\r\n RA==\n-----END CERTIFICATE-----\n";
    match cert_to_der(pem.as_bytes()).unwrap() {
        Encoded::Pem { base64, more } => {
            assert_eq!(base64, "QUJDRA==");
            assert!(!more);
        }
        other => panic!("{other:?}"),
    }
    let chain = format!("{pem}{pem}");
    assert!(matches!(cert_to_der(chain.as_bytes()).unwrap(), Encoded::Pem { more: true, .. }));
    assert!(matches!(cert_to_der(&[0x30, 0xff]).unwrap(), Encoded::Der(d) if d == vec![0x30, 0xff]));
    assert_eq!(
        cert_to_der(b"-----BEGIN CERTIFICATE-----\nQUJD").unwrap_err(),
        "PEM certificate has no END marker"
    );
    assert_eq!(
        cert_to_der(&[0xff, 0x30]).unwrap_err(),
        "certificate is neither PEM nor DER (no 0x30 SEQUENCE)"
    );
    assert!(cert_to_der(&[]).is_err());
    let key = "-----BEGIN PUBLIC KEY-----\nAAAA\n-----END PUBLIC KEY-----";
    assert!(matches!(spki_to_der(key.as_bytes()).unwrap(), Encoded::Pem { base64, .. } if base64 == "AAAA"));
    assert!(spki_to_der(pem.as_bytes()).is_err());
    assert_eq!(bad_pubkey("k.pem", "x"), "k.pem: not a valid SubjectPublicKeyInfo: x");
}
