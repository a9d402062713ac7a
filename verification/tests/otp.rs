use keyroost::oath::{
    check_new_password, is_hotp, oath_algo_str, oath_code_json, oath_done, oath_list_json, oath_list_lines,
    oath_type_str, open_oath, run_oath, skipped_warning, OathAccess, OathAlgorithm, OathCmd, OathCredential, OathOp,
    OathType, OathUnlock, OATH_LOCKED, OATH_RESET_REFUSAL,
};
use keyroost::otp::{
    confirm_phrase, disable_mask, ensure_otp_feature, interface_notice, otp_feature_capability, run_otp, InterfaceBits,
    OtpAlgorithm, OtpCmd, OtpDeviceInfo, OtpFeature, OtpOp, OtpSecret, OtpType, ERASE_REFUSAL, TOO_FEW_INTERFACES,
};
use keyroost::otp_report::{
    asks_for_finger, config_failed, fp_status_line, otp_algo_str_t2, otp_config_lines, otp_done, otp_entries_json,
    otp_entries_lines, otp_get_json, otp_label, otp_opened, otp_prompt, otp_serial_json, otp_type_str, pin_lines,
    pin_status_json, pin_status_line, raw_config_line, seed_and_pin_lines, unlocked_line, OtpConfigFacts, OtpEntry,
    PinFlag,
};
use keyroost::secrets::SecretOpts;

/// A config block of `len` bytes whose capability byte (9) is `ext`.
fn config_block(len: usize, ext: u8) -> OtpDeviceInfo {
    let mut raw = vec![0u8; len];
    if len > 9 {
        raw[9] = ext;
    }
    OtpDeviceInfo::parse(&raw).expect("non-empty block parses")
}

#[test]
fn a_full_config_block_decides_both_features() {
    // Byte 9: bit 1 sets TOTP support; bit 6 is inverted (set = NO button HOTP).
    let both = config_block(10, 0x01);
    assert_eq!(
        otp_feature_capability(Some(&both), OtpFeature::OnDevice),
        Some(true)
    );
    assert_eq!(
        otp_feature_capability(Some(&both), OtpFeature::ButtonHotp),
        Some(true)
    );

    let neither = config_block(10, 0x20);
    assert_eq!(
        otp_feature_capability(Some(&neither), OtpFeature::OnDevice),
        Some(false)
    );
    assert_eq!(
        otp_feature_capability(Some(&neither), OtpFeature::ButtonHotp),
        Some(false)
    );

    // The two are independent: a key can have the keystroke slot and no store.
    let hotp_only = config_block(64, 0x10);
    assert_eq!(
        otp_feature_capability(Some(&hotp_only), OtpFeature::OnDevice),
        Some(false)
    );
    assert_eq!(
        otp_feature_capability(Some(&hotp_only), OtpFeature::ButtonHotp),
        Some(true)
    );
}

#[test]
fn a_short_config_block_is_unknown_not_unsupported() {
    for len in 1..=9 {
        assert_eq!(
            otp_feature_capability(Some(&config_block(len, 0)), OtpFeature::OnDevice),
            None,
            "{len}"
        );
        assert_eq!(
            otp_feature_capability(Some(&config_block(len, 0)), OtpFeature::ButtonHotp),
            None,
            "{len}"
        );
    }
}

#[test]
fn a_failed_config_read_never_blocks_a_command() {
    assert_eq!(otp_feature_capability(None, OtpFeature::OnDevice), None);
    assert_eq!(otp_feature_capability(None, OtpFeature::ButtonHotp), None);
    assert_eq!(ensure_otp_feature(None, OtpFeature::OnDevice), Ok(()));
}

#[test]
fn the_missing_feature_messages_name_the_feature() {
    assert!(OtpFeature::OnDevice
        .missing_message()
        .contains("on-device OTP function"));
    assert!(OtpFeature::ButtonHotp
        .missing_message()
        .contains("HOTP-on-touch function"));
    for f in [OtpFeature::OnDevice, OtpFeature::ButtonHotp] {
        assert!(f
            .missing_message()
            .contains("aren't upgradable after purchase"));
    }
}

#[test]
fn a_key_that_says_no_stops_the_command() {
    let neither = config_block(10, 0x20);
    assert_eq!(
        ensure_otp_feature(Some(&neither), OtpFeature::OnDevice),
        Err(OtpFeature::OnDevice.missing_message().to_string())
    );
    assert!(OtpDeviceInfo::parse(&[]).is_none());
    assert!(config_block(10, 0x21).totp_supported());
    assert!(!config_block(10, 0x21).button_hotp_supported());
}

fn none() -> SecretOpts {
    SecretOpts { env: None, stdin: false }
}

fn piped() -> SecretOpts {
    SecretOpts { env: None, stdin: true }
}

fn add(digits: u8, seed: SecretOpts, pin: SecretOpts) -> OtpCmd {
    OtpCmd::Add {
        app: "Example".into(),
        account: "alice".into(),
        otp_type: OtpType::Totp,
        algorithm: OtpAlgorithm::Sha256,
        digits,
        period: 30,
        touch: true,
        seed,
        pin,
    }
}

#[test]
fn an_entry_is_added_as_it_was_asked_for() {
    let write = OtpOp::Write {
        otp_type: OtpType::Totp,
        algorithm: OtpAlgorithm::Sha256,
        period: 30,
        digits: 6,
        touch: true,
    };
    assert_eq!(
        run_otp(&add(6, piped(), none())).unwrap(),
        vec![
            OtpOp::Read(OtpSecret::Seed),
            OtpOp::DecodeSeed,
            OtpOp::Open,
            OtpOp::Ensure(OtpFeature::OnDevice),
            write,
        ]
    );
    // Both on standard input: two lines of it.
    assert_eq!(run_otp(&add(6, piped(), piped())).unwrap()[0], OtpOp::ReadSeedAndPinLines);
    assert_eq!(run_otp(&add(3, piped(), none())), Err("--digits must be between 4 and 10".to_string()));
    assert_eq!(run_otp(&add(11, piped(), none())), Err("--digits must be between 4 and 10".to_string()));
    assert_eq!(otp_done(&add(6, piped(), none())).unwrap(), "Added OTP entry \"Example:alice\".");
}

#[test]
fn a_button_types_six_or_eight_digits() {
    let button = |digits| OtpCmd::ButtonHotp { digits, no_enter: true, long_touch: false, numpad: true, seed: piped() };
    assert_eq!(
        run_otp(&button(8)).unwrap()[4],
        OtpOp::SetButton { digits: 8, enter: false, long_touch: false, numpad: true }
    );
    assert_eq!(run_otp(&button(7)), Err("button HOTP --digits must be 6 or 8".to_string()));
}

#[test]
fn everything_is_erased_only_on_demand() {
    assert_eq!(run_otp(&OtpCmd::EraseAll { yes: false }), Err(ERASE_REFUSAL.to_string()));
    assert_eq!(
        run_otp(&OtpCmd::EraseAll { yes: true }).unwrap(),
        vec![OtpOp::Open, OtpOp::Ensure(OtpFeature::OnDevice), OtpOp::EraseAll]
    );
    assert_eq!(otp_prompt(OtpOp::EraseAll, false), Some("touch your key to confirm the erase…"));
    assert_eq!(otp_prompt(OtpOp::Unlock(true), false), None);
}

#[test]
fn codes_are_for_the_time_before_the_key_is_unlocked() {
    let ready = [OtpOp::Open, OtpOp::Ensure(OtpFeature::OnDevice), OtpOp::TakeTime];
    let pin = |stdin| SecretOpts { env: None, stdin };
    let plan = run_otp(&OtpCmd::List { pin: pin(true) }).unwrap();
    assert_eq!(plan[..3], ready);
    assert_eq!(plan[3..], [OtpOp::Read(OtpSecret::Pin), OtpOp::List]);
    let plan = run_otp(&OtpCmd::Get { app: "a".into(), account: "b".into() }).unwrap();
    assert_eq!(plan[..3], ready);
    assert_eq!(plan[3..], [OtpOp::Get]);
    let plan = run_otp(&OtpCmd::FpList).unwrap();
    assert_eq!(plan[..3], ready);
    assert_eq!(plan[3..], [OtpOp::VerifyFingerprint, OtpOp::ListUnlocked]);
    let plan = run_otp(&OtpCmd::UnlockList { pin: pin(true), pin_only: true }).unwrap();
    assert_eq!(plan[0], OtpOp::Read(OtpSecret::Pin));
    assert_eq!(plan[1..4], ready);
    assert_eq!(plan[4..], [OtpOp::Unlock(false), OtpOp::ListUnlocked]);
}

#[test]
fn at_least_two_interfaces_stay_on() {
    for fido in [false, true] {
        for keyboard in [false, true] {
            for ccid in [false, true] {
                let plan = run_otp(&OtpCmd::Interface { fido, keyboard, ccid, yes: true });
                let on = [fido, keyboard, ccid].iter().filter(|x| **x).count();
                if on < 2 {
                    assert_eq!(plan, Err(TOO_FEW_INTERFACES.to_string()));
                } else {
                    assert_eq!(plan.unwrap()[2], OtpOp::SetInterfaces { fido, keyboard, ccid });
                }
            }
        }
    }
    let bits = InterfaceBits { fido: 1, keyboard: 2, ccid: 4 };
    assert_eq!(disable_mask(true, true, true, bits), 0);
    assert_eq!(disable_mask(false, true, false, bits), 5);
    let lines = interface_notice(true, false, true).lines;
    assert_eq!(lines[1], "  enable:  FIDO2/U2F, CCID/smart-card");
    assert_eq!(lines[2], "  disable: keyboard-HID");
    assert_eq!(interface_notice(true, true, true).lines[2], "  disable: (none)");
    assert_eq!(confirm_phrase("  reconfigure interfaces\n"), Ok(()));
    assert_eq!(confirm_phrase("y\n"), Err("confirmation phrase did not match; aborted".to_string()));
}

fn entry(app: &str, code: Option<&str>, touch: bool) -> OtpEntry {
    OtpEntry {
        app_name: app.into(),
        account_name: "alice".into(),
        otp_type: OtpType::Hotp,
        algorithm: OtpAlgorithm::Sha1,
        code: code.map(String::from),
        button_required: touch,
    }
}

#[test]
fn entries_are_listed_with_their_codes() {
    let entries = vec![entry("Example", Some("123456"), false), entry("", None, true)];
    assert_eq!(
        otp_entries_lines(&entries).lines,
        vec!["Example:alice  [HOTP/SHA1]  123456", "alice  [HOTP/SHA1]  —  (touch)"]
    );
    assert_eq!(otp_entries_lines(&vec![]).lines, vec!["(no OTP entries)"]);
    let j = otp_entries_json(&entries);
    assert_eq!(j[0].app, "Example");
    assert_eq!(j[0].code.as_deref(), Some("123456"));
    assert!(j[1].touch_required);
    assert_eq!(j[1].otp_type, "HOTP");
    assert_eq!(otp_label("", "bob"), "bob");
    assert_eq!(otp_label("App", "bob"), "App:bob");
    assert_eq!(otp_get_json("a", "b", Some("1".into())).unwrap().code, "1");
    assert_eq!(
        otp_get_json("a", "b", None).unwrap_err(),
        "device did not return a code for that entry"
    );
    assert_eq!(otp_serial_json(&[0x01, 0xab]).serial, "01ab");
    assert_eq!(otp_type_str(OtpType::Totp), "TOTP");
    assert_eq!(otp_algo_str_t2(OtpAlgorithm::Sha256), "SHA256");
}

#[test]
fn the_state_of_the_pin_is_told() {
    let set = PinFlag { set: true, retries_left: 3, max_retries: 8 };
    assert_eq!(pin_status_line(Some(set)), "OTP PIN: set  (retries left: 3, max: 8)");
    let unset = PinFlag { set: false, retries_left: 8, max_retries: 8 };
    assert_eq!(pin_status_line(Some(unset)), "OTP PIN: not set");
    assert!(pin_status_line(None).starts_with("OTP PIN: not offered by this key"));
    let j = pin_status_json(Some(set));
    assert!(j.supported);
    assert_eq!((j.pin_set, j.retries_left, j.max_retries), (Some(true), Some(3), Some(8)));
    assert!(!pin_status_json(None).supported);
    assert_eq!(fp_status_line(Some(true)), "Fingerprint-protected OTP: enabled");
    assert!(asks_for_finger(false, Some(true)));
    assert!(!asks_for_finger(true, Some(true)));
    assert!(!asks_for_finger(false, None));
    assert_eq!(unlocked_line(true), "Unlocked with fingerprint.");
    assert_eq!(otp_opened(true), "→ Token2 OTP on CCID/NFC");
    assert_eq!(otp_opened(false), "→ Token2 OTP on USB-HID");
    assert_eq!(config_failed("x"), "READ_CONFIG failed: x");
}

#[test]
fn two_secrets_come_from_two_lines() {
    let s = |t: &str| Some(t.to_string());
    assert_eq!(seed_and_pin_lines(s("a"), s("b")), Ok(("a".to_string(), "b".to_string())));
    assert_eq!(seed_and_pin_lines(None, None), Err("expected base32 seed on stdin line 1".to_string()));
    assert_eq!(seed_and_pin_lines(s("a"), None), Err("expected OTP PIN on stdin line 2".to_string()));
    assert_eq!(pin_lines(None, s("b")), Err("expected current PIN on stdin line 1".to_string()));
    assert_eq!(pin_lines(s("a"), None), Err("expected new PIN on stdin line 2".to_string()));
}

#[test]
fn a_short_block_is_shown_as_unknown() {
    let facts = OtpConfigFacts {
        fido_disabled: false,
        keyboard_disabled: true,
        ccid_disabled: false,
        has_config_byte: false,
        button_configured: false,
    };
    let raw = [1u8, 2];
    assert_eq!(raw_config_line(&raw), "READ_CONFIG returned 2 bytes: 0102");
    let lines = otp_config_lines(&OtpDeviceInfo::parse(&raw).unwrap(), &facts).lines;
    assert_eq!(lines[0], "Device configuration:");
    assert_eq!(lines[2], "  keyboard-HID interface: disabled");
    assert_eq!(lines[4], "  on-device OTP support:  unknown (device returned a short config block)");
}

fn access() -> OathAccess {
    OathAccess { password: none() }
}

fn oath_add(digits: u8, oath_type: OathType, counter: u32) -> OathCmd {
    OathCmd::Add {
        name: "a\"b".into(),
        oath_type,
        secret: piped(),
        algorithm: OathAlgorithm::Sha512,
        digits,
        counter,
        touch: true,
        access: access(),
    }
}

#[test]
fn oath_credentials_are_checked_before_the_card_is_opened() {
    let put = OathOp::Put {
        oath_type: OathType::Hotp,
        algorithm: OathAlgorithm::Sha512,
        digits: 8,
        touch: true,
        counter: 5,
    };
    assert_eq!(
        run_oath(&oath_add(8, OathType::Hotp, 5)).unwrap(),
        vec![OathOp::ReadSecret, OathOp::Open, OathOp::Unlock, put, OathOp::Report]
    );
    assert_eq!(run_oath(&oath_add(5, OathType::Hotp, 0)), Err("--digits must be 6, 7, or 8".to_string()));
    assert_eq!(run_oath(&oath_add(9, OathType::Hotp, 0)), Err("--digits must be 6, 7, or 8".to_string()));
    // The name is quoted, and what is special in it escaped.
    assert_eq!(
        oath_done(&oath_add(8, OathType::Hotp, 5)).unwrap(),
        "Added OATH HOTP credential \"a\\\"b\"."
    );
}

#[test]
fn a_totp_credential_has_no_use_for_a_counter() {
    let put = OathOp::Put {
        oath_type: OathType::Totp,
        algorithm: OathAlgorithm::Sha512,
        digits: 6,
        touch: true,
        counter: 0,
    };
    let plan = vec![OathOp::ReadSecret, OathOp::Open, OathOp::Unlock, put, OathOp::Report];
    assert_eq!(run_oath(&oath_add(6, OathType::Totp, 0)).unwrap(), plan);
    assert_eq!(run_oath(&oath_add(6, OathType::Totp, 1)).unwrap(), plan);
    assert_eq!(run_oath(&oath_add(6, OathType::Totp, u32::MAX)).unwrap(), plan);
    // The number of digits is looked at all the same.
    assert_eq!(run_oath(&oath_add(9, OathType::Totp, 1)), Err("--digits must be 6, 7, or 8".to_string()));
}

#[test]
fn an_oath_reset_needs_yes_and_no_password() {
    assert_eq!(run_oath(&OathCmd::Reset { yes: false }), Err(OATH_RESET_REFUSAL.to_string()));
    assert_eq!(
        run_oath(&OathCmd::Reset { yes: true }).unwrap(),
        vec![OathOp::Open, OathOp::Reset, OathOp::Report]
    );
    assert!(matches!(open_oath(true, false), OathUnlock::Unlock));
    assert!(matches!(open_oath(false, false), OathUnlock::Nothing));
    assert!(matches!(open_oath(false, true), OathUnlock::Refuse(e) if e == OATH_LOCKED));
    assert_eq!(check_new_password("x"), Ok(()));
    assert_eq!(
        check_new_password(""),
        Err("new password is empty; use `clear-password` to remove it".to_string())
    );
    assert!(!access().password());
}

#[test]
fn oath_listings_say_when_they_are_incomplete() {
    assert_eq!(skipped_warning(0), None);
    assert_eq!(
        skipped_warning(1).unwrap(),
        "warning: 1 credential entry on the key could not be decoded and is not shown; the listing is incomplete"
    );
    assert_eq!(
        skipped_warning(2).unwrap(),
        "warning: 2 credential entries on the key could not be decoded and are not shown; the listing is incomplete"
    );
    let creds = vec![
        OathCredential { name: "a\x1b".into(), oath_type: OathType::Totp, algorithm: OathAlgorithm::Sha1 },
        OathCredential { name: "b".into(), oath_type: OathType::Hotp, algorithm: OathAlgorithm::Sha256 },
        OathCredential { name: "b".into(), oath_type: OathType::Totp, algorithm: OathAlgorithm::Sha256 },
    ];
    assert_eq!(oath_list_lines(&creds).lines[0], "a   [TOTP/SHA1]");
    assert_eq!(oath_list_lines(&vec![]).lines, vec!["(no OATH credentials)"]);
    assert_eq!(oath_list_json(&creds)[1].oath_type, "HOTP");
    // The first of that name decides; one that is not listed goes by time.
    assert!(is_hotp(&creds, "b"));
    assert!(!is_hotp(&creds, "c"));
    assert_eq!(oath_code_json("b", "123456").code, "123456");
    assert_eq!(oath_type_str(OathType::Totp), "TOTP");
    assert_eq!(oath_algo_str(OathAlgorithm::Sha512), "SHA512");
}
