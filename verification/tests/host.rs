use keyroost::device::{Cap, Caps, Device, DeviceKind};
use keyroost::host::{
    cannot_read, cannot_write, read_failed, temp_name, unix_now, vet_destination, write_failed, write_private_file,
    AfterStep, Destination, RefusalKind, WriteStep, BROKEN_PIPE_STATUS,
};
use keyroost::overview::{
    device_json, effective_serial, json_output, model_label, registry_is_loose, run, run_doctor, run_list, CapState,
    Cmd, HidCheck, HidRow, NodeAccess, NodeCheck, ReaderProbe, RegistryCheck, Route,
};
use keyroost::secrets::{
    bad_base32, bad_hex, command_secret_warning, customer_key_bytes, customer_key_choice, gather_secret, read_password,
    read_secret, secret_from_env, secret_from_line, terminal_warning, uses_default_key, KeyArgs, KeyChoice,
    SecretEncoding, SecretSource,
};

#[test]
fn the_clock_wraps_and_never_goes_below_zero() {
    assert_eq!(unix_now(Some(1700000000)), 1700000000);
    assert_eq!(unix_now(Some(0x1_0000_0005)), 5);
    assert_eq!(unix_now(None), 0);
    assert_eq!(BROKEN_PIPE_STATUS, 128 + 13);
}

#[test]
fn a_secret_replaces_only_a_file_of_its_owner() {
    assert!(vet_destination(Destination::Missing, 1000).is_ok());
    assert!(vet_destination(Destination::Regular { owner: 1000 }, 1000).is_ok());
    let link = vet_destination(Destination::Symlink, 1000).unwrap_err();
    assert_eq!(link.kind, RefusalKind::AlreadyExists);
    assert_eq!(link.message, "refusing to write secret output through a symlink");
    let pipe = vet_destination(Destination::Special, 1000).unwrap_err();
    assert_eq!(pipe.message, "refusing to write secret output to a non-regular file");
    let foreign = vet_destination(Destination::Regular { owner: 0 }, 1000).unwrap_err();
    assert_eq!(foreign.kind, RefusalKind::PermissionDenied);
    assert_eq!(foreign.message, "refusing to overwrite a secret-output file owned by another user");
    assert_eq!(temp_name("out.bin", 42), ".out.bin.keyroost-tmp-42");
}

#[test]
fn a_secret_is_written_step_by_step() {
    let mut step = WriteStep::Create;
    let mut seen = vec![step];
    while let AfterStep::Go(next) = write_private_file(step, true) {
        seen.push(next);
        step = next;
    }
    assert_eq!(
        seen,
        vec![
            WriteStep::Create,
            WriteStep::Owner,
            WriteStep::Look,
            WriteStep::Restrict,
            WriteStep::Fill,
            WriteStep::Replace,
        ]
    );
    assert_eq!(write_private_file(WriteStep::Replace, true), AfterStep::Done);
    assert_eq!(write_private_file(WriteStep::Create, false), AfterStep::GiveUp { remove: false });
    for s in [WriteStep::Look, WriteStep::Restrict, WriteStep::Fill, WriteStep::Replace] {
        assert_eq!(write_private_file(s, false), AfterStep::GiveUp { remove: true });
    }
    assert_eq!(read_failed("f", "gone"), "read f: gone");
    assert_eq!(write_failed("f", "full"), "write f: full");
    assert_eq!(cannot_read("f", "gone"), "cannot read f: gone");
    assert_eq!(cannot_write("f", "full"), "cannot write f: full");
}

#[test]
fn the_reader_listing_comes_before_everything() {
    assert_eq!(run(true, Some(Cmd::Piv), true), Route::Readers);
    assert_eq!(run(false, Some(Cmd::Piv), true), Route::Group(Cmd::Piv));
    assert_eq!(run(false, None, true), Route::OverviewJson);
    assert_eq!(run(false, None, false), Route::Overview);
    assert!(json_output(Some(true)));
    assert!(!json_output(Some(false)));
    assert!(!json_output(None));
}

#[test]
fn a_device_is_told_in_full() {
    let mut caps = Caps::none();
    caps.insert(Cap::Piv);
    assert!(caps.has(Cap::Piv));
    assert!(!caps.has(Cap::Oath));
    let d = Device {
        id: "serial:12345678".into(),
        name: Some("work".into()),
        vendor: "Yubico".into(),
        model: "YubiKey 5".into(),
        serial: "12345678".into(),
        transport: "USB · PC/SC + FIDO HID".into(),
        firmware: String::new(),
        caps,
        unverified: Caps::none(),
        kind: DeviceKind::ProgToken,
        hid_path: None,
        reader: None,
    };
    let badges = vec![("FIDO2", CapState::Verified), ("OATH", CapState::Unverified), ("PIV", CapState::Unverified)];
    let j = device_json(&d, vec!["FIDO2", "OATH", "PIV"], &badges);
    assert_eq!(j.vendor, "Yubico");
    assert_eq!(j.name.as_deref(), Some("work"));
    assert_eq!(j.kind, "prog-token");
    assert_eq!(j.caps, vec!["FIDO2", "OATH", "PIV"]);
    assert_eq!(j.caps_unverified, vec!["OATH", "PIV"]);
}

#[test]
fn the_listing_shows_readers_and_nodes() {
    let readers = Ok(vec!["Yubico 00".to_string()]);
    let probes = Ok(vec![ReaderProbe {
        reader_name: "Yubico 00".into(),
        is_molto2: false,
        has_oath: true,
        has_openpgp: false,
        has_piv: true,
    }]);
    let hids = Ok(vec![HidRow {
        path: "/dev/hidraw0".into(),
        vendor_id: 0x1050,
        product_id: 0x0407,
        usage_page: 0xf1d0,
        usage: 1,
        product_name: "YubiKey".into(),
        model_label: None,
        serial_number: None,
        ccid_serial: Some("123".into()),
        name: Some("work".into()),
        fido: true,
        bootloader: false,
    }]);
    let all = run_list(false, &readers, &probes, &hids, &None).lines.join("\n");
    assert!(all.contains("  Yubico 00  ->  OATH, PIV"), "{all}");
    assert!(all.contains("serial=123(ccid)"), "{all}");
    assert!(all.contains("[FIDO]"), "{all}");
    assert!(all.contains("name=work"), "{all}");
    let none = run_list(false, &Err("off".into()), &Err("off".into()), &Err("off".into()), &None).lines.join("\n");
    assert!(none.contains("off"), "{none}");
}

#[test]
fn a_node_goes_by_its_own_serial_first() {
    let (usb, ccid) = (Some("A1".to_string()), Some("77".to_string()));
    assert_eq!(effective_serial(&usb, &ccid).as_deref(), Some("A1"));
    assert_eq!(effective_serial(&None, &ccid).as_deref(), Some("77"));
    assert_eq!(effective_serial(&usb, &None).as_deref(), Some("A1"));
    assert_eq!(effective_serial(&None, &None), None);
}

#[test]
fn a_label_is_for_the_products_of_its_vendor() {
    assert_eq!(model_label(7, 7, Some("PIN+")).as_deref(), Some("PIN+"));
    assert_eq!(model_label(7, 7, None), None);
    assert_eq!(model_label(8, 7, Some("PIN+")), None);
}

#[test]
fn a_registry_is_loose_when_others_have_any_right() {
    assert!(!registry_is_loose(0o100600));
    assert!(!registry_is_loose(0o700));
    assert!(registry_is_loose(0o640));
    assert!(registry_is_loose(0o601));
    assert!(registry_is_loose(0o620));
}

#[test]
fn the_environment_check_has_a_line_for_everything() {
    let lines = run_doctor(
        &Ok(vec!["TOKEN2 Molto2 00".to_string(), "Yubico 01".to_string()]),
        "molto2",
        &HidCheck::Nodes(vec![
            NodeCheck { product_name: "A".into(), path: "/dev/hidraw0".into(), access: NodeAccess::Accessible },
            NodeCheck { product_name: "B".into(), path: "/dev/hidraw1".into(), access: NodeAccess::Denied },
        ]),
        &Some(("/etc/rules".to_string(), false)),
        &RegistryCheck::OwnerOnly("/x/keys.json".into()),
    )
    .lines;
    assert_eq!(lines[0], "keyroost doctor — environment check");
    assert_eq!(lines[3], "✓ 2 reader(s):");
    assert_eq!(lines[4], "    TOKEN2 Molto2 00  (Molto2)");
    assert_eq!(lines[5], "    Yubico 01");
    assert_eq!(lines[7], "✓ A (/dev/hidraw0) is accessible");
    assert!(lines[8].starts_with("✗ B (/dev/hidraw1) permission denied"));
    assert!(lines[10].starts_with("– udev rules not found at /etc/rules"));
    assert_eq!(lines[12], "✓ /x/keys.json is owner-only");
    assert_eq!(lines.len(), 13);
    let bare = run_doctor(&Err("off".into()), "molto2", &HidCheck::Unsupported, &None, &RegistryCheck::NoConfigDir);
    assert_eq!(bare.lines[2], "✗ PC/SC unavailable: off");
}

#[test]
fn a_secret_has_one_source() {
    assert!(matches!(read_secret("PIN", Some("VAR"), true), Ok(SecretSource::Env("VAR"))));
    assert!(matches!(read_secret("PIN", None, true), Ok(SecretSource::Stdin)));
    assert_eq!(
        read_secret("old PIN", None, false).unwrap_err(),
        "no source for old PIN: pass --old-pin-env VAR or --old-pin-stdin"
    );
    assert_eq!(secret_from_env("VAR", "PIN", Some("1234".into())), Ok("1234".to_string()));
    assert_eq!(
        secret_from_env("VAR", "PIN", None),
        Err("env var VAR (for PIN) is not set".to_string())
    );
    assert_eq!(secret_from_line(" 1234 \r\n"), " 1234 ");
    assert!(terminal_warning("PIN").starts_with("warning: reading PIN from a terminal"));
    assert!(command_secret_warning("set-seed").starts_with("warning: reading the set-seed secret from a terminal"));
    assert_eq!(
        gather_secret("cmd", "--a, --b", vec![]).unwrap_err(),
        "cmd requires exactly one of --a, --b"
    );
    assert!(matches!(
        gather_secret("cmd", "--a", vec![(SecretEncoding::Hex, SecretSource::Stdin)]),
        Ok((SecretEncoding::Hex, SecretSource::Stdin))
    ));
    assert_eq!(bad_base32("seed", "odd"), "invalid base32 seed: odd");
    assert_eq!(bad_hex("--cred-id", "odd"), "--cred-id is not valid hex: odd");
}

#[test]
fn a_password_from_the_environment_goes_first() {
    assert_eq!(read_password(true, Some(Some("pw".into())), Some("other")), Some("pw".to_string()));
    assert_eq!(read_password(true, Some(None), Some("other")), None);
    assert_eq!(read_password(true, None, Some("pw \r\n")), Some("pw ".to_string()));
    assert_eq!(read_password(false, None, Some("pw")), None);
}

#[test]
fn the_customer_key_is_the_first_that_is_given() {
    let none = KeyArgs { key: None, key_ascii: None, key_env: None, key_ascii_env: None };
    assert!(uses_default_key(&none));
    assert!(matches!(customer_key_choice(&none), KeyChoice::Factory));
    assert_eq!(customer_key_bytes(&none, None, Err("x".into()), vec![9]), Ok(vec![9]));
    let hex = KeyArgs { key: Some("zz".into()), key_ascii: Some("t".into()), key_env: None, key_ascii_env: None };
    assert!(matches!(customer_key_choice(&hex), KeyChoice::Hex("zz")));
    assert_eq!(
        customer_key_bytes(&hex, None, Err("odd".into()), vec![]),
        Err("invalid --key hex: odd".to_string())
    );
    let ascii = KeyArgs { key: None, key_ascii: Some("tä".into()), key_env: None, key_ascii_env: None };
    assert_eq!(customer_key_bytes(&ascii, None, Err("x".into()), vec![]), Ok("tä".as_bytes().to_vec()));
    let env = KeyArgs { key: None, key_ascii: None, key_env: Some("V".into()), key_ascii_env: None };
    assert_eq!(
        customer_key_bytes(&env, None, Err("x".into()), vec![]),
        Err("env var V (--key-env) is not set".to_string())
    );
    let ascii_env = KeyArgs { key: None, key_ascii: None, key_env: None, key_ascii_env: Some("W".into()) };
    assert_eq!(customer_key_bytes(&ascii_env, Some("k".into()), Err("x".into()), vec![]), Ok(vec![b'k']));
    assert!(!uses_default_key(&ascii_env));
}
