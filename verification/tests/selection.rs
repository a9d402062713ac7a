use keyroost::device::{Cap, Caps, Device, DeviceKind};
use keyroost::otp::{hid_fallback, open_otp, resolve_otp_target, OtpOpen, OtpTarget, OtpTransportArg};
use keyroost::select::{
    announce_reader, has_name, hits_of, reader_device_conflict, reader_for_name, reader_from_name, reader_to_open,
    resolve_reader, resolve_single_device, to_ascii_lower,
};

fn otp_dev(name: &str, hid: Option<&str>, reader: Option<&str>) -> Device {
    let mut caps = Caps::none();
    caps.insert(Cap::Otp);
    Device {
        id: format!("serial:{name}"),
        name: Some(name.to_string()),
        vendor: "Token2".into(),
        model: "PIN+".into(),
        serial: name.to_string(),
        transport: "USB".into(),
        firmware: String::new(),
        caps,
        unverified: Caps::none(),
        kind: DeviceKind::Key,
        hid_path: hid.map(str::to_owned),
        reader: reader.map(str::to_owned),
    }
}

#[test]
fn resolve_otp_target_binds_selected_device_or_fails_closed() {
    let a = otp_dev("keyA", Some("/dev/hidraw0"), Some("Token2 A 00 00"));
    let b = otp_dev("keyB", Some("/dev/hidraw1"), Some("Token2 B 00 00"));
    let devices = vec![a, b];

    // No selector: nothing is resolved, and the caller detects a key.
    assert!(matches!(resolve_otp_target(&devices, None, OtpTransportArg::Auto), Ok(None)));

    // Both interfaces: the selected key's HID path, its own reader kept as a
    // fallback.
    match resolve_otp_target(&devices, Some("keyB"), OtpTransportArg::Auto) {
        Ok(Some(OtpTarget::HidThenReader(p, r))) => {
            assert_eq!(p, "/dev/hidraw1");
            assert_eq!(r, "Token2 B 00 00");
        }
        other => panic!("expected keyB HID path + reader fallback, got {other:?}"),
    }

    // HID alone: a plain HID target.
    let hid_only = vec![otp_dev("solo", Some("/dev/hidraw7"), None)];
    match resolve_otp_target(&hid_only, Some("solo"), OtpTransportArg::Auto) {
        Ok(Some(OtpTarget::HidPath(p))) => assert_eq!(p, "/dev/hidraw7"),
        other => panic!("expected plain HID target, got {other:?}"),
    }

    match resolve_otp_target(&devices, Some("keyA"), OtpTransportArg::Ccid) {
        Ok(Some(OtpTarget::Reader(r))) => assert_eq!(r, "Token2 A 00 00"),
        other => panic!("expected keyA reader, got {other:?}"),
    }

    assert!(resolve_otp_target(&devices, Some("ghost"), OtpTransportArg::Auto).is_err());

    let mut dup = devices.clone();
    dup[0].name = Some("keyB".to_string());
    assert!(resolve_otp_target(&dup, Some("keyB"), OtpTransportArg::Auto).is_err());

    let ccid_only = vec![otp_dev("nfc", None, Some("ACS reader 00"))];
    assert!(resolve_otp_target(&ccid_only, Some("nfc"), OtpTransportArg::Hid).is_err());
}

#[test]
fn reader_for_name_targets_the_named_molto() {
    fn molto(name: &str, reader: &str) -> Device {
        let mut caps = Caps::none();
        caps.insert(Cap::Totp);
        Device {
            id: format!("molto:{reader}"),
            name: Some(name.to_string()),
            vendor: "Token2".into(),
            model: "Molto2".into(),
            serial: name.to_string(),
            transport: "USB · PC/SC".into(),
            firmware: String::new(),
            caps,
            unverified: Caps::none(),
            kind: DeviceKind::Token,
            hid_path: None,
            reader: Some(reader.to_string()),
        }
    }

    let devices = vec![
        molto("deskA", "TOKEN2 Molto2 (AAAA) 00 00"),
        molto("deskB", "TOKEN2 Molto2 (BBBB) 00 00"),
    ];

    assert_eq!(
        reader_for_name(&devices, "deskB").unwrap(),
        "TOKEN2 Molto2 (BBBB) 00 00"
    );
    assert!(reader_for_name(&devices, "nope").is_err());
}

#[test]
fn reader_for_name_is_ambiguous_when_two_devices_share_a_name() {
    fn dev(name: &str, reader: &str) -> Device {
        Device {
            id: format!("reader:{reader}"),
            name: Some(name.to_string()),
            vendor: "X".into(),
            model: "Y".into(),
            serial: String::new(),
            transport: String::new(),
            firmware: String::new(),
            caps: Caps::none(),
            unverified: Caps::none(),
            kind: DeviceKind::Key,
            hid_path: None,
            reader: Some(reader.to_string()),
        }
    }
    let devices = vec![dev("twin", "reader-1"), dev("twin", "reader-2")];
    assert!(reader_for_name(&devices, "twin").is_err());
    assert_eq!(
        reader_for_name(&devices, "twin").unwrap_err(),
        "2 connected devices are named 'twin'; refusing to guess which one"
    );
}

fn dev(name: Option<&str>, otp: bool, hid: Option<&str>, reader: Option<&str>) -> Device {
    let mut caps = Caps::none();
    if otp {
        caps.insert(Cap::Otp);
    }
    Device {
        id: String::new(),
        name: name.map(String::from),
        vendor: String::new(),
        model: String::new(),
        serial: String::new(),
        transport: String::new(),
        firmware: String::new(),
        caps,
        unverified: Caps::none(),
        kind: DeviceKind::Key,
        hid_path: hid.map(String::from),
        reader: reader.map(String::from),
    }
}

/// Every device over a small pool of names and interfaces.
fn pool() -> Vec<Device> {
    let mut all = Vec::new();
    for name in [None, Some("alpha"), Some("beta")] {
        for otp in [false, true] {
            for hid in [None, Some("/dev/hidraw9")] {
                for reader in [None, Some("Acme CCID 00")] {
                    all.push(dev(name, otp, hid, reader));
                }
            }
        }
    }
    all
}

/// Every list of at most two devices of the pool, and each device three times.
fn lists() -> Vec<Vec<Device>> {
    let mut all = vec![Vec::new()];
    for a in pool() {
        all.push(vec![a.clone()]);
        all.push(vec![a.clone(), a.clone(), a.clone()]);
        for b in pool() {
            all.push(vec![a.clone(), b]);
        }
    }
    all
}

#[test]
fn reader_for_name_fails_closed_on_ambiguity() {
    for devices in lists() {
        let named: Vec<_> = devices.iter().filter(|d| d.name.as_deref() == Some("alpha")).collect();
        let got = reader_for_name(&devices, "alpha");
        match named.as_slice() {
            [only] => match &only.reader {
                Some(r) => assert_eq!(got.unwrap(), r.clone()),
                None => assert!(got.is_err()),
            },
            _ => assert!(got.is_err(), "0 or >1 named devices must error"),
        }
    }
}

#[test]
fn resolve_otp_target_binds_exactly_or_errors() {
    for devices in lists() {
        for transport in [OtpTransportArg::Auto, OtpTransportArg::Hid, OtpTransportArg::Ccid] {
            assert!(matches!(resolve_otp_target(&devices, None, transport), Ok(None)));

            let named: Vec<_> = devices
                .iter()
                .filter(|d| d.name.as_deref() == Some("alpha") && d.caps.has(Cap::Otp))
                .collect();
            let got = resolve_otp_target(&devices, Some("alpha"), transport);
            let [only] = named.as_slice() else {
                assert!(got.is_err(), "0 or >1 OTP matches must error");
                continue;
            };
            let expected_endpoint = match transport {
                OtpTransportArg::Hid => only.hid_path.clone().map(|p| (Some(p), None)),
                OtpTransportArg::Ccid => only.reader.clone().map(|r| (None, Some(r))),
                OtpTransportArg::Auto => match (&only.hid_path, &only.reader) {
                    (Some(p), Some(r)) => Some((Some(p.clone()), Some(r.clone()))),
                    (Some(p), None) => Some((Some(p.clone()), None)),
                    (None, Some(r)) => Some((None, Some(r.clone()))),
                    (None, None) => None,
                },
            };
            match (got, expected_endpoint) {
                (Ok(Some(OtpTarget::HidPath(p))), Some((Some(exp), None))) => assert_eq!(p, exp),
                (Ok(Some(OtpTarget::Reader(r))), Some((None, Some(exp)))) => assert_eq!(r, exp),
                (Ok(Some(OtpTarget::HidThenReader(p, r))), Some((Some(ep), Some(er)))) => {
                    assert_eq!(p, ep);
                    assert_eq!(r, er);
                }
                (Err(_), None) => {}
                (got, exp) => {
                    panic!("target must be exactly the contracted endpoint: got={got:?} exp={exp:?}")
                }
            }
        }
    }
}

#[test]
fn a_name_is_looked_for_only_when_one_is_given() {
    let devices = vec![dev(Some("alpha"), false, None, Some("R 00"))];
    assert_eq!(reader_from_name(&devices, None), Ok(None));
    assert_eq!(reader_from_name(&devices, Some("alpha")), Ok(Some("R 00".to_string())));
    assert_eq!(
        reader_from_name(&devices, Some("beta")),
        Err("no connected device is named 'beta' (see `keyroostctl key-name list`)".to_string())
    );
    let blind = vec![dev(Some("alpha"), false, None, None)];
    assert_eq!(
        reader_from_name(&blind, Some("alpha")),
        Err("device 'alpha' has no smart-card (PC/SC) interface for this command".to_string())
    );
    assert!(has_name(&devices[0], "alpha"));
    assert!(!has_name(&devices[0], "alph"));
}

#[test]
fn a_lone_reader_is_used_and_several_are_not_guessed_among() {
    let one = vec!["Yubico YubiKey 00".to_string()];
    let two = vec!["Yubico YubiKey 00".to_string(), "Alcor Micro 01".to_string()];
    assert_eq!(resolve_reader(one.clone(), None, "PIV"), Ok("Yubico YubiKey 00".to_string()));
    assert_eq!(
        resolve_reader(two.clone(), None, "PIV"),
        Err("2 PIV keys connected; pass --reader <substring>: Yubico YubiKey 00; Alcor Micro 01".to_string())
    );
    // A part of the name is enough, in any case.
    assert_eq!(resolve_reader(two.clone(), Some("ALCOR"), "PIV"), Ok("Alcor Micro 01".to_string()));
    assert_eq!(
        resolve_reader(two.clone(), Some("0"), "PIV"),
        Err("'0' matches several readers; be more specific: Yubico YubiKey 00; Alcor Micro 01".to_string())
    );
    assert_eq!(
        resolve_reader(two.clone(), Some("nitro"), "OATH"),
        Err("no OATH reader matches 'nitro'. Connected OATH readers: Yubico YubiKey 00; Alcor Micro 01".to_string())
    );
    assert_eq!(
        resolve_reader(Vec::new(), Some("nitro"), "OATH"),
        Err("no OATH-capable security key found (no reader's OATH applet responded). Plug a key in, and check the smart-card (PC/SC) service is running.".to_string())
    );
    // An explicit reader goes before the one of the named device.
    assert_eq!(
        reader_to_open(two.clone(), Some("Alcor"), Some("Yubico YubiKey 00"), "PIV"),
        Ok("Alcor Micro 01".to_string())
    );
    assert_eq!(
        reader_to_open(two, None, Some("Yubico YubiKey 00"), "PIV"),
        Ok("Yubico YubiKey 00".to_string())
    );
}

#[test]
fn reader_names_are_cleaned_before_they_are_shown() {
    assert_eq!(announce_reader("PIV", "bad\u{1b}name"), "\u{2192} PIV on bad name");
}

#[test]
fn only_ascii_letters_lose_their_case() {
    assert_eq!(to_ascii_lower("AbZ-Ä9"), "abz-Ä9");
}

#[test]
fn set_positions_are_listed_in_order() {
    assert_eq!(hits_of(&vec![true, false, true]), vec![0, 2]);
    assert!(hits_of(&vec![]).is_empty());
}

#[test]
fn a_whole_device_command_needs_one_device() {
    let a = dev(Some("alpha"), false, None, None);
    let b = dev(Some("beta"), false, None, None);
    assert_eq!(resolve_single_device(&[a.clone()], None).unwrap().name.as_deref(), Some("alpha"));
    assert_eq!(
        resolve_single_device(&[a.clone(), b.clone()], Some("beta")).unwrap().name.as_deref(),
        Some("beta")
    );
    assert!(resolve_single_device(&[], None).is_err());
    assert!(resolve_single_device(&[a.clone(), b.clone()], None).is_err());
    assert!(resolve_single_device(&[a.clone(), b], Some("gamma")).is_err());
    assert!(resolve_single_device(&[a.clone(), a], Some("alpha")).is_err());
}

#[test]
fn contradictory_selectors_are_named_in_the_refusal() {
    assert_eq!(
        reader_device_conflict(Some("r"), Some("d")),
        Err(keyroost::select::READER_DEVICE_CONFLICT.to_string())
    );
}

#[test]
fn a_selected_otp_key_is_opened_and_never_detected() {
    let devices = vec![otp_dev("keyA", Some("/dev/hidraw0"), Some("Token2 A 00 00"))];
    assert!(matches!(open_otp(&devices, None, OtpTransportArg::Hid), Ok(OtpOpen::Detect(OtpTransportArg::Hid))));
    assert!(matches!(
        open_otp(&devices, Some("keyA"), OtpTransportArg::Hid),
        Ok(OtpOpen::Target(OtpTarget::HidPath(_)))
    ));
    assert!(open_otp(&devices, Some("keyB"), OtpTransportArg::Auto).is_err());
}

#[test]
fn only_a_key_with_both_interfaces_falls_back() {
    let both = OtpTarget::HidThenReader("/dev/hidraw1".into(), "Token2 B".into());
    let (reader, _note) = hid_fallback(&both, "no answer").unwrap();
    assert_eq!(reader, "Token2 B");
    assert!(hid_fallback(&OtpTarget::HidPath("/dev/hidraw1".into()), "no answer").is_none());
    assert!(hid_fallback(&OtpTarget::Reader("Token2 B".into()), "no answer").is_none());
}
