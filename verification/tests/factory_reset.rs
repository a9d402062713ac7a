use keyroost::device::{Cap, Caps, Device, DeviceKind, HidDevice};
use keyroost::factory_reset::{
    candidates_of, describe_present, factory_reset_consent, fido_reset_after_replug, hid_ids_at, look_again,
    match_reinsert, not_present_message, not_present_reason, outcome_line, pin_target, piv_factory_reset_failure,
    piv_step_error, reinsert_settled, reinserted_match, reinserted_serial_less_target, reinserted_target, reset_banner,
    run_factory_reset,
    same_product, step_outcome, step_route, Candidate, NotPresentReason, PinnedKey, PivResetError, PlannedStep,
    ReinsertMatch, ResetRun, ResetStep, StepOutcome, StepRoute, FACTORY_RESET_CONSENT,
};
use keyroost::select::reader_device_conflict;

#[test]
fn factory_reset_refuses_contradictory_reader_and_device() {
    // Both --reader and --device set is a contradiction on a WIPE command
    // (the banner would name one key while the card steps opened another);
    // refuse rather than silently pick one.
    assert!(reader_device_conflict(Some("Alcor 00"), Some("work-key")).is_err());
    // Either alone, or neither, is fine.
    assert!(reader_device_conflict(Some("Alcor 00"), None).is_ok());
    assert!(reader_device_conflict(None, Some("work-key")).is_ok());
    assert!(reader_device_conflict(None, None).is_ok());
}

#[test]
fn factory_reset_fido_step_only_accepts_the_confirmed_key() {
    // The same key replugged: its serial is still there, so the reset goes
    // ahead on that one device.
    assert_eq!(
        reinserted_target("12345678", &["12345678"]),
        ReinsertMatch::Found(0)
    );
    // …and is found among other connected keys, not just alone.
    assert_eq!(
        reinserted_target("12345678", &["87654321", "12345678"]),
        ReinsertMatch::Found(1)
    );
    // A different key in the port at the prompt is refused — this is the
    // whole point: a FIDO reset wipes every passkey and the PIN, and the
    // product name / hidraw path of a same-model key looks identical.
    assert_eq!(
        reinserted_target("12345678", &["87654321"]),
        ReinsertMatch::NotPresent
    );
    // Nothing plugged back in yet.
    assert_eq!(
        reinserted_target("12345678", &[]),
        ReinsertMatch::NotPresent
    );
}

#[test]
fn factory_reset_fido_step_fails_closed_without_an_identity() {
    // Neither side has a serial: same-model-in-the-same-port is not an
    // identity, so the serial rule must NOT match (KEY-005, as in the GUI).
    // The serial-less fallback in `reinserted_serial_less_target` is what
    // decides this case, and only when the key is the sole candidate.
    assert_eq!(reinserted_target("", &[""]), ReinsertMatch::NotPresent);
    // The expected key has no serial: nothing can ever match it.
    assert_eq!(
        reinserted_target("", &["12345678"]),
        ReinsertMatch::NotPresent
    );
    // The key that came back has none: not the confirmed key either.
    assert_eq!(
        reinserted_target("12345678", &["", ""]),
        ReinsertMatch::NotPresent
    );
    // A serial several connected keys report identifies none of them
    // (KEY-015) — refuse rather than wipe the first hit.
    assert_eq!(
        reinserted_target("12345678", &["12345678", "12345678"]),
        ReinsertMatch::Ambiguous
    );
}

/// Terse `Candidate` builder so the match tests read as tables. No USB ids:
/// the cases below are about serials and the sole-candidate rule, and with
/// the ids unknown `same_product` falls back to the model name.
fn cand<'a>(serial: &'a str, model: &'a str, fido: bool) -> Candidate<'a> {
    Candidate {
        serial,
        model,
        ids: None,
        fido,
    }
}

/// `cand` with USB ids, for the cases where the ids are what decides.
fn cand_ids<'a>(serial: &'a str, model: &'a str, ids: (u16, u16), fido: bool) -> Candidate<'a> {
    Candidate {
        serial,
        model,
        ids: Some(ids),
        fido,
    }
}

#[test]
fn factory_reset_fido_step_accepts_a_lone_serial_less_key() {
    // A FIDO-only key with no USB iSerialNumber and no CCID reader resolves
    // to an empty serial. It is the only thing connected, it is the model
    // the reset was confirmed for, and it answers over FIDO: there is
    // nothing else it could be, so the reset goes ahead.
    assert_eq!(
        reinserted_match("", "Security Key", None, &[cand("", "Security Key", true)]),
        ReinsertMatch::Found(0)
    );
}

#[test]
fn factory_reset_fido_step_refuses_a_serial_less_key_it_cannot_isolate() {
    // A second key in sight and the "nothing else it could be" argument is
    // gone — there is no serial left to tell them apart with.
    assert_eq!(
        reinserted_match(
            "",
            "Security Key",
            None,
            &[
                cand("", "Security Key", true),
                cand("12345678", "YubiKey", true)
            ]
        ),
        ReinsertMatch::Ambiguous
    );
    // Two identical serial-less keys are the case this rule exists for.
    assert_eq!(
        reinserted_match(
            "",
            "Security Key",
            None,
            &[
                cand("", "Security Key", true),
                cand("", "Security Key", true)
            ]
        ),
        ReinsertMatch::Ambiguous
    );
    // A different model came back: not the confirmed key.
    assert_eq!(
        reinserted_match("", "Security Key", None, &[cand("", "Solo 2", true)]),
        ReinsertMatch::NotPresent
    );
    // The lone key now reports a serial, so it is not the serial-less key
    // the reset was confirmed for.
    assert_eq!(
        reinserted_match(
            "",
            "Security Key",
            None,
            &[cand("12345678", "Security Key", true)]
        ),
        ReinsertMatch::NotPresent
    );
    // Right model, no serial, but no FIDO HID interface to reset over.
    assert_eq!(
        reinserted_match("", "Security Key", None, &[cand("", "Security Key", false)]),
        ReinsertMatch::NotPresent
    );
    // Nothing plugged back in yet.
    assert_eq!(
        reinserted_match("", "Security Key", None, &[]),
        ReinsertMatch::NotPresent
    );
}

#[test]
fn factory_reset_serial_less_rule_is_out_of_reach_when_a_serial_is_known() {
    // The looser sole-candidate rule must never be what accepts a key whose
    // identity is knowable: with a serial pinned, a lone serial-less key of
    // the same model is refused, however unambiguous it looks.
    assert_eq!(
        reinserted_match(
            "12345678",
            "Security Key",
            None,
            &[cand("", "Security Key", true)]
        ),
        ReinsertMatch::NotPresent
    );
    // …and the serial path still decides the cases it always did.
    assert_eq!(
        reinserted_match(
            "12345678",
            "Security Key",
            None,
            &[cand("12345678", "Security Key", true)]
        ),
        ReinsertMatch::Found(0)
    );
    // A match on serial stands even when the model name differs (a relabel
    // or a firmware-changed product string is not a mismatch of identity).
    assert_eq!(
        reinserted_match(
            "12345678",
            "Security Key",
            None,
            &[
                cand("87654321", "Solo 2", true),
                cand("12345678", "YubiKey 5", true)
            ]
        ),
        ReinsertMatch::Found(1)
    );
    // A different key in the port at the prompt is refused.
    assert_eq!(
        reinserted_match(
            "12345678",
            "Security Key",
            None,
            &[cand("87654321", "Security Key", true)]
        ),
        ReinsertMatch::NotPresent
    );
    // A serial several connected keys report identifies none of them.
    assert_eq!(
        reinserted_match(
            "12345678",
            "Security Key",
            None,
            &[
                cand("12345678", "Security Key", true),
                cand("12345678", "Security Key", true)
            ]
        ),
        ReinsertMatch::Ambiguous
    );
}

#[test]
fn factory_reset_only_calls_it_a_different_key_when_every_key_names_itself() {
    // A YubiKey publishes no USB iSerialNumber, so right after a replug it
    // is visible over HID with an empty serial and its real one only lands
    // once the reader re-registers. That is the key coming back, not a
    // swap — it must not be reported as one.
    assert_eq!(
        not_present_reason(&[""]),
        NotPresentReason::Unidentified,
        "a key that hasn't published its serial yet is not a different key"
    );
    // Same when it is one of several: anything unidentified leaves the
    // question open.
    assert_eq!(
        not_present_reason(&["87654321", ""]),
        NotPresentReason::Unidentified
    );
    // Nothing back in the port yet — also not an accusation.
    assert_eq!(not_present_reason(&[]), NotPresentReason::Unidentified);

    // A CCID-only token (a Molto2
    // in another port) reports no serial and has no FIDO interface, so it
    // can never be the key being waited for. Its serial must not reach this
    // function — the caller filters on `hid_path` — or a genuine swap gets
    // reported as "that is not a different key" while the different key is
    // sitting right there. The list below is what the caller now passes for
    // {Solo 2 present, Molto2 present, YubiKey pinned and absent}.
    assert_eq!(
        not_present_reason(&["07A9568FBE31AD5DAD1F2298476CF0D4"]),
        NotPresentReason::DifferentKey,
        "a serial-less non-FIDO device must not mask a real mismatch"
    );
    // Every visible key names itself and none of them is the pinned one:
    // now, and only now, is a mismatch a fact.
    assert_eq!(
        not_present_reason(&["87654321"]),
        NotPresentReason::DifferentKey
    );
    assert_eq!(
        not_present_reason(&["87654321", "11112222"]),
        NotPresentReason::DifferentKey
    );
}

#[test]
fn factory_reset_unidentified_key_is_not_accused_of_being_a_swap() {
    // The message the empty-serial case produces must not claim a swap, and
    // must name the command that finishes the wipe without re-running the
    // race — `factory-reset --yes` would just replay it.
    let msg = not_present_message(
        "YubiKey 5",
        "12345678",
        3,
        "YubiKey 5 with no serial",
        not_present_reason(&[""]),
    );
    assert!(
        !msg.contains("is not the one this factory reset was confirmed for"),
        "must not accuse a swap: {msg}"
    );
    assert!(msg.contains("did not come back with an identity"), "{msg}");
    assert!(msg.contains("card interface"), "must say why: {msg}");
    assert!(
        msg.contains("`keyroostctl fido reset --yes`"),
        "must name the way to finish the wipe: {msg}"
    );

    // …and the genuine mismatch still refuses in as many words.
    let msg = not_present_message(
        "YubiKey 5",
        "12345678",
        3,
        "YubiKey 5 serial 87654321",
        not_present_reason(&["87654321"]),
    );
    assert!(
        msg.contains("is not the one this factory reset was confirmed for"),
        "{msg}"
    );
    assert!(msg.contains("87654321"), "{msg}");
    assert!(
        !msg.contains("fido reset"),
        "a different key must not be offered a shortcut to wiping it: {msg}"
    );
}

#[test]
fn factory_reset_serial_less_key_is_matched_by_usb_ids_not_model_name() {
    // The model name is read from the PC/SC reader name before the replug
    // and from the HID product string after it. For a vendor whose reader
    // name we don't normalize the two differ, and comparing them refuses
    // the very key that just came back. The USB ids don't drift.
    const NITROKEY: (u16, u16) = (0x20a0, 0x42b2);
    assert_eq!(
        reinserted_serial_less_target(
            "Nitrokey 3",
            Some(NITROKEY),
            &[cand_ids("", "Nitrokey 3 NFC", NITROKEY, true)]
        ),
        ReinsertMatch::Found(0),
        "same product, differently spelled model name: still the same key"
    );
    // A different product in the port is still refused — the ids are what
    // does the disqualifying now.
    assert_eq!(
        reinserted_serial_less_target(
            "Nitrokey 3",
            Some(NITROKEY),
            &[cand_ids("", "Nitrokey 3", (0x1050, 0x0407), true)]
        ),
        ReinsertMatch::NotPresent
    );
    // With the ids unknown on one side there is nothing better than the
    // model name, so that rule stays in place as the fallback.
    assert_eq!(
        reinserted_serial_less_target("Nitrokey 3", None, &[cand("", "Nitrokey 3", true)]),
        ReinsertMatch::Found(0)
    );
    assert_eq!(
        reinserted_serial_less_target("Nitrokey 3", None, &[cand("", "Solo 2", true)]),
        ReinsertMatch::NotPresent
    );
    // Matching ids do not loosen anything else: a second key still refuses,
    // and a key with a serial is not the serial-less one that was pinned.
    assert_eq!(
        reinserted_serial_less_target(
            "Nitrokey 3",
            Some(NITROKEY),
            &[
                cand_ids("", "Nitrokey 3", NITROKEY, true),
                cand_ids("", "Nitrokey 3", NITROKEY, true)
            ]
        ),
        ReinsertMatch::Ambiguous
    );
    assert_eq!(
        reinserted_serial_less_target(
            "Nitrokey 3",
            Some(NITROKEY),
            &[cand_ids("12345678", "Nitrokey 3", NITROKEY, true)]
        ),
        ReinsertMatch::NotPresent
    );
}

#[test]
fn factory_reset_keeps_polling_for_a_key_that_came_back_card_first() {
    // The card side re-registered before the hidraw node existed: the key
    // is the right one, but there is nothing to send CTAP over yet. Acting
    // on it fails with "came back without a FIDO HID interface" while the
    // budget that exists for exactly this moment is unspent — so keep
    // polling instead.
    let half = [cand("12345678", "YubiKey 5", false)];
    assert!(!reinsert_settled(&ReinsertMatch::Found(0), &half));
    // Once the FIDO interface shows up there is nothing left to wait for.
    let whole = [cand("12345678", "YubiKey 5", true)];
    assert!(reinsert_settled(&ReinsertMatch::Found(0), &whole));
    // Nothing matched yet: keep looking until the deadline.
    assert!(!reinsert_settled(&ReinsertMatch::NotPresent, &whole));
    // Ambiguous stops at once, in both directions: a second key claiming
    // the pinned identity is not something waiting can resolve, and the
    // wait would only be spent to refuse anyway.
    assert!(reinsert_settled(&ReinsertMatch::Ambiguous, &half));
    assert!(reinsert_settled(&ReinsertMatch::Ambiguous, &whole));
}

#[test]
fn piv_factory_reset_failure_points_at_the_reset_that_can_finish() {
    // A fault in the PUK loop leaves the PIN blocked and the PUK not, and
    // the card refuses RESET until both are — so `piv reset` cannot finish
    // the job in the state this message accompanies. Only re-running the
    // factory reset works whether one credential ended up blocked or both.
    let msg = piv_factory_reset_failure("PIV: unexpected status 6A80");
    assert!(msg.contains("PIV: unexpected status 6A80"), "{msg}");
    assert!(
        !msg.contains("piv reset"),
        "must not point at a command the card would refuse: {msg}"
    );
    assert!(msg.contains("`keyroostctl factory-reset`"), "{msg}");
    assert!(
        msg.contains("not bricked"),
        "the user needs to know the card is recoverable: {msg}"
    );
}

#[test]
fn factory_reset_consent_does_not_promise_the_key_stays_usable() {
    // PIV's wipe blocks the PIN and PUK before erasing, so a run that stops
    // in between leaves that applet locked and un-wiped. Consent must not
    // be asked for on a promise the tool can't keep.
    assert!(!FACTORY_RESET_CONSENT.contains("stays usable"));
    assert!(!FACTORY_RESET_CONSENT.contains("stays fully usable"));
    assert!(
        FACTORY_RESET_CONSENT.contains("Each applet that completes comes back in factory condition"),
        "{FACTORY_RESET_CONSENT}"
    );
}

#[test]
fn nothing_is_wiped_without_consent() {
    assert_eq!(factory_reset_consent(false), Err(FACTORY_RESET_CONSENT.to_string()));
    assert_eq!(factory_reset_consent(true), Ok(()));
}

fn key(serial: &str, model: &str, hid: Option<&str>, reader: Option<&str>) -> Device {
    let mut caps = Caps::none();
    if hid.is_some() {
        caps.insert(Cap::Fido2);
    }
    Device {
        id: format!("serial:{serial}"),
        name: None,
        vendor: "Yubico".into(),
        model: model.into(),
        serial: serial.into(),
        transport: "USB".into(),
        firmware: String::new(),
        caps,
        unverified: Caps::none(),
        kind: DeviceKind::Key,
        hid_path: hid.map(str::to_owned),
        reader: reader.map(str::to_owned),
    }
}

fn node(path: &str, vendor_id: u16, product_id: u16) -> HidDevice {
    HidDevice { path: path.into(), vendor_id, product_id, product_name: "YubiKey".into() }
}

fn pinned(serial: &str, model: &str) -> PinnedKey {
    PinnedKey {
        serial: serial.into(),
        model: model.into(),
        ids: Some((0x1050, 0x0407)),
        hid_path: Some("/dev/hidraw0".into()),
        reader: None,
    }
}

#[test]
fn the_key_to_wipe_is_pinned_with_its_identity() {
    let devices = vec![key("12345678", "YubiKey 5", Some("/dev/hidraw0"), Some("R 00"))];
    let hids = vec![node("/dev/hidraw1", 1, 2), node("/dev/hidraw0", 0x1050, 0x0407)];
    let k = pin_target(&devices, &hids, None, None).unwrap();
    assert_eq!(k.serial, "12345678");
    assert_eq!(k.model, "YubiKey 5");
    assert_eq!(k.ids, Some((0x1050, 0x0407)));
    assert_eq!(k.hid_path.as_deref(), Some("/dev/hidraw0"));
    assert_eq!(k.reader.as_deref(), Some("R 00"));
    assert!(pin_target(&devices, &hids, Some("R"), Some("x")).is_err());
    assert!(pin_target(&[], &hids, None, None).is_err());
    assert_eq!(hid_ids_at(Some("/dev/hidraw0"), &hids), Some((0x1050, 0x0407)));
    assert_eq!(hid_ids_at(Some("/dev/hidraw7"), &hids), None);
    assert_eq!(hid_ids_at(None, &hids), None);
    let cands = candidates_of(&devices, &hids);
    assert_eq!(cands[0], cand_ids("12345678", "YubiKey 5", (0x1050, 0x0407), true));
}

#[test]
fn only_the_pinned_key_is_handed_to_the_reset() {
    let hids = vec![node("/dev/hidraw3", 0x1050, 0x0407)];
    let same = vec![key("12345678", "YubiKey 5", Some("/dev/hidraw3"), None)];
    let other = vec![key("87654321", "YubiKey 5", Some("/dev/hidraw3"), None)];
    let twice = vec![same[0].clone(), same[0].clone()];
    let k = pinned("12345678", "YubiKey 5");
    assert_eq!(fido_reset_after_replug(&k, &same, &hids), Ok("/dev/hidraw3".to_string()));
    let refused = fido_reset_after_replug(&k, &other, &hids).unwrap_err();
    assert!(refused.contains("87654321"), "{refused}");
    assert!(fido_reset_after_replug(&k, &twice, &hids).is_err());
    assert!(fido_reset_after_replug(&k, &[], &hids).is_err());
    // Back in sight, but without the interface the reset goes over.
    let blind = vec![key("12345678", "YubiKey 5", None, Some("R 00"))];
    assert!(fido_reset_after_replug(&k, &blind, &hids).is_err());
    assert_eq!(match_reinsert(&k, &same, &hids), (ReinsertMatch::Found(0), true));
    assert_eq!(match_reinsert(&k, &blind, &hids), (ReinsertMatch::Found(0), false));
    // Without a serial the product ids decide, and the key has to be alone.
    let nameless = pinned("", "Security Key");
    let back = vec![key("", "Security Key NFC", Some("/dev/hidraw3"), None)];
    assert_eq!(fido_reset_after_replug(&nameless, &back, &hids), Ok("/dev/hidraw3".to_string()));
    assert!(fido_reset_after_replug(&nameless, &same, &hids).is_err());
    assert!(same_product("Security Key", Some((0x1050, 0x0407)), &cand_ids("", "x", (0x1050, 0x0407), true)));
    assert!(!same_product("Security Key", Some((0x1050, 0x0407)), &cand_ids("", "Security Key", (1, 2), true)));
}

#[test]
fn the_wait_for_a_replug_ends() {
    assert!(look_again(false, 0));
    assert!(look_again(false, 2699));
    assert!(!look_again(false, 2700));
    assert!(!look_again(false, u64::MAX));
    assert!(!look_again(true, 0));
}

#[test]
fn visible_keys_are_described_one_by_one() {
    assert_eq!(describe_present(&[]), "no connected key");
    let two = vec![key("12345678", "YubiKey 5", None, None), key("", "Solo\u{202e}2", None, None)];
    assert_eq!(describe_present(&two), "YubiKey 5 serial 12345678, Solo 2 with no serial");
}

#[test]
fn a_reset_names_its_key_and_its_steps() {
    let plan = vec![
        PlannedStep { step: ResetStep::Oath, label: "OATH".into() },
        PlannedStep { step: ResetStep::Fido, label: "FIDO2".into() },
    ];
    let k = pinned("12345678", "YubiKey 5");
    assert_eq!(
        reset_banner(&k, &plan),
        Ok("\u{2192} factory-resetting 12345678 (OATH, FIDO2)".to_string())
    );
    assert_eq!(
        reset_banner(&k, &Vec::new()),
        Err("'YubiKey 5' exposes no resettable applet (nothing to factory-reset)".to_string())
    );
}

#[test]
fn fido_is_reset_where_the_key_can_be_power_cycled() {
    let mut k = pinned("12345678", "YubiKey 5");
    assert!(matches!(step_route(ResetStep::Piv, &k), StepRoute::CardApplet));
    assert!(matches!(step_route(ResetStep::Fido, &k), StepRoute::FidoAfterReplug));
    k.hid_path = None;
    k.reader = Some("R 00".into());
    assert!(matches!(step_route(ResetStep::Fido, &k), StepRoute::FidoInReader(r) if r == "R 00"));
    k.reader = None;
    assert!(matches!(step_route(ResetStep::Fido, &k), StepRoute::FidoWithoutReader(_)));
}

#[test]
fn a_piv_step_explains_only_what_does_not_explain_itself() {
    for kind in [
        PivResetError::ForceResetUnsupported,
        PivResetError::ForceResetIncomplete,
        PivResetError::PukGuessAccepted,
    ] {
        assert_eq!(piv_step_error(kind, "why"), "why");
    }
    assert_eq!(piv_step_error(PivResetError::Other, "why"), piv_factory_reset_failure("why"));
}

#[test]
fn a_failed_step_does_not_stop_the_run() {
    let plan = vec![
        PlannedStep { step: ResetStep::Oath, label: "OATH".into() },
        PlannedStep { step: ResetStep::Piv, label: "PIV".into() },
    ];
    let mut run = ResetRun::new(plan);
    assert_eq!(run.next_step(), Some(ResetStep::Oath));
    assert_eq!(run.record(step_outcome(Err("no\x1b answer".into()))), "OATH     failed: no  answer");
    assert_eq!(run.next_step(), Some(ResetStep::Piv));
    assert_eq!(run.record(step_outcome(Ok(()))), "PIV      wiped");
    assert_eq!(run.next_step(), None);
    assert_eq!(
        run.summary(),
        (
            "factory reset: 1 wiped, 1 failed".to_string(),
            Err("1 applet(s) failed to reset".to_string())
        )
    );
    assert_eq!(outcome_line("FIDO2", &StepOutcome::Skipped), "FIDO2    skipped");
}

#[test]
fn a_reset_begins_on_the_one_confirmed_key() {
    let devices = vec![key("12345678", "YubiKey 5", Some("/dev/hidraw0"), None)];
    let hids = vec![node("/dev/hidraw0", 0x1050, 0x0407)];
    let plan = || {
        vec![
            PlannedStep { step: ResetStep::Oath, label: "OATH".into() },
            PlannedStep { step: ResetStep::Fido, label: "FIDO2".into() },
        ]
    };
    let started = run_factory_reset(true, &devices, &hids, None, None, vec![plan()]).ok().unwrap();
    assert_eq!(started.key.serial, "12345678");
    assert_eq!(started.banner, "\u{2192} factory-resetting 12345678 (OATH, FIDO2)");
    assert_eq!(started.run.next_step(), Some(ResetStep::Oath));

    let refused = |yes, reader, name, plans| run_factory_reset(yes, &devices, &hids, reader, name, plans).err();
    assert_eq!(refused(false, None, None, vec![plan()]), Some(FACTORY_RESET_CONSENT.to_string()));
    assert!(refused(true, Some("R"), Some("x"), vec![plan()]).unwrap().starts_with("pass either --reader"));
    assert_eq!(
        refused(true, None, Some("x"), vec![plan()]),
        Some("no connected device is named 'x' (see `keyroostctl key-name list`)".to_string())
    );
    assert_eq!(
        refused(true, None, None, vec![Vec::new()]),
        Some("'YubiKey 5' exposes no resettable applet (nothing to factory-reset)".to_string())
    );
}

#[test]
fn a_reset_needs_a_choice_among_several_keys() {
    let devices = vec![key("1", "A", None, Some("R")), key("2", "B", None, Some("S"))];
    assert_eq!(
        run_factory_reset(true, &devices, &[], None, None, vec![Vec::new(), Vec::new()]).err(),
        Some("2 keys are connected; select one with `--device <name>` before factory-resetting".to_string())
    );
    assert_eq!(
        run_factory_reset(true, &[], &[], None, None, Vec::new()).err(),
        Some("no security key detected".to_string())
    );
}
