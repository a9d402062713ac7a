use keyroost::molto::{
    account_writes, after_op, all_profiles, batch_note, bulk_route, check_seed, check_title, default_key_warning,
    entry_action, entry_slot, entry_writes, import_from, import_plan, import_preview, import_range, import_title, imported_lines, key_source, molto_delete_consent, molto_done,
    molto_reset_consent, run_molto, seed_source, single_entry, supplied, AfterOp, BulkRoute, EntryAction,
    EntryFacts, ImportFrom, MoltoCmd, MoltoOp, ProfileConfig, ProfileSettings, SecretArgs, SlotWrite, DEFAULT_KEY_WARNING, PROBE_REFUSAL,
};
use keyroost::molto_report::{
    delete_preview, deleted_line, drift, molto_info_json, molto_slots_json, molto_slots_table, print_info,
    sweep_until_error, sync_line, title_lines, ProfilePublicData, TokenInfo,
};
use keyroost::probe::{
    answer_line, classify, guess_note, is_destructive, phase_heading, run_probe, send_error_line, Phase, ProbeCall,
};
use keyroost::prog::{
    config_programmed, prog_guard_model, prog_info_json, prog_info_lines, prog_seed_source, resolve_prog_seed,
    run_prog, seed_programmed, DisplayTimeout, HmacAlgo, OtpDigits, ProgCmd, ProgOp, TimeStep, PROG_SEED_SOURCES,
};
use keyroost::secrets::{SecretEncoding, SecretSource};

fn block(title: Option<&str>) -> ProfilePublicData {
    ProfilePublicData {
        title: title.map(String::from),
        flag: 0,
        algorithm: 1,
        time_step: 30,
        time_a: 0,
        time_b: 0,
        digits: 6,
        seed_present: title.is_some(),
    }
}

/// What can go wrong with a read.
#[derive(Debug, PartialEq)]
enum ReadError {
    Truncated,
}

#[test]
fn sweep_keeps_partial_results_up_to_the_failure() {
    let reads = vec![
        (0u8, Ok(block(Some("github")))),
        (1u8, Ok(block(None))),
        (2u8, Err(ReadError::Truncated)),
        // Never reached: the sweep stops at the first failure.
        (3u8, Ok(block(Some("unreachable")))),
    ];
    let (slots, err) = sweep_until_error(reads);
    assert_eq!(slots.len(), 2);
    assert_eq!(slots[0].title.as_deref(), Some("github"));
    let (slot, e) = err.expect("failure must be reported");
    assert_eq!(slot, 2);
    assert!(matches!(e, ReadError::Truncated));
}

#[test]
fn clean_sweep_reports_no_error() {
    let reads: Vec<(u8, Result<ProfilePublicData, ReadError>)> = (0u8..=3).map(|p| (p, Ok(block(None)))).collect();
    let (slots, err) = sweep_until_error(reads);
    assert_eq!(slots.len(), 4);
    assert!(err.is_none());
}

fn no_args() -> SecretArgs {
    SecretArgs { hex: None, other: None, hex_env: None, other_env: None, hex_stdin: false, other_stdin: false }
}

#[test]
fn one_source_of_a_seed_is_taken() {
    let one = SecretArgs { other_env: Some("VAR".into()), ..no_args() };
    assert!(matches!(seed_source(&one), Ok((SecretEncoding::Base32, SecretSource::Env("VAR")))));
    assert!(matches!(key_source(&one), Ok((SecretEncoding::Ascii, SecretSource::Env("VAR")))));
    assert!(matches!(prog_seed_source(&one), Ok((SecretEncoding::Base32, SecretSource::Env("VAR")))));
    let two = SecretArgs { hex: Some("00".into()), hex_stdin: true, ..no_args() };
    assert_eq!(supplied(&two, SecretEncoding::Ascii).len(), 2);
    assert_eq!(
        seed_source(&two).unwrap_err(),
        "set-seed requires exactly one of --hex, --base32, --hex-env, --base32-env, --hex-stdin, --base32-stdin"
    );
    assert_eq!(
        key_source(&no_args()).unwrap_err(),
        "set-customer-key requires exactly one of --hex, --ascii, --hex-env, --ascii-env, --hex-stdin, --ascii-stdin"
    );
    assert_eq!(prog_seed_source(&two).unwrap_err(), PROG_SEED_SOURCES);
}

#[test]
fn seeds_and_titles_have_bounds() {
    assert!(check_seed(1).is_ok());
    assert!(check_seed(63).is_ok());
    assert_eq!(check_seed(64).unwrap_err(), "seed must be 1..=63 bytes, got 64");
    assert_eq!(check_seed(0).unwrap_err(), "seed must be 1..=63 bytes, got 0");
    assert!(check_title("twelve bytes").is_ok());
    assert_eq!(check_title("thirteen byte").unwrap_err(), "title must be 1..=12 bytes");
    // Bytes are counted, not letters.
    assert!(check_title("ääääää").is_ok());
    assert!(check_title("äääääää").is_err());
    assert!(check_title("").is_err());
}

#[test]
fn a_seed_goes_out_only_after_the_key() {
    let cmd = MoltoCmd::Seed { profile: 3, seed: no_args() };
    assert_eq!(
        run_molto(&cmd).unwrap(),
        vec![
            MoltoOp::ReadKey,
            MoltoOp::WarnDefaultKey,
            MoltoOp::Open,
            MoltoOp::ReadInfo,
            MoltoOp::ShowInfo,
            MoltoOp::Authenticate,
            MoltoOp::GatherSeed,
            MoltoOp::WriteSeed(3),
        ]
    );
    assert_eq!(molto_done(MoltoOp::WriteSeed(3)).as_deref(), Some("seed written to profile #3"));
    assert_eq!(molto_done(MoltoOp::Open), None);
    let factory = vec![1, 2, 3];
    assert_eq!(default_key_warning(&vec![1, 2, 3], &factory), Some(DEFAULT_KEY_WARNING));
    assert_eq!(default_key_warning(&vec![1, 2, 4], &factory), None);
    assert_eq!(default_key_warning(&vec![1, 2], &factory), None);
}

#[test]
fn a_profile_is_configured_as_it_was_asked_for() {
    let cmd = MoltoCmd::Config {
        profile: 7,
        algorithm: HmacAlgo::Sha256,
        digits: OtpDigits::Eight,
        time_step: TimeStep::Seconds60,
        display_timeout: DisplayTimeout::Sec120,
    };
    let plan = run_molto(&cmd).unwrap();
    let settings = ProfileSettings {
        display_timeout: DisplayTimeout::Sec120,
        algorithm: HmacAlgo::Sha256,
        digits: OtpDigits::Eight,
        time_step: TimeStep::Seconds60,
    };
    assert_eq!(plan[plan.len() - 1], MoltoOp::Configure(7, settings));
    let config = ProfileConfig {
        display_timeout: DisplayTimeout::Sec120,
        algorithm: HmacAlgo::Sha256,
        digits: OtpDigits::Eight,
        time_step: TimeStep::Seconds60,
        utc_time: 99,
    };
    assert_eq!(settings.at(99), config);
    assert_eq!(molto_done(plan[plan.len() - 1]).as_deref(), Some("profile #7 configured"));
    let nobody = run_molto(&MoltoCmd::SyncTime { profile: None, all: false }).unwrap();
    assert_eq!(nobody[nobody.len() - 1], MoltoOp::RefuseSync);
    assert_eq!(
        run_molto(&MoltoCmd::Probe { yes: false, authed: true, include_destructive: false, slot: 0 }),
        Err(PROBE_REFUSAL.to_string())
    );
}

#[test]
fn a_preview_touches_no_token() {
    let cmd = MoltoCmd::ImportFile {
        path: "f".into(),
        start: 5,
        dry_run: true,
        password_stdin: false,
        password_env: None,
    };
    assert_eq!(run_molto(&cmd).unwrap(), vec![MoltoOp::LoadEntries, MoltoOp::ShowImportPlan]);
}

fn facts(title: &str, secret_len: usize) -> EntryFacts {
    EntryFacts {
        title: title.into(),
        secret_len,
        algorithm: "SHA1".into(),
        digits: 6,
        time_step: "30s".into(),
    }
}

#[test]
fn an_import_stays_within_the_slots() {
    assert_eq!(import_range(98, 2).unwrap(), "found 2 entries; programming slots #98..#99");
    assert_eq!(
        import_range(98, 3).unwrap_err(),
        "3 entries starting at #98 would exceed slot 99 (last slot needed: #100)"
    );
    assert_eq!(entry_slot(98, 1), 99);
    assert!(matches!(entry_action(4, &facts("ok", 20)), EntryAction::Write(_)));
    assert!(matches!(
        entry_action(4, &facts("", 20)),
        EntryAction::Skip(m) if m == "  #4: skipping — entry has no issuer or account to use as title"
    ));
    assert!(matches!(
        entry_action(4, &facts("a\tb", 20)),
        EntryAction::Write(m) if m == "  #4: \"a\\tb\" (20 bytes secret, SHA1, 6 digits)"
    ));
    let preview = import_preview(3, &vec![facts("github", 20)]).lines.join("\n");
    assert!(preview.contains("github"), "{preview}");
    assert!(imported_lines("github", 3, &facts("github", 20), true).lines.join("\n").contains("github"));
}

#[test]
fn every_account_has_a_slot_of_its_own() {
    let entries = vec![facts("one", 20), facts("", 20), facts("three", 20)];
    let plan = import_plan(97, &entries).unwrap();
    assert_eq!(plan.iter().map(|(slot, _)| *slot).collect::<Vec<_>>(), vec![97, 98, 99]);
    assert!(matches!(&plan[0].1, EntryAction::Write(m) if m.starts_with("  #97: \"one\"")));
    assert!(matches!(&plan[1].1, EntryAction::Skip(m) if m.starts_with("  #98: skipping")));
    assert!(matches!(&plan[2].1, EntryAction::Write(m) if m.starts_with("  #99: \"three\"")));
    assert_eq!(entry_writes(&plan[0].1), vec![SlotWrite::Seed, SlotWrite::Title, SlotWrite::Configuration]);
    assert_eq!(entry_writes(&plan[1].1), vec![]);
    assert_eq!(account_writes(), entry_writes(&plan[2].1));
    assert_eq!(
        import_plan(98, &entries).unwrap_err(),
        "3 entries starting at #98 would exceed slot 99 (last slot needed: #100)"
    );
    assert!(import_plan(0, &Vec::new()).unwrap().is_empty());
    assert!(import_plan(100, &Vec::new()).unwrap().is_empty());
    assert_eq!(
        import_plan(101, &Vec::new()).unwrap_err(),
        "0 entries starting at #101 would exceed slot 99 (last slot needed: #100)"
    );
    assert!(import_range(1, usize::MAX).is_err());
}

#[test]
fn all_clocks_are_set_though_one_fails() {
    assert_eq!(all_profiles(), (0..=99u8).collect::<Vec<_>>());
    let plan = run_molto(&MoltoCmd::SyncTime { profile: None, all: true }).unwrap();
    let syncs: Vec<MoltoOp> = (0..=99u8).map(MoltoOp::SyncEach).collect();
    assert_eq!(plan[plan.len() - 101], MoltoOp::Authenticate);
    assert_eq!(plan[plan.len() - 100..], syncs[..]);
    assert!(matches!(after_op(MoltoOp::SyncEach(4), None), AfterOp::GoOn(Some(l)) if l == "synced profile #4"));
    assert!(matches!(
        after_op(MoltoOp::SyncEach(4), Some("busy")),
        AfterOp::Warn(w) if w == "profile #4 failed: busy"
    ));
    let one = run_molto(&MoltoCmd::SyncTime { profile: Some(4), all: false }).unwrap();
    assert_eq!(one[one.len() - 1], MoltoOp::SyncOne(4));
    assert!(matches!(after_op(MoltoOp::SyncOne(4), Some("busy")), AfterOp::Stop));
    assert!(matches!(after_op(MoltoOp::Open, None), AfterOp::GoOn(None)));
}

#[test]
fn an_account_comes_from_one_place() {
    assert!(matches!(import_from(Some("a.png"), None), Ok(ImportFrom::Image("a.png"))));
    assert!(matches!(import_from(None, Some("otpauth://x")), Ok(ImportFrom::Uri("otpauth://x"))));
    assert!(matches!(import_from(None, Some("-")), Ok(ImportFrom::Stdin)));
    assert!(import_from(None, None).is_err());
    assert_eq!(single_entry(1, "a.png"), Ok(()));
    assert!(single_entry(0, "a.png").unwrap_err().contains("no account could be imported"));
    assert!(single_entry(2, "a.png").unwrap_err().starts_with("QR contains 2 accounts"));
    assert_eq!(import_title(Some("mine"), "theirs"), Ok("mine".to_string()));
    assert_eq!(import_title(None, "theirs"), Ok("theirs".to_string()));
    assert!(import_title(Some("far too long a title"), "x").is_err());
}

#[test]
fn an_export_is_read_by_what_it_is() {
    let pw = || Some("pw".to_string());
    assert!(matches!(bulk_route("f", true, false, false, None, false), BulkRoute::Image));
    assert!(matches!(
        bulk_route("f", false, false, false, None, false),
        BulkRoute::NotText(e) if e == "f: neither a text export nor a PNG/JPEG image"
    ));
    assert!(matches!(bulk_route("f", false, true, true, pw(), true), BulkRoute::Encrypted(p) if p == "pw"));
    assert!(matches!(bulk_route("f", false, true, true, None, false), BulkRoute::NeedsPassword(_)));
    assert!(matches!(bulk_route("f", false, true, false, pw(), true), BulkRoute::Plain(true)));
    assert_eq!(
        batch_note(0, 3),
        "note: this is QR 1 of 3 in the export — import the other images too"
    );
}

#[test]
fn a_token_is_wiped_only_on_demand() {
    assert_eq!(
        molto_reset_consent(false, "AB\x1b1"),
        Err("refusing to factory-reset device serial AB 1 without --yes".to_string())
    );
    assert!(molto_reset_consent(true, "AB").is_ok());
    assert_eq!(
        molto_delete_consent(false, 9, "AB"),
        Err("refusing to delete slot #9's seed on device serial AB without --yes".to_string())
    );
    assert_eq!(molto_delete_consent(true, 9, "AB"), Ok(()));
}

#[test]
fn a_clock_is_compared_with_the_host() {
    assert_eq!(drift(100, 90), 10);
    assert_eq!(drift(90, 100), -10);
    let info = TokenInfo { serial: "ABC123".into(), utc_time: 1700000000 };
    let j = molto_info_json(&info, 1700000003);
    assert_eq!(j.serial, "ABC123");
    assert_eq!(j.drift_seconds, -3);
    let (lines, _warning) = print_info(&info, 1700000003);
    assert!(lines.lines.join("\n").contains("ABC123"));
}

#[test]
fn slots_are_shown_with_what_failed() {
    let slots = vec![block(Some("github")), block(None)];
    let j = molto_slots_json("AB", &slots, None).unwrap();
    assert_eq!(j.serial, "AB");
    assert!(molto_slots_json("AB", &slots, Some((2, "gone".into()))).is_err());
    let (lines, end) = molto_slots_table(&slots, false, Some((2, "gone".into())));
    assert!(lines.lines.join("\n").contains("github"));
    assert!(end.unwrap_err().contains("gone"));
    assert!(title_lines(4, &block(Some("github"))).lines.join("\n").contains("github"));
    assert!(delete_preview(4, &block(Some("github"))).contains("github"));
    assert_ne!(deleted_line(4, true), deleted_line(4, false));
    assert_eq!(sync_line(4, None), "synced profile #4");
    assert_eq!(sync_line(4, Some("busy")), "profile #4 failed: busy");
}

#[test]
fn a_sweep_leaves_out_what_changes_something() {
    let careful = run_probe(true, false, 5);
    assert!(careful.plain.iter().all(|c| !is_destructive(c.ins)));
    assert!(careful.secure.iter().all(|c| !is_destructive(c.ins) && c.p2 == 5));
    assert_eq!(careful.plain.len() + (0..=255u8).filter(|i| is_destructive(*i)).count(), 256);
    assert!(careful.guesses.iter().all(|c| !is_destructive(c.ins) && c.p2 == 5));
    assert_eq!(careful.guesses.iter().map(|c| c.ins).collect::<Vec<_>>(), vec![0xb0, 0xca, 0xcb, 0xb2, 0xa4]);
    assert_eq!(guess_note(&careful.guesses[0]), Some("ISO READ BINARY"));
    assert_eq!(guess_note(&careful.guesses[4]), Some("ISO SELECT FILE"));
    let asked = run_probe(true, true, 5);
    assert_eq!(asked.secure.len(), 256);
    assert_eq!(
        asked.guesses.iter().map(|c| c.ins).collect::<Vec<_>>(),
        vec![0xc5, 0xd5, 0xd4, 0xb0, 0xca, 0xcb, 0xb2, 0xa4]
    );
    assert_eq!(guess_note(&asked.guesses[1]), Some("read title? (write is P1=00)"));
    assert_eq!(guess_note(&asked.plain[0]), None);
    let bold = run_probe(false, true, 5);
    assert_eq!(bold.plain.len(), 256);
    assert!(bold.secure.is_empty() && bold.guesses.is_empty());
    assert!(is_destructive(0x56));
    assert!(!is_destructive(0xb0));
}

#[test]
fn answers_worth_showing_are_shown() {
    assert_eq!(classify(true, false, 0x90, 0, 1), Some("✓ ok (data)"));
    assert_eq!(classify(true, false, 0x90, 0, 0), Some("✓ ok (empty)"));
    assert_eq!(classify(false, true, 0x90, 1, 0), Some("⏵ awaiting button (mutating!)"));
    assert_eq!(classify(false, false, 0x6d, 0, 0), None);
    assert_eq!(classify(false, false, 0x6e, 0, 0), None);
    assert_eq!(classify(false, false, 0x69, 0x82, 0), Some("security: needs auth"));
    assert_eq!(classify(false, false, 0x6f, 0, 0), Some("(other)"));
    let call = ProbeCall { cla: 0x80, ins: 0xca, p1: 0, p2: 0x0f };
    assert_eq!(
        answer_line(&call, 0x90, 0, 12, "✓ ok (data)"),
        "  CLA=80 INS=CA P1=00 P2=0F Le=00  →  SW=9000  (12 bytes)  ✓ ok (data)"
    );
    assert_eq!(
        send_error_line(&call, "gone"),
        "  CLA=80 INS=CA P1=00 P2=0F Le=00  →  transmit error: gone"
    );
    assert_eq!(phase_heading(Phase::Secure, 0x0a), "── Phase 2: CLA 0x84 INS sweep, P1=00 P2=0A Le=00 ──");
    assert_eq!(phase_heading(Phase::Guesses, 10), "── Phase 3: targeted read-back guesses on slot #10 ──");
}

#[test]
fn a_short_seed_is_filled_up() {
    assert_eq!(resolve_prog_seed(vec![7; 3]).unwrap(), [vec![7; 3], vec![0; 17]].concat());
    assert_eq!(resolve_prog_seed(vec![7; 20]).unwrap(), vec![7; 20]);
    assert_eq!(resolve_prog_seed(vec![7; 63]).unwrap().len(), 63);
    assert_eq!(resolve_prog_seed(vec![7; 64]).unwrap_err(), "seed must be 1..=63 bytes (got 64)");
    assert_eq!(resolve_prog_seed(vec![]).unwrap_err(), "seed must be 1..=63 bytes (got 0)");
    assert_eq!(seed_programmed(20), "seed programmed (20 bytes).");
    assert_eq!(config_programmed(5), "config programmed (clock set to 5).");
}

#[test]
fn only_a_known_model_is_programmed() {
    assert_eq!(prog_guard_model(Some("C301"), "123"), Ok("[*] C301 (serial 123)".to_string()));
    assert!(prog_guard_model(None, "123").unwrap_err().contains("refusing to program this device"));
    let config = ProgCmd::Config {
        algorithm: HmacAlgo::Sha1,
        time_step: TimeStep::Seconds30,
        display_timeout: DisplayTimeout::Sec15,
    };
    assert_eq!(
        run_prog(&config, 5),
        vec![
            ProgOp::Open,
            ProgOp::GuardModel,
            ProgOp::Authenticate,
            ProgOp::WriteConfig(HmacAlgo::Sha1, TimeStep::Seconds30, DisplayTimeout::Sec15, 5),
        ]
    );
    assert_eq!(run_prog(&ProgCmd::Info, 5), vec![ProgOp::Open, ProgOp::ShowInfo]);
    assert_eq!(run_prog(&ProgCmd::Seed { seed: no_args() }, 5)[0], ProgOp::GatherSeed);
    assert_eq!(prog_info_json(Some("C301"), "1", 9).model.as_deref(), Some("C301"));
    assert_eq!(
        prog_info_lines(None, "1", 9).lines,
        vec!["model:    (unrecognized serial — not a known Token2 model)", "serial:   1", "utc_time: 9"]
    );
}
