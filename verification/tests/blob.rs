use keyroost::blob::{
    blob_done, capacity, choose_ssh_credential, exported_line, large_blob_get_json, large_blob_kind,
    large_blob_list_json, not_a_note, run_fido_large_blob_clear, run_fido_large_blob_delete,
    run_fido_large_blob_export, run_fido_large_blob_get, run_fido_large_blob_list, run_fido_ssh_cert_extract,
    run_fido_ssh_cert_list, ssh_party_hash, without_entry, BlobChange, EntryKind, ExportForm, LargeBlobEntry,
    SshCertInfo, SshCredential,
};
use keyroost::render::{
    cose_algorithm_name, env_prefix_for, format_aaguid, hex_ascii_dump, hex_short, large_blob_bad_index,
    molto_algo_label, preview_note, preview_opaque,
};

fn note(text: &str) -> LargeBlobEntry {
    LargeBlobEntry {
        ciphertext: text.as_bytes().to_vec(),
        orig_size: text.len() as u64,
        is_kr_note: true,
        text: Some(text.to_string()),
        kind: EntryKind::Note(text.to_string()),
    }
}

/// An opaque entry of another service.
fn opaque_entry() -> LargeBlobEntry {
    LargeBlobEntry {
        ciphertext: vec![0xde, 0xad, 0xbe, 0xef, 0x00, 0x99],
        orig_size: 4,
        is_kr_note: false,
        text: None,
        kind: EntryKind::Opaque,
    }
}

#[test]
fn large_blob_list_json_classifies_note_vs_opaque() {
    let entries = vec![note("hello"), opaque_entry()];
    let shaped = large_blob_list_json(&entries, capacity(None, 61));
    assert_eq!(shaped.entries.len(), 2);

    assert_eq!(shaped.entries[0].index, 0);
    assert!(shaped.entries[0].is_note);
    assert_eq!(shaped.entries[0].text.as_deref(), Some("hello"));
    assert_eq!(shaped.entries[0].size, "hello".len() as u64);
    assert_eq!(shaped.entries[0].kind, "note");
    assert!(shaped.entries[0].ssh_cert.is_none());

    assert_eq!(shaped.entries[1].index, 1);
    assert!(!shaped.entries[1].is_note);
    assert!(shaped.entries[1].text.is_none());
    assert_eq!(shaped.entries[1].kind, "opaque");
    assert!(shaped.entries[1].ssh_cert.is_none());

    // Without a limit from the key the least one of the standard counts.
    assert_eq!(shaped.capacity.max_bytes, 1024);
    assert!(shaped.capacity.used_bytes > 0);
    assert_eq!(
        shaped.capacity.free_bytes,
        shaped.capacity.max_bytes - shaped.capacity.used_bytes
    );
}

#[test]
fn large_blob_get_json_carries_hex_for_opaque() {
    let g = large_blob_get_json(&vec![opaque_entry()], 0).unwrap();
    assert_eq!(g.index, 0);
    assert_eq!(g.size, 4);
    assert!(!g.is_note);
    assert!(g.text.is_none());
    assert_eq!(g.kind, "opaque");
    assert_eq!(g.hex, "deadbeef0099");
}

#[test]
fn large_blob_get_json_includes_note_text() {
    let entries = vec![opaque_entry(), opaque_entry(), opaque_entry(), note("a note")];
    let g = large_blob_get_json(&entries, 3).unwrap();
    assert_eq!(g.index, 3);
    assert!(g.is_note);
    assert_eq!(g.kind, "note");
    assert_eq!(g.text.as_deref(), Some("a note"));
    assert!(large_blob_get_json(&entries, 4).is_err());
}

#[test]
fn large_blob_kind_classifies_note_and_opaque() {
    let n = note("hello");
    let (kind, ssh_cert) = large_blob_kind(&n);
    assert_eq!(kind, "note");
    assert!(ssh_cert.is_none());
    assert!(matches!(&n.kind, EntryKind::Note(t) if t == "hello"));

    let o = opaque_entry();
    let (kind, ssh_cert) = large_blob_kind(&o);
    assert_eq!(kind, "opaque");
    assert!(ssh_cert.is_none());
    assert!(matches!(o.kind, EntryKind::Opaque));
}

#[test]
fn preview_note_truncates_and_flattens() {
    assert_eq!(preview_note("line1\nline2"), "line1 line2");
    let long = "x".repeat(100);
    let p = preview_note(&long);
    assert!(p.ends_with('…'));
    assert_eq!(p.chars().count(), 49); // 48 chars + ellipsis
    let exact = "y".repeat(48);
    assert_eq!(preview_note(&exact), exact);
}

#[test]
fn preview_note_renders_hostile_content_inert() {
    let note = "hello\u{1b}]0;pwn\u{07}\u{00AD}world";
    let p = preview_note(note);
    assert!(!p.contains('\u{1b}'));
    assert!(!p.contains('\u{07}'));
    assert!(!p.contains('\u{00AD}'));
    assert!(p.contains("hello"));
}

#[test]
fn preview_opaque_shows_hex_head() {
    let bytes: Vec<u8> = (0u8..20).collect();
    let p = preview_opaque(&bytes);
    assert!(p.starts_with("000102"));
    assert!(p.ends_with('…'));
    assert_eq!(preview_opaque(&[]), "(empty)");
}

#[test]
fn hex_ascii_dump_renders_offset_and_ascii() {
    let dump = hex_ascii_dump(b"ABC");
    assert!(dump.starts_with("00000000"));
    assert!(dump.contains("41 42 43"));
    assert!(dump.contains("|ABC|"));
}

#[test]
fn large_blob_bad_index_message_reflects_len() {
    let empty = large_blob_bad_index(2, 0);
    assert!(empty.contains("empty"), "{empty}");
    let oob = large_blob_bad_index(5, 3);
    assert!(oob.contains("0..=2"), "{oob}");
}

#[test]
fn a_dump_has_a_line_for_every_sixteen_bytes() {
    let bytes: Vec<u8> = (0x41u8..0x55).collect();
    let dump = hex_ascii_dump(&bytes);
    let lines: Vec<&str> = dump.lines().collect();
    assert_eq!(lines.len(), 2);
    assert!(lines[0].starts_with("00000000"));
    assert!(lines[0].ends_with("|ABCDEFGHIJKLMNOP|"));
    assert!(lines[1].starts_with("00000010"));
    assert!(lines[1].ends_with("|QRST|"));
    assert_eq!(hex_ascii_dump(&[]), "");
    assert!(hex_ascii_dump(&[0, 0x1f, 0x7f, 0xff]).contains("|....|"));
}

#[test]
fn identifiers_and_names_are_spelled_out() {
    let mut id = [0u8; 16];
    id[0] = 0xab;
    id[15] = 0x01;
    assert_eq!(format_aaguid(&id), "ab000000-0000-0000-0000-000000000001");
    assert_eq!(cose_algorithm_name(-7), "ES256");
    assert_eq!(cose_algorithm_name(-8), "EdDSA");
    assert_eq!(cose_algorithm_name(-257), "RS256");
    assert_eq!(hex_short(&[0xab, 0xcd]), "abcd");
    assert_eq!(molto_algo_label(1), "SHA1");
    assert_eq!(molto_algo_label(2), "SHA256");
    assert_eq!(env_prefix_for("old PIN"), "old-pin-");
    assert_eq!(env_prefix_for("PIN"), "pin-");
}

#[test]
fn capacity_never_goes_below_zero() {
    let c = capacity(Some(2048), 100);
    assert_eq!((c.max_bytes, c.used_bytes, c.free_bytes), (2048, 100, 1948));
    let full = capacity(None, 5000);
    assert_eq!((full.max_bytes, full.used_bytes, full.free_bytes), (1024, 5000, 0));
}

fn certificate() -> LargeBlobEntry {
    LargeBlobEntry {
        ciphertext: vec![1, 2, 3],
        orig_size: 3,
        is_kr_note: false,
        text: None,
        kind: EntryKind::SshCert(SshCertInfo {
            key_type: "ssh-ed25519-cert-v01@openssh.com".into(),
            serial: 7,
            user_cert: true,
            key_id: "alice".into(),
            principals: vec!["root".into()],
            valid_after: 0,
            valid_before: u64::MAX,
            validity: "forever".into(),
            critical_options: vec![],
            extensions: vec!["permit-pty".into()],
        }),
    }
}

#[test]
fn only_a_certificate_is_exported_as_one() {
    let entries = vec![note("n"), certificate()];
    assert!(matches!(run_fido_large_blob_export(&entries, 0, false), Ok(ExportForm::Raw(b)) if b == b"n".to_vec()));
    assert!(matches!(run_fido_large_blob_export(&entries, 1, true), Ok(ExportForm::Certificate)));
    assert_eq!(
        run_fido_large_blob_export(&entries, 0, true).unwrap_err(),
        "entry 0 is not a recognized SSH certificate; drop --as-cert to export raw bytes"
    );
    assert_eq!(
        run_fido_large_blob_export(&entries, 2, false).unwrap_err(),
        "no entry 2 — valid indices are 0..=1"
    );
    assert_eq!(exported_line(3, "/tmp/x"), "Wrote 3 bytes to /tmp/x");
}

#[test]
fn foreign_entries_are_deleted_with_a_warning() {
    let entries = vec![note("n"), opaque_entry()];
    assert_eq!(run_fido_large_blob_delete(&entries, 0, true), Ok(None));
    assert_eq!(run_fido_large_blob_delete(&entries, 0, false), Ok(None));
    let refused = run_fido_large_blob_delete(&entries, 1, false).unwrap_err();
    assert!(refused.starts_with("REFUSING to delete entry 1: it was NOT created by keyroost"));
    let warned = run_fido_large_blob_delete(&entries, 1, true).unwrap().unwrap();
    assert!(warned.starts_with("WARNING: entry 1 was not created by keyroost"));
    assert!(run_fido_large_blob_delete(&entries, 2, true).is_err());
    assert_eq!(without_entry(vec![1, 2, 3], 1), vec![1, 3]);
}

#[test]
fn clearing_counts_what_is_wiped() {
    let entries = vec![note("n"), opaque_entry()];
    let (warning, refused) = run_fido_large_blob_clear(&entries, false);
    assert!(warning.unwrap().contains("ALL 2 entries (1 opaque/RP-owned"));
    assert_eq!(refused, Err("refusing to clear the large-blob array without --yes".to_string()));
    let (warning, go) = run_fido_large_blob_clear(&entries, true);
    assert_eq!(
        warning.as_deref(),
        Some("WARNING: wiping 1 opaque/RP-owned entry along with everything else.")
    );
    assert_eq!(go, Ok(()));
    assert_eq!(run_fido_large_blob_clear(&vec![note("n")], true), (None, Ok(())));
    assert_eq!(blob_done(BlobChange::Added(3)), "Note added; 3 entries now.");
    assert_eq!(blob_done(BlobChange::Edited(1)), "Note 1 updated.");
    assert_eq!(blob_done(BlobChange::Deleted(0)), "Entry deleted; 0 entries now.");
    assert_eq!(blob_done(BlobChange::Cleared(2)), "Large-blob array cleared (2 entries wiped).");
    assert_eq!(not_a_note(4), "entry 4 is not a keyroost note (can't edit an RP-encrypted entry)");
}

#[test]
fn entries_are_listed_with_a_preview() {
    let lines = run_fido_large_blob_list(&vec![note("hello"), opaque_entry()], capacity(None, 61)).lines;
    let all = lines.join("\n");
    assert!(all.contains("hello"), "{all}");
    assert!(all.contains("deadbeef0099"), "{all}");
    let shown = run_fido_large_blob_get(&vec![note("hello\x1b")], 0).unwrap().lines.join("\n");
    assert!(shown.contains("hello "), "{shown}");
    assert!(!shown.contains('\x1b'));
    assert!(run_fido_large_blob_get(&vec![], 0).is_err());
}

#[test]
fn only_ssh_parties_are_looked_into() {
    assert_eq!(ssh_party_hash("example.com", Some(vec![1])), None);
    assert_eq!(ssh_party_hash("ssh:", Some(vec![1])), Some(vec![1]));
    // The digest of "ssh:", where the key gave none.
    let hash = ssh_party_hash("ssh:", None).unwrap();
    assert_eq!(hash.len(), 32);
    let hex: String = hash.iter().map(|b| format!("{b:02x}")).collect();
    assert_eq!(hex, "e30610e8a162115960fe1ec223e6529c9f4b6e80200dcb5e5c321c8af1e2b1bf");
}

fn ssh(rp_id: &str, has_key: bool, has_cert: bool, cert_valid: bool) -> SshCredential {
    SshCredential { rp_id: rp_id.into(), has_key, has_cert, cert_valid }
}

#[test]
fn one_ssh_credential_is_chosen_or_none() {
    let one = vec![ssh("ssh:", true, true, true)];
    let two = vec![ssh("ssh:a", true, true, true), ssh("ssh:b", true, false, false)];
    assert_eq!(choose_ssh_credential(&one, None), Ok(0));
    assert_eq!(choose_ssh_credential(&two, Some("ssh:b")), Ok(1));
    assert_eq!(
        choose_ssh_credential(&two, None),
        Err("several SSH credentials present; pass --credential <rp-id> (one of: ssh:a, ssh:b)".to_string())
    );
    assert_eq!(
        choose_ssh_credential(&two, Some("ssh:c")),
        Err("no SSH credential with RP ID ssh:c; available: ssh:a, ssh:b".to_string())
    );
    let twins = vec![ssh("ssh:a", true, true, true), ssh("ssh:a", true, true, true)];
    assert_eq!(
        choose_ssh_credential(&twins, Some("ssh:a")),
        Err("multiple credentials share RP id 'ssh:a'; cannot disambiguate".to_string())
    );
    assert!(choose_ssh_credential(&vec![], None).is_err());
    assert!(run_fido_ssh_cert_list(&two).lines.join("\n").contains("certificate"));
}

#[test]
fn a_certificate_is_written_only_when_there_is_one() {
    let ok = ssh("ssh:a", true, true, true);
    assert_eq!(
        run_fido_ssh_cert_extract(&ok, "a-cert.pub", false, false),
        Ok("Wrote SSH certificate to a-cert.pub".to_string())
    );
    assert!(run_fido_ssh_cert_extract(&ok, "a-cert.pub", true, true).is_ok());
    assert_eq!(
        run_fido_ssh_cert_extract(&ok, "a-cert.pub", true, false),
        Err("a-cert.pub already exists; pass --force to overwrite".to_string())
    );
    assert_eq!(
        run_fido_ssh_cert_extract(&ssh("ssh:a", false, false, false), "x", false, false),
        Err("credential 'ssh:a' has no largeBlob key — no certificate is stored for it".to_string())
    );
    assert_eq!(
        run_fido_ssh_cert_extract(&ssh("ssh:a", true, false, false), "x", false, false),
        Err("no SSH certificate found in credential 'ssh:a's largeBlob (no matching entry, or the stored blob is not a certificate)".to_string())
    );
    assert_eq!(
        run_fido_ssh_cert_extract(&ssh("ssh:a", true, true, false), "x", false, false),
        Err("stored blob is not a valid OpenSSH certificate".to_string())
    );
}
