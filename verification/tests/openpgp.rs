use keyroost::openpgp::{
    algorithm_lines, decrypt_kind, decrypted_noun, decrypting_line, delivered_line, fingerprint, generated_label,
    generating_key, import_progress, import_source, imported_key_lines, importing_key, openpgp_done,
    openpgp_reset_consent, openpgp_sign_input, openpgp_status_json, openpgp_status_lines, print_fingerprint,
    print_openpgp_public_key, registered_lines, run_openpgp, sign_framing, signing_line, Decryption, Framing,
    OpenpgpCmd, OpenpgpKeyAlg, OpenpgpPinKind, OpenpgpSlot, OpenpgpStatus, PgpOp, PgpPublicKey, PgpSecret, SignHash,
    SlotAlgorithms,
};
use keyroost::secrets::SecretOpts;

/// The digest of "hello" under SHA-256.
const HELLO_256: &str = "2cf24dba5fb0a30e26e83b2ac5b9e29e1b161e5c1fa7425e73043362938b9824";

/// The digest of "hello" under SHA-1.
const HELLO_1: &str = "aaf4c61ddcc5e8a2dabede0f3b482cd9aea9434d";

fn hex(bytes: &[u8]) -> String {
    bytes.iter().map(|b| format!("{b:02x}")).collect()
}

fn opts() -> SecretOpts {
    SecretOpts { env: Some("VAR".into()), stdin: false }
}

#[test]
fn openpgp_sign_input_framing_follows_the_slot_algorithm() {
    let data = b"hello";
    let rsa = [0x01, 0x08, 0x00, 0x00, 0x20, 0x02];
    let ecdsa = [0x13, 0x2A, 0x86, 0x48, 0xCE, 0x3D, 0x03, 0x01, 0x07];
    let ed = [0x16, 0x2B, 0x06, 0x01, 0x04, 0x01, 0xDA, 0x47, 0x0F, 0x01];
    assert_eq!(
        openpgp_sign_input("signature", &rsa, false, SignHash::Sha256, data).unwrap(),
        SignHash::Sha256.digest_info(data)
    );
    assert_eq!(
        hex(&openpgp_sign_input("signature", &ecdsa, true, SignHash::Sha256, data).unwrap()),
        HELLO_256
    );
    assert_eq!(
        hex(&openpgp_sign_input("signature", &ed, true, SignHash::Sha256, data).unwrap()),
        HELLO_256
    );
    // Unknown or empty attributes: refuse to guess rather than assume RSA.
    let err = openpgp_sign_input("signature", &[], false, SignHash::Sha1, data).unwrap_err();
    assert!(
        err.contains("cannot tell the signature slot's algorithm"),
        "{err}"
    );
    // SHA-1 is refused on an ECC signing key.
    let err = openpgp_sign_input("signature", &ed, true, SignHash::Sha1, data).unwrap_err();
    assert!(
        err.contains("SHA-1 cannot be used with an ECC signing key"),
        "{err}"
    );
}

#[test]
fn a_digest_info_is_a_prefix_and_a_digest() {
    let info = SignHash::Sha256.digest_info(b"hello");
    assert_eq!(hex(&info[..19]), "3031300d060960864801650304020105000420");
    assert_eq!(hex(&info[19..]), HELLO_256);
    let info = SignHash::Sha1.digest_info(b"hello");
    assert_eq!(hex(&info[..15]), "3021300906052b0e03021a05000414");
    assert_eq!(hex(&info[15..]), HELLO_1);
    assert_eq!(hex(&SignHash::Sha1.digest(b"hello")), HELLO_1);
    assert_eq!(SignHash::Sha256.wrap_digest(vec![0xaa; 32]).len(), 51);
    assert_eq!(sign_framing("signature", &[0x01], false, SignHash::Sha1), Ok(Framing::DigestInfo));
    assert_eq!(sign_framing("signature", &[0x12], false, SignHash::Sha1), Ok(Framing::Digest));
    assert_eq!(
        sign_framing("authentication", &[0x99, 0xab], false, SignHash::Sha1),
        Err("cannot tell the authentication slot's algorithm from the card's attributes (99ab); refusing to guess how to frame the input".to_string())
    );
}

#[test]
fn a_decryption_slot_is_told_by_its_algorithm() {
    assert_eq!(decrypt_kind(&[0x12, 0x01]), Ok(Decryption::Ecdh));
    assert_eq!(decrypt_kind(&[0x01]), Ok(Decryption::Rsa));
    assert!(decrypt_kind(&[]).unwrap_err().contains("cannot tell the decryption slot's algorithm"));
    assert!(decrypt_kind(&[0x13]).is_err());
    assert_eq!(decrypted_noun(Decryption::Ecdh), "shared-secret");
    assert_eq!(decrypted_noun(Decryption::Rsa), "plaintext");
    assert!(decrypting_line(Decryption::Ecdh).starts_with("Deriving shared secret"));
}

#[test]
fn nothing_is_overwritten_without_yes() {
    let refused = run_openpgp(
        &OpenpgpCmd::GenerateKey { slot: OpenpgpSlot::Sign, algorithm: None, yes: false, admin_pin: opts() },
    );
    assert_eq!(
        refused.unwrap_err(),
        format!(
            "refusing to generate without --yes (this OVERWRITES the {} key slot)",
            OpenpgpSlot::Sign.label()
        )
    );
    let plan = run_openpgp(
        &OpenpgpCmd::GenerateKey {
            slot: OpenpgpSlot::Auth,
            algorithm: Some(OpenpgpKeyAlg::Ed25519),
            yes: true,
            admin_pin: opts(),
        },
    )
    .unwrap();
    assert_eq!(
        plan,
        vec![
            PgpOp::CheckAlgorithm(OpenpgpSlot::Auth, OpenpgpKeyAlg::Ed25519),
            PgpOp::Read(PgpSecret::AdminPin),
            PgpOp::Open,
            PgpOp::Verify(0x83),
            PgpOp::GenerateKey(OpenpgpSlot::Auth, Some(OpenpgpKeyAlg::Ed25519)),
            PgpOp::ShowPublicKey(OpenpgpSlot::Auth),
            PgpOp::Register(OpenpgpSlot::Auth),
            PgpOp::Report,
        ]
    );
    let import = OpenpgpCmd::ImportKey {
        generate: true,
        in_file: None,
        slot: OpenpgpSlot::Decrypt,
        yes: false,
        admin_pin: opts(),
    };
    assert!(run_openpgp(&import).unwrap_err().starts_with("refusing to import without --yes"));
}

#[test]
fn signing_and_deciphering_use_their_own_password() {
    let sign = OpenpgpCmd::Sign { input: "f".into(), out: None, pin: opts(), hash: SignHash::Sha256 };
    assert!(run_openpgp(&sign).unwrap().contains(&PgpOp::Verify(0x81)));
    let decrypt = OpenpgpCmd::Decrypt { input: "f".into(), out: None, pin: opts() };
    assert!(run_openpgp(&decrypt).unwrap().contains(&PgpOp::Verify(0x82)));
    let auth = OpenpgpCmd::Authenticate { input: "f".into(), out: None, pin: opts(), hash: SignHash::Sha1 };
    assert!(run_openpgp(&auth).unwrap().contains(&PgpOp::Frame(OpenpgpSlot::Auth, SignHash::Sha1)));
    // A change carries the old PIN itself, so nothing is verified before.
    let change = OpenpgpCmd::ChangePin { old_pin: opts(), new_pin: opts() };
    assert_eq!(
        run_openpgp(&change).unwrap(),
        vec![
            PgpOp::Read(PgpSecret::OldUserPin),
            PgpOp::Read(PgpSecret::NewUserPin),
            PgpOp::Open,
            PgpOp::ChangeUserPin,
            PgpOp::Report,
        ]
    );
    assert_eq!(OpenpgpPinKind::Admin.pw_ref(), 0x83);
    assert_eq!(openpgp_done(&change).as_deref(), Some("User PIN (PW1) changed."));
    assert_eq!(openpgp_done(&sign), None);
}

fn status() -> OpenpgpStatus {
    OpenpgpStatus {
        aid: vec![0xd2, 0x76],
        serial: Some(12345678),
        sig_algo: "RSA-2048".into(),
        dec_algo: "cv25519".into(),
        aut_algo: "ed25519".into(),
        fingerprint_sig: [0xaa; 20],
        fingerprint_dec: [0; 20],
        fingerprint_aut: [0; 20],
        tries_pw1: 3,
        tries_rc: 0,
        tries_pw3: 3,
        signature_count: Some(5),
    }
}

#[test]
fn an_empty_slot_has_no_fingerprint() {
    assert_eq!(fingerprint(&[0; 20]), None);
    assert_eq!(fingerprint(&[0xab; 20]), Some("ab".repeat(20)));
    assert!(print_fingerprint("Auth       fpr", &[0; 20]).ends_with("(none)"));
    let j = openpgp_status_json(&status());
    assert_eq!(j.aid, "d276");
    assert_eq!(j.serial, Some(12345678));
    assert_eq!(j.fingerprint_sig, Some("aa".repeat(20)));
    assert_eq!(j.fingerprint_dec, None);
    assert_eq!((j.pin_retries_pw1, j.pin_retries_rc, j.pin_retries_pw3), (3, 0, 3));
    assert_eq!(j.signature_count, Some(5));
    let lines = openpgp_status_lines(&status()).lines;
    assert_eq!(lines[0], "AID:            d276");
    assert_eq!(lines[1], "Serial:         12345678 (0x00BC614E)");
    assert_eq!(lines[2], "Key algorithms: sig=RSA-2048 dec=cv25519 aut=ed25519");
    assert_eq!(lines[6], "PIN retries:    PW1=3 RC=0 PW3=3");
    assert_eq!(lines[7], "Signatures:     5");
}

#[test]
fn a_reset_names_the_card() {
    assert_eq!(
        openpgp_reset_consent(false, Some(7), &[1]).unwrap_err(),
        "refusing to reset the OpenPGP applet on serial 7 without --yes (this wipes ALL OpenPGP keys and resets PINs to defaults)"
    );
    assert_eq!(
        openpgp_reset_consent(true, None, &[0xd2, 0x76]).unwrap(),
        "OpenPGP applet on AID d276 reset. All keys wiped; PINs restored to defaults."
    );
}

#[test]
fn public_keys_and_algorithms_are_shown() {
    let key = PgpPublicKey::Rsa { modulus: vec![0xab], exponent: vec![1, 0, 1] };
    assert_eq!(
        print_openpgp_public_key("Signature", "RSA-2048", &key).lines,
        vec!["Signature key (RSA-2048):", "  modulus:  ab", "  exponent: 010001"]
    );
    let algos = SlotAlgorithms {
        sign: vec!["RSA-2048".into(), "ed25519".into()],
        decrypt: vec!["cv25519".into()],
        auth: vec![],
    };
    assert_eq!(
        algorithm_lines(&Some(algos)).lines,
        vec!["sign:    RSA-2048, ed25519", "decrypt: cv25519", "auth:    "]
    );
    assert_eq!(algorithm_lines(&None).lines.len(), 1);
    assert_eq!(
        registered_lines(&[0xaa, 0xbb], 9).lines,
        vec!["  fingerprint: aabb", "  created:     9 (unix)"]
    );
    assert_eq!(delivered_line(256, "signature", "out"), "Wrote 256 signature bytes to out");
    assert_eq!(import_source(true, None), Ok(None));
    assert_eq!(import_source(false, Some("k.pem")), Ok(Some("k.pem".to_string())));
    assert_eq!(import_source(false, None), Err("provide --generate or --in <FILE>".to_string()));
    assert_eq!(import_progress(Some("k.pem")), "Loading RSA key from k.pem…");
    assert_eq!(signing_line(false, SignHash::Sha256), format!("Signing ({}) — touch the key if it blinks…", SignHash::Sha256.label()));
    assert!(generating_key(OpenpgpSlot::Sign).starts_with("Generating "));
    assert!(generated_label(OpenpgpSlot::Sign).starts_with("Generated "));
    assert!(importing_key(OpenpgpSlot::Sign).ends_with(" key…"));
    assert_eq!(imported_key_lines(OpenpgpSlot::Sign, &[1], &[3]).lines[1], "  modulus:  01");
}
