use keyroost::agent::{
    encode_signature, find_identity, list_identities, prepare_data, same_key, slot_to_ssh_identity,
    ssh_public_credentials, AgentError, HashChoice, KeyroostAgent, PivSshAgent, PublicCredential, PublicKey, RsaHash,
    SigHash, SignStep, SlotFinding, SlotReport, SshAlgorithm, SshKey,
};
use keyroost::args::{KeyAlg, Slot};

fn hex(bytes: &[u8]) -> String {
    bytes.iter().map(|b| format!("{b:02x}")).collect()
}

fn point(tag: u8, len: usize) -> Vec<u8> {
    let mut p = vec![7u8; len];
    p[0] = tag;
    p
}

#[test]
fn the_slots_that_sign_are_offered_in_order() {
    let agent = PivSshAgent::new("Reader 00".to_string());
    assert_eq!(agent.reader(), "Reader 00");
    let slots = agent.slots();
    assert_eq!(slots.len(), 23);
    assert_eq!(slots[..3], [Slot::Authentication, Slot::CardAuthentication, Slot::Signature]);
    assert_eq!(slots[3], Slot::Retired(1));
    assert_eq!(slots[22], Slot::Retired(20));
    assert!(!slots.contains(&Slot::KeyManagement));
    let copy = KeyroostAgent::new(agent).clone();
    assert_eq!(copy.piv().slots().len(), 23);
    assert_eq!(copy.piv().reader(), "Reader 00");
}

#[test]
fn an_rsa_key_keeps_its_numbers() {
    let key = PublicKey::Rsa { modulus: vec![0x00, 0x80, 0x01], exponent: vec![1, 0, 1] };
    match ssh_public_credentials(KeyAlg::Rsa2048, &key).unwrap() {
        SshKey::Rsa { n, e } => {
            assert_eq!(n, vec![0x00, 0x80, 0x01]);
            assert_eq!(e, vec![1, 0, 1]);
        }
        other => panic!("{other:?}"),
    }
    // A needless leading zero is refused.
    for (modulus, exponent) in [(vec![0, 0x7f], vec![3]), (vec![0], vec![3]), (vec![9], vec![0, 3])] {
        let key = PublicKey::Rsa { modulus, exponent };
        assert!(matches!(ssh_public_credentials(KeyAlg::Rsa2048, &key), Err(AgentError::SshKey(_))));
    }
}

#[test]
fn a_curve_key_has_to_be_a_point() {
    let ok = |alg, p: Vec<u8>| ssh_public_credentials(alg, &PublicKey::Ecc { point: p });
    assert!(matches!(ok(KeyAlg::EccP256, point(4, 65)), Ok(SshKey::EcdsaP256(p)) if p == point(4, 65)));
    assert!(matches!(ok(KeyAlg::EccP256, point(2, 33)), Ok(SshKey::EcdsaP256(_))));
    assert!(matches!(ok(KeyAlg::EccP256, point(3, 33)), Ok(SshKey::EcdsaP256(_))));
    assert!(matches!(ok(KeyAlg::EccP256, point(5, 33)), Ok(SshKey::EcdsaP256(_))));
    assert!(matches!(ok(KeyAlg::EccP256, point(0, 1)), Ok(SshKey::EcdsaP256(_))));
    assert!(matches!(ok(KeyAlg::EccP384, point(4, 97)), Ok(SshKey::EcdsaP384(_))));
    for bad in [vec![], point(4, 64), point(1, 33), point(2, 32), point(4, 97), point(0, 2)] {
        assert!(matches!(ok(KeyAlg::EccP256, bad), Err(AgentError::SshKey(_))));
    }
    assert!(matches!(ok(KeyAlg::EccP384, point(4, 65)), Err(AgentError::SshKey(_))));
    assert!(matches!(ok(KeyAlg::Ed25519, vec![5; 32]), Ok(SshKey::Ed25519(k)) if k == vec![5; 32]));
    assert!(matches!(ok(KeyAlg::Ed25519, vec![5; 31]), Err(AgentError::SshKey(_))));
    assert!(matches!(ok(KeyAlg::X25519, vec![5; 32]), Err(AgentError::AlgorithmUnknown)));
    assert!(matches!(
        ok(KeyAlg::Rsa4096, point(4, 65)),
        Err(AgentError::Other(m)) if m == "Invalid KeyAlg Rsa4096 and for PublicKey::Ecc"
    ));
}

fn report(slot: Slot, label: &str, finding: SlotFinding) -> SlotReport {
    SlotReport { slot, label: label.into(), finding }
}

fn ed(byte: u8) -> SlotFinding {
    SlotFinding::Key(KeyAlg::Ed25519, PublicKey::Ecc { point: vec![byte; 32] })
}

#[test]
fn a_slot_that_fails_is_left_out() {
    let reports = vec![
        report(Slot::Authentication, "Authentication", SlotFinding::Failed("no answer".into())),
        report(Slot::CardAuthentication, "CardAuthentication", SlotFinding::Empty),
        report(Slot::Signature, "Signature", ed(1)),
        report(Slot::Retired(1), "Retired(1)", SlotFinding::Key(KeyAlg::X25519, PublicKey::Ecc { point: vec![1; 32] })),
        report(Slot::Retired(2), "Retired(2)", ed(2)),
        report(Slot::Retired(3), "Retired(3)", ed(2)),
    ];
    let ids = list_identities(&reports);
    assert_eq!(ids.iter().map(|i| i.slot).collect::<Vec<_>>(), vec![Slot::Signature, Slot::Retired(2), Slot::Retired(3)]);
    assert_eq!(ids[0].comment, "PIV Signature");
    assert_eq!(ids[1].key_alg, KeyAlg::Ed25519);
    // The first identity with the key signs; without one nothing is asked of
    // the card.
    let want = PublicCredential::Key(SshKey::Ed25519(vec![2; 32]));
    assert_eq!(find_identity(&ids, &want), Some(1));
    assert_eq!(find_identity(&ids, &PublicCredential::Key(SshKey::Ed25519(vec![3; 32]))), None);
    assert_eq!(find_identity(&ids, &PublicCredential::Cert), None);
    let agent = KeyroostAgent::new(PivSshAgent::new("R".into()));
    assert!(matches!(agent.sign(&ids, &want), SignStep::Card { id: 1 }));
    assert!(matches!(agent.sign(&ids, &PublicCredential::Cert), SignStep::NoIdentity));
    assert!(matches!(
        slot_to_ssh_identity(Slot::Signature, "Signature", &SlotFinding::Failed("no answer".into())),
        Err(AgentError::Other(m)) if m == "no answer"
    ));
    assert!(matches!(slot_to_ssh_identity(Slot::Signature, "Signature", &SlotFinding::Empty), Ok(None)));
}

#[test]
fn keys_of_different_kinds_differ() {
    let p256 = SshKey::EcdsaP256(vec![1]);
    assert!(same_key(&p256, &SshKey::EcdsaP256(vec![1])));
    assert!(!same_key(&p256, &SshKey::EcdsaP256(vec![2])));
    assert!(!same_key(&p256, &SshKey::EcdsaP256(vec![1, 1])));
    assert!(!same_key(&p256, &SshKey::EcdsaP384(vec![1])));
    let rsa = |n, e| SshKey::Rsa { n: vec![n], e: vec![e] };
    assert!(same_key(&rsa(1, 2), &rsa(1, 2)));
    assert!(!same_key(&rsa(1, 2), &rsa(1, 3)));
}

#[test]
fn data_is_prepared_as_the_key_wants_it() {
    let digest = |h| prepare_data(&HashChoice::Known(h), b"abc").unwrap().unwrap();
    assert_eq!(
        hex(&digest(SigHash::Sha256)),
        "ba7816bf8f01cfea414140de5dae2223b00361a396177a9cb410ff61f20015ad"
    );
    assert_eq!(
        hex(&digest(SigHash::Sha384)),
        "cb00753f45a35e8bb5a03d699ac65007272c32ab0eded1631a8b605a43ff5bed8086072ba1e7cc2358baeca134c825a7"
    );
    assert_eq!(digest(SigHash::Raw), b"abc".to_vec());
    assert!(matches!(prepare_data(&HashChoice::Unsupported, b"abc"), Ok(None)));
    assert!(matches!(
        prepare_data(&HashChoice::Failed("why".into()), b"abc"),
        Err(AgentError::Other(m)) if m == "why"
    ));
}

#[test]
fn an_ecdsa_signature_becomes_two_numbers() {
    // r = 1 and s = 128, in DER.
    let der = vec![0x30, 0x07, 0x02, 0x01, 0x01, 0x02, 0x02, 0x00, 0x80];
    let s = encode_signature(KeyAlg::EccP256, der.clone(), &None).unwrap();
    assert_eq!(s.algorithm, SshAlgorithm::EcdsaP256);
    assert_eq!(hex(&s.data), "0000000101000000020080");
    let s = encode_signature(KeyAlg::EccP384, der, &None).unwrap();
    assert_eq!(s.algorithm, SshAlgorithm::EcdsaP384);
    assert_eq!(hex(&s.data), "0000000101000000020080");
    // Numbers of full length.
    let mut long = vec![0x30, 68, 0x02, 32];
    long.extend(vec![0x7f; 32]);
    long.extend(vec![0x02, 32]);
    long.extend(vec![0x11; 32]);
    let s = encode_signature(KeyAlg::EccP256, long, &None).unwrap();
    assert_eq!(hex(&s.data), format!("00000020{}00000020{}", "7f".repeat(32), "11".repeat(32)));
    for bad in [vec![], vec![0x30, 0x00], vec![0x30, 0x06, 0x02, 0x01, 0x00, 0x02, 0x01, 0x01]] {
        assert!(matches!(encode_signature(KeyAlg::EccP256, bad.clone(), &None), Err(AgentError::Signature(_))));
        assert!(matches!(encode_signature(KeyAlg::EccP384, bad, &None), Err(AgentError::Signature(_))));
    }
}

#[test]
fn other_signatures_are_taken_as_they_are() {
    let s = encode_signature(KeyAlg::Ed25519, vec![9; 64], &None).unwrap();
    assert_eq!((s.algorithm, s.data), (SshAlgorithm::Ed25519, vec![9; 64]));
    assert!(matches!(encode_signature(KeyAlg::Ed25519, vec![9; 63], &None), Err(AgentError::SshKey(_))));
    assert!(matches!(
        encode_signature(KeyAlg::X25519, vec![9; 64], &None),
        Err(AgentError::Other(m)) if m == "Unsupported signature algorithm X25519"
    ));
    let s = encode_signature(KeyAlg::Rsa2048, b"abc".to_vec(), &Some(RsaHash::Sha256)).unwrap();
    assert_eq!(s.algorithm, SshAlgorithm::RsaSha256);
    assert_eq!(hex(&s.data), "ba7816bf8f01cfea414140de5dae2223b00361a396177a9cb410ff61f20015ad");
    let s = encode_signature(KeyAlg::Rsa4096, b"abc".to_vec(), &Some(RsaHash::Sha512)).unwrap();
    assert_eq!(s.algorithm, SshAlgorithm::RsaSha512);
    assert_eq!(
        hex(&s.data),
        "ddaf35a193617abacc417349ae20413112e6fa4e89a97ea20a9eeee64b55d39a2192992a274fc1a836ba3c23a3feebbd454d4423643ce80e2a9ac94fa54ca49f"
    );
    assert!(matches!(
        encode_signature(KeyAlg::Rsa2048, vec![1], &Some(RsaHash::Other("md5".into()))),
        Err(AgentError::Other(m)) if m == "Unsupported RSA hash algorithm md5"
    ));
    // Without a digest there is no such signature.
    assert!(matches!(encode_signature(KeyAlg::Rsa2048, vec![1], &None), Err(AgentError::SshKey(_))));
}
