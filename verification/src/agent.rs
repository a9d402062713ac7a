//! The SSH agent over PIV: which slots it offers, how a public key becomes an
//! SSH identity, and how a signature of the card becomes one of SSH.

use crate::args::{KeyAlg, Slot};
use crate::hashes::{sha256, sha256_of, sha384, sha384_of, sha512, sha512_of};
use crate::text::cat2;
use crate::text::cat3;
use vstd::prelude::*;
use vstd::slice::slice_to_vec;

verus! {

/// `ssh_key::Error`: why SSH data cannot be encoded.
#[verifier::external_type_specification]
#[verifier::external_body]
pub struct ExSshKeyError(ssh_key::Error);

/// `signature::Error`: that a signature cannot be decoded.
#[verifier::external_type_specification]
#[verifier::external_body]
pub struct ExSignatureError(signature::Error);

/// Why the agent cannot do what was asked.
#[derive(Debug)]
pub enum AgentError {
    /// SSH data cannot be encoded.
    SshKey(ssh_key::Error),
    /// The card's signature cannot be decoded.
    Signature(signature::Error),
    /// The algorithm has no SSH form.
    AlgorithmUnknown,
    /// Anything else.
    Other(String),
}

/// Whether bytes are a multiple-precision integer without needless leading
/// zeros.
pub open spec fn canonical_int(bytes: Seq<u8>) -> bool {
    !(bytes.len() == 1 && bytes[0] == 0) && !(bytes.len() >= 2 && bytes[0] == 0 && bytes[1] < 0x80)
}

/// `ssh_key::Mpint::from_bytes`: takes an integer as it is, and refuses one
/// with a needless leading zero.
#[verifier::external_body]
fn ssh_int(bytes: &[u8]) -> (r: Result<Vec<u8>, ssh_key::Error>)
    ensures
        r is Ok <==> canonical_int(bytes@),
        r matches Ok(v) ==> v@ == bytes@,
{
    ssh_key::Mpint::from_bytes(bytes).map(|m| m.as_bytes().to_vec())
}

/// Whether bytes are the encoding of a curve point with coordinates of `size`
/// bytes: the first byte tells the form, and the form the length.
pub open spec fn point_encoding(bytes: Seq<u8>, size: nat) -> bool {
    bytes.len() > 0 && ((bytes[0] == 0 && bytes.len() == 1) || ((bytes[0] == 2 || bytes[0] == 3 || bytes[0] == 5)
        && bytes.len() == 1 + size) || (bytes[0] == 4 && bytes.len() == 1 + 2 * size))
}

/// `sec1::EncodedPoint::from_bytes` for P-256: takes an encoded point as it
/// is, and refuses what is not one.
#[verifier::external_body]
fn p256_point(bytes: &[u8]) -> (r: Result<Vec<u8>, ssh_key::Error>)
    ensures
        r is Ok <==> point_encoding(bytes@, 32),
        r matches Ok(v) ==> v@ == bytes@,
{
    match ssh_key::sec1::EncodedPoint::<ssh_key::sec1::consts::U32>::from_bytes(bytes) {
        Ok(p) => Ok(p.as_bytes().to_vec()),
        Err(e) => Err(ssh_key::Error::Ecdsa(e)),
    }
}

/// `sec1::EncodedPoint::from_bytes` for P-384: takes an encoded point as it
/// is, and refuses what is not one.
#[verifier::external_body]
fn p384_point(bytes: &[u8]) -> (r: Result<Vec<u8>, ssh_key::Error>)
    ensures
        r is Ok <==> point_encoding(bytes@, 48),
        r matches Ok(v) ==> v@ == bytes@,
{
    match ssh_key::sec1::EncodedPoint::<ssh_key::sec1::consts::U48>::from_bytes(bytes) {
        Ok(p) => Ok(p.as_bytes().to_vec()),
        Err(e) => Err(ssh_key::Error::Ecdsa(e)),
    }
}

/// `ssh_key::public::Ed25519PublicKey::try_from`: takes 32 bytes as they are,
/// and refuses any other number.
#[verifier::external_body]
fn ed25519_key(bytes: &[u8]) -> (r: Result<Vec<u8>, ssh_key::Error>)
    ensures
        r is Ok <==> bytes@.len() == 32,
        r matches Ok(v) ==> v@ == bytes@,
{
    ssh_key::public::Ed25519PublicKey::try_from(bytes).map(|k| k.0.to_vec())
}

/// A decoded P-256 signature: the two numbers, 32 bytes each; none where the
/// bytes are not one.
pub uninterp spec fn p256_numbers(der: Seq<u8>) -> Option<Seq<u8>>;

/// A decoded P-384 signature: the two numbers, 48 bytes each; none where the
/// bytes are not one.
pub uninterp spec fn p384_numbers(der: Seq<u8>) -> Option<Seq<u8>>;

/// `ecdsa::Signature::<NistP256>::from_der`: the two numbers of a DER-encoded
/// signature, 32 bytes each, or that it cannot be decoded.
#[verifier::external_body]
fn p256_from_der(der: &[u8]) -> (r: Result<Vec<u8>, signature::Error>)
    ensures
        match r {
            Ok(v) => p256_numbers(der@) == Some(v@) && v@.len() == 64,
            Err(_) => p256_numbers(der@) is None,
        },
{
    ecdsa::Signature::<p256::NistP256>::from_der(der).map(|s| s.to_bytes().to_vec())
}

/// `ecdsa::Signature::<NistP384>::from_der`: the two numbers of a DER-encoded
/// signature, 48 bytes each, or that it cannot be decoded.
#[verifier::external_body]
fn p384_from_der(der: &[u8]) -> (r: Result<Vec<u8>, signature::Error>)
    ensures
        match r {
            Ok(v) => p384_numbers(der@) == Some(v@) && v@.len() == 96,
            Err(_) => p384_numbers(der@) is None,
        },
{
    ecdsa::Signature::<p384::NistP384>::from_der(der).map(|s| s.to_bytes().to_vec())
}

/// Digest of an RSA signature.
#[derive(Debug)]
pub enum RsaHash {
    /// SHA-256.
    Sha256,
    /// SHA-512.
    Sha512,
    /// Another one, by name.
    Other(String),
}

/// Algorithm of an SSH signature.
#[derive(Clone, Copy, Debug, PartialEq, Eq, Structural)]
pub enum SshAlgorithm {
    /// ECDSA over P-256.
    EcdsaP256,
    /// ECDSA over P-384.
    EcdsaP384,
    /// Ed25519.
    Ed25519,
    /// RSA with SHA-256.
    RsaSha256,
    /// RSA with SHA-512.
    RsaSha512,
    /// RSA without a digest named.
    Rsa,
}

/// `ssh_key::Signature::new` of an Ed25519 or RSA signature: takes its bytes as
/// they are. For Ed25519 there must be 64 of them; for RSA a digest must be
/// named.
#[verifier::external_body]
fn ssh_signature(algorithm: SshAlgorithm, data: Vec<u8>) -> (r: Result<Vec<u8>, ssh_key::Error>)
    requires
        algorithm != SshAlgorithm::EcdsaP256,
        algorithm != SshAlgorithm::EcdsaP384,
    ensures
        algorithm == SshAlgorithm::Ed25519 ==> (r is Ok <==> data@.len() == 64),
        algorithm == SshAlgorithm::RsaSha256 || algorithm == SshAlgorithm::RsaSha512 ==> r is Ok,
        algorithm == SshAlgorithm::Rsa ==> r is Err,
        r matches Ok(v) ==> v@ == data@,
{
    let algorithm = match algorithm {
        SshAlgorithm::EcdsaP256 => ssh_key::Algorithm::Ecdsa { curve: ssh_key::EcdsaCurve::NistP256 },
        SshAlgorithm::EcdsaP384 => ssh_key::Algorithm::Ecdsa { curve: ssh_key::EcdsaCurve::NistP384 },
        SshAlgorithm::Ed25519 => ssh_key::Algorithm::Ed25519,
        SshAlgorithm::RsaSha256 => ssh_key::Algorithm::Rsa { hash: Some(ssh_key::HashAlg::Sha256) },
        SshAlgorithm::RsaSha512 => ssh_key::Algorithm::Rsa { hash: Some(ssh_key::HashAlg::Sha512) },
        SshAlgorithm::Rsa => ssh_key::Algorithm::Rsa { hash: None },
    };
    ssh_key::Signature::new(algorithm, data).map(|s| s.as_bytes().to_vec())
}

/// A public key of the card.
#[derive(Debug)]
pub enum PublicKey {
    /// RSA: modulus and exponent.
    Rsa { modulus: Vec<u8>, exponent: Vec<u8> },
    /// Elliptic curve: the point.
    Ecc { point: Vec<u8> },
}

/// A public key in its SSH form.
#[derive(Debug)]
pub enum SshKey {
    /// RSA: modulus and exponent.
    Rsa { n: Vec<u8>, e: Vec<u8> },
    /// P-256: the encoded point.
    EcdsaP256(Vec<u8>),
    /// P-384: the encoded point.
    EcdsaP384(Vec<u8>),
    /// Ed25519: the key.
    Ed25519(Vec<u8>),
}

/// What an [`SshKey`] holds.
pub enum SshKeyView {
    /// RSA.
    Rsa { n: Seq<u8>, e: Seq<u8> },
    /// P-256.
    EcdsaP256(Seq<u8>),
    /// P-384.
    EcdsaP384(Seq<u8>),
    /// Ed25519.
    Ed25519(Seq<u8>),
}

impl View for SshKey {
    type V = SshKeyView;

    open spec fn view(&self) -> SshKeyView {
        match self {
            SshKey::Rsa { n, e } => SshKeyView::Rsa { n: n@, e: e@ },
            SshKey::EcdsaP256(p) => SshKeyView::EcdsaP256(p@),
            SshKey::EcdsaP384(p) => SshKeyView::EcdsaP384(p@),
            SshKey::Ed25519(k) => SshKeyView::Ed25519(k@),
        }
    }
}

fn bytes_eq(a: &Vec<u8>, b: &Vec<u8>) -> (r: bool)
    ensures
        r == (a@ == b@),
{
    if a.len() != b.len() {
        return false;
    }
    let mut i: usize = 0;
    while i < a.len()
        invariant
            i <= a.len(),
            a.len() == b.len(),
            forall|k: int| 0 <= k < i ==> a@[k] == b@[k],
        decreases a.len() - i,
    {
        if a[i] != b[i] {
            return false;
        }
        i = i + 1;
    }
    assert(a@ =~= b@);
    true
}

/// Whether two keys are the same.
pub fn same_key(a: &SshKey, b: &SshKey) -> (r: bool)
    ensures
        r == (a@ == b@),
{
    match (a, b) {
        (SshKey::Rsa { n, e }, SshKey::Rsa { n: m, e: f }) => bytes_eq(n, m) && bytes_eq(e, f),
        (SshKey::EcdsaP256(p), SshKey::EcdsaP256(q)) => bytes_eq(p, q),
        (SshKey::EcdsaP384(p), SshKey::EcdsaP384(q)) => bytes_eq(p, q),
        (SshKey::Ed25519(p), SshKey::Ed25519(q)) => bytes_eq(p, q),
        _ => false,
    }
}

/// Name of an algorithm as the messages show it.
pub open spec fn alg_name(a: KeyAlg) -> Seq<char> {
    match a {
        KeyAlg::Rsa1024 => "Rsa1024"@,
        KeyAlg::Rsa2048 => "Rsa2048"@,
        KeyAlg::Rsa3072 => "Rsa3072"@,
        KeyAlg::Rsa4096 => "Rsa4096"@,
        KeyAlg::EccP256 => "EccP256"@,
        KeyAlg::EccP384 => "EccP384"@,
        KeyAlg::Ed25519 => "Ed25519"@,
        KeyAlg::X25519 => "X25519"@,
    }
}

fn alg_name_of(a: KeyAlg) -> (r: &'static str)
    ensures
        r@ == alg_name(a),
{
    match a {
        KeyAlg::Rsa1024 => "Rsa1024",
        KeyAlg::Rsa2048 => "Rsa2048",
        KeyAlg::Rsa3072 => "Rsa3072",
        KeyAlg::Rsa4096 => "Rsa4096",
        KeyAlg::EccP256 => "EccP256",
        KeyAlg::EccP384 => "EccP384",
        KeyAlg::Ed25519 => "Ed25519",
        KeyAlg::X25519 => "X25519",
    }
}

/// Whether an algorithm is RSA.
pub open spec fn is_rsa(a: KeyAlg) -> bool {
    a == KeyAlg::Rsa1024 || a == KeyAlg::Rsa2048 || a == KeyAlg::Rsa3072 || a == KeyAlg::Rsa4096
}

/// The SSH form of a public key; none where it has none.
pub open spec fn ssh_key_spec(alg: KeyAlg, key: PublicKey) -> Option<SshKeyView> {
    match key {
        PublicKey::Rsa { modulus, exponent } => if canonical_int(modulus@) && canonical_int(exponent@) {
            Some(SshKeyView::Rsa { n: modulus@, e: exponent@ })
        } else {
            None
        },
        PublicKey::Ecc { point } => if alg == KeyAlg::EccP256 && point_encoding(point@, 32) {
            Some(SshKeyView::EcdsaP256(point@))
        } else if alg == KeyAlg::EccP384 && point_encoding(point@, 48) {
            Some(SshKeyView::EcdsaP384(point@))
        } else if alg == KeyAlg::Ed25519 && point@.len() == 32 {
            Some(SshKeyView::Ed25519(point@))
        } else {
            None
        },
    }
}

/// Which error a public key without an SSH form gives.
pub open spec fn ssh_key_error_is(alg: KeyAlg, key: PublicKey, e: AgentError) -> bool {
    match key {
        PublicKey::Rsa { .. } => e is SshKey,
        PublicKey::Ecc { .. } => if is_rsa(alg) {
            e matches AgentError::Other(m) && m@ == "Invalid KeyAlg "@ + alg_name(alg)
                + " and for PublicKey::Ecc"@
        } else if alg == KeyAlg::X25519 {
            e is AlgorithmUnknown
        } else {
            e is SshKey
        },
    }
}

fn ssh_result(r: Result<Vec<u8>, ssh_key::Error>) -> (s: Result<Vec<u8>, AgentError>)
    ensures
        match (r, s) {
            (Ok(a), Ok(b)) => a@ == b@,
            (Err(e), Err(AgentError::SshKey(f))) => e == f,
            _ => false,
        },
{
    match r {
        Ok(v) => Ok(v),
        Err(e) => Err(AgentError::SshKey(e)),
    }
}

/// The SSH form of a public key of the card.
pub fn ssh_public_credentials(key_alg: KeyAlg, public_key: &PublicKey) -> (r: Result<SshKey, AgentError>)
    ensures
        match r {
            Ok(k) => ssh_key_spec(key_alg, *public_key) == Some(k@),
            Err(e) => ssh_key_spec(key_alg, *public_key) is None && ssh_key_error_is(key_alg, *public_key, e),
        },
{
    match public_key {
        PublicKey::Rsa { modulus, exponent } => match ssh_result(ssh_int(modulus.as_slice())) {
            Err(e) => Err(e),
            Ok(n) => match ssh_result(ssh_int(exponent.as_slice())) {
                Err(e) => Err(e),
                Ok(e) => Ok(SshKey::Rsa { n, e }),
            },
        },
        PublicKey::Ecc { point } => match key_alg {
            KeyAlg::EccP256 => match ssh_result(p256_point(point.as_slice())) {
                Ok(p) => Ok(SshKey::EcdsaP256(p)),
                Err(e) => Err(e),
            },
            KeyAlg::EccP384 => match ssh_result(p384_point(point.as_slice())) {
                Ok(p) => Ok(SshKey::EcdsaP384(p)),
                Err(e) => Err(e),
            },
            KeyAlg::Ed25519 => match ssh_result(ed25519_key(point.as_slice())) {
                Ok(k) => Ok(SshKey::Ed25519(k)),
                Err(e) => Err(e),
            },
            KeyAlg::X25519 => Err(AgentError::AlgorithmUnknown),
            _ => Err(
                AgentError::Other(
                    cat3("Invalid KeyAlg ", alg_name_of(key_alg), " and for PublicKey::Ecc"),
                ),
            ),
        },
    }
}

/// What was found in one slot.
#[derive(Debug)]
pub enum SlotFinding {
    /// No certificate.
    Empty,
    /// Reading or parsing the certificate failed, with the reason.
    Failed(String),
    /// The key of the certificate.
    Key(KeyAlg, PublicKey),
}

/// An SSH identity in a slot.
#[derive(Debug)]
pub struct PivIdentity {
    /// The slot.
    pub slot: Slot,
    /// Algorithm of its key.
    pub key_alg: KeyAlg,
    /// Its public key.
    pub key: SshKey,
    /// What clients show for it.
    pub comment: String,
}

/// Whether a finding gives an identity.
pub open spec fn usable(f: SlotFinding) -> bool {
    f matches SlotFinding::Key(a, k) && ssh_key_spec(a, k) is Some
}

/// Whether an identity is the one of a slot's finding.
pub open spec fn identity_is(id: PivIdentity, slot: Slot, label: Seq<char>, f: SlotFinding) -> bool {
    &&& id.slot == slot
    &&& id.comment@ == "PIV "@ + label
    &&& f matches SlotFinding::Key(a, k) && id.key_alg == a && ssh_key_spec(a, k) == Some(id.key@)
}

/// The identity of a slot: none without a certificate, an error where it
/// cannot be had. `label` is the name of the slot.
pub fn slot_to_ssh_identity(slot: Slot, label: &str, finding: &SlotFinding) -> (r: Result<
    Option<PivIdentity>,
    AgentError,
>)
    ensures
        match r {
            Ok(Some(id)) => usable(*finding) && identity_is(id, slot, label@, *finding),
            Ok(None) => finding is Empty,
            Err(e) => match finding {
                SlotFinding::Empty => false,
                SlotFinding::Failed(m) => e matches AgentError::Other(s) && s@ == m@,
                SlotFinding::Key(a, k) => ssh_key_spec(*a, *k) is None && ssh_key_error_is(*a, *k, e),
            },
        },
{
    match finding {
        SlotFinding::Empty => Ok(None),
        SlotFinding::Failed(m) => Err(AgentError::Other(m.clone())),
        SlotFinding::Key(alg, key) => match ssh_public_credentials(*alg, key) {
            Ok(k) => Ok(Some(PivIdentity { slot, key_alg: *alg, key: k, comment: cat2("PIV ", label) })),
            Err(e) => Err(e),
        },
    }
}

/// The positions of the findings that give an identity, in order.
pub open spec fn usable_slots(findings: Seq<SlotFinding>) -> Seq<int>
    decreases findings.len(),
{
    if findings.len() == 0 {
        Seq::empty()
    } else if usable(findings.last()) {
        usable_slots(findings.drop_last()).push(findings.len() - 1)
    } else {
        usable_slots(findings.drop_last())
    }
}

/// One slot, its name, and what was found in it.
#[derive(Debug)]
pub struct SlotReport {
    /// The slot.
    pub slot: Slot,
    /// Its name.
    pub label: String,
    /// What was found.
    pub finding: SlotFinding,
}

/// The findings of the reports.
pub open spec fn findings_of(reports: Seq<SlotReport>) -> Seq<SlotFinding> {
    reports.map_values(|r: SlotReport| r.finding)
}

/// Whether a list holds exactly the identities of the usable slots, in order.
pub open spec fn identities_are(ids: Seq<PivIdentity>, reports: Seq<SlotReport>) -> bool {
    let at = usable_slots(findings_of(reports));
    &&& ids.len() == at.len()
    &&& forall|i: int|
        0 <= i < ids.len() ==> 0 <= at[i] < reports.len() && identity_is(
            #[trigger] ids[i],
            reports[at[i]].slot,
            reports[at[i]].label@,
            reports[at[i]].finding,
        )
}

proof fn lemma_report_added(ids: Seq<PivIdentity>, reports: Seq<SlotReport>, more: SlotReport)
    requires
        identities_are(ids, reports),
    ensures
        !usable(more.finding) ==> identities_are(ids, reports.push(more)),
        forall|id: PivIdentity|
            usable(more.finding) && identity_is(id, more.slot, more.label@, more.finding) ==> identities_are(
                #[trigger] ids.push(id),
                reports.push(more),
            ),
{
    let all = reports.push(more);
    let at = usable_slots(findings_of(reports));
    assert(findings_of(all).drop_last() =~= findings_of(reports));
    assert(findings_of(all).last() == more.finding);
    assert forall|i: int| 0 <= i < ids.len() implies 0 <= at[i] < reports.len() && reports[at[i]] == all[at[i]] by {
        assert(identity_is(ids[i], reports[at[i]].slot, reports[at[i]].label@, reports[at[i]].finding));
    }
    assert forall|id: PivIdentity|
        usable(more.finding) && identity_is(id, more.slot, more.label@, more.finding) implies identities_are(
        #[trigger] ids.push(id),
        all,
    ) by {
        let longer = ids.push(id);
        let places = usable_slots(findings_of(all));
        assert forall|i: int| 0 <= i < longer.len() implies 0 <= places[i] < all.len() && identity_is(
            #[trigger] longer[i],
            all[places[i]].slot,
            all[places[i]].label@,
            all[places[i]].finding,
        ) by {
            if i < ids.len() {
                assert(longer[i] == ids[i]);
                assert(places[i] == at[i]);
            }
        }
    }
}

/// The identities the agent offers: one for each slot whose key has an SSH
/// form, in the order of the slots. A slot that is empty or fails is left out.
pub fn list_identities(reports: &Vec<SlotReport>) -> (r: Vec<PivIdentity>)
    ensures
        identities_are(r@, reports@),
{
    let mut ids: Vec<PivIdentity> = Vec::new();
    let mut i: usize = 0;
    assert(findings_of(reports@.take(0)).len() == 0);
    while i < reports.len()
        invariant
            i <= reports.len(),
            identities_are(ids@, reports@.take(i as int)),
        decreases reports.len() - i,
    {
        let rep = &reports[i];
        proof {
            lemma_report_added(ids@, reports@.take(i as int), *rep);
            assert(reports@.take(i as int).push(*rep) =~= reports@.take(i as int + 1));
        }
        match slot_to_ssh_identity(rep.slot, rep.label.as_str(), &rep.finding) {
            Ok(Some(id)) => ids.push(id),
            _ => {},
        }
        i = i + 1;
    }
    assert(reports@.take(i as int) =~= reports@);
    ids
}

/// What a client asks a signature for.
#[derive(Debug)]
pub enum PublicCredential {
    /// A key.
    Key(SshKey),
    /// A certificate; no identity of the agent is one.
    Cert,
}

/// The first identity with the key that was asked for.
pub open spec fn identity_for(ids: Seq<PivIdentity>, want: PublicCredential) -> Option<int>
    decreases ids.len(),
{
    if ids.len() == 0 {
        None
    } else {
        match identity_for(ids.drop_last(), want) {
            Some(i) => Some(i),
            None => match want {
                PublicCredential::Key(k) => if ids.last().key@ == k@ {
                    Some(ids.len() - 1)
                } else {
                    None
                },
                PublicCredential::Cert => None,
            },
        }
    }
}

proof fn lemma_identity_stays(ids: Seq<PivIdentity>, want: PublicCredential, k: int)
    requires
        0 <= k <= ids.len(),
        identity_for(ids.take(k), want) is Some,
    ensures
        identity_for(ids, want) == identity_for(ids.take(k), want),
    decreases ids.len(),
{
    if k < ids.len() {
        let init = ids.drop_last();
        assert(init.take(k) =~= ids.take(k));
        lemma_identity_stays(init, want, k);
    } else {
        assert(ids.take(k) =~= ids);
    }
}

/// Finds the identity with the key that was asked for.
pub fn find_identity(ids: &Vec<PivIdentity>, want: &PublicCredential) -> (r: Option<usize>)
    ensures
        match (r, identity_for(ids@, *want)) {
            (Some(i), Some(j)) => i == j && i < ids@.len(),
            (None, None) => true,
            _ => false,
        },
{
    let mut i: usize = 0;
    assert(identity_for(ids@.take(0), *want) is None);
    while i < ids.len()
        invariant
            i <= ids.len(),
            identity_for(ids@.take(i as int), *want) is None,
        decreases ids.len() - i,
    {
        assert(ids@.take(i as int + 1).drop_last() =~= ids@.take(i as int));
        let hit = match want {
            PublicCredential::Key(k) => same_key(&ids[i].key, k),
            PublicCredential::Cert => false,
        };
        if hit {
            proof {
                lemma_identity_stays(ids@, *want, i as int + 1);
            }
            return Some(i);
        }
        i = i + 1;
    }
    assert(ids@.take(i as int) =~= ids@);
    None
}

/// How the data of a signature is prepared for the card.
#[derive(Clone, Copy, Debug, PartialEq, Eq, Structural)]
pub enum SigHash {
    /// Its SHA-256 digest.
    Sha256,
    /// Its SHA-384 digest.
    Sha384,
    /// The data itself.
    Raw,
}

/// What is known of how a key's data is prepared.
#[derive(Debug)]
pub enum HashChoice {
    /// It is known.
    Known(SigHash),
    /// The algorithm makes no signatures.
    Unsupported,
    /// It cannot be told, with the reason.
    Failed(String),
}

/// What the card is handed, for each way to prepare the data.
pub open spec fn prepared(hash: SigHash, data: Seq<u8>) -> Seq<u8> {
    match hash {
        SigHash::Sha256 => sha256_of(data),
        SigHash::Sha384 => sha384_of(data),
        SigHash::Raw => data,
    }
}

/// Prepares the data of a signature for the card. A key that makes no
/// signatures is no error: there is just nothing to prepare.
pub fn prepare_data(choice: &HashChoice, data: &[u8]) -> (r: Result<Option<Vec<u8>>, AgentError>)
    ensures
        match (choice, r) {
            (HashChoice::Known(h), Ok(Some(p))) => p@ == prepared(*h, data@),
            (HashChoice::Unsupported, Ok(None)) => true,
            (HashChoice::Failed(m), Err(AgentError::Other(s))) => s@ == m@,
            _ => false,
        },
{
    match choice {
        HashChoice::Known(SigHash::Sha256) => Ok(Some(sha256(data))),
        HashChoice::Known(SigHash::Sha384) => Ok(Some(sha384(data))),
        HashChoice::Known(SigHash::Raw) => Ok(Some(slice_to_vec(data))),
        HashChoice::Unsupported => Ok(None),
        HashChoice::Failed(m) => Err(AgentError::Other(m.clone())),
    }
}

/// A number without its leading zeros.
pub open spec fn stripped(n: Seq<u8>) -> Seq<u8>
    decreases n.len(),
{
    if n.len() > 0 && n[0] == 0 {
        stripped(n.drop_first())
    } else {
        n
    }
}

/// A positive number as an SSH integer: stripped, with a zero before it where
/// its first bit is set.
pub open spec fn positive_int(n: Seq<u8>) -> Seq<u8> {
    let s = stripped(n);
    if s.len() > 0 && s[0] >= 0x80 {
        seq![0u8] + s
    } else {
        s
    }
}

/// A length of less than 256 bytes as four bytes, the largest first.
pub open spec fn short_length(n: nat) -> Seq<u8> {
    seq![0u8, 0u8, 0u8, n as u8]
}

/// A positive number as SSH writes it: its length, then its bytes.
pub open spec fn ssh_number(n: Seq<u8>) -> Seq<u8> {
    short_length(positive_int(n).len()) + positive_int(n)
}

/// An ECDSA signature as SSH writes it: the two numbers one after the other.
pub open spec fn ecdsa_blob(numbers: Seq<u8>, half: int) -> Seq<u8> {
    ssh_number(numbers.take(half)) + ssh_number(numbers.skip(half))
}

/// `ssh_key::Signature::try_from` of a P-256 signature: writes the two numbers
/// of a decoded one as SSH does.
#[verifier::external_body]
fn p256_ssh(numbers: &[u8]) -> (r: Result<Vec<u8>, ssh_key::Error>)
    requires
        exists|der: Seq<u8>| #[trigger] p256_numbers(der) == Some(numbers@),
    ensures
        match r {
            Ok(v) => v@ == ecdsa_blob(numbers@, 32),
            Err(_) => false,
        },
{
    let signature = ecdsa::Signature::<p256::NistP256>::from_slice(numbers).map_err(|_| ssh_key::Error::Crypto)?;
    ssh_key::Signature::try_from(signature).map(|s| s.as_bytes().to_vec())
}

/// `ssh_key::Signature::try_from` of a P-384 signature: writes the two numbers
/// of a decoded one as SSH does.
#[verifier::external_body]
fn p384_ssh(numbers: &[u8]) -> (r: Result<Vec<u8>, ssh_key::Error>)
    requires
        exists|der: Seq<u8>| #[trigger] p384_numbers(der) == Some(numbers@),
    ensures
        match r {
            Ok(v) => v@ == ecdsa_blob(numbers@, 48),
            Err(_) => false,
        },
{
    let signature = ecdsa::Signature::<p384::NistP384>::from_slice(numbers).map_err(|_| ssh_key::Error::Crypto)?;
    ssh_key::Signature::try_from(signature).map(|s| s.as_bytes().to_vec())
}

/// A signature in its SSH form.
#[derive(Debug)]
pub struct SshSignature {
    /// Its algorithm.
    pub algorithm: SshAlgorithm,
    /// Its bytes.
    pub data: Vec<u8>,
}

fn sealed(algorithm: SshAlgorithm, data: Vec<u8>) -> (r: Result<SshSignature, AgentError>)
    requires
        algorithm != SshAlgorithm::EcdsaP256,
        algorithm != SshAlgorithm::EcdsaP384,
    ensures
        match r {
            Ok(s) => s.algorithm == algorithm && s.data@ == data@ && algorithm != SshAlgorithm::Rsa && (algorithm
                == SshAlgorithm::Ed25519 ==> data@.len() == 64),
            Err(e) => e is SshKey && algorithm != SshAlgorithm::RsaSha256 && algorithm != SshAlgorithm::RsaSha512
                && (algorithm == SshAlgorithm::Ed25519 ==> data@.len() != 64),
        },
{
    match ssh_result(ssh_signature(algorithm, data)) {
        Ok(d) => Ok(SshSignature { algorithm, data: d }),
        Err(e) => Err(e),
    }
}

/// The SSH form of a signature of the card; none where it has none.
pub open spec fn signature_spec(alg: KeyAlg, signature: Seq<u8>, rsa_hash: Option<RsaHash>) -> Option<(
    SshAlgorithm,
    Seq<u8>,
)> {
    match alg {
        KeyAlg::EccP256 => match p256_numbers(signature) {
            Some(n) => Some((SshAlgorithm::EcdsaP256, ecdsa_blob(n, 32))),
            None => None,
        },
        KeyAlg::EccP384 => match p384_numbers(signature) {
            Some(n) => Some((SshAlgorithm::EcdsaP384, ecdsa_blob(n, 48))),
            None => None,
        },
        KeyAlg::Ed25519 => if signature.len() == 64 {
            Some((SshAlgorithm::Ed25519, signature))
        } else {
            None
        },
        KeyAlg::X25519 => None,
        _ => match rsa_hash {
            Some(RsaHash::Sha256) => Some((SshAlgorithm::RsaSha256, sha256_of(signature))),
            Some(RsaHash::Sha512) => Some((SshAlgorithm::RsaSha512, sha512_of(signature))),
            _ => None,
        },
    }
}

/// Which error a signature without an SSH form gives.
pub open spec fn signature_error_is(alg: KeyAlg, rsa_hash: Option<RsaHash>, e: AgentError) -> bool {
    match alg {
        KeyAlg::EccP256 => e is Signature,
        KeyAlg::EccP384 => e is Signature,
        KeyAlg::Ed25519 => e is SshKey,
        KeyAlg::X25519 => e matches AgentError::Other(m) && m@ == "Unsupported signature algorithm X25519"@,
        _ => match rsa_hash {
            Some(RsaHash::Other(n)) => e matches AgentError::Other(m) && m@ == "Unsupported RSA hash algorithm "@
                + n@,
            _ => e is SshKey,
        },
    }
}

/// Turns a signature of the card into one of SSH.
pub fn encode_signature(key_alg: KeyAlg, signature: Vec<u8>, rsa_sig_hash: &Option<RsaHash>) -> (r: Result<
    SshSignature,
    AgentError,
>)
    ensures
        match r {
            Ok(s) => signature_spec(key_alg, signature@, *rsa_sig_hash) == Some((s.algorithm, s.data@)),
            Err(e) => signature_spec(key_alg, signature@, *rsa_sig_hash) is None && signature_error_is(
                key_alg,
                *rsa_sig_hash,
                e,
            ),
        },
{
    match key_alg {
        KeyAlg::EccP256 => match p256_from_der(signature.as_slice()) {
            Ok(n) => match ssh_result(p256_ssh(n.as_slice())) {
                Ok(data) => Ok(SshSignature { algorithm: SshAlgorithm::EcdsaP256, data }),
                Err(e) => Err(e),
            },
            Err(e) => Err(AgentError::Signature(e)),
        },
        KeyAlg::EccP384 => match p384_from_der(signature.as_slice()) {
            Ok(n) => match ssh_result(p384_ssh(n.as_slice())) {
                Ok(data) => Ok(SshSignature { algorithm: SshAlgorithm::EcdsaP384, data }),
                Err(e) => Err(e),
            },
            Err(e) => Err(AgentError::Signature(e)),
        },
        KeyAlg::Ed25519 => sealed(SshAlgorithm::Ed25519, signature),
        KeyAlg::X25519 => Err(AgentError::Other("Unsupported signature algorithm X25519".to_owned())),
        _ => match rsa_sig_hash {
            Some(RsaHash::Sha256) => sealed(SshAlgorithm::RsaSha256, sha256(signature.as_slice())),
            Some(RsaHash::Sha512) => sealed(SshAlgorithm::RsaSha512, sha512(signature.as_slice())),
            Some(RsaHash::Other(n)) => Err(
                AgentError::Other(cat2("Unsupported RSA hash algorithm ", n.as_str())),
            ),
            None => sealed(SshAlgorithm::Rsa, signature),
        },
    }
}

/// One PIV card as the agent uses it. The PIN is not part of it: whoever talks
/// to the card holds it.
pub struct PivSshAgent {
    reader: String,
    slots: Vec<Slot>,
}

/// The slots that can sign, in the order they are offered: the three of the
/// standard first, then all retired ones.
pub open spec fn signing_slots() -> Seq<Slot> {
    seq![Slot::Authentication, Slot::CardAuthentication, Slot::Signature] + Seq::new(
        20,
        |i: int| Slot::Retired((i + 1) as u8),
    )
}

impl PivSshAgent {
    /// Name of the reader.
    pub closed spec fn reader_name(self) -> Seq<char> {
        self.reader@
    }

    /// The slots, in order.
    pub closed spec fn slot_list(self) -> Seq<Slot> {
        self.slots@
    }

    /// An agent on the card in that reader, offering all slots that can sign.
    pub fn new(reader: String) -> (r: PivSshAgent)
        ensures
            r.reader_name() == reader@,
            r.slot_list() == signing_slots(),
    {
        let mut slots: Vec<Slot> = vec![Slot::Authentication, Slot::CardAuthentication, Slot::Signature];
        let mut retired = Slot::retired_all();
        slots.append(&mut retired);
        assert(slots@ =~= signing_slots());
        PivSshAgent { reader, slots }
    }

    /// Name of the reader.
    pub fn reader(&self) -> (r: &str)
        ensures
            r@ == self.reader_name(),
    {
        self.reader.as_str()
    }

    /// The slots, in order.
    pub fn slots(&self) -> (r: &Vec<Slot>)
        ensures
            r@ == self.slot_list(),
    {
        &self.slots
    }
}

impl Clone for PivSshAgent {
    fn clone(&self) -> (r: PivSshAgent)
        ensures
            r.reader_name() == self.reader_name(),
            r.slot_list() == self.slot_list(),
    {
        let slots = self.slots.clone();
        assert(slots@ =~= self.slots@);
        PivSshAgent { reader: self.reader.clone(), slots }
    }
}

/// The agent that answers SSH clients.
pub struct KeyroostAgent {
    piv: PivSshAgent,
}

impl Clone for KeyroostAgent {
    fn clone(&self) -> (r: KeyroostAgent)
        ensures
            r.card().reader_name() == self.card().reader_name(),
            r.card().slot_list() == self.card().slot_list(),
    {
        KeyroostAgent { piv: self.piv.clone() }
    }
}

/// What the agent does next on a request to sign.
#[derive(Debug)]
pub enum SignStep {
    /// Verify the PIN, then have the card sign with identity number `id`.
    Card { id: usize },
    /// Answer that there is no such key.
    NoIdentity,
}

impl KeyroostAgent {
    /// The card it answers for.
    pub closed spec fn card(self) -> PivSshAgent {
        self.piv
    }

    /// An agent for one card.
    pub fn new(piv: PivSshAgent) -> (r: KeyroostAgent)
        ensures
            r.card() == piv,
    {
        KeyroostAgent { piv }
    }

    /// The card it answers for.
    pub fn piv(&self) -> (r: &PivSshAgent)
        ensures
            *r == self.card(),
    {
        &self.piv
    }

    /// Decides on a request to sign: the PIN is only ever verified for a key
    /// that the card holds.
    pub fn sign(&self, ids: &Vec<PivIdentity>, want: &PublicCredential) -> (r: SignStep)
        ensures
            match (r, identity_for(ids@, *want)) {
                (SignStep::Card { id }, Some(j)) => id == j && id < ids@.len(),
                (SignStep::NoIdentity, None) => true,
                _ => false,
            },
    {
        match find_identity(ids, want) {
            Some(id) => SignStep::Card { id },
            None => SignStep::NoIdentity,
        }
    }
}

/// The identity that signs is one with the key that was asked for, and no
/// earlier one has it.
pub proof fn law_signs_with_the_requested_key(ids: Seq<PivIdentity>, key: SshKey, i: int)
    requires
        identity_for(ids, PublicCredential::Key(key)) == Some(i),
    ensures
        0 <= i < ids.len(),
        ids[i].key@ == key@,
        forall|k: int| 0 <= k < i ==> (#[trigger] ids[k]).key@ != key@,
    decreases ids.len(),
{
    let want = PublicCredential::Key(key);
    if ids.len() > 0 {
        let init = ids.drop_last();
        match identity_for(init, want) {
            Some(j) => {
                law_signs_with_the_requested_key(init, key, j);
                assert forall|k: int| 0 <= k < i implies (#[trigger] ids[k]).key@ != key@ by {
                    assert(init[k] == ids[k]);
                }
            },
            None => {
                law_no_identity_no_key(init, key);
                assert forall|k: int| 0 <= k < i implies (#[trigger] ids[k]).key@ != key@ by {
                    assert(init[k] == ids[k]);
                }
            },
        }
    }
}

/// Where no identity is found, none has the key that was asked for.
pub proof fn law_no_identity_no_key(ids: Seq<PivIdentity>, key: SshKey)
    requires
        identity_for(ids, PublicCredential::Key(key)) is None,
    ensures
        forall|k: int| 0 <= k < ids.len() ==> (#[trigger] ids[k]).key@ != key@,
    decreases ids.len(),
{
    if ids.len() > 0 {
        let init = ids.drop_last();
        law_no_identity_no_key(init, key);
        assert forall|k: int| 0 <= k < ids.len() implies (#[trigger] ids[k]).key@ != key@ by {
            if k < ids.len() - 1 {
                assert(init[k] == ids[k]);
            }
        }
    }
}

/// A key that the agent offers is one it signs with.
pub proof fn law_offered_keys_sign(ids: Seq<PivIdentity>, i: int)
    requires
        0 <= i < ids.len(),
    ensures
        identity_for(ids, PublicCredential::Key(ids[i].key)) matches Some(j) && 0 <= j <= i && ids[j].key@
            == ids[i].key@,
{
    let key = ids[i].key;
    match identity_for(ids, PublicCredential::Key(key)) {
        Some(j) => {
            law_signs_with_the_requested_key(ids, key, j);
            if j > i {
                assert(ids[i].key@ != key@);
            }
        },
        None => {
            law_no_identity_no_key(ids, key);
            assert(ids[i].key@ != key@);
        },
    }
}

/// A number of a signature is written without needless leading zeros, and never
/// reads as a negative one.
pub proof fn law_numbers_are_canonical(n: Seq<u8>)
    ensures
        canonical_int(positive_int(n)),
        positive_int(n).len() > 0 ==> positive_int(n)[0] < 0x80,
        positive_int(n).len() <= n.len() + 1,
    decreases n.len(),
{
    if n.len() > 0 && n[0] == 0 {
        law_numbers_are_canonical(n.drop_first());
    }
}

/// Every slot is offered once.
pub proof fn law_signing_slots_differ(i: int, j: int)
    requires
        0 <= i < j < signing_slots().len(),
    ensures
        signing_slots().len() == 23,
        signing_slots()[i].valid(),
        signing_slots()[j].valid(),
        signing_slots()[i] != signing_slots()[j],
{
}

/// The key that is offered is the one on the card, byte for byte, and of the kind
/// that its algorithm says; nothing else is offered as a key.
pub proof fn law_offered_key_is_the_cards_key(alg: KeyAlg, key: PublicKey)
    ensures
        match (ssh_key_spec(alg, key), key) {
            (Some(SshKeyView::Rsa { n, e }), PublicKey::Rsa { modulus, exponent }) => n == modulus@ && e == exponent@,
            (Some(SshKeyView::EcdsaP256(p)), PublicKey::Ecc { point }) => alg == KeyAlg::EccP256 && p == point@,
            (Some(SshKeyView::EcdsaP384(p)), PublicKey::Ecc { point }) => alg == KeyAlg::EccP384 && p == point@,
            (Some(SshKeyView::Ed25519(k)), PublicKey::Ecc { point }) => alg == KeyAlg::Ed25519 && k == point@
                && k.len() == 32,
            (None, PublicKey::Rsa { modulus, exponent }) => !canonical_int(modulus@) || !canonical_int(exponent@),
            (None, PublicKey::Ecc { point }) => match alg {
                KeyAlg::EccP256 => !point_encoding(point@, 32),
                KeyAlg::EccP384 => !point_encoding(point@, 48),
                KeyAlg::Ed25519 => point@.len() != 32,
                _ => true,
            },
            _ => false,
        },
{
}

/// The slots that give an identity are found one by one, in order.
pub proof fn law_usable_slots_are_listed_in_order(findings: Seq<SlotFinding>, f: SlotFinding)
    ensures
        usable_slots(Seq::<SlotFinding>::empty()).len() == 0,
        usable_slots(findings.push(f)) == (if f matches SlotFinding::Key(a, k) && ssh_key_spec(a, k) is Some {
            usable_slots(findings).push(findings.len() as int)
        } else {
            usable_slots(findings)
        }),
{
    assert(findings.push(f).drop_last() =~= findings);
}

/// An identity belongs to the slot it was found in, with the key and the algorithm
/// of that slot's certificate.
pub proof fn law_identity_is_of_its_slot(ids: Seq<PivIdentity>, reports: Seq<SlotReport>, i: int)
    requires
        identities_are(ids, reports),
        0 <= i < ids.len(),
    ensures
        exists|k: int|
            0 <= k < reports.len() && ids[i].slot == (#[trigger] reports[k]).slot && ids[i].comment@ == "PIV "@
                + reports[k].label@ && (reports[k].finding matches SlotFinding::Key(a, key) && ids[i].key_alg == a
                && ssh_key_spec(a, key) == Some(ids[i].key@)),
{
    let at = usable_slots(findings_of(reports));
    assert(identity_is(ids[i], reports[at[i]].slot, reports[at[i]].label@, reports[at[i]].finding));
}

/// The card is handed the digest that its key needs, or the data where it needs
/// none.
pub proof fn law_card_gets_the_right_digest(data: Seq<u8>)
    ensures
        prepared(SigHash::Sha256, data) == sha256_of(data),
        prepared(SigHash::Sha384, data) == sha384_of(data),
        prepared(SigHash::Raw, data) == data,
{
}

/// Only zeros at the front of a number are left out, and all of them.
pub proof fn law_only_leading_zeros_are_left_out(n: Seq<u8>)
    ensures
        stripped(n).len() <= n.len(),
        stripped(n) == n.skip(n.len() - stripped(n).len()),
        forall|k: int| 0 <= k < n.len() - stripped(n).len() ==> #[trigger] n[k] == 0,
        stripped(n).len() > 0 ==> stripped(n)[0] != 0,
        positive_int(n) == stripped(n) || positive_int(n) == seq![0u8] + stripped(n),
    decreases n.len(),
{
    if n.len() > 0 && n[0] == 0 {
        let rest = n.drop_first();
        law_only_leading_zeros_are_left_out(rest);
        assert(rest.skip(rest.len() - stripped(rest).len()) =~= n.skip(n.len() - stripped(n).len()));
        assert forall|k: int| 0 <= k < n.len() - stripped(n).len() implies #[trigger] n[k] == 0 by {
            if k > 0 {
                assert(rest[k - 1] == n[k]);
            }
        }
    } else {
        assert(n.skip(0) =~= n);
    }
}

/// An ECDSA signature is read back from what is written: the length of the first
/// number in four bytes, its bytes, and the same of the second number.
pub proof fn law_ecdsa_numbers_are_read_back(numbers: Seq<u8>, half: int)
    requires
        0 <= half <= 200,
        numbers.len() == 2 * half,
    ensures
        ({
            let r = positive_int(numbers.take(half));
            let s = positive_int(numbers.skip(half));
            let b = ecdsa_blob(numbers, half);
            let m = r.len() as int + 4;
            &&& b.len() == r.len() + s.len() + 8
            &&& b[0] == 0 && b[1] == 0 && b[2] == 0 && b[3] == r.len()
            &&& b.subrange(4, m) == r
            &&& b[m] == 0 && b[m + 1] == 0 && b[m + 2] == 0 && b[m + 3] == s.len()
            &&& b.skip(m + 4) == s
        }),
{
    let r = positive_int(numbers.take(half));
    let s = positive_int(numbers.skip(half));
    law_numbers_are_canonical(numbers.take(half));
    law_numbers_are_canonical(numbers.skip(half));
    let b = ecdsa_blob(numbers, half);
    let m = r.len() as int + 4;
    assert(b.subrange(4, m) =~= r);
    assert(b.skip(m + 4) =~= s);
}

/// A signature goes out under the algorithm of the key that made it, and keys that
/// make none, or whose signature cannot be read, give none.
pub proof fn law_signature_is_of_the_keys_algorithm(alg: KeyAlg, signature: Seq<u8>, rsa_hash: Option<RsaHash>)
    ensures
        match signature_spec(alg, signature, rsa_hash) {
            Some((SshAlgorithm::EcdsaP256, b)) => alg == KeyAlg::EccP256 && p256_numbers(signature) is Some && b
                == ecdsa_blob(p256_numbers(signature)->Some_0, 32),
            Some((SshAlgorithm::EcdsaP384, b)) => alg == KeyAlg::EccP384 && p384_numbers(signature) is Some && b
                == ecdsa_blob(p384_numbers(signature)->Some_0, 48),
            Some((SshAlgorithm::Ed25519, b)) => alg == KeyAlg::Ed25519 && signature.len() == 64 && b == signature,
            Some((SshAlgorithm::RsaSha256, b)) => is_rsa(alg) && rsa_hash is Some && rsa_hash->Some_0 is Sha256 && b
                == sha256_of(signature),
            Some((SshAlgorithm::RsaSha512, b)) => is_rsa(alg) && rsa_hash is Some && rsa_hash->Some_0 is Sha512 && b
                == sha512_of(signature),
            Some((SshAlgorithm::Rsa, _)) => false,
            None => match alg {
                KeyAlg::EccP256 => p256_numbers(signature) is None,
                KeyAlg::EccP384 => p384_numbers(signature) is None,
                KeyAlg::Ed25519 => signature.len() != 64,
                KeyAlg::X25519 => true,
                _ => !(rsa_hash is Some && (rsa_hash->Some_0 is Sha256 || rsa_hash->Some_0 is Sha512)),
            },
        },
{
}

/// Every slot that can sign is looked at, the one for key management alone is not.
pub proof fn law_all_signing_slots_are_looked_at(slot: Slot)
    requires
        slot.valid(),
    ensures
        signing_slots().contains(slot) <==> slot != Slot::KeyManagement,
        signing_slots()[0] == Slot::Authentication,
{
    let all = signing_slots();
    assert(all[0] == Slot::Authentication && all[1] == Slot::CardAuthentication && all[2] == Slot::Signature);
    if let Slot::Retired(n) = slot {
        assert(all[n + 2] == slot);
    }
}

} // verus!
