//! The OpenPGP commands.

use crate::hashes::{sha1, sha1_of, sha256, sha256_of};
use crate::json_out::OpenpgpStatusJson;
use crate::plan::lemma_short_plan;
use crate::secrets::SecretOpts;
use crate::text::{
    cat2, cat3, cat4, cat5, cat6, dec_text, dec_u32, dec_u8, dec_usize, has_run, hex_encode, hex_nat,
    hex_padded, hex_text, join, joined, lemma_holds, opt_view, pad_right, padded_left, padded_right, views, Lines,
};
use vstd::prelude::*;

verus! {

/// Password reference of PW1 for signatures.
pub const PW1_SIGN: u8 = 0x81;

/// Password reference of PW1 for everything else.
pub const PW1_OTHER: u8 = 0x82;

/// Password reference of PW3.
pub const PW3_ADMIN: u8 = 0x83;

/// A key slot of an OpenPGP card.
#[derive(Clone, Copy, Debug, PartialEq, Eq, Structural)]
pub enum OpenpgpSlot {
    /// For signatures.
    Sign,
    /// For decryption.
    Decrypt,
    /// For authentication.
    Auth,
}

impl OpenpgpSlot {
    /// What the messages call it.
    pub open spec fn name(self) -> Seq<char> {
        match self {
            OpenpgpSlot::Sign => "signature"@,
            OpenpgpSlot::Decrypt => "decryption"@,
            OpenpgpSlot::Auth => "authentication"@,
        }
    }

    /// What the messages call it.
    pub fn label(self) -> (r: &'static str)
        ensures
            r@ == self.name(),
    {
        match self {
            OpenpgpSlot::Sign => "signature",
            OpenpgpSlot::Decrypt => "decryption",
            OpenpgpSlot::Auth => "authentication",
        }
    }
}

/// Which PIN is meant.
#[derive(Clone, Copy, Debug, PartialEq, Eq, Structural)]
pub enum OpenpgpPinKind {
    /// PW1.
    User,
    /// PW3.
    Admin,
}

impl OpenpgpPinKind {
    /// The password reference a check of the PIN goes against. PW1 is checked
    /// outside the context of signatures.
    pub fn pw_ref(self) -> (r: u8)
        ensures
            r == (match self {
                OpenpgpPinKind::User => PW1_OTHER,
                OpenpgpPinKind::Admin => PW3_ADMIN,
            }),
    {
        match self {
            OpenpgpPinKind::User => PW1_OTHER,
            OpenpgpPinKind::Admin => PW3_ADMIN,
        }
    }

    /// What the messages call it.
    pub open spec fn name(self) -> Seq<char> {
        match self {
            OpenpgpPinKind::User => "user (PW1)"@,
            OpenpgpPinKind::Admin => "admin (PW3)"@,
        }
    }

    /// What the messages call it.
    pub fn label(self) -> (r: &'static str)
        ensures
            r@ == self.name(),
    {
        match self {
            OpenpgpPinKind::User => "user (PW1)",
            OpenpgpPinKind::Admin => "admin (PW3)",
        }
    }
}

/// Digest to sign with.
#[derive(Clone, Copy, Debug, PartialEq, Eq, Structural)]
pub enum SignHash {
    /// SHA-1.
    Sha1,
    /// SHA-256.
    Sha256,
}

impl SignHash {
    /// The digest of a message.
    pub open spec fn digest_of(self, data: Seq<u8>) -> Seq<u8> {
        match self {
            SignHash::Sha1 => sha1_of(data),
            SignHash::Sha256 => sha256_of(data),
        }
    }

    /// The fixed bytes before the digest in a PKCS#1 `DigestInfo`.
    pub open spec fn prefix(self) -> Seq<u8> {
        match self {
            SignHash::Sha1 => seq![
                0x30,
                0x21,
                0x30,
                0x09,
                0x06,
                0x05,
                0x2b,
                0x0e,
                0x03,
                0x02,
                0x1a,
                0x05,
                0x00,
                0x04,
                0x14,
            ],
            SignHash::Sha256 => seq![
                0x30,
                0x31,
                0x30,
                0x0d,
                0x06,
                0x09,
                0x60,
                0x86,
                0x48,
                0x01,
                0x65,
                0x03,
                0x04,
                0x02,
                0x01,
                0x05,
                0x00,
                0x04,
                0x20,
            ],
        }
    }

    /// The PKCS#1 `DigestInfo` around a digest that was already made.
    pub fn wrap_digest(self, digest: Vec<u8>) -> (r: Vec<u8>)
        ensures
            r@ == self.prefix() + digest@,
    {
        let mut r: Vec<u8> = match self {
            SignHash::Sha1 => vec![
                0x30,
                0x21,
                0x30,
                0x09,
                0x06,
                0x05,
                0x2b,
                0x0e,
                0x03,
                0x02,
                0x1a,
                0x05,
                0x00,
                0x04,
                0x14,
            ],
            SignHash::Sha256 => vec![
                0x30,
                0x31,
                0x30,
                0x0d,
                0x06,
                0x09,
                0x60,
                0x86,
                0x48,
                0x01,
                0x65,
                0x03,
                0x04,
                0x02,
                0x01,
                0x05,
                0x00,
                0x04,
                0x20,
            ],
        };
        assert(r@ =~= self.prefix());
        let mut digest = digest;
        r.append(&mut digest);
        r
    }

    /// The PKCS#1 `DigestInfo` of a message.
    pub fn digest_info(self, data: &[u8]) -> (r: Vec<u8>)
        ensures
            r@ == self.prefix() + self.digest_of(data@),
    {
        let d = self.digest(data);
        self.wrap_digest(d)
    }

    /// What the messages call it.
    pub open spec fn name(self) -> Seq<char> {
        match self {
            SignHash::Sha1 => "SHA-1"@,
            SignHash::Sha256 => "SHA-256"@,
        }
    }

    /// What the messages call it.
    pub fn label(self) -> (r: &'static str)
        ensures
            r@ == self.name(),
    {
        match self {
            SignHash::Sha1 => "SHA-1",
            SignHash::Sha256 => "SHA-256",
        }
    }

    /// The digest of a message.
    pub fn digest(self, data: &[u8]) -> (r: Vec<u8>)
        ensures
            r@ == self.digest_of(data@),
            r@.len() == (match self {
                SignHash::Sha1 => 20nat,
                SignHash::Sha256 => 32nat,
            }),
    {
        match self {
            SignHash::Sha1 => sha1(data),
            SignHash::Sha256 => sha256(data),
        }
    }
}

/// The last byte of the fixed part is the length of the digest that follows,
/// and the second byte the length of all that follows it.
pub proof fn law_digest_info_lengths(hash: SignHash, digest: Seq<u8>)
    requires
        digest.len() == (match hash {
            SignHash::Sha1 => 20nat,
            SignHash::Sha256 => 32nat,
        }),
    ensures
        hash.prefix().last() == digest.len(),
        (hash.prefix() + digest).len() == hash.prefix()[1] + 2,
{
}

/// How the input of a slot is framed.
#[derive(Clone, Copy, Debug, PartialEq, Eq, Structural)]
pub enum Framing {
    /// As a `DigestInfo`.
    DigestInfo,
    /// As the bare digest.
    Digest,
}

/// Why SHA-1 is refused on an elliptic-curve key.
pub const SHA1_ON_ECC: &'static str = "SHA-1 cannot be used with an ECC signing key (OpenPGP requires a 256-bit or wider hash for Ed25519/ECDSA); use --hash sha256";

/// The message for attributes that do not tell the algorithm.
pub open spec fn unknown_slot_text(slot: Seq<char>, attrs: Seq<u8>) -> Seq<char> {
    "cannot tell the "@ + slot + " slot's algorithm from the card's attributes ("@ + hex_text(attrs)
        + "); refusing to guess how to frame the input"@
}

fn unknown_slot(slot: &str, attrs: &[u8]) -> (r: String)
    ensures
        r@ == unknown_slot_text(slot@, attrs@),
{
    cat5(
        "cannot tell the ",
        slot,
        " slot's algorithm from the card's attributes (",
        hex_encode(attrs).as_str(),
        "); refusing to guess how to frame the input",
    )
}

/// How the input of a slot is framed, by the first byte of its attributes.
pub open spec fn framing_spec(slot: Seq<char>, attrs: Seq<u8>, is_ecc: bool, hash: SignHash) -> Result<
    Framing,
    Seq<char>,
> {
    if attrs.len() > 0 && attrs[0] == 0x01 {
        Ok(Framing::DigestInfo)
    } else if attrs.len() > 0 && (attrs[0] == 0x12 || attrs[0] == 0x13 || attrs[0] == 0x16) {
        if is_ecc && hash == SignHash::Sha1 {
            Err(SHA1_ON_ECC@)
        } else {
            Ok(Framing::Digest)
        }
    } else {
        Err(unknown_slot_text(slot, attrs))
    }
}

/// Chooses how the input of a slot is framed. Attributes that do not tell the
/// algorithm are an error, not a guess. `is_ecc` is whether the attributes as a
/// whole describe an elliptic-curve key.
pub fn sign_framing(slot_label: &str, slot_attrs: &[u8], is_ecc: bool, hash: SignHash) -> (r: Result<
    Framing,
    String,
>)
    ensures
        match (r, framing_spec(slot_label@, slot_attrs@, is_ecc, hash)) {
            (Ok(f), Ok(g)) => f == g,
            (Err(e), Err(m)) => e@ == m,
            _ => false,
        },
{
    if slot_attrs.len() == 0 {
        return Err(unknown_slot(slot_label, slot_attrs));
    }
    let id: u8 = slot_attrs[0];
    if id == 0x01 {
        Ok(Framing::DigestInfo)
    } else if id == 0x12 || id == 0x13 || id == 0x16 {
        let weak = match hash {
            SignHash::Sha1 => true,
            SignHash::Sha256 => false,
        };
        if is_ecc && weak {
            Err(SHA1_ON_ECC.to_owned())
        } else {
            Ok(Framing::Digest)
        }
    } else {
        Err(unknown_slot(slot_label, slot_attrs))
    }
}

/// What the card is handed for a signature: RSA slots take a `DigestInfo`,
/// elliptic-curve slots the bare digest.
pub fn openpgp_sign_input(slot_label: &str, slot_attrs: &[u8], is_ecc: bool, hash: SignHash, data: &[u8]) -> (r:
    Result<Vec<u8>, String>)
    ensures
        match (r, framing_spec(slot_label@, slot_attrs@, is_ecc, hash)) {
            (Ok(v), Ok(Framing::DigestInfo)) => v@ == hash.prefix() + hash.digest_of(data@),
            (Ok(v), Ok(Framing::Digest)) => v@ == hash.digest_of(data@),
            (Err(e), Err(m)) => e@ == m,
            _ => false,
        },
{
    match sign_framing(slot_label, slot_attrs, is_ecc, hash) {
        Ok(Framing::DigestInfo) => Ok(hash.digest_info(data)),
        Ok(Framing::Digest) => Ok(hash.digest(data)),
        Err(e) => Err(e),
    }
}

/// SHA-1 never reaches a card as the input of an elliptic-curve key.
pub proof fn law_no_sha1_on_ecc(slot: Seq<char>, attrs: Seq<u8>)
    ensures
        framing_spec(slot, attrs, true, SignHash::Sha1) != Ok::<Framing, Seq<char>>(Framing::Digest),
{
}

/// What a decryption slot does with its input.
#[derive(Clone, Copy, Debug, PartialEq, Eq, Structural)]
pub enum Decryption {
    /// It derives a shared secret.
    Ecdh,
    /// It decrypts.
    Rsa,
}

/// Chooses what a decryption slot does, by the first byte of its attributes.
/// Anything else is refused.
pub fn decrypt_kind(attrs: &[u8]) -> (r: Result<Decryption, String>)
    ensures
        match r {
            Ok(Decryption::Ecdh) => attrs@.len() > 0 && attrs@[0] == 0x12,
            Ok(Decryption::Rsa) => attrs@.len() > 0 && attrs@[0] == 0x01,
            Err(e) => !(attrs@.len() > 0 && (attrs@[0] == 0x12 || attrs@[0] == 0x01)) && e@ == unknown_slot_text(
                "decryption"@,
                attrs@,
            ),
        },
{
    if attrs.len() > 0 && attrs[0] == 0x12 {
        Ok(Decryption::Ecdh)
    } else if attrs.len() > 0 && attrs[0] == 0x01 {
        Ok(Decryption::Rsa)
    } else {
        Err(unknown_slot("decryption", attrs))
    }
}

/// A key algorithm of an OpenPGP card.
#[derive(Clone, Copy, Debug, PartialEq, Eq, Structural)]
pub enum OpenpgpKeyAlg {
    /// RSA with 2048 bits.
    Rsa2048,
    /// RSA with 3072 bits.
    Rsa3072,
    /// RSA with 4096 bits.
    Rsa4096,
    /// Ed25519.
    Ed25519,
    /// X25519.
    X25519,
    /// NIST P-256.
    NistP256,
    /// NIST P-384.
    NistP384,
    /// NIST P-521.
    NistP521,
    /// secp256k1.
    Secp256k1,
    /// Brainpool P-256.
    BrainpoolP256r1,
    /// Brainpool P-384.
    BrainpoolP384r1,
    /// Brainpool P-512.
    BrainpoolP512r1,
}

/// An OpenPGP command, its reader selector apart.
#[derive(Debug)]
pub enum OpenpgpCmd {
    /// Show the state of the applet.
    Status,
    /// Check a PIN.
    Verify { kind: OpenpgpPinKind, pin: SecretOpts },
    /// Show a public key.
    PublicKey { slot: OpenpgpSlot },
    /// List the algorithms of the card.
    Algorithms,
    /// Wipe the applet.
    Reset { yes: bool },
    /// Set the name of the holder.
    SetName { name: String, admin_pin: SecretOpts },
    /// Set the address of the public key.
    SetUrl { url: String, admin_pin: SecretOpts },
    /// Make a key pair on the card.
    GenerateKey { slot: OpenpgpSlot, algorithm: Option<OpenpgpKeyAlg>, yes: bool, admin_pin: SecretOpts },
    /// Bring a key pair from outside.
    ImportKey { generate: bool, in_file: Option<String>, slot: OpenpgpSlot, yes: bool, admin_pin: SecretOpts },
    /// Sign a file.
    Sign { input: String, out: Option<String>, pin: SecretOpts, hash: SignHash },
    /// Decrypt a file.
    Decrypt { input: String, out: Option<String>, pin: SecretOpts },
    /// Sign a challenge for authentication.
    Authenticate { input: String, out: Option<String>, pin: SecretOpts, hash: SignHash },
    /// Change PW1.
    ChangePin { old_pin: SecretOpts, new_pin: SecretOpts },
    /// Change PW3.
    ChangeAdminPin { old_pin: SecretOpts, new_pin: SecretOpts },
    /// Set a new PW1 with PW3.
    UnblockPin { admin_pin: SecretOpts, new_pin: SecretOpts },
}

/// A secret an OpenPGP command asks for.
#[derive(Clone, Copy, Debug, PartialEq, Eq, Structural)]
pub enum PgpSecret {
    /// A PIN to check.
    Pin,
    /// PW1 for signatures.
    SigningPin,
    /// PW1.
    UserPin,
    /// PW3.
    AdminPin,
    /// PW1 in force.
    OldUserPin,
    /// PW1 to be.
    NewUserPin,
    /// PW3 in force.
    OldAdminPin,
    /// PW3 to be.
    NewAdminPin,
}

impl PgpSecret {
    /// What the messages call it.
    pub open spec fn name(self) -> Seq<char> {
        match self {
            PgpSecret::Pin => "OpenPGP PIN"@,
            PgpSecret::SigningPin => "signing PIN (PW1)"@,
            PgpSecret::UserPin => "user PIN (PW1)"@,
            PgpSecret::AdminPin => "admin PIN (PW3)"@,
            PgpSecret::OldUserPin => "old user PIN (PW1)"@,
            PgpSecret::NewUserPin => "new user PIN (PW1)"@,
            PgpSecret::OldAdminPin => "old admin PIN (PW3)"@,
            PgpSecret::NewAdminPin => "new admin PIN (PW3)"@,
        }
    }

    /// What the messages call it.
    pub fn label(self) -> (r: &'static str)
        ensures
            r@ == self.name(),
    {
        match self {
            PgpSecret::Pin => "OpenPGP PIN",
            PgpSecret::SigningPin => "signing PIN (PW1)",
            PgpSecret::UserPin => "user PIN (PW1)",
            PgpSecret::AdminPin => "admin PIN (PW3)",
            PgpSecret::OldUserPin => "old user PIN (PW1)",
            PgpSecret::NewUserPin => "new user PIN (PW1)",
            PgpSecret::OldAdminPin => "old admin PIN (PW3)",
            PgpSecret::NewAdminPin => "new admin PIN (PW3)",
        }
    }
}

/// One operation of a plan.
#[derive(Clone, Copy, Debug, PartialEq, Eq, Structural)]
pub enum PgpOp {
    /// Read the file to work on.
    ReadInput,
    /// Refuse an algorithm that the slot cannot have.
    CheckAlgorithm(OpenpgpSlot, OpenpgpKeyAlg),
    /// Read a secret from where the command says it is.
    Read(PgpSecret),
    /// Make an RSA key pair on the host.
    GenerateOnHost,
    /// Load an RSA key pair from its file, or refuse where none was named.
    LoadKeyFile,
    /// Open the applet in the resolved reader.
    Open,
    /// Verify the secret just read against this password reference.
    Verify(u8),
    /// Read the state of the applet.
    ReadStatus,
    /// Show the state of the applet.
    ShowStatus,
    /// Show a public key.
    ShowPublicKey(OpenpgpSlot),
    /// List the algorithms of the card.
    ShowAlgorithms,
    /// Wipe the applet, or refuse.
    Reset(bool),
    /// Set the name of the holder.
    SetName,
    /// Set the address of the public key.
    SetUrl,
    /// Make a key pair in the slot.
    GenerateKey(OpenpgpSlot, Option<OpenpgpKeyAlg>),
    /// Bring a key pair to the slot.
    ImportKey(OpenpgpSlot),
    /// Record the fingerprint of the key in the slot, and the time of that
    /// moment as its creation time.
    Register(OpenpgpSlot),
    /// Frame the input for the slot.
    Frame(OpenpgpSlot, SignHash),
    /// Sign.
    Sign,
    /// Decrypt, or derive a secret.
    Decrypt,
    /// Sign for authentication.
    Authenticate,
    /// Write the result to its file, or print it.
    Deliver,
    /// Change PW1.
    ChangeUserPin,
    /// Change PW3.
    ChangeAdminPin,
    /// Set a new PW1 with PW3.
    ResetRetryCounter,
    /// Say that it is done.
    Report,
}

/// What each command does, in order, or why it refuses before it begins.
pub open spec fn pgp_plan_spec(cmd: OpenpgpCmd) -> Result<Seq<PgpOp>, Seq<char>> {
    match cmd {
        OpenpgpCmd::Status => Ok(seq![PgpOp::Open, PgpOp::ReadStatus, PgpOp::ShowStatus]),
        OpenpgpCmd::Verify { kind, .. } => Ok(
            seq![
                PgpOp::Read(PgpSecret::Pin),
                PgpOp::Open,
                PgpOp::Verify(
                    match kind {
                        OpenpgpPinKind::User => PW1_OTHER,
                        OpenpgpPinKind::Admin => PW3_ADMIN,
                    },
                ),
                PgpOp::Report,
            ],
        ),
        OpenpgpCmd::PublicKey { slot } => Ok(seq![PgpOp::Open, PgpOp::ShowPublicKey(slot)]),
        OpenpgpCmd::Algorithms => Ok(seq![PgpOp::Open, PgpOp::ShowAlgorithms]),
        OpenpgpCmd::Reset { yes } => Ok(
            seq![PgpOp::Open, PgpOp::ReadStatus, PgpOp::Reset(yes), PgpOp::Report],
        ),
        OpenpgpCmd::SetName { .. } => Ok(
            seq![
                PgpOp::Read(PgpSecret::AdminPin),
                PgpOp::Open,
                PgpOp::Verify(PW3_ADMIN),
                PgpOp::SetName,
                PgpOp::Report,
            ],
        ),
        OpenpgpCmd::SetUrl { .. } => Ok(
            seq![
                PgpOp::Read(PgpSecret::AdminPin),
                PgpOp::Open,
                PgpOp::Verify(PW3_ADMIN),
                PgpOp::SetUrl,
                PgpOp::Report,
            ],
        ),
        OpenpgpCmd::GenerateKey { slot, algorithm, yes, .. } => if yes {
            Ok(
                (match algorithm {
                    Some(a) => seq![PgpOp::CheckAlgorithm(slot, a)],
                    None => Seq::empty(),
                }) + seq![
                    PgpOp::Read(PgpSecret::AdminPin),
                    PgpOp::Open,
                    PgpOp::Verify(PW3_ADMIN),
                    PgpOp::GenerateKey(slot, algorithm),
                    PgpOp::ShowPublicKey(slot),
                    PgpOp::Register(slot),
                    PgpOp::Report,
                ],
            )
        } else {
            Err(
                "refusing to generate without --yes (this OVERWRITES the "@ + slot.name() + " key slot)"@,
            )
        },
        OpenpgpCmd::ImportKey { generate, slot, yes, .. } => if yes {
            Ok(
                seq![
                    PgpOp::Read(PgpSecret::AdminPin),
                    if generate {
                        PgpOp::GenerateOnHost
                    } else {
                        PgpOp::LoadKeyFile
                    },
                    PgpOp::Open,
                    PgpOp::Verify(PW3_ADMIN),
                    PgpOp::ImportKey(slot),
                    PgpOp::Register(slot),
                    PgpOp::Report,
                ],
            )
        } else {
            Err("refusing to import without --yes (this OVERWRITES the "@ + slot.name() + " key slot)"@)
        },
        OpenpgpCmd::Sign { hash, .. } => Ok(
            seq![
                PgpOp::ReadInput,
                PgpOp::Read(PgpSecret::SigningPin),
                PgpOp::Open,
                PgpOp::Verify(PW1_SIGN),
                PgpOp::Frame(OpenpgpSlot::Sign, hash),
                PgpOp::Sign,
                PgpOp::Deliver,
            ],
        ),
        OpenpgpCmd::Decrypt { .. } => Ok(
            seq![
                PgpOp::ReadInput,
                PgpOp::Read(PgpSecret::UserPin),
                PgpOp::Open,
                PgpOp::Verify(PW1_OTHER),
                PgpOp::Decrypt,
                PgpOp::Deliver,
            ],
        ),
        OpenpgpCmd::Authenticate { hash, .. } => Ok(
            seq![
                PgpOp::ReadInput,
                PgpOp::Read(PgpSecret::UserPin),
                PgpOp::Open,
                PgpOp::Verify(PW1_OTHER),
                PgpOp::Frame(OpenpgpSlot::Auth, hash),
                PgpOp::Authenticate,
                PgpOp::Deliver,
            ],
        ),
        OpenpgpCmd::ChangePin { .. } => Ok(
            seq![
                PgpOp::Read(PgpSecret::OldUserPin),
                PgpOp::Read(PgpSecret::NewUserPin),
                PgpOp::Open,
                PgpOp::ChangeUserPin,
                PgpOp::Report,
            ],
        ),
        OpenpgpCmd::ChangeAdminPin { .. } => Ok(
            seq![
                PgpOp::Read(PgpSecret::OldAdminPin),
                PgpOp::Read(PgpSecret::NewAdminPin),
                PgpOp::Open,
                PgpOp::ChangeAdminPin,
                PgpOp::Report,
            ],
        ),
        OpenpgpCmd::UnblockPin { .. } => Ok(
            seq![
                PgpOp::Read(PgpSecret::AdminPin),
                PgpOp::Read(PgpSecret::NewUserPin),
                PgpOp::Open,
                PgpOp::ResetRetryCounter,
                PgpOp::Report,
            ],
        ),
    }
}

/// What a planning result holds.
pub open spec fn pgp_result(r: Result<Vec<PgpOp>, String>) -> Result<Seq<PgpOp>, Seq<char>> {
    match r {
        Ok(v) => Ok(v@),
        Err(e) => Err(e@),
    }
}

/// Plans an OpenPGP command.
pub fn run_openpgp(cmd: &OpenpgpCmd) -> (r: Result<Vec<PgpOp>, String>)
    ensures
        pgp_result(r) == pgp_plan_spec(*cmd),
{
    let ghost want = pgp_plan_spec(*cmd);
    let plan: Vec<PgpOp> = match cmd {
        OpenpgpCmd::Status => vec![PgpOp::Open, PgpOp::ReadStatus, PgpOp::ShowStatus],
        OpenpgpCmd::Verify { kind, .. } => vec![
            PgpOp::Read(PgpSecret::Pin),
            PgpOp::Open,
            PgpOp::Verify(kind.pw_ref()),
            PgpOp::Report,
        ],
        OpenpgpCmd::PublicKey { slot } => vec![PgpOp::Open, PgpOp::ShowPublicKey(*slot)],
        OpenpgpCmd::Algorithms => vec![PgpOp::Open, PgpOp::ShowAlgorithms],
        OpenpgpCmd::Reset { yes } => vec![
            PgpOp::Open,
            PgpOp::ReadStatus,
            PgpOp::Reset(*yes),
            PgpOp::Report,
        ],
        OpenpgpCmd::SetName { .. } => vec![
            PgpOp::Read(PgpSecret::AdminPin),
            PgpOp::Open,
            PgpOp::Verify(PW3_ADMIN),
            PgpOp::SetName,
            PgpOp::Report,
        ],
        OpenpgpCmd::SetUrl { .. } => vec![
            PgpOp::Read(PgpSecret::AdminPin),
            PgpOp::Open,
            PgpOp::Verify(PW3_ADMIN),
            PgpOp::SetUrl,
            PgpOp::Report,
        ],
        OpenpgpCmd::GenerateKey { slot, algorithm, yes, .. } => {
            if !*yes {
                return Err(
                    cat3(
                        "refusing to generate without --yes (this OVERWRITES the ",
                        slot.label(),
                        " key slot)",
                    ),
                );
            }
            let mut p: Vec<PgpOp> = Vec::new();
            match algorithm {
                Some(a) => p.push(PgpOp::CheckAlgorithm(*slot, *a)),
                None => {},
            }
            p.push(PgpOp::Read(PgpSecret::AdminPin));
            p.push(PgpOp::Open);
            p.push(PgpOp::Verify(PW3_ADMIN));
            p.push(PgpOp::GenerateKey(*slot, *algorithm));
            p.push(PgpOp::ShowPublicKey(*slot));
            p.push(PgpOp::Register(*slot));
            p.push(PgpOp::Report);
            p
        },
        OpenpgpCmd::ImportKey { generate, slot, yes, .. } => {
            if !*yes {
                return Err(
                    cat3(
                        "refusing to import without --yes (this OVERWRITES the ",
                        slot.label(),
                        " key slot)",
                    ),
                );
            }
            let source = if *generate {
                PgpOp::GenerateOnHost
            } else {
                PgpOp::LoadKeyFile
            };
            vec![
                PgpOp::Read(PgpSecret::AdminPin),
                source,
                PgpOp::Open,
                PgpOp::Verify(PW3_ADMIN),
                PgpOp::ImportKey(*slot),
                PgpOp::Register(*slot),
                PgpOp::Report,
            ]
        },
        OpenpgpCmd::Sign { hash, .. } => vec![
            PgpOp::ReadInput,
            PgpOp::Read(PgpSecret::SigningPin),
            PgpOp::Open,
            PgpOp::Verify(PW1_SIGN),
            PgpOp::Frame(OpenpgpSlot::Sign, *hash),
            PgpOp::Sign,
            PgpOp::Deliver,
        ],
        OpenpgpCmd::Decrypt { .. } => vec![
            PgpOp::ReadInput,
            PgpOp::Read(PgpSecret::UserPin),
            PgpOp::Open,
            PgpOp::Verify(PW1_OTHER),
            PgpOp::Decrypt,
            PgpOp::Deliver,
        ],
        OpenpgpCmd::Authenticate { hash, .. } => vec![
            PgpOp::ReadInput,
            PgpOp::Read(PgpSecret::UserPin),
            PgpOp::Open,
            PgpOp::Verify(PW1_OTHER),
            PgpOp::Frame(OpenpgpSlot::Auth, *hash),
            PgpOp::Authenticate,
            PgpOp::Deliver,
        ],
        OpenpgpCmd::ChangePin { .. } => vec![
            PgpOp::Read(PgpSecret::OldUserPin),
            PgpOp::Read(PgpSecret::NewUserPin),
            PgpOp::Open,
            PgpOp::ChangeUserPin,
            PgpOp::Report,
        ],
        OpenpgpCmd::ChangeAdminPin { .. } => vec![
            PgpOp::Read(PgpSecret::OldAdminPin),
            PgpOp::Read(PgpSecret::NewAdminPin),
            PgpOp::Open,
            PgpOp::ChangeAdminPin,
            PgpOp::Report,
        ],
        OpenpgpCmd::UnblockPin { .. } => vec![
            PgpOp::Read(PgpSecret::AdminPin),
            PgpOp::Read(PgpSecret::NewUserPin),
            PgpOp::Open,
            PgpOp::ResetRetryCounter,
            PgpOp::Report,
        ],
    };
    assert(want is Ok);
    assert(plan@ =~= want->Ok_0);
    Ok(plan)
}

/// A key is overwritten, and the applet wiped, only when confirmed.
pub proof fn law_pgp_overwrites_only_when_confirmed(cmd: OpenpgpCmd, i: int)
    requires
        pgp_plan_spec(cmd) is Ok,
        0 <= i < pgp_plan_spec(cmd)->Ok_0.len(),
        match pgp_plan_spec(cmd)->Ok_0[i] {
            PgpOp::GenerateKey(_, _) => true,
            PgpOp::ImportKey(_) => true,
            PgpOp::Reset(y) => y,
            _ => false,
        },
    ensures
        match cmd {
            OpenpgpCmd::GenerateKey { yes, .. } => yes,
            OpenpgpCmd::ImportKey { yes, .. } => yes,
            OpenpgpCmd::Reset { yes } => yes,
            _ => false,
        },
{
}

/// What PW3 protects comes after PW3 was verified, a signature after PW1 for
/// signatures, and the other uses of a key after PW1 for those.
pub proof fn law_pgp_verifies_first(cmd: OpenpgpCmd, i: int)
    requires
        pgp_plan_spec(cmd) is Ok,
        0 <= i < pgp_plan_spec(cmd)->Ok_0.len(),
    ensures
        ({
            let plan = pgp_plan_spec(cmd)->Ok_0;
            let need = match plan[i] {
                PgpOp::GenerateKey(_, _) => Some(PW3_ADMIN),
                PgpOp::ImportKey(_) => Some(PW3_ADMIN),
                PgpOp::SetName => Some(PW3_ADMIN),
                PgpOp::SetUrl => Some(PW3_ADMIN),
                PgpOp::Sign => Some(PW1_SIGN),
                PgpOp::Decrypt => Some(PW1_OTHER),
                PgpOp::Authenticate => Some(PW1_OTHER),
                _ => None,
            };
            need matches Some(p) ==> exists|j: int| 0 <= j < i && #[trigger] plan[j] == PgpOp::Verify(p)
        }),
{
    let plan = pgp_plan_spec(cmd)->Ok_0;
    // Where a PIN is verified, it is the third or the fourth operation.
    if plan.len() > 4 {
        assert(plan[2] is Verify || plan[3] is Verify || plan[2] is Open);
    }
}

/// The state of an OpenPGP applet.
#[derive(Debug)]
pub struct OpenpgpStatus {
    /// Application identifier.
    pub aid: Vec<u8>,
    /// Serial number, where the identifier holds one.
    pub serial: Option<u32>,
    /// Label of the signature algorithm.
    pub sig_algo: String,
    /// Label of the decryption algorithm.
    pub dec_algo: String,
    /// Label of the authentication algorithm.
    pub aut_algo: String,
    /// Fingerprint of the signature key.
    pub fingerprint_sig: [u8; 20],
    /// Fingerprint of the decryption key.
    pub fingerprint_dec: [u8; 20],
    /// Fingerprint of the authentication key.
    pub fingerprint_aut: [u8; 20],
    /// Tries of PW1 left.
    pub tries_pw1: u8,
    /// Tries of the resetting code left.
    pub tries_rc: u8,
    /// Tries of PW3 left.
    pub tries_pw3: u8,
    /// Signatures made.
    pub signature_count: Option<u32>,
}

/// Whether all bytes are zero.
pub open spec fn all_zero(bytes: Seq<u8>) -> bool {
    forall|i: int| 0 <= i < bytes.len() ==> #[trigger] bytes[i] == 0
}

/// A fingerprint in hexadecimal; all zeros stand for no key.
pub open spec fn fingerprint_text(f: Seq<u8>) -> Option<Seq<char>> {
    if all_zero(f) {
        None
    } else {
        Some(hex_text(f))
    }
}

/// A fingerprint in hexadecimal; none where the slot holds no key.
pub fn fingerprint(f: &[u8; 20]) -> (r: Option<String>)
    ensures
        opt_view(r) == fingerprint_text(f@),
{
    let mut i: usize = 0;
    while i < 20
        invariant
            i <= 20,
            f@.len() == 20,
            forall|k: int| 0 <= k < i ==> #[trigger] f@[k] == 0,
        decreases 20 - i,
    {
        if f[i] != 0 {
            assert(!all_zero(f@));
            return Some(hex_encode(f.as_slice()));
        }
        i = i + 1;
    }
    assert(all_zero(f@));
    None
}

/// The state of the applet in machine-readable form.
pub fn openpgp_status_json(s: &OpenpgpStatus) -> (r: OpenpgpStatusJson)
    ensures
        r.aid@ == hex_text(s.aid@),
        r.serial == s.serial,
        r.sig_algo@ == s.sig_algo@,
        r.dec_algo@ == s.dec_algo@,
        r.aut_algo@ == s.aut_algo@,
        opt_view(r.fingerprint_sig) == fingerprint_text(s.fingerprint_sig@),
        opt_view(r.fingerprint_dec) == fingerprint_text(s.fingerprint_dec@),
        opt_view(r.fingerprint_aut) == fingerprint_text(s.fingerprint_aut@),
        r.pin_retries_pw1 == s.tries_pw1,
        r.pin_retries_rc == s.tries_rc,
        r.pin_retries_pw3 == s.tries_pw3,
        r.signature_count == s.signature_count,
{
    OpenpgpStatusJson {
        aid: hex_encode(s.aid.as_slice()),
        serial: s.serial,
        sig_algo: s.sig_algo.clone(),
        dec_algo: s.dec_algo.clone(),
        aut_algo: s.aut_algo.clone(),
        fingerprint_sig: fingerprint(&s.fingerprint_sig),
        fingerprint_dec: fingerprint(&s.fingerprint_dec),
        fingerprint_aut: fingerprint(&s.fingerprint_aut),
        pin_retries_pw1: s.tries_pw1,
        pin_retries_rc: s.tries_rc,
        pin_retries_pw3: s.tries_pw3,
        signature_count: s.signature_count,
    }
}

/// The line of a fingerprint.
pub open spec fn fingerprint_line_text(label: Seq<char>, f: Seq<u8>) -> Seq<char> {
    label + ": "@ + (match fingerprint_text(f) {
        Some(t) => t,
        None => "(none)"@,
    })
}

/// The line of a fingerprint; a slot without a key shows none.
pub fn print_fingerprint(label: &str, f: &[u8; 20]) -> (r: String)
    ensures
        r@ == fingerprint_line_text(label@, f@),
{
    match fingerprint(f) {
        Some(t) => cat3(label, ": ", t.as_str()),
        None => cat3(label, ": ", "(none)"),
    }
}

/// The lines on the state of the applet.
pub open spec fn pgp_status_lines(s: OpenpgpStatus) -> Seq<Seq<char>> {
    seq!["AID:            "@ + hex_text(s.aid@)] + (match s.serial {
        Some(n) => seq![
            "Serial:         "@ + dec_text(n as nat) + " (0x"@ + padded_left(hex_nat(n as nat, true), 8, '0')
                + ")"@,
        ],
        None => Seq::empty(),
    }) + seq![
        "Key algorithms: sig="@ + s.sig_algo@ + " dec="@ + s.dec_algo@ + " aut="@ + s.aut_algo@,
        fingerprint_line_text("Signature  fpr"@, s.fingerprint_sig@),
        fingerprint_line_text("Decryption fpr"@, s.fingerprint_dec@),
        fingerprint_line_text("Auth       fpr"@, s.fingerprint_aut@),
        "PIN retries:    PW1="@ + dec_text(s.tries_pw1 as nat) + " RC="@ + dec_text(s.tries_rc as nat)
            + " PW3="@ + dec_text(s.tries_pw3 as nat),
        match s.signature_count {
            Some(n) => "Signatures:     "@ + dec_text(n as nat),
            None => "Signatures:     (unavailable)"@,
        },
    ]
}

/// The state of the applet, line by line.
pub fn openpgp_status_lines(s: &OpenpgpStatus) -> (r: Lines)
    ensures
        r@ == pgp_status_lines(*s),
{
    let mut out = Lines::new();
    out.say(cat2("AID:            ", hex_encode(s.aid.as_slice()).as_str()));
    match s.serial {
        Some(n) => out.say(
            cat5(
                "Serial:         ",
                dec_u32(n).as_str(),
                " (0x",
                hex_padded(n as u64, 8, true).as_str(),
                ")",
            ),
        ),
        None => {},
    }
    out.say(
        cat6(
            "Key algorithms: sig=",
            s.sig_algo.as_str(),
            " dec=",
            s.dec_algo.as_str(),
            " aut=",
            s.aut_algo.as_str(),
        ),
    );
    out.say(print_fingerprint("Signature  fpr", &s.fingerprint_sig));
    out.say(print_fingerprint("Decryption fpr", &s.fingerprint_dec));
    out.say(print_fingerprint("Auth       fpr", &s.fingerprint_aut));
    out.say(
        cat6(
            "PIN retries:    PW1=",
            dec_u8(s.tries_pw1).as_str(),
            " RC=",
            dec_u8(s.tries_rc).as_str(),
            " PW3=",
            dec_u8(s.tries_pw3).as_str(),
        ),
    );
    match s.signature_count {
        Some(n) => out.say(cat2("Signatures:     ", dec_u32(n).as_str())),
        None => out.put("Signatures:     (unavailable)"),
    }
    assert(out@ =~= pgp_status_lines(*s));
    out
}

/// How the messages name the card about to be reset.
pub open spec fn pgp_subject(serial: Option<u32>, aid: Seq<u8>) -> Seq<char> {
    match serial {
        Some(n) => "serial "@ + dec_text(n as nat),
        None => "AID "@ + hex_text(aid),
    }
}

/// Asks for consent to an OpenPGP reset: it names the card and goes on only when
/// confirmed. What it hands back is the line to print afterwards.
pub fn openpgp_reset_consent(yes: bool, serial: Option<u32>, aid: &[u8]) -> (r: Result<String, String>)
    ensures
        match r {
            Ok(s) => yes && s@ == "OpenPGP applet on "@ + pgp_subject(serial, aid@)
                + " reset. All keys wiped; PINs restored to defaults."@,
            Err(e) => !yes && e@ == "refusing to reset the OpenPGP applet on "@ + pgp_subject(serial, aid@)
                + " without --yes (this wipes ALL OpenPGP keys and resets PINs to defaults)"@,
        },
{
    let subject = match serial {
        Some(n) => cat2("serial ", dec_u32(n).as_str()),
        None => cat2("AID ", hex_encode(aid).as_str()),
    };
    if yes {
        Ok(
            cat3(
                "OpenPGP applet on ",
                subject.as_str(),
                " reset. All keys wiped; PINs restored to defaults.",
            ),
        )
    } else {
        Err(
            cat3(
                "refusing to reset the OpenPGP applet on ",
                subject.as_str(),
                " without --yes (this wipes ALL OpenPGP keys and resets PINs to defaults)",
            ),
        )
    }
}

/// A public key read from a slot.
#[derive(Debug)]
pub enum PgpPublicKey {
    /// RSA.
    Rsa { modulus: Vec<u8>, exponent: Vec<u8> },
    /// Elliptic curve.
    Ecc { point: Vec<u8> },
}

/// The lines of a public key.
pub open spec fn public_key_lines(label: Seq<char>, described: Seq<char>, key: PgpPublicKey) -> Seq<Seq<char>> {
    let head = label + " key ("@ + described + "):"@;
    match key {
        PgpPublicKey::Rsa { modulus, exponent } => seq![
            head,
            "  modulus:  "@ + hex_text(modulus@),
            "  exponent: "@ + hex_text(exponent@),
        ],
        PgpPublicKey::Ecc { point } => seq![head, "  point:    "@ + hex_text(point@)],
    }
}

/// A public key, line by line. `described` is its algorithm in words.
pub fn print_openpgp_public_key(slot_label: &str, described: &str, key: &PgpPublicKey) -> (r: Lines)
    ensures
        r@ == public_key_lines(slot_label@, described@, *key),
{
    let mut out = Lines::new();
    out.say(cat4(slot_label, " key (", described, "):"));
    match key {
        PgpPublicKey::Rsa { modulus, exponent } => {
            out.say(cat2("  modulus:  ", hex_encode(modulus.as_slice()).as_str()));
            out.say(cat2("  exponent: ", hex_encode(exponent.as_slice()).as_str()));
        },
        PgpPublicKey::Ecc { point } => {
            out.say(cat2("  point:    ", hex_encode(point.as_slice()).as_str()));
        },
    }
    assert(out@ =~= public_key_lines(slot_label@, described@, *key));
    out
}

/// The algorithms a card offers for each of its three slots.
#[derive(Debug)]
pub struct SlotAlgorithms {
    /// For signatures.
    pub sign: Vec<String>,
    /// For decryption.
    pub decrypt: Vec<String>,
    /// For authentication.
    pub auth: Vec<String>,
}

/// The lines on the algorithms of a card.
pub fn algorithm_lines(info: &Option<SlotAlgorithms>) -> (r: Lines)
    ensures
        r@ == (match info {
            Some(a) => seq![
                padded_right("sign:"@, 8, ' ') + " "@ + joined(views(a.sign@), ", "@),
                padded_right("decrypt:"@, 8, ' ') + " "@ + joined(views(a.decrypt@), ", "@),
                padded_right("auth:"@, 8, ' ') + " "@ + joined(views(a.auth@), ", "@),
            ],
            None => seq![
                "This card does not publish an algorithm list (pre-3.4 OpenPGP card). Any --algorithm may be tried; the card rejects what it cannot do."@,
            ],
        }),
{
    let mut out = Lines::new();
    match info {
        Some(a) => {
            out.say(cat3(pad_right("sign:", 8, ' ').as_str(), " ", join(&a.sign, ", ").as_str()));
            out.say(cat3(pad_right("decrypt:", 8, ' ').as_str(), " ", join(&a.decrypt, ", ").as_str()));
            out.say(cat3(pad_right("auth:", 8, ' ').as_str(), " ", join(&a.auth, ", ").as_str()));
            assert(out@ =~= seq![out@[0], out@[1], out@[2]]);
        },
        None => {
            out.put(
                "This card does not publish an algorithm list (pre-3.4 OpenPGP card). Any --algorithm may be tried; the card rejects what it cannot do.",
            );
            assert(out@ =~= seq![out@[0]]);
        },
    }
    out
}

/// The file a key pair is loaded from; one has to be named unless a pair is
/// made.
pub fn import_source(generate: bool, in_file: Option<&str>) -> (r: Result<Option<String>, String>)
    ensures
        match r {
            Ok(None) => generate,
            Ok(Some(p)) => !generate && in_file is Some && p@ == in_file->Some_0@,
            Err(e) => !generate && in_file is None && e@ == "provide --generate or --in <FILE>"@,
        },
{
    if generate {
        return Ok(None);
    }
    match in_file {
        Some(p) => Ok(Some(p.to_owned())),
        None => Err("provide --generate or --in <FILE>".to_owned()),
    }
}

/// The lines on a key that was registered.
pub fn registered_lines(fingerprint: &[u8], created: u32) -> (r: Lines)
    ensures
        r@ == seq![
            "  fingerprint: "@ + hex_text(fingerprint@),
            "  created:     "@ + dec_text(created as nat) + " (unix)"@,
        ],
{
    let mut out = Lines::new();
    out.say(cat2("  fingerprint: ", hex_encode(fingerprint).as_str()));
    out.say(cat3("  created:     ", dec_u32(created).as_str(), " (unix)"));
    assert(out@ =~= seq![out@[0], out@[1]]);
    out
}

/// The note on a result written to a file.
pub fn delivered_line(len: usize, noun: &str, path: &str) -> (r: String)
    ensures
        r@ == "Wrote "@ + dec_text(len as nat) + " "@ + noun@ + " bytes to "@ + path@,
{
    cat6("Wrote ", dec_usize(len).as_str(), " ", noun, " bytes to ", path)
}

/// The closing line of a command; none for those that end by showing or
/// writing something.
pub open spec fn pgp_done_text(cmd: OpenpgpCmd) -> Option<Seq<char>> {
    match cmd {
        OpenpgpCmd::Verify { kind, .. } => Some(kind.name() + " PIN verified."@),
        OpenpgpCmd::SetName { .. } => Some("Cardholder name set."@),
        OpenpgpCmd::SetUrl { .. } => Some("Public-key URL set."@),
        OpenpgpCmd::ChangePin { .. } => Some("User PIN (PW1) changed."@),
        OpenpgpCmd::ChangeAdminPin { .. } => Some("Admin PIN (PW3) changed."@),
        OpenpgpCmd::UnblockPin { .. } => Some("User PIN (PW1) unblocked and reset."@),
        _ => None,
    }
}

/// The closing line of a command.
pub fn openpgp_done(cmd: &OpenpgpCmd) -> (r: Option<String>)
    ensures
        opt_view(r) == pgp_done_text(*cmd),
{
    match cmd {
        OpenpgpCmd::Verify { kind, .. } => Some(cat2(kind.label(), " PIN verified.")),
        OpenpgpCmd::SetName { .. } => Some("Cardholder name set.".to_owned()),
        OpenpgpCmd::SetUrl { .. } => Some("Public-key URL set.".to_owned()),
        OpenpgpCmd::ChangePin { .. } => Some("User PIN (PW1) changed.".to_owned()),
        OpenpgpCmd::ChangeAdminPin { .. } => Some("Admin PIN (PW3) changed.".to_owned()),
        OpenpgpCmd::UnblockPin { .. } => Some("User PIN (PW1) unblocked and reset.".to_owned()),
        _ => None,
    }
}

/// What is said before a key pair is made on the card.
pub fn generating_key(slot: OpenpgpSlot) -> (r: String)
    ensures
        r@ == "Generating "@ + slot.name() + " key — touch the key if it blinks…"@,
{
    cat3("Generating ", slot.label(), " key — touch the key if it blinks…")
}

/// The heading of the key pair that was made.
pub fn generated_label(slot: OpenpgpSlot) -> (r: String)
    ensures
        r@ == "Generated "@ + slot.name(),
{
    cat2("Generated ", slot.label())
}

/// What is said before a key pair is made or loaded for an import.
pub fn import_progress(file: Option<&str>) -> (r: String)
    ensures
        r@ == (match file {
            Some(p) => "Loading RSA key from "@ + p@ + "…"@,
            None => "Generating an RSA-2048 key on the host…"@,
        }),
{
    match file {
        Some(p) => cat3("Loading RSA key from ", p, "…"),
        None => "Generating an RSA-2048 key on the host…".to_owned(),
    }
}

/// What is said before a key pair is brought to the card.
pub fn importing_key(slot: OpenpgpSlot) -> (r: String)
    ensures
        r@ == "Importing "@ + slot.name() + " key…"@,
{
    cat3("Importing ", slot.label(), " key…")
}

/// The lines on the key pair that was brought to the card.
pub fn imported_key_lines(slot: OpenpgpSlot, modulus: &[u8], exponent: &[u8]) -> (r: Lines)
    ensures
        r@ == seq![
            "Imported "@ + slot.name() + " key (RSA-2048):"@,
            "  modulus:  "@ + hex_text(modulus@),
            "  exponent: "@ + hex_text(exponent@),
        ],
{
    let mut out = Lines::new();
    out.say(cat3("Imported ", slot.label(), " key (RSA-2048):"));
    out.say(cat2("  modulus:  ", hex_encode(modulus).as_str()));
    out.say(cat2("  exponent: ", hex_encode(exponent).as_str()));
    assert(out@ =~= seq![out@[0], out@[1], out@[2]]);
    out
}

/// What is said before the card signs, for a signature or to authenticate.
pub fn signing_line(authenticate: bool, hash: SignHash) -> (r: String)
    ensures
        r@ == (if authenticate {
            "Authenticating ("@
        } else {
            "Signing ("@
        }) + hash.name() + ") — touch the key if it blinks…"@,
{
    cat3(
        if authenticate {
            "Authenticating ("
        } else {
            "Signing ("
        },
        hash.label(),
        ") — touch the key if it blinks…",
    )
}

/// What is said before the card decrypts or derives a secret.
pub fn decrypting_line(kind: Decryption) -> (r: &'static str)
    ensures
        r@ == (match kind {
            Decryption::Ecdh => "Deriving shared secret — touch the key if it blinks…"@,
            Decryption::Rsa => "Decrypting — touch the key if it blinks…"@,
        }),
{
    match kind {
        Decryption::Ecdh => "Deriving shared secret — touch the key if it blinks…",
        Decryption::Rsa => "Decrypting — touch the key if it blinks…",
    }
}

/// What comes out of a decryption.
pub fn decrypted_noun(kind: Decryption) -> (r: &'static str)
    ensures
        r@ == (match kind {
            Decryption::Ecdh => "shared-secret"@,
            Decryption::Rsa => "plaintext"@,
        }),
{
    match kind {
        Decryption::Ecdh => "shared-secret",
        Decryption::Rsa => "plaintext",
    }
}

/// A signature, and an answer to a challenge, is made from the input framed once,
/// before the card works on it, for the slot that does that work and with the
/// hash that the command carries.
pub proof fn law_pgp_frames_for_the_slot(cmd: OpenpgpCmd, slot: OpenpgpSlot, hash: SignHash)
    requires
        pgp_plan_spec(cmd) is Ok,
    ensures
        pgp_plan_spec(cmd)->Ok_0.contains(PgpOp::Frame(slot, hash)) <==> match cmd {
            OpenpgpCmd::Sign { hash: asked, .. } => slot == OpenpgpSlot::Sign && hash == asked,
            OpenpgpCmd::Authenticate { hash: asked, .. } => slot == OpenpgpSlot::Auth && hash == asked,
            _ => false,
        },
{
    lemma_short_plan(pgp_plan_spec(cmd)->Ok_0, PgpOp::Frame(slot, hash));
}

/// An OpenPGP plan asks for the secrets that it has a use for, and verifies a PIN
/// under the reference that belongs to the work it guards.
#[verifier::spinoff_prover]
#[verifier::rlimit(60)]
pub proof fn law_pgp_asks_for_what_it_uses(cmd: OpenpgpCmd, op: PgpOp)
    requires
        pgp_plan_spec(cmd) is Ok,
    ensures
        match op {
            PgpOp::ReadInput => pgp_plan_spec(cmd)->Ok_0.contains(op) <==> (cmd is Sign || cmd is Decrypt || cmd
                is Authenticate),
            PgpOp::Read(secret) => pgp_plan_spec(cmd)->Ok_0.contains(op) <==> (match secret {
                PgpSecret::Pin => cmd is Verify,
                PgpSecret::SigningPin => cmd is Sign,
                PgpSecret::UserPin => cmd is Decrypt || cmd is Authenticate,
                PgpSecret::AdminPin => cmd is SetName || cmd is SetUrl || cmd is GenerateKey || cmd is ImportKey
                    || cmd is UnblockPin,
                PgpSecret::OldUserPin => cmd is ChangePin,
                PgpSecret::NewUserPin => cmd is ChangePin || cmd is UnblockPin,
                PgpSecret::OldAdminPin => cmd is ChangeAdminPin,
                PgpSecret::NewAdminPin => cmd is ChangeAdminPin,
            }),
            PgpOp::Open => pgp_plan_spec(cmd)->Ok_0.contains(op),
            PgpOp::Verify(reference) => pgp_plan_spec(cmd)->Ok_0.contains(op) <==> (match cmd {
                OpenpgpCmd::Verify { kind: OpenpgpPinKind::User, .. } => reference == 0x82,
                OpenpgpCmd::Verify { kind: OpenpgpPinKind::Admin, .. } => reference == 0x83,
                OpenpgpCmd::SetName { .. } | OpenpgpCmd::SetUrl { .. } | OpenpgpCmd::GenerateKey { .. }
                | OpenpgpCmd::ImportKey { .. } => reference == 0x83,
                OpenpgpCmd::Sign { .. } => reference == 0x81,
                OpenpgpCmd::Decrypt { .. } | OpenpgpCmd::Authenticate { .. } => reference == 0x82,
                _ => false,
            }),
            PgpOp::ReadStatus => pgp_plan_spec(cmd)->Ok_0.contains(op) <==> (cmd is Status || cmd is Reset),
            _ => true,
        },
{
    lemma_short_plan(pgp_plan_spec(cmd)->Ok_0, op);
}

/// An OpenPGP plan makes, brings, shows and registers keys in the slot that the
/// command names, with the algorithm it names, and does nothing that another
/// command is for.
#[verifier::spinoff_prover]
#[verifier::rlimit(60)]
pub proof fn law_pgp_keys_stay_in_their_slots(cmd: OpenpgpCmd, op: PgpOp)
    requires
        pgp_plan_spec(cmd) is Ok,
        !(op is ReadInput || op is Read || op is Open || op is Verify || op is ReadStatus || op is Frame),
    ensures
        pgp_plan_spec(cmd)->Ok_0.contains(op) <==> match op {
            PgpOp::CheckAlgorithm(s, a) => cmd matches OpenpgpCmd::GenerateKey { slot, algorithm, .. } && s == slot
                && algorithm == Some(a),
            PgpOp::GenerateOnHost => cmd matches OpenpgpCmd::ImportKey { generate, .. } && generate,
            PgpOp::LoadKeyFile => cmd matches OpenpgpCmd::ImportKey { generate, .. } && !generate,
            PgpOp::ShowStatus => cmd is Status,
            PgpOp::ShowPublicKey(s) => match cmd {
                OpenpgpCmd::PublicKey { slot } => s == slot,
                OpenpgpCmd::GenerateKey { slot, .. } => s == slot,
                _ => false,
            },
            PgpOp::ShowAlgorithms => cmd is Algorithms,
            PgpOp::Reset(sure) => cmd matches OpenpgpCmd::Reset { yes } && sure == yes,
            PgpOp::SetName => cmd is SetName,
            PgpOp::SetUrl => cmd is SetUrl,
            PgpOp::GenerateKey(s, a) => cmd matches OpenpgpCmd::GenerateKey { slot, algorithm, .. } && s == slot && a
                == algorithm,
            PgpOp::ImportKey(s) => cmd matches OpenpgpCmd::ImportKey { slot, .. } && s == slot,
            PgpOp::Register(s) => match cmd {
                OpenpgpCmd::GenerateKey { slot, .. } => s == slot,
                OpenpgpCmd::ImportKey { slot, .. } => s == slot,
                _ => false,
            },
            PgpOp::Sign => cmd is Sign,
            PgpOp::Decrypt => cmd is Decrypt,
            PgpOp::Authenticate => cmd is Authenticate,
            PgpOp::Deliver => cmd is Sign || cmd is Decrypt || cmd is Authenticate,
            PgpOp::ChangeUserPin => cmd is ChangePin,
            PgpOp::ChangeAdminPin => cmd is ChangeAdminPin,
            PgpOp::ResetRetryCounter => cmd is UnblockPin,
            _ => !(cmd is Status || cmd is PublicKey || cmd is Algorithms || cmd is Sign || cmd is Decrypt || cmd
                is Authenticate),
        },
{
    lemma_short_plan(pgp_plan_spec(cmd)->Ok_0, op);
}

/// When an operation of an OpenPGP plan has its turn.
pub open spec fn pgp_turn(op: PgpOp) -> int {
    match op {
        PgpOp::ReadInput => 0,
        PgpOp::CheckAlgorithm(_, _) => 0,
        PgpOp::Read(PgpSecret::NewUserPin) => 2,
        PgpOp::Read(PgpSecret::NewAdminPin) => 2,
        PgpOp::Read(_) => 1,
        PgpOp::GenerateOnHost => 3,
        PgpOp::LoadKeyFile => 3,
        PgpOp::Open => 4,
        PgpOp::Verify(_) => 5,
        PgpOp::ReadStatus => 5,
        PgpOp::Frame(_, _) => 6,
        PgpOp::ShowPublicKey(_) => 8,
        PgpOp::Deliver => 8,
        PgpOp::Register(_) => 9,
        PgpOp::Report => 10,
        _ => 7,
    }
}

/// The operations of an OpenPGP plan keep their turns, and none is done twice.
#[verifier::spinoff_prover]
#[verifier::rlimit(40)]
pub proof fn law_pgp_plan_keeps_its_turns(cmd: OpenpgpCmd, i: int, j: int)
    requires
        pgp_plan_spec(cmd) is Ok,
        0 <= i < j < pgp_plan_spec(cmd)->Ok_0.len(),
    ensures
        pgp_turn(pgp_plan_spec(cmd)->Ok_0[i]) < pgp_turn(pgp_plan_spec(cmd)->Ok_0[j]),
{
}

/// An OpenPGP command is refused before it begins just where it would overwrite a
/// key and nobody confirmed that.
pub proof fn law_pgp_refusals(cmd: OpenpgpCmd)
    ensures
        pgp_plan_spec(cmd) is Err <==> match cmd {
            OpenpgpCmd::GenerateKey { yes, .. } => !yes,
            OpenpgpCmd::ImportKey { yes, .. } => !yes,
            _ => false,
        },
{
}

/// How the input of a slot is framed goes by the algorithm number of the slot
/// alone: RSA takes a `DigestInfo`, the curves take the digest, and only SHA-1 on
/// a curve is turned down among those that are known.
pub proof fn law_framing_goes_by_the_algorithm(slot: Seq<char>, attrs: Seq<u8>, is_ecc: bool, hash: SignHash)
    ensures
        framing_spec(slot, attrs, is_ecc, hash) == Ok::<Framing, Seq<char>>(Framing::DigestInfo) <==> (attrs.len() > 0
            && attrs[0] == 1),
        framing_spec(slot, attrs, is_ecc, hash) == Ok::<Framing, Seq<char>>(Framing::Digest) <==> (attrs.len() > 0 && (
        attrs[0] == 18 || attrs[0] == 19 || attrs[0] == 22) && !(is_ecc && hash == SignHash::Sha1)),
{
}

/// The fixed part of a `DigestInfo` is DER: a sequence of an algorithm (an object
/// identifier and no parameters) and of an octet string. The identifier of SHA-1
/// is 1.3.14.3.2.26, that of SHA-256 is 2.16.840.1.101.3.4.2.1.
pub proof fn law_digest_info_names_the_hash(hash: SignHash)
    ensures
        ({
            let p = hash.prefix();
            let n = p.len() as int;
            &&& p[0] == 0x30 && p[2] == 0x30 && p[4] == 0x06
            &&& p[3] == p[5] + 4 && n == p[5] + 10
            &&& p[n - 4] == 0x05 && p[n - 3] == 0x00 && p[n - 2] == 0x04
            &&& match hash {
                SignHash::Sha1 => p[5] == 5 && p[6] == 40 * 1 + 3 && p[7] == 14 && p[8] == 3 && p[9] == 2 && p[10]
                    == 26 && p.last() == 20,
                SignHash::Sha256 => p[5] == 9 && p[6] == 40 * 2 + 16 && (p[7] - 128) * 128 + p[8] == 840 && p[9] == 1
                    && p[10] == 101 && p[11] == 3 && p[12] == 4 && p[13] == 2 && p[14] == 1 && p.last() == 32,
            }
        }),
{
}

/// A fingerprint is shown just where it is not all zeros, and then whole.
pub proof fn law_zero_fingerprint_is_none(f: Seq<u8>)
    ensures
        fingerprint_text(f) is None <==> forall|i: int| 0 <= i < f.len() ==> #[trigger] f[i] == 0,
        fingerprint_text(f) matches Some(t) ==> t == hex_text(f),
{
}

/// The state of a card shows the algorithm, the fingerprint and the tries of each
/// purpose under its own name.
pub proof fn law_pgp_status_keeps_purposes_apart(s: OpenpgpStatus)
    ensures
        ({
            let lines = pgp_status_lines(s);
            let n = if s.serial is Some {
                2int
            } else {
                1
            };
            &&& lines.len() == n + 6
            &&& has_run(lines[0], hex_text(s.aid@))
            &&& s.serial matches Some(v) ==> has_run(lines[1], dec_text(v as nat))
            &&& has_run(lines[n], "sig="@ + s.sig_algo@)
            &&& has_run(lines[n], " dec="@ + s.dec_algo@)
            &&& has_run(lines[n], " aut="@ + s.aut_algo@)
            &&& lines[n + 1] == fingerprint_line_text("Signature  fpr"@, s.fingerprint_sig@)
            &&& lines[n + 2] == fingerprint_line_text("Decryption fpr"@, s.fingerprint_dec@)
            &&& lines[n + 3] == fingerprint_line_text("Auth       fpr"@, s.fingerprint_aut@)
            &&& has_run(lines[n + 4], "PW1="@ + dec_text(s.tries_pw1 as nat))
            &&& has_run(lines[n + 4], " RC="@ + dec_text(s.tries_rc as nat))
            &&& has_run(lines[n + 4], " PW3="@ + dec_text(s.tries_pw3 as nat))
            &&& s.signature_count matches Some(v) ==> has_run(lines[n + 5], dec_text(v as nat))
        }),
{
    let lines = pgp_status_lines(s);
    let none = Seq::<char>::empty();
    let n = if s.serial is Some {
        2int
    } else {
        1
    };
    lemma_holds(lines[0], "AID:            "@, hex_text(s.aid@), none);
    if let Some(v) = s.serial {
        let tail = " (0x"@ + padded_left(hex_nat(v as nat, true), 8, '0') + ")"@;
        lemma_holds(lines[1], "Serial:         "@, dec_text(v as nat), tail);
    }
    reveal_strlit("Key algorithms: sig=");
    reveal_strlit("Key algorithms: ");
    reveal_strlit("sig=");
    assert("Key algorithms: sig="@ =~= "Key algorithms: "@ + "sig="@);
    let sig = "Key algorithms: sig="@ + s.sig_algo@;
    let dec = " dec="@ + s.dec_algo@;
    let aut = " aut="@ + s.aut_algo@;
    lemma_holds(lines[n], "Key algorithms: "@, "sig="@ + s.sig_algo@, dec + aut);
    lemma_holds(lines[n], sig, dec, aut);
    lemma_holds(lines[n], sig + dec, aut, none);
    reveal_strlit("PIN retries:    PW1=");
    reveal_strlit("PIN retries:    ");
    reveal_strlit("PW1=");
    assert("PIN retries:    PW1="@ =~= "PIN retries:    "@ + "PW1="@);
    let pw1 = "PIN retries:    PW1="@ + dec_text(s.tries_pw1 as nat);
    let rc = " RC="@ + dec_text(s.tries_rc as nat);
    let pw3 = " PW3="@ + dec_text(s.tries_pw3 as nat);
    lemma_holds(lines[n + 4], "PIN retries:    "@, "PW1="@ + dec_text(s.tries_pw1 as nat), rc + pw3);
    lemma_holds(lines[n + 4], pw1, rc, pw3);
    lemma_holds(lines[n + 4], pw1 + rc, pw3, none);
    if let Some(v) = s.signature_count {
        lemma_holds(lines[n + 5], "Signatures:     "@, dec_text(v as nat), none);
    }
}

/// A card goes by its serial where it has one, and by its application identifier
/// where it has none; a public key is shown whole, part by part.
pub proof fn law_pgp_card_and_key_are_shown_whole(
    serial: Option<u32>,
    aid: Seq<u8>,
    label: Seq<char>,
    described: Seq<char>,
    key: PgpPublicKey,
)
    ensures
        serial matches Some(n) ==> has_run(pgp_subject(serial, aid), dec_text(n as nat)),
        serial is None ==> has_run(pgp_subject(serial, aid), hex_text(aid)),
        has_run(public_key_lines(label, described, key)[0], label),
        has_run(public_key_lines(label, described, key)[0], described),
        key matches PgpPublicKey::Rsa { modulus, exponent } ==> {
            &&& public_key_lines(label, described, key).len() == 3
            &&& has_run(public_key_lines(label, described, key)[1], hex_text(modulus@))
            &&& has_run(public_key_lines(label, described, key)[2], hex_text(exponent@))
        },
        key matches PgpPublicKey::Ecc { point } ==> public_key_lines(label, described, key).len() == 2 && has_run(
            public_key_lines(label, described, key)[1],
            hex_text(point@),
        ),
{
    let none = Seq::<char>::empty();
    match serial {
        Some(n) => lemma_holds(pgp_subject(serial, aid), "serial "@, dec_text(n as nat), none),
        None => lemma_holds(pgp_subject(serial, aid), "AID "@, hex_text(aid), none),
    }
    let lines = public_key_lines(label, described, key);
    lemma_holds(lines[0], none, label, " key ("@ + described + "):"@);
    lemma_holds(lines[0], label + " key ("@, described, "):"@);
    match key {
        PgpPublicKey::Rsa { modulus, exponent } => {
            lemma_holds(lines[1], "  modulus:  "@, hex_text(modulus@), none);
            lemma_holds(lines[2], "  exponent: "@, hex_text(exponent@), none);
        },
        PgpPublicKey::Ecc { point } => lemma_holds(lines[1], "  point:    "@, hex_text(point@), none),
    }
}

} // verus!
