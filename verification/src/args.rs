//! Values of command-line options, and what they stand for.

use vstd::prelude::*;

verus! {

/// A PIV key slot.
#[derive(Clone, Copy, Debug, PartialEq, Eq, Structural)]
pub enum Slot {
    /// 9A.
    Authentication,
    /// 9C.
    Signature,
    /// 9D.
    KeyManagement,
    /// 9E.
    CardAuthentication,
    /// 82 to 95, numbered from 1 to 20.
    Retired(u8),
}

impl Slot {
    /// Retired slots are numbered from 1 to 20.
    pub open spec fn valid(self) -> bool {
        self matches Slot::Retired(n) ==> 1 <= n <= 20
    }

    /// The reference byte of the slot.
    pub open spec fn reference(self) -> u8 {
        match self {
            Slot::Authentication => 0x9a,
            Slot::Signature => 0x9c,
            Slot::KeyManagement => 0x9d,
            Slot::CardAuthentication => 0x9e,
            Slot::Retired(n) => (0x81 + n) as u8,
        }
    }

    /// The retired slot of that number, if there is one.
    pub fn retired(n: u8) -> (r: Option<Slot>)
        ensures
            r == (if 1 <= n <= 20 {
                Some(Slot::Retired(n))
            } else {
                None::<Slot>
            }),
    {
        if 1 <= n && n <= 20 {
            Some(Slot::Retired(n))
        } else {
            None
        }
    }

    /// All retired slots, in order.
    pub fn retired_all() -> (r: Vec<Slot>)
        ensures
            r@ == Seq::new(20, |i: int| Slot::Retired((i + 1) as u8)),
    {
        let mut r: Vec<Slot> = Vec::new();
        let mut n: u8 = 1;
        while n <= 20
            invariant
                1 <= n <= 21,
                r@ == Seq::new((n - 1) as nat, |i: int| Slot::Retired((i + 1) as u8)),
            decreases 21 - n,
        {
            r.push(Slot::Retired(n));
            n = n + 1;
            assert(r@ =~= Seq::new((n - 1) as nat, |i: int| Slot::Retired((i + 1) as u8)));
        }
        r
    }

    /// The reference byte of the slot.
    pub fn key_ref(self) -> (r: u8)
        requires
            self.valid(),
        ensures
            r == self.reference(),
    {
        match self {
            Slot::Authentication => 0x9a,
            Slot::Signature => 0x9c,
            Slot::KeyManagement => 0x9d,
            Slot::CardAuthentication => 0x9e,
            Slot::Retired(n) => 0x81 + n,
        }
    }
}

/// Different slots have different reference bytes.
pub proof fn law_slot_references_differ(a: Slot, b: Slot)
    requires
        a.valid(),
        b.valid(),
        a.reference() == b.reference(),
    ensures
        a == b,
{
}

/// A slot as the `--slot` option names it, by its reference byte in
/// hexadecimal.
#[derive(Clone, Copy, Debug, PartialEq, Eq, Structural)]
pub enum CliPivSlot {
    /// `9a`.
    Auth,
    /// `9c`.
    Sign,
    /// `9d`.
    KeyMgmt,
    /// `9e`.
    CardAuth,
    /// `82`.
    Retired1,
    /// `83`.
    Retired2,
    /// `84`.
    Retired3,
    /// `85`.
    Retired4,
    /// `86`.
    Retired5,
    /// `87`.
    Retired6,
    /// `88`.
    Retired7,
    /// `89`.
    Retired8,
    /// `8a`.
    Retired9,
    /// `8b`.
    Retired10,
    /// `8c`.
    Retired11,
    /// `8d`.
    Retired12,
    /// `8e`.
    Retired13,
    /// `8f`.
    Retired14,
    /// `90`.
    Retired15,
    /// `91`.
    Retired16,
    /// `92`.
    Retired17,
    /// `93`.
    Retired18,
    /// `94`.
    Retired19,
    /// `95`.
    Retired20,
}

impl CliPivSlot {
    /// The reference byte in the option's name.
    pub open spec fn named_reference(self) -> u8 {
        match self {
            CliPivSlot::Auth => 0x9a,
            CliPivSlot::Sign => 0x9c,
            CliPivSlot::KeyMgmt => 0x9d,
            CliPivSlot::CardAuth => 0x9e,
            CliPivSlot::Retired1 => 0x82,
            CliPivSlot::Retired2 => 0x83,
            CliPivSlot::Retired3 => 0x84,
            CliPivSlot::Retired4 => 0x85,
            CliPivSlot::Retired5 => 0x86,
            CliPivSlot::Retired6 => 0x87,
            CliPivSlot::Retired7 => 0x88,
            CliPivSlot::Retired8 => 0x89,
            CliPivSlot::Retired9 => 0x8a,
            CliPivSlot::Retired10 => 0x8b,
            CliPivSlot::Retired11 => 0x8c,
            CliPivSlot::Retired12 => 0x8d,
            CliPivSlot::Retired13 => 0x8e,
            CliPivSlot::Retired14 => 0x8f,
            CliPivSlot::Retired15 => 0x90,
            CliPivSlot::Retired16 => 0x91,
            CliPivSlot::Retired17 => 0x92,
            CliPivSlot::Retired18 => 0x93,
            CliPivSlot::Retired19 => 0x94,
            CliPivSlot::Retired20 => 0x95,
        }
    }

    /// The slot that the option names: the one with that reference byte.
    pub fn to_slot(self) -> (r: Slot)
        ensures
            r.valid(),
            r.reference() == self.named_reference(),
    {
        match self {
            CliPivSlot::Auth => Slot::Authentication,
            CliPivSlot::Sign => Slot::Signature,
            CliPivSlot::KeyMgmt => Slot::KeyManagement,
            CliPivSlot::CardAuth => Slot::CardAuthentication,
            CliPivSlot::Retired1 => Slot::Retired(1),
            CliPivSlot::Retired2 => Slot::Retired(2),
            CliPivSlot::Retired3 => Slot::Retired(3),
            CliPivSlot::Retired4 => Slot::Retired(4),
            CliPivSlot::Retired5 => Slot::Retired(5),
            CliPivSlot::Retired6 => Slot::Retired(6),
            CliPivSlot::Retired7 => Slot::Retired(7),
            CliPivSlot::Retired8 => Slot::Retired(8),
            CliPivSlot::Retired9 => Slot::Retired(9),
            CliPivSlot::Retired10 => Slot::Retired(10),
            CliPivSlot::Retired11 => Slot::Retired(11),
            CliPivSlot::Retired12 => Slot::Retired(12),
            CliPivSlot::Retired13 => Slot::Retired(13),
            CliPivSlot::Retired14 => Slot::Retired(14),
            CliPivSlot::Retired15 => Slot::Retired(15),
            CliPivSlot::Retired16 => Slot::Retired(16),
            CliPivSlot::Retired17 => Slot::Retired(17),
            CliPivSlot::Retired18 => Slot::Retired(18),
            CliPivSlot::Retired19 => Slot::Retired(19),
            CliPivSlot::Retired20 => Slot::Retired(20),
        }
    }
}

/// Key algorithm of a PIV slot.
#[derive(Clone, Copy, Debug, PartialEq, Eq, Structural)]
pub enum KeyAlg {
    /// RSA with 1024 bits.
    Rsa1024,
    /// RSA with 2048 bits.
    Rsa2048,
    /// RSA with 3072 bits.
    Rsa3072,
    /// RSA with 4096 bits.
    Rsa4096,
    /// NIST P-256.
    EccP256,
    /// NIST P-384.
    EccP384,
    /// Ed25519.
    Ed25519,
    /// X25519, for key agreement only.
    X25519,
}

/// The `--algorithm` option of the PIV commands.
#[derive(Clone, Copy, Debug, PartialEq, Eq, Structural)]
pub enum CliPivKeyAlg {
    /// `rsa1024`.
    Rsa1024,
    /// `rsa2048`.
    Rsa2048,
    /// `rsa3072`.
    Rsa3072,
    /// `rsa4096`.
    Rsa4096,
    /// `eccp256`.
    EccP256,
    /// `eccp384`.
    EccP384,
    /// `ed25519`.
    Ed25519,
    /// `x25519`.
    X25519,
}

impl CliPivKeyAlg {
    /// The algorithm that the option stands for.
    pub open spec fn alg(self) -> KeyAlg {
        match self {
            CliPivKeyAlg::Rsa1024 => KeyAlg::Rsa1024,
            CliPivKeyAlg::Rsa2048 => KeyAlg::Rsa2048,
            CliPivKeyAlg::Rsa3072 => KeyAlg::Rsa3072,
            CliPivKeyAlg::Rsa4096 => KeyAlg::Rsa4096,
            CliPivKeyAlg::EccP256 => KeyAlg::EccP256,
            CliPivKeyAlg::EccP384 => KeyAlg::EccP384,
            CliPivKeyAlg::Ed25519 => KeyAlg::Ed25519,
            CliPivKeyAlg::X25519 => KeyAlg::X25519,
        }
    }

    /// The algorithm that the option stands for.
    pub fn to_alg(self) -> (r: KeyAlg)
        ensures
            r == self.alg(),
    {
        match self {
            CliPivKeyAlg::Rsa1024 => KeyAlg::Rsa1024,
            CliPivKeyAlg::Rsa2048 => KeyAlg::Rsa2048,
            CliPivKeyAlg::Rsa3072 => KeyAlg::Rsa3072,
            CliPivKeyAlg::Rsa4096 => KeyAlg::Rsa4096,
            CliPivKeyAlg::EccP256 => KeyAlg::EccP256,
            CliPivKeyAlg::EccP384 => KeyAlg::EccP384,
            CliPivKeyAlg::Ed25519 => KeyAlg::Ed25519,
            CliPivKeyAlg::X25519 => KeyAlg::X25519,
        }
    }
}

/// Cipher of a PIV management key.
#[derive(Clone, Copy, Debug, PartialEq, Eq, Structural)]
pub enum MgmtAlg {
    /// Triple DES.
    TripleDes,
    /// AES with a 128-bit key.
    Aes128,
    /// AES with a 192-bit key.
    Aes192,
    /// AES with a 256-bit key.
    Aes256,
}

impl MgmtAlg {
    /// How many bytes a key has.
    pub open spec fn bytes(self) -> nat {
        match self {
            MgmtAlg::TripleDes => 24,
            MgmtAlg::Aes128 => 16,
            MgmtAlg::Aes192 => 24,
            MgmtAlg::Aes256 => 32,
        }
    }

    /// How many bytes a key has.
    pub fn key_len(self) -> (r: usize)
        ensures
            r == self.bytes(),
    {
        match self {
            MgmtAlg::TripleDes => 24,
            MgmtAlg::Aes128 => 16,
            MgmtAlg::Aes192 => 24,
            MgmtAlg::Aes256 => 32,
        }
    }
}

/// The `--new-algorithm` option.
#[derive(Clone, Copy, Debug, PartialEq, Eq, Structural)]
pub enum CliPivMgmtAlg {
    /// `3des`.
    TripleDes,
    /// `aes128`.
    Aes128,
    /// `aes192`.
    Aes192,
    /// `aes256`.
    Aes256,
}

impl CliPivMgmtAlg {
    /// The cipher that the option stands for.
    pub open spec fn alg(self) -> MgmtAlg {
        match self {
            CliPivMgmtAlg::TripleDes => MgmtAlg::TripleDes,
            CliPivMgmtAlg::Aes128 => MgmtAlg::Aes128,
            CliPivMgmtAlg::Aes192 => MgmtAlg::Aes192,
            CliPivMgmtAlg::Aes256 => MgmtAlg::Aes256,
        }
    }

    /// The cipher that the option stands for.
    pub fn to_alg(self) -> (r: MgmtAlg)
        ensures
            r == self.alg(),
    {
        match self {
            CliPivMgmtAlg::TripleDes => MgmtAlg::TripleDes,
            CliPivMgmtAlg::Aes128 => MgmtAlg::Aes128,
            CliPivMgmtAlg::Aes192 => MgmtAlg::Aes192,
            CliPivMgmtAlg::Aes256 => MgmtAlg::Aes256,
        }
    }
}

/// When a private key asks for the PIN.
#[derive(Clone, Copy, Debug, PartialEq, Eq, Structural)]
pub enum PinPolicy {
    /// Whatever the card does by itself.
    Default,
    /// Never.
    Never,
    /// Once in a session.
    Once,
    /// Before every use.
    Always,
}

/// The `--pin-policy` option.
#[derive(Clone, Copy, Debug, PartialEq, Eq, Structural)]
pub enum CliPinPolicy {
    /// `default`.
    Default,
    /// `never`.
    Never,
    /// `once`.
    Once,
    /// `always`.
    Always,
}

impl CliPinPolicy {
    /// The policy that the option stands for.
    pub open spec fn policy(self) -> PinPolicy {
        match self {
            CliPinPolicy::Default => PinPolicy::Default,
            CliPinPolicy::Never => PinPolicy::Never,
            CliPinPolicy::Once => PinPolicy::Once,
            CliPinPolicy::Always => PinPolicy::Always,
        }
    }

    /// The policy that the option stands for.
    pub fn to_policy(self) -> (r: PinPolicy)
        ensures
            r == self.policy(),
    {
        match self {
            CliPinPolicy::Default => PinPolicy::Default,
            CliPinPolicy::Never => PinPolicy::Never,
            CliPinPolicy::Once => PinPolicy::Once,
            CliPinPolicy::Always => PinPolicy::Always,
        }
    }
}

/// When a private key asks for a touch.
#[derive(Clone, Copy, Debug, PartialEq, Eq, Structural)]
pub enum TouchPolicy {
    /// Whatever the card does by itself.
    Default,
    /// Never.
    Never,
    /// Before every use.
    Always,
    /// Before a use, then not for a while.
    Cached,
}

/// The `--touch-policy` option.
#[derive(Clone, Copy, Debug, PartialEq, Eq, Structural)]
pub enum CliTouchPolicy {
    /// `default`.
    Default,
    /// `never`.
    Never,
    /// `always`.
    Always,
    /// `cached`.
    Cached,
}

impl CliTouchPolicy {
    /// The policy that the option stands for.
    pub open spec fn policy(self) -> TouchPolicy {
        match self {
            CliTouchPolicy::Default => TouchPolicy::Default,
            CliTouchPolicy::Never => TouchPolicy::Never,
            CliTouchPolicy::Always => TouchPolicy::Always,
            CliTouchPolicy::Cached => TouchPolicy::Cached,
        }
    }

    /// The policy that the option stands for.
    pub fn to_policy(self) -> (r: TouchPolicy)
        ensures
            r == self.policy(),
    {
        match self {
            CliTouchPolicy::Default => TouchPolicy::Default,
            CliTouchPolicy::Never => TouchPolicy::Never,
            CliTouchPolicy::Always => TouchPolicy::Always,
            CliTouchPolicy::Cached => TouchPolicy::Cached,
        }
    }
}

/// The slots have the reference bytes of the standard: `9a`, `9c`, `9d` and `9e`,
/// and `82` to `95` one after the other for the retired ones.
pub proof fn law_slot_references_are_the_standard_ones(n: u8)
    requires
        1 <= n < 20,
    ensures
        Slot::Authentication.reference() == 0x9a && Slot::Signature.reference() == 0x9c,
        Slot::KeyManagement.reference() == 0x9d && Slot::CardAuthentication.reference() == 0x9e,
        Slot::Retired(1).reference() == 0x82 && Slot::Retired(20).reference() == 0x95,
        Slot::Retired((n + 1) as u8).reference() == Slot::Retired(n).reference() + 1,
{
}

/// A management key is as long as its cipher says.
pub proof fn law_management_keys_are_as_long_as_their_cipher()
    ensures
        8 * MgmtAlg::Aes128.bytes() == 128 && 8 * MgmtAlg::Aes192.bytes() == 192 && 8 * MgmtAlg::Aes256.bytes() == 256,
        8 * MgmtAlg::TripleDes.bytes() == 3 * 64,
{
}

/// Policies are told apart, and each is set under its own name.
pub proof fn law_policies_keep_their_names(pin: CliPinPolicy, touch: CliTouchPolicy)
    ensures
        pin is Default <==> pin.policy() is Default,
        pin is Never <==> pin.policy() is Never,
        pin is Once <==> pin.policy() is Once,
        pin is Always <==> pin.policy() is Always,
        touch is Default <==> touch.policy() is Default,
        touch is Never <==> touch.policy() is Never,
        touch is Always <==> touch.policy() is Always,
        touch is Cached <==> touch.policy() is Cached,
{
}

} // verus!
