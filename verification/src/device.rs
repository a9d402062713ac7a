//! Connected security keys, as far as the commands look at them.

use vstd::prelude::*;

verus! {

/// A set of applet capabilities.
#[derive(Clone, Copy, Debug, PartialEq, Eq, Structural)]
pub struct Caps {
    /// One bit per capability.
    pub bits: u16,
}

/// One applet capability.
#[derive(Clone, Copy, Debug, PartialEq, Eq, Structural)]
pub enum Cap {
    /// FIDO2 / CTAP2.
    Fido2,
    /// The Yubico OATH applet.
    Oath,
    /// The OpenPGP card applet.
    OpenPgp,
    /// The PIV applet.
    Piv,
    /// The Token2 OTP applet.
    Otp,
    /// A programmable TOTP token.
    Totp,
}

impl Cap {
    /// The bit that stands for this capability.
    pub open spec fn bit(self) -> u16 {
        match self {
            Cap::Fido2 => 0x01,
            Cap::Oath => 0x02,
            Cap::OpenPgp => 0x04,
            Cap::Piv => 0x08,
            Cap::Otp => 0x10,
            Cap::Totp => 0x20,
        }
    }

    /// The bit that stands for this capability.
    pub fn mask(self) -> (r: u16)
        ensures
            r == self.bit(),
    {
        match self {
            Cap::Fido2 => 0x01,
            Cap::Oath => 0x02,
            Cap::OpenPgp => 0x04,
            Cap::Piv => 0x08,
            Cap::Otp => 0x10,
            Cap::Totp => 0x20,
        }
    }
}

impl Caps {
    /// Whether the set holds `cap`.
    pub open spec fn holds(self, cap: Cap) -> bool {
        self.bits & cap.bit() != 0
    }

    /// The set without any capability.
    pub fn none() -> (r: Caps)
        ensures
            forall|c: Cap| !r.holds(c),
    {
        assert forall|c: Cap| 0u16 & c.bit() == 0 by {
            let b = c.bit();
            assert(0u16 & b == 0) by (bit_vector);
        }
        Caps { bits: 0 }
    }

    /// Whether the set holds `cap`.
    pub fn has(self, cap: Cap) -> (r: bool)
        ensures
            r == self.holds(cap),
    {
        self.bits & cap.mask() != 0
    }

    /// Adds `cap` to the set and leaves the others as they are.
    pub fn insert(&mut self, cap: Cap)
        ensures
            forall|c: Cap| final(self).holds(c) == (c == cap || old(self).holds(c)),
    {
        let m = cap.mask();
        let before = self.bits;
        proof {
            assert forall|c: Cap| (before | m) & c.bit() != 0 <==> (c == cap || before & c.bit() != 0) by {
                let b = c.bit();
                assert((before | m) & b != 0 <==> ((before & b != 0) || (m & b != 0))) by (bit_vector);
                assert((m == 1 || m == 2 || m == 4 || m == 8 || m == 16 || m == 32) && (b == 1 || b == 2
                    || b == 4 || b == 8 || b == 16 || b == 32) ==> ((m & b != 0) <==> m == b)) by (bit_vector);
            }
        }
        self.bits = before | m;
    }
}

/// What a connected device is.
#[derive(Clone, Copy, Debug, PartialEq, Eq, Structural)]
pub enum DeviceKind {
    /// A security key.
    Key,
    /// A multi-profile TOTP token.
    Token,
    /// A single-profile programmable token.
    ProgToken,
}

/// One connected device, all its interfaces merged.
#[derive(Clone, Debug)]
pub struct Device {
    /// Stable identifier of the row.
    pub id: String,
    /// The friendly name the user gave it, if any.
    pub name: Option<String>,
    /// Vendor name.
    pub vendor: String,
    /// Model name.
    pub model: String,
    /// Effective serial; empty when unknown.
    pub serial: String,
    /// How it is connected.
    pub transport: String,
    /// Firmware version, as text.
    pub firmware: String,
    /// Applets that answered.
    pub caps: Caps,
    /// Applets that are assumed and were not confirmed.
    pub unverified: Caps,
    /// What kind of device it is.
    pub kind: DeviceKind,
    /// Path of its FIDO HID node, if it has one.
    pub hid_path: Option<String>,
    /// Name of the PC/SC reader it is in, if any.
    pub reader: Option<String>,
}

/// One HID node.
#[derive(Clone, Debug)]
pub struct HidDevice {
    /// Path of the node.
    pub path: String,
    /// USB vendor id.
    pub vendor_id: u16,
    /// USB product id.
    pub product_id: u16,
    /// USB product string.
    pub product_name: String,
}

/// No two capabilities share a bit.
pub proof fn law_capabilities_have_bits_of_their_own(a: Cap, b: Cap)
    ensures
        a.bit() != 0,
        a != b ==> a.bit() != b.bit() && a.bit() & b.bit() == 0,
{
    let m = a.bit();
    let n = b.bit();
    assert((m == 1 || m == 2 || m == 4 || m == 8 || m == 16 || m == 32) && (n == 1 || n == 2 || n == 4 || n == 8 || n
        == 16 || n == 32) && m != n ==> m & n == 0) by (bit_vector);
}

} // verus!
