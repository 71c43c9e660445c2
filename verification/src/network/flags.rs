//! The capability bits that an access point advertises.

use vstd::prelude::*;

verus! {

/// Every bit that `ApFlags` knows.
pub const AP_FLAGS_MASK: u32 = 0xf;

/// Every bit that `ApSecurityFlags` knows.
pub const AP_SECURITY_FLAGS_MASK: u32 = 0x3fff;

/// General capabilities of an access point.
#[derive(Debug, Clone, Copy, PartialEq, Eq, Structural)]
pub struct ApFlags {
    bits: u32,
}

impl ApFlags {
    pub const NONE: u32 = 0x0;

    pub const PRIVACY: u32 = 0x1;

    pub const WPS: u32 = 0x2;

    pub const WPS_PBC: u32 = 0x4;

    pub const WPS_PIN: u32 = 0x8;

    /// The bits that are set.
    pub closed spec fn spec_bits(self) -> u32 {
        self.bits
    }

    #[verifier::when_used_as_spec(spec_bits)]
    pub fn bits(self) -> (r: u32)
        ensures
            r == self.spec_bits(),
    {
        self.bits
    }

    /// Keeps the known bits of `bits` and drops the others.
    pub fn from_bits_truncate(bits: u32) -> (r: ApFlags)
        ensures
            r.bits() == bits & AP_FLAGS_MASK,
    {
        ApFlags { bits: bits & AP_FLAGS_MASK }
    }

    /// Whether every bit of `mask` is set.
    pub fn contains(self, mask: u32) -> (r: bool)
        ensures
            r == (self.bits() & mask == mask),
    {
        self.bits & mask == mask
    }

    /// Whether no bit is set.
    pub fn is_empty(self) -> (r: bool)
        ensures
            r == (self.bits() == 0),
    {
        self.bits == 0
    }
}

/// The ciphers and key-management schemes that an access point offers under
/// one security protocol.
#[derive(Debug, Clone, Copy, PartialEq, Eq, Structural)]
pub struct ApSecurityFlags {
    bits: u32,
}

impl ApSecurityFlags {
    pub const NONE: u32 = 0x0;

    pub const WEP40: u32 = 0x1;

    pub const WEP104: u32 = 0x2;

    pub const TKIP: u32 = 0x4;

    pub const CCMP: u32 = 0x8;

    pub const GROUP_WEP40: u32 = 0x10;

    pub const GROUP_WEP104: u32 = 0x20;

    pub const GROUP_TKIP: u32 = 0x40;

    pub const GROUP_CCMP: u32 = 0x80;

    pub const KEY_MGMTPSK: u32 = 0x100;

    pub const KEY_MGMT_802_1X: u32 = 0x200;

    pub const KEY_MGMT_SAE: u32 = 0x400;

    pub const KEY_MGMT_OWE: u32 = 0x800;

    pub const KEY_MGMT_OWE_TM: u32 = 0x1000;

    pub const KEY_MGMT_EAP_SUITE_B_192: u32 = 0x2000;

    /// The bits that are set.
    pub closed spec fn spec_bits(self) -> u32 {
        self.bits
    }

    #[verifier::when_used_as_spec(spec_bits)]
    pub fn bits(self) -> (r: u32)
        ensures
            r == self.spec_bits(),
    {
        self.bits
    }

    /// Keeps the known bits of `bits` and drops the others.
    pub fn from_bits_truncate(bits: u32) -> (r: ApSecurityFlags)
        ensures
            r.bits() == bits & AP_SECURITY_FLAGS_MASK,
    {
        ApSecurityFlags { bits: bits & AP_SECURITY_FLAGS_MASK }
    }

    /// Whether every bit of `mask` is set.
    pub fn contains(self, mask: u32) -> (r: bool)
        ensures
            r == (self.bits() & mask == mask),
    {
        self.bits & mask == mask
    }

    /// Whether no bit is set.
    pub fn is_empty(self) -> (r: bool)
        ensures
            r == (self.bits() == 0),
    {
        self.bits == 0
    }
}

/// Whether an access point with these capabilities protects its traffic: it
/// asks for privacy, and at least one of its two security protocols offers
/// something.
pub open spec fn spec_is_secure(flags: ApFlags, rsn: ApSecurityFlags, wpa: ApSecurityFlags) -> bool {
    flags.bits() & ApFlags::PRIVACY == ApFlags::PRIVACY && (rsn.bits() != 0 || wpa.bits() != 0)
}

#[verifier::when_used_as_spec(spec_is_secure)]
pub fn is_secure(flags: ApFlags, rsn: ApSecurityFlags, wpa: ApSecurityFlags) -> (r: bool)
    ensures
        r == spec_is_secure(flags, rsn, wpa),
{
    flags.contains(ApFlags::PRIVACY) && (!rsn.is_empty() || !wpa.is_empty())
}

} // verus!
