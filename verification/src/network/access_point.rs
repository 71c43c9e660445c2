//! A wifi access point as the service describes it.

use crate::network::flags::{
    is_secure, spec_is_secure, ApFlags, ApSecurityFlags, AP_FLAGS_MASK, AP_SECURITY_FLAGS_MASK,
};
use crate::service::{AccessPointProperty, Response, ResponseView};
use crate::status::{WifiConnection, WifiConnectionView};
use crate::text::{ascii_text, is_ascii_bytes, lossy_text, text_of};
use vstd::prelude::*;

verus! {

/// What the service tells of an access point.
#[derive(Debug, Clone, PartialEq, Eq)]
pub struct AccessPoint {
    path: String,
    ssid: Vec<u8>,
    hw_address: String,
    strength: u8,
    flags: u32,
    rsn_flags: u32,
    wpa_flags: u32,
}

pub struct AccessPointView {
    pub path: Seq<char>,
    pub ssid: Seq<u8>,
    pub hw_address: Seq<char>,
    pub strength: u8,
    pub flags: u32,
    pub rsn_flags: u32,
    pub wpa_flags: u32,
}

impl AccessPointView {
    /// The name of the network: the SSID as text.
    pub open spec fn id(self) -> Seq<char> {
        lossy_text(self.ssid)
    }

    /// The network that the access point offers.
    pub open spec fn network(self) -> WifiConnectionView {
        WifiConnectionView { ssid: self.id(), hw_address: self.hw_address }
    }

    /// Whether the access point protects its traffic.
    pub open spec fn secure(self) -> bool {
        self.flags & ApFlags::PRIVACY == ApFlags::PRIVACY && (self.rsn_flags
            & AP_SECURITY_FLAGS_MASK != 0 || self.wpa_flags & AP_SECURITY_FLAGS_MASK != 0)
    }

    /// What the access point answers when asked for a property.
    pub open spec fn answer(self, property: AccessPointProperty) -> ResponseView {
        match property {
            AccessPointProperty::Ssid => ResponseView::Bytes(self.ssid),
            AccessPointProperty::HwAddress => ResponseView::Text(self.hw_address),
            AccessPointProperty::Strength => ResponseView::Level(self.strength),
        }
    }
}

impl View for AccessPoint {
    type V = AccessPointView;

    closed spec fn view(&self) -> AccessPointView {
        AccessPointView {
            path: self.path@,
            ssid: self.ssid@,
            hw_address: self.hw_address@,
            strength: self.strength,
            flags: self.flags,
            rsn_flags: self.rsn_flags,
            wpa_flags: self.wpa_flags,
        }
    }
}

impl DeepView for AccessPoint {
    type V = AccessPointView;

    open spec fn deep_view(&self) -> AccessPointView {
        self@
    }
}

impl AccessPoint {
    /// An access point from what the service reports of it: where it lives,
    /// the raw SSID, the hardware address, the signal strength in percent,
    /// and the three words of capability bits.
    pub fn new(
        path: String,
        ssid: Vec<u8>,
        hw_address: String,
        strength: u8,
        flags: u32,
        rsn_flags: u32,
        wpa_flags: u32,
    ) -> (r: AccessPoint)
        ensures
            r@ == (AccessPointView {
                path: path@,
                ssid: ssid@,
                hw_address: hw_address@,
                strength,
                flags,
                rsn_flags,
                wpa_flags,
            }),
    {
        AccessPoint { path, ssid, hw_address, strength, flags, rsn_flags, wpa_flags }
    }

    /// A copy that tells the same.
    pub fn duplicate(&self) -> (r: AccessPoint)
        ensures
            r@ == self@,
    {
        AccessPoint {
            path: self.path.clone(),
            ssid: self.ssid.clone(),
            hw_address: self.hw_address.clone(),
            strength: self.strength,
            flags: self.flags,
            rsn_flags: self.rsn_flags,
            wpa_flags: self.wpa_flags,
        }
    }

    /// The name of the network: the SSID as text, with U+FFFD where it is not
    /// UTF-8. An SSID of ASCII bytes gives the text whose characters are the
    /// bytes.
    pub fn id(&self) -> (r: String)
        ensures
            r@ == self@.id(),
            is_ascii_bytes(self@.ssid) ==> r@ == ascii_text(self@.ssid),
    {
        text_of(self.ssid.as_slice())
    }

    pub fn hw_address(&self) -> (r: String)
        ensures
            r@ == self@.hw_address,
    {
        self.hw_address.clone()
    }

    pub fn strength(&self) -> (r: u8)
        ensures
            r == self@.strength,
    {
        self.strength
    }

    /// The general capabilities; bits without a meaning are dropped.
    pub fn flags(&self) -> (r: ApFlags)
        ensures
            r.bits() == self@.flags & AP_FLAGS_MASK,
    {
        ApFlags::from_bits_truncate(self.flags)
    }

    /// What the access point offers under RSN; bits without a meaning are
    /// dropped.
    pub fn rsn_flags(&self) -> (r: ApSecurityFlags)
        ensures
            r.bits() == self@.rsn_flags & AP_SECURITY_FLAGS_MASK,
    {
        ApSecurityFlags::from_bits_truncate(self.rsn_flags)
    }

    /// What the access point offers under WPA; bits without a meaning are
    /// dropped.
    pub fn wpa_flags(&self) -> (r: ApSecurityFlags)
        ensures
            r.bits() == self@.wpa_flags & AP_SECURITY_FLAGS_MASK,
    {
        ApSecurityFlags::from_bits_truncate(self.wpa_flags)
    }

    /// Whether the access point protects its traffic: it asks for privacy,
    /// and RSN or WPA offers something.
    pub fn secure(&self) -> (r: bool)
        ensures
            r == self@.secure(),
    {
        let flags = self.flags();
        let rsn = self.rsn_flags();
        let wpa = self.wpa_flags();
        assert(spec_is_secure(flags, rsn, wpa) == self@.secure()) by {
            let raw: u32 = self.flags;
            assert((raw & 0xf) & 0x1 == 0x1 <==> raw & 0x1 == 0x1) by (bit_vector);
        }
        is_secure(flags, rsn, wpa)
    }

    pub fn path(&self) -> (r: String)
        ensures
            r@ == self@.path,
    {
        self.path.clone()
    }

    /// The network that the access point offers, as the tray lists it.
    pub fn network(&self) -> (r: WifiConnection)
        ensures
            r@ == self@.network(),
    {
        WifiConnection { ssid: self.id(), hw_address: self.hw_address.clone() }
    }

    /// Answers a question about one property.
    pub fn answer(&self, property: AccessPointProperty) -> (r: Response)
        ensures
            r@ == self@.answer(property),
    {
        match property {
            AccessPointProperty::Ssid => Response::Bytes(self.ssid.clone()),
            AccessPointProperty::HwAddress => Response::Text(self.hw_address.clone()),
            AccessPointProperty::Strength => Response::Level(self.strength),
        }
    }
}

} // verus!
