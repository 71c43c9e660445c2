//! What a device can do beyond what every device can.

use crate::lists::copy_texts;
use crate::service::{resolve, spec_resolve};
use vstd::prelude::*;

verus! {

/// The wifi side of a device.
#[derive(Debug, Clone, PartialEq, Eq)]
pub struct Wireless {
    access_points: Vec<String>,
    active_access_point: String,
}

pub struct WirelessView {
    pub access_points: Seq<Seq<char>>,
    pub active_access_point: Seq<char>,
}

impl View for Wireless {
    type V = WirelessView;

    closed spec fn view(&self) -> WirelessView {
        WirelessView {
            access_points: self.access_points.deep_view(),
            active_access_point: self.active_access_point@,
        }
    }
}

impl DeepView for Wireless {
    type V = WirelessView;

    open spec fn deep_view(&self) -> WirelessView {
        self@
    }
}

impl Wireless {
    /// The wifi side of a device from the access points it sees and the one
    /// it is bound to.
    pub fn new(access_points: Vec<String>, active_access_point: String) -> (r: Wireless)
        ensures
            r@ == (WirelessView {
                access_points: access_points.deep_view(),
                active_access_point: active_access_point@,
            }),
    {
        Wireless { access_points, active_access_point }
    }

    /// The access point that the device is bound to, if it is bound to one.
    pub fn active_access_point(&self) -> (r: Option<String>)
        ensures
            r.deep_view() == spec_resolve(self@.active_access_point),
    {
        resolve(self.active_access_point.clone())
    }

    /// The access points that the device sees.
    pub fn access_points(&self) -> (r: Vec<String>)
        ensures
            r.deep_view() == self@.access_points,
    {
        copy_texts(&self.access_points)
    }
}

/// A device by what it can do. Only a wifi device carries more than its
/// kind.
#[derive(Debug, Clone, PartialEq, Eq)]
pub enum SpecificDevice {
    Wireless(Wireless),
    Wired,
    WireGuard,
}

pub enum SpecificDeviceView {
    Wireless(WirelessView),
    Wired,
    WireGuard,
}

impl View for SpecificDevice {
    type V = SpecificDeviceView;

    open spec fn view(&self) -> SpecificDeviceView {
        match self {
            SpecificDevice::Wireless(wireless) => SpecificDeviceView::Wireless(wireless@),
            SpecificDevice::Wired => SpecificDeviceView::Wired,
            SpecificDevice::WireGuard => SpecificDeviceView::WireGuard,
        }
    }
}

impl DeepView for SpecificDevice {
    type V = SpecificDeviceView;

    open spec fn deep_view(&self) -> SpecificDeviceView {
        self@
    }
}

} // verus!
