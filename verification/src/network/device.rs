//! A network device as the service describes it.

use crate::lists::copy_texts;
use crate::network::devices::{SpecificDevice, SpecificDeviceView, Wireless, WirelessView};
use crate::network::enums::{DeviceState, DeviceType};
use crate::service::{resolve, spec_resolve, DeviceProperty, Response, ResponseView};
use vstd::prelude::*;

verus! {

/// What the service tells of a device.
#[derive(Debug, Clone, PartialEq, Eq)]
pub struct Device {
    path: String,
    device_type: u32,
    state: u32,
    active_connection: String,
    available_connections: Vec<String>,
    access_points: Vec<String>,
    active_access_point: String,
}

pub struct DeviceView {
    pub path: Seq<char>,
    pub device_type: u32,
    pub state: u32,
    pub active_connection: Seq<char>,
    pub available_connections: Seq<Seq<char>>,
    pub access_points: Seq<Seq<char>>,
    pub active_access_point: Seq<char>,
}

impl DeviceView {
    /// The device by what it can do: a wifi device with its wifi side, an
    /// ethernet or WireGuard device by its kind, and nothing for the rest.
    pub open spec fn specific(self) -> Option<SpecificDeviceView> {
        match DeviceType::of_code(self.device_type) {
            DeviceType::Wifi => Some(
                SpecificDeviceView::Wireless(
                    WirelessView {
                        access_points: self.access_points,
                        active_access_point: self.active_access_point,
                    },
                ),
            ),
            DeviceType::Ethernet => Some(SpecificDeviceView::Wired),
            DeviceType::WireGuard => Some(SpecificDeviceView::WireGuard),
            _ => None,
        }
    }

    /// What the device answers when asked for a property. Only a wifi
    /// device knows of access points.
    pub open spec fn answer(self, property: DeviceProperty) -> ResponseView {
        match property {
            DeviceProperty::DeviceType => ResponseView::Code(self.device_type),
            DeviceProperty::State => ResponseView::Code(self.state),
            DeviceProperty::ActiveConnection => ResponseView::Path(self.active_connection),
            DeviceProperty::AvailableConnections => ResponseView::Paths(
                self.available_connections,
            ),
            DeviceProperty::AccessPoints => if DeviceType::of_code(self.device_type)
                == DeviceType::Wifi {
                ResponseView::Paths(self.access_points)
            } else {
                ResponseView::Failed
            },
            DeviceProperty::ActiveAccessPoint => if DeviceType::of_code(self.device_type)
                == DeviceType::Wifi {
                ResponseView::Path(self.active_access_point)
            } else {
                ResponseView::Failed
            },
        }
    }
}

impl View for Device {
    type V = DeviceView;

    closed spec fn view(&self) -> DeviceView {
        DeviceView {
            path: self.path@,
            device_type: self.device_type,
            state: self.state,
            active_connection: self.active_connection@,
            available_connections: self.available_connections.deep_view(),
            access_points: self.access_points.deep_view(),
            active_access_point: self.active_access_point@,
        }
    }
}

impl DeepView for Device {
    type V = DeviceView;

    open spec fn deep_view(&self) -> DeviceView {
        self@
    }
}

impl Device {
    /// A device from what the service reports of it: where it lives, the
    /// codes of its kind and state, its active connection, the configured
    /// connections that fit it, and for a wifi device the access points it
    /// sees and the one it is bound to.
    pub fn new(
        path: String,
        device_type: u32,
        state: u32,
        active_connection: String,
        available_connections: Vec<String>,
        access_points: Vec<String>,
        active_access_point: String,
    ) -> (r: Device)
        ensures
            r@ == (DeviceView {
                path: path@,
                device_type,
                state,
                active_connection: active_connection@,
                available_connections: available_connections.deep_view(),
                access_points: access_points.deep_view(),
                active_access_point: active_access_point@,
            }),
    {
        Device {
            path,
            device_type,
            state,
            active_connection,
            available_connections,
            access_points,
            active_access_point,
        }
    }

    pub fn state(&self) -> (r: DeviceState)
        ensures
            r == DeviceState::of_code(self@.state),
    {
        DeviceState::from(self.state)
    }

    pub fn device_type(&self) -> (r: DeviceType)
        ensures
            r == DeviceType::of_code(self@.device_type),
    {
        DeviceType::from(self.device_type)
    }

    pub fn path(&self) -> (r: String)
        ensures
            r@ == self@.path,
    {
        self.path.clone()
    }

    /// The active connection of the device, if it has one.
    pub fn active_connection(&self) -> (r: Option<String>)
        ensures
            r.deep_view() == spec_resolve(self@.active_connection),
    {
        resolve(self.active_connection.clone())
    }

    /// The configured connections that fit the device.
    pub fn available_connections(&self) -> (r: Vec<String>)
        ensures
            r.deep_view() == self@.available_connections,
    {
        copy_texts(&self.available_connections)
    }

    /// The device by what it can do.
    pub fn to_specific_device(&self) -> (r: Option<SpecificDevice>)
        ensures
            r.deep_view() == self@.specific(),
    {
        match self.device_type() {
            DeviceType::Wifi => Some(
                SpecificDevice::Wireless(
                    Wireless::new(
                        copy_texts(&self.access_points),
                        self.active_access_point.clone(),
                    ),
                ),
            ),
            DeviceType::Ethernet => Some(SpecificDevice::Wired),
            DeviceType::WireGuard => Some(SpecificDevice::WireGuard),
            _ => None,
        }
    }

    /// Answers a question about one property.
    pub fn answer(&self, property: DeviceProperty) -> (r: Response)
        ensures
            r@ == self@.answer(property),
    {
        match property {
            DeviceProperty::DeviceType => Response::Code(self.device_type),
            DeviceProperty::State => Response::Code(self.state),
            DeviceProperty::ActiveConnection => Response::Path(self.active_connection.clone()),
            DeviceProperty::AvailableConnections => Response::Paths(
                copy_texts(&self.available_connections),
            ),
            DeviceProperty::AccessPoints => {
                if self.device_type() == DeviceType::Wifi {
                    Response::Paths(copy_texts(&self.access_points))
                } else {
                    Response::Failed
                }
            },
            DeviceProperty::ActiveAccessPoint => {
                if self.device_type() == DeviceType::Wifi {
                    Response::Path(self.active_access_point.clone())
                } else {
                    Response::Failed
                }
            },
        }
    }
}

} // verus!
