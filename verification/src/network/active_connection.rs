//! An active connection: a configured connection at work on a device.

use crate::lists::copy_texts;
use crate::network::enums::{ActiveConnectionState, DeviceType};
use crate::service::{resolve, spec_resolve, ConnectionProperty, Response, ResponseView};
use vstd::prelude::*;

verus! {

/// What the service tells of an active connection.
#[derive(Debug, Clone, PartialEq, Eq)]
pub struct ActiveConnection {
    path: String,
    id: String,
    state: u32,
    connection_type: String,
    connection: String,
    specific_object: String,
    devices: Vec<String>,
}

pub struct ActiveConnectionView {
    pub path: Seq<char>,
    pub id: Seq<char>,
    pub state: u32,
    pub connection_type: Seq<char>,
    pub connection: Seq<char>,
    pub specific_object: Seq<char>,
    pub devices: Seq<Seq<char>>,
}

impl ActiveConnectionView {
    /// What the connection answers when asked for a property.
    pub open spec fn answer(self, property: ConnectionProperty) -> ResponseView {
        match property {
            ConnectionProperty::Id => ResponseView::Text(self.id),
            ConnectionProperty::State => ResponseView::Code(self.state),
            ConnectionProperty::ConnectionType => ResponseView::Text(self.connection_type),
            ConnectionProperty::Devices => ResponseView::Paths(self.devices),
            ConnectionProperty::SpecificObject => ResponseView::Path(self.specific_object),
        }
    }
}

impl View for ActiveConnection {
    type V = ActiveConnectionView;

    closed spec fn view(&self) -> ActiveConnectionView {
        ActiveConnectionView {
            path: self.path@,
            id: self.id@,
            state: self.state,
            connection_type: self.connection_type@,
            connection: self.connection@,
            specific_object: self.specific_object@,
            devices: self.devices.deep_view(),
        }
    }
}

impl DeepView for ActiveConnection {
    type V = ActiveConnectionView;

    open spec fn deep_view(&self) -> ActiveConnectionView {
        self@
    }
}

impl ActiveConnection {
    /// An active connection from what the service reports of it: where it
    /// lives, its display name, the code of its state, the name of its
    /// type, the configured connection behind it, the object it is bound
    /// to, and the devices it runs on.
    pub fn new(
        path: String,
        id: String,
        state: u32,
        connection_type: String,
        connection: String,
        specific_object: String,
        devices: Vec<String>,
    ) -> (r: ActiveConnection)
        ensures
            r@ == (ActiveConnectionView {
                path: path@,
                id: id@,
                state,
                connection_type: connection_type@,
                connection: connection@,
                specific_object: specific_object@,
                devices: devices.deep_view(),
            }),
    {
        ActiveConnection { path, id, state, connection_type, connection, specific_object, devices }
    }

    pub fn id(&self) -> (r: String)
        ensures
            r@ == self@.id,
    {
        self.id.clone()
    }

    pub fn state(&self) -> (r: ActiveConnectionState)
        ensures
            r == ActiveConnectionState::of_code(self@.state),
    {
        ActiveConnectionState::from(self.state)
    }

    /// The kind of device that the connection is made for.
    pub fn device_type(&self) -> (r: DeviceType)
        ensures
            r == DeviceType::of_name(self@.connection_type),
    {
        DeviceType::from(self.connection_type.clone())
    }

    /// The configured connection behind this one.
    pub fn connection(&self) -> (r: String)
        ensures
            r@ == self@.connection,
    {
        self.connection.clone()
    }

    pub fn path(&self) -> (r: String)
        ensures
            r@ == self@.path,
    {
        self.path.clone()
    }

    /// The object that the connection is bound to, if it is bound to one.
    pub fn specific_object(&self) -> (r: Option<String>)
        ensures
            r.deep_view() == spec_resolve(self@.specific_object),
    {
        resolve(self.specific_object.clone())
    }

    /// The devices that the connection runs on.
    pub fn devices(&self) -> (r: Vec<String>)
        ensures
            r.deep_view() == self@.devices,
    {
        copy_texts(&self.devices)
    }

    /// Answers a question about one property.
    pub fn answer(&self, property: ConnectionProperty) -> (r: Response)
        ensures
            r@ == self@.answer(property),
    {
        match property {
            ConnectionProperty::Id => Response::Text(self.id.clone()),
            ConnectionProperty::State => Response::Code(self.state),
            ConnectionProperty::ConnectionType => Response::Text(self.connection_type.clone()),
            ConnectionProperty::Devices => Response::Paths(copy_texts(&self.devices)),
            ConnectionProperty::SpecificObject => Response::Path(self.specific_object.clone()),
        }
    }
}

} // verus!
