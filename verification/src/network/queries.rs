//! Questions to a service held in memory, by the path of an object.

use crate::network::enums::ActiveConnectionState;
use crate::network::network_manager::{
    spec_find_access_point, spec_find_connection, spec_find_setting, NetworkManagerView,
};
use crate::service::spec_resolve;
use crate::status::WifiConnectionView;
use vstd::prelude::*;

verus! {

/// The name of the configured connection at the path.
pub open spec fn setting_id(w: NetworkManagerView, path: Seq<char>) -> Option<Seq<char>> {
    match spec_find_setting(w.settings, path) {
        Some(setting) => setting.id(),
        None => None,
    }
}

/// The names of the configured connections at the paths, in order.
pub open spec fn setting_ids(w: NetworkManagerView, paths: Seq<Seq<char>>) -> Seq<Seq<char>> {
    Seq::new(
        paths.len(),
        |i: int|
            match setting_id(w, paths[i]) {
                Some(id) => id,
                None => Seq::empty(),
            },
    )
}

/// The network of the access point at the path.
pub open spec fn network_at(w: NetworkManagerView, path: Seq<char>) -> WifiConnectionView {
    match spec_find_access_point(w.access_points, path) {
        Some(access_point) => access_point.network(),
        None => WifiConnectionView { ssid: Seq::empty(), hw_address: Seq::empty() },
    }
}

/// The networks of the access points at the paths, in order.
pub open spec fn networks_at(w: NetworkManagerView, paths: Seq<Seq<char>>) -> Seq<
    WifiConnectionView,
> {
    Seq::new(paths.len(), |i: int| network_at(w, paths[i]))
}

/// Whether the path names an active connection that is activated.
pub open spec fn connection_is_activated(w: NetworkManagerView, path: Seq<char>) -> bool {
    match spec_resolve(path) {
        Some(connection) => match spec_find_connection(w.active_connections, connection) {
            Some(found) => ActiveConnectionState::of_code(found.state)
                == ActiveConnectionState::Activated,
            None => false,
        },
        None => false,
    }
}

/// Whether the service knows the configured connection at the path and its
/// name.
pub open spec fn setting_named(w: NetworkManagerView, path: Seq<char>) -> bool {
    setting_id(w, path) is Some
}

/// Whether the service knows the access point at the path.
pub open spec fn access_point_known(w: NetworkManagerView, path: Seq<char>) -> bool {
    spec_find_access_point(w.access_points, path) is Some
}

/// Whether the path names no connection, or one that the service knows.
pub open spec fn connection_known(w: NetworkManagerView, path: Seq<char>) -> bool {
    spec_resolve(path) matches Some(connection) ==> spec_find_connection(
        w.active_connections,
        connection,
    ) is Some
}

} // verus!
