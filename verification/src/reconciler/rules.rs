//! The rules of a status pass that need no memory: from one answer of the
//! service to what it means for the tray.

use crate::network::enums::{DeviceState, DeviceType, NmState};
use crate::status::{Icon, WifiConnection, WifiConnectionView, WiredState};
use vstd::prelude::*;

verus! {

/// How often a pass waits for a wifi device to come up before it gives up.
pub const MAX_ACTIVATION_ATTEMPTS: u32 = 20;

/// How long one such wait lasts, in seconds.
pub const ACTIVATION_TIMEOUT_SECS: u64 = 20;

/// After how many seconds a pass that found the connectivity lost asks for
/// another pass.
pub const RECHECK_DELAY_SECS: u64 = 5;

/// Airplane mode is on when every radio is off.
pub open spec fn spec_airplane_mode(wifi_enabled: bool, bluetooth_enabled: bool) -> bool {
    !wifi_enabled && !bluetooth_enabled
}

#[verifier::when_used_as_spec(spec_airplane_mode)]
pub fn airplane_mode(wifi_enabled: bool, bluetooth_enabled: bool) -> (r: bool)
    ensures
        r == spec_airplane_mode(wifi_enabled, bluetooth_enabled),
{
    !wifi_enabled && !bluetooth_enabled
}

/// The icon of a state of networking that settles the pass at once, without
/// a look at connectivity or devices. The connected states have none.
pub open spec fn spec_quiet_icon(state: NmState) -> Option<Icon> {
    match state {
        NmState::Unknown => Some(Icon::Unknown),
        NmState::Asleep => Some(Icon::Off),
        NmState::Connecting | NmState::Disconnecting => Some(Icon::Busy),
        NmState::Disconnected => Some(Icon::Disconnected),
        NmState::ConnectedLocal | NmState::ConnectedSite | NmState::ConnectedGlobal => None,
    }
}

#[verifier::when_used_as_spec(spec_quiet_icon)]
pub fn quiet_icon(state: NmState) -> (r: Option<Icon>)
    ensures
        r == spec_quiet_icon(state),
        r is None <==> state.is_connected(),
{
    match state {
        NmState::Unknown => Some(Icon::Unknown),
        NmState::Asleep => Some(Icon::Off),
        NmState::Connecting | NmState::Disconnecting => Some(Icon::Busy),
        NmState::Disconnected => Some(Icon::Disconnected),
        NmState::ConnectedLocal | NmState::ConnectedSite | NmState::ConnectedGlobal => None,
    }
}

/// The icon of a primary device that is not a wifi device.
pub open spec fn spec_device_icon(device_type: DeviceType) -> Icon {
    match device_type {
        DeviceType::Ethernet => Icon::Ethernet,
        DeviceType::TunTap => Icon::Tun,
        _ => Icon::Unknown,
    }
}

#[verifier::when_used_as_spec(spec_device_icon)]
pub fn device_icon(device_type: DeviceType) -> (r: Icon)
    ensures
        r == spec_device_icon(device_type),
{
    match device_type {
        DeviceType::Ethernet => Icon::Ethernet,
        DeviceType::TunTap => Icon::Tun,
        _ => Icon::Unknown,
    }
}

/// The wired panel of an ethernet device: on when it is activated, off when
/// it is disconnected, and left alone in every other state.
pub open spec fn spec_wired_panel(state: DeviceState) -> Option<WiredState> {
    match state {
        DeviceState::Activated => Some(WiredState { on: true }),
        DeviceState::Disconnected => Some(WiredState { on: false }),
        _ => None,
    }
}

#[verifier::when_used_as_spec(spec_wired_panel)]
pub fn wired_panel(state: DeviceState) -> (r: Option<WiredState>)
    ensures
        r == spec_wired_panel(state),
{
    match state {
        DeviceState::Activated => Some(WiredState { on: true }),
        DeviceState::Disconnected => Some(WiredState { on: false }),
        _ => None,
    }
}

/// The first of the visible networks that carries the name.
pub open spec fn spec_find_by_ssid(visible: Seq<WifiConnectionView>, ssid: Seq<char>) -> Option<
    WifiConnectionView,
>
    decreases visible.len(),
{
    if visible.len() == 0 {
        None
    } else if visible[0].ssid == ssid {
        Some(visible[0])
    } else {
        spec_find_by_ssid(visible.drop_first(), ssid)
    }
}

/// The known networks: for each configured name in turn the first visible
/// network that carries it, left out where there is none or where it has no
/// hardware address.
pub open spec fn spec_known_connections(
    ids: Seq<Seq<char>>,
    visible: Seq<WifiConnectionView>,
) -> Seq<WifiConnectionView>
    decreases ids.len(),
{
    if ids.len() == 0 {
        Seq::empty()
    } else {
        let before = spec_known_connections(ids.drop_last(), visible);
        match spec_find_by_ssid(visible, ids.last()) {
            Some(found) => if found.hw_address.len() > 0 {
                before.push(found)
            } else {
                before
            },
            None => before,
        }
    }
}

/// What `spec_find_by_ssid` finds is one of the visible networks, carries the
/// name, and no network before it does.
pub proof fn lemma_find_by_ssid(visible: Seq<WifiConnectionView>, ssid: Seq<char>)
    ensures
        match spec_find_by_ssid(visible, ssid) {
            Some(found) => exists|i: int|
                0 <= i < visible.len() && visible[i] == found && found.ssid == ssid && forall|j: int|
                    0 <= j < i ==> (#[trigger] visible[j]).ssid != ssid,
            None => forall|j: int| 0 <= j < visible.len() ==> (#[trigger] visible[j]).ssid != ssid,
        },
    decreases visible.len(),
{
    if visible.len() == 0 {
    } else if visible[0].ssid == ssid {
        assert(visible[0] == spec_find_by_ssid(visible, ssid)->0);
    } else {
        let rest = visible.drop_first();
        lemma_find_by_ssid(rest, ssid);
        match spec_find_by_ssid(rest, ssid) {
            Some(found) => {
                let i = choose|i: int|
                    0 <= i < rest.len() && rest[i] == found && found.ssid == ssid && forall|j: int|
                        0 <= j < i ==> (#[trigger] rest[j]).ssid != ssid;
                assert(visible[i + 1] == found);
                assert forall|j: int| 0 <= j < i + 1 implies (#[trigger] visible[j]).ssid
                    != ssid by {
                    if j > 0 {
                        assert(visible[j] == rest[j - 1]);
                    }
                }
            },
            None => {
                assert forall|j: int| 0 <= j < visible.len() implies (#[trigger] visible[j]).ssid
                    != ssid by {
                    if j > 0 {
                        assert(visible[j] == rest[j - 1]);
                    }
                }
            },
        }
    }
}

/// Every known network has a hardware address, is one of the visible
/// networks, and carries one of the configured names.
pub proof fn lemma_known_connections(ids: Seq<Seq<char>>, visible: Seq<WifiConnectionView>)
    ensures
        forall|k: int|
            0 <= k < spec_known_connections(ids, visible).len() ==> {
                let known = #[trigger] spec_known_connections(ids, visible)[k];
                &&& known.hw_address.len() > 0
                &&& visible.contains(known)
                &&& ids.contains(known.ssid)
            },
        spec_known_connections(ids, visible).len() <= ids.len(),
    decreases ids.len(),
{
    if ids.len() > 0 {
        let shorter = ids.drop_last();
        lemma_known_connections(shorter, visible);
        lemma_find_by_ssid(visible, ids.last());
        let before = spec_known_connections(shorter, visible);
        let all = spec_known_connections(ids, visible);
        assert forall|k: int| 0 <= k < all.len() implies {
            let known = #[trigger] all[k];
            &&& known.hw_address.len() > 0
            &&& visible.contains(known)
            &&& ids.contains(known.ssid)
        } by {
            if k < before.len() {
                assert(all[k] == before[k]);
                let i = choose|i: int| 0 <= i < shorter.len() && shorter[i] == before[k].ssid;
                assert(ids[i] == before[k].ssid);
            } else {
                assert(ids[ids.len() - 1] == all[k].ssid);
            }
        }
    }
}

/// Looks a name up among the visible networks.
pub fn find_by_ssid<'a>(visible: &'a Vec<WifiConnection>, ssid: &String) -> (r: Option<
    &'a WifiConnection,
>)
    ensures
        r.deep_view() == spec_find_by_ssid(visible.deep_view(), ssid@),
{
    let mut i: usize = 0;
    assert(visible.deep_view().skip(0) =~= visible.deep_view());
    while i < visible.len()
        invariant
            i <= visible.len(),
            spec_find_by_ssid(visible.deep_view(), ssid@) == spec_find_by_ssid(
                visible.deep_view().skip(i as int),
                ssid@,
            ),
        decreases visible.len() - i,
    {
        let ghost here = visible.deep_view().skip(i as int);
        assert(here[0] == visible[i as int]@);
        assert(here.drop_first() =~= visible.deep_view().skip(i + 1));
        if visible[i].ssid == *ssid {
            return Some(&visible[i]);
        }
        i += 1;
    }
    assert(visible.deep_view().skip(i as int).len() == 0);
    None
}

/// The known networks among the visible ones.
pub fn known_connections(ids: &Vec<String>, visible: &Vec<WifiConnection>) -> (r: Vec<
    WifiConnection,
>)
    ensures
        r.deep_view() == spec_known_connections(ids.deep_view(), visible.deep_view()),
        forall|k: int| 0 <= k < r.len() ==> (#[trigger] r[k]).hw_address@.len() > 0,
{
    let mut known: Vec<WifiConnection> = Vec::new();
    let mut i: usize = 0;
    assert(ids.deep_view().take(0) =~= Seq::empty());
    while i < ids.len()
        invariant
            i <= ids.len(),
            known.deep_view() =~= spec_known_connections(
                ids.deep_view().take(i as int),
                visible.deep_view(),
            ),
        decreases ids.len() - i,
    {
        let ghost upto = ids.deep_view().take(i + 1);
        assert(upto.drop_last() =~= ids.deep_view().take(i as int));
        assert(upto.last() == ids[i as int]@);
        match find_by_ssid(visible, &ids[i]) {
            Some(found) => {
                if !found.hw_address.as_str().is_empty() {
                    let ghost before = known;
                    let copy = found.duplicate();
                    known.push(copy);
                    assert(known.deep_view() =~= before.deep_view().push(copy@));
                }
            },
            None => {},
        }
        i += 1;
    }
    assert(ids.deep_view().take(i as int) =~= ids.deep_view());
    proof {
        lemma_known_connections(ids.deep_view(), visible.deep_view());
        assert forall|k: int| 0 <= k < known.len() implies (#[trigger] known[k]).hw_address@.len()
            > 0 by {
            assert(known.deep_view()[k] == known[k]@);
        }
    }
    known
}

} // verus!
