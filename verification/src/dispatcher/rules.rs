//! The decisions of an access-point change, on what was read.

use crate::network::enums::ActiveConnectionState;
use crate::status::{WifiConnection, WifiConnectionView};
use vstd::prelude::*;

verus! {

/// An access point that the wifi device sees: where it lives in the
/// service, and the network it offers.
#[derive(Debug, Clone, PartialEq, Eq)]
pub struct SeenAccessPoint {
    pub path: String,
    pub network: WifiConnection,
}

pub struct SeenAccessPointView {
    pub path: Seq<char>,
    pub network: WifiConnectionView,
}

impl View for SeenAccessPoint {
    type V = SeenAccessPointView;

    open spec fn view(&self) -> SeenAccessPointView {
        SeenAccessPointView { path: self.path@, network: self.network@ }
    }
}

impl DeepView for SeenAccessPoint {
    type V = SeenAccessPointView;

    open spec fn deep_view(&self) -> SeenAccessPointView {
        self@
    }
}

impl SeenAccessPoint {
    /// A copy with the same path and network.
    pub fn duplicate(&self) -> (r: SeenAccessPoint)
        ensures
            r@ == self@,
    {
        SeenAccessPoint { path: self.path.clone(), network: self.network.duplicate() }
    }
}

/// Whether a connection of this name runs over the access point with this
/// hardware address: some access point in sight has the address and offers a
/// network of the name.
pub open spec fn spec_is_bound(
    seen: Seq<SeenAccessPointView>,
    hw_address: Seq<char>,
    id: Seq<char>,
) -> bool {
    exists|i: int|
        0 <= i < seen.len() && (#[trigger] seen[i]).network.ssid == id && seen[i].network.hw_address
            == hw_address
}

pub fn is_bound(seen: &Vec<SeenAccessPoint>, hw_address: &String, id: &String) -> (r: bool)
    ensures
        r == spec_is_bound(seen.deep_view(), hw_address@, id@),
{
    let mut i: usize = 0;
    while i < seen.len()
        invariant
            i <= seen.len(),
            forall|k: int|
                0 <= k < i ==> !((#[trigger] seen.deep_view()[k]).network.ssid == id@
                    && seen.deep_view()[k].network.hw_address == hw_address@),
        decreases seen.len() - i,
    {
        assert(seen.deep_view()[i as int] == seen[i as int]@);
        if seen[i].network.ssid == *id && seen[i].network.hw_address == *hw_address {
            return true;
        }
        i += 1;
    }
    false
}

/// Whether a connection of this name and in this state is the target in
/// use: the connection is activated, it carries the name of the target, and
/// some access point in sight offers the target, by name and hardware
/// address together.
pub open spec fn spec_in_use(
    seen: Seq<SeenAccessPointView>,
    target: WifiConnectionView,
    id: Seq<char>,
    state: ActiveConnectionState,
) -> bool {
    state == ActiveConnectionState::Activated && id == target.ssid && spec_is_bound(
        seen,
        target.hw_address,
        id,
    )
}

pub fn in_use(
    seen: &Vec<SeenAccessPoint>,
    target: &WifiConnection,
    id: &String,
    state: ActiveConnectionState,
) -> (r: bool)
    ensures
        r == spec_in_use(seen.deep_view(), target@, id@, state),
{
    state == ActiveConnectionState::Activated && *id == target.ssid && is_bound(
        seen,
        &target.hw_address,
        id,
    )
}

/// The target counts as in use only where an access point in sight offers
/// it: the name of the connection alone, or the hardware address alone, does
/// not make it so.
pub proof fn law_in_use_needs_the_target_in_sight(
    seen: Seq<SeenAccessPointView>,
    target: WifiConnectionView,
    id: Seq<char>,
    state: ActiveConnectionState,
)
    requires
        spec_in_use(seen, target, id, state),
    ensures
        state == ActiveConnectionState::Activated,
        id == target.ssid,
        exists|i: int| 0 <= i < seen.len() && (#[trigger] seen[i]).network == target,
        spec_find_access_point(seen, target) is Some,
{
    let i = choose|i: int|
        0 <= i < seen.len() && (#[trigger] seen[i]).network.ssid == id && seen[i].network.hw_address
            == target.hw_address;
    assert(seen[i].network == target);
    law_access_point_is_found_by_name_and_address(seen, target);
}

/// The first access point in sight that offers exactly the network.
pub open spec fn spec_find_access_point(
    seen: Seq<SeenAccessPointView>,
    target: WifiConnectionView,
) -> Option<SeenAccessPointView>
    decreases seen.len(),
{
    if seen.len() == 0 {
        None
    } else if seen[0].network == target {
        Some(seen[0])
    } else {
        spec_find_access_point(seen.drop_first(), target)
    }
}

/// An access point is found by name and hardware address together, never by
/// the name alone: what `spec_find_access_point` finds is in sight and offers
/// exactly the network, nothing before it does, and it finds nothing only
/// where nothing in sight offers the network.
pub proof fn law_access_point_is_found_by_name_and_address(seen: Seq<SeenAccessPointView>, target: WifiConnectionView)
    ensures
        match spec_find_access_point(seen, target) {
            Some(found) => exists|i: int|
                0 <= i < seen.len() && seen[i] == found && found.network == target && forall|j: int|
                    0 <= j < i ==> (#[trigger] seen[j]).network != target,
            None => forall|j: int| 0 <= j < seen.len() ==> (#[trigger] seen[j]).network != target,
        },
    decreases seen.len(),
{
    if seen.len() == 0 {
    } else if seen[0].network == target {
        assert(seen[0] == spec_find_access_point(seen, target)->0);
    } else {
        let rest = seen.drop_first();
        law_access_point_is_found_by_name_and_address(rest, target);
        match spec_find_access_point(rest, target) {
            Some(found) => {
                let i = choose|i: int|
                    0 <= i < rest.len() && rest[i] == found && found.network == target && forall|
                        j: int,
                    |
                        0 <= j < i ==> (#[trigger] rest[j]).network != target;
                assert(seen[i + 1] == found);
                assert forall|j: int| 0 <= j < i + 1 implies (#[trigger] seen[j]).network
                    != target by {
                    if j > 0 {
                        assert(seen[j] == rest[j - 1]);
                    }
                }
            },
            None => {
                assert forall|j: int| 0 <= j < seen.len() implies (#[trigger] seen[j]).network
                    != target by {
                    if j > 0 {
                        assert(seen[j] == rest[j - 1]);
                    }
                }
            },
        }
    }
}

pub fn find_access_point<'a>(seen: &'a Vec<SeenAccessPoint>, target: &WifiConnection) -> (r: Option<
    &'a SeenAccessPoint,
>)
    ensures
        r.deep_view() == spec_find_access_point(seen.deep_view(), target@),
{
    let mut i: usize = 0;
    assert(seen.deep_view().skip(0) =~= seen.deep_view());
    while i < seen.len()
        invariant
            i <= seen.len(),
            spec_find_access_point(seen.deep_view(), target@) == spec_find_access_point(
                seen.deep_view().skip(i as int),
                target@,
            ),
        decreases seen.len() - i,
    {
        let ghost here = seen.deep_view().skip(i as int);
        assert(here[0] == seen[i as int]@);
        assert(here.drop_first() =~= seen.deep_view().skip(i + 1));
        if seen[i].network.same_as(target) {
            return Some(&seen[i]);
        }
        i += 1;
    }
    assert(seen.deep_view().skip(i as int).len() == 0);
    None
}

} // verus!
