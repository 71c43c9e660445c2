//! Small helpers on vectors, stated over their views.

use crate::dispatcher::rules::SeenAccessPoint;
use crate::service::{Effect, Request, Response};
use crate::status::{VPNConnection, WifiConnection};
use vstd::prelude::*;

verus! {

/// Takes the first string off a list.
pub fn take_first(list: &mut Vec<String>) -> (first: String)
    requires
        old(list).len() > 0,
    ensures
        first@ == old(list).deep_view()[0],
        final(list).deep_view() == old(list).deep_view().drop_first(),
{
    let first = list.remove(0);
    assert(list.deep_view() =~= old(list).deep_view().drop_first());
    first
}

/// Puts a string at the end of a list.
pub fn push_text(list: &mut Vec<String>, text: String)
    ensures
        final(list).deep_view() == old(list).deep_view().push(text@),
{
    list.push(text);
    assert(list.deep_view() =~= old(list).deep_view().push(text@));
}

/// A list of strings without entries.
pub fn no_texts() -> (list: Vec<String>)
    ensures
        list.deep_view() == Seq::<Seq<char>>::empty(),
{
    let list: Vec<String> = Vec::new();
    assert(list.deep_view() =~= Seq::<Seq<char>>::empty());
    list
}

/// A copy of a list of strings.
pub fn copy_texts(list: &Vec<String>) -> (copy: Vec<String>)
    ensures
        copy.deep_view() == list.deep_view(),
{
    let mut copy: Vec<String> = Vec::new();
    let mut i: usize = 0;
    while i < list.len()
        invariant
            i <= list.len(),
            copy.len() == i,
            forall|k: int| 0 <= k < i ==> (#[trigger] copy[k])@ == list[k]@,
        decreases list.len() - i,
    {
        copy.push(list[i].clone());
        i += 1;
    }
    assert(copy.deep_view() =~= list.deep_view());
    copy
}

/// No effects.
pub fn no_effects() -> (list: Vec<Effect>)
    ensures
        list.deep_view() == Seq::<crate::service::EffectView>::empty(),
{
    let list: Vec<Effect> = Vec::new();
    assert(list.deep_view() =~= Seq::<crate::service::EffectView>::empty());
    list
}

/// One effect.
pub fn one_effect(effect: Effect) -> (list: Vec<Effect>)
    ensures
        list.deep_view() == seq![effect@],
{
    let mut list: Vec<Effect> = Vec::new();
    list.push(effect);
    assert(list.deep_view() =~= seq![effect@]);
    list
}

/// Puts an effect at the end of a list.
pub fn push_effect(list: &mut Vec<Effect>, effect: Effect)
    ensures
        final(list).deep_view() == old(list).deep_view().push(effect@),
{
    list.push(effect);
    assert(list.deep_view() =~= old(list).deep_view().push(effect@));
}

/// A list of networks without entries.
pub fn no_networks() -> (list: Vec<WifiConnection>)
    ensures
        list.deep_view() == Seq::<crate::status::WifiConnectionView>::empty(),
{
    let list: Vec<WifiConnection> = Vec::new();
    assert(list.deep_view() =~= Seq::<crate::status::WifiConnectionView>::empty());
    list
}

/// Puts a network at the end of a list.
pub fn push_network(list: &mut Vec<WifiConnection>, network: WifiConnection)
    ensures
        final(list).deep_view() == old(list).deep_view().push(network@),
{
    list.push(network);
    assert(list.deep_view() =~= old(list).deep_view().push(network@));
}

/// A copy of a list of networks.
pub fn copy_networks(list: &Vec<WifiConnection>) -> (copy: Vec<WifiConnection>)
    ensures
        copy.deep_view() == list.deep_view(),
{
    let mut copy: Vec<WifiConnection> = Vec::new();
    let mut i: usize = 0;
    while i < list.len()
        invariant
            i <= list.len(),
            copy.len() == i,
            forall|k: int| 0 <= k < i ==> (#[trigger] copy[k])@ == list[k]@,
        decreases list.len() - i,
    {
        copy.push(list[i].duplicate());
        i += 1;
    }
    assert(copy.deep_view() =~= list.deep_view());
    copy
}

/// A list of VPN lines without entries.
pub fn no_vpn_lines() -> (list: Vec<VPNConnection>)
    ensures
        list.deep_view() == Seq::<crate::status::VPNConnectionView>::empty(),
{
    let list: Vec<VPNConnection> = Vec::new();
    assert(list.deep_view() =~= Seq::<crate::status::VPNConnectionView>::empty());
    list
}

/// Puts a VPN line at the end of a list.
pub fn push_vpn_line(list: &mut Vec<VPNConnection>, line: VPNConnection)
    ensures
        final(list).deep_view() == old(list).deep_view().push(line@),
{
    list.push(line);
    assert(list.deep_view() =~= old(list).deep_view().push(line@));
}

/// A copy of a list of VPN lines.
pub fn copy_vpn_lines(list: &Vec<VPNConnection>) -> (copy: Vec<VPNConnection>)
    ensures
        copy.deep_view() == list.deep_view(),
{
    let mut copy: Vec<VPNConnection> = Vec::new();
    let mut i: usize = 0;
    while i < list.len()
        invariant
            i <= list.len(),
            copy.len() == i,
            forall|k: int| 0 <= k < i ==> (#[trigger] copy[k])@ == list[k]@,
        decreases list.len() - i,
    {
        copy.push(VPNConnection { name: list[i].name.clone(), on: list[i].on });
        i += 1;
    }
    assert(copy.deep_view() =~= list.deep_view());
    copy
}

/// Moves every effect of `more` to the end of `list`.
pub fn append_effects(list: &mut Vec<Effect>, more: Vec<Effect>)
    ensures
        final(list).deep_view() == old(list).deep_view() + more.deep_view(),
{
    let mut more = more;
    let ghost moved = more.deep_view();
    list.append(&mut more);
    assert(list.deep_view() =~= old(list).deep_view() + moved);
}

/// No requests.
pub fn no_requests() -> (list: Vec<Request>)
    ensures
        list.deep_view() == Seq::<crate::service::RequestView>::empty(),
{
    let list: Vec<Request> = Vec::new();
    assert(list.deep_view() =~= Seq::<crate::service::RequestView>::empty());
    list
}

/// Puts a request at the end of a list.
pub fn push_request(list: &mut Vec<Request>, request: Request)
    ensures
        final(list).deep_view() == old(list).deep_view().push(request@),
{
    list.push(request);
    assert(list.deep_view() =~= old(list).deep_view().push(request@));
}

/// Takes the first answer off a list.
pub fn take_first_response(list: &mut Vec<Response>) -> (first: Response)
    requires
        old(list).len() > 0,
    ensures
        first@ == old(list).deep_view()[0],
        final(list).deep_view() == old(list).deep_view().drop_first(),
{
    let first = list.remove(0);
    assert(list.deep_view() =~= old(list).deep_view().drop_first());
    first
}

/// A list of access points without entries.
pub fn no_seen() -> (list: Vec<SeenAccessPoint>)
    ensures
        list.deep_view() == Seq::<crate::dispatcher::rules::SeenAccessPointView>::empty(),
{
    let list: Vec<SeenAccessPoint> = Vec::new();
    assert(list.deep_view() =~= Seq::<crate::dispatcher::rules::SeenAccessPointView>::empty());
    list
}

/// Puts an access point at the end of a list.
pub fn push_seen(list: &mut Vec<SeenAccessPoint>, access_point: SeenAccessPoint)
    ensures
        final(list).deep_view() == old(list).deep_view().push(access_point@),
{
    list.push(access_point);
    assert(list.deep_view() =~= old(list).deep_view().push(access_point@));
}

} // verus!
