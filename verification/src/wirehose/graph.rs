//! Rules for reading the session graph into the view: how a node is
//! titled, what a stream is routed to, and which route backs a device
//! endpoint.

use vstd::prelude::*;

use crate::wirehose::object_id::ObjectId;
use crate::wirehose::state::Link;

verus! {

/// The view of an optional text.
pub open spec fn opt_seq(o: Option<&str>) -> Option<Seq<char>> {
    match o {
        Some(s) => Some(s@),
        None => None,
    }
}

/// A node's title: `application: media` for a stream that names both;
/// otherwise its description, else its nick, else its name.
pub open spec fn node_title_v(
    app: Option<Seq<char>>,
    media: Option<Seq<char>>,
    description: Option<Seq<char>>,
    nick: Option<Seq<char>>,
    name: Seq<char>,
) -> Seq<char> {
    if app is Some && media is Some {
        app->0 + ": "@ + media->0
    } else if description is Some {
        description->0
    } else if nick is Some {
        nick->0
    } else {
        name
    }
}

/// The title of a node from its properties.
pub fn node_title(
    app: Option<&str>,
    media: Option<&str>,
    description: Option<&str>,
    nick: Option<&str>,
    name: &str,
) -> (r: String)
    ensures
        r@ == node_title_v(opt_seq(app), opt_seq(media), opt_seq(description), opt_seq(nick), name@),
{
    match (app, media) {
        (Some(a), Some(m)) => {
            let mut t = a.to_string();
            t.append(": ");
            t.append(m);
            t
        },
        _ => match description {
            Some(d) => d.to_string(),
            None => match nick {
                Some(n) => n.to_string(),
                None => name.to_string(),
            },
        },
    }
}

/// The node at the other end of a link, for a playback stream (`playback`)
/// feeding the link or a recording stream (`recording`) fed by it.
pub open spec fn link_peer(l: Link, id: ObjectId, playback: bool, recording: bool) -> Option<ObjectId> {
    if playback && l.output_id == id {
        Some(l.input_id)
    } else if recording && l.input_id == id {
        Some(l.output_id)
    } else {
        None
    }
}

/// `i` is the first link that gives node `id` a peer.
pub open spec fn is_first_peer(links: Seq<Link>, id: ObjectId, playback: bool, recording: bool, i: int) -> bool {
    &&& 0 <= i < links.len()
    &&& link_peer(links[i], id, playback, recording) is Some
    &&& forall|j: int| 0 <= j < i ==> link_peer(links[j], id, playback, recording) is None
}

/// What a stream is routed to: the peer given by the first link that gives
/// it one, if any.
pub open spec fn stream_peer_v(links: Seq<Link>, id: ObjectId, playback: bool, recording: bool) -> Option<ObjectId> {
    if exists|i: int| is_first_peer(links, id, playback, recording, i) {
        link_peer(links[choose|i: int| is_first_peer(links, id, playback, recording, i)], id, playback, recording)
    } else {
        None
    }
}

/// What node `id` is routed to, given whether it is a playback or a
/// recording stream.
pub fn stream_peer(links: &Vec<Link>, id: ObjectId, playback: bool, recording: bool) -> (r: Option<ObjectId>)
    ensures
        r == stream_peer_v(links@, id, playback, recording),
{
    let mut i: usize = 0;
    while i < links.len()
        invariant
            i <= links@.len(),
            forall|j: int| 0 <= j < i ==> link_peer(links@[j], id, playback, recording) is None,
        decreases links@.len() - i,
    {
        let l = links[i];
        let peer = if playback && l.output_id == id {
            Some(l.input_id)
        } else if recording && l.input_id == id {
            Some(l.output_id)
        } else {
            None
        };
        if peer.is_some() {
            assert(is_first_peer(links@, id, playback, recording, i as int));
            proof {
                let k = choose|k: int| is_first_peer(links@, id, playback, recording, k);
                assert(k == i) by {
                    if k < i {
                        assert(link_peer(links@[k], id, playback, recording) is None);
                    } else if k > i {
                        assert(link_peer(links@[i as int], id, playback, recording) is None);
                    }
                }
            }
            return peer;
        }
        i += 1;
    }
    assert(!exists|k: int| is_first_peer(links@, id, playback, recording, k));
    None
}

/// `i` is the first route of a device for route device `device`.
pub open spec fn is_first_route(routes: Seq<(i32, i32)>, device: i32, i: int) -> bool {
    &&& 0 <= i < routes.len()
    &&& routes[i].0 == device
    &&& forall|j: int| 0 <= j < i ==> routes[j].0 != device
}

/// The index of the first route, among `(route device, route index)`
/// pairs, that serves route device `device`.
pub open spec fn route_index_v(routes: Seq<(i32, i32)>, device: i32) -> Option<i32> {
    if exists|i: int| is_first_route(routes, device, i) {
        Some(routes[choose|i: int| is_first_route(routes, device, i)].1)
    } else {
        None
    }
}

/// The index of the device route serving route device `device`.
pub fn route_index(routes: &Vec<(i32, i32)>, device: i32) -> (r: Option<i32>)
    ensures
        r == route_index_v(routes@, device),
{
    let mut i: usize = 0;
    while i < routes.len()
        invariant
            i <= routes@.len(),
            forall|j: int| 0 <= j < i ==> routes@[j].0 != device,
        decreases routes@.len() - i,
    {
        if routes[i].0 == device {
            assert(is_first_route(routes@, device, i as int));
            proof {
                let k = choose|k: int| is_first_route(routes@, device, k);
                assert(k == i) by {
                    if k < i {
                        assert(routes@[k].0 != device);
                    } else if k > i {
                        assert(routes@[i as int].0 != device);
                    }
                }
            }
            return Some(routes[i].1);
        }
        i += 1;
    }
    assert(!exists|k: int| is_first_route(routes@, device, k));
    None
}

} // verus!
