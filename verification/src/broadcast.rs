//! The sending side of the peer messaging loop: every five seconds a fixed
//! text goes to every connected peer.
//!
//! Nothing here touches a socket. The caller hands over a snapshot of the
//! peer registry and carries out the sends that come back.

use crate::peer::{is_connected, Peer, PeerId, PeerState};
use crate::timer::{is_due, BroadcastTimer};
use vstd::prelude::*;
use vstd::utf8::{decode_utf8, encode_utf8, valid_utf8};

verus! {

/// The text that is broadcast.
pub open spec fn message_text() -> Seq<char> {
    "Hello"@
}

/// The bytes that are broadcast: the text "Hello" in UTF-8.
pub open spec fn payload_bytes() -> Seq<u8> {
    seq![0x48u8, 0x65u8, 0x6cu8, 0x6cu8, 0x6fu8]
}

/// The bytes that are broadcast.
pub fn payload() -> (bytes: Vec<u8>)
    ensures
        bytes@ == payload_bytes(),
{
    let bytes = "Hello".as_bytes_vec();
    proof {
        law_payload_is_the_text();
    }
    bytes
}

/// The payload is the UTF-8 encoding of the broadcast text, and decoding it
/// gives the text back.
pub proof fn law_payload_is_the_text()
    ensures
        payload_bytes() == encode_utf8(message_text()),
        valid_utf8(payload_bytes()),
        decode_utf8(payload_bytes()) == message_text(),
{
    broadcast use vstd::utf8::group_utf8_lib;

    reveal_strlit("Hello");
    let text = message_text();
    assert(vstd::utf8::is_ascii_chars(text));
    vstd::utf8::is_ascii_chars_encode_utf8(text);
    assert(encode_utf8(text) =~= payload_bytes());
}

/// One send: these bytes to that peer.
#[derive(Debug, PartialEq, Eq)]
pub struct Outgoing {
    pub to: PeerId,
    pub payload: Vec<u8>,
}

impl View for Outgoing {
    type V = (PeerId, Seq<u8>);

    open spec fn view(&self) -> (PeerId, Seq<u8>) {
        (self.to, self.payload@)
    }
}

/// A list of sends as mathematical values.
pub open spec fn sends_view(sends: Seq<Outgoing>) -> Seq<(PeerId, Seq<u8>)> {
    sends.map_values(|send: Outgoing| send@)
}

/// What one broadcast sends for a snapshot of the peer registry: the payload
/// to each connected peer, in the order of the snapshot.
pub open spec fn planned_sends(peers: Seq<Peer>) -> Seq<(PeerId, Seq<u8>)> {
    peers.filter(|peer: Peer| is_connected(peer)).map_values(
        |peer: Peer| (peer.id, payload_bytes()),
    )
}

/// Taking one more row of the snapshot adds the send for that row if its
/// peer is connected, and nothing otherwise.
proof fn lemma_planned_sends_next(peers: Seq<Peer>, i: int)
    requires
        0 <= i < peers.len(),
    ensures
        planned_sends(peers.take(i + 1)) == if is_connected(peers[i]) {
            planned_sends(peers.take(i)).push((peers[i].id, payload_bytes()))
        } else {
            planned_sends(peers.take(i))
        },
{
    reveal(Seq::filter);
    let connected = |peer: Peer| is_connected(peer);
    let longer = peers.take(i + 1);
    assert(longer.drop_last() =~= peers.take(i));
    assert(longer.last() == peers[i]);
    if is_connected(peers[i]) {
        assert(longer.filter(connected) == peers.take(i).filter(connected).push(peers[i]));
        assert(planned_sends(longer) =~= planned_sends(peers.take(i)).push(
            (peers[i].id, payload_bytes()),
        ));
    } else {
        assert(longer.filter(connected) == peers.take(i).filter(connected));
    }
}

/// Plans one broadcast over a snapshot of the peer registry.
pub fn broadcast(peers: &Vec<Peer>) -> (sends: Vec<Outgoing>)
    ensures
        sends_view(sends@) == planned_sends(peers@),
{
    let mut sends: Vec<Outgoing> = Vec::new();
    let mut i: usize = 0;
    proof {
        reveal(Seq::filter);
        assert(peers@.take(0) =~= Seq::<Peer>::empty());
        assert(sends_view(sends@) =~= planned_sends(peers@.take(0)));
    }
    while i < peers.len()
        invariant
            i <= peers.len(),
            sends_view(sends@) == planned_sends(peers@.take(i as int)),
        decreases peers.len() - i,
    {
        let peer = peers[i];
        proof {
            lemma_planned_sends_next(peers@, i as int);
        }
        if peer.state == PeerState::Connected {
            let ghost before = sends@;
            let send = Outgoing { to: peer.id, payload: payload() };
            sends.push(send);
            assert(sends_view(sends@) =~= sends_view(before).push((peer.id, payload_bytes())));
        }
        i += 1;
    }
    assert(peers@.take(i as int) =~= peers@);
    sends
}

/// One tick of the sending side: asks the timer at the clock reading
/// `now_ms`, and plans a broadcast over the snapshot if one is due.
pub fn broadcast_tick(timer: &mut BroadcastTimer, now_ms: u64, peers: &Vec<Peer>) -> (sends: Vec<
    Outgoing,
>)
    ensures
        *final(timer) == old(timer).polled(now_ms),
        sends_view(sends@) == if is_due(old(timer).last_fire_ms as int, now_ms as int) {
            planned_sends(peers@)
        } else {
            Seq::empty()
        },
{
    if timer.poll(now_ms) {
        broadcast(peers)
    } else {
        let sends: Vec<Outgoing> = Vec::new();
        assert(sends_view(sends@) =~= Seq::empty());
        sends
    }
}

/// Whether the snapshot holds a row that marks the peer `id` as connected.
pub open spec fn has_connected(peers: Seq<Peer>, id: PeerId) -> bool {
    exists|i: int| 0 <= i < peers.len() && is_connected(#[trigger] peers[i]) && peers[i].id == id
}

/// A broadcast sends the payload and nothing else, only to peers that the
/// snapshot marks as connected, and to every one of those.
pub proof fn law_broadcast_reaches_the_connected(peers: Seq<Peer>)
    ensures
        planned_sends(peers).len() == peers.filter(|peer: Peer| is_connected(peer)).len(),
        planned_sends(peers).len() <= peers.len(),
        forall|j: int|
            0 <= j < planned_sends(peers).len() ==> (#[trigger] planned_sends(peers)[j]).1
                == payload_bytes(),
        forall|j: int|
            0 <= j < planned_sends(peers).len() ==> has_connected(
                peers,
                (#[trigger] planned_sends(peers)[j]).0,
            ),
        forall|i: int|
            0 <= i < peers.len() && is_connected(#[trigger] peers[i]) ==> planned_sends(
                peers,
            ).contains((peers[i].id, payload_bytes())),
{
    let connected = |peer: Peer| is_connected(peer);
    let kept = peers.filter(connected);
    let planned = planned_sends(peers);
    peers.lemma_filter_len(connected);
    assert forall|j: int| 0 <= j < planned.len() implies has_connected(
        peers,
        (#[trigger] planned[j]).0,
    ) by {
        peers.lemma_filter_pred(connected, j);
        assert(kept.contains(kept[j]));
        peers.lemma_filter_contains_rev(connected, kept[j]);
        let i = choose|i: int| 0 <= i < peers.len() && peers[i] == kept[j];
        assert(is_connected(peers[i]) && peers[i].id == planned[j].0);
    }
    assert forall|i: int| 0 <= i < peers.len() && is_connected(#[trigger] peers[i]) implies planned.contains(
        (peers[i].id, payload_bytes()),
    ) by {
        peers.lemma_filter_contains(connected, i);
        let k = choose|k: int| 0 <= k < kept.len() && kept[k] == peers[i];
        assert(planned[k] == (peers[i].id, payload_bytes()));
    }
}

} // verus!
