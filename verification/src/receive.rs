//! The receiving side of the peer messaging loop: what the peers send is
//! decoded as text for the log.
//!
//! Nothing here touches a socket. The caller drains the socket, hands over
//! what it found, and writes out the log that comes back.

use crate::peer::{Peer, PeerId, PeerState};
use vstd::prelude::*;
use vstd::utf8::{decode_utf8, encode_utf8, encode_utf8_decode_utf8, valid_utf8};

verus! {

/// Bytes that came from a peer.
#[derive(Debug, PartialEq, Eq)]
pub struct Inbound {
    pub from: PeerId,
    pub payload: Vec<u8>,
}

impl View for Inbound {
    type V = (PeerId, Seq<u8>);

    open spec fn view(&self) -> (PeerId, Seq<u8>) {
        (self.from, self.payload@)
    }
}

/// What the receiving side has to report.
#[derive(Debug, PartialEq, Eq)]
pub enum LogEntry {
    /// A peer entered a state.
    PeerChanged { peer: PeerId, state: PeerState },
    /// A peer sent this text.
    Message { from: PeerId, text: String },
    /// A peer sent bytes that are no UTF-8 text. The bytes are dropped.
    DecodeError { from: PeerId },
}

/// A [`LogEntry`] as a mathematical value.
pub enum LogLine {
    PeerChanged { peer: PeerId, state: PeerState },
    Message { from: PeerId, text: Seq<char> },
    DecodeError { from: PeerId },
}

impl View for LogEntry {
    type V = LogLine;

    open spec fn view(&self) -> LogLine {
        match self {
            LogEntry::PeerChanged { peer, state } => LogLine::PeerChanged {
                peer: *peer,
                state: *state,
            },
            LogEntry::Message { from, text } => LogLine::Message { from: *from, text: text@ },
            LogEntry::DecodeError { from } => LogLine::DecodeError { from: *from },
        }
    }
}

/// A log as mathematical values.
pub open spec fn log_view(log: Seq<LogEntry>) -> Seq<LogLine> {
    log.map_values(|entry: LogEntry| entry@)
}

/// Received messages as mathematical values.
pub open spec fn inbound_view(messages: Seq<Inbound>) -> Seq<(PeerId, Seq<u8>)> {
    messages.map_values(|message: Inbound| message@)
}

/// What is logged for bytes from a peer: the text they encode, or a decode
/// error if they are not valid UTF-8.
pub open spec fn decoded(from: PeerId, bytes: Seq<u8>) -> LogLine {
    if valid_utf8(bytes) {
        LogLine::Message { from, text: decode_utf8(bytes) }
    } else {
        LogLine::DecodeError { from }
    }
}

/// What is logged for the news that a peer entered a state.
pub open spec fn peer_changed(change: Peer) -> LogLine {
    LogLine::PeerChanged { peer: change.id, state: change.state }
}

/// What one tick of the receiving side logs: first every change of a peer's
/// state, then every message, each in the order in which it came.
pub open spec fn expected_log(changes: Seq<Peer>, messages: Seq<(PeerId, Seq<u8>)>) -> Seq<
    LogLine,
> {
    changes.map_values(|change: Peer| peer_changed(change)) + messages.map_values(
        |message: (PeerId, Seq<u8>)| decoded(message.0, message.1),
    )
}

/// `core::str::from_utf8` with its error dropped. The standard library
/// documents that it succeeds exactly on valid UTF-8 and that the string
/// slice it returns is the given bytes, read as text; that is what is
/// claimed here, and it is not proved.
#[verifier::external_body]
fn utf8_text(bytes: &[u8]) -> (text: Option<&str>)
    ensures
        text is Some <==> valid_utf8(bytes@),
        text matches Some(s) ==> encode_utf8(s@) == bytes@,
{
    match core::str::from_utf8(bytes) {
        Ok(text) => Some(text),
        Err(_) => None,
    }
}

/// Decodes the bytes that a peer sent.
pub fn decode_message(from: PeerId, bytes: &[u8]) -> (entry: LogEntry)
    ensures
        entry@ == decoded(from, bytes@),
{
    match utf8_text(bytes) {
        Some(s) => {
            proof {
                encode_utf8_decode_utf8(s@);
            }
            LogEntry::Message { from, text: s.to_string() }
        },
        None => LogEntry::DecodeError { from },
    }
}

/// One tick of the receiving side: logs the changes of peers' states and
/// the messages that were drained from the socket. A message that cannot be
/// decoded is logged as such and dropped; the messages after it are handled
/// as if it had not come.
pub fn receive(changes: &Vec<Peer>, messages: &Vec<Inbound>) -> (log: Vec<LogEntry>)
    ensures
        log_view(log@) == expected_log(changes@, inbound_view(messages@)),
{
    let mut log: Vec<LogEntry> = Vec::new();
    let mut i: usize = 0;
    while i < changes.len()
        invariant
            i <= changes.len(),
            log_view(log@) == changes@.take(i as int).map_values(|change: Peer| peer_changed(change)),
        decreases changes.len() - i,
    {
        let change = changes[i];
        let ghost before = log@;
        log.push(LogEntry::PeerChanged { peer: change.id, state: change.state });
        assert(log_view(log@) =~= log_view(before).push(peer_changed(change)));
        assert(changes@.take(i + 1) =~= changes@.take(i as int).push(change));
        i += 1;
    }
    assert(changes@.take(i as int) =~= changes@);
    let mut j: usize = 0;
    while j < messages.len()
        invariant
            j <= messages.len(),
            log_view(log@) == expected_log(changes@, inbound_view(messages@).take(j as int)),
        decreases messages.len() - j,
    {
        let ghost before = log@;
        let entry = decode_message(messages[j].from, messages[j].payload.as_slice());
        log.push(entry);
        assert(log_view(log@) =~= log_view(before).push(entry@));
        assert(inbound_view(messages@).take(j + 1) =~= inbound_view(messages@).take(j as int).push(
            messages@[j as int]@,
        ));
        j += 1;
    }
    assert(inbound_view(messages@).take(j as int) =~= inbound_view(messages@));
    log
}

/// Each message is logged for itself. The log holds one line for every
/// change and every message, in order; the line of a message says what its
/// own bytes decode to, and is a decode error exactly if they are not valid
/// UTF-8; and the lines of all the others are what they would be if that
/// message had never come.
pub proof fn law_each_message_for_itself(
    changes: Seq<Peer>,
    messages: Seq<(PeerId, Seq<u8>)>,
    i: int,
)
    requires
        0 <= i < messages.len(),
    ensures
        expected_log(changes, messages).len() == changes.len() + messages.len(),
        expected_log(changes, messages)[changes.len() + i] == decoded(messages[i].0, messages[i].1),
        !valid_utf8(messages[i].1) <==> expected_log(changes, messages)[changes.len() + i]
            == (LogLine::DecodeError { from: messages[i].0 }),
        expected_log(changes, messages.remove(i)) == expected_log(changes, messages).remove(
            changes.len() + i,
        ),
{
    assert(expected_log(changes, messages.remove(i)) =~= expected_log(changes, messages).remove(
        changes.len() + i,
    ));
}

} // verus!
