//! A connection's life around the reader: its first frame, the heartbeat,
//! how the connection ends, the notice to the counterparty and the cleanup.
use vstd::prelude::*;

use crate::error::AppError;
use crate::registry::Registry;
use crate::responses::{OutboundFrame, PeerDisconnectedResponseDto, RegisterResponseDto, RelayResponse};
use crate::routing::{pairing_view, Delivery, Destination};
use crate::types::{DisconnectReason, FileMetadata};

verus! {

/// Time between two heartbeat ticks, in seconds.
pub const PING_INTERVAL_SECS: u64 = 5;

/// Silence after which a peer is given up, in nanoseconds (30 s).
pub const CLIENT_TIMEOUT_NANOS: u128 = 30_000_000_000;

/// Capacity of each connection's outbound queue.
pub const OUTBOUND_QUEUE_CAPACITY: usize = 100;

/// The first frame of every connection: `register` with the peer's own id,
/// for its own queue.
pub fn first_frame(peer_id: &str) -> (r: Delivery)
    ensures
        r.to == Destination::Origin,
        match r.frame {
            OutboundFrame::Text(RelayResponse::Register(d)) => d.success && d.msg_type@
                == "register"@ && d.conn_id@ == peer_id@,
            _ => false,
        },
{
    Delivery {
        to: Destination::Origin,
        frame: OutboundFrame::Text(RelayResponse::Register(RegisterResponseDto::new(peer_id))),
    }
}

/// What the heartbeat does on a tick.
#[derive(Debug, Clone, Copy, PartialEq, Eq, Structural)]
pub enum HeartbeatAction {
    /// Send a ping; `late` when over half the timeout has passed without a pong.
    Ping { late: bool },
    /// The peer has been silent too long: end the connection.
    GiveUp,
}

/// The heartbeat's decision after `elapsed` nanoseconds without a pong.
pub open spec fn heartbeat_decision(elapsed: u128) -> HeartbeatAction {
    if elapsed > CLIENT_TIMEOUT_NANOS {
        HeartbeatAction::GiveUp
    } else {
        HeartbeatAction::Ping { late: elapsed > CLIENT_TIMEOUT_NANOS / 2 }
    }
}

/// Decides a heartbeat tick from the time since the last pong.
pub fn heartbeat_tick(elapsed_nanos: u128) -> (r: HeartbeatAction)
    ensures
        r == heartbeat_decision(elapsed_nanos),
{
    if elapsed_nanos > CLIENT_TIMEOUT_NANOS {
        HeartbeatAction::GiveUp
    } else {
        HeartbeatAction::Ping { late: elapsed_nanos > CLIENT_TIMEOUT_NANOS / 2 }
    }
}

/// Which of a connection's three tasks ended first.
#[derive(Debug, Clone, Copy, PartialEq, Eq)]
pub enum TaskExit {
    Heartbeat,
    Writer,
    /// The reader, with the reason it returned; `None` when it was cancelled or panicked.
    Reader(Option<DisconnectReason>),
}

/// Why a connection ends, given which task ended first.
pub open spec fn exit_reason(first: TaskExit) -> DisconnectReason {
    match first {
        TaskExit::Reader(Some(r)) => r,
        _ => DisconnectReason::Other,
    }
}

/// Why the connection ends: the reader's reason when it ended first,
/// else any other reason.
pub fn disconnect_reason_of(first: TaskExit) -> (r: DisconnectReason)
    ensures
        r == exit_reason(first),
{
    match first {
        TaskExit::Reader(Some(r)) => r,
        _ => DisconnectReason::Other,
    }
}

/// `d` tells `to` that `peer` left while acting in `role`.
pub open spec fn is_peer_notice(d: Delivery, to: Seq<char>, peer: Seq<char>, role: Seq<char>) -> bool {
    match d.to {
        Destination::Peer(p) => p@ == to && match d.frame {
            OutboundFrame::Text(RelayResponse::PeerDisconnected(n)) => n.success && n.msg_type@
                == "peerDisconnected"@ && n.peer_id@ == peer && n.role@ == role,
            _ => false,
        },
        Destination::Origin => false,
    }
}

/// The leaving peer was a sender whose recipient is still connected and
/// is told so.
pub open spec fn notifies_recipient<H>(
    peers: Map<Seq<char>, H>,
    pairs: Map<Seq<char>, Seq<char>>,
    peer: Seq<char>,
    reason: DisconnectReason,
) -> bool {
    reason == DisconnectReason::Other && pairs.contains_key(peer) && peers.contains_key(pairs[peer])
}

/// Some sender is paired with `peer` as its recipient.
pub open spec fn has_sender(pairs: Map<Seq<char>, Seq<char>>, peer: Seq<char>) -> bool {
    exists|s: Seq<char>| #[trigger] pairs.contains_key(s) && pairs[s] == peer
}

fn peer_notice(to: String, peer_id: &str, role: &str) -> (r: Delivery)
    ensures
        is_peer_notice(r, to@, peer_id@, role@),
{
    Delivery {
        to: Destination::Peer(to),
        frame: OutboundFrame::Text(
            RelayResponse::PeerDisconnected(PeerDisconnectedResponseDto::new(peer_id, role)),
        ),
    }
}

/// Tells the counterparties of a leaving peer that it left, unless it left
/// after a completed transfer. When it was a sender, its recipient is told;
/// when it was a recipient, one sender paired with it is unpaired and told.
pub fn notify_peers_on_disconnect<H>(
    peers: &Registry<H>,
    pairs: &mut Registry<String>,
    peer_id: &str,
    reason: DisconnectReason,
) -> (r: Vec<Delivery>)
    requires
        peers.wf(),
        old(pairs).wf(),
    ensures
        final(pairs).wf(),
        reason == DisconnectReason::TransferCompleted ==> r@.len() == 0 && final(pairs)@ == old(
            pairs,
        )@,
        reason == DisconnectReason::Other && !has_sender(pairing_view(*old(pairs)), peer_id@)
            ==> final(pairs)@ == old(pairs)@ && r@.len() == (if notifies_recipient(
            peers@,
            pairing_view(*old(pairs)),
            peer_id@,
            reason,
        ) {
            1int
        } else {
            0int
        }),
        reason == DisconnectReason::Other && has_sender(pairing_view(*old(pairs)), peer_id@)
            ==> exists|s: Seq<char>|
            #![trigger old(pairs)@.contains_key(s)]
            {
                let before = pairing_view(*old(pairs));
                let n = if notifies_recipient(peers@, before, peer_id@, reason) {
                    1int
                } else {
                    0int
                };
                &&& old(pairs)@.contains_key(s)
                &&& before[s] == peer_id@
                &&& final(pairs)@ == old(pairs)@.remove(s)
                &&& r@.len() == n + if peers@.contains_key(s) {
                    1int
                } else {
                    0int
                }
                &&& peers@.contains_key(s) ==> is_peer_notice(r@[n], s, peer_id@, "recipient"@)
            },
        notifies_recipient(peers@, pairing_view(*old(pairs)), peer_id@, reason) ==> is_peer_notice(
            r@[0],
            pairing_view(*old(pairs))[peer_id@],
            peer_id@,
            "sender"@,
        ),
{
    let mut out: Vec<Delivery> = Vec::new();
    if reason == DisconnectReason::TransferCompleted {
        return out;
    }
    match pairs.get(peer_id) {
        Some(recipient) => {
            if peers.contains_key(recipient.as_str()) {
                out.push(peer_notice(recipient.clone(), peer_id, "sender"));
            }
        },
        None => {},
    }
    match pairs.key_of_value(peer_id) {
        Some(sender) => {
            assert(has_sender(pairing_view(*old(pairs)), peer_id@)) by {
                assert(pairing_view(*old(pairs)).contains_key(sender@));
            }
            pairs.remove(sender.as_str());
            if peers.contains_key(sender.as_str()) {
                out.push(peer_notice(sender, peer_id, "recipient"));
            }
        },
        None => {
            assert(!has_sender(pairing_view(*old(pairs)), peer_id@));
        },
    }
    out
}

/// Forgets a peer that has left: its file metadata, its connection, the
/// pairing keyed by it and every pairing that names it as recipient.
pub fn cleanup_peer_state<H>(
    peers: &mut Registry<H>,
    pairs: &mut Registry<String>,
    meta: &mut Registry<FileMetadata>,
    peer_id: &str,
)
    requires
        old(peers).wf(),
        old(pairs).wf(),
        old(meta).wf(),
    ensures
        final(peers).wf(),
        final(pairs).wf(),
        final(meta).wf(),
        final(peers)@ == old(peers)@.remove(peer_id@),
        final(meta)@ == old(meta)@.remove(peer_id@),
        pairing_view(*final(pairs)) == pairs_without(pairing_view(*old(pairs)), peer_id@),
{
    meta.remove(peer_id);
    peers.remove(peer_id);
    let ghost before = pairing_view(*pairs);
    pairs.remove(peer_id);
    pairs.remove_by_value(peer_id);
    assert(pairing_view(*pairs) =~= pairs_without(before, peer_id@));
}

/// The pairings that neither start nor end at `peer`.
pub open spec fn pairs_without(pairs: Map<Seq<char>, Seq<char>>, peer: Seq<char>) -> Map<
    Seq<char>,
    Seq<char>,
> {
    pairs.restrict(pairs.dom().filter(|k: Seq<char>| k != peer && pairs[k] != peer))
}

/// The file metadata last announced for `sender_id`, or a 404 error.
pub fn handle_get_file_metadata(meta: &Registry<FileMetadata>, sender_id: &str) -> (r: Result<
    FileMetadata,
    AppError,
>)
    requires
        meta.wf(),
    ensures
        match r {
            Ok(m) => meta@.contains_key(sender_id@) && m == meta@[sender_id@],
            Err(e) => !meta@.contains_key(sender_id@) && !e.success && e.errors.code == 404
                && e.errors.message@ == "File metadata not found"@,
        },
{
    match meta.get(sender_id) {
        Some(m) => Ok(m.copied()),
        None => Err(
            AppError::default().with_code(404).with_message("File metadata not found".to_owned()),
        ),
    }
}

} // verus!
