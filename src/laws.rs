//! Properties that relate several operations of the relay.
use vstd::prelude::*;

use crate::requests::{
    CancelRecipientReadyPayload, CancelSenderReadyPayload, FileMetaPayload, RecipientReadyPayload,
    RelayIncomingPayload,
};
use crate::routing::{
    close_disconnect_reason, completion_marker, metadata_after, pairs_after, resolve,
};
use crate::session::{
    exit_reason, has_sender, heartbeat_decision, notifies_recipient, pairs_without,
    HeartbeatAction, TaskExit, CLIENT_TIMEOUT_NANOS,
};
use crate::text::{contains_seq, lower_of, truncate_utf8, utf8_len};
use crate::types::{DisconnectReason, FileMetadata};

verus! {

/// A pairing comes into being only between two connected peers: any
/// pairing that an event adds or changes has a connected sender, and a
/// connected recipient when the recipient that the event names is connected.
pub proof fn lemma_new_pairing_joins_connected_peers<H>(
    peers: Map<Seq<char>, H>,
    pairs: Map<Seq<char>, Seq<char>>,
    me: Seq<char>,
    ev: RelayIncomingPayload,
)
    requires
        match ev {
            RelayIncomingPayload::RecipientReady(p) => peers.contains_key(resolve(p.recipient_id, me)),
            _ => true,
        },
    ensures
        forall|s: Seq<char>| #[trigger]
            pairs_after(peers, pairs, me, ev).contains_key(s) && !(pairs.contains_key(s)
                && pairs[s] == pairs_after(peers, pairs, me, ev)[s]) ==> peers.contains_key(s)
                && peers.contains_key(pairs_after(peers, pairs, me, ev)[s]),
{
}

/// A peer that has left leaves nothing behind: no pairing starts or ends at
/// it, and its file metadata is gone.
pub proof fn lemma_departed_peer_leaves_no_trace(
    pairs: Map<Seq<char>, Seq<char>>,
    meta: Map<Seq<char>, FileMetadata>,
    peer: Seq<char>,
)
    ensures
        !pairs_without(pairs, peer).contains_key(peer),
        !has_sender(pairs_without(pairs, peer), peer),
        !meta.remove(peer).contains_key(peer),
{
}

/// `recipientReady` followed by a `cancelRecipientReady` that names the
/// same recipient leaves no pairing for the sender and the table as it was,
/// when the sender was not paired before.
pub proof fn lemma_ready_then_cancel_ready_unpairs<H>(
    peers: Map<Seq<char>, H>,
    pairs: Map<Seq<char>, Seq<char>>,
    recipient_conn: Seq<char>,
    canceller_conn: Seq<char>,
    sender: String,
    ready_recipient: Option<String>,
    cancel_recipient: Option<String>,
)
    requires
        !pairs.contains_key(sender@),
        resolve(ready_recipient, recipient_conn) == resolve(cancel_recipient, canceller_conn),
    ensures
        ({
            let ready = RelayIncomingPayload::RecipientReady(
                RecipientReadyPayload { sender_id: sender, recipient_id: ready_recipient },
            );
            let cancel = RelayIncomingPayload::CancelRecipientReady(
                CancelRecipientReadyPayload { sender_id: sender, recipient_id: cancel_recipient },
            );
            let after = pairs_after(
                peers,
                pairs_after(peers, pairs, recipient_conn, ready),
                canceller_conn,
                cancel,
            );
            !after.contains_key(sender@) && after == pairs
        }),
{
    let ready = RelayIncomingPayload::RecipientReady(
        RecipientReadyPayload { sender_id: sender, recipient_id: ready_recipient },
    );
    let mid = pairs_after(peers, pairs, recipient_conn, ready);
    if peers.contains_key(sender@) {
        assert(mid.remove(sender@) =~= pairs);
    }
}

/// `recipientReady` followed by `cancelSenderReady` from the sender leaves
/// no pairing for the sender, when the recipient it is paired with is
/// still connected.
pub proof fn lemma_ready_then_cancel_sender_unpairs<H>(
    peers: Map<Seq<char>, H>,
    pairs: Map<Seq<char>, Seq<char>>,
    recipient_conn: Seq<char>,
    sender_conn: Seq<char>,
    sender: String,
    ready_recipient: Option<String>,
    cancel_sender: Option<String>,
)
    requires
        resolve(cancel_sender, sender_conn) == sender@,
        pairs.contains_key(sender@) ==> peers.contains_key(pairs[sender@]),
        !pairs.contains_key(sender@) ==> peers.contains_key(
            resolve(ready_recipient, recipient_conn),
        ),
    ensures
        ({
            let ready = RelayIncomingPayload::RecipientReady(
                RecipientReadyPayload { sender_id: sender, recipient_id: ready_recipient },
            );
            let cancel = RelayIncomingPayload::CancelSenderReady(
                CancelSenderReadyPayload { sender_id: cancel_sender },
            );
            !pairs_after(
                peers,
                pairs_after(peers, pairs, recipient_conn, ready),
                sender_conn,
                cancel,
            ).contains_key(sender@)
        }),
{
}

/// Announcing file metadata twice for the same sender keeps the second
/// announcement: the last write wins.
pub proof fn lemma_file_meta_last_write_wins(
    meta: Map<Seq<char>, FileMetadata>,
    first_conn: Seq<char>,
    second_conn: Seq<char>,
    first: FileMetaPayload,
    second: FileMetaPayload,
)
    requires
        resolve(first.sender_id, first_conn) == resolve(second.sender_id, second_conn),
    ensures
        ({
            let sender = resolve(second.sender_id, second_conn);
            let after = metadata_after(
                metadata_after(meta, first_conn, RelayIncomingPayload::FileMeta(first)),
                second_conn,
                RelayIncomingPayload::FileMeta(second),
            );
            &&& after.contains_key(sender)
            &&& after[sender] == FileMetadata {
                name: second.name,
                size: second.size,
                mime_type: second.mime_type,
            }
            &&& after == metadata_after(meta, second_conn, RelayIncomingPayload::FileMeta(second))
        }),
{
    let sender = resolve(second.sender_id, second_conn);
    let m = FileMetadata { name: second.name, size: second.size, mime_type: second.mime_type };
    let f = FileMetadata { name: first.name, size: first.size, mime_type: first.mime_type };
    assert(meta.insert(sender, f).insert(sender, m) =~= meta.insert(sender, m));
}

/// Cutting a text to a byte budget leaves a prefix of it that fits the
/// budget, and leaves a text that already fits unchanged.
pub proof fn lemma_truncation_fits(s: Seq<char>, max: nat)
    ensures
        utf8_len(truncate_utf8(s, max)) <= max,
        truncate_utf8(s, max).len() <= s.len(),
        truncate_utf8(s, max) == s.subrange(0, truncate_utf8(s, max).len() as int),
        utf8_len(s) <= max ==> truncate_utf8(s, max) == s,
    decreases s.len(),
{
    if s.len() == 0 {
        assert(s.subrange(0, 0) =~= s);
        assert(vstd::utf8::encode_utf8(s) =~= Seq::<u8>::empty());
    } else if utf8_len(s) <= max {
        assert(s.subrange(0, s.len() as int) =~= s);
    } else {
        lemma_truncation_fits(s.drop_last(), max);
        let t = truncate_utf8(s.drop_last(), max);
        assert(s.drop_last().subrange(0, t.len() as int) =~= s.subrange(0, t.len() as int));
    }
}

/// A peer silent for longer than the client timeout is given up, the
/// connection ends for a reason other than a completed transfer, and a
/// connected recipient paired with it is told.
pub proof fn lemma_silent_peer_is_reported<H>(
    peers: Map<Seq<char>, H>,
    pairs: Map<Seq<char>, Seq<char>>,
    peer: Seq<char>,
    elapsed: u128,
)
    requires
        elapsed > CLIENT_TIMEOUT_NANOS,
    ensures
        heartbeat_decision(elapsed) == HeartbeatAction::GiveUp,
        exit_reason(TaskExit::Heartbeat) == DisconnectReason::Other,
        pairs.contains_key(peer) && peers.contains_key(pairs[peer]) ==> notifies_recipient(
            peers,
            pairs,
            peer,
            exit_reason(TaskExit::Heartbeat),
        ),
{
}

/// A close whose reason mentions a completed transfer, in any case, ends
/// the connection as a completed transfer, and then no counterparty is
/// told.
pub proof fn lemma_completed_transfer_is_not_reported<H>(
    peers: Map<Seq<char>, H>,
    pairs: Map<Seq<char>, Seq<char>>,
    peer: Seq<char>,
    reason: String,
)
    requires
        contains_seq(lower_of(reason@), completion_marker()),
    ensures
        close_disconnect_reason(Some(reason)) == DisconnectReason::TransferCompleted,
        exit_reason(TaskExit::Reader(Some(close_disconnect_reason(Some(reason)))))
            == DisconnectReason::TransferCompleted,
        !notifies_recipient(peers, pairs, peer, close_disconnect_reason(Some(reason))),
{
}

} // verus!
