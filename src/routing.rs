//! The reader's routing state machine: what each inbound frame does to the
//! pairing and metadata tables, and which frame goes to which queue.
use vstd::prelude::*;

use crate::error::{ErrorCode, ErrorMessage};
use crate::registry::Registry;
use crate::requests::RelayIncomingPayload;
use crate::responses::{
    CancelRecipientReadyResponseDto, CancelRecipientTransferResponseDto,
    CancelSenderReadyResponseDto, CancelSenderTransferResponseDto, CloseFrame,
    FileChunkResponseDto, FileEndResponseDto, FileTransferAckResponseDto, OutboundFrame,
    RecipientReadyResponseDto, RelayResponse, RestartTransferResponseDto, SenderAckResponseDto,
};
use crate::text::{concat3, contains_seq, contains_str, lower_of, lowercase, truncate_to_bytes, truncate_utf8};
use crate::types::{DisconnectReason, FileMetadata};

verus! {

/// Largest close-frame reason, in bytes, that a WebSocket close frame carries.
pub const MAX_CLOSE_REASON_BYTES: usize = 123;

/// Status code of a normal close.
pub const NORMAL_CLOSE_CODE: u16 = 1000;

/// Which outbound queue a frame goes to.
#[derive(Debug, Clone, PartialEq, Eq)]
pub enum Destination {
    /// The queue of the connection that read the frame.
    Origin,
    /// The queue of the named peer.
    Peer(String),
}

/// A frame bound for a queue.
#[derive(Debug, Clone, PartialEq, Eq)]
pub struct Delivery {
    pub to: Destination,
    pub frame: OutboundFrame,
}

/// What the reader does after one inbound frame.
#[derive(Debug, Clone, PartialEq, Eq)]
pub enum ReadStep {
    /// Nothing to send; read the next frame.
    Continue,
    /// Enqueue one frame, then read the next frame.
    Deliver(Delivery),
    /// A pong arrived: refresh the heartbeat.
    RecordPong,
    /// Stop reading; the connection is torn down.
    Stop,
    /// The peer closed the socket.
    Finish(DisconnectReason),
}

/// An inbound WebSocket frame as the reader sees it.
#[derive(Debug, Clone)]
pub enum InboundFrame {
    /// A text frame that parsed as a protocol event.
    Text(RelayIncomingPayload),
    /// A text frame that did not parse; the parser's message.
    Malformed(String),
    Binary(Vec<u8>),
    Pong,
    /// A close frame, with its reason text when it carried one.
    Close(Option<String>),
    /// Any other kind of frame.
    Unsupported,
}

/// Pairings as a map from sender id to recipient id.
pub open spec fn pairing_view(t: Registry<String>) -> Map<Seq<char>, Seq<char>> {
    t@.map_values(|v: String| v@)
}

/// An id given in a payload, or the connection's own id when absent.
pub open spec fn resolve(id: Option<String>, me: Seq<char>) -> Seq<char> {
    match id {
        Some(s) => s@,
        None => me,
    }
}

/// The step replies to the originator with an error of kind `code`.
pub open spec fn is_error_reply(step: ReadStep, code: ErrorCode) -> bool {
    match step {
        ReadStep::Deliver(d) => match d.frame {
            OutboundFrame::Text(RelayResponse::Error(e)) => d.to == Destination::Origin
                && e.code == code && !e.success,
            _ => false,
        },
        _ => false,
    }
}

/// The step sends to `peer` a text frame that satisfies `fits`.
pub open spec fn sends_to(step: ReadStep, peer: Seq<char>, fits: spec_fn(RelayResponse) -> bool) -> bool {
    match step {
        ReadStep::Deliver(d) => match d.to {
            Destination::Peer(p) => match d.frame {
                OutboundFrame::Text(m) => p@ == peer && fits(m),
                _ => false,
            },
            Destination::Origin => false,
        },
        _ => false,
    }
}

/// An event routed to the recipient paired with sender `s`: an error when
/// there is no pairing or the recipient is gone, else a frame to it.
pub open spec fn to_paired_recipient<H>(
    peers: Map<Seq<char>, H>,
    pairs: Map<Seq<char>, Seq<char>>,
    s: Seq<char>,
    step: ReadStep,
    fits: spec_fn(RelayResponse) -> bool,
) -> bool {
    if !pairs.contains_key(s) {
        is_error_reply(step, ErrorCode::ActiveConnectionNotFound)
    } else if !peers.contains_key(pairs[s]) {
        is_error_reply(step, ErrorCode::RecipientDisconnected)
    } else {
        sends_to(step, pairs[s], fits)
    }
}

/// An event from recipient `r` routed to sender `s`, which must be paired
/// with `r`: the checks of `cancelRecipientReady` and
/// `cancelRecipientTransfer`.
pub open spec fn to_matching_sender<H>(
    peers: Map<Seq<char>, H>,
    pairs: Map<Seq<char>, Seq<char>>,
    s: Seq<char>,
    r: Seq<char>,
    step: ReadStep,
    fits: spec_fn(RelayResponse) -> bool,
) -> bool {
    if !pairs.contains_key(s) {
        is_error_reply(step, ErrorCode::ActiveConnectionNotFound)
    } else if pairs[s] != r {
        is_error_reply(step, ErrorCode::RecipientMismatch)
    } else if !peers.contains_key(s) {
        is_error_reply(step, ErrorCode::SenderDisconnected)
    } else {
        sends_to(step, s, fits)
    }
}

/// The reason text of a user's close request, before truncation.
pub open spec fn user_close_text(user: Seq<char>, role: Seq<char>, reason: Seq<char>) -> Seq<char> {
    "User `"@ + user + "` with role `"@ + role + "`. "@ + reason
}

/// The reason given by a `userClose` payload, or the default one.
pub open spec fn user_close_reason(reason: Option<String>) -> Seq<char> {
    match reason {
        Some(r) => r@,
        None => "Closed with no reason."@,
    }
}

/// Whether a pairing table changes under an event from `me`, and how.
pub open spec fn pairs_after<H>(
    peers: Map<Seq<char>, H>,
    pairs: Map<Seq<char>, Seq<char>>,
    me: Seq<char>,
    ev: RelayIncomingPayload,
) -> Map<Seq<char>, Seq<char>> {
    match ev {
        RelayIncomingPayload::RecipientReady(p) => {
            let s = p.sender_id@;
            if !pairs.contains_key(s) && peers.contains_key(s) {
                pairs.insert(s, resolve(p.recipient_id, me))
            } else {
                pairs
            }
        },
        RelayIncomingPayload::CancelRecipientReady(p) => {
            let s = p.sender_id@;
            if pairs.contains_key(s) && pairs[s] == resolve(p.recipient_id, me)
                && peers.contains_key(s) {
                pairs.remove(s)
            } else {
                pairs
            }
        },
        RelayIncomingPayload::CancelSenderReady(p) => {
            let s = resolve(p.sender_id, me);
            if pairs.contains_key(s) && peers.contains_key(pairs[s]) {
                pairs.remove(s)
            } else {
                pairs
            }
        },
        _ => pairs,
    }
}

/// The metadata table after an event from `me`.
pub open spec fn metadata_after(
    meta: Map<Seq<char>, FileMetadata>,
    me: Seq<char>,
    ev: RelayIncomingPayload,
) -> Map<Seq<char>, FileMetadata> {
    match ev {
        RelayIncomingPayload::FileMeta(p) => meta.insert(
            resolve(p.sender_id, me),
            FileMetadata { name: p.name, size: p.size, mime_type: p.mime_type },
        ),
        _ => meta,
    }
}

/// The step that an event from `me` produces, given the tables before it.
pub open spec fn text_step<H>(
    peers: Map<Seq<char>, H>,
    pairs: Map<Seq<char>, Seq<char>>,
    me: Seq<char>,
    ev: RelayIncomingPayload,
    step: ReadStep,
) -> bool {
    match ev {
        RelayIncomingPayload::FileMeta(_) => step == ReadStep::Continue,
        RelayIncomingPayload::RecipientReady(p) => {
            let s = p.sender_id@;
            let r = resolve(p.recipient_id, me);
            if pairs.contains_key(s) {
                is_error_reply(step, ErrorCode::SenderAlreadyConnected)
            } else if !peers.contains_key(s) {
                is_error_reply(step, ErrorCode::SenderDisconnected)
            } else {
                sends_to(
                    step,
                    s,
                    |m: RelayResponse|
                        match m {
                            RelayResponse::RecipientReady(d) => d.success && d.msg_type@
                                == "recipientReady"@ && d.recipient_id@ == r && d.sender_id@ == s,
                            _ => false,
                        },
                )
            }
        },
        RelayIncomingPayload::CancelRecipientReady(p) => {
            let s = p.sender_id@;
            let r = resolve(p.recipient_id, me);
            to_matching_sender(
                peers,
                pairs,
                s,
                r,
                step,
                |m: RelayResponse|
                    match m {
                        RelayResponse::CancelRecipientReady(d) => d.success && d.msg_type@
                            == "cancelRecipientReady"@ && d.recipient_id@ == r && d.sender_id@
                            == s,
                        _ => false,
                    },
            )
        },
        RelayIncomingPayload::CancelSenderReady(p) => {
            let s = resolve(p.sender_id, me);
            to_paired_recipient(
                peers,
                pairs,
                s,
                step,
                |m: RelayResponse|
                    match m {
                        RelayResponse::CancelSenderReady(d) => d.success && d.msg_type@
                            == "cancelSenderReady"@ && d.sender_id@ == s && d.recipient_id@
                            == pairs[s],
                        _ => false,
                    },
            )
        },
        RelayIncomingPayload::FileChunk(p) => {
            let s = resolve(p.sender_id, me);
            to_paired_recipient(
                peers,
                pairs,
                s,
                step,
                |m: RelayResponse|
                    match m {
                        RelayResponse::FileChunk(d) => d.success && d.msg_type@ == "fileChunk"@
                            && d.sender_id@ == s && d.recipient_id@ == pairs[s] && d.file_name@
                            == p.file_name@ && d.total_size == p.total_size && d.total_chunks
                            == p.total_chunks && d.uploaded_size == p.uploaded_size
                            && d.chunk_index == p.chunk_index && d.chunk_data_size
                            == p.chunk_data_size && d.sender_transfer_progress
                            == p.sender_transfer_progress,
                        _ => false,
                    },
            )
        },
        RelayIncomingPayload::FileTransferAck(p) => {
            let s = p.sender_id@;
            let r = resolve(p.recipient_id, me);
            if !peers.contains_key(s) {
                is_error_reply(step, ErrorCode::SenderDisconnected)
            } else {
                sends_to(
                    step,
                    s,
                    |m: RelayResponse|
                        match m {
                            RelayResponse::FileTransferAck(d) => d.success && d.msg_type@
                                == "fileTransferAck"@ && d.recipient_id@ == r && d.sender_id@ == s
                                && d.status@ == p.status@ && d.file_name@ == p.file_name@
                                && d.total_chunks == p.total_chunks && d.uploaded_size
                                == p.uploaded_size && d.chunk_index == p.chunk_index
                                && d.chunk_data_size == p.chunk_data_size
                                && d.recipient_transfer_progress == p.recipient_transfer_progress,
                            _ => false,
                        },
                )
            }
        },
        RelayIncomingPayload::FileEnd(p) => {
            let s = resolve(p.sender_id, me);
            to_paired_recipient(
                peers,
                pairs,
                s,
                step,
                |m: RelayResponse|
                    match m {
                        RelayResponse::FileEnd(d) => d.success && d.msg_type@ == "fileEnd"@
                            && d.sender_id@ == s && d.recipient_id@ == pairs[s] && d.file_name@
                            == p.file_name@ && d.total_size == p.total_size && d.total_chunks
                            == p.total_chunks && d.uploaded_size == p.uploaded_size
                            && d.last_chunk_index == p.last_chunk_index,
                        _ => false,
                    },
            )
        },
        RelayIncomingPayload::CancelSenderTransfer(p) => {
            let s = resolve(p.sender_id, me);
            to_paired_recipient(
                peers,
                pairs,
                s,
                step,
                |m: RelayResponse|
                    match m {
                        RelayResponse::CancelSenderTransfer(d) => d.success && d.msg_type@
                            == "cancelSenderTransfer"@ && d.sender_id@ == s && d.recipient_id@
                            == pairs[s],
                        _ => false,
                    },
            )
        },
        RelayIncomingPayload::CancelRecipientTransfer(p) => {
            let s = p.sender_id@;
            let r = resolve(p.recipient_id, me);
            to_matching_sender(
                peers,
                pairs,
                s,
                r,
                step,
                |m: RelayResponse|
                    match m {
                        RelayResponse::CancelRecipientTransfer(d) => d.success && d.msg_type@
                            == "cancelRecipientTransfer"@ && d.recipient_id@ == r && d.sender_id@
                            == s,
                        _ => false,
                    },
            )
        },
        RelayIncomingPayload::SenderAck(p) => {
            let s = resolve(p.sender_id, me);
            let r = p.recipient_id@;
            if !peers.contains_key(r) {
                is_error_reply(step, ErrorCode::RecipientDisconnected)
            } else {
                sends_to(
                    step,
                    r,
                    |m: RelayResponse|
                        match m {
                            RelayResponse::SenderAck(d) => d.success && d.msg_type@ == "senderAck"@
                                && d.request_type@ == p.request_type@ && d.sender_id@ == s
                                && d.recipient_id@ == r && d.message == p.message,
                            _ => false,
                        },
                )
            }
        },
        RelayIncomingPayload::RestartTransfer => {
            to_paired_recipient(
                peers,
                pairs,
                me,
                step,
                |m: RelayResponse|
                    match m {
                        RelayResponse::RestartTransfer(d) => d.success && d.msg_type@
                            == "restartTransfer"@ && d.sender_id@ == me && d.recipient_id@
                            == pairs[me],
                        _ => false,
                    },
            )
        },
        RelayIncomingPayload::UserClose(p) => match step {
            ReadStep::Deliver(d) => d.to == Destination::Origin && match d.frame {
                OutboundFrame::Close(c) => c.code == NORMAL_CLOSE_CODE && c.reason@
                    == truncate_utf8(
                    user_close_text(resolve(p.user_id, me), p.role@, user_close_reason(p.reason)),
                    MAX_CLOSE_REASON_BYTES as nat,
                ),
                _ => false,
            },
            _ => false,
        },
        RelayIncomingPayload::Terminate => step == ReadStep::Stop,
        RelayIncomingPayload::Unknown => is_error_reply(
            step,
            ErrorCode::UnsupportedWsMessageTextType,
        ),
    }
}

/// An id from a payload, or `me` when it is absent.
fn resolve_id(id: Option<String>, me: &str) -> (r: String)
    ensures
        r@ == resolve(id, me@),
{
    match id {
        Some(s) => s,
        None => me.to_owned(),
    }
}

/// A reply to the originator with an error of kind `code`.
fn error_reply(code: ErrorCode, message: String) -> (r: ReadStep)
    ensures
        is_error_reply(r, code),
{
    ReadStep::Deliver(
        Delivery {
            to: Destination::Origin,
            frame: OutboundFrame::Text(RelayResponse::Error(ErrorMessage::new(code, message.as_str()))),
        },
    )
}

/// A text frame for `peer`.
fn send_to(peer: String, m: RelayResponse) -> (r: ReadStep)
    ensures
        r == ReadStep::Deliver(
            Delivery { to: Destination::Peer(peer), frame: OutboundFrame::Text(m) },
        ),
{
    ReadStep::Deliver(Delivery { to: Destination::Peer(peer), frame: OutboundFrame::Text(m) })
}

fn no_pairing_error(sender: &str) -> (r: ReadStep)
    ensures
        is_error_reply(r, ErrorCode::ActiveConnectionNotFound),
{
    error_reply(
        ErrorCode::ActiveConnectionNotFound,
        concat3("active connection for sender_id: `", sender, "` not found"),
    )
}

fn recipient_gone_error(recipient: &str) -> (r: ReadStep)
    ensures
        is_error_reply(r, ErrorCode::RecipientDisconnected),
{
    error_reply(
        ErrorCode::RecipientDisconnected,
        concat3("recipient `", recipient, "` is no longer connected"),
    )
}

fn sender_gone_error(sender: &str) -> (r: ReadStep)
    ensures
        is_error_reply(r, ErrorCode::SenderDisconnected),
{
    error_reply(
        ErrorCode::SenderDisconnected,
        concat3("sender `", sender, "` is no longer connected"),
    )
}

fn mismatch_error(expected: &str, got: &str) -> (r: ReadStep)
    ensures
        is_error_reply(r, ErrorCode::RecipientMismatch),
{
    let mut message = concat3("recipient ID mismatch. expected `", expected, "`, ");
    message.append(concat3("got `", got, "`").as_str());
    error_reply(ErrorCode::RecipientMismatch, message)
}

/// The reason text of a `userClose` close frame: who closed, in which role,
/// and why, cut to what a close frame carries.
pub fn user_close_reason_text(user_id: &str, role: &str, reason: &str) -> (r: String)
    ensures
        r@ == truncate_utf8(user_close_text(user_id@, role@, reason@), MAX_CLOSE_REASON_BYTES as nat),
{
    let mut text = concat3("User `", user_id, "` with role `");
    text.append(concat3(role, "`. ", reason).as_str());
    assert(text@ =~= user_close_text(user_id@, role@, reason@));
    truncate_to_bytes(text.as_str(), MAX_CLOSE_REASON_BYTES)
}

/// Routes one parsed event from peer `me`: updates the pairing and metadata
/// tables and says which frame, if any, goes to which queue. An absent id in
/// the payload stands for `me`. A lookup that fails changes nothing and
/// answers the originator with an error.
pub fn handle_text_message_payload<H>(
    peers: &Registry<H>,
    pairs: &mut Registry<String>,
    meta: &mut Registry<FileMetadata>,
    me: &str,
    event: RelayIncomingPayload,
) -> (r: ReadStep)
    requires
        peers.wf(),
        old(pairs).wf(),
        old(meta).wf(),
    ensures
        final(pairs).wf(),
        final(meta).wf(),
        pairing_view(*final(pairs)) == pairs_after(peers@, pairing_view(*old(pairs)), me@, event),
        final(meta)@ == metadata_after(old(meta)@, me@, event),
        text_step(peers@, pairing_view(*old(pairs)), me@, event, r),
{
    let ghost ev = event;
    let ghost pv = pairing_view(*pairs);
    match event {
        RelayIncomingPayload::FileMeta(p) => {
            let sender = resolve_id(p.sender_id, me);
            meta.insert(
                sender.as_str(),
                FileMetadata { name: p.name, size: p.size, mime_type: p.mime_type },
            );
            ReadStep::Continue
        },
        RelayIncomingPayload::RecipientReady(p) => {
            let recipient = resolve_id(p.recipient_id, me);
            match pairs.get(p.sender_id.as_str()) {
                Some(current) => {
                    let mut message = concat3("sender `", p.sender_id.as_str(), "` is already connected to recipient `");
                    message.append(current.as_str());
                    message.append("`");
                    error_reply(ErrorCode::SenderAlreadyConnected, message)
                },
                None => {
                    if peers.contains_key(p.sender_id.as_str()) {
                        pairs.insert(p.sender_id.as_str(), recipient.clone());
                        assert(pairing_view(*pairs) =~= pv.insert(p.sender_id@, recipient@));
                        let dto = RecipientReadyResponseDto::new(recipient.as_str(), p.sender_id.as_str());
                        send_to(p.sender_id, RelayResponse::RecipientReady(dto))
                    } else {
                        sender_gone_error(p.sender_id.as_str())
                    }
                },
            }
        },
        RelayIncomingPayload::CancelRecipientReady(p) => {
            let recipient = resolve_id(p.recipient_id, me);
            match pairs.get(p.sender_id.as_str()) {
                None => no_pairing_error(p.sender_id.as_str()),
                Some(current) => {
                    if *current != recipient {
                        mismatch_error(current.as_str(), recipient.as_str())
                    } else if peers.contains_key(p.sender_id.as_str()) {
                        pairs.remove(p.sender_id.as_str());
                        assert(pairing_view(*pairs) =~= pv.remove(p.sender_id@));
                        let dto = CancelRecipientReadyResponseDto::new(recipient.as_str(), p.sender_id.as_str());
                        send_to(p.sender_id, RelayResponse::CancelRecipientReady(dto))
                    } else {
                        sender_gone_error(p.sender_id.as_str())
                    }
                },
            }
        },
        RelayIncomingPayload::CancelSenderReady(p) => {
            let sender = resolve_id(p.sender_id, me);
            match pairs.get(sender.as_str()) {
                None => no_pairing_error(sender.as_str()),
                Some(current) => {
                    let current = current.clone();
                    if peers.contains_key(current.as_str()) {
                        pairs.remove(sender.as_str());
                        assert(pairing_view(*pairs) =~= pv.remove(sender@));
                        let dto = CancelSenderReadyResponseDto::new(sender.as_str(), current.as_str());
                        send_to(current, RelayResponse::CancelSenderReady(dto))
                    } else {
                        recipient_gone_error(current.as_str())
                    }
                },
            }
        },
        RelayIncomingPayload::FileChunk(p) => {
            let sender = resolve_id(p.sender_id, me);
            match pairs.get(sender.as_str()) {
                None => no_pairing_error(sender.as_str()),
                Some(current) => {
                    if peers.contains_key(current.as_str()) {
                        let dto = FileChunkResponseDto::new(
                            sender.as_str(),
                            current.as_str(),
                            p.file_name.as_str(),
                            p.total_size,
                            p.total_chunks,
                            p.uploaded_size,
                            p.chunk_index,
                            p.chunk_data_size,
                            p.sender_transfer_progress,
                        );
                        send_to(current.clone(), RelayResponse::FileChunk(dto))
                    } else {
                        recipient_gone_error(current.as_str())
                    }
                },
            }
        },
        RelayIncomingPayload::FileTransferAck(p) => {
            let recipient = resolve_id(p.recipient_id, me);
            if peers.contains_key(p.sender_id.as_str()) {
                let dto = FileTransferAckResponseDto::new(
                    recipient.as_str(),
                    p.sender_id.as_str(),
                    p.status.as_str(),
                    p.file_name.as_str(),
                    p.total_chunks,
                    p.uploaded_size,
                    p.chunk_index,
                    p.chunk_data_size,
                    p.recipient_transfer_progress,
                );
                send_to(p.sender_id, RelayResponse::FileTransferAck(dto))
            } else {
                sender_gone_error(p.sender_id.as_str())
            }
        },
        RelayIncomingPayload::FileEnd(p) => {
            let sender = resolve_id(p.sender_id, me);
            match pairs.get(sender.as_str()) {
                None => no_pairing_error(sender.as_str()),
                Some(current) => {
                    if peers.contains_key(current.as_str()) {
                        let dto = FileEndResponseDto::new(
                            sender.as_str(),
                            current.as_str(),
                            p.file_name.as_str(),
                            p.total_size,
                            p.total_chunks,
                            p.uploaded_size,
                            p.last_chunk_index,
                        );
                        send_to(current.clone(), RelayResponse::FileEnd(dto))
                    } else {
                        recipient_gone_error(current.as_str())
                    }
                },
            }
        },
        RelayIncomingPayload::CancelSenderTransfer(p) => {
            let sender = resolve_id(p.sender_id, me);
            match pairs.get(sender.as_str()) {
                None => no_pairing_error(sender.as_str()),
                Some(current) => {
                    if peers.contains_key(current.as_str()) {
                        let dto = CancelSenderTransferResponseDto::new(sender.as_str(), current.as_str());
                        send_to(current.clone(), RelayResponse::CancelSenderTransfer(dto))
                    } else {
                        recipient_gone_error(current.as_str())
                    }
                },
            }
        },
        RelayIncomingPayload::CancelRecipientTransfer(p) => {
            let recipient = resolve_id(p.recipient_id, me);
            match pairs.get(p.sender_id.as_str()) {
                None => no_pairing_error(p.sender_id.as_str()),
                Some(current) => {
                    if *current != recipient {
                        mismatch_error(current.as_str(), recipient.as_str())
                    } else if peers.contains_key(p.sender_id.as_str()) {
                        let dto = CancelRecipientTransferResponseDto::new(recipient.as_str(), p.sender_id.as_str());
                        send_to(p.sender_id, RelayResponse::CancelRecipientTransfer(dto))
                    } else {
                        sender_gone_error(p.sender_id.as_str())
                    }
                },
            }
        },
        RelayIncomingPayload::SenderAck(p) => {
            let sender = resolve_id(p.sender_id, me);
            if peers.contains_key(p.recipient_id.as_str()) {
                let dto = SenderAckResponseDto::new(
                    p.request_type.as_str(),
                    sender.as_str(),
                    p.recipient_id.as_str(),
                    p.message,
                );
                send_to(p.recipient_id, RelayResponse::SenderAck(dto))
            } else {
                recipient_gone_error(p.recipient_id.as_str())
            }
        },
        RelayIncomingPayload::RestartTransfer => {
            match pairs.get(me) {
                None => no_pairing_error(me),
                Some(current) => {
                    if peers.contains_key(current.as_str()) {
                        let dto = RestartTransferResponseDto::new(me, current.as_str());
                        send_to(current.clone(), RelayResponse::RestartTransfer(dto))
                    } else {
                        recipient_gone_error(current.as_str())
                    }
                },
            }
        },
        RelayIncomingPayload::UserClose(p) => {
            let user = resolve_id(p.user_id, me);
            let reason = match p.reason {
                Some(r) => r,
                None => "Closed with no reason.".to_owned(),
            };
            let text = user_close_reason_text(user.as_str(), p.role.as_str(), reason.as_str());
            ReadStep::Deliver(
                Delivery {
                    to: Destination::Origin,
                    frame: OutboundFrame::Close(CloseFrame { code: NORMAL_CLOSE_CODE, reason: text }),
                },
            )
        },
        RelayIncomingPayload::Terminate => ReadStep::Stop,
        RelayIncomingPayload::Unknown => error_reply(
            ErrorCode::UnsupportedWsMessageTextType,
            "unknown json message type".to_owned(),
        ),
    }
}

/// Text that marks a close as the end of a completed transfer, in lowercase.
pub open spec fn completion_marker() -> Seq<char> {
    "transfer completed"@
}

/// Why the reader stops on a close frame with `reason`: a completed
/// transfer when the lowercased reason mentions one, else any other reason.
pub open spec fn close_disconnect_reason(reason: Option<String>) -> DisconnectReason {
    match reason {
        Some(t) => if contains_seq(lower_of(t@), completion_marker()) {
            DisconnectReason::TransferCompleted
        } else {
            DisconnectReason::Other
        },
        None => DisconnectReason::Other,
    }
}

/// Classifies a close reason that is already lowercased.
pub fn reason_of_lowered_close(lowered: &str) -> (r: DisconnectReason)
    ensures
        r == (if contains_seq(lowered@, completion_marker()) {
            DisconnectReason::TransferCompleted
        } else {
            DisconnectReason::Other
        }),
{
    if contains_str(lowered, "transfer completed") {
        DisconnectReason::TransferCompleted
    } else {
        DisconnectReason::Other
    }
}

/// Why the reader stops on a close frame carrying `reason`.
pub fn reason_of_close(reason: Option<String>) -> (r: DisconnectReason)
    ensures
        r == close_disconnect_reason(reason),
{
    match reason {
        Some(t) => {
            let lowered = lowercase(t.as_str());
            reason_of_lowered_close(lowered.as_str())
        },
        None => DisconnectReason::Other,
    }
}

/// What a binary frame from `me` becomes: the same bytes for the paired
/// recipient, or exactly one error for `me`.
pub open spec fn binary_step<H>(
    peers: Map<Seq<char>, H>,
    pairs: Map<Seq<char>, Seq<char>>,
    me: Seq<char>,
    data: Seq<u8>,
    step: ReadStep,
) -> bool {
    if !pairs.contains_key(me) {
        is_error_reply(step, ErrorCode::ActiveConnectionNotFound)
    } else if !peers.contains_key(pairs[me]) {
        is_error_reply(step, ErrorCode::RecipientDisconnected)
    } else {
        match step {
            ReadStep::Deliver(d) => match d.to {
                Destination::Peer(p) => match d.frame {
                    OutboundFrame::Binary(b) => p@ == pairs[me] && b@ == data,
                    _ => false,
                },
                Destination::Origin => false,
            },
            _ => false,
        }
    }
}

/// Forwards a binary frame read from `me` to the recipient paired with it.
pub fn forward_binary<H>(peers: &Registry<H>, pairs: &Registry<String>, me: &str, data: Vec<u8>) -> (r: ReadStep)
    requires
        peers.wf(),
        pairs.wf(),
    ensures
        binary_step(peers@, pairing_view(*pairs), me@, data@, r),
{
    match pairs.get(me) {
        None => no_pairing_error(me),
        Some(current) => {
            if peers.contains_key(current.as_str()) {
                ReadStep::Deliver(
                    Delivery {
                        to: Destination::Peer(current.clone()),
                        frame: OutboundFrame::Binary(data),
                    },
                )
            } else {
                recipient_gone_error(current.as_str())
            }
        },
    }
}

/// The step for one inbound frame of any kind, given the tables before it.
pub open spec fn frame_step<H>(
    peers: Map<Seq<char>, H>,
    pairs: Map<Seq<char>, Seq<char>>,
    me: Seq<char>,
    frame: InboundFrame,
    step: ReadStep,
) -> bool {
    match frame {
        InboundFrame::Text(ev) => text_step(peers, pairs, me, ev, step),
        InboundFrame::Malformed(details) => is_error_reply(step, ErrorCode::InvalidPayload) && match step {
            ReadStep::Deliver(d) => match d.frame {
                OutboundFrame::Text(RelayResponse::Error(e)) => e.details matches Some(t) && t@ == details@,
                _ => false,
            },
            _ => false,
        },
        InboundFrame::Binary(data) => binary_step(peers, pairs, me, data@, step),
        InboundFrame::Pong => step == ReadStep::RecordPong,
        InboundFrame::Close(reason) => step == ReadStep::Finish(close_disconnect_reason(reason)),
        InboundFrame::Unsupported => is_error_reply(step, ErrorCode::UnsupportedWsMessageType),
    }
}

/// The pairing table after a frame.
pub open spec fn frame_pairs_after<H>(
    peers: Map<Seq<char>, H>,
    pairs: Map<Seq<char>, Seq<char>>,
    me: Seq<char>,
    frame: InboundFrame,
) -> Map<Seq<char>, Seq<char>> {
    match frame {
        InboundFrame::Text(ev) => pairs_after(peers, pairs, me, ev),
        _ => pairs,
    }
}

/// The metadata table after a frame.
pub open spec fn frame_metadata_after(
    meta: Map<Seq<char>, FileMetadata>,
    me: Seq<char>,
    frame: InboundFrame,
) -> Map<Seq<char>, FileMetadata> {
    match frame {
        InboundFrame::Text(ev) => metadata_after(meta, me, ev),
        _ => meta,
    }
}

/// Handles one inbound frame read from peer `me`.
pub fn handle_frame<H>(
    peers: &Registry<H>,
    pairs: &mut Registry<String>,
    meta: &mut Registry<FileMetadata>,
    me: &str,
    frame: InboundFrame,
) -> (r: ReadStep)
    requires
        peers.wf(),
        old(pairs).wf(),
        old(meta).wf(),
    ensures
        final(pairs).wf(),
        final(meta).wf(),
        pairing_view(*final(pairs)) == frame_pairs_after(peers@, pairing_view(*old(pairs)), me@, frame),
        final(meta)@ == frame_metadata_after(old(meta)@, me@, frame),
        frame_step(peers@, pairing_view(*old(pairs)), me@, frame, r),
{
    match frame {
        InboundFrame::Text(ev) => handle_text_message_payload(peers, pairs, meta, me, ev),
        InboundFrame::Malformed(details) => {
            let e = ErrorMessage::new(ErrorCode::InvalidPayload, "failed to parse payload")
                .with_details(details.as_str());
            ReadStep::Deliver(
                Delivery {
                    to: Destination::Origin,
                    frame: OutboundFrame::Text(RelayResponse::Error(e)),
                },
            )
        },
        InboundFrame::Binary(data) => forward_binary(peers, pairs, me, data),
        InboundFrame::Pong => ReadStep::RecordPong,
        InboundFrame::Close(reason) => ReadStep::Finish(reason_of_close(reason)),
        InboundFrame::Unsupported => error_reply(
            ErrorCode::UnsupportedWsMessageType,
            "unsupported websocket message type".to_owned(),
        ),
    }
}

/// Whether the reader goes on after a step whose frame, if any, was
/// enqueued (`delivered`) or refused by a closed queue.
pub fn keeps_reading(step: &ReadStep, delivered: bool) -> (r: bool)
    ensures
        r == (match step {
            ReadStep::Continue => true,
            ReadStep::RecordPong => true,
            ReadStep::Deliver(_) => delivered,
            ReadStep::Stop => false,
            ReadStep::Finish(_) => false,
        }),
{
    match step {
        ReadStep::Continue => true,
        ReadStep::RecordPong => true,
        ReadStep::Deliver(_) => delivered,
        ReadStep::Stop => false,
        ReadStep::Finish(_) => false,
    }
}

} // verus!
