use relayr_api::error::ErrorCode;
use relayr_api::registry::Registry;
use relayr_api::requests::{
    CancelRecipientReadyPayload, CancelSenderReadyPayload, FileMetaPayload, RecipientReadyPayload,
    RelayIncomingPayload,
};
use relayr_api::responses::{OutboundFrame, RelayResponse};
use relayr_api::routing::{handle_frame, Destination, InboundFrame, ReadStep};
use relayr_api::session::{
    cleanup_peer_state, disconnect_reason_of, first_frame, handle_get_file_metadata,
    notify_peers_on_disconnect, TaskExit,
};
use relayr_api::types::{DisconnectReason, FileMetadata};

struct Relay {
    peers: Registry<u32>,
    pairs: Registry<String>,
    meta: Registry<FileMetadata>,
}

impl Relay {
    fn new() -> Self {
        Relay { peers: Registry::new(), pairs: Registry::new(), meta: Registry::new() }
    }

    fn connect(&mut self, id: &str, handle: u32) {
        self.peers.insert(id, handle);
    }

    fn frame(&mut self, me: &str, frame: InboundFrame) -> ReadStep {
        handle_frame(&self.peers, &mut self.pairs, &mut self.meta, me, frame)
    }

    fn text(&mut self, me: &str, ev: RelayIncomingPayload) -> ReadStep {
        self.frame(me, InboundFrame::Text(ev))
    }

    fn recipient_of(&self, sender: &str) -> Option<String> {
        self.pairs.get(sender).cloned()
    }
}

fn ready(sender: &str, recipient: Option<&str>) -> RelayIncomingPayload {
    RelayIncomingPayload::RecipientReady(RecipientReadyPayload {
        sender_id: sender.to_string(),
        recipient_id: recipient.map(|r| r.to_string()),
    })
}

fn error_code(step: &ReadStep) -> Option<ErrorCode> {
    match step {
        ReadStep::Deliver(d) => match (&d.to, &d.frame) {
            (Destination::Origin, OutboundFrame::Text(RelayResponse::Error(e))) => {
                assert!(!e.success);
                Some(e.code)
            }
            _ => None,
        },
        _ => None,
    }
}

fn paired_relay() -> Relay {
    let mut relay = Relay::new();
    relay.connect("A", 1);
    relay.connect("B", 2);
    let step = relay.text("B", ready("A", Some("B")));
    assert!(matches!(step, ReadStep::Deliver(_)));
    relay
}

#[test]
fn happy_pairing() {
    let a = first_frame("A");
    assert_eq!(a.to, Destination::Origin);
    match a.frame {
        OutboundFrame::Text(RelayResponse::Register(d)) => {
            assert!(d.success);
            assert_eq!(d.msg_type, "register");
            assert_eq!(d.conn_id, "A");
        }
        other => panic!("unexpected first frame {:?}", other),
    }
    match first_frame("B").frame {
        OutboundFrame::Text(RelayResponse::Register(d)) => assert_eq!(d.conn_id, "B"),
        other => panic!("unexpected first frame {:?}", other),
    }

    let mut relay = Relay::new();
    relay.connect("A", 1);
    relay.connect("B", 2);
    let step = relay.text("B", ready("A", Some("B")));
    match step {
        ReadStep::Deliver(d) => {
            assert_eq!(d.to, Destination::Peer("A".to_string()));
            match d.frame {
                OutboundFrame::Text(RelayResponse::RecipientReady(r)) => {
                    assert_eq!(r.msg_type, "recipientReady");
                    assert_eq!(r.recipient_id, "B");
                    assert_eq!(r.sender_id, "A");
                    assert!(r.success);
                }
                other => panic!("unexpected frame {:?}", other),
            }
        }
        other => panic!("unexpected step {:?}", other),
    }
    assert_eq!(relay.recipient_of("A"), Some("B".to_string()));
}

#[test]
fn duplicate_claim_is_refused() {
    let mut relay = paired_relay();
    relay.connect("C", 3);
    let step = relay.text("C", ready("A", Some("C")));
    assert_eq!(error_code(&step), Some(ErrorCode::SenderAlreadyConnected));
    assert_eq!(relay.recipient_of("A"), Some("B".to_string()));
}

#[test]
fn binary_forwarding_and_file_meta_lookup() {
    let mut relay = paired_relay();
    let step = relay.text(
        "A",
        RelayIncomingPayload::FileMeta(FileMetaPayload {
            sender_id: None,
            name: "x.bin".to_string(),
            size: 10,
            mime_type: "application/octet-stream".to_string(),
        }),
    );
    assert_eq!(step, ReadStep::Continue);
    let step = relay.frame("A", InboundFrame::Binary(vec![1, 2, 3, 4]));
    assert_eq!(
        step,
        ReadStep::Deliver(relayr_api::routing::Delivery {
            to: Destination::Peer("B".to_string()),
            frame: OutboundFrame::Binary(vec![1, 2, 3, 4]),
        })
    );
    let found = handle_get_file_metadata(&relay.meta, "A").unwrap();
    assert_eq!(found.name, "x.bin");
    assert_eq!(found.size, 10);
    assert_eq!(found.mime_type, "application/octet-stream");
}

#[test]
fn transfer_completed_close_is_not_reported() {
    let mut relay = paired_relay();
    let step = relay.frame("B", InboundFrame::Close(Some("Transfer completed".to_string())));
    assert_eq!(step, ReadStep::Finish(DisconnectReason::TransferCompleted));
    let reason = disconnect_reason_of(TaskExit::Reader(Some(DisconnectReason::TransferCompleted)));
    let notes = notify_peers_on_disconnect(&relay.peers, &mut relay.pairs, "B", reason);
    assert!(notes.is_empty());
    cleanup_peer_state(&mut relay.peers, &mut relay.pairs, &mut relay.meta, "B");
    assert_eq!(relay.recipient_of("A"), None);
    assert!(relay.peers.contains_key("A"));
    assert!(!relay.peers.contains_key("B"));
}

#[test]
fn unclean_recipient_drop_is_reported() {
    let mut relay = paired_relay();
    let reason = disconnect_reason_of(TaskExit::Writer);
    assert_eq!(reason, DisconnectReason::Other);
    let notes = notify_peers_on_disconnect(&relay.peers, &mut relay.pairs, "B", reason);
    assert_eq!(notes.len(), 1);
    assert_eq!(notes[0].to, Destination::Peer("A".to_string()));
    match &notes[0].frame {
        OutboundFrame::Text(RelayResponse::PeerDisconnected(n)) => {
            assert_eq!(n.msg_type, "peerDisconnected");
            assert_eq!(n.peer_id, "B");
            assert_eq!(n.role, "recipient");
        }
        other => panic!("unexpected frame {:?}", other),
    }
    assert_eq!(relay.recipient_of("A"), None);
    cleanup_peer_state(&mut relay.peers, &mut relay.pairs, &mut relay.meta, "B");
    assert_eq!(relay.recipient_of("A"), None);
}

#[test]
fn unclean_sender_drop_is_reported_to_recipient() {
    let mut relay = paired_relay();
    let notes = notify_peers_on_disconnect(
        &relay.peers,
        &mut relay.pairs,
        "A",
        disconnect_reason_of(TaskExit::Heartbeat),
    );
    assert_eq!(notes.len(), 1);
    assert_eq!(notes[0].to, Destination::Peer("B".to_string()));
    match &notes[0].frame {
        OutboundFrame::Text(RelayResponse::PeerDisconnected(n)) => {
            assert_eq!(n.peer_id, "A");
            assert_eq!(n.role, "sender");
        }
        other => panic!("unexpected frame {:?}", other),
    }
    cleanup_peer_state(&mut relay.peers, &mut relay.pairs, &mut relay.meta, "A");
    assert_eq!(relay.recipient_of("A"), None);
}

#[test]
fn recipient_mismatch_cancel() {
    let mut relay = paired_relay();
    relay.connect("C", 3);
    let step = relay.text(
        "C",
        RelayIncomingPayload::CancelRecipientReady(CancelRecipientReadyPayload {
            sender_id: "A".to_string(),
            recipient_id: Some("X".to_string()),
        }),
    );
    assert_eq!(error_code(&step), Some(ErrorCode::RecipientMismatch));
    assert_eq!(relay.recipient_of("A"), Some("B".to_string()));
}

#[test]
fn ready_then_cancel_ready_leaves_no_pairing() {
    let mut relay = Relay::new();
    relay.connect("A", 1);
    relay.connect("B", 2);
    relay.text("B", ready("A", None));
    assert_eq!(relay.recipient_of("A"), Some("B".to_string()));
    let step = relay.text(
        "B",
        RelayIncomingPayload::CancelRecipientReady(CancelRecipientReadyPayload {
            sender_id: "A".to_string(),
            recipient_id: None,
        }),
    );
    match step {
        ReadStep::Deliver(d) => {
            assert_eq!(d.to, Destination::Peer("A".to_string()));
            match d.frame {
                OutboundFrame::Text(RelayResponse::CancelRecipientReady(c)) => {
                    assert_eq!(c.recipient_id, "B");
                    assert_eq!(c.sender_id, "A");
                }
                other => panic!("unexpected frame {:?}", other),
            }
        }
        other => panic!("unexpected step {:?}", other),
    }
    assert_eq!(relay.recipient_of("A"), None);
}

#[test]
fn ready_then_cancel_sender_leaves_no_pairing() {
    let mut relay = paired_relay();
    let step = relay.text(
        "A",
        RelayIncomingPayload::CancelSenderReady(CancelSenderReadyPayload { sender_id: None }),
    );
    match step {
        ReadStep::Deliver(d) => {
            assert_eq!(d.to, Destination::Peer("B".to_string()));
            match d.frame {
                OutboundFrame::Text(RelayResponse::CancelSenderReady(c)) => {
                    assert_eq!(c.sender_id, "A");
                    assert_eq!(c.recipient_id, "B");
                }
                other => panic!("unexpected frame {:?}", other),
            }
        }
        other => panic!("unexpected step {:?}", other),
    }
    assert_eq!(relay.recipient_of("A"), None);
}

#[test]
fn file_meta_last_write_wins() {
    let mut relay = paired_relay();
    for (name, size) in [("first.txt", 1u64), ("second.txt", 2u64)] {
        relay.text(
            "A",
            RelayIncomingPayload::FileMeta(FileMetaPayload {
                sender_id: Some("A".to_string()),
                name: name.to_string(),
                size,
                mime_type: "text/plain".to_string(),
            }),
        );
    }
    let found = handle_get_file_metadata(&relay.meta, "A").unwrap();
    assert_eq!(found.name, "second.txt");
    assert_eq!(found.size, 2);
    let missing = handle_get_file_metadata(&relay.meta, "Z").unwrap_err();
    assert_eq!(missing.errors.code, 404);
    assert_eq!(missing.errors.message, "File metadata not found");
    assert!(!missing.success);
}

#[test]
fn new_pairing_needs_connected_sender() {
    let mut relay = Relay::new();
    relay.connect("B", 2);
    let step = relay.text("B", ready("A", None));
    assert_eq!(error_code(&step), Some(ErrorCode::SenderDisconnected));
    assert_eq!(relay.recipient_of("A"), None);
}

#[test]
fn departed_peer_leaves_no_trace() {
    let mut relay = paired_relay();
    relay.connect("D", 4);
    relay.text("B", ready("D", Some("B")));
    relay.text(
        "B",
        RelayIncomingPayload::FileMeta(FileMetaPayload {
            sender_id: None,
            name: "b.bin".to_string(),
            size: 3,
            mime_type: "application/octet-stream".to_string(),
        }),
    );
    relay.text("A", ready("B", Some("A")));
    let notes = notify_peers_on_disconnect(&relay.peers, &mut relay.pairs, "B", DisconnectReason::Other);
    assert_eq!(notes.len(), 2);
    cleanup_peer_state(&mut relay.peers, &mut relay.pairs, &mut relay.meta, "B");
    assert_eq!(relay.recipient_of("A"), None);
    assert_eq!(relay.recipient_of("B"), None);
    assert_eq!(relay.recipient_of("D"), None);
    assert!(handle_get_file_metadata(&relay.meta, "B").is_err());
}
