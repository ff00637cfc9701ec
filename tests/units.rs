use relayr_api::error::{AppError, ErrorCode, ErrorMessage};
use relayr_api::registry::Registry;
use relayr_api::requests::{
    CancelRecipientTransferPayload, CancelSenderTransferPayload, FileChunkPayload, FileEndPayload,
    FileTransferAckPayload, RelayIncomingPayload, SenderAckPayload, UserClosePayload,
};
use relayr_api::responses::{
    CloseFrame, FileChunkResponseDto, FileEndResponseDto, FileTransferAckResponseDto,
    OutboundFrame, RelayResponse,
};
use relayr_api::routing::{
    forward_binary, handle_frame, handle_text_message_payload, keeps_reading, reason_of_close,
    reason_of_lowered_close, user_close_reason_text, Delivery, Destination, InboundFrame, ReadStep,
};
use relayr_api::session::{disconnect_reason_of, heartbeat_tick, HeartbeatAction, TaskExit};
use relayr_api::text::{concat3, contains_str, truncate_to_bytes};
use relayr_api::types::{get_rust_env, parse_port, port_from_env, Config, DisconnectReason, FileMetadata};

fn tables() -> (Registry<u32>, Registry<String>, Registry<FileMetadata>) {
    let mut peers = Registry::new();
    peers.insert("A", 1);
    peers.insert("B", 2);
    let mut pairs = Registry::new();
    pairs.insert("A", "B".to_string());
    (peers, pairs, Registry::new())
}

fn error_code(step: &ReadStep) -> Option<ErrorCode> {
    match step {
        ReadStep::Deliver(Delivery {
            to: Destination::Origin,
            frame: OutboundFrame::Text(RelayResponse::Error(e)),
        }) => Some(e.code),
        _ => None,
    }
}

#[test]
fn substring_search() {
    assert!(contains_str("the transfer completed now", "transfer completed"));
    assert!(!contains_str("transfer complete", "transfer completed"));
    assert!(contains_str("abc", ""));
    assert!(!contains_str("", "a"));
    assert!(contains_str("aab", "ab"));
}

#[test]
fn close_reasons() {
    assert_eq!(reason_of_close(Some("TRANSFER COMPLETED".to_string())), DisconnectReason::TransferCompleted);
    assert_eq!(reason_of_close(Some("Transfer Completed!".to_string())), DisconnectReason::TransferCompleted);
    assert_eq!(reason_of_close(Some("going away".to_string())), DisconnectReason::Other);
    assert_eq!(reason_of_close(None), DisconnectReason::Other);
    assert_eq!(reason_of_lowered_close("transfer completed"), DisconnectReason::TransferCompleted);
    assert_eq!(reason_of_lowered_close("Transfer Completed"), DisconnectReason::Other);
}

#[test]
fn truncation_by_bytes() {
    assert_eq!(truncate_to_bytes("hello", 3), "hel");
    assert_eq!(truncate_to_bytes("hello", 10), "hello");
    assert_eq!(truncate_to_bytes("héllo", 2), "h");
    assert_eq!(truncate_to_bytes("héllo", 3), "hé");
    assert_eq!(truncate_to_bytes("", 0), "");
    assert_eq!(concat3("a", "bc", "d"), "abcd");
}

#[test]
fn user_close_reason_is_cut_to_123_bytes() {
    let short = user_close_reason_text("u1", "sender", "done");
    assert_eq!(short, "User `u1` with role `sender`. done");
    let long = "x".repeat(300);
    let cut = user_close_reason_text("u1", "sender", &long);
    assert_eq!(cut.len(), 123);
    assert!(cut.starts_with("User `u1` with role `sender`. xxx"));
    let wide = "é".repeat(100);
    let cut = user_close_reason_text("u", "r", &wide);
    assert!(cut.len() <= 123);
    assert_eq!(cut.len(), 122);
}

#[test]
fn user_close_frame() {
    let (peers, mut pairs, mut meta) = tables();
    let step = handle_text_message_payload(
        &peers,
        &mut pairs,
        &mut meta,
        "A",
        RelayIncomingPayload::UserClose(UserClosePayload { user_id: None, role: "sender".to_string(), reason: None }),
    );
    assert_eq!(
        step,
        ReadStep::Deliver(Delivery {
            to: Destination::Origin,
            frame: OutboundFrame::Close(CloseFrame {
                code: 1000,
                reason: "User `A` with role `sender`. Closed with no reason.".to_string(),
            }),
        })
    );
}

#[test]
fn heartbeat_ticks() {
    assert_eq!(heartbeat_tick(0), HeartbeatAction::Ping { late: false });
    assert_eq!(heartbeat_tick(15_000_000_000), HeartbeatAction::Ping { late: false });
    assert_eq!(heartbeat_tick(15_000_000_001), HeartbeatAction::Ping { late: true });
    assert_eq!(heartbeat_tick(30_000_000_000), HeartbeatAction::Ping { late: true });
    assert_eq!(heartbeat_tick(30_000_000_001), HeartbeatAction::GiveUp);
}

#[test]
fn silent_peer_is_reported() {
    assert_eq!(heartbeat_tick(31_000_000_000), HeartbeatAction::GiveUp);
    assert_eq!(disconnect_reason_of(TaskExit::Heartbeat), DisconnectReason::Other);
    assert_eq!(disconnect_reason_of(TaskExit::Reader(None)), DisconnectReason::Other);
    assert_eq!(
        disconnect_reason_of(TaskExit::Reader(Some(DisconnectReason::TransferCompleted))),
        DisconnectReason::TransferCompleted
    );
}

#[test]
fn reader_loop_policy() {
    assert!(keeps_reading(&ReadStep::Continue, false));
    assert!(keeps_reading(&ReadStep::RecordPong, false));
    assert!(!keeps_reading(&ReadStep::Stop, true));
    assert!(!keeps_reading(&ReadStep::Finish(DisconnectReason::Other), true));
    let d = ReadStep::Deliver(Delivery { to: Destination::Origin, frame: OutboundFrame::Ping });
    assert!(keeps_reading(&d, true));
    assert!(!keeps_reading(&d, false));
}

#[test]
fn port_parsing() {
    assert_eq!(parse_port("8080"), Some(8080));
    assert_eq!(parse_port("+80"), Some(80));
    assert_eq!(parse_port("0"), Some(0));
    assert_eq!(parse_port("65535"), Some(65535));
    assert_eq!(parse_port("65536"), None);
    assert_eq!(parse_port("99999999999"), None);
    assert_eq!(parse_port(""), None);
    assert_eq!(parse_port("+"), None);
    assert_eq!(parse_port("80a"), None);
    assert_eq!(parse_port(" 80"), None);
    assert_eq!(port_from_env(None), 8080);
    assert_eq!(port_from_env(Some("3000")), 3000);
    assert_eq!(port_from_env(Some("x")), 8080);
}

#[test]
fn environment_names() {
    assert_eq!(get_rust_env(None), "production");
    assert_eq!(get_rust_env(Some("development".to_string())), "development");
    let c = Config::from_env_values(None, Some("9000"));
    assert_eq!(c.rust_env, "production");
    assert_eq!(c.port, 9000);
}

#[test]
fn error_builders() {
    let e = ErrorMessage::new(ErrorCode::InvalidPayload, "bad").with_details("line 1");
    assert!(!e.success);
    assert_eq!(e.code, ErrorCode::InvalidPayload);
    assert_eq!(e.message, "bad");
    assert_eq!(e.details, Some("line 1".to_string()));
    let a = AppError::default();
    assert_eq!(a.errors.code, 500);
    assert_eq!(a.errors.message, "");
    let a = a.with_code(404).with_message("gone".to_string()).with_details("why".to_string());
    assert!(!a.success);
    assert_eq!(a.errors.code, 404);
    assert_eq!(a.errors.message, "gone");
    assert_eq!(a.errors.details, Some("why".to_string()));
}

#[test]
fn frame_errors() {
    let (peers, mut pairs, mut meta) = tables();
    let step = handle_frame(&peers, &mut pairs, &mut meta, "A", InboundFrame::Malformed("expected value".to_string()));
    assert_eq!(error_code(&step), Some(ErrorCode::InvalidPayload));
    match step {
        ReadStep::Deliver(Delivery { frame: OutboundFrame::Text(RelayResponse::Error(e)), .. }) => {
            assert_eq!(e.details, Some("expected value".to_string()))
        }
        _ => panic!("no error frame"),
    }
    let step = handle_frame(&peers, &mut pairs, &mut meta, "A", InboundFrame::Unsupported);
    assert_eq!(error_code(&step), Some(ErrorCode::UnsupportedWsMessageType));
    let step = handle_frame(&peers, &mut pairs, &mut meta, "A", InboundFrame::Text(RelayIncomingPayload::Unknown));
    assert_eq!(error_code(&step), Some(ErrorCode::UnsupportedWsMessageTextType));
    assert_eq!(handle_frame(&peers, &mut pairs, &mut meta, "A", InboundFrame::Pong), ReadStep::RecordPong);
    assert_eq!(
        handle_frame(&peers, &mut pairs, &mut meta, "A", InboundFrame::Text(RelayIncomingPayload::Terminate)),
        ReadStep::Stop
    );
}

#[test]
fn binary_without_pairing_or_recipient() {
    let (mut peers, pairs, _) = tables();
    let step = forward_binary(&peers, &pairs, "B", vec![9]);
    assert_eq!(error_code(&step), Some(ErrorCode::ActiveConnectionNotFound));
    peers.remove("B");
    let step = forward_binary(&peers, &pairs, "A", vec![9]);
    assert_eq!(error_code(&step), Some(ErrorCode::RecipientDisconnected));
}

#[test]
fn forwarded_events() {
    let (peers, mut pairs, mut meta) = tables();
    let step = handle_text_message_payload(
        &peers,
        &mut pairs,
        &mut meta,
        "A",
        RelayIncomingPayload::FileChunk(FileChunkPayload {
            sender_id: None,
            file_name: "f".to_string(),
            total_size: 100,
            total_chunks: 4,
            uploaded_size: 25,
            chunk_index: 0,
            chunk_data_size: 25,
            sender_transfer_progress: 25,
        }),
    );
    match step {
        ReadStep::Deliver(Delivery { to, frame: OutboundFrame::Text(RelayResponse::FileChunk(c)) }) => {
            assert_eq!(to, Destination::Peer("B".to_string()));
            let expected = FileChunkResponseDto::new("A", "B", "f", 100, 4, 25, 0, 25, 25);
            assert_eq!(c.msg_type, "fileChunk");
            assert_eq!(c.sender_id, expected.sender_id);
            assert_eq!(c.recipient_id, expected.recipient_id);
            assert_eq!(c.total_size, 100);
            assert_eq!(c.sender_transfer_progress, 25);
        }
        other => panic!("unexpected step {:?}", other),
    }
    let step = handle_text_message_payload(
        &peers,
        &mut pairs,
        &mut meta,
        "B",
        RelayIncomingPayload::FileTransferAck(FileTransferAckPayload {
            recipient_id: None,
            sender_id: "A".to_string(),
            status: "ok".to_string(),
            file_name: "f".to_string(),
            total_chunks: 4,
            uploaded_size: 25,
            chunk_index: 0,
            chunk_data_size: 25,
            recipient_transfer_progress: 25,
        }),
    );
    match step {
        ReadStep::Deliver(Delivery { to, frame: OutboundFrame::Text(RelayResponse::FileTransferAck(c)) }) => {
            assert_eq!(to, Destination::Peer("A".to_string()));
            let expected = FileTransferAckResponseDto::new("B", "A", "ok", "f", 4, 25, 0, 25, 25);
            assert_eq!(c.recipient_id, expected.recipient_id);
            assert_eq!(c.status, "ok");
        }
        other => panic!("unexpected step {:?}", other),
    }
    let step = handle_text_message_payload(
        &peers,
        &mut pairs,
        &mut meta,
        "A",
        RelayIncomingPayload::FileEnd(FileEndPayload {
            sender_id: None,
            file_name: "f".to_string(),
            total_size: 100,
            total_chunks: 4,
            uploaded_size: 100,
            last_chunk_index: 3,
        }),
    );
    match step {
        ReadStep::Deliver(Delivery { to, frame: OutboundFrame::Text(RelayResponse::FileEnd(c)) }) => {
            assert_eq!(to, Destination::Peer("B".to_string()));
            let expected = FileEndResponseDto::new("A", "B", "f", 100, 4, 100, 3);
            assert_eq!(c.last_chunk_index, expected.last_chunk_index);
            assert_eq!(c.msg_type, "fileEnd");
        }
        other => panic!("unexpected step {:?}", other),
    }
    let step = handle_text_message_payload(
        &peers,
        &mut pairs,
        &mut meta,
        "A",
        RelayIncomingPayload::CancelSenderTransfer(CancelSenderTransferPayload { sender_id: None }),
    );
    match step {
        ReadStep::Deliver(Delivery { to, frame: OutboundFrame::Text(RelayResponse::CancelSenderTransfer(c)) }) => {
            assert_eq!(to, Destination::Peer("B".to_string()));
            assert_eq!(c.msg_type, "cancelSenderTransfer");
        }
        other => panic!("unexpected step {:?}", other),
    }
    let step = handle_text_message_payload(
        &peers,
        &mut pairs,
        &mut meta,
        "B",
        RelayIncomingPayload::CancelRecipientTransfer(CancelRecipientTransferPayload {
            sender_id: "A".to_string(),
            recipient_id: None,
        }),
    );
    match step {
        ReadStep::Deliver(Delivery { to, frame: OutboundFrame::Text(RelayResponse::CancelRecipientTransfer(c)) }) => {
            assert_eq!(to, Destination::Peer("A".to_string()));
            assert_eq!(c.recipient_id, "B");
        }
        other => panic!("unexpected step {:?}", other),
    }
    assert_eq!(pairs.get("A"), Some(&"B".to_string()));
    let step = handle_text_message_payload(
        &peers,
        &mut pairs,
        &mut meta,
        "A",
        RelayIncomingPayload::SenderAck(SenderAckPayload {
            request_type: "restart".to_string(),
            sender_id: None,
            recipient_id: "B".to_string(),
            status: "ok".to_string(),
            message: Some("hi".to_string()),
        }),
    );
    match step {
        ReadStep::Deliver(Delivery { to, frame: OutboundFrame::Text(RelayResponse::SenderAck(c)) }) => {
            assert_eq!(to, Destination::Peer("B".to_string()));
            assert_eq!(c.sender_id, "A");
            assert_eq!(c.message, Some("hi".to_string()));
        }
        other => panic!("unexpected step {:?}", other),
    }
    let step = handle_text_message_payload(&peers, &mut pairs, &mut meta, "A", RelayIncomingPayload::RestartTransfer);
    match step {
        ReadStep::Deliver(Delivery { to, frame: OutboundFrame::Text(RelayResponse::RestartTransfer(c)) }) => {
            assert_eq!(to, Destination::Peer("B".to_string()));
            assert_eq!(c.recipient_id, "B");
        }
        other => panic!("unexpected step {:?}", other),
    }
}

#[test]
fn routing_errors_leave_state_alone() {
    let (mut peers, mut pairs, mut meta) = tables();
    let step = handle_text_message_payload(
        &peers,
        &mut pairs,
        &mut meta,
        "B",
        RelayIncomingPayload::CancelRecipientTransfer(CancelRecipientTransferPayload {
            sender_id: "Q".to_string(),
            recipient_id: None,
        }),
    );
    assert_eq!(error_code(&step), Some(ErrorCode::ActiveConnectionNotFound));
    let step = handle_text_message_payload(
        &peers,
        &mut pairs,
        &mut meta,
        "A",
        RelayIncomingPayload::SenderAck(SenderAckPayload {
            request_type: "x".to_string(),
            sender_id: None,
            recipient_id: "Nobody".to_string(),
            status: "ok".to_string(),
            message: None,
        }),
    );
    assert_eq!(error_code(&step), Some(ErrorCode::RecipientDisconnected));
    peers.remove("B");
    let step = handle_text_message_payload(
        &peers,
        &mut pairs,
        &mut meta,
        "A",
        RelayIncomingPayload::CancelSenderReady(relayr_api::requests::CancelSenderReadyPayload { sender_id: None }),
    );
    assert_eq!(error_code(&step), Some(ErrorCode::RecipientDisconnected));
    assert_eq!(pairs.get("A"), Some(&"B".to_string()));
    peers.remove("A");
    let step = handle_text_message_payload(
        &peers,
        &mut pairs,
        &mut meta,
        "B",
        RelayIncomingPayload::FileTransferAck(FileTransferAckPayload {
            recipient_id: None,
            sender_id: "A".to_string(),
            status: "ok".to_string(),
            file_name: "f".to_string(),
            total_chunks: 1,
            uploaded_size: 1,
            chunk_index: 0,
            chunk_data_size: 1,
            recipient_transfer_progress: 100,
        }),
    );
    assert_eq!(error_code(&step), Some(ErrorCode::SenderDisconnected));
}

#[test]
fn registry_operations() {
    let mut r: Registry<String> = Registry::new();
    assert!(!r.contains_key("a"));
    r.insert("a", "x".to_string());
    r.insert("b", "x".to_string());
    r.insert("c", "y".to_string());
    r.insert("a", "z".to_string());
    assert_eq!(r.get("a"), Some(&"z".to_string()));
    assert_eq!(r.key_of_value("x"), Some("b".to_string()));
    r.insert("a", "x".to_string());
    r.remove_by_value("x");
    assert!(!r.contains_key("a"));
    assert!(!r.contains_key("b"));
    assert_eq!(r.get("c"), Some(&"y".to_string()));
    r.remove("c");
    assert_eq!(r.get("c"), None);
}
