//! Outbound protocol frames: one response type per event, the error frame,
//! binary chunks, pings and close frames.
use vstd::prelude::*;

use crate::clock::unix_timestamp;
use crate::error::ErrorMessage;

verus! {
/// The first frame a connection receives: its own id. `msg_type` is `register`.
#[derive(Debug, Clone, PartialEq, Eq)]
pub struct RegisterResponseDto {
    pub success: bool,
    pub msg_type: String,
    pub conn_id: String,
    pub timestamp: i64,
}

impl RegisterResponseDto {
    /// A successful `register` frame, stamped with the current time.
    pub fn new(conn_id: &str) -> (r: Self)
        ensures
            r.success,
            r.msg_type@ == "register"@,
            r.conn_id@ == conn_id@,
    {
        RegisterResponseDto {
            success: true,
            msg_type: "register".to_owned(),
            conn_id: conn_id.to_owned(),
            timestamp: unix_timestamp(),
        }
    }
}

/// Tells a sender that a recipient is ready. `msg_type` is `recipientReady`.
#[derive(Debug, Clone, PartialEq, Eq)]
pub struct RecipientReadyResponseDto {
    pub success: bool,
    pub msg_type: String,
    pub recipient_id: String,
    pub sender_id: String,
    pub timestamp: i64,
}

impl RecipientReadyResponseDto {
    /// A successful `recipientReady` frame, stamped with the current time.
    pub fn new(recipient_id: &str, sender_id: &str) -> (r: Self)
        ensures
            r.success,
            r.msg_type@ == "recipientReady"@,
            r.recipient_id@ == recipient_id@,
            r.sender_id@ == sender_id@,
    {
        RecipientReadyResponseDto {
            success: true,
            msg_type: "recipientReady".to_owned(),
            recipient_id: recipient_id.to_owned(),
            sender_id: sender_id.to_owned(),
            timestamp: unix_timestamp(),
        }
    }
}

/// Tells a sender that its recipient withdrew. `msg_type` is `cancelRecipientReady`.
#[derive(Debug, Clone, PartialEq, Eq)]
pub struct CancelRecipientReadyResponseDto {
    pub success: bool,
    pub msg_type: String,
    pub recipient_id: String,
    pub sender_id: String,
    pub timestamp: i64,
}

impl CancelRecipientReadyResponseDto {
    /// A successful `cancelRecipientReady` frame, stamped with the current time.
    pub fn new(recipient_id: &str, sender_id: &str) -> (r: Self)
        ensures
            r.success,
            r.msg_type@ == "cancelRecipientReady"@,
            r.recipient_id@ == recipient_id@,
            r.sender_id@ == sender_id@,
    {
        CancelRecipientReadyResponseDto {
            success: true,
            msg_type: "cancelRecipientReady".to_owned(),
            recipient_id: recipient_id.to_owned(),
            sender_id: sender_id.to_owned(),
            timestamp: unix_timestamp(),
        }
    }
}

/// Tells a recipient that its sender dissolved the pairing. `msg_type` is `cancelSenderReady`.
#[derive(Debug, Clone, PartialEq, Eq)]
pub struct CancelSenderReadyResponseDto {
    pub success: bool,
    pub msg_type: String,
    pub sender_id: String,
    pub recipient_id: String,
    pub timestamp: i64,
}

impl CancelSenderReadyResponseDto {
    /// A successful `cancelSenderReady` frame, stamped with the current time.
    pub fn new(sender_id: &str, recipient_id: &str) -> (r: Self)
        ensures
            r.success,
            r.msg_type@ == "cancelSenderReady"@,
            r.sender_id@ == sender_id@,
            r.recipient_id@ == recipient_id@,
    {
        CancelSenderReadyResponseDto {
            success: true,
            msg_type: "cancelSenderReady".to_owned(),
            sender_id: sender_id.to_owned(),
            recipient_id: recipient_id.to_owned(),
            timestamp: unix_timestamp(),
        }
    }
}

/// Progress of a chunk, forwarded to the recipient. `msg_type` is `fileChunk`.
#[derive(Debug, Clone, PartialEq, Eq)]
pub struct FileChunkResponseDto {
    pub success: bool,
    pub msg_type: String,
    pub sender_id: String,
    pub recipient_id: String,
    pub file_name: String,
    pub total_size: u64,
    pub total_chunks: u16,
    pub uploaded_size: u64,
    pub chunk_index: u32,
    pub chunk_data_size: u32,
    pub sender_transfer_progress: u8,
    pub timestamp: i64,
}

impl FileChunkResponseDto {
    /// A successful `fileChunk` frame, stamped with the current time.
    pub fn new(sender_id: &str, recipient_id: &str, file_name: &str, total_size: u64, total_chunks: u16, uploaded_size: u64, chunk_index: u32, chunk_data_size: u32, sender_transfer_progress: u8) -> (r: Self)
        ensures
            r.success,
            r.msg_type@ == "fileChunk"@,
            r.sender_id@ == sender_id@,
            r.recipient_id@ == recipient_id@,
            r.file_name@ == file_name@,
            r.total_size == total_size,
            r.total_chunks == total_chunks,
            r.uploaded_size == uploaded_size,
            r.chunk_index == chunk_index,
            r.chunk_data_size == chunk_data_size,
            r.sender_transfer_progress == sender_transfer_progress,
    {
        FileChunkResponseDto {
            success: true,
            msg_type: "fileChunk".to_owned(),
            sender_id: sender_id.to_owned(),
            recipient_id: recipient_id.to_owned(),
            file_name: file_name.to_owned(),
            total_size,
            total_chunks,
            uploaded_size,
            chunk_index,
            chunk_data_size,
            sender_transfer_progress,
            timestamp: unix_timestamp(),
        }
    }
}

/// A recipient's acknowledgement, forwarded to the sender. `msg_type` is `fileTransferAck`.
#[derive(Debug, Clone, PartialEq, Eq)]
pub struct FileTransferAckResponseDto {
    pub success: bool,
    pub msg_type: String,
    pub recipient_id: String,
    pub sender_id: String,
    pub status: String,
    pub file_name: String,
    pub total_chunks: u16,
    pub uploaded_size: u64,
    pub chunk_index: u32,
    pub chunk_data_size: u32,
    pub recipient_transfer_progress: u8,
    pub timestamp: i64,
}

impl FileTransferAckResponseDto {
    /// A successful `fileTransferAck` frame, stamped with the current time.
    pub fn new(recipient_id: &str, sender_id: &str, status: &str, file_name: &str, total_chunks: u16, uploaded_size: u64, chunk_index: u32, chunk_data_size: u32, recipient_transfer_progress: u8) -> (r: Self)
        ensures
            r.success,
            r.msg_type@ == "fileTransferAck"@,
            r.recipient_id@ == recipient_id@,
            r.sender_id@ == sender_id@,
            r.status@ == status@,
            r.file_name@ == file_name@,
            r.total_chunks == total_chunks,
            r.uploaded_size == uploaded_size,
            r.chunk_index == chunk_index,
            r.chunk_data_size == chunk_data_size,
            r.recipient_transfer_progress == recipient_transfer_progress,
    {
        FileTransferAckResponseDto {
            success: true,
            msg_type: "fileTransferAck".to_owned(),
            recipient_id: recipient_id.to_owned(),
            sender_id: sender_id.to_owned(),
            status: status.to_owned(),
            file_name: file_name.to_owned(),
            total_chunks,
            uploaded_size,
            chunk_index,
            chunk_data_size,
            recipient_transfer_progress,
            timestamp: unix_timestamp(),
        }
    }
}

/// End of a file's chunks, forwarded to the recipient. `msg_type` is `fileEnd`.
#[derive(Debug, Clone, PartialEq, Eq)]
pub struct FileEndResponseDto {
    pub success: bool,
    pub msg_type: String,
    pub sender_id: String,
    pub recipient_id: String,
    pub file_name: String,
    pub total_size: u64,
    pub total_chunks: u16,
    pub uploaded_size: u64,
    pub last_chunk_index: u32,
    pub timestamp: i64,
}

impl FileEndResponseDto {
    /// A successful `fileEnd` frame, stamped with the current time.
    pub fn new(sender_id: &str, recipient_id: &str, file_name: &str, total_size: u64, total_chunks: u16, uploaded_size: u64, last_chunk_index: u32) -> (r: Self)
        ensures
            r.success,
            r.msg_type@ == "fileEnd"@,
            r.sender_id@ == sender_id@,
            r.recipient_id@ == recipient_id@,
            r.file_name@ == file_name@,
            r.total_size == total_size,
            r.total_chunks == total_chunks,
            r.uploaded_size == uploaded_size,
            r.last_chunk_index == last_chunk_index,
    {
        FileEndResponseDto {
            success: true,
            msg_type: "fileEnd".to_owned(),
            sender_id: sender_id.to_owned(),
            recipient_id: recipient_id.to_owned(),
            file_name: file_name.to_owned(),
            total_size,
            total_chunks,
            uploaded_size,
            last_chunk_index,
            timestamp: unix_timestamp(),
        }
    }
}

/// A sender's abort of the transfer, forwarded to the recipient. `msg_type` is `cancelSenderTransfer`.
#[derive(Debug, Clone, PartialEq, Eq)]
pub struct CancelSenderTransferResponseDto {
    pub success: bool,
    pub msg_type: String,
    pub sender_id: String,
    pub recipient_id: String,
    pub timestamp: i64,
}

impl CancelSenderTransferResponseDto {
    /// A successful `cancelSenderTransfer` frame, stamped with the current time.
    pub fn new(sender_id: &str, recipient_id: &str) -> (r: Self)
        ensures
            r.success,
            r.msg_type@ == "cancelSenderTransfer"@,
            r.sender_id@ == sender_id@,
            r.recipient_id@ == recipient_id@,
    {
        CancelSenderTransferResponseDto {
            success: true,
            msg_type: "cancelSenderTransfer".to_owned(),
            sender_id: sender_id.to_owned(),
            recipient_id: recipient_id.to_owned(),
            timestamp: unix_timestamp(),
        }
    }
}

/// A recipient's abort of the transfer, forwarded to the sender. `msg_type` is `cancelRecipientTransfer`.
#[derive(Debug, Clone, PartialEq, Eq)]
pub struct CancelRecipientTransferResponseDto {
    pub success: bool,
    pub msg_type: String,
    pub recipient_id: String,
    pub sender_id: String,
    pub timestamp: i64,
}

impl CancelRecipientTransferResponseDto {
    /// A successful `cancelRecipientTransfer` frame, stamped with the current time.
    pub fn new(recipient_id: &str, sender_id: &str) -> (r: Self)
        ensures
            r.success,
            r.msg_type@ == "cancelRecipientTransfer"@,
            r.recipient_id@ == recipient_id@,
            r.sender_id@ == sender_id@,
    {
        CancelRecipientTransferResponseDto {
            success: true,
            msg_type: "cancelRecipientTransfer".to_owned(),
            recipient_id: recipient_id.to_owned(),
            sender_id: sender_id.to_owned(),
            timestamp: unix_timestamp(),
        }
    }
}

/// A sender's acknowledgement, forwarded to the recipient. `msg_type` is `senderAck`.
#[derive(Debug, Clone, PartialEq, Eq)]
pub struct SenderAckResponseDto {
    pub success: bool,
    pub msg_type: String,
    pub request_type: String,
    pub sender_id: String,
    pub recipient_id: String,
    pub message: Option<String>,
    pub timestamp: i64,
}

impl SenderAckResponseDto {
    /// A successful `senderAck` frame, stamped with the current time.
    pub fn new(request_type: &str, sender_id: &str, recipient_id: &str, message: Option<String>) -> (r: Self)
        ensures
            r.success,
            r.msg_type@ == "senderAck"@,
            r.request_type@ == request_type@,
            r.sender_id@ == sender_id@,
            r.recipient_id@ == recipient_id@,
            r.message == message,
    {
        SenderAckResponseDto {
            success: true,
            msg_type: "senderAck".to_owned(),
            request_type: request_type.to_owned(),
            sender_id: sender_id.to_owned(),
            recipient_id: recipient_id.to_owned(),
            message,
            timestamp: unix_timestamp(),
        }
    }
}

/// A request to restart the transfer, forwarded to the recipient. `msg_type` is `restartTransfer`.
#[derive(Debug, Clone, PartialEq, Eq)]
pub struct RestartTransferResponseDto {
    pub success: bool,
    pub msg_type: String,
    pub sender_id: String,
    pub recipient_id: String,
    pub timestamp: i64,
}

impl RestartTransferResponseDto {
    /// A successful `restartTransfer` frame, stamped with the current time.
    pub fn new(sender_id: &str, recipient_id: &str) -> (r: Self)
        ensures
            r.success,
            r.msg_type@ == "restartTransfer"@,
            r.sender_id@ == sender_id@,
            r.recipient_id@ == recipient_id@,
    {
        RestartTransferResponseDto {
            success: true,
            msg_type: "restartTransfer".to_owned(),
            sender_id: sender_id.to_owned(),
            recipient_id: recipient_id.to_owned(),
            timestamp: unix_timestamp(),
        }
    }
}

/// Tells a peer that its counterparty went away, and in which role. `msg_type` is `peerDisconnected`.
#[derive(Debug, Clone, PartialEq, Eq)]
pub struct PeerDisconnectedResponseDto {
    pub success: bool,
    pub msg_type: String,
    pub peer_id: String,
    pub role: String,
    pub timestamp: i64,
}

impl PeerDisconnectedResponseDto {
    /// A successful `peerDisconnected` frame, stamped with the current time.
    pub fn new(peer_id: &str, role: &str) -> (r: Self)
        ensures
            r.success,
            r.msg_type@ == "peerDisconnected"@,
            r.peer_id@ == peer_id@,
            r.role@ == role@,
    {
        PeerDisconnectedResponseDto {
            success: true,
            msg_type: "peerDisconnected".to_owned(),
            peer_id: peer_id.to_owned(),
            role: role.to_owned(),
            timestamp: unix_timestamp(),
        }
    }
}

/// Every outbound text frame.
#[derive(Debug, Clone, PartialEq, Eq)]
pub enum RelayResponse {
    Register(RegisterResponseDto),
    RecipientReady(RecipientReadyResponseDto),
    CancelRecipientReady(CancelRecipientReadyResponseDto),
    CancelSenderReady(CancelSenderReadyResponseDto),
    FileChunk(FileChunkResponseDto),
    FileTransferAck(FileTransferAckResponseDto),
    FileEnd(FileEndResponseDto),
    CancelSenderTransfer(CancelSenderTransferResponseDto),
    CancelRecipientTransfer(CancelRecipientTransferResponseDto),
    SenderAck(SenderAckResponseDto),
    RestartTransfer(RestartTransferResponseDto),
    PeerDisconnected(PeerDisconnectedResponseDto),
    Error(ErrorMessage),
}

/// A close frame: status code and reason text.
#[derive(Debug, Clone, PartialEq, Eq)]
pub struct CloseFrame {
    pub code: u16,
    pub reason: String,
}

/// A frame placed on a connection's outbound queue.
#[derive(Debug, Clone, PartialEq, Eq)]
pub enum OutboundFrame {
    Text(RelayResponse),
    Binary(Vec<u8>),
    Ping,
    Close(CloseFrame),
}

} // verus!
