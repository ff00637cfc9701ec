//! Inbound protocol events, one variant per `type` tag. An absent id
//! stands for the peer that sent the event.
use vstd::prelude::*;

verus! {

#[derive(Debug, Clone)]
pub struct FileMetaPayload {
    pub sender_id: Option<String>,
    pub name: String,
    pub size: u64,
    pub mime_type: String,
}

#[derive(Debug, Clone)]
pub struct RecipientReadyPayload {
    pub sender_id: String,
    pub recipient_id: Option<String>,
}

#[derive(Debug, Clone)]
pub struct CancelRecipientReadyPayload {
    pub sender_id: String,
    pub recipient_id: Option<String>,
}

#[derive(Debug, Clone)]
pub struct CancelSenderReadyPayload {
    pub sender_id: Option<String>,
}

#[derive(Debug, Clone)]
pub struct FileChunkPayload {
    pub sender_id: Option<String>,
    pub file_name: String,
    pub total_size: u64,
    pub total_chunks: u16,
    pub uploaded_size: u64,
    pub chunk_index: u32,
    pub chunk_data_size: u32,
    pub sender_transfer_progress: u8,
}

#[derive(Debug, Clone)]
pub struct FileTransferAckPayload {
    pub recipient_id: Option<String>,
    pub sender_id: String,
    pub status: String,
    pub file_name: String,
    pub total_chunks: u16,
    pub uploaded_size: u64,
    pub chunk_index: u32,
    pub chunk_data_size: u32,
    pub recipient_transfer_progress: u8,
}

#[derive(Debug, Clone)]
pub struct FileEndPayload {
    pub sender_id: Option<String>,
    pub file_name: String,
    pub total_size: u64,
    pub total_chunks: u16,
    pub uploaded_size: u64,
    pub last_chunk_index: u32,
}

#[derive(Debug, Clone)]
pub struct CancelSenderTransferPayload {
    pub sender_id: Option<String>,
}

#[derive(Debug, Clone)]
pub struct CancelRecipientTransferPayload {
    pub sender_id: String,
    pub recipient_id: Option<String>,
}

#[derive(Debug, Clone)]
pub struct SenderAckPayload {
    pub request_type: String,
    pub sender_id: Option<String>,
    pub recipient_id: String,
    pub status: String,
    pub message: Option<String>,
}

#[derive(Debug, Clone)]
pub struct UserClosePayload {
    pub user_id: Option<String>,
    pub role: String,
    pub reason: Option<String>,
}

/// A parsed inbound text frame.
#[derive(Debug, Clone)]
pub enum RelayIncomingPayload {
    FileMeta(FileMetaPayload),
    RecipientReady(RecipientReadyPayload),
    CancelRecipientReady(CancelRecipientReadyPayload),
    CancelSenderReady(CancelSenderReadyPayload),
    FileChunk(FileChunkPayload),
    FileTransferAck(FileTransferAckPayload),
    FileEnd(FileEndPayload),
    CancelSenderTransfer(CancelSenderTransferPayload),
    CancelRecipientTransfer(CancelRecipientTransferPayload),
    SenderAck(SenderAckPayload),
    RestartTransfer,
    UserClose(UserClosePayload),
    Terminate,
    /// Any tag that is not one of the above.
    Unknown,
}

} // verus!
