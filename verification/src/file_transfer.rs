//! Chunked file receive between trusted peers: a `fileOffer` opens a
//! transfer, each `fileChunk` appends its base64-decoded bytes, and a
//! `fileAck` closes it. Writing the file out is the caller's job.

use vstd::prelude::*;
use crate::envelope::{base64_encoding, decode_base64, is_base64_of_some, Base64Error};
use crate::payloads::{FileAckPayload, FileChunkPayload, FileOfferPayload};

verus! {

/// Receives files.
pub struct FileTransferService;

/// A transfer in progress: the offer, and the bytes received so far.
pub struct IncomingTransfer {
    pub offer: FileOfferPayload,
    pub received_bytes: Vec<u8>,
}

impl FileTransferService {
    pub fn new() -> (service: FileTransferService) {
        FileTransferService
    }

    /// Opens a transfer for `offer`, with nothing received yet.
    pub fn begin_incoming(&self, offer: FileOfferPayload) -> (transfer: IncomingTransfer)
        ensures
            transfer.offer == offer,
            transfer.received_bytes@ == Seq::<u8>::empty(),
    {
        IncomingTransfer { offer, received_bytes: Vec::new() }
    }

    /// Appends one chunk's bytes: the base64 decoding of its `data`. A
    /// chunk whose data is not base64 is refused and changes nothing.
    pub fn apply_chunk(&self, transfer: &mut IncomingTransfer, chunk: &FileChunkPayload) -> (result:
        Result<(), Base64Error>)
        ensures
            result is Ok <==> is_base64_of_some(chunk.data@),
            forall|bytes: Seq<u8>| #[trigger]
                base64_encoding(bytes) == chunk.data@ ==> final(transfer).received_bytes@ == old(
                    transfer,
                ).received_bytes@ + bytes,
            result is Err ==> final(transfer).received_bytes@ == old(transfer).received_bytes@,
            final(transfer).offer == old(transfer).offer,
    {
        let mut bytes = decode_base64(chunk.data.as_str())?;
        transfer.received_bytes.append(&mut bytes);
        Ok(())
    }

    /// Closes a transfer, acknowledging it as received.
    pub fn finish(&self, transfer: IncomingTransfer) -> (ack: FileAckPayload)
        ensures
            ack.transfer_id == transfer.offer.transfer_id,
            ack.ok,
            ack.failure_reason is None,
    {
        FileAckPayload { transfer_id: transfer.offer.transfer_id, ok: true, failure_reason: None }
    }
}

impl Default for FileTransferService {
    fn default() -> (service: Self) {
        FileTransferService::new()
    }
}
} // verus!
