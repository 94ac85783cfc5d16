//! Limits on the WebSocket text frames that carry protocol messages.

use vstd::prelude::*;

use crate::wire::utf8_len;

verus! {

/// Largest accepted WebSocket text frame, in bytes (64 KiB).
pub const MAX_WEBSOCKET_TEXT_BYTES: usize = 65536;

/// Why a WebSocket text frame cannot be processed as a protocol message.
#[derive(Clone, Copy, Debug, PartialEq, Eq)]
pub enum WebSocketMessageError {
    MessageTooLarge,
    InvalidProtocolMessage,
}

/// Refuses a text frame larger than the transport limit before it is parsed.
pub fn check_frame_size(payload: &str) -> (checked: Result<(), WebSocketMessageError>)
    ensures
        checked is Err <==> utf8_len(payload@) > MAX_WEBSOCKET_TEXT_BYTES,
        checked matches Err(error) ==> error == WebSocketMessageError::MessageTooLarge,
{
    if payload.as_bytes().len() > MAX_WEBSOCKET_TEXT_BYTES {
        Err(WebSocketMessageError::MessageTooLarge)
    } else {
        Ok(())
    }
}

} // verus!
