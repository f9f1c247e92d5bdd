use vstd::prelude::*;

use crate::text::same_text;

verus! {

/// The first wait before reconnecting to the chat transport.
pub const INITIAL_BACKOFF_SECS: u64 = 1;

/// The longest wait before reconnecting.
pub const MAX_BACKOFF_SECS: u64 = 30;

/// Messages that arrive this soon after connecting are backfill and are dropped.
pub const BACKFILL_DISCARD_MS: u64 = 1000;

/// The record type of a chat message on the transport.
pub const CHAT_MESSAGE_TYPE: &'static str = "place.stream.chat.defs#messageView";

/// The wait after `current`: doubled, up to `MAX_BACKOFF_SECS`.
pub open spec fn backoff_after(current: u64) -> u64 {
    if 2 * current < MAX_BACKOFF_SECS {
        (2 * current) as u64
    } else {
        MAX_BACKOFF_SECS
    }
}

pub fn next_backoff_secs(current: u64) -> (r: u64)
    ensures
        r == backoff_after(current),
{
    if current < MAX_BACKOFF_SECS / 2 {
        2 * current
    } else {
        MAX_BACKOFF_SECS
    }
}

/// Whether a transport record is a chat message to act on: it is of the chat message
/// type and did not arrive within the backfill window after connecting.
pub fn accepts_chat_event(ms_since_connect: u64, type_field: &str) -> (r: bool)
    ensures
        r == (ms_since_connect >= BACKFILL_DISCARD_MS && type_field@ == CHAT_MESSAGE_TYPE@),
{
    ms_since_connect >= BACKFILL_DISCARD_MS && same_text(type_field, CHAT_MESSAGE_TYPE)
}

} // verus!
