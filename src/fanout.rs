use vstd::prelude::*;

use crate::types::BroadcastMessage;

verus! {

pub const TAG_FRAME: u8 = 0x01;
pub const TAG_AUDIO: u8 = 0x02;
pub const TAG_STATE: u8 = 0x03;
pub const TAG_PARTY: u8 = 0x04;
pub const TAG_LOCATION: u8 = 0x05;

/// Control-channel tag: the button goes down.
pub const TAG_PRESS: u8 = 0x06;

/// Control-channel tag: the button comes up.
pub const TAG_RELEASE: u8 = 0x07;

/// The largest button index the control channel accepts.
pub const MAX_BUTTON_INDEX: u8 = 9;

/// The tag byte of each kind of message.
pub open spec fn message_tag(m: BroadcastMessage) -> u8 {
    match m {
        BroadcastMessage::Frame(_) => TAG_FRAME,
        BroadcastMessage::Audio(_) => TAG_AUDIO,
        BroadcastMessage::State(_) => TAG_STATE,
        BroadcastMessage::Party(_) => TAG_PARTY,
        BroadcastMessage::Location(_) => TAG_LOCATION,
    }
}

pub open spec fn message_payload(m: BroadcastMessage) -> Seq<u8> {
    match m {
        BroadcastMessage::Frame(d) => d@,
        BroadcastMessage::Audio(d) => d@,
        BroadcastMessage::State(d) => d@,
        BroadcastMessage::Party(d) => d@,
        BroadcastMessage::Location(d) => d@,
    }
}

/// `prefix` followed by `data`.
pub fn prefix_bytes(prefix: u8, data: &[u8]) -> (r: Vec<u8>)
    ensures
        r@ == seq![prefix] + data@,
{
    let mut out: Vec<u8> = Vec::with_capacity(data.len().saturating_add(1));
    out.push(prefix);
    let mut i: usize = 0;
    while i < data.len()
        invariant
            i <= data@.len(),
            out@ == seq![prefix] + data@.take(i as int),
        decreases data@.len() - i,
    {
        out.push(data[i]);
        assert(out@ =~= seq![prefix] + data@.take(i + 1));
        i = i + 1;
    }
    assert(data@.take(i as int) =~= data@);
    out
}

/// The binary frame that carries a message to a viewer: its tag byte, then its payload.
pub fn frame_message(msg: &BroadcastMessage) -> (r: Vec<u8>)
    ensures
        r@ == seq![message_tag(*msg)] + message_payload(*msg),
{
    match msg {
        BroadcastMessage::Frame(data) => prefix_bytes(TAG_FRAME, data.as_slice()),
        BroadcastMessage::Audio(data) => prefix_bytes(TAG_AUDIO, data.as_slice()),
        BroadcastMessage::State(data) => prefix_bytes(TAG_STATE, data.as_slice()),
        BroadcastMessage::Party(data) => prefix_bytes(TAG_PARTY, data.as_slice()),
        BroadcastMessage::Location(data) => prefix_bytes(TAG_LOCATION, data.as_slice()),
    }
}

/// The overlay key state after a control-channel command. Keys are active low: a
/// press clears the button's bit and a release sets it. A command shorter than two
/// bytes, with a button index above `MAX_BUTTON_INDEX`, or with another tag leaves the
/// state as it was.
pub open spec fn overlay_after(data: Seq<u8>, keys: u16) -> u16 {
    if data.len() < 2 || data[1] > MAX_BUTTON_INDEX {
        keys
    } else if data[0] == TAG_PRESS {
        keys & !((1u16 << data[1]) as u16)
    } else if data[0] == TAG_RELEASE {
        keys | ((1u16 << data[1]) as u16)
    } else {
        keys
    }
}

/// Applies a control-channel command to the overlay key state.
pub fn handle_overlay_input(data: &[u8], overlay_keys: &mut u16)
    ensures
        *final(overlay_keys) == overlay_after(data@, *old(overlay_keys)),
{
    if data.len() < 2 {
        return;
    }
    let tag = data[0];
    let button_id = data[1];
    if button_id > MAX_BUTTON_INDEX {
        return;
    }
    let bit: u16 = 1u16 << button_id;
    if tag == TAG_PRESS {
        *overlay_keys = *overlay_keys & !bit;
    } else if tag == TAG_RELEASE {
        *overlay_keys = *overlay_keys | bit;
    }
}

} // verus!
