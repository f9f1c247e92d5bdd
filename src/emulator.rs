use vstd::prelude::*;

use crate::input::types::GbaButton;

pub mod audio;
pub mod frame;

verus! {

/// The key-input register with every button up (keys are active low).
pub const KEYINPUT_ALL_RELEASED: u16 = 0b1111111111;

/// The console's frame rate.
pub const NATIVE_FPS: u32 = 60;

/// Party telemetry goes out once every this many frames.
pub const PARTY_INTERVAL_FRAMES: u64 = 60;

/// Location telemetry goes out once every this many frames.
pub const LOCATION_INTERVAL_FRAMES: u64 = 10;

/// The bit of a button in the key-input register.
pub open spec fn key_bit(b: GbaButton) -> u16 {
    match b {
        GbaButton::A => 0,
        GbaButton::B => 1,
        GbaButton::Select => 2,
        GbaButton::Start => 3,
        GbaButton::Right => 4,
        GbaButton::Left => 5,
        GbaButton::Up => 6,
        GbaButton::Down => 7,
        GbaButton::R => 8,
        GbaButton::L => 9,
    }
}

pub fn key_index(button: GbaButton) -> (r: u16)
    ensures
        r == key_bit(button),
{
    match button {
        GbaButton::A => 0,
        GbaButton::B => 1,
        GbaButton::Select => 2,
        GbaButton::Start => 3,
        GbaButton::Right => 4,
        GbaButton::Left => 5,
        GbaButton::Up => 6,
        GbaButton::Down => 7,
        GbaButton::R => 8,
        GbaButton::L => 9,
    }
}

/// The key-input register for one frame: the overlay state, with the arbitrated press
/// (if any) held down as well.
pub open spec fn frame_keys(overlay: u16, button: Option<GbaButton>) -> u16 {
    match button {
        Some(b) => overlay & !((1u16 << key_bit(b)) as u16),
        None => overlay,
    }
}

pub fn key_state_for_frame(overlay: u16, button: Option<GbaButton>) -> (r: u16)
    ensures
        r == frame_keys(overlay, button),
{
    match button {
        Some(b) => overlay & !(1u16 << key_index(b)),
        None => overlay,
    }
}

/// Whether `n` is a multiple of `d` (only zero is a multiple of zero).
pub open spec fn multiple_of(n: int, d: int) -> bool {
    if d == 0 {
        n == 0
    } else {
        n % d == 0
    }
}

/// How many frames lie between two video frames sent to the encoder: the native rate
/// over the target rate, at least one (a target of zero counts as one).
pub open spec fn skip_for(target_fps: u32) -> u64 {
    let per = NATIVE_FPS / if target_fps == 0 {
        1
    } else {
        target_fps
    };
    if per == 0 {
        1
    } else {
        per as u64
    }
}

pub fn frame_skip(target_fps: u32) -> (r: u64)
    ensures
        r == skip_for(target_fps),
        r >= 1,
{
    let fps = if target_fps == 0 {
        1
    } else {
        target_fps
    };
    let per = NATIVE_FPS / fps;
    if per == 0 {
        1
    } else {
        per as u64
    }
}

/// What a frame sends out once it has run.
pub struct FrameSchedule {
    pub send_video: bool,
    pub send_party: bool,
    pub send_location: bool,
}

/// The outputs due after frame number `frame_count`: video every `frame_skip` frames;
/// party and location telemetry at their intervals, and only when the game is known.
pub fn frame_schedule(frame_count: u64, frame_skip: u64, game_known: bool) -> (r: FrameSchedule)
    ensures
        r.send_video == multiple_of(frame_count as int, frame_skip as int),
        r.send_party == (game_known && multiple_of(frame_count as int, PARTY_INTERVAL_FRAMES as int)),
        r.send_location == (game_known && multiple_of(
            frame_count as int,
            LOCATION_INTERVAL_FRAMES as int,
        )),
{
    let send_video = if frame_skip == 0 {
        frame_count == 0
    } else {
        frame_count % frame_skip == 0
    };
    FrameSchedule {
        send_video,
        send_party: game_known && frame_count % PARTY_INTERVAL_FRAMES == 0,
        send_location: game_known && frame_count % LOCATION_INTERVAL_FRAMES == 0,
    }
}

} // verus!
