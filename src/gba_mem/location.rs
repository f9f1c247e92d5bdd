use vstd::prelude::*;

use crate::gba_mem::decrypt::{le_u16, read_u16};

verus! {

/// Address of the pointer to the first save block; the block holds the live player
/// position.
pub const SAVE_BLOCK_1_PTR: u32 = 0x03005D8C;

pub const OFF_PLAYER_X: usize = 0x00;
pub const OFF_PLAYER_Y: usize = 0x02;
pub const OFF_MAP_BANK: usize = 0x04;
pub const OFF_MAP_NUM: usize = 0x05;

/// How many bytes of the save block the location is read from.
pub const LOCATION_BYTES: usize = 6;

/// Player location read from memory.
#[derive(Debug, Clone, PartialEq, Eq, Structural)]
pub struct PlayerLocation {
    pub map_bank: u8,
    pub map_num: u8,
    /// Player tile X within the current map
    pub x: u16,
    /// Player tile Y within the current map
    pub y: u16,
}

/// The location that the start of the save block holds, if the window is long enough.
pub open spec fn location_of(block: Seq<u8>) -> Option<PlayerLocation> {
    if block.len() < LOCATION_BYTES {
        None
    } else {
        Some(
            PlayerLocation {
                map_bank: block[OFF_MAP_BANK as int],
                map_num: block[OFF_MAP_NUM as int],
                x: le_u16(block, OFF_PLAYER_X as int),
                y: le_u16(block, OFF_PLAYER_Y as int),
            },
        )
    }
}

/// Decodes the location from the memory window that starts at the save block.
pub fn decode_location(save_block: &[u8]) -> (r: Option<PlayerLocation>)
    ensures
        r == location_of(save_block@),
{
    if save_block.len() < LOCATION_BYTES {
        return None;
    }
    Some(
        PlayerLocation {
            map_bank: save_block[OFF_MAP_BANK],
            map_num: save_block[OFF_MAP_NUM],
            x: read_u16(save_block, OFF_PLAYER_X),
            y: read_u16(save_block, OFF_PLAYER_Y),
        },
    )
}

} // verus!
