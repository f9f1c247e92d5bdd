use vstd::prelude::*;
use vstd::slice::slice_subrange;

use crate::gba_mem::charmap::{decode_string, decoded};
use crate::gba_mem::decrypt::{
    attacks_slot, decrypt_block, get_substructure, growth_slot, le_u16, le_word, order_slot,
    read_u16, read_u32, xor_block, BLOCK_BYTES, ORDER_COUNT,
};

verus! {

/// The most records a party holds.
pub const PARTY_SIZE: usize = 6;

/// The size of one party record.
pub const ENTRY_BYTES: usize = 100;

/// The size of the nickname field.
pub const NICKNAME_LEN: usize = 10;

pub const OFF_PID: usize = 0x00;
pub const OFF_OT_ID: usize = 0x04;
pub const OFF_NICKNAME: usize = 0x08;
pub const OFF_ENCRYPTED: usize = 0x20;
pub const OFF_STATUS: usize = 0x50;
pub const OFF_LEVEL: usize = 0x54;
pub const OFF_CURRENT_HP: usize = 0x56;
pub const OFF_MAX_HP: usize = 0x58;

/// One party member as read from memory.
#[derive(Debug, Clone)]
pub struct PartyPokemon {
    pub species: u16,
    pub nickname: String,
    pub level: u8,
    pub current_hp: u16,
    pub max_hp: u16,
    pub status: u32,
    pub moves: [u16; 4],
}

pub struct PokemonView {
    pub species: u16,
    pub nickname: Seq<char>,
    pub level: u8,
    pub current_hp: u16,
    pub max_hp: u16,
    pub status: u32,
    pub moves: Seq<u16>,
}

impl View for PartyPokemon {
    type V = PokemonView;

    open spec fn view(&self) -> PokemonView {
        PokemonView {
            species: self.species,
            nickname: self.nickname@,
            level: self.level,
            current_hp: self.current_hp,
            max_hp: self.max_hp,
            status: self.status,
            moves: self.moves@,
        }
    }
}

impl PartyPokemon {
    pub fn is_fainted(&self) -> (r: bool)
        ensures
            r == (self.current_hp == 0),
    {
        self.current_hp == 0
    }
}

/// What a 100-byte party record holds. A record whose personality value and trainer
/// id are both zero is an empty slot; a window too short to hold a record gives
/// nothing either. The species is the first word of the Growth substructure and the
/// moves are the first four words of the Attacks substructure, both found through the
/// order table after decryption; the other fields lie unencrypted at fixed offsets.
pub open spec fn entry_pokemon(e: Seq<u8>) -> Option<PokemonView> {
    if e.len() < ENTRY_BYTES {
        None
    } else {
        let pid = le_word(e, OFF_PID as int);
        let ot_id = le_word(e, OFF_OT_ID as int);
        if pid == 0 && ot_id == 0 {
            None
        } else {
            let block = xor_block(
                e.subrange(OFF_ENCRYPTED as int, OFF_ENCRYPTED + BLOCK_BYTES),
                pid ^ ot_id,
            );
            let order = (pid % ORDER_COUNT) as int;
            let g = 12 * order_slot(order, 0) as int;
            let a = 12 * order_slot(order, 1) as int;
            Some(
                PokemonView {
                    species: le_u16(block, g),
                    nickname: decoded(e.subrange(OFF_NICKNAME as int, OFF_NICKNAME + NICKNAME_LEN)),
                    level: e[OFF_LEVEL as int],
                    current_hp: le_u16(e, OFF_CURRENT_HP as int),
                    max_hp: le_u16(e, OFF_MAX_HP as int),
                    status: le_word(e, OFF_STATUS as int),
                    moves: seq![le_u16(block, a), le_u16(block, a + 2), le_u16(block, a + 4), le_u16(block, a + 6)],
                },
            )
        }
    }
}

/// The record in slot `i` of a party window, if the window holds all of it.
pub open spec fn slot_pokemon(party: Seq<u8>, i: int) -> Option<PokemonView> {
    if (i + 1) * ENTRY_BYTES <= party.len() {
        entry_pokemon(party.subrange(i * ENTRY_BYTES, (i + 1) * ENTRY_BYTES))
    } else {
        None
    }
}

/// The members in the first `n` slots, in slot order, empty slots left out.
pub open spec fn party_prefix(party: Seq<u8>, n: nat) -> Seq<PokemonView>
    decreases n,
{
    if n == 0 {
        Seq::empty()
    } else {
        let before = party_prefix(party, (n - 1) as nat);
        match slot_pokemon(party, n - 1) {
            Some(p) => before.push(p),
            None => before,
        }
    }
}

/// The party that a member count and the memory window of the party array describe:
/// the count is held to `PARTY_SIZE`.
pub open spec fn party_members(count: u32, party: Seq<u8>) -> Seq<PokemonView> {
    party_prefix(party, if count < PARTY_SIZE { count as nat } else { PARTY_SIZE as nat })
}

/// Decodes one party record.
pub fn decode_party_entry(entry: &[u8]) -> (r: Option<PartyPokemon>)
    ensures
        match r {
            Some(p) => entry_pokemon(entry@) == Some(p@),
            None => entry_pokemon(entry@) is None,
        },
{
    if entry.len() < ENTRY_BYTES {
        return None;
    }
    let pid = read_u32(entry, OFF_PID);
    let ot_id = read_u32(entry, OFF_OT_ID);
    if pid == 0 && ot_id == 0 {
        return None;
    }
    let nickname = decode_string(slice_subrange(entry, OFF_NICKNAME, OFF_NICKNAME + NICKNAME_LEN));
    let status = read_u32(entry, OFF_STATUS);
    let level = entry[OFF_LEVEL];
    let current_hp = read_u16(entry, OFF_CURRENT_HP);
    let max_hp = read_u16(entry, OFF_MAX_HP);

    let mut encrypted = [0u8; 48];
    let mut i: usize = 0;
    while i < BLOCK_BYTES
        invariant
            entry@.len() >= ENTRY_BYTES,
            i <= BLOCK_BYTES,
            encrypted@.len() == BLOCK_BYTES,
            forall|j: int| 0 <= j < i ==> #[trigger] encrypted@[j] == entry@[OFF_ENCRYPTED + j],
        decreases BLOCK_BYTES - i,
    {
        encrypted[i] = entry[OFF_ENCRYPTED + i];
        i = i + 1;
    }
    assert(encrypted@ =~= entry@.subrange(OFF_ENCRYPTED as int, OFF_ENCRYPTED + BLOCK_BYTES));
    let decrypted = decrypt_block(&encrypted, pid, ot_id);

    let growth = get_substructure(&decrypted, growth_slot(pid));
    let species = read_u16(growth, 0);
    let attacks = get_substructure(&decrypted, attacks_slot(pid));
    let moves = [read_u16(attacks, 0), read_u16(attacks, 2), read_u16(attacks, 4), read_u16(attacks, 6)];

    let r = PartyPokemon { species, nickname, level, current_hp, max_hp, status, moves };
    assert(r.moves@ =~= entry_pokemon(entry@)->Some_0.moves);
    Some(r)
}

/// Decodes the party from its member count and the memory window of its array.
pub fn decode_party(count: u32, party: &[u8]) -> (r: Vec<PartyPokemon>)
    ensures
        r@.map_values(|p: PartyPokemon| p@) == party_members(count, party@),
{
    let n: usize = if (count as u64) < PARTY_SIZE as u64 {
        count as usize
    } else {
        PARTY_SIZE
    };
    let mut out: Vec<PartyPokemon> = Vec::new();
    let mut i: usize = 0;
    while i < n
        invariant
            n <= PARTY_SIZE,
            n == (if count < PARTY_SIZE { count as nat } else { PARTY_SIZE as nat }),
            i <= n,
            out@.map_values(|p: PartyPokemon| p@) == party_prefix(party@, i as nat),
        decreases n - i,
    {
        let ghost before = out@;
        let start = i * ENTRY_BYTES;
        if start + ENTRY_BYTES <= party.len() {
            let entry = slice_subrange(party, start, start + ENTRY_BYTES);
            match decode_party_entry(entry) {
                Some(p) => {
                    out.push(p);
                    assert(out@.map_values(|p: PartyPokemon| p@) =~= before.map_values(
                        |p: PartyPokemon| p@,
                    ).push(p@));
                },
                None => {},
            }
        }
        i = i + 1;
    }
    out
}

} // verus!
