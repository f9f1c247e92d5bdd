use stream_plays_emerald::gba_mem::charmap::{decode_char, decode_string};
use stream_plays_emerald::gba_mem::decrypt::{
    attacks_slot, decrypt_block, get_substructure, growth_slot, read_u16, read_u32,
    substructure_order,
};
use stream_plays_emerald::gba_mem::location::{decode_location, PlayerLocation};
use stream_plays_emerald::gba_mem::party::{decode_party, decode_party_entry, PartyPokemon};
use stream_plays_emerald::gba_mem::Gen3Game;

#[test]
fn test_decode_uppercase_a_to_z() {
    for (i, expected) in ('A'..='Z').enumerate() {
        let byte = 0xBBu8 + i as u8;
        assert_eq!(decode_char(byte), Some(expected), "byte 0x{byte:02X}");
    }
}

#[test]
fn test_decode_lowercase_a_to_z() {
    for (i, expected) in ('a'..='z').enumerate() {
        let byte = 0xD5u8 + i as u8;
        assert_eq!(decode_char(byte), Some(expected), "byte 0x{byte:02X}");
    }
}

#[test]
fn test_decode_digits_0_to_9() {
    for (i, expected) in ('0'..='9').enumerate() {
        let byte = 0xA1u8 + i as u8;
        assert_eq!(decode_char(byte), Some(expected), "byte 0x{byte:02X}");
    }
}

#[test]
fn test_terminator_returns_none() {
    assert_eq!(decode_char(0xFF), None);
}

#[test]
fn test_decode_string_stops_at_terminator() {
    // "Hi" followed by terminator and more data
    let bytes = [0xDC, 0xDD, 0xFF, 0xBB, 0xBC];
    assert_eq!(decode_string(&bytes), "hi");
}

#[test]
fn test_decode_string_full_without_terminator() {
    // "ABC"
    let bytes = [0xBB, 0xBC, 0xBD];
    assert_eq!(decode_string(&bytes), "ABC");
}

#[test]
fn test_decode_string_empty_on_immediate_terminator() {
    assert_eq!(decode_string(&[0xFF]), "");
}

#[test]
fn test_decode_gender_symbols() {
    assert_eq!(decode_char(0xB5), Some('♂'));
    assert_eq!(decode_char(0xB6), Some('♀'));
}

#[test]
fn unmapped_bytes_are_skipped() {
    assert_eq!(decode_char(0x09), None);
    assert_eq!(decode_char(0x51), None);
    assert_eq!(decode_string(&[0xBB, 0x09, 0xBC, 0x51]), "AB");
    assert_eq!(decode_string(&[]), "");
}

#[test]
fn symbols_decode() {
    assert_eq!(decode_char(0x00), Some('À'));
    assert_eq!(decode_char(0xAB), Some('!'));
    assert_eq!(decode_char(0xF0), Some(':'));
    assert_eq!(decode_char(0xF6), Some('ü'));
    assert_eq!(decode_char(0x34), Some('℃'));
}

#[test]
fn test_decrypt_with_zero_key() {
    let mut encrypted = [0u8; 48];
    encrypted[0] = 0xAB;
    encrypted[1] = 0xCD;
    encrypted[2] = 0xEF;
    encrypted[3] = 0x01;
    let decrypted = decrypt_block(&encrypted, 0, 0); // key = 0 ^ 0 = 0
    assert_eq!(&decrypted[0..4], &encrypted[0..4]);
}

#[test]
fn test_decrypt_xor_applied() {
    let mut encrypted = [0u8; 48];
    // word at offset 0 = 0x00000001
    encrypted[0] = 0x01;
    // key = 0xDEADBEEF ^ 0x00000000 = 0xDEADBEEF
    let decrypted = decrypt_block(&encrypted, 0xDEADBEEF, 0x00000000);
    let expected = (0x00000001u32 ^ 0xDEADBEEFu32).to_le_bytes();
    assert_eq!(&decrypted[0..4], &expected);
}

fn rand_byte() -> u8 {
    42 // deterministic stand-in
}

#[test]
fn test_decrypt_roundtrip() {
    // Encrypt then decrypt should recover original.
    let original = [0u8; 48].map(|_| rand_byte());
    let pid = 0x12345678u32;
    let ot_id = 0xABCDEF01u32;
    let encrypted = decrypt_block(&original, pid, ot_id); // XOR is its own inverse
    let recovered = decrypt_block(&encrypted, pid, ot_id);
    assert_eq!(original, recovered);
}

#[test]
fn decrypt_every_word_uses_the_key() {
    let mut block = [0u8; 48];
    for (i, b) in block.iter_mut().enumerate() {
        *b = i as u8;
    }
    let pid = 0x0102_0304u32;
    let ot_id = 0x1020_3040u32;
    let key = pid ^ ot_id;
    let out = decrypt_block(&block, pid, ot_id);
    for w in 0..12 {
        let word = u32::from_le_bytes([block[4 * w], block[4 * w + 1], block[4 * w + 2], block[4 * w + 3]]);
        let got = u32::from_le_bytes([out[4 * w], out[4 * w + 1], out[4 * w + 2], out[4 * w + 3]]);
        assert_eq!(got, word ^ key);
    }
    assert_ne!(out, block);
    assert_eq!(decrypt_block(&out, pid, ot_id), block);
}

#[test]
fn test_growth_slot_permutation_0() {
    // pid % 24 == 0 → GAEM, G is at slot 0
    assert_eq!(growth_slot(0), 0);
    assert_eq!(growth_slot(24), 0);
    assert_eq!(growth_slot(48), 0);
}

#[test]
fn test_growth_slot_permutation_6() {
    // pid % 24 == 6 → AGEM, G is at slot 1
    assert_eq!(growth_slot(6), 1);
}

#[test]
fn test_growth_slot_permutation_12() {
    // pid % 24 == 12 → EGAM: E@0, G@1, A@2, M@3
    assert_eq!(growth_slot(12), 1);
}

#[test]
fn test_attacks_slot_permutation_0() {
    // pid % 24 == 0 → GAEM, A is at slot 1
    assert_eq!(attacks_slot(0), 1);
}

#[test]
fn attacks_slot_in_other_orders() {
    // 9: AEMG, 23: MEAG
    assert_eq!(attacks_slot(9), 0);
    assert_eq!(attacks_slot(23), 2);
    assert_eq!(growth_slot(23), 3);
    assert_eq!(attacks_slot(24 + 23), 2);
}

#[test]
fn test_get_substructure_slot_0() {
    let mut block = [0u8; 48];
    block[0] = 0xAA;
    block[11] = 0xBB;
    let sub = get_substructure(&block, 0);
    assert_eq!(sub[0], 0xAA);
    assert_eq!(sub[11], 0xBB);
    assert_eq!(sub.len(), 12);
}

#[test]
fn test_get_substructure_slot_3() {
    let mut block = [0u8; 48];
    block[36] = 0xCC;
    let sub = get_substructure(&block, 3);
    assert_eq!(sub[0], 0xCC);
}

#[test]
fn test_all_24_growth_slots_valid() {
    for i in 0u32..24 {
        let slot = growth_slot(i);
        assert!(slot < 4, "growth_slot({i}) = {slot} out of range");
    }
}

#[test]
fn test_substructure_order_table_has_unique_slots_per_row() {
    for i in 0u32..24 {
        let row = substructure_order(i);
        let mut seen = [false; 4];
        for &slot in row.iter() {
            assert!(slot < 4, "row {i} has slot {slot} >= 4");
            assert!(!seen[slot as usize], "row {i} has duplicate slot {slot}");
            seen[slot as usize] = true;
        }
    }
}

#[test]
fn order_table_rows() {
    assert_eq!(substructure_order(0), [0, 1, 2, 3]);
    assert_eq!(substructure_order(13), [1, 3, 0, 2]);
    assert_eq!(substructure_order(23), [3, 2, 1, 0]);
}

#[test]
fn little_endian_reads() {
    let bytes = [0x34, 0x12, 0x78, 0x56, 0xFF];
    assert_eq!(read_u16(&bytes, 0), 0x1234);
    assert_eq!(read_u16(&bytes, 3), 0xFF56);
    assert_eq!(read_u32(&bytes, 0), 0x5678_1234);
}

#[test]
fn test_player_location_equality() {
    let a = PlayerLocation { map_bank: 1, map_num: 2, x: 0, y: 0 };
    let b = PlayerLocation { map_bank: 1, map_num: 2, x: 0, y: 0 };
    let c = PlayerLocation { map_bank: 1, map_num: 3, x: 0, y: 0 };
    assert_eq!(a, b);
    assert_ne!(a, c);
}

#[test]
fn location_decodes_from_save_block() {
    let block = [0x0A, 0x00, 0x03, 0x01, 0x02, 0x0E, 0x99];
    assert_eq!(
        decode_location(&block),
        Some(PlayerLocation { map_bank: 2, map_num: 14, x: 10, y: 0x103 })
    );
    assert_eq!(decode_location(&block[..5]), None);
}

#[test]
fn test_detect_emerald() {
    assert_eq!(Gen3Game::detect("BPEE"), Some(Gen3Game::Emerald));
    assert_eq!(Gen3Game::detect("BPEF"), Some(Gen3Game::Emerald));
}

#[test]
fn test_detect_ruby() {
    assert_eq!(Gen3Game::detect("AXVE"), Some(Gen3Game::Ruby));
}

#[test]
fn test_detect_sapphire() {
    assert_eq!(Gen3Game::detect("AXPE"), Some(Gen3Game::Sapphire));
}

#[test]
fn test_detect_firered() {
    assert_eq!(Gen3Game::detect("BPRE"), Some(Gen3Game::FireRed));
}

#[test]
fn test_detect_leafgreen() {
    assert_eq!(Gen3Game::detect("BPGE"), Some(Gen3Game::LeafGreen));
}

#[test]
fn test_detect_unknown() {
    assert_eq!(Gen3Game::detect("XXXX"), None);
    assert_eq!(Gen3Game::detect(""), None);
}

#[test]
fn detect_needs_three_characters() {
    assert_eq!(Gen3Game::detect("BP"), None);
    assert_eq!(Gen3Game::detect("BPE"), Some(Gen3Game::Emerald));
    assert_eq!(Gen3Game::detect("bpee"), None);
}

#[test]
fn test_party_addrs_emerald() {
    let (count, party) = Gen3Game::Emerald.party_addrs();
    assert_eq!(party, 0x020244EC);
    assert_eq!(count, party - 4);
}

#[test]
fn test_party_addrs_ruby_sapphire() {
    let (_, ruby) = Gen3Game::Ruby.party_addrs();
    let (_, sapphire) = Gen3Game::Sapphire.party_addrs();
    assert_eq!(ruby, 0x03004360);
    assert_eq!(sapphire, 0x03004360);
}

/// A party record with the given personality value and trainer id, whose Growth
/// substructure starts with `species` and whose Attacks substructure starts with
/// `moves`, laid out in the order the personality value selects and encrypted.
fn record(pid: u32, ot_id: u32, species: u16, moves: [u16; 4], hp: u16) -> Vec<u8> {
    let mut plain = [0u8; 48];
    let g = growth_slot(pid) as usize * 12;
    let a = attacks_slot(pid) as usize * 12;
    plain[g..g + 2].copy_from_slice(&species.to_le_bytes());
    for (k, m) in moves.iter().enumerate() {
        plain[a + 2 * k..a + 2 * k + 2].copy_from_slice(&m.to_le_bytes());
    }
    let encrypted = decrypt_block(&plain, pid, ot_id);
    let mut e = vec![0u8; 100];
    e[0..4].copy_from_slice(&pid.to_le_bytes());
    e[4..8].copy_from_slice(&ot_id.to_le_bytes());
    // "Mudkip" then the terminator
    let name = [0xC7, 0xE9, 0xD8, 0xDF, 0xDD, 0xE4, 0xFF, 0xBB, 0xBB, 0xBB];
    e[8..18].copy_from_slice(&name);
    e[0x20..0x50].copy_from_slice(&encrypted);
    e[0x50..0x54].copy_from_slice(&8u32.to_le_bytes());
    e[0x54] = 17;
    e[0x56..0x58].copy_from_slice(&hp.to_le_bytes());
    e[0x58..0x5A].copy_from_slice(&60u16.to_le_bytes());
    e
}

#[test]
fn party_entry_decodes_all_fields() {
    let pid = 0x0000_0011u32; // order 17: EMAG
    let e = record(pid, 0xBEEF_1234, 258, [33, 45, 55, 0], 42);
    let p = decode_party_entry(&e).expect("a filled slot");
    assert_eq!(p.species, 258);
    assert_eq!(p.moves, [33, 45, 55, 0]);
    assert_eq!(p.nickname, "Mudkip");
    assert_eq!(p.level, 17);
    assert_eq!(p.current_hp, 42);
    assert_eq!(p.max_hp, 60);
    assert_eq!(p.status, 8);
    assert!(!p.is_fainted());
}

#[test]
fn empty_slot_and_short_window_give_nothing() {
    let mut e = record(7, 9, 1, [1, 2, 3, 4], 10);
    e[0..8].copy_from_slice(&[0; 8]);
    assert!(decode_party_entry(&e).is_none());
    let full = record(7, 9, 1, [1, 2, 3, 4], 10);
    assert!(decode_party_entry(&full[..99]).is_none());
}

#[test]
fn party_skips_empty_slots_and_clamps_count() {
    let mut bytes = Vec::new();
    bytes.extend(record(1, 2, 100, [1, 0, 0, 0], 0));
    bytes.extend(vec![0u8; 100]);
    bytes.extend(record(30, 2, 300, [3, 0, 0, 0], 5));
    for i in 0..4u32 {
        bytes.extend(record(40 + i, 2, 400 + i as u16, [4, 0, 0, 0], 5));
    }
    let party: Vec<PartyPokemon> = decode_party(3, &bytes);
    assert_eq!(party.len(), 2);
    assert_eq!(party[0].species, 100);
    assert!(party[0].is_fainted());
    assert_eq!(party[1].species, 300);
    let all = decode_party(1000, &bytes);
    assert_eq!(all.len(), 5);
    assert_eq!(all[4].species, 402);
    assert_eq!(decode_party(0, &bytes).len(), 0);
    assert_eq!(decode_party(6, &bytes[..250]).len(), 1);
}
