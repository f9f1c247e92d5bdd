use vstd::prelude::*;
use vstd::slice::slice_subrange;

verus! {

/// The size of the encrypted part of a record.
pub const BLOCK_BYTES: usize = 48;

/// The size of each of its four substructures.
pub const SUBSTRUCTURE_BYTES: usize = 12;

/// How many substructure orders there are.
pub const ORDER_COUNT: u32 = 24;

/// Order `i` of the substructures (`i` is the personality value mod 24): the slot that
/// holds the Growth, Attacks, EVs and Misc substructures, in that order. Each comment
/// spells the substructures slot by slot.
pub open spec fn order_row(i: int) -> (u8, u8, u8, u8) {
    if i == 0 {
        (0, 1, 2, 3)  // GAEM
    } else if i == 1 {
        (0, 1, 3, 2)  // GAME
    } else if i == 2 {
        (0, 2, 1, 3)  // GEAM
    } else if i == 3 {
        (0, 3, 1, 2)  // GEMA
    } else if i == 4 {
        (0, 2, 3, 1)  // GMAE
    } else if i == 5 {
        (0, 3, 2, 1)  // GMEA
    } else if i == 6 {
        (1, 0, 2, 3)  // AGEM
    } else if i == 7 {
        (1, 0, 3, 2)  // AGME
    } else if i == 8 {
        (2, 0, 1, 3)  // AEGM
    } else if i == 9 {
        (3, 0, 1, 2)  // AEMG
    } else if i == 10 {
        (2, 0, 3, 1)  // AMGE
    } else if i == 11 {
        (3, 0, 2, 1)  // AMEG
    } else if i == 12 {
        (1, 2, 0, 3)  // EGAM
    } else if i == 13 {
        (1, 3, 0, 2)  // EGMA
    } else if i == 14 {
        (2, 1, 0, 3)  // EAGM
    } else if i == 15 {
        (3, 1, 0, 2)  // EAMG
    } else if i == 16 {
        (2, 3, 0, 1)  // EMGA
    } else if i == 17 {
        (3, 2, 0, 1)  // EMAG
    } else if i == 18 {
        (1, 2, 3, 0)  // MGAE
    } else if i == 19 {
        (1, 3, 2, 0)  // MGEA
    } else if i == 20 {
        (2, 1, 3, 0)  // MAGE
    } else if i == 21 {
        (3, 1, 2, 0)  // MAEG
    } else if i == 22 {
        (2, 3, 1, 0)  // MEGA
    } else {
        (3, 2, 1, 0)  // MEAG
    }
}

/// The slot of substructure `sub` (0 Growth, 1 Attacks, 2 EVs, 3 Misc) in order `i`.
pub open spec fn order_slot(i: int, sub: int) -> u8 {
    let r = order_row(i);
    if sub == 0 {
        r.0
    } else if sub == 1 {
        r.1
    } else if sub == 2 {
        r.2
    } else {
        r.3
    }
}

fn order_row_of(i: u32) -> (r: (u8, u8, u8, u8))
    requires
        i < ORDER_COUNT,
    ensures
        r == order_row(i as int),
{
    match i {
        0 => (0, 1, 2, 3),
        1 => (0, 1, 3, 2),
        2 => (0, 2, 1, 3),
        3 => (0, 3, 1, 2),
        4 => (0, 2, 3, 1),
        5 => (0, 3, 2, 1),
        6 => (1, 0, 2, 3),
        7 => (1, 0, 3, 2),
        8 => (2, 0, 1, 3),
        9 => (3, 0, 1, 2),
        10 => (2, 0, 3, 1),
        11 => (3, 0, 2, 1),
        12 => (1, 2, 0, 3),
        13 => (1, 3, 0, 2),
        14 => (2, 1, 0, 3),
        15 => (3, 1, 0, 2),
        16 => (2, 3, 0, 1),
        17 => (3, 2, 0, 1),
        18 => (1, 2, 3, 0),
        19 => (1, 3, 2, 0),
        20 => (2, 1, 3, 0),
        21 => (3, 1, 2, 0),
        22 => (2, 3, 1, 0),
        _ => (3, 2, 1, 0),
    }
}

/// Row `index` of the order table, as slots of Growth, Attacks, EVs and Misc.
pub fn substructure_order(index: u32) -> (r: [u8; 4])
    requires
        index < ORDER_COUNT,
    ensures
        forall|k: int| 0 <= k < 4 ==> r@[k] == order_slot(index as int, k),
{
    let row = order_row_of(index);
    [row.0, row.1, row.2, row.3]
}

/// Every row of the order table places the four substructures in four different slots,
/// all among 0..4.
pub proof fn lemma_orders_are_permutations()
    ensures
        forall|i: int, a: int, b: int|
            0 <= i < ORDER_COUNT && 0 <= a < 4 && 0 <= b < 4 && a != b ==> order_slot(i, a)
                != order_slot(i, b),
        forall|i: int, a: int| 0 <= i < ORDER_COUNT && 0 <= a < 4 ==> order_slot(i, a) < 4,
{
}

/// The slot that holds the Growth substructure of a record with personality value
/// `pid`.
pub fn growth_slot(pid: u32) -> (r: u8)
    ensures
        r == order_slot((pid % ORDER_COUNT) as int, 0),
        r < 4,
{
    proof {
        lemma_orders_are_permutations();
    }
    order_row_of(pid % ORDER_COUNT).0
}

/// The slot that holds the Attacks substructure of a record with personality value
/// `pid`.
pub fn attacks_slot(pid: u32) -> (r: u8)
    ensures
        r == order_slot((pid % ORDER_COUNT) as int, 1),
        r < 4,
{
    proof {
        lemma_orders_are_permutations();
    }
    order_row_of(pid % ORDER_COUNT).1
}

/// Byte `k` (0 lowest) of a 32-bit key.
pub open spec fn key_byte(key: u32, k: int) -> u8 {
    if k == 0 {
        (key & 0xFF) as u8
    } else if k == 1 {
        ((key >> 8) & 0xFF) as u8
    } else if k == 2 {
        ((key >> 16) & 0xFF) as u8
    } else {
        ((key >> 24) & 0xFF) as u8
    }
}

/// The 32-bit little-endian word that starts at byte `i`.
pub open spec fn le_word(s: Seq<u8>, i: int) -> u32 {
    (s[i] as u32) | ((s[i + 1] as u32) << 8) | ((s[i + 2] as u32) << 16) | ((s[i + 3] as u32) << 24)
}

/// Each byte XOR-ed with the matching byte of `key`, word by word in little-endian
/// order.
pub open spec fn xor_block(s: Seq<u8>, key: u32) -> Seq<u8> {
    Seq::new(s.len(), |i: int| s[i] ^ key_byte(key, i % 4))
}

proof fn lemma_word_xor_bytes(b0: u8, b1: u8, b2: u8, b3: u8, key: u32)
    by (bit_vector)
    ensures
        ({
            let w = ((b0 as u32) | ((b1 as u32) << 8) | ((b2 as u32) << 16) | ((b3 as u32) << 24)) ^ key;
            &&& (w & 0xFF) as u8 == b0 ^ (key & 0xFF) as u8
            &&& ((w >> 8) & 0xFF) as u8 == b1 ^ ((key >> 8) & 0xFF) as u8
            &&& ((w >> 16) & 0xFF) as u8 == b2 ^ ((key >> 16) & 0xFF) as u8
            &&& ((w >> 24) & 0xFF) as u8 == b3 ^ ((key >> 24) & 0xFF) as u8
        }),
{
}

proof fn lemma_bytes_xor_word(b0: u8, b1: u8, b2: u8, b3: u8, key: u32)
    by (bit_vector)
    ensures
        ((b0 ^ (key & 0xFF) as u8) as u32) | (((b1 ^ ((key >> 8) & 0xFF) as u8) as u32) << 8) | (((b2
            ^ ((key >> 16) & 0xFF) as u8) as u32) << 16) | (((b3 ^ ((key >> 24) & 0xFF) as u8) as u32)
            << 24) == ((b0 as u32) | ((b1 as u32) << 8) | ((b2 as u32) << 16) | ((b3 as u32) << 24))
            ^ key,
{
}

proof fn lemma_xor_twice(b: u8, k: u8)
    by (bit_vector)
    ensures
        (b ^ k) ^ k == b,
{
}

/// Decrypts (or, the same way, encrypts) the 48-byte block of a record: every 32-bit
/// little-endian word is XOR-ed with `pid ^ ot_id`.
pub fn decrypt_block(encrypted: &[u8; 48], pid: u32, ot_id: u32) -> (r: [u8; 48])
    ensures
        r@ == xor_block(encrypted@, pid ^ ot_id),
{
    let key = pid ^ ot_id;
    let mut out = [0u8; 48];
    let mut i: usize = 0;
    while i < BLOCK_BYTES
        invariant
            i <= BLOCK_BYTES,
            i % 4 == 0,
            out@.len() == BLOCK_BYTES,
            forall|j: int| 0 <= j < i ==> #[trigger] out@[j] == encrypted@[j] ^ key_byte(key, j % 4),
        decreases BLOCK_BYTES - i,
    {
        let word = (encrypted[i] as u32) | ((encrypted[i + 1] as u32) << 8) | ((encrypted[i + 2] as u32)
            << 16) | ((encrypted[i + 3] as u32) << 24);
        let decrypted = word ^ key;
        proof {
            lemma_word_xor_bytes(encrypted@[i as int], encrypted@[i + 1], encrypted@[i + 2], encrypted@[i + 3], key);
        }
        out[i] = (decrypted & 0xFF) as u8;
        out[i + 1] = ((decrypted >> 8) & 0xFF) as u8;
        out[i + 2] = ((decrypted >> 16) & 0xFF) as u8;
        out[i + 3] = ((decrypted >> 24) & 0xFF) as u8;
        i = i + 4;
    }
    assert(out@ =~= xor_block(encrypted@, key));
    out
}

/// Decrypting twice with the same key gives the record back.
pub proof fn lemma_decrypt_self_inverse(record: Seq<u8>, key: u32)
    ensures
        xor_block(xor_block(record, key), key) == record,
{
    assert forall|i: int| 0 <= i < record.len() implies #[trigger] xor_block(xor_block(record, key), key)[i]
        == record[i] by {
        lemma_xor_twice(record[i], key_byte(key, i % 4));
    }
    assert(xor_block(xor_block(record, key), key) =~= record);
}

/// Word by word, the decrypted block is the encrypted one XOR-ed with the key.
pub proof fn lemma_xor_block_words(s: Seq<u8>, key: u32, w: int)
    requires
        0 <= w,
        4 * w + 4 <= s.len(),
    ensures
        le_word(xor_block(s, key), 4 * w) == le_word(s, 4 * w) ^ key,
{
    let x = xor_block(s, key);
    assert(x[4 * w] == s[4 * w] ^ key_byte(key, 0));
    assert(x[4 * w + 1] == s[4 * w + 1] ^ key_byte(key, 1));
    assert(x[4 * w + 2] == s[4 * w + 2] ^ key_byte(key, 2));
    assert(x[4 * w + 3] == s[4 * w + 3] ^ key_byte(key, 3));
    lemma_bytes_xor_word(s[4 * w], s[4 * w + 1], s[4 * w + 2], s[4 * w + 3], key);
}

/// The 12 bytes of substructure slot `slot`.
pub fn get_substructure(decrypted: &[u8; 48], slot: u8) -> (r: &[u8])
    requires
        slot < 4,
    ensures
        r@ == decrypted@.subrange(12 * slot as int, 12 * slot as int + 12),
{
    let start = slot as usize * SUBSTRUCTURE_BYTES;
    slice_subrange(decrypted.as_slice(), start, start + SUBSTRUCTURE_BYTES)
}

/// The 16-bit little-endian value that starts at byte `i`.
pub open spec fn le_u16(s: Seq<u8>, i: int) -> u16 {
    (s[i] as int + 256 * s[i + 1] as int) as u16
}

/// The 16-bit little-endian value at `offset`.
pub fn read_u16(sub: &[u8], offset: usize) -> (r: u16)
    requires
        offset + 2 <= sub@.len(),
    ensures
        r == le_u16(sub@, offset as int),
{
    sub[offset] as u16 + 256 * sub[offset + 1] as u16
}

/// The 32-bit little-endian value at `offset`.
pub fn read_u32(s: &[u8], offset: usize) -> (r: u32)
    requires
        offset + 4 <= s@.len(),
    ensures
        r == le_word(s@, offset as int),
{
    (s[offset] as u32) | ((s[offset + 1] as u32) << 8) | ((s[offset + 2] as u32) << 16) | ((s[offset
        + 3] as u32) << 24)
}

} // verus!
