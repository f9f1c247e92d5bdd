use vstd::prelude::*;

use crate::text::push_char;

verus! {

/// The international character set of the third-generation games: the character each
/// byte stands for, if any. Letters and digits occupy three contiguous runs; the rest
/// is listed one by one. The terminator 0xFF and the unassigned bytes have none.
pub open spec fn gen3_char(b: u8) -> Option<char> {
    if 0xBB <= b <= 0xD4 {
        Some(((b - 0xBB + 0x41) as u8) as char)
    } else if 0xD5 <= b <= 0xEE {
        Some(((b - 0xD5 + 0x61) as u8) as char)
    } else if 0xA1 <= b <= 0xAA {
        Some(((b - 0xA1 + 0x30) as u8) as char)
    } else {
        gen3_symbol(b)
    }
}

/// The bytes outside the letter and digit runs that stand for a character.
pub open spec fn gen3_symbol(b: u8) -> Option<char> {
    match b {
        0x00 => Some('À'),
        0x01 => Some('Á'),
        0x02 => Some('Â'),
        0x03 => Some('Ç'),
        0x04 => Some('È'),
        0x05 => Some('É'),
        0x06 => Some('Ê'),
        0x07 => Some('Ë'),
        0x08 => Some('Ì'),
        0x0A => Some('Î'),
        0x0B => Some('Ï'),
        0x0C => Some('Ò'),
        0x0D => Some('Ó'),
        0x0E => Some('Ô'),
        0x10 => Some('Œ'),
        0x11 => Some('Ù'),
        0x12 => Some('Ú'),
        0x13 => Some('Û'),
        0x14 => Some('Ñ'),
        0x15 => Some('ß'),
        0x16 => Some('à'),
        0x17 => Some('á'),
        0x18 => Some('ç'),
        0x19 => Some('è'),
        0x1A => Some('é'),
        0x1B => Some('ê'),
        0x1C => Some('ë'),
        0x1D => Some('ì'),
        0x20 => Some('î'),
        0x21 => Some('ï'),
        0x22 => Some('ò'),
        0x23 => Some('ó'),
        0x24 => Some('ô'),
        0x25 => Some('œ'),
        0x26 => Some('ù'),
        0x27 => Some('ú'),
        0x28 => Some('û'),
        0x29 => Some('ñ'),
        0x2A => Some('º'),
        0x2B => Some('ª'),
        0x2D => Some('&'),
        0x2E => Some('+'),
        0x34 => Some('℃'),
        0x35 => Some('='),
        0x36 => Some(';'),
        0x46 => Some('¿'),
        0x47 => Some('¡'),
        0x4D => Some('Í'),
        0x4E => Some('%'),
        0x4F => Some('('),
        0x50 => Some(')'),
        0xAB => Some('!'),
        0xAC => Some('?'),
        0xAD => Some('.'),
        0xAE => Some('-'),
        0xB5 => Some('♂'),
        0xB6 => Some('♀'),
        0xB7 => Some('$'),
        0xB8 => Some(','),
        0xB9 => Some('×'),
        0xBA => Some('/'),
        0xEF => Some('►'),
        0xF0 => Some(':'),
        0xF1 => Some('Ä'),
        0xF2 => Some('Ö'),
        0xF3 => Some('Ü'),
        0xF4 => Some('ä'),
        0xF5 => Some('ö'),
        0xF6 => Some('ü'),
        _ => None,
    }
}

/// The string terminator.
pub const TERMINATOR: u8 = 0xFF;

/// The characters a byte window decodes to: each byte before the first terminator that
/// stands for a character gives that character; the other bytes give nothing.
pub open spec fn decoded(s: Seq<u8>) -> Seq<char>
    decreases s.len(),
{
    if s.len() == 0 || s[0] == TERMINATOR {
        Seq::empty()
    } else {
        match gen3_char(s[0]) {
            Some(c) => seq![c] + decoded(s.drop_first()),
            None => decoded(s.drop_first()),
        }
    }
}

pub fn decode_char(byte: u8) -> (r: Option<char>)
    ensures
        r == gen3_char(byte),
{
    match byte {
        0x00 => Some('À'),
        0x01 => Some('Á'),
        0x02 => Some('Â'),
        0x03 => Some('Ç'),
        0x04 => Some('È'),
        0x05 => Some('É'),
        0x06 => Some('Ê'),
        0x07 => Some('Ë'),
        0x08 => Some('Ì'),
        0x0A => Some('Î'),
        0x0B => Some('Ï'),
        0x0C => Some('Ò'),
        0x0D => Some('Ó'),
        0x0E => Some('Ô'),
        0x10 => Some('Œ'),
        0x11 => Some('Ù'),
        0x12 => Some('Ú'),
        0x13 => Some('Û'),
        0x14 => Some('Ñ'),
        0x15 => Some('ß'),
        0x16 => Some('à'),
        0x17 => Some('á'),
        0x18 => Some('ç'),
        0x19 => Some('è'),
        0x1A => Some('é'),
        0x1B => Some('ê'),
        0x1C => Some('ë'),
        0x1D => Some('ì'),
        0x20 => Some('î'),
        0x21 => Some('ï'),
        0x22 => Some('ò'),
        0x23 => Some('ó'),
        0x24 => Some('ô'),
        0x25 => Some('œ'),
        0x26 => Some('ù'),
        0x27 => Some('ú'),
        0x28 => Some('û'),
        0x29 => Some('ñ'),
        0x2A => Some('º'),
        0x2B => Some('ª'),
        0x2D => Some('&'),
        0x2E => Some('+'),
        0x34 => Some('℃'),
        0x35 => Some('='),
        0x36 => Some(';'),
        0x46 => Some('¿'),
        0x47 => Some('¡'),
        0x4D => Some('Í'),
        0x4E => Some('%'),
        0x4F => Some('('),
        0x50 => Some(')'),
        0xA1 => Some('0'),
        0xA2 => Some('1'),
        0xA3 => Some('2'),
        0xA4 => Some('3'),
        0xA5 => Some('4'),
        0xA6 => Some('5'),
        0xA7 => Some('6'),
        0xA8 => Some('7'),
        0xA9 => Some('8'),
        0xAA => Some('9'),
        0xAB => Some('!'),
        0xAC => Some('?'),
        0xAD => Some('.'),
        0xAE => Some('-'),
        0xB5 => Some('♂'),
        0xB6 => Some('♀'),
        0xB7 => Some('$'),
        0xB8 => Some(','),
        0xB9 => Some('×'),
        0xBA => Some('/'),
        0xBB => Some('A'),
        0xBC => Some('B'),
        0xBD => Some('C'),
        0xBE => Some('D'),
        0xBF => Some('E'),
        0xC0 => Some('F'),
        0xC1 => Some('G'),
        0xC2 => Some('H'),
        0xC3 => Some('I'),
        0xC4 => Some('J'),
        0xC5 => Some('K'),
        0xC6 => Some('L'),
        0xC7 => Some('M'),
        0xC8 => Some('N'),
        0xC9 => Some('O'),
        0xCA => Some('P'),
        0xCB => Some('Q'),
        0xCC => Some('R'),
        0xCD => Some('S'),
        0xCE => Some('T'),
        0xCF => Some('U'),
        0xD0 => Some('V'),
        0xD1 => Some('W'),
        0xD2 => Some('X'),
        0xD3 => Some('Y'),
        0xD4 => Some('Z'),
        0xD5 => Some('a'),
        0xD6 => Some('b'),
        0xD7 => Some('c'),
        0xD8 => Some('d'),
        0xD9 => Some('e'),
        0xDA => Some('f'),
        0xDB => Some('g'),
        0xDC => Some('h'),
        0xDD => Some('i'),
        0xDE => Some('j'),
        0xDF => Some('k'),
        0xE0 => Some('l'),
        0xE1 => Some('m'),
        0xE2 => Some('n'),
        0xE3 => Some('o'),
        0xE4 => Some('p'),
        0xE5 => Some('q'),
        0xE6 => Some('r'),
        0xE7 => Some('s'),
        0xE8 => Some('t'),
        0xE9 => Some('u'),
        0xEA => Some('v'),
        0xEB => Some('w'),
        0xEC => Some('x'),
        0xED => Some('y'),
        0xEE => Some('z'),
        0xEF => Some('►'),
        0xF0 => Some(':'),
        0xF1 => Some('Ä'),
        0xF2 => Some('Ö'),
        0xF3 => Some('Ü'),
        0xF4 => Some('ä'),
        0xF5 => Some('ö'),
        0xF6 => Some('ü'),
        _ => None,
    }
}

/// Decodes a fixed-length window, stopping at the first terminator.
pub fn decode_string(bytes: &[u8]) -> (r: String)
    ensures
        r@ == decoded(bytes@),
{
    let mut out = String::new();
    let mut i: usize = 0;
    assert(bytes@.subrange(0, bytes@.len() as int) =~= bytes@);
    assert(out@ + decoded(bytes@) =~= decoded(bytes@));
    while i < bytes.len()
        invariant
            i <= bytes@.len(),
            decoded(bytes@) == out@ + decoded(bytes@.subrange(i as int, bytes@.len() as int)),
        decreases bytes@.len() - i,
    {
        let ghost rest = bytes@.subrange(i as int, bytes@.len() as int);
        assert(rest.drop_first() =~= bytes@.subrange(i + 1, bytes@.len() as int));
        let b = bytes[i];
        if b == TERMINATOR {
            assert(decoded(rest) == Seq::<char>::empty());
            assert(out@ + Seq::<char>::empty() =~= out@);
            return out;
        }
        match decode_char(b) {
            Some(c) => {
                let ghost before = out@;
                push_char(&mut out, c);
                assert(before + (seq![c] + decoded(rest.drop_first())) =~= out@ + decoded(rest.drop_first()));
            },
            None => {},
        }
        i = i + 1;
    }
    assert(bytes@.subrange(i as int, bytes@.len() as int) =~= Seq::<u8>::empty());
    assert(out@ + Seq::<char>::empty() =~= out@);
    out
}

} // verus!
