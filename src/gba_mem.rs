use vstd::prelude::*;

use crate::text::{chars_of, spells};

pub mod charmap;
pub mod decrypt;
pub mod location;
pub mod party;

verus! {

/// A third-generation game, told apart by the game code in its ROM header.
#[derive(Debug, Clone, Copy, PartialEq, Eq, Structural)]
pub enum Gen3Game {
    Emerald,
    Ruby,
    Sapphire,
    FireRed,
    LeafGreen,
}

/// The game whose code starts with the first three characters of `code` (the fourth
/// gives the region and does not matter).
pub open spec fn game_of_code(code: Seq<char>) -> Option<Gen3Game> {
    if code.len() < 3 {
        None
    } else {
        let p = code.take(3);
        if p == "BPE"@ {
            Some(Gen3Game::Emerald)
        } else if p == "AXV"@ {
            Some(Gen3Game::Ruby)
        } else if p == "AXP"@ {
            Some(Gen3Game::Sapphire)
        } else if p == "BPR"@ {
            Some(Gen3Game::FireRed)
        } else if p == "BPG"@ {
            Some(Gen3Game::LeafGreen)
        } else {
            None
        }
    }
}

/// The address of the party array of a game.
pub open spec fn party_base(g: Gen3Game) -> u32 {
    match g {
        Gen3Game::Emerald => 0x020244EC,
        Gen3Game::Ruby => 0x03004360,
        Gen3Game::Sapphire => 0x03004360,
        Gen3Game::FireRed => 0x02024284,
        Gen3Game::LeafGreen => 0x02024284,
    }
}

impl Gen3Game {
    /// Detects the game from its ROM header game code; `None` for any other game.
    pub fn detect(game_code: &str) -> (r: Option<Self>)
        ensures
            r == game_of_code(game_code@),
    {
        let cs = chars_of(game_code);
        if cs.len() < 3 {
            return None;
        }
        assert(cs@.subrange(0, 3) =~= game_code@.take(3));
        if spells(&cs, 0, 3, "BPE") {
            Some(Gen3Game::Emerald)
        } else if spells(&cs, 0, 3, "AXV") {
            Some(Gen3Game::Ruby)
        } else if spells(&cs, 0, 3, "AXP") {
            Some(Gen3Game::Sapphire)
        } else if spells(&cs, 0, 3, "BPR") {
            Some(Gen3Game::FireRed)
        } else if spells(&cs, 0, 3, "BPG") {
            Some(Gen3Game::LeafGreen)
        } else {
            None
        }
    }

    /// The address of the party count (a 32-bit word just before the array) and of the
    /// party array.
    pub fn party_addrs(self) -> (r: (u32, u32))
        ensures
            r == ((party_base(self) - 4) as u32, party_base(self)),
    {
        let party: u32 = match self {
            Gen3Game::Emerald => 0x020244EC,
            Gen3Game::Ruby => 0x03004360,
            Gen3Game::Sapphire => 0x03004360,
            Gen3Game::FireRed => 0x02024284,
            Gen3Game::LeafGreen => 0x02024284,
        };
        (party - 4, party)
    }
}

} // verus!
