use vstd::prelude::*;

use crate::text::{chars_of, spells};
use crate::types::Mode;

verus! {

/// A request to switch the arbitration mode.
pub struct SetModeRequest {
    pub mode: Mode,
}

/// Whether an `Authorization` header value presents `token` as a bearer token: it is
/// exactly `Bearer ` followed by the token.
pub fn bearer_matches(header: &str, token: &str) -> (r: bool)
    ensures
        r == (header@ == "Bearer "@ + token@),
{
    proof {
        reveal_strlit("Bearer ");
    }
    let cs = chars_of(header);
    if cs.len() < 7 {
        assert((("Bearer "@ + token@)).len() >= 7);
        return false;
    }
    let prefix_ok = spells(&cs, 0, 7, "Bearer ");
    let rest_ok = spells(&cs, 7, cs.len(), token);
    assert(header@ == "Bearer "@ + token@ <==> (header@.subrange(0, 7) == "Bearer "@ && header@.subrange(
        7,
        header@.len() as int,
    ) == token@)) by {
        if header@ == "Bearer "@ + token@ {
            assert(header@.subrange(0, 7) =~= "Bearer "@);
            assert(header@.subrange(7, header@.len() as int) =~= token@);
        }
        if header@.subrange(0, 7) == "Bearer "@ && header@.subrange(7, header@.len() as int) == token@ {
            assert(header@ =~= "Bearer "@ + token@);
        }
    }
    prefix_ok && rest_ok
}

} // verus!
