//! Tile kinds of the level grid and the textual tokens that name them in a
//! level description.

use vstd::prelude::*;
use vstd::string::StrSliceExecFns;

verus! {

/// One cell of the level grid. A tile is immutable once loaded; its identity
/// is its grid position. `Blue` is a stationary hazard, `Jeremy` patrols
/// horizontally, `Blocky` patrols vertically.
#[derive(Clone, Copy, Debug, PartialEq, Eq, Structural)]
pub enum Tile {
    Empty,
    Ground,
    Win,
    Player,
    Rival,
    Blue,
    Jeremy,
    Blocky,
}

/// Side of one grid tile in thousandths of a world unit.
pub const TILE_SIZE: i64 = 18_000;

/// Whether a tile's art connects to a neighboring tile's art: only ground
/// joins with ground.
pub open spec fn spec_connects_to(tile: Tile, other: Tile) -> bool {
    tile is Ground && other is Ground
}

/// The tile kind named by a token of the level description, or `Err` for an
/// unknown token.
pub open spec fn spec_tile_from_token(s: Seq<char>) -> Result<Tile, ()> {
    if s == "Tile::Empty"@ {
        Ok(Tile::Empty)
    } else if s == "Tile::Ground"@ {
        Ok(Tile::Ground)
    } else if s == "Tile::Win"@ {
        Ok(Tile::Win)
    } else if s == "Tile::Player"@ {
        Ok(Tile::Player)
    } else if s == "Tile::Rival"@ {
        Ok(Tile::Rival)
    } else if s == "Tile::Blue"@ {
        Ok(Tile::Blue)
    } else if s == "Tile::Jeremy"@ {
        Ok(Tile::Jeremy)
    } else if s == "Tile::Blocky"@ {
        Ok(Tile::Blocky)
    } else {
        Err(())
    }
}

impl Tile {
    pub fn connects_to(self, other: Tile) -> (b: bool)
        ensures
            b == spec_connects_to(self, other),
    {
        match (self, other) {
            (Tile::Ground, Tile::Ground) => true,
            (_, _) => false,
        }
    }

    /// Parses one token of the level description; an unknown token is an
    /// error, never silently substituted by a tile kind.
    pub fn from_str(input: &str) -> (r: Result<Tile, ()>)
        ensures
            r == spec_tile_from_token(input@),
    {
        if str_eq(input, "Tile::Empty") {
            Ok(Tile::Empty)
        } else if str_eq(input, "Tile::Ground") {
            Ok(Tile::Ground)
        } else if str_eq(input, "Tile::Win") {
            Ok(Tile::Win)
        } else if str_eq(input, "Tile::Player") {
            Ok(Tile::Player)
        } else if str_eq(input, "Tile::Rival") {
            Ok(Tile::Rival)
        } else if str_eq(input, "Tile::Blue") {
            Ok(Tile::Blue)
        } else if str_eq(input, "Tile::Jeremy") {
            Ok(Tile::Jeremy)
        } else if str_eq(input, "Tile::Blocky") {
            Ok(Tile::Blocky)
        } else {
            Err(())
        }
    }
}

/// Compares an already decoded character run against a string, so that
/// contracts can speak of string views directly.
pub fn chars_eq_str(v: &Vec<char>, lit: &str) -> (r: bool)
    ensures
        r == (v@ == lit@),
{
    let n: usize = lit.unicode_len();
    if v.len() != n {
        assert(v@ != lit@) by {
            assert(v@.len() != lit@.len());
        }
        return false;
    }
    let mut i: usize = 0;
    while i < n
        invariant
            n == lit@.len() == v@.len(),
            i <= n,
            forall|j: int| 0 <= j < i ==> v@[j] == lit@[j],
        decreases n - i,
    {
        if v[i] != lit.get_char(i) {
            return false;
        }
        i += 1;
    }
    proof {
        assert(v@ =~= lit@);
    }
    true
}

/// `Tile::from_str` over an already decoded character run.
pub fn tile_from_chars(token: &Vec<char>) -> (r: Result<Tile, ()>)
    ensures
        r == spec_tile_from_token(token@),
{
    if chars_eq_str(token, "Tile::Empty") {
        Ok(Tile::Empty)
    } else if chars_eq_str(token, "Tile::Ground") {
        Ok(Tile::Ground)
    } else if chars_eq_str(token, "Tile::Win") {
        Ok(Tile::Win)
    } else if chars_eq_str(token, "Tile::Player") {
        Ok(Tile::Player)
    } else if chars_eq_str(token, "Tile::Rival") {
        Ok(Tile::Rival)
    } else if chars_eq_str(token, "Tile::Blue") {
        Ok(Tile::Blue)
    } else if chars_eq_str(token, "Tile::Jeremy") {
        Ok(Tile::Jeremy)
    } else if chars_eq_str(token, "Tile::Blocky") {
        Ok(Tile::Blocky)
    } else {
        Err(())
    }
}

/// Character-by-character string comparison, so that contracts can speak of
/// string views directly.
pub fn str_eq(a: &str, b: &str) -> (r: bool)
    ensures
        r == (a@ == b@),
{
    let la: usize = a.unicode_len();
    let lb: usize = b.unicode_len();
    if la != lb {
        assert(a@ != b@) by {
            assert(a@.len() != b@.len());
        }
        return false;
    }
    let mut i: usize = 0;
    while i < la
        invariant
            la == a@.len() == b@.len(),
            i <= la,
            forall|j: int| 0 <= j < i ==> a@[j] == b@[j],
        decreases la - i,
    {
        if a.get_char(i) != b.get_char(i) {
            return false;
        }
        i += 1;
    }
    proof {
        assert(a@ =~= b@);
    }
    true
}

} // verus!
