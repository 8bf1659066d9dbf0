//! The level's tile grid: a rectangular 2D array of tile kinds, read-only
//! after load, answering total neighbor queries. A lookup outside the grid
//! returns `Empty` and never panics, so grid edges behave as if bordered by
//! open space.

use vstd::prelude::*;

use crate::errors::LoadError;
use crate::parse::spec_lines;
use crate::parse::spec_split;
use crate::parse::split_lines;
use crate::parse::split_on;
use crate::parse::str_to_chars;
use crate::tile::Tile;
use crate::tile::spec_tile_from_token;
use crate::tile::tile_from_chars;

verus! {

/// Largest accepted extent of a tile grid on either axis; keeps world
/// positions derived from grid coordinates within `COORD_LIMIT`.
pub const MAX_GRID: usize = 10_000;

/// A rectangular grid of tiles. `values[i][j]` is the tile in column `i`
/// (west to east) and row `j` (south to north). Constructed once per level
/// load and read-only thereafter. Every operation requires `wf()`, which
/// `TileGrid::new` establishes.
#[derive(Debug)]
pub struct TileGrid {
    pub values: Vec<Vec<Tile>>,
}

/// A well-shaped stack of columns: non-empty, rectangular, and within the
/// supported dimensions.
pub open spec fn columns_wf(columns: Seq<Seq<Tile>>) -> bool {
    &&& 1 <= columns.len() <= MAX_GRID
    &&& 1 <= columns[0].len() <= MAX_GRID
    &&& forall|i: int| 0 <= i < columns.len() ==> #[trigger] columns[i].len() == columns[0].len()
}

impl TileGrid {
    /// The grid as a sequence of columns of tiles.
    pub open spec fn tiles(self) -> Seq<Seq<Tile>> {
        self.values@.map_values(|column: Vec<Tile>| column@)
    }

    pub open spec fn wf(self) -> bool {
        columns_wf(self.tiles())
    }

    pub open spec fn spec_width(self) -> int {
        self.tiles().len() as int
    }

    pub open spec fn spec_height(self) -> int {
        self.tiles()[0].len() as int
    }

    /// Total tile lookup: the tile at `(i, j)` inside the grid, and `Empty`
    /// for any coordinates outside `[0, width) x [0, height)`.
    pub open spec fn tile(self, i: int, j: int) -> Tile {
        if 0 <= i < self.spec_width() && 0 <= j < self.spec_height() {
            self.tiles()[i][j]
        } else {
            Tile::Empty
        }
    }

    /// Validates the shape of a parsed grid: accepts exactly the non-empty
    /// rectangular grids within the supported dimensions, and keeps the tiles
    /// unchanged.
    pub fn new(values: Vec<Vec<Tile>>) -> (r: Result<TileGrid, LoadError>)
        ensures
            r is Ok <==> columns_wf(values@.map_values(|column: Vec<Tile>| column@)),
            r matches Ok(g) ==> g.wf() && g.tiles() == values@.map_values(
                |column: Vec<Tile>| column@,
            ),
            r is Err ==> r == Result::<TileGrid, LoadError>::Err(LoadError::BadShape),
    {
        if values.len() < 1 || values.len() > MAX_GRID {
            return Err(LoadError::BadShape);
        }
        let height: usize = values[0].len();
        proof {
            assert(values@.map_values(|column: Vec<Tile>| column@)[0].len() == height);
        }
        if height < 1 || height > MAX_GRID {
            return Err(LoadError::BadShape);
        }
        let mut i: usize = 1;
        while i < values.len()
            invariant
                1 <= i <= values@.len(),
                height == values@[0]@.len(),
                forall|k: int| 0 <= k < i ==> #[trigger] values@[k]@.len() == height,
            decreases values@.len() - i,
        {
            if values[i].len() != height {
                proof {
                    let columns = values@.map_values(|column: Vec<Tile>| column@);
                    assert(columns[i as int].len() != columns[0].len());
                }
                return Err(LoadError::BadShape);
            }
            i += 1;
        }
        proof {
            let columns = values@.map_values(|column: Vec<Tile>| column@);
            assert forall|k: int| 0 <= k < columns.len() implies #[trigger] columns[k].len()
                == columns[0].len() by {
                assert(values@[k]@.len() == height);
            }
        }
        Ok(TileGrid { values })
    }

    pub fn width(&self) -> (w: usize)
        requires
            self.wf(),
        ensures
            w == self.spec_width(),
    {
        self.values.len()
    }

    pub fn height(&self) -> (h: usize)
        requires
            self.wf(),
        ensures
            h == self.spec_height(),
    {
        self.values[0].len()
    }

    /// Total lookup; out-of-bounds coordinates answer `Empty`.
    pub fn tile_at(&self, i: usize, j: usize) -> (t: Tile)
        requires
            self.wf(),
        ensures
            t == self.tile(i as int, j as int),
    {
        if i < self.values.len() {
            let column = &self.values[i];
            if j < column.len() {
                column[j]
            } else {
                Tile::Empty
            }
        } else {
            Tile::Empty
        }
    }

    pub fn left(&self, i: usize, j: usize) -> (t: Tile)
        requires
            self.wf(),
        ensures
            t == self.tile(i as int - 1, j as int),
    {
        if i > 0 {
            self.tile_at(i - 1, j)
        } else {
            Tile::Empty
        }
    }

    pub fn right(&self, i: usize, j: usize) -> (t: Tile)
        requires
            self.wf(),
        ensures
            t == self.tile(i as int + 1, j as int),
    {
        if i < usize::MAX {
            self.tile_at(i + 1, j)
        } else {
            Tile::Empty
        }
    }

    pub fn below(&self, i: usize, j: usize) -> (t: Tile)
        requires
            self.wf(),
        ensures
            t == self.tile(i as int, j as int - 1),
    {
        if j > 0 {
            self.tile_at(i, j - 1)
        } else {
            Tile::Empty
        }
    }

    pub fn above(&self, i: usize, j: usize) -> (t: Tile)
        requires
            self.wf(),
        ensures
            t == self.tile(i as int, j as int + 1),
    {
        if j < usize::MAX {
            self.tile_at(i, j + 1)
        } else {
            Tile::Empty
        }
    }

    pub fn below_left(&self, i: usize, j: usize) -> (t: Tile)
        requires
            self.wf(),
        ensures
            t == self.tile(i as int - 1, j as int - 1),
    {
        if i > 0 && j > 0 {
            self.tile_at(i - 1, j - 1)
        } else {
            Tile::Empty
        }
    }

    pub fn below_right(&self, i: usize, j: usize) -> (t: Tile)
        requires
            self.wf(),
        ensures
            t == self.tile(i as int + 1, j as int - 1),
    {
        if i < usize::MAX && j > 0 {
            self.tile_at(i + 1, j - 1)
        } else {
            Tile::Empty
        }
    }

    pub fn above_left(&self, i: usize, j: usize) -> (t: Tile)
        requires
            self.wf(),
        ensures
            t == self.tile(i as int - 1, j as int + 1),
    {
        if i > 0 && j < usize::MAX {
            self.tile_at(i - 1, j + 1)
        } else {
            Tile::Empty
        }
    }

    pub fn above_right(&self, i: usize, j: usize) -> (t: Tile)
        requires
            self.wf(),
        ensures
            t == self.tile(i as int + 1, j as int + 1),
    {
        if i < usize::MAX && j < usize::MAX {
            self.tile_at(i + 1, j + 1)
        } else {
            Tile::Empty
        }
    }
}

/// The tile grid named by a grid of tokens, or the first failure: `Ok`
/// exactly when every token names a tile kind.
pub open spec fn spec_convert_tokens(tokens: Seq<Seq<Seq<char>>>) -> Result<Seq<Seq<Tile>>, ()> {
    if forall|i: int, j: int|
        0 <= i < tokens.len() && 0 <= j < tokens[i].len() ==> #[trigger] spec_tile_from_token(
            tokens[i][j],
        ) is Ok {
        Ok(
            Seq::new(
                tokens.len(),
                |i: int|
                    Seq::new(
                        tokens[i].len(),
                        |j: int| spec_tile_from_token(tokens[i][j]).unwrap(),
                    ),
            ),
        )
    } else {
        Err(())
    }
}

/// Turns a grid of textual tokens into a grid of tiles; any unknown token
/// fails the whole conversion.
pub fn convert_map_text_to_tiles(map_str_from_file: Vec<Vec<&str>>) -> (r: Result<
    Vec<Vec<Tile>>,
    (),
>)
    ensures
        r is Ok <==> spec_convert_tokens(map_str_from_file.deep_view()) is Ok,
        r matches Ok(tiles) ==> tiles@.map_values(|column: Vec<Tile>| column@)
            == spec_convert_tokens(map_str_from_file.deep_view()).unwrap(),
{
    let ghost toks: Seq<Seq<Seq<char>>> = map_str_from_file.deep_view();
    let mut out: Vec<Vec<Tile>> = Vec::new();
    let mut i: usize = 0;
    while i < map_str_from_file.len()
        invariant
            toks == map_str_from_file.deep_view(),
            i <= map_str_from_file@.len(),
            toks.len() == map_str_from_file@.len(),
            forall|k: int| 0 <= k < i ==> toks[k].len() == #[trigger] map_str_from_file@[k]@.len(),
            out@.len() == i,
            forall|k: int, j: int|
                0 <= k < i && 0 <= j < toks[k].len() ==> #[trigger] spec_tile_from_token(
                    toks[k][j],
                ) is Ok,
            forall|k: int| 0 <= k < i ==> #[trigger] out@[k]@.len() == toks[k].len(),
            forall|k: int, j: int|
                0 <= k < i && 0 <= j < toks[k].len() ==> #[trigger] out@[k]@[j]
                    == spec_tile_from_token(toks[k][j]).unwrap(),
        decreases map_str_from_file@.len() - i,
    {
        let column = &map_str_from_file[i];
        let mut tiles: Vec<Tile> = Vec::new();
        let mut j: usize = 0;
        assert(toks[i as int] == column.deep_view());
        while j < column.len()
            invariant
                toks == map_str_from_file.deep_view(),
                toks.len() == map_str_from_file@.len(),
                0 <= i < toks.len(),
                toks[i as int] == column.deep_view(),
                toks[i as int].len() == column@.len(),
                j <= column@.len(),
                tiles@.len() == j,
                forall|l: int|
                    0 <= l < j ==> #[trigger] spec_tile_from_token(toks[i as int][l]) is Ok,
                forall|l: int|
                    0 <= l < j ==> #[trigger] tiles@[l] == spec_tile_from_token(
                        toks[i as int][l],
                    ).unwrap(),
            decreases column@.len() - j,
        {
            assert(toks[i as int][j as int] == column@[j as int]@);
            assert(toks[i as int][j as int] == column.deep_view()[j as int]);
            match Tile::from_str(column[j]) {
                Ok(t) => {
                    tiles.push(t);
                },
                Err(()) => {
                    proof {
                        assert(spec_tile_from_token(toks[i as int][j as int]) is Err);
                        assert(spec_convert_tokens(toks) is Err) by {
                            if spec_convert_tokens(toks) is Ok {
                                assert(spec_tile_from_token(toks[i as int][j as int]) is Ok);
                            }
                        }
                    }
                    return Err(());
                },
            }
            j += 1;
        }
        out.push(tiles);
        i += 1;
    }
    proof {
        let converted = spec_convert_tokens(toks);
        assert(converted is Ok);
        assert(out@.map_values(|column: Vec<Tile>| column@) =~~= converted.unwrap());
    }
    Ok(out)
}

/// The tile grid written by a level description: lines of space-separated
/// tokens, each naming a tile kind; any unknown token fails the whole read.
pub open spec fn spec_read_map(s: Seq<char>) -> Result<Seq<Seq<Tile>>, ()> {
    spec_convert_tokens(spec_lines(s).map_values(|l: Seq<char>| spec_split(l, ' ')))
}

/// Decodes a level description into a grid of tiles, as `spec_read_map`
/// describes: one line per grid column, tokens separated by single spaces.
/// The shape of the grid is not validated here; `TileGrid::new` is.
pub fn read_map_from_file(map: &str) -> (r: Result<Vec<Vec<Tile>>, ()>)
    ensures
        r is Ok <==> spec_read_map(map@) is Ok,
        r matches Ok(tiles) ==> tiles@.map_values(|column: Vec<Tile>| column@) == spec_read_map(
            map@,
        ).unwrap(),
{
    let ghost toks: Seq<Seq<Seq<char>>> = spec_lines(map@).map_values(
        |l: Seq<char>| spec_split(l, ' '),
    );
    let chars = str_to_chars(map);
    let line_vecs = split_lines(&chars);
    let mut out: Vec<Vec<Tile>> = Vec::new();
    let mut i: usize = 0;
    while i < line_vecs.len()
        invariant
            toks == spec_lines(map@).map_values(|l: Seq<char>| spec_split(l, ' ')),
            line_vecs@.map_values(|piece: Vec<char>| piece@) == spec_lines(map@),
            i <= line_vecs@.len(),
            toks.len() == line_vecs@.len(),
            out@.len() == i,
            forall|k: int, j: int|
                0 <= k < i && 0 <= j < toks[k].len() ==> #[trigger] spec_tile_from_token(
                    toks[k][j],
                ) is Ok,
            forall|k: int| 0 <= k < i ==> #[trigger] out@[k]@.len() == toks[k].len(),
            forall|k: int, j: int|
                0 <= k < i && 0 <= j < toks[k].len() ==> #[trigger] out@[k]@[j]
                    == spec_tile_from_token(toks[k][j]).unwrap(),
        decreases line_vecs@.len() - i,
    {
        proof {
            assert(line_vecs@.map_values(|piece: Vec<char>| piece@)[i as int] == spec_lines(
                map@,
            )[i as int]);
        }
        let tokens = split_on(&line_vecs[i], ' ');
        assert(tokens@.map_values(|piece: Vec<char>| piece@) == toks[i as int]);
        let mut tiles: Vec<Tile> = Vec::new();
        let mut j: usize = 0;
        while j < tokens.len()
            invariant
                toks == spec_lines(map@).map_values(|l: Seq<char>| spec_split(l, ' ')),
                0 <= i < toks.len(),
                tokens@.map_values(|piece: Vec<char>| piece@) == toks[i as int],
                toks[i as int].len() == tokens@.len(),
                j <= tokens@.len(),
                tiles@.len() == j,
                forall|l: int|
                    0 <= l < j ==> #[trigger] spec_tile_from_token(toks[i as int][l]) is Ok,
                forall|l: int|
                    0 <= l < j ==> #[trigger] tiles@[l] == spec_tile_from_token(
                        toks[i as int][l],
                    ).unwrap(),
            decreases tokens@.len() - j,
        {
            proof {
                assert(tokens@.map_values(|piece: Vec<char>| piece@)[j as int] == toks[i as int][j as int]);
            }
            match tile_from_chars(&tokens[j]) {
                Ok(t) => {
                    tiles.push(t);
                },
                Err(()) => {
                    proof {
                        assert(spec_tile_from_token(toks[i as int][j as int]) is Err);
                        assert(spec_convert_tokens(toks) is Err) by {
                            if spec_convert_tokens(toks) is Ok {
                                assert(spec_tile_from_token(toks[i as int][j as int]) is Ok);
                            }
                        }
                    }
                    return Err(());
                },
            }
            j += 1;
        }
        out.push(tiles);
        i += 1;
    }
    proof {
        let converted = spec_convert_tokens(toks);
        assert(converted is Ok);
        assert(out@.map_values(|column: Vec<Tile>| column@) =~~= converted.unwrap());
    }
    Ok(out)
}

} // verus!
