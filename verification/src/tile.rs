//! The buffers in which the storage engine hands over the cells of a
//! batch of rows.

use vstd::prelude::*;

verus! {

/// One buffer of a field.
#[derive(Clone, Debug)]
pub struct Tile {
    pub data: Vec<u8>,
}

impl View for Tile {
    type V = Seq<u8>;

    open spec fn view(&self) -> Seq<u8> {
        self.data@
    }
}

impl Tile {
    /// Returns the bytes of this buffer.
    pub fn as_slice(&self) -> (slice: &[u8])
        ensures
            slice@ == self@,
    {
        self.data.as_slice()
    }

    /// Returns the number of bytes in this buffer.
    pub fn size(&self) -> (size: u64)
        ensures
            size == self@.len(),
    {
        self.data.len() as u64
    }
}

/// The buffers of one field.
///
/// The fixed buffer holds the values, or for a field of variable-size cells
/// the byte offsets of the cells. The var buffer is there for such a field
/// only and holds the values. The validity buffer holds one byte for each
/// cell, zero for null, and is there if the field has nulls in these rows.
#[derive(Clone, Debug)]
pub struct TileTuple {
    pub fixed_tile: Tile,
    pub var_tile: Option<Tile>,
    pub validity_tile: Option<Tile>,
}

impl TileTuple {
    /// The bytes of the var buffer, if there is one.
    pub open spec fn spec_var(&self) -> Option<Seq<u8>> {
        match self.var_tile {
            Some(t) => Some(t@),
            None => None,
        }
    }

    /// The bytes of the validity buffer, if there is one.
    pub open spec fn spec_validity(&self) -> Option<Seq<u8>> {
        match self.validity_tile {
            Some(t) => Some(t@),
            None => None,
        }
    }

    /// Returns the fixed buffer.
    pub fn fixed_tile(&self) -> (tile: &Tile)
        ensures
            tile == &self.fixed_tile,
    {
        &self.fixed_tile
    }

    /// Returns the var buffer, if there is one.
    pub fn var_tile(&self) -> (tile: Option<&Tile>)
        ensures
            match tile {
                Some(t) => self.spec_var() == Some(t@),
                None => self.spec_var() is None,
            },
    {
        match &self.var_tile {
            Some(t) => Some(t),
            None => None,
        }
    }

    /// Returns the validity buffer, if there is one.
    pub fn validity_tile(&self) -> (tile: Option<&Tile>)
        ensures
            match tile {
                Some(t) => self.spec_validity() == Some(t@),
                None => self.spec_validity() is None,
            },
    {
        match &self.validity_tile {
            Some(t) => Some(t),
            None => None,
        }
    }
}

/// The buffers of the field of a name.
#[derive(Clone, Debug)]
pub struct NamedTileTuple {
    pub name: String,
    pub tuple: TileTuple,
}

/// The first index at or after `start` of the buffers of the field called
/// `name`.
pub open spec fn find_tile(tiles: Seq<NamedTileTuple>, name: Seq<char>, start: int) -> Option<int>
    decreases tiles.len() - start,
{
    if start < 0 || start >= tiles.len() {
        None
    } else if tiles[start].name@ == name {
        Some(start)
    } else {
        find_tile(tiles, name, start + 1)
    }
}

/// The buffers of a batch of rows, for the fields which have data in them.
#[derive(Clone, Debug)]
pub struct ResultTile {
    /// The number of rows.
    pub cell_num: u64,
    pub tiles: Vec<NamedTileTuple>,
}

impl ResultTile {
    /// Returns the number of rows.
    pub fn cell_num(&self) -> (cell_num: u64)
        ensures
            cell_num == self.cell_num,
    {
        self.cell_num
    }

    /// The buffers of the field called `name`, if it has data in these rows.
    pub open spec fn spec_tile_tuple(&self, name: Seq<char>) -> Option<TileTuple> {
        match find_tile(self.tiles@, name, 0) {
            Some(i) => Some(self.tiles@[i].tuple),
            None => None,
        }
    }

    /// Returns the buffers of the field called `name`, or `None` if the
    /// field has no data in these rows.
    pub fn tile_tuple(&self, name: &String) -> (tuple: Option<&TileTuple>)
        ensures
            match tuple {
                Some(t) => self.spec_tile_tuple(name@) == Some(*t),
                None => self.spec_tile_tuple(name@) is None,
            },
    {
        let mut i: usize = 0;
        while i < self.tiles.len()
            invariant
                i <= self.tiles@.len(),
                find_tile(self.tiles@, name@, 0) == find_tile(self.tiles@, name@, i as int),
            decreases self.tiles@.len() - i,
        {
            if self.tiles[i].name == *name {
                return Some(&self.tiles[i].tuple);
            }
            i += 1;
        }
        None
    }
}

} // verus!
