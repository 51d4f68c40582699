//! The kinds of texture that tiles are drawn with.

use vstd::prelude::*;

verus! {

/// A texture of the tile atlas.
#[derive(Debug, Clone, Copy, PartialEq, Eq, Structural, Hash)]
pub enum TileType {
    Grass,
    Stone,
    Shadow,
}

impl TileType {
    /// The place of the texture in lists that hold one entry per texture.
    pub open spec fn place(self) -> nat {
        match self {
            TileType::Grass => 0,
            TileType::Stone => 1,
            TileType::Shadow => 2,
        }
    }

    /// The name of the texture.
    pub open spec fn spec_name(self) -> Seq<char> {
        match self {
            TileType::Grass => "Grass"@,
            TileType::Stone => "Stone"@,
            TileType::Shadow => "Shadow"@,
        }
    }

    /// The path of the image that holds the texture: its name in lower case
    /// under `tiles/`.
    pub open spec fn spec_texture_path(self) -> Seq<char> {
        match self {
            TileType::Grass => "tiles/grass.png"@,
            TileType::Stone => "tiles/stone.png"@,
            TileType::Shadow => "tiles/shadow.png"@,
        }
    }

    /// The place of the texture in lists that hold one entry per texture.
    pub fn index(self) -> (place: usize)
        ensures
            place == self.place(),
            place < 3,
    {
        match self {
            TileType::Grass => 0,
            TileType::Stone => 1,
            TileType::Shadow => 2,
        }
    }

    /// Every texture, in the order of their places.
    pub fn all() -> (types: Vec<TileType>)
        ensures
            types@ == seq![TileType::Grass, TileType::Stone, TileType::Shadow],
            forall|i: int| 0 <= i < types@.len() ==> (#[trigger] types@[i]).place() == i,
    {
        let mut types: Vec<TileType> = Vec::new();
        types.push(TileType::Grass);
        types.push(TileType::Stone);
        types.push(TileType::Shadow);
        assert(types@ =~= seq![TileType::Grass, TileType::Stone, TileType::Shadow]);
        types
    }

    /// The name of the texture.
    pub fn name(self) -> (name: &'static str)
        ensures
            name@ == self.spec_name(),
    {
        match self {
            TileType::Grass => "Grass",
            TileType::Stone => "Stone",
            TileType::Shadow => "Shadow",
        }
    }

    /// The path of the image that holds the texture.
    pub fn texture_path(self) -> (path: &'static str)
        ensures
            path@ == self.spec_texture_path(),
    {
        match self {
            TileType::Grass => "tiles/grass.png",
            TileType::Stone => "tiles/stone.png",
            TileType::Shadow => "tiles/shadow.png",
        }
    }
}

} // verus!
