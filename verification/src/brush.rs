//! Layers and brushes: what a paint stroke writes, and where.

use vstd::prelude::*;

verus! {

/// The character that stands for an empty cell in either layer.
pub const EMPTY: char = ' ';

/// One of the two parallel character layers of the grid.
#[derive(Clone, Copy, Debug, PartialEq, Eq, Structural)]
pub enum Layer {
    /// Static tiles such as walls.
    Textures,
    /// Overlays drawn on top of the tiles.
    Entities,
}

/// The paint operation that a click or a drag applies to a cell.
#[derive(Clone, Copy, Debug, PartialEq, Eq, Structural)]
pub enum Brush {
    Wall,
    Enemy,
    Checkpoint,
    Fruit,
    Clear,
}

impl Brush {
    /// The character that the brush leaves in every layer it writes to.
    pub open spec fn spec_symbol(self) -> char {
        match self {
            Brush::Wall => '#',
            Brush::Enemy => '&',
            Brush::Checkpoint => '!',
            Brush::Fruit => '$',
            Brush::Clear => EMPTY,
        }
    }

    /// Whether the brush writes to `layer`. `Clear` writes to both layers,
    /// every other brush to exactly one.
    pub open spec fn spec_writes(self, layer: Layer) -> bool {
        match self {
            Brush::Wall => layer == Layer::Textures,
            Brush::Enemy | Brush::Checkpoint | Brush::Fruit => layer == Layer::Entities,
            Brush::Clear => true,
        }
    }

    #[verifier::when_used_as_spec(spec_symbol)]
    pub fn symbol(self) -> (c: char)
        ensures
            c == self.spec_symbol(),
    {
        match self {
            Brush::Wall => '#',
            Brush::Enemy => '&',
            Brush::Checkpoint => '!',
            Brush::Fruit => '$',
            Brush::Clear => EMPTY,
        }
    }

    #[verifier::when_used_as_spec(spec_writes)]
    pub fn writes(self, layer: Layer) -> (b: bool)
        ensures
            b == self.spec_writes(layer),
    {
        match self {
            Brush::Wall => layer == Layer::Textures,
            Brush::Enemy | Brush::Checkpoint | Brush::Fruit => layer == Layer::Entities,
            Brush::Clear => true,
        }
    }
}

/// Every brush writes to at least one layer, and only `Clear` leaves the
/// empty character behind.
pub proof fn lemma_brush_table(brush: Brush)
    ensures
        brush.writes(Layer::Textures) || brush.writes(Layer::Entities),
        brush.symbol() == EMPTY <==> brush == Brush::Clear,
        brush != Brush::Clear ==> !(brush.writes(Layer::Textures) && brush.writes(
            Layer::Entities,
        )),
{
}

} // verus!
