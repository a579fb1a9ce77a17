//! The grid store: two character layers of equal dimensions that share one
//! coordinate space.

use vstd::prelude::*;
use crate::brush::{Brush, Layer, EMPTY};

verus! {

/// The mathematical content of a grid: each layer as a sequence of rows.
pub struct GridModel {
    pub textures: Seq<Seq<char>>,
    pub entities: Seq<Seq<char>>,
}

impl GridModel {
    /// The rows of one layer.
    pub open spec fn layer(self, layer: Layer) -> Seq<Seq<char>> {
        match layer {
            Layer::Textures => self.textures,
            Layer::Entities => self.entities,
        }
    }

    /// Both layers have `rows` rows of `cols` cells each.
    pub open spec fn has_shape(self, rows: nat, cols: nat) -> bool {
        &&& self.textures.len() == rows
        &&& self.entities.len() == rows
        &&& forall|r: int| 0 <= r < rows ==> (#[trigger] self.textures[r]).len() == cols
        &&& forall|r: int| 0 <= r < rows ==> (#[trigger] self.entities[r]).len() == cols
    }

    /// The value stored in `layer` at `(row, col)`.
    pub open spec fn cell(self, layer: Layer, row: int, col: int) -> char {
        self.layer(layer)[row][col]
    }

    /// A grid of the given shape in which every cell of both layers is empty.
    pub open spec fn blank(rows: nat, cols: nat) -> GridModel {
        GridModel {
            textures: Seq::new(rows, |r: int| Seq::new(cols, |c: int| EMPTY)),
            entities: Seq::new(rows, |r: int| Seq::new(cols, |c: int| EMPTY)),
        }
    }

    /// The grid with `value` at `(row, col)` of `layer` and every other cell,
    /// of either layer, as it was.
    pub open spec fn put(self, layer: Layer, row: int, col: int, value: char) -> GridModel {
        match layer {
            Layer::Textures => GridModel {
                textures: self.textures.update(row, self.textures[row].update(col, value)),
                entities: self.entities,
            },
            Layer::Entities => GridModel {
                textures: self.textures,
                entities: self.entities.update(row, self.entities[row].update(col, value)),
            },
        }
    }

    /// The grid with both layers empty at `(row, col)`.
    pub open spec fn cleared(self, row: int, col: int) -> GridModel {
        self.put(Layer::Textures, row, col, EMPTY).put(Layer::Entities, row, col, EMPTY)
    }

    /// The grid after one stroke of `brush` at `(row, col)`: the brush's
    /// symbol in each layer that the brush writes to.
    pub open spec fn painted(self, brush: Brush, row: int, col: int) -> GridModel {
        let after_textures = if brush.spec_writes(Layer::Textures) {
            self.put(Layer::Textures, row, col, brush.spec_symbol())
        } else {
            self
        };
        if brush.spec_writes(Layer::Entities) {
            after_textures.put(Layer::Entities, row, col, brush.spec_symbol())
        } else {
            after_textures
        }
    }

    /// The character drawn for the cell at `(row, col)`: the entity if there
    /// is one, else the texture, which is the empty character where the cell holds nothing.
    pub open spec fn glyph(self, row: int, col: int) -> char {
        if self.entities[row][col] != EMPTY {
            self.entities[row][col]
        } else {
            self.textures[row][col]
        }
    }
}

/// The grid store. Both layers are created once with a fixed shape and are
/// then only written cell by cell.
pub struct LevelEditor {
    textures: Vec<Vec<char>>,
    entities: Vec<Vec<char>>,
    cols: usize,
}

impl View for LevelEditor {
    type V = GridModel;

    closed spec fn view(&self) -> GridModel {
        GridModel {
            textures: Seq::new(self.textures@.len(), |r: int| self.textures@[r]@),
            entities: Seq::new(self.entities@.len(), |r: int| self.entities@[r]@),
        }
    }
}

impl LevelEditor {
    /// The number of rows of either layer.
    pub closed spec fn spec_rows(&self) -> nat {
        self.textures@.len()
    }

    /// The number of cells in every row of either layer.
    pub closed spec fn spec_cols(&self) -> nat {
        self.cols as nat
    }

    /// The invariant of the store: both layers have the same fixed shape.
    pub open spec fn wf(&self) -> bool {
        self@.has_shape(self.spec_rows(), self.spec_cols())
    }

    /// Whether `(row, col)` names a cell of the grid.
    pub open spec fn in_bounds(&self, row: int, col: int) -> bool {
        0 <= row < self.spec_rows() && 0 <= col < self.spec_cols()
    }

    /// A grid of `rows` by `cols` cells, all of them empty in both layers.
    pub fn new(rows: usize, cols: usize) -> (editor: LevelEditor)
        ensures
            editor.wf(),
            editor.spec_rows() == rows,
            editor.spec_cols() == cols,
            editor@ == GridModel::blank(rows as nat, cols as nat),
    {
        let textures = blank_layer(rows, cols);
        let entities = blank_layer(rows, cols);
        let editor = LevelEditor { textures, entities, cols };
        assert(editor@.textures =~= GridModel::blank(rows as nat, cols as nat).textures);
        assert(editor@.entities =~= GridModel::blank(rows as nat, cols as nat).entities);
        editor
    }

    /// The number of rows of either layer.
    pub fn rows(&self) -> (n: usize)
        ensures
            n == self.spec_rows(),
    {
        self.textures.len()
    }

    /// The number of cells in every row of either layer.
    pub fn cols(&self) -> (n: usize)
        ensures
            n == self.spec_cols(),
    {
        self.cols
    }

    /// The value stored in `layer` at `(row, col)`.
    pub fn get(&self, layer: Layer, row: usize, col: usize) -> (value: char)
        requires
            self.wf(),
            self.in_bounds(row as int, col as int),
        ensures
            value == self@.cell(layer, row as int, col as int),
    {
        match layer {
            Layer::Textures => {
                assert(self.textures@[row as int]@ == self@.textures[row as int]);
                self.textures[row][col]
            },
            Layer::Entities => {
                assert(self.entities@[row as int]@ == self@.entities[row as int]);
                self.entities[row][col]
            },
        }
    }

    /// Overwrites one cell of one layer; nothing else changes.
    pub fn set(&mut self, layer: Layer, row: usize, col: usize, value: char)
        requires
            old(self).wf(),
            old(self).in_bounds(row as int, col as int),
        ensures
            final(self).wf(),
            final(self).spec_rows() == old(self).spec_rows(),
            final(self).spec_cols() == old(self).spec_cols(),
            final(self)@ == old(self)@.put(layer, row as int, col as int, value),
    {
        match layer {
            Layer::Textures => {
                assert(self.textures@[row as int]@ == self@.textures[row as int]);
                self.textures[row][col] = value;
                assert(self@.textures =~= old(self)@.put(
                    layer,
                    row as int,
                    col as int,
                    value,
                ).textures);
            },
            Layer::Entities => {
                assert(self.entities@[row as int]@ == self@.entities[row as int]);
                self.entities[row][col] = value;
                assert(self@.entities =~= old(self)@.put(
                    layer,
                    row as int,
                    col as int,
                    value,
                ).entities);
            },
        }
    }

    /// Empties both layers at `(row, col)`, whatever they held.
    pub fn clear_cell(&mut self, row: usize, col: usize)
        requires
            old(self).wf(),
            old(self).in_bounds(row as int, col as int),
        ensures
            final(self).wf(),
            final(self).spec_rows() == old(self).spec_rows(),
            final(self).spec_cols() == old(self).spec_cols(),
            final(self)@ == old(self)@.cleared(row as int, col as int),
    {
        self.set(Layer::Textures, row, col, EMPTY);
        self.set(Layer::Entities, row, col, EMPTY);
    }

    /// Applies one stroke of `brush` at `(row, col)`. Clicking and dragging
    /// both paint through this one operation.
    pub fn apply_brush(&mut self, brush: Brush, row: usize, col: usize)
        requires
            old(self).wf(),
            old(self).in_bounds(row as int, col as int),
        ensures
            final(self).wf(),
            final(self).spec_rows() == old(self).spec_rows(),
            final(self).spec_cols() == old(self).spec_cols(),
            final(self)@ == old(self)@.painted(brush, row as int, col as int),
    {
        if brush.writes(Layer::Textures) {
            self.set(Layer::Textures, row, col, brush.symbol());
        }
        if brush.writes(Layer::Entities) {
            self.set(Layer::Entities, row, col, brush.symbol());
        }
    }

    /// The character to draw for the cell at `(row, col)`: an entity hides
    /// the texture underneath it.
    pub fn glyph(&self, row: usize, col: usize) -> (c: char)
        requires
            self.wf(),
            self.in_bounds(row as int, col as int),
        ensures
            c == self@.glyph(row as int, col as int),
    {
        let entity = self.get(Layer::Entities, row, col);
        if entity != EMPTY {
            entity
        } else {
            self.get(Layer::Textures, row, col)
        }
    }
}

/// A stroke keeps the shape of the grid, and reading a layer that the brush
/// writes to, at the cell of the stroke, gives the brush's symbol, whatever
/// the cell held before.
pub proof fn lemma_painted_reads_back(
    grid: GridModel,
    rows: nat,
    cols: nat,
    brush: Brush,
    layer: Layer,
    row: int,
    col: int,
)
    requires
        grid.has_shape(rows, cols),
        0 <= row < rows,
        0 <= col < cols,
        brush.spec_writes(layer),
    ensures
        grid.painted(brush, row, col).has_shape(rows, cols),
        grid.painted(brush, row, col).cell(layer, row, col) == brush.spec_symbol(),
{
}

/// A second stroke of the same brush at the same cell changes nothing.
pub proof fn lemma_painted_idempotent(
    grid: GridModel,
    rows: nat,
    cols: nat,
    brush: Brush,
    row: int,
    col: int,
)
    requires
        grid.has_shape(rows, cols),
        0 <= row < rows,
        0 <= col < cols,
    ensures
        grid.painted(brush, row, col).painted(brush, row, col) == grid.painted(brush, row, col),
{
    let once = grid.painted(brush, row, col);
    let twice = once.painted(brush, row, col);
    assert(twice.textures[row] =~= once.textures[row]);
    assert(twice.entities[row] =~= once.entities[row]);
    assert(twice.textures =~= once.textures);
    assert(twice.entities =~= once.entities);
}

/// A stroke touches nothing but its own cell, and there only the layers
/// that the brush writes to.
pub proof fn lemma_painted_frame(
    grid: GridModel,
    rows: nat,
    cols: nat,
    brush: Brush,
    row: int,
    col: int,
    layer: Layer,
    other_row: int,
    other_col: int,
)
    requires
        grid.has_shape(rows, cols),
        0 <= row < rows,
        0 <= col < cols,
        0 <= other_row < rows,
        0 <= other_col < cols,
        !brush.spec_writes(layer) || other_row != row || other_col != col,
    ensures
        grid.painted(brush, row, col).cell(layer, other_row, other_col) == grid.cell(
            layer,
            other_row,
            other_col,
        ),
{
}

/// The `Clear` brush empties both layers at its cell, whatever they held:
/// its stroke is the clearing of the cell.
pub proof fn lemma_clear_empties_both_layers(grid: GridModel, rows: nat, cols: nat, row: int, col: int)
    requires
        grid.has_shape(rows, cols),
        0 <= row < rows,
        0 <= col < cols,
    ensures
        grid.painted(Brush::Clear, row, col) == grid.cleared(row, col),
        grid.cleared(row, col).has_shape(rows, cols),
        grid.cleared(row, col).cell(Layer::Textures, row, col) == EMPTY,
        grid.cleared(row, col).cell(Layer::Entities, row, col) == EMPTY,
        grid.cleared(row, col).glyph(row, col) == EMPTY,
{
}

/// Display precedence: where a cell holds an entity, the entity is what is
/// drawn, whatever texture lies underneath.
pub proof fn lemma_glyph_entity_wins(
    grid: GridModel,
    rows: nat,
    cols: nat,
    row: int,
    col: int,
    texture: char,
)
    requires
        grid.has_shape(rows, cols),
        0 <= row < rows,
        0 <= col < cols,
        grid.cell(Layer::Entities, row, col) != EMPTY,
    ensures
        grid.glyph(row, col) == grid.cell(Layer::Entities, row, col),
        grid.put(Layer::Textures, row, col, texture).glyph(row, col) == grid.cell(
            Layer::Entities,
            row,
            col,
        ),
{
}

/// One layer of `rows` by `cols` empty cells.
fn blank_layer(rows: usize, cols: usize) -> (layer: Vec<Vec<char>>)
    ensures
        layer@.len() == rows,
        forall|r: int| 0 <= r < rows ==> (#[trigger] layer@[r])@ == Seq::new(cols as nat, |c: int| EMPTY),
{
    let mut layer: Vec<Vec<char>> = Vec::new();
    let mut r: usize = 0;
    while r < rows
        invariant
            r <= rows,
            layer@.len() == r,
            forall|i: int| 0 <= i < r ==> (#[trigger] layer@[i])@ == Seq::new(cols as nat, |c: int| EMPTY),
        decreases rows - r,
    {
        let mut row: Vec<char> = Vec::new();
        let mut c: usize = 0;
        while c < cols
            invariant
                c <= cols,
                row@.len() == c,
                forall|j: int| 0 <= j < c ==> row@[j] == EMPTY,
            decreases cols - c,
        {
            row.push(EMPTY);
            c += 1;
        }
        assert(row@ =~= Seq::new(cols as nat, |c: int| EMPTY));
        layer.push(row);
        r += 1;
    }
    layer
}

} // verus!
