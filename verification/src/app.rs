//! The interaction state machine: what each input event does to the grid,
//! to the active brush and to the export status.
//!
//! The window toolkit draws, polls the pointer and writes files. Whenever it
//! sees an input it hands the matching `Event` to `App::update`, and carries
//! out the `Action` that comes back.

use vstd::prelude::*;
use crate::brush::{Brush, Layer, EMPTY};
use crate::export::ExportError;
use crate::grid::{GridModel, LevelEditor};
use crate::layout::{cell_at, spec_cell_at, spec_cell_start, CELL_SIZE, GRID_OFFSET};

verus! {

/// How the last export ended.
#[derive(Clone, Copy, Debug, PartialEq, Eq, Structural)]
pub enum Status {
    /// No export has finished yet.
    Ready,
    /// Both files were written.
    Exported,
    /// The export failed; the grid is untouched and editing goes on.
    ExportFailed(ExportError),
}

/// One input of the user, or the outcome of an action that was asked for.
#[derive(Clone, Copy, Debug, PartialEq, Eq)]
pub enum Event {
    /// A brush selector was clicked.
    BrushSelected(Brush),
    /// The export button was clicked.
    ExportClicked,
    /// The export that `Action::Export` asked for has ended.
    ExportFinished(Result<(), ExportError>),
    /// The primary button is held down with the pointer at `(x, y)`, in
    /// whole pixels from the top-left corner of the grid container.
    PointerHeld { x: i64, y: i64 },
    /// A primary click in the click region of the cell at `(row, col)`.
    CellClicked { row: usize, col: usize },
    /// A secondary click in the click region of the cell at `(row, col)`,
    /// with the modifier key held or not.
    CellSecondaryClicked { row: usize, col: usize, modifier: bool },
}

/// What the caller has to do after an event.
#[derive(Clone, Copy, Debug, PartialEq, Eq, Structural)]
pub enum Action {
    /// Nothing but to go on with the frame.
    Continue,
    /// Export the grid, write the two files, and report the outcome with
    /// `Event::ExportFinished`.
    Export,
}

/// The mathematical state of the editor.
pub struct AppModel {
    pub grid: GridModel,
    pub rows: nat,
    pub cols: nat,
    pub brush: Brush,
    pub status: Status,
}

impl AppModel {
    /// The state with another grid and everything else as it was.
    pub open spec fn with_grid(self, grid: GridModel) -> AppModel {
        AppModel { grid, rows: self.rows, cols: self.cols, brush: self.brush, status: self.status }
    }

    /// Whether `(row, col)` names a cell of the grid.
    pub open spec fn in_bounds(self, row: int, col: int) -> bool {
        0 <= row < self.rows && 0 <= col < self.cols
    }

    /// The state after one stroke of the active brush at `(row, col)`, or the
    /// same state where there is no such cell.
    pub open spec fn paint(self, row: int, col: int) -> AppModel {
        if self.in_bounds(row, col) {
            self.with_grid(self.grid.painted(self.brush, row, col))
        } else {
            self
        }
    }

    /// The state after `event`.
    pub open spec fn step(self, event: Event) -> AppModel {
        match event {
            Event::BrushSelected(brush) => AppModel {
                grid: self.grid,
                rows: self.rows,
                cols: self.cols,
                brush,
                status: self.status,
            },
            Event::ExportClicked => self,
            Event::ExportFinished(outcome) => AppModel {
                grid: self.grid,
                rows: self.rows,
                cols: self.cols,
                brush: self.brush,
                status: match outcome {
                    Ok(_) => Status::Exported,
                    Err(error) => Status::ExportFailed(error),
                },
            },
            Event::PointerHeld { x, y } => match spec_cell_at(x as int, y as int, self.rows, self.cols) {
                Some((row, col)) => self.paint(row, col),
                None => self,
            },
            Event::CellClicked { row, col } => self.paint(row as int, col as int),
            Event::CellSecondaryClicked { row, col, modifier } => if modifier && self.in_bounds(
                row as int,
                col as int,
            ) {
                self.with_grid(self.grid.cleared(row as int, col as int))
            } else {
                self
            },
        }
    }
}

/// What the caller has to do after `event`.
pub open spec fn spec_action(event: Event) -> Action {
    match event {
        Event::ExportClicked => Action::Export,
        _ => Action::Continue,
    }
}

/// No event changes the shape of the grid.
pub proof fn lemma_step_keeps_shape(model: AppModel, event: Event)
    requires
        model.grid.has_shape(model.rows, model.cols),
    ensures
        model.step(event).rows == model.rows,
        model.step(event).cols == model.cols,
        model.step(event).grid.has_shape(model.rows, model.cols),
{
}

/// A primary click on a cell and a drag over any point of that cell's square
/// paint alike.
pub proof fn lemma_drag_paints_as_click(model: AppModel, x: int, y: int, row: usize, col: usize)
    requires
        model.in_bounds(row as int, col as int),
        i64::MIN <= x <= i64::MAX,
        i64::MIN <= y <= i64::MAX,
        spec_cell_start(col as nat) <= x < spec_cell_start(col as nat) + CELL_SIZE,
        spec_cell_start(row as nat) <= y < spec_cell_start(row as nat) + CELL_SIZE,
    ensures
        model.step(Event::PointerHeld { x: x as i64, y: y as i64 }) == model.step(
            Event::CellClicked { row, col },
        ),
{
}

/// A secondary click with the modifier held empties both layers at the
/// cell, whatever brush is active, and leaves brush and status alone.
pub proof fn lemma_modified_secondary_click_clears(model: AppModel, row: usize, col: usize)
    requires
        model.grid.has_shape(model.rows, model.cols),
        model.in_bounds(row as int, col as int),
    ensures
        ({
            let after = model.step(Event::CellSecondaryClicked { row, col, modifier: true });
            &&& after.grid == model.grid.cleared(row as int, col as int)
            &&& after.grid.cell(Layer::Textures, row as int, col as int) == EMPTY
            &&& after.grid.cell(Layer::Entities, row as int, col as int) == EMPTY
            &&& after.brush == model.brush
            &&& after.status == model.status
        }),
{
}

/// A secondary click without the modifier does nothing.
pub proof fn lemma_plain_secondary_click_is_ignored(model: AppModel, row: usize, col: usize)
    ensures
        model.step(Event::CellSecondaryClicked { row, col, modifier: false }) == model,
{
}

/// A held pointer that is not inside the area of the grid (on its far
/// edges, in the margin or beyond) changes nothing.
pub proof fn lemma_pointer_outside_grid_changes_nothing(model: AppModel, x: i64, y: i64)
    requires
        !(GRID_OFFSET <= x < spec_cell_start(model.cols) && GRID_OFFSET <= y < spec_cell_start(
            model.rows,
        )),
    ensures
        model.step(Event::PointerHeld { x, y }) == model,
{
}

/// A click on a cell that the grid does not have changes nothing.
pub proof fn lemma_click_outside_grid_changes_nothing(
    model: AppModel,
    row: usize,
    col: usize,
    modifier: bool,
)
    requires
        !model.in_bounds(row as int, col as int),
    ensures
        model.step(Event::CellClicked { row, col }) == model,
        model.step(Event::CellSecondaryClicked { row, col, modifier }) == model,
{
}

/// An export, whether it is asked for, succeeds or fails, leaves the grid
/// and the brush as they are.
pub proof fn lemma_export_leaves_grid_alone(model: AppModel, outcome: Result<(), ExportError>)
    ensures
        model.step(Event::ExportClicked) == model,
        model.step(Event::ExportFinished(outcome)).grid == model.grid,
        model.step(Event::ExportFinished(outcome)).brush == model.brush,
{
}

/// The editor: the grid store, the active brush and the export status.
pub struct App {
    editor: LevelEditor,
    current_brush: Brush,
    status: Status,
}

impl View for App {
    type V = AppModel;

    closed spec fn view(&self) -> AppModel {
        AppModel {
            grid: self.editor@,
            rows: self.editor.spec_rows(),
            cols: self.editor.spec_cols(),
            brush: self.current_brush,
            status: self.status,
        }
    }
}

impl App {
    /// The invariant of the editor: its grid has the shape it was made with.
    pub closed spec fn wf(&self) -> bool {
        self.editor.wf()
    }

    /// Well-formedness seen from outside: the grid of the model has the
    /// model's shape.
    pub proof fn lemma_wf_shape(&self)
        requires
            self.wf(),
        ensures
            self@.grid.has_shape(self@.rows, self@.cols),
    {
    }

    /// An editor over `editor`, with `Wall` as the active brush.
    pub fn new(editor: LevelEditor) -> (app: App)
        requires
            editor.wf(),
        ensures
            app.wf(),
            app@ == (AppModel {
                grid: editor@,
                rows: editor.spec_rows(),
                cols: editor.spec_cols(),
                brush: Brush::Wall,
                status: Status::Ready,
            }),
    {
        App { editor, current_brush: Brush::Wall, status: Status::Ready }
    }

    /// The grid store, for drawing and for export.
    pub fn editor(&self) -> (editor: &LevelEditor)
        requires
            self.wf(),
        ensures
            editor.wf(),
            editor@ == self@.grid,
            editor.spec_rows() == self@.rows,
            editor.spec_cols() == self@.cols,
    {
        &self.editor
    }

    /// The active brush.
    pub fn current_brush(&self) -> (brush: Brush)
        ensures
            brush == self@.brush,
    {
        self.current_brush
    }

    /// How the last export ended.
    pub fn status(&self) -> (status: Status)
        ensures
            status == self@.status,
    {
        self.status
    }

    /// Takes one event: changes the state as `AppModel::step` says and
    /// tells the caller what to do next. No event can write outside the grid,
    /// and a failed export changes nothing but the status.
    pub fn update(&mut self, event: Event) -> (action: Action)
        requires
            old(self).wf(),
        ensures
            final(self).wf(),
            final(self)@ == old(self)@.step(event),
            action == spec_action(event),
    {
        match event {
            Event::BrushSelected(brush) => {
                self.current_brush = brush;
                Action::Continue
            },
            Event::ExportClicked => Action::Export,
            Event::ExportFinished(outcome) => {
                self.status = match outcome {
                    Ok(_) => Status::Exported,
                    Err(error) => Status::ExportFailed(error),
                };
                Action::Continue
            },
            Event::PointerHeld { x, y } => {
                match cell_at(x, y, self.editor.rows(), self.editor.cols()) {
                    Some((row, col)) => {
                        self.editor.apply_brush(self.current_brush, row, col);
                    },
                    None => {},
                }
                Action::Continue
            },
            Event::CellClicked { row, col } => {
                if row < self.editor.rows() && col < self.editor.cols() {
                    self.editor.apply_brush(self.current_brush, row, col);
                }
                Action::Continue
            },
            Event::CellSecondaryClicked { row, col, modifier } => {
                if modifier && row < self.editor.rows() && col < self.editor.cols() {
                    self.editor.clear_cell(row, col);
                }
                Action::Continue
            },
        }
    }
}

} // verus!
