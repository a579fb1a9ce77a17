use ascii_level_editor::app::{Action, App, Event, Status};
use ascii_level_editor::brush::{Brush, Layer};
use ascii_level_editor::export::ExportError;
use ascii_level_editor::grid::LevelEditor;

const BRUSHES: [Brush; 5] =
    [Brush::Wall, Brush::Enemy, Brush::Checkpoint, Brush::Fruit, Brush::Clear];

fn is_blank(app: &App) -> bool {
    let editor = app.editor();
    for row in 0..editor.rows() {
        for col in 0..editor.cols() {
            if editor.get(Layer::Textures, row, col) != ' '
                || editor.get(Layer::Entities, row, col) != ' '
            {
                return false;
            }
        }
    }
    true
}

#[test]
fn new_app_starts_with_wall_brush() {
    let app = App::new(LevelEditor::new(25, 25));
    assert_eq!(app.current_brush(), Brush::Wall);
    assert_eq!(app.status(), Status::Ready);
    assert_eq!(app.editor().rows(), 25);
    assert_eq!(app.editor().cols(), 25);
    assert!(is_blank(&app));
}

#[test]
fn selecting_a_brush_sets_it_exactly() {
    let mut app = App::new(LevelEditor::new(3, 3));
    for brush in BRUSHES {
        assert_eq!(app.update(Event::BrushSelected(brush)), Action::Continue);
        assert_eq!(app.current_brush(), brush);
        assert!(is_blank(&app));
    }
}

#[test]
fn click_paints_with_active_brush() {
    let mut app = App::new(LevelEditor::new(25, 25));
    app.update(Event::BrushSelected(Brush::Fruit));
    assert_eq!(app.update(Event::CellClicked { row: 7, col: 9 }), Action::Continue);
    assert_eq!(app.editor().get(Layer::Entities, 7, 9), '$');
    assert_eq!(app.editor().get(Layer::Textures, 7, 9), ' ');
    app.update(Event::BrushSelected(Brush::Checkpoint));
    app.update(Event::CellClicked { row: 7, col: 9 });
    assert_eq!(app.editor().get(Layer::Entities, 7, 9), '!');
}

#[test]
fn drag_paints_every_hovered_cell() {
    let mut app = App::new(LevelEditor::new(25, 25));
    for x in 15..90 {
        assert_eq!(app.update(Event::PointerHeld { x, y: 45 }), Action::Continue);
    }
    assert_eq!(app.editor().get(Layer::Textures, 1, 0), '#');
    assert_eq!(app.editor().get(Layer::Textures, 1, 1), '#');
    assert_eq!(app.editor().get(Layer::Textures, 1, 2), '#');
    assert_eq!(app.editor().get(Layer::Textures, 1, 3), ' ');
    assert_eq!(app.editor().get(Layer::Textures, 0, 0), ' ');
    assert_eq!(app.editor().get(Layer::Textures, 2, 0), ' ');
}

#[test]
fn drag_and_click_paint_alike() {
    for brush in BRUSHES {
        let mut dragged = App::new(LevelEditor::new(4, 4));
        let mut clicked = App::new(LevelEditor::new(4, 4));
        for app in [&mut dragged, &mut clicked] {
            app.update(Event::BrushSelected(Brush::Wall));
            app.update(Event::CellClicked { row: 2, col: 3 });
            app.update(Event::BrushSelected(Brush::Enemy));
            app.update(Event::CellClicked { row: 2, col: 3 });
            app.update(Event::BrushSelected(brush));
        }
        dragged.update(Event::PointerHeld { x: 15 + 3 * 25 + 7, y: 15 + 2 * 25 + 24 });
        clicked.update(Event::CellClicked { row: 2, col: 3 });
        for row in 0..4 {
            for col in 0..4 {
                for layer in [Layer::Textures, Layer::Entities] {
                    assert_eq!(
                        dragged.editor().get(layer, row, col),
                        clicked.editor().get(layer, row, col)
                    );
                }
            }
        }
    }
}

#[test]
fn pointer_on_far_edge_or_outside_paints_nothing() {
    let mut app = App::new(LevelEditor::new(25, 25));
    let outside = [
        (640, 100),
        (100, 640),
        (640, 640),
        (14, 14),
        (14, 100),
        (100, 14),
        (0, 0),
        (-1, -1),
        (-30, 100),
        (655, 655),
        (10_000, 10_000),
        (i64::MAX, 100),
        (100, i64::MIN),
    ];
    for (x, y) in outside {
        assert_eq!(app.update(Event::PointerHeld { x, y }), Action::Continue);
        assert!(is_blank(&app));
    }
}

#[test]
fn pointer_on_last_pixel_of_grid_paints_last_cell() {
    let mut app = App::new(LevelEditor::new(25, 25));
    app.update(Event::PointerHeld { x: 639, y: 639 });
    assert_eq!(app.editor().get(Layer::Textures, 24, 24), '#');
}

#[test]
fn pointer_on_first_pixel_of_grid_paints_first_cell() {
    let mut app = App::new(LevelEditor::new(25, 25));
    app.update(Event::PointerHeld { x: 15, y: 15 });
    assert_eq!(app.editor().get(Layer::Textures, 0, 0), '#');
}

#[test]
fn click_on_missing_cell_is_ignored() {
    let mut app = App::new(LevelEditor::new(25, 25));
    for (row, col) in [(25, 0), (0, 25), (25, 25), (usize::MAX, usize::MAX)] {
        assert_eq!(app.update(Event::CellClicked { row, col }), Action::Continue);
        assert_eq!(
            app.update(Event::CellSecondaryClicked { row, col, modifier: true }),
            Action::Continue
        );
        assert!(is_blank(&app));
    }
}

#[test]
fn modified_secondary_click_clears_under_every_brush() {
    for brush in BRUSHES {
        let mut app = App::new(LevelEditor::new(25, 25));
        app.update(Event::CellClicked { row: 4, col: 5 });
        app.update(Event::BrushSelected(Brush::Enemy));
        app.update(Event::CellClicked { row: 4, col: 5 });
        app.update(Event::CellClicked { row: 4, col: 6 });
        app.update(Event::BrushSelected(brush));

        let action = app.update(Event::CellSecondaryClicked { row: 4, col: 5, modifier: true });
        assert_eq!(action, Action::Continue);
        assert_eq!(app.editor().get(Layer::Textures, 4, 5), ' ');
        assert_eq!(app.editor().get(Layer::Entities, 4, 5), ' ');
        assert_eq!(app.editor().get(Layer::Entities, 4, 6), '&');
        assert_eq!(app.current_brush(), brush);
    }
}

#[test]
fn plain_secondary_click_does_nothing() {
    let mut app = App::new(LevelEditor::new(25, 25));
    app.update(Event::CellClicked { row: 1, col: 1 });
    app.update(Event::BrushSelected(Brush::Clear));
    app.update(Event::CellSecondaryClicked { row: 1, col: 1, modifier: false });
    assert_eq!(app.editor().get(Layer::Textures, 1, 1), '#');
}

#[test]
fn export_click_asks_for_export_and_changes_nothing() {
    let mut app = App::new(LevelEditor::new(25, 25));
    app.update(Event::CellClicked { row: 1, col: 1 });
    assert_eq!(app.update(Event::ExportClicked), Action::Export);
    assert_eq!(app.status(), Status::Ready);
    assert_eq!(app.current_brush(), Brush::Wall);
    assert_eq!(app.editor().get(Layer::Textures, 1, 1), '#');
}

#[test]
fn finished_export_sets_status() {
    let mut app = App::new(LevelEditor::new(25, 25));
    assert_eq!(app.update(Event::ExportFinished(Ok(()))), Action::Continue);
    assert_eq!(app.status(), Status::Exported);
}

#[test]
fn failed_export_is_reported_and_editing_goes_on() {
    let mut app = App::new(LevelEditor::new(25, 25));
    app.update(Event::CellClicked { row: 0, col: 0 });

    assert_eq!(app.update(Event::ExportFinished(Err(ExportError::Io))), Action::Continue);
    assert_eq!(app.status(), Status::ExportFailed(ExportError::Io));
    assert_eq!(app.editor().get(Layer::Textures, 0, 0), '#');

    app.update(Event::ExportFinished(Err(ExportError::Encode)));
    assert_eq!(app.status(), Status::ExportFailed(ExportError::Encode));

    app.update(Event::CellClicked { row: 0, col: 1 });
    assert_eq!(app.editor().get(Layer::Textures, 0, 1), '#');
    app.update(Event::ExportFinished(Ok(())));
    assert_eq!(app.status(), Status::Exported);
}
