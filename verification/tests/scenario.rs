use ascii_level_editor::app::{Action, App, Event};
use ascii_level_editor::brush::{Brush, Layer};
use ascii_level_editor::grid::LevelEditor;

#[test]
fn wall_then_enemy_then_modified_secondary_click() {
    let mut app = App::new(LevelEditor::new(25, 25));

    assert_eq!(app.update(Event::CellClicked { row: 0, col: 0 }), Action::Continue);
    assert_eq!(app.editor().get(Layer::Textures, 0, 0), '#');

    app.update(Event::BrushSelected(Brush::Enemy));
    app.update(Event::CellClicked { row: 0, col: 0 });
    assert_eq!(app.editor().get(Layer::Entities, 0, 0), '&');
    assert_eq!(app.editor().get(Layer::Textures, 0, 0), '#');
    assert_eq!(app.editor().glyph(0, 0), '&');

    app.update(Event::CellSecondaryClicked { row: 0, col: 0, modifier: true });
    assert_eq!(app.editor().get(Layer::Textures, 0, 0), ' ');
    assert_eq!(app.editor().get(Layer::Entities, 0, 0), ' ');
}
