use game_of_life::canvas::{frame, react, CanvasAction, Reaction, Square, CELL_SIZE};
use game_of_life::{CanvasMessage, Universe};

#[test]
fn cell_size_is_four_pixels() {
    assert_eq!(CELL_SIZE, 4);
}

#[test]
fn idle_message_does_nothing() {
    let u = Universe::new(64, 64);
    assert_eq!(
        react(&u, CanvasMessage::Idle),
        Reaction { action: CanvasAction::Skip, redraw: false }
    );
}

#[test]
fn created_message_sizes_the_canvas() {
    let u = Universe::new(64, 48);
    assert_eq!(
        react(&u, CanvasMessage::UniverseCreated),
        Reaction { action: CanvasAction::Configure { width: 256, height: 192 }, redraw: true }
    );
}

#[test]
fn render_message_paints() {
    let u = Universe::new(3, 3);
    assert_eq!(
        react(&u, CanvasMessage::Render),
        Reaction { action: CanvasAction::Paint, redraw: false }
    );
}

#[test]
fn frame_lists_the_live_cells_row_by_row() {
    let u = Universe::from_cells(3, 2, vec![0, 1, 0, 1, 0, 1]).unwrap();
    assert_eq!(
        frame(&u),
        vec![
            Square { x: 4, y: 0, side: 4 },
            Square { x: 0, y: 4, side: 4 },
            Square { x: 8, y: 4, side: 4 },
        ]
    );
}

#[test]
fn frame_of_a_dead_grid_is_empty() {
    let u = Universe::from_cells(4, 4, vec![0; 16]).unwrap();
    assert!(frame(&u).is_empty());
}

#[test]
fn frame_of_a_live_grid_has_every_square() {
    let u = Universe::from_cells(2, 2, vec![1; 4]).unwrap();
    assert_eq!(
        frame(&u),
        vec![
            Square { x: 0, y: 0, side: 4 },
            Square { x: 4, y: 0, side: 4 },
            Square { x: 0, y: 4, side: 4 },
            Square { x: 4, y: 4, side: 4 },
        ]
    );
}
