use hecto::cursor::Location;
use hecto::editor::Editor;
use hecto::event::KeyCode;
use hecto::terminal::Size;

const TEST_SIZE: Size = Size {
    height: 24,
    width: 80,
};

fn loc(x: usize, y: usize) -> Location {
    Location { x, y }
}

#[test]
fn move_up_from_origin_stays_at_zero() {
    let result = Editor::calculate_movement(loc(0, 0), KeyCode::Up, TEST_SIZE);
    assert_eq!(result.y, 0);
}

#[test]
fn move_up_decrements_y() {
    let result = Editor::calculate_movement(loc(5, 10), KeyCode::Up, TEST_SIZE);
    assert_eq!(result.y, 9);
    assert_eq!(result.x, 5);
}

#[test]
fn move_down_increments_y() {
    let result = Editor::calculate_movement(loc(5, 10), KeyCode::Down, TEST_SIZE);
    assert_eq!(result.y, 11);
    assert_eq!(result.x, 5);
}

#[test]
fn move_down_clamps_to_bottom() {
    let result = Editor::calculate_movement(loc(0, 23), KeyCode::Down, TEST_SIZE);
    assert_eq!(result.y, 23);
}

#[test]
fn move_left_from_origin_stays_at_zero() {
    let result = Editor::calculate_movement(loc(0, 0), KeyCode::Left, TEST_SIZE);
    assert_eq!(result.x, 0);
}

#[test]
fn move_left_decrements_x() {
    let result = Editor::calculate_movement(loc(5, 0), KeyCode::Left, TEST_SIZE);
    assert_eq!(result.x, 4);
}

#[test]
fn move_right_increments_x() {
    let result = Editor::calculate_movement(loc(5, 0), KeyCode::Right, TEST_SIZE);
    assert_eq!(result.x, 6);
}

#[test]
fn move_right_clamps_to_width() {
    let result = Editor::calculate_movement(loc(79, 0), KeyCode::Right, TEST_SIZE);
    assert_eq!(result.x, 79);
}

#[test]
fn page_up_jumps_to_top() {
    let result = Editor::calculate_movement(loc(5, 15), KeyCode::PageUp, TEST_SIZE);
    assert_eq!(result.y, 0);
    assert_eq!(result.x, 5);
}

#[test]
fn page_down_jumps_to_bottom() {
    let result = Editor::calculate_movement(loc(5, 0), KeyCode::PageDown, TEST_SIZE);
    assert_eq!(result.y, 23);
    assert_eq!(result.x, 5);
}

#[test]
fn home_jumps_to_start_of_line() {
    let result = Editor::calculate_movement(loc(40, 10), KeyCode::Home, TEST_SIZE);
    assert_eq!(result.x, 0);
    assert_eq!(result.y, 10);
}

#[test]
fn end_jumps_to_end_of_line() {
    let result = Editor::calculate_movement(loc(0, 10), KeyCode::End, TEST_SIZE);
    assert_eq!(result.x, 79);
    assert_eq!(result.y, 10);
}

#[test]
fn unhandled_key_does_not_move() {
    let result = Editor::calculate_movement(loc(5, 10), KeyCode::Char('a'), TEST_SIZE);
    assert_eq!(result.x, 5);
    assert_eq!(result.y, 10);
}

#[test]
fn movement_with_zero_size_terminal() {
    let zero_size = Size {
        height: 0,
        width: 0,
    };
    let result = Editor::calculate_movement(loc(0, 0), KeyCode::Down, zero_size);
    assert_eq!(result.y, 0);
    let result = Editor::calculate_movement(loc(0, 0), KeyCode::Right, zero_size);
    assert_eq!(result.x, 0);
}

const ALL_KEYS: [KeyCode; 10] = [
    KeyCode::Up,
    KeyCode::Down,
    KeyCode::Left,
    KeyCode::Right,
    KeyCode::PageUp,
    KeyCode::PageDown,
    KeyCode::Home,
    KeyCode::End,
    KeyCode::Char('x'),
    KeyCode::Other,
];

#[test]
fn every_key_keeps_the_caret_on_screen() {
    let size = Size {
        height: 3,
        width: 4,
    };
    for x in 0..4 {
        for y in 0..3 {
            for key in ALL_KEYS {
                let r = Editor::calculate_movement(loc(x, y), key, size);
                assert!(r.x < 4 && r.y < 3);
            }
        }
    }
}

#[test]
fn repeated_clamping_stays_put() {
    let mut top = loc(7, 0);
    let mut bottom = loc(7, 23);
    let mut first = loc(0, 7);
    let mut last = loc(79, 7);
    for _ in 0..5 {
        top = Editor::calculate_movement(top, KeyCode::Up, TEST_SIZE);
        bottom = Editor::calculate_movement(bottom, KeyCode::Down, TEST_SIZE);
        first = Editor::calculate_movement(first, KeyCode::Left, TEST_SIZE);
        last = Editor::calculate_movement(last, KeyCode::Right, TEST_SIZE);
    }
    assert_eq!(top, loc(7, 0));
    assert_eq!(bottom, loc(7, 23));
    assert_eq!(first, loc(0, 7));
    assert_eq!(last, loc(79, 7));
}

#[test]
fn zero_size_keeps_origin_for_every_key() {
    let zero_size = Size::default();
    for key in ALL_KEYS {
        assert_eq!(Editor::calculate_movement(loc(0, 0), key, zero_size), loc(0, 0));
    }
}

#[test]
fn other_keys_never_move() {
    for key in [KeyCode::Char('a'), KeyCode::Char('q'), KeyCode::Other] {
        assert_eq!(Editor::calculate_movement(loc(5, 10), key, TEST_SIZE), loc(5, 10));
    }
}

#[test]
fn saturating_at_the_largest_values() {
    let huge = Size {
        height: usize::MAX,
        width: usize::MAX,
    };
    let r = Editor::calculate_movement(loc(usize::MAX, usize::MAX), KeyCode::Down, huge);
    assert_eq!(r.y, usize::MAX - 1);
    let r = Editor::calculate_movement(loc(usize::MAX, 3), KeyCode::Right, huge);
    assert_eq!(r.x, usize::MAX - 1);
}
