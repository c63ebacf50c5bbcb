use hecto::buffer::Buffer;
use hecto::terminal::{Position, Size};

#[test]
fn size_default_is_zero() {
    let size = Size::default();
    assert_eq!(size.height, 0);
    assert_eq!(size.width, 0);
}

#[test]
fn position_default_is_zero() {
    let pos = Position::default();
    assert_eq!(pos.col, 0);
    assert_eq!(pos.row, 0);
}

#[test]
fn size_stores_values() {
    let size = Size {
        height: 24,
        width: 80,
    };
    assert_eq!(size.height, 24);
    assert_eq!(size.width, 80);
}

#[test]
fn position_stores_values() {
    let pos = Position { col: 10, row: 5 };
    assert_eq!(pos.col, 10);
    assert_eq!(pos.row, 5);
}

#[test]
fn size_is_copy() {
    let size = Size {
        height: 24,
        width: 80,
    };
    let size2 = size;
    assert_eq!(size.height, size2.height);
}

#[test]
fn position_is_copy() {
    let pos = Position { col: 10, row: 5 };
    let pos2 = pos;
    assert_eq!(pos.col, pos2.col);
}

#[test]
fn default_buffer_has_hello_world() {
    let buffer = Buffer::default();
    assert_eq!(buffer.lines.len(), 1);
    assert_eq!(buffer.lines[0], "Hello, World!");
}

#[test]
fn default_buffer_is_not_empty() {
    let buffer = Buffer::default();
    assert!(!buffer.is_empty());
}

#[test]
fn empty_buffer() {
    let buffer = Buffer { lines: Vec::new() };
    assert!(buffer.is_empty());
}

#[test]
fn buffer_multiple_lines() {
    let buffer = Buffer {
        lines: vec![
            "line 1".to_string(),
            "line 2".to_string(),
            "line 3".to_string(),
        ],
    };
    assert_eq!(buffer.lines.len(), 3);
    assert_eq!(buffer.lines[1], "line 2");
}
