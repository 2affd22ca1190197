use recode::frame_cursor::FrameCursor;

#[test]
fn test_cursor_yields_sliding_windows() {
    let mut cursor = FrameCursor::new(2, 5);
    assert!(cursor.has_next());
    assert_eq!(cursor.next(), Some((0, 2)));
    assert_eq!(cursor.next(), Some((1, 3)));
    assert_eq!(cursor.next(), Some((2, 4)));
    assert_eq!(cursor.next(), Some((3, 5)));
    assert!(!cursor.has_next());
    assert_eq!(cursor.next(), None);
}

#[test]
fn test_cursor_window_equals_buffer() {
    let mut cursor = FrameCursor::new(3, 3);
    assert_eq!(cursor.next(), Some((0, 3)));
    assert_eq!(cursor.next(), None);
}

#[test]
fn test_cursor_window_exceeds_buffer() {
    let mut cursor = FrameCursor::new(4, 3);
    assert!(!cursor.has_next());
    assert_eq!(cursor.next(), None);
}

#[test]
fn test_cursor_position_tracks_frames() {
    let mut cursor = FrameCursor::new(1, 2);
    assert_eq!(cursor.pos(), 0);
    cursor.next();
    assert_eq!(cursor.pos(), 1);
}
