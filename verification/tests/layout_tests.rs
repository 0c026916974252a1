use iedit::terminal::UILayout;

#[test]
fn inline_layout_with_room_below() {
    let (l, scroll, reserved) = UILayout::new(0, (80, 24), (1, 5));
    assert_eq!(scroll, 0);
    assert_eq!(reserved, 19);
    assert_eq!(l.editor_lines, 17);
    assert_eq!(l.ui_origin, (1, 5));
    assert_eq!((l.term_width, l.term_height), (80, 24));
}

#[test]
fn inline_layout_scrolls_when_short() {
    let (l, scroll, reserved) = UILayout::new(0, (80, 24), (1, 20));
    assert_eq!(scroll, 8);
    assert_eq!(reserved, 12);
    assert_eq!(l.editor_lines, 10);
    assert_eq!(l.ui_origin, (1, 12));
    let (l, scroll, reserved) = UILayout::new(30, (80, 24), (1, 20));
    assert_eq!(scroll, 28);
    assert_eq!(reserved, 24);
    assert_eq!(l.editor_lines, 22);
    assert_eq!(l.ui_origin, (1, 0));
}

#[test]
fn fullscreen_layout() {
    let l = UILayout::fullscreen((100, 30));
    assert_eq!(l.ui_origin, (1, 1));
    assert_eq!(l.editor_lines, 28);
}

#[test]
fn min_lines_are_reserved_near_the_bottom() {
    let (l, scroll, reserved) = UILayout::new(5, (80, 24), (1, 23));
    assert_eq!(l.editor_lines, 5);
    assert_eq!(scroll, 6);
    assert_eq!(reserved, 7);
    assert_eq!(l.ui_origin, (1, 17));
}
