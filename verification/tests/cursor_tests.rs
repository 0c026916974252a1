use iedit::cursor::Cursor;

#[test]
fn new_cursor_starts_without_selection_or_jumps() {
    let c = Cursor::new((3, 4));
    assert_eq!(c.pos(), (3, 4));
    assert_eq!(c.ideal_x, 3);
    assert_eq!((c.past_x, c.past_y), (3, 4));
    assert!(c.selection_anchor.is_none());
    assert!(c.jump_history.is_empty());
    assert_eq!(c.jump_history_head, 0);
}

#[test]
fn recorded_move_then_jump_back_returns() {
    let mut c = Cursor::new((3, 4));
    c.move_down(10);
    assert_eq!(c.pos(), (3, 14));
    assert_eq!(c.jump_history, vec![(3, 4)]);
    c.jump_back();
    assert_eq!(c.pos(), (3, 4));
    assert_eq!(c.jump_history_head, 0);
    assert_eq!(c.jump_history, vec![(3, 4), (3, 14)]);
    c.jump_forward();
    assert_eq!(c.pos(), (3, 14));
    assert_eq!(c.jump_history_head, 1);
}

#[test]
fn jump_forward_undoes_jump_back() {
    let mut c = Cursor::new((0, 0));
    c.update_pos((5, 3), true);
    c.jump_back();
    assert_eq!(c.pos(), (0, 0));
    c.jump_forward();
    assert_eq!(c.pos(), (5, 3));
}

#[test]
fn single_steps_are_not_recorded() {
    let mut c = Cursor::new((5, 5));
    c.move_down(1);
    c.move_right(1);
    c.move_up(1);
    c.move_left(1);
    assert_eq!(c.pos(), (5, 5));
    assert!(c.jump_history.is_empty());
}

#[test]
fn moves_saturate_at_the_edges() {
    let mut c = Cursor::new((1, 2));
    c.move_up(5);
    assert_eq!(c.pos(), (1, 0));
    c.move_left(7);
    assert_eq!(c.pos(), (0, 0));
    let mut d = Cursor::new((usize::MAX - 1, usize::MAX - 1));
    d.move_right(5);
    assert_eq!(d.cur_x, usize::MAX);
    d.move_down(5);
    assert_eq!(d.cur_y, usize::MAX);
}

#[test]
fn vertical_moves_use_the_ideal_column() {
    let mut c = Cursor::new((8, 0));
    c.cur_x = 2;
    c.move_down(1);
    assert_eq!(c.pos(), (8, 1));
}

#[test]
fn update_pos_with_record_inserts_at_head() {
    let mut c = Cursor::new((0, 0));
    c.update_pos((1, 1), true);
    c.update_pos((2, 2), true);
    assert_eq!(c.jump_history, vec![(0, 0), (1, 1)]);
    assert_eq!(c.jump_history_head, 2);
    c.jump_back();
    assert_eq!(c.pos(), (1, 1));
    assert_eq!(c.jump_history_head, 1);
    // Leaving the newest end, the position left is kept.
    assert_eq!(c.jump_history, vec![(0, 0), (1, 1), (2, 2)]);
    c.jump_back();
    assert_eq!(c.pos(), (0, 0));
    assert_eq!(c.jump_history_head, 0);
    c.jump_back();
    assert_eq!(c.pos(), (0, 0));
    c.update_pos((9, 9), true);
    assert_eq!(c.jump_history, vec![(0, 0), (0, 0), (1, 1), (2, 2)]);
    assert_eq!(c.jump_history_head, 1);
}

#[test]
fn jump_back_then_forward_lands_on_entry_at_head() {
    let mut c = Cursor::new((0, 0));
    c.jump_history = vec![(1, 1), (2, 2), (3, 3)];
    c.jump_history_head = 1;
    c.jump_back();
    assert_eq!(c.pos(), (1, 1));
    c.jump_forward();
    assert_eq!(c.pos(), (2, 2));
    assert_eq!(c.jump_history_head, 1);
}

#[test]
fn jump_forward_needs_an_entry_after_head() {
    let mut c = Cursor::new((4, 4));
    c.jump_history = vec![(1, 1)];
    c.jump_history_head = 0;
    c.jump_forward();
    assert_eq!(c.pos(), (4, 4));
    assert_eq!(c.jump_history_head, 0);
}

#[test]
fn set_last_pos_remembers_position() {
    let mut c = Cursor::new((0, 0));
    c.update_pos((3, 7), false);
    c.set_last_pos();
    assert_eq!((c.past_x, c.past_y), (3, 7));
}

#[test]
fn selected_range_is_ordered() {
    let mut c = Cursor::new((5, 2));
    assert!(c.get_selected_range().is_none());
    c.selection_anchor = Some((1, 4));
    assert_eq!(c.get_selected_range(), Some(((5, 2), (1, 4))));
    c.selection_anchor = Some((1, 2));
    assert_eq!(c.get_selected_range(), Some(((1, 2), (5, 2))));
    c.selection_anchor = Some((9, 2));
    assert_eq!(c.get_selected_range(), Some(((5, 2), (9, 2))));
    c.selection_anchor = Some((5, 2));
    assert_eq!(c.get_selected_range(), Some(((5, 2), (5, 2))));
}
