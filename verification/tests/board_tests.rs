use term_board::board::{Board, Item, Status};

fn item(label: &str, weight: usize, status: Status) -> Item {
    Item { label: label.to_owned(), weight, status }
}

fn three_item_board() -> Board {
    Board::with_items(vec![
        item("a", 1, Status::ToDo),
        item("b", 2, Status::UpNext),
        item("c", 3, Status::InProgress),
    ])
}

#[test]
fn select_next_selects_zero_first() {
    let mut b = three_item_board();
    assert_eq!(b.selected(), None);
    b.select_next();
    assert_eq!(b.selected(), Some(0));
}

#[test]
fn select_next_cycles_back_to_start() {
    let mut b = three_item_board();
    b.select_next();
    assert_eq!(b.selected(), Some(0));
    // n = 3 steps return the cursor to its starting index
    b.select_next();
    b.select_next();
    b.select_next();
    assert_eq!(b.selected(), Some(0));
}

#[test]
fn select_next_wraps_at_end() {
    let mut b = three_item_board();
    b.select_next();
    b.select_next();
    b.select_next();
    assert_eq!(b.selected(), Some(2));
    b.select_next();
    assert_eq!(b.selected(), Some(0));
}

#[test]
fn select_previous_wraps_at_zero() {
    let mut b = three_item_board();
    b.select_next();
    assert_eq!(b.selected(), Some(0));
    b.select_previous();
    assert_eq!(b.selected(), Some(2));
}

#[test]
fn select_previous_inverts_next() {
    let mut b = three_item_board();
    b.select_next();
    b.select_next();
    assert_eq!(b.selected(), Some(1));
    b.select_next();
    b.select_previous();
    assert_eq!(b.selected(), Some(1));
    b.select_previous();
    b.select_next();
    assert_eq!(b.selected(), Some(1));
}

#[test]
fn select_previous_selects_zero_first() {
    let mut b = three_item_board();
    b.select_previous();
    assert_eq!(b.selected(), Some(0));
}

#[test]
fn select_on_empty_board_is_noop() {
    let mut b = Board::with_items(Vec::new());
    b.select_next();
    assert_eq!(b.selected(), None);
    b.select_previous();
    assert_eq!(b.selected(), None);
    assert_eq!(b.items_len(), 0);
}

#[test]
fn unselect_is_idempotent() {
    let mut b = three_item_board();
    b.select_next();
    b.unselect();
    assert_eq!(b.selected(), None);
    b.unselect();
    assert_eq!(b.selected(), None);
}

#[test]
fn delete_without_selection_is_noop() {
    let mut b = three_item_board();
    b.delete_selected();
    assert_eq!(b.items_len(), 3);
    assert_eq!(b.selected(), None);
}

#[test]
fn delete_singleton_clears_selection() {
    let mut b = Board::with_items(vec![item("only", 1, Status::ToDo)]);
    b.select_next();
    assert_eq!(b.selected(), Some(0));
    b.delete_selected();
    assert_eq!(b.items_len(), 0);
    assert_eq!(b.selected(), None);
}

#[test]
fn delete_at_positive_index_moves_selection_back() {
    let mut b = three_item_board();
    b.select_next();
    b.select_next();
    b.select_next();
    assert_eq!(b.selected(), Some(2));
    b.delete_selected();
    assert_eq!(b.selected(), Some(1));
    assert_eq!(b.items_len(), 2);
    assert_eq!(b.items()[0].label, "a");
    assert_eq!(b.items()[1].label, "b");
}

#[test]
fn delete_at_zero_keeps_selection_at_zero() {
    let mut b = three_item_board();
    b.select_next();
    assert_eq!(b.selected(), Some(0));
    b.delete_selected();
    assert_eq!(b.selected(), Some(0));
    assert_eq!(b.items_len(), 2);
    assert_eq!(b.items()[0].label, "b");
}

#[test]
fn cycle_forward_three_times_is_identity() {
    let mut b = three_item_board();
    assert_eq!(b.active_column(), Status::ToDo);
    b.cycle_active_column_forward();
    assert_eq!(b.active_column(), Status::UpNext);
    b.cycle_active_column_forward();
    assert_eq!(b.active_column(), Status::InProgress);
    b.cycle_active_column_forward();
    assert_eq!(b.active_column(), Status::ToDo);
}

#[test]
fn cycle_forward_then_backward_is_identity() {
    let mut b = three_item_board();
    b.cycle_active_column_forward();
    b.cycle_active_column_backward();
    assert_eq!(b.active_column(), Status::ToDo);
    b.cycle_active_column_backward();
    assert_eq!(b.active_column(), Status::InProgress);
    b.cycle_active_column_forward();
    assert_eq!(b.active_column(), Status::ToDo);
}

#[test]
fn column_items_filters_by_status() {
    let b = Board::with_items(vec![
        item("a", 1, Status::ToDo),
        item("b", 2, Status::UpNext),
        item("c", 3, Status::ToDo),
        item("d", 1, Status::InProgress),
    ]);
    let todo = b.column_items(Status::ToDo);
    assert_eq!(todo.len(), 2);
    assert_eq!(todo[0].label, "a");
    assert_eq!(todo[1].label, "c");
    let up_next = b.column_items(Status::UpNext);
    assert_eq!(up_next.len(), 1);
    assert_eq!(up_next[0].label, "b");
    let in_progress = b.column_items(Status::InProgress);
    assert_eq!(in_progress.len(), 1);
    assert_eq!(in_progress[0].label, "d");
}

#[test]
fn column_items_of_absent_status_is_empty() {
    let b = Board::with_items(vec![item("a", 1, Status::ToDo)]);
    assert!(b.column_items(Status::UpNext).is_empty());
}

#[test]
fn deletion_indexes_the_full_sequence_not_the_filtered_view() {
    // The cursor and deletion address the full backing sequence, while each
    // column re-filters per draw: deleting cursor index 1 removes the second
    // backing item even when the active column's filtered view shows another
    // item at its own index 1.
    let mut b = Board::with_items(vec![
        item("a", 1, Status::ToDo),
        item("b", 2, Status::UpNext),
        item("c", 3, Status::ToDo),
    ]);
    assert_eq!(b.active_column(), Status::ToDo);
    assert_eq!(b.column_items(Status::ToDo)[1].label, "c");
    b.select_next();
    b.select_next();
    assert_eq!(b.selected(), Some(1));
    b.delete_selected();
    assert_eq!(b.items_len(), 2);
    assert_eq!(b.items()[0].label, "a");
    assert_eq!(b.items()[1].label, "c");
}

#[test]
fn seed_board_holds_the_documented_items() {
    let b = Board::new();
    assert_eq!(b.items_len(), 24);
    assert_eq!(b.selected(), None);
    assert_eq!(b.active_column(), Status::ToDo);
    assert_eq!(b.column_items(Status::ToDo).len(), 10);
    assert_eq!(b.column_items(Status::InProgress).len(), 11);
    assert_eq!(b.column_items(Status::UpNext).len(), 3);
    assert_eq!(b.items()[0].label, "Item0");
    assert_eq!(b.items()[0].weight, 1);
    assert_eq!(b.items()[9].label, "Item9");
    assert_eq!(b.items()[9].weight, 6);
    assert_eq!(b.items()[23].label, "Item23");
    assert_eq!(b.items()[23].status, Status::UpNext);
}
