//! Wrap-around selection in the song list.

use rrr::tui::StatefulList;

#[test]
fn test_stateful_list_next_wraps() {
    let mut list = StatefulList::with_items(vec!["Song 1", "Song 2"]);
    assert_eq!(list.selected(), None);
    list.next();
    assert_eq!(list.selected(), Some(0));
    list.next();
    assert_eq!(list.selected(), Some(1));
    list.next();
    assert_eq!(list.selected(), Some(0));
}

#[test]
fn test_stateful_list_previous_wraps() {
    let mut list = StatefulList::with_items(vec![10u16, 20, 30]);
    list.previous();
    assert_eq!(list.selected(), Some(0));
    list.previous();
    assert_eq!(list.selected(), Some(2));
    list.previous();
    assert_eq!(list.selected(), Some(1));
    assert_eq!(list.items().len(), 3);
}
