use kura::scroll_list::ScrollList;

#[test]
fn new_selects_first_item() {
    assert_eq!(ScrollList::new(3).selected(), Some(0));
    assert_eq!(ScrollList::new(0).selected(), None);
}

#[test]
fn scrolling_stops_at_the_ends() {
    let mut s = ScrollList::new(3);
    s.scroll_up();
    assert_eq!(s.selected(), Some(0));
    s.scroll_down();
    s.scroll_down();
    assert_eq!(s.selected(), Some(2));
    s.scroll_down();
    assert_eq!(s.selected(), Some(2));
    s.scroll_up();
    assert_eq!(s.selected(), Some(1));
}

#[test]
fn scrolling_wraps_when_asked() {
    let mut s = ScrollList::new(3);
    s.wrap(true);
    s.scroll_up();
    assert_eq!(s.selected(), Some(2));
    s.scroll_down();
    assert_eq!(s.selected(), Some(0));
}

#[test]
fn empty_list_keeps_no_selection() {
    let mut s = ScrollList::new(0);
    s.scroll_down();
    s.scroll_up();
    s.select(4);
    assert_eq!(s.selected(), None);
}

#[test]
fn set_len_keeps_selection_inside() {
    let mut s = ScrollList::new(5);
    s.select(4);
    s.set_len(2);
    assert_eq!(s.selected(), Some(1));
    s.set_len(0);
    assert_eq!(s.selected(), None);
    s.set_len(3);
    assert_eq!(s.selected(), Some(0));
    s.select(1);
    s.set_len(6);
    assert_eq!(s.selected(), Some(1));
}

#[test]
fn select_clamps_to_last() {
    let mut s = ScrollList::new(3);
    s.select(10);
    assert_eq!(s.selected(), Some(2));
    s.select(1);
    assert_eq!(s.selected(), Some(1));
}
