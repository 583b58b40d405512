use physim::collector::remove_marked;

#[test]
fn removes_marked_and_keeps_order() {
    let mut items = vec!['a', 'b', 'c', 'd', 'e'];
    remove_marked(&mut items, &vec![false, true, true, false, true]);
    assert_eq!(items, vec!['a', 'd']);
}

#[test]
fn adjacent_marks_are_not_skipped() {
    let mut items = vec![1, 2, 3, 4];
    remove_marked(&mut items, &vec![true, true, true, true]);
    assert!(items.is_empty());
}

#[test]
fn nothing_marked_keeps_all() {
    let mut items = vec![String::from("x"), String::from("y")];
    remove_marked(&mut items, &vec![false, false]);
    assert_eq!(items, vec![String::from("x"), String::from("y")]);
    let mut empty: Vec<u8> = Vec::new();
    remove_marked(&mut empty, &Vec::new());
    assert!(empty.is_empty());
}
