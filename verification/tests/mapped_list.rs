use green::mapped_list::MappedList;

#[test]
fn new_list_has_no_queues() {
    let mut list: MappedList<u64> = MappedList::new();
    assert_eq!(list.len(0), 0);
    assert_eq!(list.len(u64::MAX), 0);
    assert_eq!(list.pop_front(0), None);
}

#[test]
fn values_leave_in_the_order_they_came() {
    let mut list: MappedList<u64> = MappedList::new();
    list.push_back(7, 10);
    list.push_back(7, 20);
    list.push_back(7, 30);
    assert_eq!(list.len(7), 3);
    assert_eq!(list.pop_front(7), Some(10));
    assert_eq!(list.pop_front(7), Some(20));
    assert_eq!(list.len(7), 1);
    assert_eq!(list.pop_front(7), Some(30));
    assert_eq!(list.pop_front(7), None);
    assert_eq!(list.len(7), 0);
}

#[test]
fn keys_do_not_mix() {
    let mut list: MappedList<u64> = MappedList::new();
    list.push_back(1, 100);
    list.push_back(2, 200);
    list.push_back(1, 101);
    assert_eq!(list.len(1), 2);
    assert_eq!(list.len(2), 1);
    assert_eq!(list.pop_front(2), Some(200));
    assert_eq!(list.pop_front(2), None);
    assert_eq!(list.pop_front(1), Some(100));
    assert_eq!(list.pop_front(1), Some(101));
}

#[test]
fn a_drained_key_can_be_filled_again() {
    let mut list: MappedList<u64> = MappedList::new();
    list.push_back(5, 1);
    assert_eq!(list.pop_front(5), Some(1));
    assert_eq!(list.pop_front(5), None);
    list.push_back(5, 2);
    assert_eq!(list.len(5), 1);
    assert_eq!(list.pop_front(5), Some(2));
}

#[test]
fn pop_on_a_missing_key_changes_nothing() {
    let mut list: MappedList<u64> = MappedList::new();
    list.push_back(3, 9);
    assert_eq!(list.pop_front(4), None);
    assert_eq!(list.len(3), 1);
    assert_eq!(list.pop_front(3), Some(9));
}

#[test]
fn clear_drops_every_queue() {
    let mut list: MappedList<u64> = MappedList::new();
    list.push_back(1, 1);
    list.push_back(2, 2);
    list.push_back(2, 3);
    list.clear();
    assert_eq!(list.len(1), 0);
    assert_eq!(list.len(2), 0);
    assert_eq!(list.pop_front(1), None);
    assert_eq!(list.pop_front(2), None);
    list.push_back(2, 4);
    assert_eq!(list.pop_front(2), Some(4));
}

#[test]
fn queues_hold_any_type() {
    let mut list: MappedList<String> = MappedList::new();
    list.push_back(0, String::from("a"));
    list.push_back(0, String::from("b"));
    assert_eq!(list.pop_front(0), Some(String::from("a")));
    assert_eq!(list.pop_front(0), Some(String::from("b")));
}
