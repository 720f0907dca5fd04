use linked_stack::single_direction_link_list::List;
use linked_stack::stack_link_list::List as TaggedList;

#[test]
fn lifo_order_test() {
    let n: i64 = 100;
    let mut list = List::new();
    let mut i: i64 = 0;
    while i < n {
        list.push(i);
        i += 1;
    }
    let mut expected: i64 = n - 1;
    while expected >= 0 {
        assert_eq!(list.pop(), Some(expected));
        expected -= 1;
    }
    assert_eq!(list.pop(), None);
}

#[test]
fn lifo_order_tagged_test() {
    let n: i64 = 100;
    let mut list = TaggedList::new();
    let mut i: i64 = 0;
    while i < n {
        list.push(i);
        i += 1;
    }
    let mut expected: i64 = n - 1;
    while expected >= 0 {
        assert_eq!(list.pop(), Some(expected));
        expected -= 1;
    }
    assert_eq!(list.pop(), None);
}

#[test]
fn peek_does_not_change_pop_test() {
    let mut list = List::new();
    list.push(1).push(2);
    let mut k: i32 = 0;
    while k < 5 {
        assert_eq!(list.peek(), Some(&2));
        k += 1;
    }
    // peek_mut taken repeatedly, but nothing written through it
    k = 0;
    while k < 5 {
        assert_eq!(list.peek_mut(), Some(&mut 2));
        k += 1;
    }
    assert_eq!(list.pop(), Some(2));
    assert_eq!(list.pop(), Some(1));
    assert_eq!(list.pop(), None);
}

#[test]
fn peek_mut_write_visible_in_pop_test() {
    let mut list = List::new();
    list.push(55).push(66).push(88);
    if let Some(head) = list.peek_mut() {
        *head = 99;
    }
    assert_eq!(list.pop(), Some(99));
    assert_eq!(list.pop(), Some(66));
    assert_eq!(list.pop(), Some(55));
}

#[test]
fn iter_mut_writes_visible_test() {
    let mut list = List::new();
    list.push(1).push(2).push(3);
    let mut iter = list.iter_mut();
    while let Some(value) = iter.next() {
        *value += 10;
    }
    assert_eq!(list.pop(), Some(13));
    assert_eq!(list.pop(), Some(12));
    assert_eq!(list.pop(), Some(11));
    assert_eq!(list.pop(), None);
}

#[test]
fn iterator_order_agreement_test() {
    let mut by_pop: Vec<i32> = Vec::new();
    let mut list = List::new();
    list.push(55).push(66).push(88);
    while let Some(value) = list.pop() {
        by_pop.push(value);
    }

    let mut by_into_iter: Vec<i32> = Vec::new();
    let mut list = List::new();
    list.push(55).push(66).push(88);
    let mut iter = list.into_iter();
    while let Some(value) = iter.next() {
        by_into_iter.push(value);
    }

    let mut by_iter: Vec<i32> = Vec::new();
    let mut list = List::new();
    list.push(55).push(66).push(88);
    let mut iter = list.iter();
    while let Some(value) = iter.next() {
        by_iter.push(*value);
    }

    let mut by_iter_mut: Vec<i32> = Vec::new();
    let mut list = List::new();
    list.push(55).push(66).push(88);
    let mut iter = list.iter_mut();
    while let Some(value) = iter.next() {
        by_iter_mut.push(*value);
    }

    assert_eq!(by_pop, vec![88, 66, 55]);
    assert_eq!(by_into_iter, by_pop);
    assert_eq!(by_iter, by_pop);
    assert_eq!(by_iter_mut, by_pop);
}

#[test]
fn empty_list_behavior_test() {
    let mut list: List<i32> = List::new();
    assert_eq!(list.pop(), None);
    assert_eq!(list.peek(), None);
    assert_eq!(list.peek_mut(), None);
    assert_eq!(list.iter().next(), None);
    assert_eq!(list.iter_mut().next(), None);
    assert_eq!(list.into_iter().next(), None);
    let mut tagged: TaggedList<i32> = TaggedList::new();
    assert_eq!(tagged.pop(), None);
}

#[test]
fn teardown_large_list_test() {
    let n: i64 = 100_000;
    let mut list = List::new();
    let mut i: i64 = 0;
    while i < n {
        list.push(i);
        i += 1;
    }
    drop(list);

    let mut tagged = TaggedList::new();
    i = 0;
    while i < n {
        tagged.push(i);
        i += 1;
    }
    drop(tagged);
}
