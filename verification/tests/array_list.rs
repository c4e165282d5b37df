use rawvec::array_list::ArrayList;

fn contents<T: Default + Copy + PartialEq>(l: &ArrayList<T>) -> Vec<T> {
    l.as_slice().to_vec()
}

#[test]
fn array_list_work() {
    let mut l = ArrayList::<i32>::new();
    l.append(2);
    l.append(5);
    l.append(5);
    l.append(5);
    l.append(5);
    l.append(6);
    l.append(9);
    l.pop();
    assert_eq!(Some(&5), l.get(2));
    l.prepend(1000);
    l.append(9);
    assert_eq!(Some(&1000), l.get(0));
    assert_eq!(Some(&9), l.get(l.len() - 1));
    assert_eq!(8, l.len());
    l.insert_at(1, 2000);
    assert_eq!(Some(&2000), l.get(1));
    assert_eq!(contents(&l), vec![1000, 2000, 2, 5, 5, 5, 5, 6, 9]);
}

#[test]
fn remove_test() {
    let mut arl = ArrayList::<i16>::new();
    arl.append(9);
    arl.append(10);
    arl.append(20);
    arl.append(30);
    assert_eq!(Some(10), arl.remove_at(1));
    assert_eq!(3, arl.len());
    assert_eq!(Some(&30), arl.get(arl.len() - 1));
    assert_eq!(Some(20), arl.remove(&20));
    assert_eq!(None, arl.remove(&200));
    assert_eq!(contents(&arl), vec![9, 30]);
}

#[test]
fn list_starts_empty_and_unallocated() {
    let l = ArrayList::<u64>::new();
    assert_eq!(l.len(), 0);
    assert_eq!(l.capacity(), 0);
    assert_eq!(l.get(0), None);
    assert_eq!(l.as_slice(), &[] as &[u64]);
    assert!(l.has_room());
}

#[test]
fn list_is_one_slot_then_doubles_when_full() {
    let mut l = ArrayList::<u8>::new();
    let expected: [usize; 11] = [1, 2, 4, 4, 8, 8, 8, 8, 16, 16, 16];
    for n in 0..11 {
        l.append(n as u8);
        assert_eq!(l.capacity(), expected[n]);
        assert!(l.capacity() >= l.len());
    }
    assert_eq!(contents(&l), vec![0, 1, 2, 3, 4, 5, 6, 7, 8, 9, 10]);
    l.grow_inner();
    assert_eq!(l.capacity(), 32);
    assert_eq!(l.len(), 11);
    assert_eq!(contents(&l), vec![0, 1, 2, 3, 4, 5, 6, 7, 8, 9, 10]);
}

#[test]
fn list_pop_gives_the_last_or_nothing() {
    let mut l = ArrayList::<i32>::new();
    assert_eq!(l.pop(), None);
    assert_eq!(l.len(), 0);
    l.append(1);
    l.append(2);
    l.append(3);
    assert_eq!(l.pop(), Some(3));
    assert_eq!(contents(&l), vec![1, 2]);
    l.append(4);
    assert_eq!(contents(&l), vec![1, 2, 4]);
    assert_eq!(l.pop(), Some(4));
    assert_eq!(l.pop(), Some(2));
    assert_eq!(l.pop(), Some(1));
    assert_eq!(l.pop(), None);
}

#[test]
fn list_insert_then_remove_restores() {
    let mut l = ArrayList::<i32>::new();
    l.append(1);
    l.append(2);
    l.append(3);
    l.insert_at(1, 99);
    assert_eq!(contents(&l), vec![1, 99, 2, 3]);
    assert_eq!(l.remove_at(1), Some(99));
    assert_eq!(contents(&l), vec![1, 2, 3]);
}

#[test]
fn list_insert_at_the_length_is_append() {
    let mut inserted = ArrayList::<i32>::new();
    let mut appended = ArrayList::<i32>::new();
    for n in 0..5 {
        inserted.insert_at(n as usize, n);
        appended.append(n);
        assert_eq!(contents(&inserted), contents(&appended));
        assert_eq!(inserted.capacity(), appended.capacity());
    }
    assert_eq!(contents(&inserted), vec![0, 1, 2, 3, 4]);
    assert_eq!(inserted.capacity(), 8);
}

#[test]
fn list_remove_at_the_last_and_the_first() {
    let mut l = ArrayList::<i32>::new();
    l.append(7);
    l.append(8);
    l.append(9);
    assert_eq!(l.remove_at(2), Some(9));
    assert_eq!(contents(&l), vec![7, 8]);
    assert_eq!(l.remove_at(0), Some(7));
    assert_eq!(l.remove_at(0), Some(8));
    assert_eq!(l.len(), 0);
    assert_eq!(l.capacity(), 4);
}

#[test]
fn list_remove_at_works_when_full() {
    let mut l = ArrayList::<i32>::new();
    for n in 0..4 {
        l.append(n);
    }
    assert_eq!(l.len(), l.capacity());
    assert_eq!(l.remove_at(0), Some(0));
    assert_eq!(contents(&l), vec![1, 2, 3]);
    assert_eq!(l.remove_at(2), Some(3));
    assert_eq!(contents(&l), vec![1, 2]);
}

#[test]
fn list_lends_its_elements_as_one_slice() {
    let mut l = ArrayList::<i32>::new();
    for n in [3, 1, 2] {
        l.append(n);
    }
    assert_eq!(l.capacity(), 4);
    assert_eq!(l.as_slice(), &[3, 1, 2]);
    l.pop();
    assert_eq!(l.as_slice(), &[3, 1]);
}

#[test]
fn list_remove_takes_the_first_match() {
    let mut l = ArrayList::<i32>::new();
    for n in [4, 7, 4, 7] {
        l.append(n);
    }
    assert_eq!(l.position(&7), Some(1));
    assert_eq!(l.remove(&7), Some(7));
    assert_eq!(contents(&l), vec![4, 4, 7]);
    assert_eq!(l.position(&5), None);
}

#[test]
fn list_prepend_puts_first() {
    let mut l = ArrayList::<char>::new();
    l.prepend('c');
    l.prepend('b');
    l.prepend('a');
    assert_eq!(contents(&l), vec!['a', 'b', 'c']);
    assert_eq!(l.get(3), None);
}
