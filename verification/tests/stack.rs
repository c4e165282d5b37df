use rawvec::stack::Stack;

#[test]
fn stack_works() {
    let mut s = Stack::<usize>::new();
    assert_eq!(None, s.pop());
    assert_eq!(0, s.len());
    s.push(100000);
    s.push(5);
    s.push(10);
    s.push(5);
    s.push(100000);
    s.push(5);
    s.push(10);
    s.push(5);
    for i in 1..=300 {
        s.push(i);
    }

    for _ in 1..=30 {
        s.pop();
    }
    assert_eq!(278, s.len());
    assert_eq!(Some(270), s.pop());
}

#[test]
fn main_it_works() {
    println!("ok");
    let mut s = Stack::<u8>::new();
    assert!(s.has_room());
    s.push(1);
    assert_eq!(s.pop(), Some(1));
}

#[test]
fn stack_is_last_in_first_out() {
    let mut s = Stack::<char>::new();
    s.push('a');
    s.push('b');
    s.push('c');
    assert_eq!(s.pop(), Some('c'));
    assert_eq!(s.pop(), Some('b'));
    assert_eq!(s.pop(), Some('a'));
    assert_eq!(s.pop(), None);
    assert_eq!(s.len(), 0);
}

#[test]
fn stack_capacity_doubles() {
    let mut s = Stack::<u32>::new();
    assert_eq!(s.capacity(), 0);
    let expected: [usize; 9] = [1, 2, 4, 4, 8, 8, 8, 8, 16];
    for i in 0..9 {
        s.push(i as u32);
        assert_eq!(s.capacity(), expected[i]);
        assert!(s.capacity() >= s.len());
    }
    s.grow();
    assert_eq!(s.capacity(), 32);
    assert_eq!(s.len(), 9);
    assert_eq!(s.pop(), Some(8));
}

#[test]
fn stack_releases_what_is_left_on_it() {
    let marker = std::rc::Rc::new(0u8);
    let mut s = Stack::<std::rc::Rc<u8>>::new();
    for _ in 0..3 {
        s.push(marker.clone());
    }
    drop(s.pop());
    assert_eq!(std::rc::Rc::strong_count(&marker), 3);
    drop(s);
    assert_eq!(std::rc::Rc::strong_count(&marker), 1);
}
