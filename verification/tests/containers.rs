use basic_practice::left_right::LeftRight;
use basic_practice::simple_left_right::SimpleLeftRight;
use basic_practice::slot_map::{AtomicSlotMap, SLOTS};
use basic_practice::stack::LockFreeStack;
use basic_practice::swap::MySwap;
use basic_practice::vector_basic::get_val;

#[test]
fn get_val_in_range() {
    let v = vec![1, 2, 3];
    assert_eq!(3, get_val(&v, 2));
    assert_eq!(1, get_val(&v, 0));
}

#[test]
fn get_val_out_of_range_gives_first() {
    let v = vec![1, 2, 3];
    assert_eq!(1, get_val(&v, 3));
    assert_eq!(1, get_val(&v, usize::MAX));
}

#[test]
fn get_val_empty_gives_zero() {
    let v: Vec<i32> = Vec::new();
    assert_eq!(0, get_val(&v, 1));
    assert_eq!(0, get_val(&v, 0));
}

#[test]
fn left_right_initial_then_write() {
    let mut lr = LeftRight::new("초기값".to_string());
    assert_eq!(lr.read(), "초기값");
    lr.write("첫 갱신".to_string());
    assert_eq!(lr.read(), "첫 갱신");
}

#[test]
fn left_right_many_writes_read_last() {
    let mut lr = LeftRight::new("공유-시작".to_string());
    for i in 0..8 {
        lr.write(format!("버전-{i}"));
        assert_eq!(lr.read(), format!("버전-{i}"));
    }
    assert_eq!(lr.read(), "버전-7");
}

#[test]
fn simple_left_right_initial_then_write() {
    let mut lr = SimpleLeftRight::new("초기값".to_string());
    assert_eq!(lr.read(), "초기값");
    lr.write("첫 갱신".to_string());
    assert_eq!(lr.read(), "첫 갱신");
    lr.write("둘째".to_string());
    lr.write("셋째".to_string());
    assert_eq!(lr.read(), "셋째");
}

#[test]
fn my_swap_get_set() {
    let mut s = MySwap::new(String::from("Hello, world!"));
    assert_eq!(s.get(), "Hello, world!");
    s.set(String::from("데이터를 바꿔 버릴거임."));
    assert_eq!(s.get(), "데이터를 바꿔 버릴거임.");
    assert_eq!(s.get(), "데이터를 바꿔 버릴거임.");
}

#[test]
fn slot_map_counts_per_key() {
    let mut m = AtomicSlotMap::new();
    for tid in 0..4usize {
        for _ in 0..1000 {
            m.add(tid % SLOTS, 1);
        }
    }
    for k in 0..4 {
        assert_eq!(m.get(k), 1000);
    }
    for k in 4..SLOTS {
        assert_eq!(m.get(k), 0);
    }
}

#[test]
fn slot_map_add_order_does_not_matter() {
    let mut a = AtomicSlotMap::new();
    let mut b = AtomicSlotMap::new();
    a.add(3, 5);
    a.add(3, 7);
    a.add(9, 2);
    b.add(9, 2);
    b.add(3, 7);
    b.add(3, 5);
    for k in 0..SLOTS {
        assert_eq!(a.get(k), b.get(k));
    }
    assert_eq!(a.get(3), 12);
}

#[test]
fn slot_map_wraps_around() {
    let mut m = AtomicSlotMap::new();
    m.add(15, u64::MAX);
    m.add(15, 2);
    assert_eq!(m.get(15), 1);
}

#[test]
fn stack_is_lifo() {
    let mut s = LockFreeStack::new();
    assert_eq!(s.pop(), None);
    s.push(1);
    s.push(2);
    s.push(3);
    assert_eq!(s.pop(), Some(3));
    s.push(4);
    assert_eq!(s.pop(), Some(4));
    assert_eq!(s.pop(), Some(2));
    assert_eq!(s.pop(), Some(1));
    assert_eq!(s.pop(), None);
}

#[test]
fn stack_drains_every_pushed_item() {
    let mut s = LockFreeStack::new();
    for t in 0..4 {
        for i in 0..256 {
            s.push(t * 1000 + i);
        }
    }
    let mut count = 0;
    while s.pop().is_some() {
        count += 1;
    }
    assert_eq!(count, 1024);
}
