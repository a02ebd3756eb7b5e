use spin_sync::{AtomCounter, AtomValue, Bool};

#[test]
fn counter_returns_previous_value() {
    let mut c = AtomCounter::new();
    assert_eq!(c.get(), 0);
    assert_eq!(c.add(), 0);
    assert_eq!(c.add(), 1);
    assert_eq!(c.get(), 2);
}

#[test]
fn counter_counts_each_increment() {
    let mut c = AtomCounter::new();
    let mut i: usize = 0;
    while i < 5 {
        assert_eq!(c.add(), i);
        i += 1;
    }
    assert_eq!(c.get(), 5);
}

#[test]
fn counter_two_contexts_million_each() {
    let mut c = AtomCounter::new();
    let mut a: u32 = 0;
    let mut b: u32 = 0;
    while a < 1_000_000 || b < 1_000_000 {
        if a < 1_000_000 {
            c.add();
            a += 1;
        }
        if b < 1_000_000 {
            c.add();
            b += 1;
        }
    }
    assert_eq!(c.get(), 2_000_000);
}

#[test]
fn value_set_and_get() {
    let mut v = AtomValue::new((1u8, 'x'));
    assert_eq!(v.get(), (1, 'x'));
    v.set((2, 'y'));
    assert_eq!(v.get(), (2, 'y'));
    v.set((2, 'y'));
    assert_eq!(v.get(), (2, 'y'));
}

#[test]
fn flag_set_true_then_pop() {
    let mut f = Bool::new();
    f.set_true();
    assert!(f.pop());
    assert!(!f.get_val());
}

#[test]
fn flag_pop_when_false() {
    let mut f = Bool::new();
    assert!(!f.pop());
    assert!(!f.get_val());
    assert!(!f.pop());
}

#[test]
fn flag_set_and_read() {
    let mut f = Bool::new();
    assert!(!f.get_val());
    f.set(true);
    assert!(f.get_val());
    assert!(f.get_val());
    f.set(false);
    assert!(!f.get_val());
    f.set_true();
    f.set_false();
    assert!(!f.pop());
}
