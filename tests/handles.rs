use manual_rc::{Rc, Weak};
use std::cell::{Cell, RefCell};

/// A payload that counts how many times it is destroyed.
struct Probe {
    value: i32,
    drops: std::rc::Rc<Cell<usize>>,
}

impl Drop for Probe {
    fn drop(&mut self) {
        self.drops.set(self.drops.get() + 1);
    }
}

fn probe(value: i32) -> (Probe, std::rc::Rc<Cell<usize>>) {
    let drops = std::rc::Rc::new(Cell::new(0));
    (Probe { value, drops: drops.clone() }, drops)
}

#[test]
fn new_holds_value_with_one_strong_unit() {
    let (block, r) = Rc::new(5);
    assert_eq!(*r.deref(&block), 5);
    assert_eq!(block.strong_count(), 1);
    assert_eq!(block.weak_count(), 0);
    assert!(block.is_live());
    assert!(!block.is_released());
}

#[test]
fn clone_then_drop_both_destroys_once() {
    let (p, drops) = probe(5);
    let (mut block, r1) = Rc::new(p);
    let r2 = r1.clone(&mut block);
    assert_eq!(block.strong_count(), 2);
    assert_eq!(r2.deref(&block).value, 5);
    r1.drop(&mut block);
    assert_eq!(drops.get(), 0);
    assert!(block.is_live());
    assert_eq!(r2.deref(&block).value, 5);
    r2.drop(&mut block);
    assert_eq!(drops.get(), 1);
    assert!(!block.is_live());
    assert!(block.is_released());
    drop(block);
    assert_eq!(drops.get(), 1);
}

#[test]
fn clones_dropped_in_mixed_order_destroy_after_last() {
    let (p, drops) = probe(3);
    let (mut block, first) = Rc::new(p);
    let mut handles = vec![first];
    for _ in 0..5 {
        let c = handles[0].clone(&mut block);
        handles.push(c);
    }
    assert_eq!(block.strong_count(), 6);
    for i in [3usize, 0, 3, 1, 0] {
        let h = handles.remove(i);
        h.drop(&mut block);
        assert_eq!(drops.get(), 0);
        assert!(block.is_live());
    }
    assert_eq!(block.strong_count(), 1);
    handles.pop().unwrap().drop(&mut block);
    assert_eq!(drops.get(), 1);
    assert_eq!(block.strong_count(), 0);
    assert!(block.is_released());
}

#[test]
fn downgrade_sole_handle_then_upgrade_fails() {
    let (mut block, r) = Rc::new(7);
    let w = r.downgrade(&mut block);
    assert!(!block.is_live());
    assert_eq!(block.weak_count(), 1);
    assert!(w.upgrade(&mut block).is_none());
    assert_eq!(block.weak_count(), 0);
    assert!(block.is_released());
}

#[test]
fn downgrade_sole_handle_destroys_payload() {
    let (p, drops) = probe(7);
    let (mut block, r) = Rc::new(p);
    let w = r.downgrade(&mut block);
    assert_eq!(drops.get(), 1);
    assert!(!block.is_released());
    w.drop(&mut block);
    assert!(block.is_released());
    assert_eq!(drops.get(), 1);
}

#[test]
fn downgrade_with_surviving_sibling_upgrades() {
    let (mut block, r1) = Rc::new(7);
    let r2 = r1.clone(&mut block);
    let w = r1.downgrade(&mut block);
    assert_eq!(block.strong_count(), 1);
    assert_eq!(block.weak_count(), 1);
    let up = w.upgrade(&mut block);
    assert!(up.is_some());
    let r3 = up.unwrap();
    assert_eq!(*r3.deref(&block), 7);
    assert_eq!(block.strong_count(), 2);
    assert_eq!(block.weak_count(), 0);
    assert!(std::ptr::eq(r2.deref(&block), r3.deref(&block)));
}

struct Node {
    label: u32,
    me: RefCell<Option<Weak<Node>>>,
}

#[test]
fn cyclic_value_holds_weak_to_itself() {
    let (mut block, r) = Rc::new_cyclic(|w: Weak<Node>| Node { label: 9, me: RefCell::new(Some(w)) });
    assert_eq!(block.strong_count(), 1);
    assert_eq!(block.weak_count(), 1);
    assert_eq!(r.deref(&block).label, 9);
    let stored = r.deref(&block).me.borrow_mut().take().unwrap();
    let up = stored.upgrade(&mut block).unwrap();
    assert!(std::ptr::eq(r.deref(&block), up.deref(&block)));
    assert_eq!(up.deref(&block).label, 9);
    assert_eq!(block.strong_count(), 2);
    assert_eq!(block.weak_count(), 0);
}

#[test]
fn cyclic_builder_runs_once_before_block_is_live() {
    let calls = Cell::new(0);
    let (block, r) = Rc::new_cyclic(|w: Weak<u32>| {
        calls.set(calls.get() + 1);
        std::mem::forget(w);
        41
    });
    assert_eq!(calls.get(), 1);
    assert_eq!(*r.deref(&block), 41);
    assert!(block.is_live());
}

#[test]
fn weak_outlives_payload_until_last_weak() {
    let (p, drops) = probe(1);
    let (mut block, r) = Rc::new(p);
    let w = r.downgrade(&mut block);
    assert_eq!(drops.get(), 1);
    let mut weaks: Vec<Weak<Probe>> = Vec::new();
    for _ in 0..4 {
        let c = w.clone(&mut block);
        weaks.push(c);
    }
    weaks.push(w);
    assert_eq!(block.weak_count(), 5);
    while weaks.len() > 1 {
        let last = weaks.pop().unwrap();
        let probe_handle = weaks[0].clone(&mut block);
        assert!(probe_handle.upgrade(&mut block).is_none());
        last.drop(&mut block);
        assert!(!block.is_released());
        assert!(!block.is_live());
    }
    assert_eq!(block.weak_count(), 1);
    let last = weaks.pop().unwrap();
    let again = last.clone(&mut block);
    assert!(again.upgrade(&mut block).is_none());
    assert!(!block.is_released());
    last.drop(&mut block);
    assert!(block.is_released());
    assert_eq!(drops.get(), 1);
}

#[test]
fn upgrade_moves_one_unit_from_weak_to_strong() {
    let (mut block, r) = Rc::new(String::from("x"));
    let c = r.clone(&mut block);
    let w = c.downgrade(&mut block);
    let w2 = w.clone(&mut block);
    assert_eq!((block.strong_count(), block.weak_count()), (1, 2));
    let up = w2.upgrade(&mut block).unwrap();
    assert_eq!((block.strong_count(), block.weak_count()), (2, 1));
    assert_eq!(up.deref(&block).as_str(), "x");
    up.drop(&mut block);
    r.drop(&mut block);
    assert!(!block.is_live());
    assert!(!block.is_released());
    w.drop(&mut block);
    assert!(block.is_released());
}

#[test]
fn weak_drop_while_live_keeps_payload() {
    let (p, drops) = probe(2);
    let (mut block, r) = Rc::new(p);
    let keep = r.clone(&mut block);
    let w = r.downgrade(&mut block);
    w.drop(&mut block);
    assert_eq!(block.weak_count(), 0);
    assert!(block.is_live());
    assert_eq!(drops.get(), 0);
    assert_eq!(keep.deref(&block).value, 2);
    keep.drop(&mut block);
    assert_eq!(drops.get(), 1);
    assert!(block.is_released());
}

