use geofusion::mutex_box::{apply_to_slot, fill_slot, MutexBox};

#[test]
fn empty_box_returns_the_fallback() {
    let b: MutexBox<u32> = MutexBox::new();
    let mut called = false;
    let r = b.open_locked(
        |v| {
            called = true;
            *v
        },
        77,
    );
    assert_eq!(r, 77);
    assert!(!called);
}

#[test]
fn inited_box_runs_the_function_on_its_value() {
    let b = MutexBox::new_inited(5u32);
    let r = b.open_locked(|v| *v + 1, 0);
    assert_eq!(r, 6);
}

#[test]
fn changes_made_under_the_lock_persist() {
    let b = MutexBox::new_inited(5u32);
    b.open_locked(|v| *v = 9, ());
    assert_eq!(b.open_locked(|v| *v, 0), 9);
}

#[test]
fn init_fills_an_empty_box() {
    let b: MutexBox<u32> = MutexBox::new();
    b.init(3);
    assert_eq!(b.open_locked(|v| *v, 0), 3);
}

#[test]
fn init_keeps_a_value_that_is_already_there() {
    let b = MutexBox::new_inited(1u32);
    b.init(2);
    assert_eq!(b.open_locked(|v| *v, 0), 1);
    let c: MutexBox<u32> = MutexBox::new();
    c.init(4);
    c.init(5);
    assert_eq!(c.open_locked(|v| *v, 0), 4);
}

#[test]
fn the_lock_is_released_after_each_access() {
    let b = MutexBox::new_inited(0u32);
    for _ in 0..100 {
        b.open_locked(|v| *v += 1, ());
    }
    assert_eq!(b.open_locked(|v| *v, 0), 100);
    assert!(b.mutex.try_lock().is_ok());
}

#[test]
fn fill_slot_only_fills_an_empty_slot() {
    let mut slot: Option<u32> = None;
    fill_slot(&mut slot, 8);
    assert_eq!(slot, Some(8));
    fill_slot(&mut slot, 9);
    assert_eq!(slot, Some(8));
}

#[test]
fn apply_to_slot_on_a_full_slot() {
    let mut slot = Some(10u32);
    let r = apply_to_slot(
        &mut slot,
        |v| {
            *v += 5;
            *v * 2
        },
        0,
    );
    assert_eq!(r, 30);
    assert_eq!(slot, Some(15));
}

#[test]
fn apply_to_slot_on_an_empty_slot() {
    let mut slot: Option<u32> = None;
    let r = apply_to_slot(&mut slot, |v| *v, 123);
    assert_eq!(r, 123);
    assert_eq!(slot, None);
}
