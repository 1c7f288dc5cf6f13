use std::rc::Rc;

use runtime_sized_array::Array;

#[test]
fn new_reports_requested_size() {
    let arr: Array<i32> = Array::new(0).unwrap();
    assert_eq!(arr.size(), 0);

    let arr: Array<i32> = Array::new(7).unwrap();
    assert_eq!(arr.size(), 7);
}

#[test]
fn new_rejects_oversized_layout() {
    let r: Result<Array<i64>, _> = Array::new(usize::MAX);
    let err = r.err().unwrap();
    assert!(!err.message().is_empty());
}

#[test]
fn set_then_get_returns_written_value() {
    let mut arr: Array<i32> = Array::new(4).unwrap();
    for i in 0..4 {
        arr.set(i, 10 * i as i32);
    }
    for i in 0..4 {
        assert_eq!(*arr.get(i), 10 * i as i32);
        assert_eq!(arr.try_get(i), Some(&(10 * i as i32)));
    }
}

#[test]
fn checked_access_out_of_bounds_is_absent() {
    let mut arr: Array<i32> = Array::from(vec![1, 2, 4]);
    for i in 3..8 {
        assert_eq!(arr.try_get(i), None);
        assert_eq!(arr.try_set(i, 9), None);
        assert_eq!(arr.try_get_mut(i), None);
    }
}

#[test]
fn vec_round_trip_preserves_order() {
    let source = vec![10, 20, 30, 40];
    let arr: Array<i32> = Array::from(source.clone());
    assert_eq!(arr.into_vec(), source);
}

#[test]
fn cloned_array_is_independent() {
    let mut original: Array<i32> = Array::from(vec![1, 2, 3]);
    let mut copy = original.clone();

    for i in 0..3 {
        copy.set(i, 100 + i as i32);
        assert_eq!(*original.index(i), 1 + i as i32);
    }
    for i in 0..3 {
        original.set(i, 200 + i as i32);
        assert_eq!(*copy.index(i), 100 + i as i32);
    }
}

#[test]
fn iter_mut_updates_are_visible_afterwards() {
    let mut arr: Array<i32> = Array::from(vec![1, 2, 4]);
    let mut it = arr.iter_mut();
    while let Some(elem) = it.next() {
        *elem *= 10;
    }
    assert_eq!(*arr.get(0), 10);
    assert_eq!(*arr.get(1), 20);
    assert_eq!(*arr.get(2), 40);
}

#[test]
fn take_from_iter_fills_all_slots_in_order() {
    let mut items = vec![5, 6, 7, 8];
    let arr: Array<i32> = Array::take_from_iter(&mut items, 4);
    assert_eq!(arr.size(), 4);
    for i in 0..4 {
        assert_eq!(arr.try_get(i), Some(&(5 + i as i32)));
    }
    assert!(items.is_empty());
}

#[test]
fn take_from_iter_leaves_tail_unwritten() {
    let mut items = vec![7, 8];
    let arr: Array<i32> = Array::take_from_iter(&mut items, 4);
    assert_eq!(arr.size(), 4);
    assert_eq!(arr.try_get(0), Some(&7));
    assert_eq!(arr.try_get(1), Some(&8));
    assert_eq!(arr.try_get(2), None);
    assert_eq!(arr.try_get(3), None);
    assert!(items.is_empty());
}

#[test]
fn unwritten_slot_stops_iteration() {
    let mut arr: Array<i32> = Array::new(3).unwrap();
    arr.set(0, 9);
    arr.set(2, 11);

    let mut it = arr.iter();
    assert_eq!(it.next(), Some(&9));
    assert_eq!(it.next(), None);

    let mut owning = arr.into_iter();
    assert_eq!(owning.next(), Some(9));
    assert_eq!(owning.next(), None);
}

#[test]
fn drop_finalizes_every_element_once() {
    let payload = Rc::new(0_i32);
    let mut values = Vec::new();
    for _ in 0..5 {
        values.push(Rc::clone(&payload));
    }
    assert_eq!(Rc::strong_count(&payload), 6);

    let arr: Array<Rc<i32>> = Array::from(values);
    assert_eq!(Rc::strong_count(&payload), 6);
    drop(arr);
    assert_eq!(Rc::strong_count(&payload), 1);
}

#[test]
fn abandoned_into_iter_finalizes_the_rest() {
    let payload = Rc::new(0_i32);
    let mut values = Vec::new();
    for _ in 0..4 {
        values.push(Rc::clone(&payload));
    }
    let arr: Array<Rc<i32>> = Array::from(values);

    let mut it = arr.into_iter();
    let first = it.next().unwrap();
    assert_eq!(Rc::strong_count(&payload), 5);
    drop(first);
    assert_eq!(Rc::strong_count(&payload), 4);
    drop(it);
    assert_eq!(Rc::strong_count(&payload), 1);
}

#[test]
fn write_then_convert_scenario() {
    let mut arr: Array<i32> = Array::new(5).unwrap();
    assert_eq!(arr.size(), 5);
    for i in 0..5 {
        arr.set(i, i as i32);
    }
    assert_eq!(arr.try_get(10), None);
    assert_eq!(arr.into_vec(), vec![0, 1, 2, 3, 4]);
}
