use runtime_sized_array::Array;
use runtime_sized_array::ArrayError;

#[test]
fn as_mut_ptr() {
    let mut arr: Array<i32> = Array::from(vec![1, 2, 4]);
    let s = arr.as_mut_ptr();
    for i in 0..s.len() {
        if let Some(v) = s[i] {
            s[i] = Some(v + 2);
        }
    }
}

#[test]
fn as_ptr() {
    let arr: Array<i32> = Array::from(vec![1, 2, 4]);
    let s = arr.as_ptr();
    for i in 0..arr.size() {
        assert_eq!(*arr.index(i), s[i].unwrap());
    }
}

#[test]
fn get() {
    let arr: Array<i32> = Array::from(vec![1, 2, 4]);
    assert_eq!(arr.get(1), &2)
}

#[test]
fn get_mut() {
    let mut arr: Array<i32> = Array::from(vec![1, 2, 4]);
    *arr.get_mut(1) = 2;
}

#[test]
fn into_vec() {
    let vec = vec![1, 2, 4];
    let arr: Array<i32> = Array::from(vec.clone());
    assert_eq!(arr.into_vec(), vec);
}

#[test]
fn iter() {
    let arr: Array<i32> = Array::from(vec![1, 2, 4]);
    let mut iterator = arr.iter();

    assert_eq!(iterator.next(), Some(&1));
    assert_eq!(iterator.next(), Some(&2));
    assert_eq!(iterator.next(), Some(&4));
    assert_eq!(iterator.next(), None);
}

#[test]
fn iter_mut() {
    let mut arr: Array<i32> = Array::from(vec![1, 2, 4]);
    let mut it = arr.iter_mut();
    while let Some(elem) = it.next() {
        *elem += 2;
    }
    assert_eq!(*arr.index(0), 3);
}

#[test]
fn new() {
    let arr: Result<Array<i32>, ArrayError> = Array::new(5);
    assert!(arr.is_ok());
    let arr = arr.unwrap();
    assert_eq!(arr.size(), 5);
}

#[test]
fn set() {
    let mut arr: Array<i32> = Array::from(vec![1, 2, 4]);
    arr.set(1, 5);
}

#[test]
fn size() {
    let arr: Array<i32> = Array::from(vec![1, 2, 4]);
    assert_eq!(*arr.get(1), 2)
}

#[test]
fn take_from_iter() {
    let mut items = vec![0, 1, 2, 3, 4, 5];
    let arr: Array<i32> = Array::take_from_iter(&mut items, 3);

    for i in 0..3 {
        assert_eq!(*arr.index(i), i as i32)
    }
}

#[test]
fn try_get() {
    let arr: Array<i32> = Array::from(vec![1, 2, 4]);
    assert_eq!(arr.try_get(1), Some(&2));
    assert_eq!(arr.try_get(10), None);
}

#[test]
fn try_get_mut() {
    let mut arr: Array<i32> = Array::from(vec![1, 2, 4]);
    *arr.try_get_mut(1).unwrap() = 5;
    assert_eq!(arr.try_get_mut(10), None);
}

#[test]
fn try_set() {
    let mut arr: Array<i32> = Array::from(vec![1, 2, 4]);
    assert_eq!(arr.try_set(1, 5), Some(()));
    assert_eq!(arr.try_set(10, 4), None);
}
