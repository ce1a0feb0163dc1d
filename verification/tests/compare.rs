use some_mut::OptionExt;
use std::cmp::Ordering;

#[derive(Debug)]
struct Modulo3(u32);

impl PartialEq for Modulo3 {
    fn eq(&self, other: &Modulo3) -> bool {
        self.0 % 3 == other.0 % 3
    }
}

impl PartialOrd for Modulo3 {
    fn partial_cmp(&self, other: &Modulo3) -> Option<Ordering> {
        if self.0 == 0 || other.0 == 0 {
            None
        } else {
            Some((self.0 % 3).cmp(&(other.0 % 3)))
        }
    }
}

#[test]
fn equality_is_the_values_equality() {
    let mut cell = Some(5u32);
    let handle = cell.some_mut().expect("occupied");
    assert!(handle == 5);
    assert!(!(handle == 6));
    assert!(handle != 6);
    assert!(!(handle != 5));
}

#[test]
fn equality_follows_a_custom_eq() {
    for (v, w) in [(1u32, 4u32), (2, 5), (1, 2), (3, 9), (7, 8)] {
        let expected = Modulo3(v) == Modulo3(w);
        let mut cell = Some(Modulo3(v));
        let handle = cell.some_mut().expect("occupied");
        assert_eq!(handle == Modulo3(w), expected);
    }
}

#[test]
fn ordering_is_the_values_ordering() {
    let mut cell = Some(5i64);
    let handle = cell.some_mut().expect("occupied");
    assert_eq!(handle.partial_cmp(&4), Some(Ordering::Greater));
    assert_eq!(handle.partial_cmp(&5), Some(Ordering::Equal));
    assert_eq!(handle.partial_cmp(&6), Some(Ordering::Less));
    assert!(handle < 6);
    assert!(handle <= 5);
    assert!(handle > 4);
    assert!(handle >= 5);
    assert!(!(handle < 5));
    assert!(!(handle > 5));
}

#[test]
fn ordering_follows_a_custom_partial_cmp() {
    for (v, w) in [(1u32, 4u32), (2, 4), (4, 2), (0, 1), (1, 0), (5, 5)] {
        let expected = Modulo3(v).partial_cmp(&Modulo3(w));
        let mut cell = Some(Modulo3(v));
        let handle = cell.some_mut().expect("occupied");
        assert_eq!(handle.partial_cmp(&Modulo3(w)), expected);
    }
}

#[test]
fn incomparable_values_stay_incomparable() {
    let mut cell = Some(f64::NAN);
    let handle = cell.some_mut().expect("occupied");
    assert_eq!(handle.partial_cmp(&1.0), None);
    assert!(!(handle == f64::NAN));
    assert!(!(handle < 1.0));
    assert!(!(handle >= 1.0));
}

#[test]
fn comparison_sees_a_write() {
    let mut cell = Some(String::from("a"));
    let mut handle = cell.some_mut().expect("occupied");
    assert!(handle < String::from("b"));
    handle.push('z');
    assert!(handle == String::from("az"));
    assert!(handle > String::from("ab"));
}
