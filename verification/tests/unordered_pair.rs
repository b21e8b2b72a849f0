use std::collections::HashSet;

use skewb::UnorderedPair;

#[test]
fn contains() {
    let x = UnorderedPair::new(2, 4);
    assert!(x.contains(&2));
    assert!(x.contains(&4));
    assert!(!x.contains(&3));
}

#[test]
fn disjoint() {
    let x = UnorderedPair::new(2, 4);
    let y = UnorderedPair::new(4, 2);
    let z = UnorderedPair::new(4, 3);
    let w = UnorderedPair::new(5, 3);

    assert!(!x.disjoint(&x));
    assert!(!x.disjoint(&y));
    assert!(!x.disjoint(&z));
    assert!(!z.disjoint(&w));

    assert!(x.disjoint(&w));
}

#[test]
fn eq() {
    let x = UnorderedPair::new(2, 4);
    let y = UnorderedPair::new(4, 2);
    let z = UnorderedPair::new(4, 3);
    assert_eq!(x, x);
    assert_eq!(y, y);
    assert_eq!(z, z);

    assert_eq!(x, y);
    assert_ne!(x, z);
    assert_ne!(y, z);
}

#[test]
fn hash() {
    let x = UnorderedPair::new(2, 4);
    let y = UnorderedPair::new(4, 2);
    let z = UnorderedPair::new(4, 3);

    let mut set = HashSet::new();
    assert!(set.insert(x));
    assert!(set.contains(&y));

    assert!(!set.insert(y));
    assert!(set.insert(z));
    assert!(!set.insert(y));

    assert!(set.contains(&x));
    assert!(set.contains(&y));
    assert!(set.contains(&z));

    set.remove(&y);
    assert!(!set.contains(&x));
}

#[test]
fn new_keeps_ends_as_given() {
    let x = UnorderedPair::new(7, 3);
    assert_eq!(x.one, 7);
    assert_eq!(x.two, 3);

    let y = UnorderedPair::new(3, 7);
    assert_eq!(y.one, 3);
    assert_eq!(y.two, 7);
    assert_eq!(x, y);
}
