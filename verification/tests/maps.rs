use eframe_native::maps::{keys_of, retain_keys, retain_values};
use std::collections::{HashMap, HashSet};

#[test]
fn the_keys_come_out_once_each() {
    let map = HashMap::from([(3, 'a'), (5, 'b'), (8, 'b')]);
    let mut keys = keys_of(&map);
    keys.sort();
    assert_eq!(keys, vec![3, 5, 8]);
    assert!(keys_of(&HashMap::<u64, char>::new()).is_empty());
}

#[test]
fn entries_are_kept_by_key() {
    let mut map = HashMap::from([(3, 'a'), (5, 'b'), (8, 'c')]);
    retain_keys(&mut map, &HashSet::from([5, 8, 9]));
    assert_eq!(map, HashMap::from([(5, 'b'), (8, 'c')]));
}

#[test]
fn entries_are_kept_by_value() {
    let mut map = HashMap::from([(3, 1), (5, 2), (8, 1)]);
    retain_values(&mut map, &HashSet::from([1]));
    assert_eq!(map, HashMap::from([(3, 1), (8, 1)]));
}
