use customer_agent::name_map::NameMap;
use customer_agent::names::{clone_name_lists, clone_names, contains, position};

fn names(list: &[&str]) -> Vec<String> {
    list.iter().map(|name| name.to_string()).collect()
}

#[test]
fn new_map_is_empty() {
    let map: NameMap<u32> = NameMap::new();
    assert_eq!(map.len(), 0);
    assert!(map.get(&"a".to_string()).is_none());
    assert!(!map.contains_key(&"a".to_string()));
    assert_eq!(map.position(&"a".to_string()), None);
}

#[test]
fn insert_keeps_the_order_of_first_insertion() {
    let mut map: NameMap<u32> = NameMap::new();
    map.insert("b".to_string(), 2);
    map.insert("a".to_string(), 1);
    map.insert("c".to_string(), 3);
    assert_eq!(map.len(), 3);
    assert_eq!(map.name_at(0), "b");
    assert_eq!(map.name_at(1), "a");
    assert_eq!(map.name_at(2), "c");
    assert_eq!(*map.value_at(0), 2);
    assert_eq!(*map.value_at(1), 1);
    assert_eq!(*map.value_at(2), 3);
    assert_eq!(map.position(&"a".to_string()), Some(1));
    assert_eq!(map.get(&"c".to_string()), Some(&3));
    assert!(map.contains_key(&"b".to_string()));
    assert!(!map.contains_key(&"d".to_string()));
}

#[test]
fn insert_under_a_held_name_replaces_the_value_in_place() {
    let mut map: NameMap<u32> = NameMap::new();
    map.insert("b".to_string(), 2);
    map.insert("a".to_string(), 1);
    map.insert("b".to_string(), 20);
    assert_eq!(map.len(), 2);
    assert_eq!(map.name_at(0), "b");
    assert_eq!(*map.value_at(0), 20);
    assert_eq!(map.get(&"b".to_string()), Some(&20));
    assert_eq!(map.get(&"a".to_string()), Some(&1));
}

#[test]
fn position_is_the_first_place_of_a_name() {
    let list = names(&["x", "y", "x", "z"]);
    assert_eq!(position(&list, &"x".to_string()), Some(0));
    assert_eq!(position(&list, &"y".to_string()), Some(1));
    assert_eq!(position(&list, &"z".to_string()), Some(3));
    assert_eq!(position(&list, &"w".to_string()), None);
    assert_eq!(position(&names(&[]), &"x".to_string()), None);
}

#[test]
fn contains_tells_whether_a_name_is_held() {
    let list = names(&["x", "y"]);
    assert!(contains(&list, &"y".to_string()));
    assert!(!contains(&list, &"".to_string()));
    assert!(!contains(&names(&[]), &"x".to_string()));
}

#[test]
fn copies_hold_the_same_names() {
    let list = names(&["x", "y", "x"]);
    assert_eq!(clone_names(&list), list);
    let lists = vec![names(&["a"]), names(&[]), names(&["b", "c"])];
    assert_eq!(clone_name_lists(&lists), lists);
}
