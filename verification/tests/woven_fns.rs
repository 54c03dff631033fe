use aspect::shared::share_all;
use aspect::woven_fns::WovenFns;
use std::rc::Rc;

fn list(values: &[u32]) -> Vec<Rc<u32>> {
    values.iter().map(|v| Rc::new(*v)).collect()
}

fn plain(list: &Vec<Rc<u32>>) -> Vec<u32> {
    list.iter().map(|v| **v).collect()
}

#[test]
fn new_mapping_is_empty() {
    let woven: WovenFns<u32> = WovenFns::new();
    assert_eq!(woven.len(), 0);
    assert!(woven.get("anything").is_none());
    assert!(woven.get_index(0).is_none());
}

#[test]
fn insert_records_in_order() {
    let mut woven: WovenFns<u32> = WovenFns::new();
    woven.insert("first".to_string(), list(&[1]));
    woven.insert("second".to_string(), list(&[2, 3]));
    woven.insert("third".to_string(), list(&[]));
    assert_eq!(woven.len(), 3);

    let (name, attrs) = woven.get_index(0).unwrap();
    assert_eq!(name, "first");
    assert_eq!(plain(attrs), vec![1]);
    let (name, attrs) = woven.get_index(1).unwrap();
    assert_eq!(name, "second");
    assert_eq!(plain(attrs), vec![2, 3]);
    let (name, attrs) = woven.get_index(2).unwrap();
    assert_eq!(name, "third");
    assert_eq!(plain(attrs), Vec::<u32>::new());
    assert!(woven.get_index(3).is_none());
}

#[test]
fn get_finds_by_name() {
    let mut woven: WovenFns<u32> = WovenFns::new();
    woven.insert("alpha".to_string(), list(&[10]));
    woven.insert("beta".to_string(), list(&[20]));
    assert_eq!(plain(woven.get("beta").unwrap()), vec![20]);
    assert_eq!(plain(woven.get("alpha").unwrap()), vec![10]);
    assert!(woven.get("gamma").is_none());
    assert!(woven.get("").is_none());
}

#[test]
fn a_name_recorded_again_keeps_its_place() {
    let mut woven: WovenFns<u32> = WovenFns::new();
    woven.insert("a".to_string(), list(&[1]));
    woven.insert("b".to_string(), list(&[2]));
    woven.insert("a".to_string(), list(&[3, 4]));
    assert_eq!(woven.len(), 2);
    let (name, attrs) = woven.get_index(0).unwrap();
    assert_eq!(name, "a");
    assert_eq!(plain(attrs), vec![3, 4]);
    let (name, attrs) = woven.get_index(1).unwrap();
    assert_eq!(name, "b");
    assert_eq!(plain(attrs), vec![2]);
    assert_eq!(plain(woven.get("a").unwrap()), vec![3, 4]);
}

#[test]
fn shared_list_points_to_the_same_values() {
    let first = list(&[7, 8, 9]);
    let second = share_all(&first);
    assert_eq!(plain(&second), vec![7, 8, 9]);
    assert!(Rc::ptr_eq(&first[0], &second[0]));
    assert!(Rc::ptr_eq(&first[2], &second[2]));
    assert_eq!(Rc::strong_count(&first[1]), 2);
    assert_eq!(share_all(&Vec::<Rc<u32>>::new()).len(), 0);
}
