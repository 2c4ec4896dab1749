use std::collections::HashMap;
use uservice::names::NameMap;

#[derive(Debug)]
struct TestMe {
    pub name: String,
}

impl TestMe {
    pub fn new(name: &str) -> TestMe {
        println!("I am creating: {}", name);
        TestMe { name: name.to_string() }
    }
}

impl Drop for TestMe {
    fn drop(&mut self) {
        println!("Dropping TestMe! {:?}", self);
    }
}

#[test]
fn lifetime_validation() {
    let ben = TestMe::new("hello");
    println!("ben obj: {:?}", ben);

    let roy = ben;
    println!("Roy obj: {:?}", roy);

    let mut dave = HashMap::new();

    dave.insert("roy", roy);

    println!("Dave Obj: {:?}", dave);
}

#[test]
fn a_table_owns_what_is_entered_and_hands_it_back() {
    let mut table: NameMap<TestMe> = NameMap::new();
    assert!(table.insert("roy".to_string(), TestMe::new("hello")).is_none());
    assert_eq!(table.get("roy").unwrap().name, "hello");
    let replaced = table.insert("roy".to_string(), TestMe::new("again")).unwrap();
    assert_eq!(replaced.name, "hello");
    let removed = table.remove("roy").unwrap();
    assert_eq!(removed.name, "again");
    assert!(table.remove("roy").is_none());
    assert_eq!(table.len(), 0);
}

#[test]
fn a_table_keeps_the_order_of_entry() {
    let mut table: NameMap<u32> = NameMap::new();
    assert_eq!(table.len(), 0);
    assert_eq!(table.insert("a".to_string(), 1), None);
    assert_eq!(table.insert("b".to_string(), 2), None);
    assert_eq!(table.insert("c".to_string(), 3), None);
    assert_eq!(table.len(), 3);
    assert_eq!(table.position("a"), Some(0));
    assert_eq!(table.position("c"), Some(2));
    assert_eq!(table.position("d"), None);
    assert_eq!(table.name_at(1), "b");
    assert_eq!(*table.value_at(1), 2);

    assert_eq!(table.insert("a".to_string(), 10), Some(1));
    assert_eq!(table.len(), 3);
    assert_eq!(table.name_at(0), "b");
    assert_eq!(table.name_at(1), "c");
    assert_eq!(table.name_at(2), "a");
    assert_eq!(table.get("a"), Some(&10));
    assert!(table.contains("b"));
    assert!(!table.contains("B"));

    assert_eq!(table.remove("c"), Some(3));
    assert_eq!(table.remove("c"), None);
    assert_eq!(table.len(), 2);
    assert_eq!(table.name_at(0), "b");
    assert_eq!(table.name_at(1), "a");
    assert_eq!(table.get("c"), None);
}
