use assassin::namelist::Namelist;

#[test]
fn new_list_is_empty() {
    let n = Namelist::new();
    assert_eq!(n.get("start"), None);
}

#[test]
fn get_after_insert() {
    let mut n = Namelist::new();
    n.insert("start".to_string(), 0x100);
    n.insert("loop".to_string(), 0x104);
    assert_eq!(n.get("start"), Some(&0x100));
    assert_eq!(n.get("loop"), Some(&0x104));
    assert_eq!(n.get("end"), None);
    assert_eq!(n.get("Start"), None);
}

#[test]
fn insert_replaces() {
    let mut n = Namelist::new();
    n.insert("x".to_string(), 1);
    n.insert("x".to_string(), 2);
    assert_eq!(n.get("x"), Some(&2));
}
