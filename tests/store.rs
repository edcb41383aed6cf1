use todo_api::model::MutationKind;
use todo_api::store::Store;
use todo_api::todo::Todo;

#[test]
fn store_insert_and_find() {
    let mut s = Store::new();
    assert!(!s.exists_with_description(&String::from("a")));
    let t = s.insert(String::from("a"));
    assert_eq!((t.id, t.description.as_str(), t.completed), (1, "a", false));
    assert!(s.exists_with_description(&String::from("a")));
    let t = s.insert(String::from("b"));
    assert_eq!(t.id, 2);
    let found = s.find_and_apply(1, MutationKind::SetCompleted(true)).expect("item 1");
    assert_eq!((found.id, found.description.as_str(), found.completed), (1, "a", true));
    let again = s.find_and_apply(1, MutationKind::Keep).expect("item 1");
    assert!(again.completed);
    assert!(s.find_and_apply(3, MutationKind::SetCompleted(true)).is_none());
}

#[test]
fn allocate_id_advances_the_counter() {
    let mut s = Store::new();
    assert!(s.can_allocate());
    assert_eq!(s.allocate_id(), 1);
    assert_eq!(s.allocate_id(), 2);
    let t = s.insert(String::from("z"));
    assert_eq!(t.id, 3);
    assert!(s.find_and_apply(1, MutationKind::Keep).is_none());
    assert!(s.find_and_apply(3, MutationKind::Keep).is_some());
}

#[test]
fn todo_mutations() {
    let mut t = Todo::new(4, String::from("d"));
    assert_eq!((t.id, t.completed), (4, false));
    t.complete();
    assert!(t.completed);
    t.apply(MutationKind::Keep);
    assert!(t.completed);
    t.uncomplete();
    assert!(!t.completed);
    t.apply(MutationKind::SetCompleted(true));
    assert!(t.completed);
    let c = t.snapshot();
    assert_eq!((c.id, c.description.as_str(), c.completed), (4, "d", true));
}
