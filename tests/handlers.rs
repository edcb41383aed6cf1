use todo_api::handlers::{
    add_todo, complete_todo, find_todo, get_todo, store_failure, todo_response, uncomplete_todo,
};
use todo_api::model::MutationKind;
use todo_api::response::{Reply, Status};
use todo_api::store::Store;

fn ok_todo(r: &Reply) -> (usize, String, bool) {
    let env = match &r.1 {
        Ok(env) => env,
        Err(_) => panic!("expected a successful envelope"),
    };
    assert!(env.success);
    assert!(env.error.is_none());
    let t = env.todo.as_ref().expect("envelope without item");
    (t.id, t.description.clone(), t.completed)
}

fn err_text(r: &Reply) -> String {
    let env = match &r.1 {
        Ok(_) => panic!("expected a failed envelope"),
        Err(env) => env,
    };
    assert!(!env.success);
    assert!(env.todo.is_none());
    env.error.clone().expect("envelope without error")
}

#[test]
fn scenario_buy_milk() {
    let mut s = Store::new();
    let r = add_todo(&mut s, String::from("buy milk"));
    assert_eq!(r.0, Status::Created);
    assert_eq!(r.0.code(), 201);
    assert_eq!(ok_todo(&r), (1, String::from("buy milk"), false));

    let r = add_todo(&mut s, String::from("buy milk"));
    assert_eq!(r.0.code(), 400);
    assert_eq!(err_text(&r), "already exists");

    let r = complete_todo(&mut s, 1);
    assert_eq!(r.0.code(), 200);
    assert_eq!(ok_todo(&r), (1, String::from("buy milk"), true));

    let r = get_todo(&mut s, 2);
    assert_eq!(r.0.code(), 400);
    assert_eq!(err_text(&r), "not found");
}

#[test]
fn distinct_creations_get_ids_one_to_n() {
    let mut s = Store::new();
    let names = ["a", "b", "c", "d", "e"];
    for (i, n) in names.iter().enumerate() {
        let r = add_todo(&mut s, String::from(*n));
        assert_eq!(r.0, Status::Created);
        assert_eq!(ok_todo(&r), (i + 1, String::from(*n), false));
    }
    for (i, n) in names.iter().enumerate() {
        let r = get_todo(&mut s, i + 1);
        assert_eq!(ok_todo(&r), (i + 1, String::from(*n), false));
    }
}

#[test]
fn duplicate_description_succeeds_once() {
    let mut s = Store::new();
    let first = add_todo(&mut s, String::from("x"));
    let second = add_todo(&mut s, String::from("x"));
    assert_eq!(first.0, Status::Created);
    assert_eq!(second.0, Status::BadRequest);
    assert_eq!(err_text(&second), "already exists");
    // the refused creation used no identifier
    let third = add_todo(&mut s, String::from("y"));
    assert_eq!(ok_todo(&third).0, 2);
}

#[test]
fn descriptions_compare_exactly() {
    let mut s = Store::new();
    assert_eq!(add_todo(&mut s, String::from("Milk")).0, Status::Created);
    assert_eq!(add_todo(&mut s, String::from("milk")).0, Status::Created);
    assert_eq!(add_todo(&mut s, String::from("milk ")).0, Status::Created);
    assert!(s.exists_with_description(&String::from("milk ")));
    assert!(!s.exists_with_description(&String::from("MILK")));
}

#[test]
fn empty_description_is_accepted() {
    let mut s = Store::new();
    let r = add_todo(&mut s, String::new());
    assert_eq!(ok_todo(&r), (1, String::new(), false));
    assert_eq!(err_text(&add_todo(&mut s, String::new())), "already exists");
}

#[test]
fn complete_and_uncomplete_then_get() {
    let mut s = Store::new();
    add_todo(&mut s, String::from("task"));
    assert_eq!(ok_todo(&complete_todo(&mut s, 1)).2, true);
    assert_eq!(ok_todo(&get_todo(&mut s, 1)).2, true);
    assert_eq!(ok_todo(&uncomplete_todo(&mut s, 1)).2, false);
    assert_eq!(ok_todo(&get_todo(&mut s, 1)).2, false);
}

#[test]
fn complete_twice_is_idempotent() {
    let mut s = Store::new();
    add_todo(&mut s, String::from("task"));
    let a = complete_todo(&mut s, 1);
    let b = complete_todo(&mut s, 1);
    assert_eq!(a.0, Status::Success);
    assert_eq!(b.0, Status::Success);
    assert_eq!(ok_todo(&a), ok_todo(&b));
    let c = uncomplete_todo(&mut s, 1);
    let d = uncomplete_todo(&mut s, 1);
    assert_eq!(ok_todo(&c), ok_todo(&d));
    assert_eq!(ok_todo(&d).2, false);
}

#[test]
fn missing_id_is_not_found_and_changes_nothing() {
    let mut s = Store::new();
    add_todo(&mut s, String::from("one"));
    for r in [get_todo(&mut s, 0), complete_todo(&mut s, 7), uncomplete_todo(&mut s, 2)] {
        assert_eq!(r.0, Status::BadRequest);
        assert_eq!(r.0.code(), 400);
        assert_eq!(err_text(&r), "not found");
    }
    assert_eq!(ok_todo(&get_todo(&mut s, 1)), (1, String::from("one"), false));
    assert_eq!(ok_todo(&add_todo(&mut s, String::from("two"))).0, 2);
}

#[test]
fn successful_replies_round_trip_through_get() {
    let mut s = Store::new();
    let created = ok_todo(&add_todo(&mut s, String::from("write report")));
    assert_eq!(ok_todo(&get_todo(&mut s, created.0)), created);
    let done = ok_todo(&complete_todo(&mut s, created.0));
    assert_eq!(ok_todo(&get_todo(&mut s, done.0)), done);
    let undone = ok_todo(&uncomplete_todo(&mut s, created.0));
    assert_eq!(ok_todo(&get_todo(&mut s, undone.0)), undone);
}

#[test]
fn find_todo_applies_the_mutation() {
    let mut s = Store::new();
    add_todo(&mut s, String::from("p"));
    add_todo(&mut s, String::from("q"));
    let (status, found) = find_todo(&mut s, 2, MutationKind::SetCompleted(true));
    assert_eq!(status, Status::Success);
    let t = found.expect("item 2 exists");
    assert_eq!((t.id, t.description.as_str(), t.completed), (2, "q", true));
    let (status, found) = find_todo(&mut s, 3, MutationKind::Keep);
    assert_eq!(status, Status::BadRequest);
    assert_eq!(found.err(), Some(String::from("not found")));
    // item 1 was untouched
    assert_eq!(ok_todo(&todo_response(&mut s, 1, MutationKind::Keep)), (1, String::from("p"), false));
}

#[test]
fn store_failure_is_internal_error() {
    let r = store_failure(String::from("poisoned lock: another task failed inside"));
    assert_eq!(r.0, Status::InternalServerError);
    assert_eq!(r.0.code(), 500);
    assert_eq!(err_text(&r), "poisoned lock: another task failed inside");
}
