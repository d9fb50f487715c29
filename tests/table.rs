use notes_api::{index, no_db_endpoint, no_db_endpoint2, Body, NewNote, Note, NoteTable, Reply};

fn s(v: &str) -> Option<String> {
    Some(v.to_string())
}

fn notes_of(r: Reply) -> Vec<Note> {
    assert_eq!(r.status, 200);
    match r.body {
        Body::Notes(v) => v,
        Body::Text(t) => panic!("expected notes, got {}", t),
    }
}

#[test]
fn create_then_list_on_empty_table() {
    let mut t = NoteTable::new();
    let r = t.post(s("a"), s("b"));
    assert_eq!(r.status, 201);
    let v = notes_of(t.get_notes());
    assert_eq!(v.len(), 1);
    assert_eq!((v[0].id, v[0].title.as_str(), v[0].content.as_str()), (1, "a", "b"));
}

#[test]
fn list_keeps_newest_hundred_of_101() {
    let mut t = NoteTable::new();
    for i in 1..=101 {
        let r = t.post(Some(format!("t{}", i)), Some(format!("c{}", i)));
        assert_eq!(r.status, 201);
    }
    let v = notes_of(t.get_notes());
    assert_eq!(v.len(), 100);
    let ids: Vec<i32> = v.iter().map(|n| n.id).collect();
    let expected: Vec<i32> = (2..=101).rev().collect();
    assert_eq!(ids, expected);
    assert_eq!(v[0].title, "t101");
    assert_eq!(v[99].content, "c2");
}

#[test]
fn created_notes_get_increasing_ids_and_list_first() {
    let mut t = NoteTable::new();
    let a = t.insert(NewNote { title: "x".to_string(), content: "y".to_string() }).unwrap();
    let b = t.insert(NewNote { title: "p".to_string(), content: "q".to_string() }).unwrap();
    assert!(b > a);
    let v = t.list().unwrap();
    assert_eq!(v[0].id, b);
    assert_eq!(v[0].title, "p");
    assert_eq!(v[1].id, a);
}

#[test]
fn missing_field_inserts_nothing() {
    let mut t = NoteTable::new();
    let r = t.post(None, s("b"));
    assert_eq!(r.status, 400);
    assert!(matches!(r.body, Body::Text(ref m) if m == "missing field `title`"));
    let r = t.post(s("a"), None);
    assert_eq!(r.status, 400);
    assert!(matches!(r.body, Body::Text(ref m) if m == "missing field `content`"));
    assert_eq!(t.len(), 0);
    assert!(notes_of(t.get_notes()).is_empty());
}

#[test]
fn outage_gives_500_and_static_routes_stay_200() {
    let mut t = NoteTable::new();
    assert_eq!(t.post(s("a"), s("b")).status, 201);
    t.set_available(false);
    let r = t.get_notes();
    assert_eq!(r.status, 500);
    assert!(matches!(r.body, Body::Text(ref m) if m == "Error fetching notes: connection closed"));
    let r = t.post(s("c"), s("d"));
    assert_eq!(r.status, 500);
    assert!(matches!(r.body, Body::Text(ref m) if m == "Error creating note: connection closed"));
    assert_eq!(index().status, 200);
    assert_eq!(no_db_endpoint().status, 200);
    assert_eq!(no_db_endpoint2().status, 200);
    t.set_available(true);
    assert_eq!(t.len(), 1);
    assert_eq!(notes_of(t.get_notes()).len(), 1);
}

#[test]
fn list_on_empty_table_is_empty() {
    let t = NoteTable::new();
    assert!(t.list().unwrap().is_empty());
}
