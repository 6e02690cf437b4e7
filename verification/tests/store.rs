use gemini_client::CounterStore;
use gemini_client::JsonValue;

#[test]
fn set_records_and_get_finds() {
    let mut s = CounterStore::empty();
    s.set(String::from("2024-3-7"), 3);
    assert_eq!(s.get(&String::from("2024-3-7")), Some(3));
    assert_eq!(s.get(&String::from("2024-3-8")), None);
}

#[test]
fn set_overwrites_and_leaves_other_keys() {
    let mut s = CounterStore::empty();
    s.set(String::from("2024-3-7"), 3);
    s.set(String::from("2020-1-1"), 7);
    s.set(String::from("2024-3-7"), 4);
    assert_eq!(s.get(&String::from("2024-3-7")), Some(4));
    assert_eq!(s.get(&String::from("2020-1-1")), Some(7));
    assert_eq!(s.entries.len(), 2);
}

#[test]
fn from_doc_empty_object_is_empty_store() {
    let doc = JsonValue::Obj(Vec::new());
    let s = CounterStore::from_doc(&doc).unwrap();
    assert!(s.entries.is_empty());
}

#[test]
fn from_doc_takes_the_later_duplicate() {
    let doc = JsonValue::Obj(vec![
        (String::from("2024-3-7"), JsonValue::Num(1)),
        (String::from("2024-3-7"), JsonValue::Num(2)),
    ]);
    let s = CounterStore::from_doc(&doc).unwrap();
    assert_eq!(s.get(&String::from("2024-3-7")), Some(2));
    assert_eq!(s.entries.len(), 1);
}

#[test]
fn from_doc_rejects_a_non_count_value() {
    let doc = JsonValue::Obj(vec![(String::from("2024-3-7"), JsonValue::Null)]);
    assert!(CounterStore::from_doc(&doc).is_err());
}

#[test]
fn to_doc_mirrors_the_entries() {
    let mut s = CounterStore::empty();
    s.set(String::from("2024-3-7"), 3);
    match s.to_doc() {
        JsonValue::Obj(es) => {
            assert_eq!(es.len(), 1);
            assert_eq!(es[0].0, "2024-3-7");
            assert!(matches!(es[0].1, JsonValue::Num(3)));
        },
        _ => panic!("expected an object document"),
    }
}
