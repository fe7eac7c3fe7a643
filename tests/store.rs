use whispr::script::Script;
use whispr::store::{ScriptStore, StoreError};

fn s(x: &str) -> String {
    x.to_string()
}

fn store_with(times: &[i64]) -> ScriptStore {
    let mut st = ScriptStore::new();
    for (i, t) in times.iter().enumerate() {
        st.create_with(format!("id{}", i), format!("title{}", i), s("body"), *t).unwrap();
    }
    st
}

#[test]
fn create_on_empty_store_returns_full_record() {
    let mut st = ScriptStore::new();
    let rec = st.create(s("Intro"), s("Hello world")).unwrap();
    assert!(!rec.id.is_empty());
    assert_eq!(rec.id.chars().count(), 36);
    assert_eq!(rec.title, "Intro");
    assert_eq!(rec.content, "Hello world");
    assert_eq!(rec.created_at, rec.updated_at);
    assert_eq!(rec.words_per_minute, None);
    assert_eq!(rec.last_practice_duration, None);
    let all = st.list_all();
    assert_eq!(all.len(), 1);
    assert_eq!(all[0], rec);
}

#[test]
fn generated_ids_differ() {
    let mut st = ScriptStore::new();
    let a = st.create(s("A"), s("a")).unwrap();
    let b = st.create(s("B"), s("b")).unwrap();
    assert_ne!(a.id, b.id);
    assert_eq!(st.len(), 2);
}

#[test]
fn list_recent_returns_min_of_limit_and_total_newest_first() {
    let st = store_with(&[10, 30, 20, 40, 5]);
    for k in 0..8usize {
        let r = st.list_recent(k);
        assert_eq!(r.len(), k.min(5));
        for w in r.windows(2) {
            assert!(w[0].updated_at >= w[1].updated_at);
        }
    }
    let ids: Vec<String> = st.list_recent(3).into_iter().map(|r| r.id).collect();
    assert_eq!(ids, vec![s("id3"), s("id1"), s("id2")]);
    assert!(st.list_recent(0).is_empty());
}

#[test]
fn list_all_orders_by_updated_at_descending() {
    let st = store_with(&[1, 3, 2]);
    let times: Vec<i64> = st.list_all().iter().map(|r| r.updated_at).collect();
    assert_eq!(times, vec![3, 2, 1]);
}

#[test]
fn update_of_missing_id_is_not_found_and_creates_nothing() {
    let mut st = store_with(&[1, 2]);
    let before = st.list_all();
    assert_eq!(st.update("nope", s("t"), s("c")), Err(StoreError::NotFound));
    assert_eq!(st.update_at("nope", s("t"), s("c"), 9), Err(StoreError::NotFound));
    assert_eq!(st.list_all(), before);
}

#[test]
fn update_rewrites_text_and_moves_to_front() {
    let mut st = store_with(&[1, 2, 3]);
    st.update_practice_stats_at("id0", Some(7), Some(8), 4).unwrap();
    st.update_at("id1", s("new title"), s("new body"), 10).unwrap();
    let all = st.list_all();
    assert_eq!(all.len(), 3);
    assert_eq!(all[0].id, "id1");
    assert_eq!(all[0].title, "new title");
    assert_eq!(all[0].content, "new body");
    assert_eq!(all[0].created_at, 2);
    assert_eq!(all[0].updated_at, 10);
    assert_eq!(all[1].id, "id0");
    assert_eq!(all[1].words_per_minute, Some(7));
    assert_eq!(all[1].last_practice_duration, Some(8));
    assert_eq!(all[1].title, "title0");
}

#[test]
fn update_keeps_practice_statistics() {
    let mut st = store_with(&[1]);
    st.update_practice_stats_at("id0", Some(120), Some(60), 2).unwrap();
    st.update("id0", s("x"), s("y")).unwrap();
    let r = &st.list_all()[0];
    assert_eq!(r.words_per_minute, Some(120));
    assert_eq!(r.last_practice_duration, Some(60));
    assert_eq!(r.title, "x");
}

#[test]
fn practice_stats_of_missing_id_is_not_found() {
    let mut st = store_with(&[1]);
    assert_eq!(st.update_practice_stats("zz", None, None), Err(StoreError::NotFound));
}

#[test]
fn delete_twice_equals_delete_once() {
    let mut once = store_with(&[1, 2, 3]);
    let mut twice = store_with(&[1, 2, 3]);
    once.delete("id1");
    twice.delete("id1");
    twice.delete("id1");
    assert_eq!(once.list_all(), twice.list_all());
    assert_eq!(once.len(), 2);
    once.delete("absent");
    assert_eq!(once.len(), 2);
}

#[test]
fn duplicate_id_is_refused() {
    let mut st = store_with(&[1]);
    assert_eq!(
        st.create_with(s("id0"), s("t"), s("c"), 5),
        Err(StoreError::DuplicateId)
    );
    let rec = Script::fresh(s("id0"), s("t"), s("c"), 5);
    assert_eq!(st.insert(rec), Err(StoreError::DuplicateId));
    assert_eq!(st.len(), 1);
}

#[test]
fn get_content_reads_the_script() {
    let mut st = ScriptStore::new();
    st.create_with(s("a"), s("T"), s("words"), 1).unwrap();
    assert_eq!(st.get_content("a"), Ok(s("words")));
    assert_eq!(st.get_content("b"), Err(StoreError::NotFound));
}

#[test]
fn deleted_ids_are_never_reused() {
    let mut st = store_with(&[1, 2]);
    st.delete("id0");
    assert_eq!(
        st.create_with(s("id0"), s("again"), s("c"), 9),
        Err(StoreError::DuplicateId)
    );
    let rec = Script::fresh(s("id0"), s("t"), s("c"), 5);
    assert_eq!(st.insert(rec), Err(StoreError::DuplicateId));
    assert_eq!(st.len(), 1);
    st.delete("never-stored");
    assert_eq!(st.create_with(s("never-stored"), s("t"), s("c"), 3).map(|r| r.id), Ok(s("never-stored")));
}

#[test]
fn get_returns_a_copy_of_the_record() {
    let st = store_with(&[4]);
    let r = st.get("id0").unwrap();
    assert_eq!(r.title, "title0");
    assert_eq!(r.updated_at, 4);
    assert_eq!(st.get("zz"), Err(StoreError::NotFound));
}
