use hunter2::search_index::{deletion_plan, url_filter, MemorySearchIndex, Output, SearchIndexPort};
use hunter2::vacancy::{Account, Vacancy};

fn vacancy(id: &str, content: &str) -> Vacancy {
    Vacancy {
        id: id.to_string(),
        uri: format!("https://example.com/users/foo/statuses/{}", id),
        url: Some(format!("https://example.com/@foo@example.com/{}", id)),
        account: Account {
            id: "1".to_string(),
            acct: "foo".to_string(),
            avatar: "".to_string(),
            avatar_static: "".to_string(),
            display_name: "Foo".to_string(),
            url: "https://example.com/@foo".to_string(),
            username: "foo".to_string(),
        },
        content: content.to_string(),
        created_at: 0,
        in_reply_to_id: None,
        media_attachments: vec![],
        tags: vec![],
        card: None,
        language: None,
    }
}

#[test]
fn upserting_twice_keeps_one_document_with_the_latest_content() {
    let mut index = MemorySearchIndex::new();
    index.upsert(vacancy("42", "We are hiring"));
    index.upsert(vacancy("42", "We are still hiring"));
    assert_eq!(index.len(), 1);
    assert_eq!(
        index.get("42").map(|d| d.content.clone()),
        Some("We are still hiring".to_string())
    );
}

#[test]
fn upserting_distinct_ids_keeps_both() {
    let mut index = MemorySearchIndex::new();
    index.upsert(vacancy("42", "a"));
    index.upsert(vacancy("43", "b"));
    assert_eq!(index.len(), 2);
    assert!(index.contains_id("42"));
    assert!(index.contains_id("43"));
    assert!(!index.contains_id("4"));
}

#[test]
fn deleting_removes_only_that_document() {
    let mut index = MemorySearchIndex::new();
    index.upsert(vacancy("42", "a"));
    index.upsert(vacancy("43", "b"));
    assert!(index.delete("42"));
    assert!(!index.delete("42"));
    assert!(!index.contains_id("42"));
    assert!(index.contains_id("43"));
    assert_eq!(index.len(), 1);
}

#[test]
fn empty_index_holds_nothing() {
    let index = MemorySearchIndex::new();
    assert_eq!(index.len(), 0);
    assert!(!index.contains_id(""));
    assert!(index.get("42").is_none());
}

#[test]
fn url_filter_quotes_the_url() {
    assert_eq!(
        url_filter("https://example.com/@foo@example.com/1337"),
        "url = 'https://example.com/@foo@example.com/1337'"
    );
}

#[test]
fn deletion_plan_without_hits_is_an_error() {
    let err = deletion_plan("https://example.com/@foo/1", vec![]).unwrap_err();
    assert_eq!(
        err.message(),
        "could not find a vacancy with url: https://example.com/@foo/1"
    );
    assert_eq!(
        err.describe(),
        "Error while processing command: could not find a vacancy with url: https://example.com/@foo/1"
    );
}

#[test]
fn deletion_plan_deletes_every_hit() {
    let ids = vec!["42".to_string(), "43".to_string()];
    assert_eq!(
        deletion_plan("https://example.com/@foo/1", ids.clone()).ok(),
        Some(ids)
    );
}

#[test]
fn ports_write_only_when_switched_on() {
    let v = vacancy("42", "a");
    assert!(SearchIndexPort::new(true).handle_vacancy(&v));
    assert!(!SearchIndexPort::new(false).handle_vacancy(&v));
    assert!(Output::new(true).handle_vacancy(&v));
    assert!(!Output::new(false).handle_vacancy(&v));
}
