use hunter2::classify::{has_indexme_request, has_job_related_tags, id_from_uri};
use hunter2::job_tags::{JobTagsMemoryRepository, JobTagsRepository};
use hunter2::vacancy::Tag;

fn job_tags_repository() -> impl JobTagsRepository {
    JobTagsMemoryRepository {
        tags: vec!["jobs".to_string()],
    }
}

#[test]
fn socket_client_test_has_job_related_tags_with_jobs_tag() {
    let tags = vec![Tag {
        url: "".to_string(),
        name: "jobs".to_string(),
    }];
    assert!(has_job_related_tags(&tags, &job_tags_repository()))
}

#[test]
fn socket_client_test_has_job_related_tags_with_multiple_tags() {
    let tags = vec![
        Tag {
            url: "".to_string(),
            name: "jobs".to_string(),
        },
        Tag {
            url: "".to_string(),
            name: "steve".to_string(),
        },
    ];
    assert!(has_job_related_tags(&tags, &job_tags_repository()))
}

#[test]
fn socket_client_test_has_no_job_related_tags_without_tags() {
    let tags = vec![];
    assert!(!has_job_related_tags(&tags, &job_tags_repository()))
}

#[test]
fn socket_client_test_has_no_job_related_tags_without_allowed_tags() {
    let tags = vec![Tag {
        url: "".to_string(),
        name: "steve".to_string(),
    }];
    assert!(!has_job_related_tags(&tags, &job_tags_repository()))
}

#[test]
fn main_test_has_job_related_tags_with_jobs_tag() {
    let tags = vec![Tag {
        url: "".to_string(),
        name: "jobs".to_string(),
    }];
    assert!(has_job_related_tags(&tags, &job_tags_repository()))
}

#[test]
fn main_test_has_job_related_tags_with_multiple_tags() {
    let tags = vec![
        Tag {
            url: "".to_string(),
            name: "jobs".to_string(),
        },
        Tag {
            url: "".to_string(),
            name: "steve".to_string(),
        },
    ];
    assert!(has_job_related_tags(&tags, &job_tags_repository()))
}

#[test]
fn main_test_has_no_job_related_tags_without_tags() {
    let tags = vec![];
    assert!(!has_job_related_tags(&tags, &job_tags_repository()))
}

#[test]
fn main_test_has_no_job_related_tags_without_allowed_tags() {
    let tags = vec![Tag {
        url: "".to_string(),
        name: "steve".to_string(),
    }];
    assert!(!has_job_related_tags(&tags, &job_tags_repository()))
}

#[test]
fn job_tags_match_exactly_and_case_sensitively() {
    let tags = vec![Tag {
        url: "".to_string(),
        name: "Jobs".to_string(),
    }];
    assert!(!has_job_related_tags(&tags, &job_tags_repository()));
    let tags = vec![Tag {
        url: "".to_string(),
        name: "job".to_string(),
    }];
    assert!(!has_job_related_tags(&tags, &job_tags_repository()));
}

#[test]
fn no_job_related_tags_with_an_empty_tag_set() {
    let repository = JobTagsMemoryRepository { tags: vec![] };
    let tags = vec![Tag {
        url: "".to_string(),
        name: "jobs".to_string(),
    }];
    assert!(!has_job_related_tags(&tags, &repository));
}

#[test]
fn socket_client_test_notification_has_request_to_index_with_phrase() {
    let content =
        String::from("<p>Hi there, @hunter2@example.com, please index this, if you will?<p>");
    assert!(has_indexme_request(&content))
}

#[test]
fn socket_client_test_notification_has_request_to_index_with_word() {
    let content = String::from("<p>indexthis<p>");
    assert!(has_indexme_request(&content))
}

#[test]
fn socket_client_test_notification_has_request_to_index_with_tag() {
    let content = String::from("<p>please <a href=\"\">#indexthis</a>!<p>");
    assert!(has_indexme_request(&content))
}

#[test]
fn socket_client_test_notification_has_no_request_to_index_with_phrase() {
    let content = String::from("<p>are you a bot?<p>");
    assert!(!has_indexme_request(&content))
}

#[test]
fn socket_client_test_notification_has_no_request_to_index_with_stretched_phrase() {
    let content = String::from("<p>Where is the index? Could you tell me?<p>");
    assert!(!has_indexme_request(&content))
}

#[test]
fn socket_client_test_notification_has_no_request_to_index_with_partial_words() {
    let content = String::from("<p>reindex thistle<p>");
    assert!(!has_indexme_request(&content))
}

#[test]
fn main_test_notification_has_request_to_index_with_phrase() {
    let content =
        String::from("<p>Hi there, @hunter2@example.com, please index this, if you will?<p>");
    assert!(has_indexme_request(&content))
}

#[test]
fn main_test_notification_has_request_to_index_with_word() {
    let content = String::from("<p>indexthis<p>");
    assert!(has_indexme_request(&content))
}

#[test]
fn main_test_notification_has_request_to_index_with_tag() {
    let content = String::from("<p>please <a href=\"\">#indexthis</a>!<p>");
    assert!(has_indexme_request(&content))
}

#[test]
fn main_test_notification_has_no_request_to_index_with_phrase() {
    let content = String::from("<p>are you a bot?<p>");
    assert!(!has_indexme_request(&content))
}

#[test]
fn main_test_notification_has_no_request_to_index_with_stretched_phrase() {
    let content = String::from("<p>Where is the index? Could you tell me?<p>");
    assert!(!has_indexme_request(&content))
}

#[test]
fn main_test_notification_has_no_request_to_index_with_partial_words() {
    let content = String::from("<p>reindex thistle<p>");
    assert!(!has_indexme_request(&content))
}

#[test]
fn indexme_request_not_matched_with_a_word_between() {
    assert!(!has_indexme_request("<p>index like this</p>"));
}

#[test]
fn indexme_request_needs_a_character_before_and_after() {
    assert!(!has_indexme_request("index this"));
    assert!(has_indexme_request(" index\tthis."));
}

#[test]
fn test_id_from_uri_with_proper_uri() {
    let uri = "https://example.com/@foo@example.com/1337".to_string();
    assert_eq!(Some("1337".to_string()), id_from_uri(uri));
}

#[test]
fn test_id_from_uri_without_id_at_end() {
    let uri = "https://example.com/@foo@example.com/1337fail".to_string();
    assert_eq!(None, id_from_uri(uri));
}

#[test]
fn test_id_from_uri_with_only_id() {
    let uri = "1337".to_string();
    assert_eq!(Some("1337".to_string()), id_from_uri(uri));
}

#[test]
fn id_from_uri_takes_only_the_last_segment() {
    assert_eq!(
        Some("42".to_string()),
        id_from_uri("https://example.com/1337/42".to_string())
    );
    assert_eq!(None, id_from_uri("https://example.com/1337/x42".to_string()));
}
