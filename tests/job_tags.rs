use hunter2::error::ProcessingError;
use hunter2::job_tags::{tags, JobTagsFileRepository, JobTagsMemoryRepository, JobTagsRepository};

#[test]
fn every_line_of_a_tag_file_is_a_tag() {
    assert_eq!(tags("jobs\nhiring\nvacancy"), vec!["jobs", "hiring", "vacancy"]);
    assert_eq!(tags("jobs\r\nhiring\r\n"), vec!["jobs", "hiring"]);
    assert_eq!(tags("jobs\n\nhiring\n"), vec!["jobs", "", "hiring"]);
    assert!(tags("").is_empty());
    assert_eq!(tags("\n"), vec![""]);
    assert_eq!(tags("jobs\r"), vec!["jobs\r"]);
}

#[test]
fn file_repository_keeps_its_file_name_and_tags() {
    let repository = JobTagsFileRepository::new("tags.txt".to_string(), "jobs\nhiring\n");
    assert_eq!(repository.file_name(), "tags.txt");
    assert_eq!(repository.tags(), vec!["jobs".to_string(), "hiring".to_string()]);
}

#[test]
fn memory_repository_gives_its_tags() {
    let repository = JobTagsMemoryRepository {
        tags: vec!["jobs".to_string()],
    };
    assert_eq!(repository.tags(), vec!["jobs".to_string()]);
}

#[test]
fn processing_error_describes_its_message() {
    let err = ProcessingError::new("boom".to_string());
    assert_eq!(err.message(), "boom");
    assert_eq!(err.describe(), "Error while processing command: boom");
}
