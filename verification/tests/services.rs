use deprank::contracts::allocation::Status as AllocationStatus;
use deprank::contracts::inquire::Status as InquireStatus;
use deprank::contracts::workflow::{Status as WorkflowStatus, StepType};
use deprank::errors::ApiError;
use deprank::repo::{extract_repo_name, unique_repo_dir};
use deprank::storage::StorageService;

fn chars(s: &str) -> Vec<char> {
    s.chars().collect()
}

fn string_of(v: &[char]) -> String {
    v.iter().collect()
}

#[test]
fn allocation_status_codes() {
    assert_eq!(AllocationStatus::Pending.code(), "0");
    assert_eq!(AllocationStatus::Executed.code(), "1");
    assert_eq!(AllocationStatus::Failed.code(), "2");
}

#[test]
fn step_type_codes() {
    assert_eq!(StepType::Receipt.code(), "1");
    assert_eq!(StepType::Inquire.code(), "2");
    assert_eq!(StepType::Sign.code(), "3");
    assert_eq!(StepType::Allocation.code(), "4");
}

#[test]
fn status_enums_compare() {
    assert_eq!(InquireStatus::Pending, InquireStatus::Pending);
    assert_ne!(WorkflowStatus::Created, WorkflowStatus::Completed);
}

#[test]
fn api_error_status_codes() {
    assert_eq!(ApiError::InternalServerError.status_code(), 500);
    assert_eq!(ApiError::NotFound.status_code(), 404);
    assert_eq!(ApiError::NotFoundWorkflow("w".to_string()).status_code(), 404);
    assert_eq!(ApiError::FailedToCreateWorkflow("w".to_string()).status_code(), 400);
    assert_eq!(ApiError::FailedToDeleteWorkflow("w".to_string()).status_code(), 500);
    assert_eq!(ApiError::NotFoundRepo("r".to_string()).status_code(), 500);
    assert_eq!(ApiError::BadWorkflowRequest("q".to_string()).status_code(), 400);
    assert_eq!(ApiError::FailedToDownloadRepo("r".to_string()).status_code(), 500);
}

#[test]
fn api_error_messages() {
    assert_eq!(ApiError::InternalServerError.message(), "Internal Server Error");
    assert_eq!(ApiError::NotFound.message(), "Not Found");
    assert_eq!(
        ApiError::NotFoundWorkflow("w1".to_string()).message(),
        "Not Found Workflow: w1"
    );
    assert_eq!(
        ApiError::FailedToDownloadRepo("timeout".to_string()).message(),
        "Failed to download repository: timeout"
    );
}

#[test]
fn storage_fetch_dir_shape() {
    let svc = StorageService::new("/tmp/cache");
    assert_eq!(svc.cache_dir(), "/tmp/cache");
    let dir = svc.fetch_dir("https://github.com/octocat/Hello-World").unwrap();
    assert!(dir.starts_with("octocat/Hello-World/"));
    let token = &dir["octocat/Hello-World/".len()..];
    assert_eq!(token.len(), 32);
    assert!(token.chars().all(|c| c.is_ascii_hexdigit() && !c.is_ascii_uppercase()));
}

#[test]
fn storage_fetch_dir_tokens_differ() {
    let svc = StorageService::new("cache");
    let a = svc.fetch_dir("https://github.com/octocat/Hello-World").unwrap();
    let b = svc.fetch_dir("https://github.com/octocat/Hello-World").unwrap();
    assert_ne!(a, b);
}

#[test]
fn storage_fetch_dir_rejects_bad_url() {
    let svc = StorageService::new("cache");
    let err = svc.fetch_dir("not a url").unwrap_err();
    assert!(matches!(err, ApiError::NotFoundRepo(_)));
    assert_eq!(err.status_code(), 500);
}

#[test]
fn repo_name_extracted_from_url() {
    assert_eq!(
        string_of(&extract_repo_name(&chars("https://github.com/owner/project"))),
        "project"
    );
    assert_eq!(
        string_of(&extract_repo_name(&chars("https://github.com/owner/project.git"))),
        "project"
    );
    assert_eq!(
        string_of(&extract_repo_name(&chars("http://github.com/o/name/extra"))),
        "name"
    );
}

#[test]
fn repo_name_falls_back() {
    assert_eq!(string_of(&extract_repo_name(&chars("https://example.com/a/b"))), "github_repo");
    assert_eq!(string_of(&extract_repo_name(&chars("github.com//missing"))), "github_repo");
}

#[test]
fn unique_repo_dir_shape() {
    let dir = string_of(&unique_repo_dir(&chars("https://github.com/owner/project")));
    assert!(dir.starts_with("project_"));
    assert_eq!(dir.len(), "project_".len() + 8);
    let a = string_of(&unique_repo_dir(&chars("https://github.com/owner/project")));
    assert_ne!(dir, a);
}
