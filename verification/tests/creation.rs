use link_shortener::error::{ErrorKind, StoreError, StoreErrorKind};
use link_shortener::model::{Link, LinkSpecification};
use link_shortener::routes::{
    create_link, create_link_retry, first_attempt, CreateStep, InsertAttempt, DEFAULT_TIMEOUT,
    MAX_CREATE_ATTEMPTS,
};

const HOUR: i64 = 3_600_000_000;

fn specification(target_url: &str) -> LinkSpecification {
    LinkSpecification { target_url: target_url.to_string(), expiration: 1_700_000_000_000_000 + HOUR }
}

fn conflict() -> StoreError {
    StoreError { kind: StoreErrorKind::Conflict, cause: "duplicate key".to_string() }
}

fn stored(attempt: &InsertAttempt) -> Link {
    attempt.link.clone()
}

/// Drives a creation against scripted outcomes: a collision on each of the
/// first `conflicts` attempts, the row of the next stored. Returns how the
/// creation ended and how many attempts were made.
fn run_with_conflicts(target_url: &str, conflicts: usize) -> (CreateStep, usize, Vec<String>) {
    let mut attempt = create_link(&specification(target_url)).unwrap();
    let mut ids = vec![attempt.link.id.clone()];
    let mut attempts = 1;
    loop {
        let outcome = if attempts <= conflicts { Err(conflict()) } else { Ok(stored(&attempt)) };
        match create_link_retry(attempt, outcome) {
            CreateStep::Insert(next) => {
                attempts += 1;
                ids.push(next.link.id.clone());
                attempt = next;
            }
            step => return (step, attempts, ids),
        }
    }
}

#[test]
fn limits_are_the_documented_ones() {
    assert_eq!(MAX_CREATE_ATTEMPTS, 5);
    assert_eq!(DEFAULT_TIMEOUT, 300);
}

#[test]
fn create_link_gives_first_attempt_for_valid_target() {
    let attempt = create_link(&specification("https://example.com/page")).unwrap();
    assert_eq!(attempt.number, 1);
    assert_eq!(attempt.link.target_url, "https://example.com/page");
    assert_eq!(attempt.link.expiration, 1_700_000_000_000_000 + HOUR);
    assert_eq!(attempt.link.id.len(), 8);
    assert!(attempt.link.id.chars().all(|c| c.is_ascii_alphanumeric() || c == '-' || c == '_'));
}

#[test]
fn create_link_stores_the_normal_form_of_the_target() {
    let attempt = create_link(&specification("HTTP://Example.COM")).unwrap();
    assert_eq!(attempt.link.target_url, "http://example.com/");
}

#[test]
fn create_link_rejects_malformed_target_before_any_attempt() {
    for text in ["", "nonsense", "//example.com/x", "example.com/page"] {
        let error = create_link(&specification(text)).unwrap_err();
        assert_eq!(error.kind, ErrorKind::InvalidInput);
        assert_eq!(error.status(), 400);
        assert_eq!(error.message(), "Malformed url");
    }
}

#[test]
fn first_attempt_takes_the_target_as_given() {
    let attempt = first_attempt("https://example.com/".to_string(), -5);
    assert_eq!(attempt.number, 1);
    assert_eq!(attempt.link.target_url, "https://example.com/");
    assert_eq!(attempt.link.expiration, -5);
    assert_eq!(attempt.link.id.len(), 8);
}

#[test]
fn creation_succeeds_at_once_without_conflict() {
    let (step, attempts, ids) = run_with_conflicts("https://example.com/page", 0);
    assert_eq!(attempts, 1);
    match step {
        CreateStep::Created(link) => {
            assert_eq!(link.id, ids[0]);
            assert_eq!(link.target_url, "https://example.com/page");
        }
        other => panic!("{:?}", other),
    }
}

#[test]
fn creation_succeeds_after_fewer_than_five_conflicts() {
    for conflicts in 1..5 {
        let (step, attempts, ids) = run_with_conflicts("https://example.com/page", conflicts);
        assert_eq!(attempts, conflicts + 1);
        assert!(attempts <= 5);
        assert_eq!(ids.len(), attempts);
        match step {
            CreateStep::Created(link) => {
                assert_eq!(&link.id, ids.last().unwrap());
                assert_eq!(link.target_url, "https://example.com/page");
                assert_eq!(link.expiration, 1_700_000_000_000_000 + HOUR);
            }
            other => panic!("{:?}", other),
        }
    }
}

#[test]
fn creation_is_exhausted_after_exactly_five_conflicts() {
    for conflicts in [5, 6, 100] {
        let (step, attempts, ids) = run_with_conflicts("https://example.com/page", conflicts);
        assert_eq!(attempts, 5);
        assert_eq!(ids.len(), 5);
        match step {
            CreateStep::Failed(error) => {
                assert_eq!(error.kind, ErrorKind::ResourceExhausted);
                assert_eq!(error.status(), 500);
                assert_eq!(error.message(), "Internal server error");
                assert_eq!(
                    error.detail,
                    "Could not persist new link. Exhausted all retries of generating a unique id"
                );
            }
            other => panic!("{:?}", other),
        }
    }
}

#[test]
fn retry_counts_up_and_keeps_target_and_expiration() {
    let mut attempt = create_link(&specification("https://example.com/page")).unwrap();
    for number in 2..=5u8 {
        match create_link_retry(attempt, Err(conflict())) {
            CreateStep::Insert(next) => {
                assert_eq!(next.number, number);
                assert_eq!(next.link.target_url, "https://example.com/page");
                assert_eq!(next.link.expiration, 1_700_000_000_000_000 + HOUR);
                assert_eq!(next.link.id.len(), 8);
                attempt = next;
            }
            other => panic!("{:?}", other),
        }
    }
}

#[test]
fn retry_generates_a_new_identifier() {
    let mut differs = false;
    for _ in 0..20 {
        let attempt = create_link(&specification("https://example.com/page")).unwrap();
        let first = attempt.link.id.clone();
        if let CreateStep::Insert(next) = create_link_retry(attempt, Err(conflict())) {
            if next.link.id != first {
                differs = true;
            }
        }
    }
    assert!(differs);
}

#[test]
fn other_store_failure_ends_the_creation_at_once() {
    for kind in [StoreErrorKind::Other, StoreErrorKind::RowNotFound] {
        let attempt = create_link(&specification("https://example.com/page")).unwrap();
        let failure = StoreError { kind, cause: "connection reset".to_string() };
        match create_link_retry(attempt, Err(failure)) {
            CreateStep::Failed(error) => {
                assert_eq!(error.kind, ErrorKind::InternalError);
                assert_eq!(error.detail, "connection reset");
                assert_eq!(error.status(), 500);
                assert_eq!(error.message(), "Internal server error");
            }
            other => panic!("{:?}", other),
        }
    }
}

#[test]
fn timeout_ends_the_creation_at_once() {
    let attempt = create_link(&specification("https://example.com/page")).unwrap();
    let failure = StoreError { kind: StoreErrorKind::Timeout, cause: "deadline has elapsed".to_string() };
    match create_link_retry(attempt, Err(failure)) {
        CreateStep::Failed(error) => {
            assert_eq!(error.kind, ErrorKind::InternalError);
            assert_eq!(error.detail, "deadline has elapsed");
            assert_eq!(error.status(), 500);
            assert_eq!(error.message(), "Internal server error");
        }
        other => panic!("{:?}", other),
    }
}

#[test]
fn failure_after_conflicts_is_not_exhaustion() {
    let mut attempt = create_link(&specification("https://example.com/page")).unwrap();
    for _ in 0..3 {
        attempt = match create_link_retry(attempt, Err(conflict())) {
            CreateStep::Insert(next) => next,
            other => panic!("{:?}", other),
        };
    }
    let failure = StoreError { kind: StoreErrorKind::Other, cause: "pool closed".to_string() };
    match create_link_retry(attempt, Err(failure)) {
        CreateStep::Failed(error) => assert_eq!(error.kind, ErrorKind::InternalError),
        other => panic!("{:?}", other),
    }
}

#[test]
fn stored_row_is_returned_as_the_store_gave_it() {
    let attempt = create_link(&specification("https://example.com/page")).unwrap();
    let row = Link { id: "Zm9vYmFy".to_string(), target_url: "https://example.com/page".to_string(), expiration: 7 };
    match create_link_retry(attempt, Ok(row.clone())) {
        CreateStep::Created(link) => assert_eq!(link, row),
        other => panic!("{:?}", other),
    }
}

#[test]
fn conflict_on_an_attempt_past_the_last_is_exhaustion() {
    let link = Link { id: "Zm9vYmFy".to_string(), target_url: "https://example.com/".to_string(), expiration: 7 };
    let attempt = InsertAttempt { number: 200, link };
    match create_link_retry(attempt, Err(conflict())) {
        CreateStep::Failed(error) => assert_eq!(error.kind, ErrorKind::ResourceExhausted),
        other => panic!("{:?}", other),
    }
}
