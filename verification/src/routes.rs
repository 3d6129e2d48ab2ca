//! The decisions of the four link operations.
//!
//! No function here touches the store. Each takes what a store call returned
//! and says what to answer or which call to make next; the caller makes the
//! calls, each under its deadline, and hands the outcomes back.

use crate::error::{ApiError, ErrorKind, StoreError, StoreErrorKind};
use crate::model::{
    text_of, Link, LinkSpecification, LinkStatistics, LinkView, StatisticsEvent,
    StatisticsEventView,
};
use crate::utils::{
    generate_id, internal_error, is_generated_id, is_url_safe, parse_url, url_normal_form,
};
use vstd::prelude::*;
use vstd::string::StringExecFns;

verus! {

/// Deadline in milliseconds of each call to the store that a request waits for
/// or sets off.
pub const DEFAULT_TIMEOUT: u64 = 300;

/// How many identifiers a creation tries before it gives up.
pub const MAX_CREATE_ATTEMPTS: u8 = 5;

/// Status of a redirect: temporary, since a link's target may change.
pub const TEMPORARY_REDIRECT: u16 = 307;

/// Status of the liveness answer.
pub const OK: u16 = 200;

/// The caching policy that goes out with every redirect: intermediaries may
/// keep it for 300 seconds, and serve it stale for as long while they
/// revalidate or while the service fails.
pub open spec fn cache_control() -> Seq<char> {
    "public, max-age=300, s-maxage=300, stale-while-revalidate=300, stale-if-error=300"@
}

/// What the log says when a creation has run out of attempts.
pub open spec fn exhausted_detail() -> Seq<char> {
    "Could not persist new link. Exhausted all retries of generating a unique id"@
}

/// One attempt to insert a new link: the row to insert, and which attempt of
/// the creation this is, counted from 1.
#[derive(Debug, PartialEq, Eq)]
pub struct InsertAttempt {
    pub number: u8,
    pub link: Link,
}

/// Whether `attempt` is attempt `number` at a link to `target_url` until
/// `expiration`, under a freshly generated identifier.
pub open spec fn is_attempt(
    attempt: InsertAttempt,
    number: int,
    target_url: Seq<char>,
    expiration: int,
) -> bool {
    &&& attempt.number == number
    &&& attempt.link.target_url@ == target_url
    &&& attempt.link.expiration == expiration
    &&& is_generated_id(attempt.link.id@)
    &&& attempt.link.id@.len() == 8
    &&& forall|i: int|
        0 <= i < attempt.link.id@.len() ==> is_url_safe(#[trigger] attempt.link.id@[i])
}

/// Where a creation stands after the outcome of an attempt.
#[derive(Debug, PartialEq, Eq)]
pub enum CreateStep {
    /// The identifier was taken: insert this row next.
    Insert(InsertAttempt),
    /// The store has the link: answer with it.
    Created(Link),
    /// The creation failed: answer with the failure.
    Failed(ApiError),
}

/// What the outcome of insert attempt `number` means for the creation.
pub enum CreateDecision {
    /// The row is in: the creation ends with it.
    Created(Link),
    /// The identifier was taken and attempts are left: try another.
    Retry,
    /// The creation ends in a failure of this class, with this detail.
    Failed(ErrorKind, Seq<char>),
}

/// The rule of bounded retry. A stored row ends the creation. A collision is
/// expected and costs one attempt; the last attempt's collision exhausts the
/// creation. Any other failure, a missed deadline included, ends it at once
/// as an internal error, with the cause for the log.
pub open spec fn create_decision(number: int, outcome: Result<Link, StoreError>) -> CreateDecision {
    match outcome {
        Ok(link) => CreateDecision::Created(link),
        Err(error) => if error.kind == StoreErrorKind::Conflict {
            if number < MAX_CREATE_ATTEMPTS {
                CreateDecision::Retry
            } else {
                CreateDecision::Failed(ErrorKind::ResourceExhausted, exhausted_detail())
            }
        } else {
            CreateDecision::Failed(ErrorKind::InternalError, error.cause@)
        },
    }
}

/// Where a creation stands after some outcomes: how many attempts it has
/// made, each under one generated identifier, and what the last outcome
/// meant. `Retry` says that the last attempt made is still out.
pub struct CreateEnding {
    pub attempts: int,
    pub decision: CreateDecision,
}

/// Runs the rule of bounded retry over `outcomes`, the outcome of attempt
/// `number` first. Outcomes after the one that ends the creation are never
/// looked at: no attempt is made for them.
pub open spec fn create_ending(number: int, outcomes: Seq<Result<Link, StoreError>>) -> CreateEnding
    decreases outcomes.len(),
{
    if outcomes.len() == 0 {
        CreateEnding { attempts: number, decision: CreateDecision::Retry }
    } else {
        match create_decision(number, outcomes[0]) {
            CreateDecision::Retry => create_ending(number + 1, outcomes.drop_first()),
            decision => CreateEnding { attempts: number, decision },
        }
    }
}

/// The first attempt at a link to a validated target.
pub fn first_attempt(target_url: String, expiration: i64) -> (attempt: InsertAttempt)
    ensures
        is_attempt(attempt, 1, target_url@, expiration as int),
{
    InsertAttempt { number: 1, link: Link { id: generate_id(), target_url, expiration } }
}

/// Begins the creation of a link. A malformed target fails with `InvalidInput`
/// before anything is generated or sent to the store. A well-formed one gives
/// the first attempt: its normal form under a fresh identifier.
pub fn create_link(specification: &LinkSpecification) -> (result: Result<InsertAttempt, ApiError>)
    ensures
        match url_normal_form(specification.target_url@) {
            Some(normal) => result matches Ok(attempt) && is_attempt(
                attempt,
                1,
                normal,
                specification.expiration as int,
            ),
            None => result matches Err(error) && error.kind == ErrorKind::InvalidInput
                && error.detail@ == Seq::<char>::empty(),
        },
{
    match parse_url(specification.target_url.as_str()) {
        Ok(target_url) => Ok(first_attempt(target_url, specification.expiration)),
        Err(error) => Err(error),
    }
}

/// Continues a creation with the outcome of `attempt`, as [`create_decision`]
/// rules. A retry keeps target and expiration, counts one attempt more and
/// generates one new identifier; nothing is generated otherwise.
pub fn create_link_retry(attempt: InsertAttempt, outcome: Result<Link, StoreError>) -> (step:
    CreateStep)
    ensures
        match create_decision(attempt.number as int, outcome) {
            CreateDecision::Created(link) => step == CreateStep::Created(link),
            CreateDecision::Retry => step matches CreateStep::Insert(next) && is_attempt(
                next,
                attempt.number + 1,
                attempt.link.target_url@,
                attempt.link.expiration as int,
            ),
            CreateDecision::Failed(kind, detail) => step matches CreateStep::Failed(error)
                && error.kind == kind && error.detail@ == detail,
        },
{
    match outcome {
        Ok(link) => CreateStep::Created(link),
        Err(error) => match error.kind {
            StoreErrorKind::Conflict => {
                if attempt.number < MAX_CREATE_ATTEMPTS {
                    CreateStep::Insert(
                        InsertAttempt {
                            number: attempt.number + 1,
                            link: Link {
                                id: generate_id(),
                                target_url: attempt.link.target_url,
                                expiration: attempt.link.expiration,
                            },
                        },
                    )
                } else {
                    CreateStep::Failed(
                        ApiError {
                            kind: ErrorKind::ResourceExhausted,
                            detail: String::from_str(
                                "Could not persist new link. Exhausted all retries of generating a unique id",
                            ),
                        },
                    )
                }
            },
            _ => CreateStep::Failed(internal_error(error.cause)),
        },
    }
}

/// Begins the update of the link `link_id`. A malformed target fails with
/// `InvalidInput` before anything is sent to the store. A well-formed one
/// gives the row to write: the same identifier, the target's normal form and
/// the new expiration.
pub fn update_link(link_id: &str, specification: &LinkSpecification) -> (result: Result<
    Link,
    ApiError,
>)
    ensures
        match url_normal_form(specification.target_url@) {
            Some(normal) => result matches Ok(row) && row@ == (LinkView {
                id: link_id@,
                target_url: normal,
                expiration: specification.expiration as int,
            }),
            None => result matches Err(error) && error.kind == ErrorKind::InvalidInput
                && error.detail@ == Seq::<char>::empty(),
        },
{
    match parse_url(specification.target_url.as_str()) {
        Ok(target_url) => Ok(
            Link { id: String::from_str(link_id), target_url, expiration: specification.expiration },
        ),
        Err(error) => Err(error),
    }
}

/// Ends an update with what the store returned for it: the row as written,
/// `NotFound` where no row had the identifier, an internal error with the
/// cause for the log otherwise. An update is never retried.
pub fn update_link_result(outcome: Result<Link, StoreError>) -> (result: Result<Link, ApiError>)
    ensures
        match outcome {
            Ok(link) => result == Ok::<Link, ApiError>(link),
            Err(error) => result matches Err(failure) && if error.kind
                == StoreErrorKind::RowNotFound {
                failure.kind == ErrorKind::NotFound && failure.detail@ == Seq::<char>::empty()
            } else {
                failure.kind == ErrorKind::InternalError && failure.detail == error.cause
            },
        },
{
    match outcome {
        Ok(link) => Ok(link),
        Err(error) => match error.kind {
            StoreErrorKind::RowNotFound => Err(ApiError::new(ErrorKind::NotFound)),
            _ => Err(internal_error(error.cause)),
        },
    }
}

/// Ends a statistics read with what the store returned for it. The grouped
/// counts go out as they came, an empty list included: a link without events
/// is no failure. A failed read is an internal error with the cause for the
/// log.
pub fn get_link_statistics(outcome: Result<Vec<LinkStatistics>, StoreError>) -> (result: Result<
    Vec<LinkStatistics>,
    ApiError,
>)
    ensures
        match outcome {
            Ok(rows) => result == Ok::<Vec<LinkStatistics>, ApiError>(rows),
            Err(error) => result matches Err(failure) && failure.kind == ErrorKind::InternalError
                && failure.detail == error.cause,
        },
{
    match outcome {
        Ok(rows) => Ok(rows),
        Err(error) => Err(internal_error(error.cause)),
    }
}

/// The answer to a resolved redirect request, and the statistics event to
/// record for it. The answer is complete as it stands: what becomes of the
/// event cannot change it.
#[derive(Debug, PartialEq, Eq)]
pub struct Redirect {
    pub status: u16,
    pub location: String,
    pub cache_control: String,
    pub statistics: StatisticsEvent,
}

/// Resolves a redirect request from the outcome of the lookup of `link_id`.
/// No link: `NotFound`, and nothing to record. A failed lookup, a missed
/// deadline included: an internal error, and nothing to record. A link: a
/// temporary redirect to its target under the caching policy, and the event
/// to record, which carries the identifier with the referer and user agent
/// that the request named. Whether the link is past its expiration is not
/// looked at: a link redirects until a sweep has deleted it.
pub fn redirect(
    link_id: &str,
    referer: Option<String>,
    user_agent: Option<String>,
    lookup: Result<Option<Link>, StoreError>,
) -> (result: Result<Redirect, ApiError>)
    ensures
        match lookup {
            Ok(Some(link)) => result matches Ok(answer) && answer.status == TEMPORARY_REDIRECT
                && answer.location == link.target_url && answer.cache_control@ == cache_control()
                && answer.statistics@ == (StatisticsEventView {
                link_id: link_id@,
                referer: text_of(referer),
                user_agent: text_of(user_agent),
            }),
            Ok(None) => result matches Err(failure) && failure.kind == ErrorKind::NotFound
                && failure.detail@ == Seq::<char>::empty(),
            Err(error) => result matches Err(failure) && failure.kind == ErrorKind::InternalError
                && failure.detail == error.cause,
        },
{
    match lookup {
        Ok(Some(link)) => Ok(
            Redirect {
                status: TEMPORARY_REDIRECT,
                location: link.target_url,
                cache_control: String::from_str(
                    "public, max-age=300, s-maxage=300, stale-while-revalidate=300, stale-if-error=300",
                ),
                statistics: StatisticsEvent { link_id: String::from_str(link_id), referer, user_agent },
            },
        ),
        Ok(None) => Err(ApiError::new(ErrorKind::NotFound)),
        Err(error) => Err(internal_error(error.cause)),
    }
}

/// How much a line of the log weighs.
#[derive(Clone, Copy, Debug, PartialEq, Eq, Structural)]
pub enum LogLevel {
    Error,
    Debug,
}

/// A line for the server's log.
#[derive(Debug, PartialEq, Eq)]
pub struct LogEntry {
    pub level: LogLevel,
    pub message: String,
}

/// The text of the log line for the outcome of a statistics write.
pub open spec fn statistics_report(outcome: Result<u64, StoreError>) -> Seq<char> {
    match outcome {
        Ok(_) => "New link stats persisted"@,
        Err(error) => if error.kind == StoreErrorKind::Timeout {
            "Saving new link stats timeout: "@ + error.cause@
        } else {
            "Saving new link stats failed: "@ + error.cause@
        },
    }
}

/// Absorbs the outcome of a statistics write: whatever it is, it becomes a
/// line of the log and nothing else. A write that failed or timed out is an
/// error line with the cause, one that went through a debug line.
pub fn statistics_saved(outcome: Result<u64, StoreError>) -> (entry: LogEntry)
    ensures
        entry.level == (if outcome is Ok {
            LogLevel::Debug
        } else {
            LogLevel::Error
        }),
        entry.message@ == statistics_report(outcome),
{
    match outcome {
        Ok(_) => LogEntry {
            level: LogLevel::Debug,
            message: String::from_str("New link stats persisted"),
        },
        Err(error) => {
            let prefix = match error.kind {
                StoreErrorKind::Timeout => String::from_str("Saving new link stats timeout: "),
                _ => String::from_str("Saving new link stats failed: "),
            };
            LogEntry { level: LogLevel::Error, message: prefix.concat(error.cause.as_str()) }
        },
    }
}

/// The liveness answer.
pub fn health() -> (answer: (u16, &'static str))
    ensures
        answer.0 == OK,
        answer.1@ == "OK"@,
{
    (OK, "OK")
}

} // verus!
