//! What holds of the operations taken together.

use crate::dao::{
    distinct_ids, has_link, hit_count, is_expired, is_hit, is_summary, outlives, replaced,
    unexpired,
};
use crate::error::{ErrorKind, StoreError, StoreErrorKind};
use crate::model::{Link, LinkStatisticsView, LinkView, StatisticsEventView};
use crate::routes::{
    create_decision, create_ending, exhausted_detail, is_attempt, CreateDecision, CreateEnding,
    InsertAttempt, MAX_CREATE_ATTEMPTS,
};
use crate::utils::is_url_safe;
use vstd::prelude::*;

verus! {

/// Whether an outcome is a collision.
pub open spec fn is_conflict(outcome: Result<Link, StoreError>) -> bool {
    outcome matches Err(error) && error.kind == StoreErrorKind::Conflict
}

/// A creation whose attempt comes back from the store as the row that it
/// sent ends with that row: a link under a non-empty identifier of URL-safe
/// characters, to the normal form of the target asked for, until the
/// expiration asked for.
pub proof fn law_created_link(
    attempt: InsertAttempt,
    number: int,
    target_url: Seq<char>,
    expiration: int,
    stored: Link,
)
    requires
        is_attempt(attempt, number, target_url, expiration),
        stored@ == attempt.link@,
    ensures
        create_decision(number, Ok(stored)) == CreateDecision::Created(stored),
        stored@.id.len() > 0,
        forall|i: int| 0 <= i < stored@.id.len() ==> is_url_safe(#[trigger] stored@.id[i]),
        stored@.target_url == target_url,
        stored@.expiration == expiration,
{
}

/// A creation never makes more than [`MAX_CREATE_ATTEMPTS`] attempts, and so
/// never generates more identifiers than that, whatever the store returns.
pub proof fn law_attempts_bounded(number: int, outcomes: Seq<Result<Link, StoreError>>)
    requires
        1 <= number <= MAX_CREATE_ATTEMPTS,
    ensures
        number <= create_ending(number, outcomes).attempts <= MAX_CREATE_ATTEMPTS,
    decreases outcomes.len(),
{
    if outcomes.len() > 0 {
        if create_decision(number, outcomes[0]) is Retry {
            law_attempts_bounded(number + 1, outcomes.drop_first());
        }
    }
}

/// Collisions on the next `conflicts` attempts, then a stored row, with
/// attempts enough left: the creation ends with that row, after one attempt
/// more than there were collisions.
pub proof fn law_retry_from(
    number: int,
    conflicts: int,
    outcomes: Seq<Result<Link, StoreError>>,
    link: Link,
)
    requires
        0 <= conflicts,
        number + conflicts <= MAX_CREATE_ATTEMPTS,
        outcomes.len() > conflicts,
        forall|k: int| 0 <= k < conflicts ==> is_conflict(#[trigger] outcomes[k]),
        outcomes[conflicts] == Ok::<Link, StoreError>(link),
    ensures
        create_ending(number, outcomes) == (CreateEnding {
            attempts: number + conflicts,
            decision: CreateDecision::Created(link),
        }),
    decreases conflicts,
{
    if conflicts > 0 {
        assert(is_conflict(outcomes[0]));
        let rest = outcomes.drop_first();
        assert forall|k: int| 0 <= k < conflicts - 1 implies is_conflict(#[trigger] rest[k]) by {
            assert(rest[k] == outcomes[k + 1]);
        }
        law_retry_from(number + 1, conflicts - 1, rest, link);
    }
}

/// A store that reports a collision on the first `conflicts` attempts, fewer
/// than [`MAX_CREATE_ATTEMPTS`], and stores the row of the next: the creation
/// succeeds with that row, and has generated `conflicts + 1` identifiers,
/// which is at most [`MAX_CREATE_ATTEMPTS`].
pub proof fn law_retry_succeeds(
    conflicts: int,
    outcomes: Seq<Result<Link, StoreError>>,
    link: Link,
)
    requires
        0 <= conflicts < MAX_CREATE_ATTEMPTS,
        outcomes.len() > conflicts,
        forall|k: int| 0 <= k < conflicts ==> is_conflict(#[trigger] outcomes[k]),
        outcomes[conflicts] == Ok::<Link, StoreError>(link),
    ensures
        create_ending(1, outcomes) == (CreateEnding {
            attempts: conflicts + 1,
            decision: CreateDecision::Created(link),
        }),
        conflicts + 1 <= MAX_CREATE_ATTEMPTS,
{
    law_retry_from(1, conflicts, outcomes, link);
}

/// Collisions on every attempt from `number` to the last: the creation is
/// exhausted at the last attempt.
pub proof fn law_exhausted_from(number: int, outcomes: Seq<Result<Link, StoreError>>)
    requires
        1 <= number <= MAX_CREATE_ATTEMPTS,
        outcomes.len() > MAX_CREATE_ATTEMPTS - number,
        forall|k: int|
            0 <= k <= MAX_CREATE_ATTEMPTS - number ==> is_conflict(#[trigger] outcomes[k]),
    ensures
        create_ending(number, outcomes) == (CreateEnding {
            attempts: MAX_CREATE_ATTEMPTS as int,
            decision: CreateDecision::Failed(ErrorKind::ResourceExhausted, exhausted_detail()),
        }),
    decreases MAX_CREATE_ATTEMPTS - number,
{
    assert(is_conflict(outcomes[0]));
    if number < MAX_CREATE_ATTEMPTS {
        let rest = outcomes.drop_first();
        assert forall|k: int| 0 <= k <= MAX_CREATE_ATTEMPTS - (number + 1) implies is_conflict(
            #[trigger] rest[k],
        ) by {
            assert(rest[k] == outcomes[k + 1]);
        }
        law_exhausted_from(number + 1, rest);
    }
}

/// A store that reports a collision on every attempt: the creation fails
/// with `ResourceExhausted` after exactly [`MAX_CREATE_ATTEMPTS`] attempts.
pub proof fn law_always_conflict_exhausts(outcomes: Seq<Result<Link, StoreError>>)
    requires
        outcomes.len() >= MAX_CREATE_ATTEMPTS,
        forall|k: int| 0 <= k < MAX_CREATE_ATTEMPTS ==> is_conflict(#[trigger] outcomes[k]),
    ensures
        create_ending(1, outcomes) == (CreateEnding {
            attempts: MAX_CREATE_ATTEMPTS as int,
            decision: CreateDecision::Failed(ErrorKind::ResourceExhausted, exhausted_detail()),
        }),
{
    law_exhausted_from(1, outcomes);
}

/// A recorded event counts once, and only for its own link, referer and user
/// agent: every other count stays as it was.
pub proof fn law_event_counts_once(
    events: Seq<StatisticsEventView>,
    event: StatisticsEventView,
    link_id: Seq<char>,
    referer: Option<Seq<char>>,
    user_agent: Option<Seq<char>>,
)
    ensures
        hit_count(events.push(event), link_id, referer, user_agent) == hit_count(
            events,
            link_id,
            referer,
            user_agent,
        ) + (if is_hit(event, link_id, referer, user_agent) {
            1nat
        } else {
            0nat
        }),
{
    assert(events.push(event).drop_last() =~= events);
}

/// Events of other links count nothing for a link.
pub proof fn law_foreign_events_count_nothing(
    events: Seq<StatisticsEventView>,
    link_id: Seq<char>,
    referer: Option<Seq<char>>,
    user_agent: Option<Seq<char>>,
)
    requires
        forall|k: int| 0 <= k < events.len() ==> (#[trigger] events[k]).link_id != link_id,
    ensures
        hit_count(events, link_id, referer, user_agent) == 0,
    decreases events.len(),
{
    if events.len() > 0 {
        let earlier = events.drop_last();
        assert forall|k: int| 0 <= k < earlier.len() implies (#[trigger] earlier[k]).link_id
            != link_id by {
            assert(earlier[k] == events[k]);
        }
        law_foreign_events_count_nothing(earlier, link_id, referer, user_agent);
        assert(events.last() == events[events.len() - 1]);
    }
}

/// The statistics of an identifier without recorded events are the empty
/// list.
pub proof fn law_no_events_no_rows(
    rows: Seq<LinkStatisticsView>,
    events: Seq<StatisticsEventView>,
    link_id: Seq<char>,
)
    requires
        is_summary(rows, events, link_id),
        forall|k: int| 0 <= k < events.len() ==> (#[trigger] events[k]).link_id != link_id,
    ensures
        rows.len() == 0,
{
    if rows.len() > 0 {
        law_foreign_events_count_nothing(events, link_id, rows[0].referer, rows[0].user_agent);
    }
}

/// A sweep deletes exactly the expired rows: a row is there afterwards if and
/// only if it was there before and is not expired, and no two rows share an
/// identifier afterwards if none did before.
pub proof fn law_sweep_exact(links: Seq<LinkView>, now: int)
    ensures
        forall|link: LinkView| #[trigger]
            unexpired(links, now).contains(link) <==> links.contains(link) && !is_expired(
                link,
                now,
            ),
        unexpired(links, now).len() <= links.len(),
{
    let kept = unexpired(links, now);
    links.lemma_filter_len(outlives(now));
    assert forall|link: LinkView| #[trigger] kept.contains(link) <==> links.contains(link)
        && !is_expired(link, now) by {
        if kept.contains(link) {
            links.lemma_filter_contains_rev(outlives(now), link);
            let i = choose|i: int| 0 <= i < kept.len() && kept[i] == link;
            links.lemma_filter_pred(outlives(now), i);
        }
        if links.contains(link) && !is_expired(link, now) {
            let i = choose|i: int| 0 <= i < links.len() && links[i] == link;
            links.lemma_filter_contains(outlives(now), i);
        }
    }
}

/// Two sweeps in a row leave what one sweep at the later of the two instants
/// leaves.
pub proof fn law_sweep_twice(links: Seq<LinkView>, first: int, second: int)
    ensures
        unexpired(unexpired(links, first), second) == unexpired(
            links,
            if first >= second {
                first
            } else {
                second
            },
        ),
    decreases links.len(),
{
    let later = if first >= second {
        first
    } else {
        second
    };
    reveal(Seq::filter);
    if links.len() > 0 {
        let rest = links.drop_last();
        let last = links.last();
        assert(links =~= rest.push(last));
        law_sweep_twice(rest, first, second);
        rest.lemma_filter_push(last, outlives(first));
        rest.lemma_filter_push(last, outlives(later));
        unexpired(rest, first).lemma_filter_push(last, outlives(second));
    }
}

/// A sweep is idempotent: a second sweep at the same instant deletes no row.
pub proof fn law_sweep_idempotent(links: Seq<LinkView>, now: int)
    ensures
        unexpired(unexpired(links, now), now) == unexpired(links, now),
        unexpired(links, now).len() - unexpired(unexpired(links, now), now).len() == 0,
{
    law_sweep_twice(links, now, now);
}

/// A row inserted under a free identifier is in the table afterwards, under
/// its identifier, and the identifiers are distinct as before. An insert
/// under that identifier then finds it taken: of two inserts that race for one
/// identifier, the store lets one through.
pub proof fn law_saved_link_found(links: Seq<LinkView>, row: LinkView)
    requires
        distinct_ids(links),
        !has_link(links, row.id),
    ensures
        links.push(row).contains(row),
        has_link(links.push(row), row.id),
        distinct_ids(links.push(row)),
{
    let after = links.push(row);
    assert(after[links.len() as int] == row);
    assert forall|i: int, j: int| 0 <= i < j < after.len() implies (#[trigger] after[i]).id != (
    #[trigger] after[j]).id by {
        assert(after[i] == links[i]);
        if j < links.len() {
            assert(after[j] == links[j]);
        }
    }
}

/// Under an identifier a table of distinct identifiers holds one row at
/// most: a lookup that finds a row finds the only one.
pub proof fn law_lookup_unique(links: Seq<LinkView>, one: LinkView, other: LinkView)
    requires
        distinct_ids(links),
        links.contains(one),
        links.contains(other),
        one.id == other.id,
    ensures
        one == other,
{
    let i = choose|i: int| 0 <= i < links.len() && links[i] == one;
    let j = choose|j: int| 0 <= j < links.len() && links[j] == other;
    if i < j {
        assert(links[i].id != links[j].id);
    } else if j < i {
        assert(links[j].id != links[i].id);
    }
}

/// After an update the table holds the written row under its identifier and
/// no other row under it, and every other row as it was.
pub proof fn law_update_visible(links: Seq<LinkView>, row: LinkView)
    requires
        has_link(links, row.id),
    ensures
        replaced(links, row).contains(row),
        replaced(links, row).len() == links.len(),
        forall|i: int|
            0 <= i < links.len() ==> (#[trigger] replaced(links, row)[i]) == (if links[i].id
                == row.id {
                row
            } else {
                links[i]
            }),
        distinct_ids(links) ==> distinct_ids(replaced(links, row)),
{
    let after = replaced(links, row);
    let i = choose|i: int| 0 <= i < links.len() && (#[trigger] links[i]).id == row.id;
    assert(after[i] == row);
    if distinct_ids(links) {
        assert forall|a: int, b: int| 0 <= a < b < after.len() implies (#[trigger] after[a]).id != (
        #[trigger] after[b]).id by {
            assert(after[a].id == links[a].id);
            assert(after[b].id == links[b].id);
        }
    }
}

/// A link whose expiration was set to an instant not after a sweep is gone
/// after that sweep: no row is left under its identifier.
pub proof fn law_expired_link_gone(links: Seq<LinkView>, row: LinkView, now: int)
    requires
        is_expired(row, now),
    ensures
        !has_link(unexpired(replaced(links, row), now), row.id),
{
    let written = replaced(links, row);
    let kept = unexpired(written, now);
    if has_link(kept, row.id) {
        let i = choose|i: int| 0 <= i < kept.len() && (#[trigger] kept[i]).id == row.id;
        assert(kept.contains(kept[i]));
        written.lemma_filter_contains_rev(outlives(now), kept[i]);
        written.lemma_filter_pred(outlives(now), i);
        let k = choose|k: int| 0 <= k < written.len() && written[k] == kept[i];
        assert(written[k] == row);
    }
}

} // verus!
