//! An in-memory link table: the meaning of each statement of the store
//! interface, on rows held as plain values.
//!
//! A store behind the service is taken to answer as this table does. The
//! table holds link rows in the order of their insertion, no two under one
//! identifier, and statistics events in the order of their arrival.

use crate::error::{StoreError, StoreErrorKind};
use crate::model::{
    clone_text, same_text, text_of, Link, LinkStatistics, LinkStatisticsView, LinkView,
    StatisticsEvent, StatisticsEventView,
};
use vstd::prelude::*;
use vstd::string::StringExecFns;

verus! {

/// Most statistics events that a table takes: a count of hits has to fit the
/// signed 64-bit column that reports it.
pub const STATISTICS_CAPACITY: u64 = 0x7fff_ffff_ffff_ffff;

/// Mathematical value of a [`LinkTable`].
pub struct TableView {
    pub links: Seq<LinkView>,
    pub statistics: Seq<StatisticsEventView>,
}

/// Whether some row of `links` has the identifier `id`.
pub open spec fn has_link(links: Seq<LinkView>, id: Seq<char>) -> bool {
    exists|i: int| 0 <= i < links.len() && (#[trigger] links[i]).id == id
}

/// Whether no two rows of `links` share an identifier.
pub open spec fn distinct_ids(links: Seq<LinkView>) -> bool {
    forall|i: int, j: int|
        0 <= i < j < links.len() ==> (#[trigger] links[i]).id != (#[trigger] links[j]).id
}

/// `links` with `row` in place of every row under its identifier.
pub open spec fn replaced(links: Seq<LinkView>, row: LinkView) -> Seq<LinkView> {
    links.map_values(
        |link: LinkView|
            if link.id == row.id {
                row
            } else {
                link
            },
    )
}

/// A link is expired at `now` once its expiration is not after `now`.
pub open spec fn is_expired(link: LinkView, now: int) -> bool {
    link.expiration <= now
}

/// The test that a sweep at `now` puts to a row: whether to keep it.
pub open spec fn outlives(now: int) -> spec_fn(LinkView) -> bool {
    |link: LinkView| !is_expired(link, now)
}

/// The rows of `links` that are not expired at `now`, in their order.
pub open spec fn unexpired(links: Seq<LinkView>, now: int) -> Seq<LinkView> {
    links.filter(outlives(now))
}

/// Whether `event` is a hit of the link `link_id` with this referer and user
/// agent.
pub open spec fn is_hit(
    event: StatisticsEventView,
    link_id: Seq<char>,
    referer: Option<Seq<char>>,
    user_agent: Option<Seq<char>>,
) -> bool {
    event.link_id == link_id && event.referer == referer && event.user_agent == user_agent
}

/// How many of `events` are hits of the link `link_id` with this referer and
/// user agent.
pub open spec fn hit_count(
    events: Seq<StatisticsEventView>,
    link_id: Seq<char>,
    referer: Option<Seq<char>>,
    user_agent: Option<Seq<char>>,
) -> nat
    decreases events.len(),
{
    if events.len() == 0 {
        0
    } else {
        let earlier = hit_count(events.drop_last(), link_id, referer, user_agent);
        if is_hit(events.last(), link_id, referer, user_agent) {
            earlier + 1
        } else {
            earlier
        }
    }
}

/// Whether some row of `rows` stands for this referer and user agent.
pub open spec fn has_row(
    rows: Seq<LinkStatisticsView>,
    referer: Option<Seq<char>>,
    user_agent: Option<Seq<char>>,
) -> bool {
    exists|i: int|
        0 <= i < rows.len() && (#[trigger] rows[i]).referer == referer && rows[i].user_agent
            == user_agent
}

/// Whether `rows` are the grouped counts of the events of the link `link_id`:
/// one row for each pair of referer and user agent that at least one of its
/// events carries, none for any other pair, none twice, each with the number
/// of those events. The order of the rows is left open.
pub open spec fn is_summary(
    rows: Seq<LinkStatisticsView>,
    events: Seq<StatisticsEventView>,
    link_id: Seq<char>,
) -> bool {
    &&& forall|i: int|
        0 <= i < rows.len() ==> {
            let count = hit_count(
                events,
                link_id,
                (#[trigger] rows[i]).referer,
                rows[i].user_agent,
            );
            count > 0 && rows[i].hits == Some(count as int)
        }
    &&& forall|i: int, j: int|
        0 <= i < j < rows.len() ==> !((#[trigger] rows[i]).referer == (#[trigger] rows[j]).referer
            && rows[i].user_agent == rows[j].user_agent)
    &&& forall|referer: Option<Seq<char>>, user_agent: Option<Seq<char>>|
        #[trigger] hit_count(events, link_id, referer, user_agent) > 0 ==> has_row(
            rows,
            referer,
            user_agent,
        )
}

/// The mathematical values of a list of grouped counts.
pub open spec fn rows_view(rows: Seq<LinkStatistics>) -> Seq<LinkStatisticsView> {
    rows.map_values(|row: LinkStatistics| row@)
}

/// The link rows and statistics events of a store, in memory.
pub struct LinkTable {
    links: Vec<Link>,
    statistics: Vec<StatisticsEvent>,
}

impl View for LinkTable {
    type V = TableView;

    closed spec fn view(&self) -> TableView {
        TableView {
            links: self.links@.map_values(|link: Link| link@),
            statistics: self.statistics@.map_values(|event: StatisticsEvent| event@),
        }
    }
}

impl LinkTable {
    /// The table's invariant: no two link rows share an identifier, and the
    /// statistics events are no more than [`STATISTICS_CAPACITY`]. `new`
    /// establishes it and every statement keeps it.
    pub open spec fn well_formed(&self) -> bool {
        &&& distinct_ids(self@.links)
        &&& self@.statistics.len() <= STATISTICS_CAPACITY
    }

    /// A table without rows.
    pub fn new() -> (table: LinkTable)
        ensures
            table.well_formed(),
            table@.links == Seq::<LinkView>::empty(),
            table@.statistics == Seq::<StatisticsEventView>::empty(),
    {
        LinkTable { links: Vec::new(), statistics: Vec::new() }
    }

    /// Number of link rows.
    pub fn link_count(&self) -> (count: usize)
        ensures
            count == self@.links.len(),
    {
        self.links.len()
    }

    /// Number of statistics events.
    pub fn statistics_count(&self) -> (count: usize)
        ensures
            count == self@.statistics.len(),
    {
        self.statistics.len()
    }
}

/// What a failure of the table says of itself, by its kind.
pub open spec fn failure_cause(kind: StoreErrorKind) -> Seq<char> {
    match kind {
        StoreErrorKind::Conflict => "duplicate key value violates unique constraint"@,
        StoreErrorKind::RowNotFound => "no rows returned by a statement that returns one"@,
        StoreErrorKind::Timeout => "operation timed out"@,
        StoreErrorKind::Other => "link_statistics holds as many rows as a count can report"@,
    }
}

/// Whether `result` is the table's failure of the kind `kind`.
pub open spec fn is_failure<T>(result: Result<T, StoreError>, kind: StoreErrorKind) -> bool {
    result matches Err(error) && error.kind == kind && error.cause@ == failure_cause(kind)
}

fn failure(kind: StoreErrorKind) -> (error: StoreError)
    ensures
        error.kind == kind,
        error.cause@ == failure_cause(kind),
{
    let cause = match kind {
        StoreErrorKind::Conflict => "duplicate key value violates unique constraint",
        StoreErrorKind::RowNotFound => "no rows returned by a statement that returns one",
        StoreErrorKind::Timeout => "operation timed out",
        StoreErrorKind::Other => "link_statistics holds as many rows as a count can report",
    };
    StoreError { kind, cause: String::from_str(cause) }
}

/// Index of the row of `links` under `id`, if there is one.
fn position(links: &Vec<Link>, id: &String) -> (found: Option<usize>)
    ensures
        match found {
            Some(i) => i < links.len() && links[i as int].id@ == id@,
            None => forall|i: int| 0 <= i < links.len() ==> links[i].id@ != id@,
        },
{
    let mut i: usize = 0;
    while i < links.len()
        invariant
            i <= links.len(),
            forall|k: int| 0 <= k < i ==> links[k].id@ != id@,
        decreases links.len() - i,
    {
        if links[i].id == *id {
            return Some(i);
        }
        i += 1;
    }
    None
}

/// Inserts a link row and returns it as stored. An identifier that the table
/// already holds is a uniqueness violation, and the table stays as it was.
pub fn save(table: &mut LinkTable, id: &str, url: &str, expiration: i64) -> (result: Result<
    Link,
    StoreError,
>)
    requires
        old(table).well_formed(),
    ensures
        final(table).well_formed(),
        final(table)@.statistics == old(table)@.statistics,
        if has_link(old(table)@.links, id@) {
            &&& is_failure(result, StoreErrorKind::Conflict)
            &&& final(table)@.links == old(table)@.links
        } else {
            &&& result matches Ok(link)
            &&& link@ == (LinkView { id: id@, target_url: url@, expiration: expiration as int })
            &&& final(table)@.links == old(table)@.links.push(link@)
        },
{
    let key = String::from_str(id);
    match position(&table.links, &key) {
        Some(i) => {
            assert(table@.links[i as int].id == id@);
            Err(failure(StoreErrorKind::Conflict))
        },
        None => {
            let link = Link { id: key, target_url: String::from_str(url), expiration };
            let stored = link.clone();
            table.links.push(link);
            assert(table@.links =~= old(table)@.links.push(stored@));
            Ok(stored)
        },
    }
}

/// Selects the link row under `id`: the row, or `None` where the table holds
/// none under that identifier.
pub fn get_by_id(table: &LinkTable, id: &str) -> (result: Result<Option<Link>, StoreError>)
    ensures
        result matches Ok(found) && match found {
            Some(link) => table@.links.contains(link@) && link@.id == id@,
            None => !has_link(table@.links, id@),
        },
{
    let key = String::from_str(id);
    match position(&table.links, &key) {
        Some(i) => {
            let link = table.links[i].clone();
            assert(table@.links[i as int] == link@);
            Ok(Some(link))
        },
        None => Ok(None),
    }
}

/// Writes a new target and expiration to the link row under `id` and returns
/// the row as written. Where the table holds no row under that identifier, no
/// row is found and the table stays as it was. The identifier never changes.
pub fn update(table: &mut LinkTable, id: &str, url: &str, expiration: i64) -> (result: Result<
    Link,
    StoreError,
>)
    requires
        old(table).well_formed(),
    ensures
        final(table).well_formed(),
        final(table)@.statistics == old(table)@.statistics,
        if has_link(old(table)@.links, id@) {
            &&& result matches Ok(link)
            &&& link@ == (LinkView { id: id@, target_url: url@, expiration: expiration as int })
            &&& final(table)@.links == replaced(old(table)@.links, link@)
        } else {
            &&& is_failure(result, StoreErrorKind::RowNotFound)
            &&& final(table)@.links == old(table)@.links
        },
{
    let key = String::from_str(id);
    match position(&table.links, &key) {
        Some(i) => {
            let link = Link { id: key, target_url: String::from_str(url), expiration };
            let stored = link.clone();
            table.links.set(i, link);
            proof {
                let before = old(table)@.links;
                let after = table@.links;
                assert(before[i as int].id == id@);
                assert forall|k: int| 0 <= k < before.len() implies after[k] == (if before[k].id
                    == id@ {
                    stored@
                } else {
                    before[k]
                }) by {
                    if k != i {
                        assert(before[k].id != before[i as int].id);
                    }
                }
                assert(after =~= replaced(before, stored@));
            }
            Ok(stored)
        },
        None => Err(failure(StoreErrorKind::RowNotFound)),
    }
}

/// Deletes every link row that is expired at `now` and returns how many rows
/// it deleted. The other rows stay as they are, in their order, and so do the
/// statistics events.
pub fn delete_expired(table: &mut LinkTable, now: i64) -> (deleted: u64)
    requires
        old(table).well_formed(),
    ensures
        final(table).well_formed(),
        final(table)@.links == unexpired(old(table)@.links, now as int),
        final(table)@.statistics == old(table)@.statistics,
        deleted == old(table)@.links.len() - final(table)@.links.len(),
{
    let ghost before = table@.links;
    let ghost keep = outlives(now as int);
    let total = table.links.len();
    let mut kept: Vec<Link> = Vec::new();
    let mut deleted: u64 = 0;
    let mut i: usize = 0;
    proof {
        assert(before.take(0) =~= Seq::<LinkView>::empty());
    }
    while i < total
        invariant
            i <= total,
            total == table.links.len(),
            before == table@.links,
            before == table.links@.map_values(|link: Link| link@),
            distinct_ids(before),
            keep == outlives(now as int),
            kept@.map_values(|link: Link| link@) == before.take(i as int).filter(keep),
            deleted + kept.len() == i,
            forall|a: int, b: int|
                0 <= a < kept.len() && i <= b < before.len() ==> (#[trigger] kept[a]).id@ != (
                #[trigger] before[b]).id,
            forall|a: int, b: int|
                0 <= a < b < kept.len() ==> (#[trigger] kept[a]).id@ != (#[trigger] kept[b]).id@,
        decreases total - i,
    {
        proof {
            assert(before.take(i as int + 1) =~= before.take(i as int).push(before[i as int]));
            before.take(i as int).lemma_filter_push(before[i as int], keep);
            assert(keep(before[i as int]) == (table.links[i as int].expiration > now));
        }
        if table.links[i].expiration > now {
            let link = table.links[i].clone();
            kept.push(link);
            assert(kept@.map_values(|link: Link| link@) =~= before.take(i as int).filter(
                keep,
            ).push(before[i as int]));
        } else {
            deleted += 1;
        }
        i += 1;
    }
    proof {
        assert(before.take(total as int) =~= before);
    }
    table.links = kept;
    deleted
}

/// Appends a statistics event to the table and returns the number of rows
/// written, which is 1. A table that already holds [`STATISTICS_CAPACITY`]
/// events refuses the event and stays as it was. Whether a link row exists
/// under `id` is not looked at.
pub fn update_statistics(
    table: &mut LinkTable,
    id: &str,
    referer: &Option<String>,
    user_agent: &Option<String>,
) -> (result: Result<u64, StoreError>)
    requires
        old(table).well_formed(),
    ensures
        final(table).well_formed(),
        final(table)@.links == old(table)@.links,
        if old(table)@.statistics.len() < STATISTICS_CAPACITY {
            &&& result == Ok::<u64, StoreError>(1)
            &&& final(table)@.statistics == old(table)@.statistics.push(
                StatisticsEventView {
                    link_id: id@,
                    referer: text_of(*referer),
                    user_agent: text_of(*user_agent),
                },
            )
        } else {
            &&& is_failure(result, StoreErrorKind::Other)
            &&& final(table)@.statistics == old(table)@.statistics
        },
{
    if (table.statistics.len() as u64) < STATISTICS_CAPACITY {
        let event = StatisticsEvent {
            link_id: String::from_str(id),
            referer: clone_text(referer),
            user_agent: clone_text(user_agent),
        };
        let ghost added = event@;
        table.statistics.push(event);
        assert(table@.statistics =~= old(table)@.statistics.push(added));
        Ok(1)
    } else {
        Err(failure(StoreErrorKind::Other))
    }
}

/// A count of hits among `events` is at most their number.
pub proof fn lemma_hit_count_bounded(
    events: Seq<StatisticsEventView>,
    link_id: Seq<char>,
    referer: Option<Seq<char>>,
    user_agent: Option<Seq<char>>,
)
    ensures
        hit_count(events, link_id, referer, user_agent) <= events.len(),
    decreases events.len(),
{
    if events.len() > 0 {
        lemma_hit_count_bounded(events.drop_last(), link_id, referer, user_agent);
    }
}

/// Index of the row of `rows` for this referer and user agent, or the length
/// of `rows` where there is none.
fn row_position(rows: &Vec<LinkStatistics>, referer: &Option<String>, user_agent: &Option<String>) -> (at:
    usize)
    ensures
        at <= rows.len(),
        at < rows.len() ==> rows[at as int]@.referer == text_of(*referer) && rows[at as int]@.user_agent
            == text_of(*user_agent),
        at == rows.len() ==> !has_row(rows_view(rows@), text_of(*referer), text_of(*user_agent)),
{
    let mut at: usize = 0;
    while at < rows.len()
        invariant
            at <= rows.len(),
            forall|k: int|
                0 <= k < at ==> !((#[trigger] rows[k])@.referer == text_of(*referer) && rows[k]@.user_agent
                    == text_of(*user_agent)),
        decreases rows.len() - at,
    {
        if same_text(&rows[at].referer, referer) && same_text(&rows[at].user_agent, user_agent) {
            return at;
        }
        at += 1;
    }
    assert forall|k: int| 0 <= k < rows.len() implies !((#[trigger] rows_view(rows@)[k]).referer
        == text_of(*referer) && rows_view(rows@)[k].user_agent == text_of(*user_agent)) by {
        assert(rows_view(rows@)[k] == rows[k]@);
    }
    at
}

/// Selects the grouped counts of the statistics events of the link
/// `link_id`, as [`is_summary`] says. A link without events has no rows, and
/// neither has an identifier that no link carries.
pub fn get_statistics(table: &LinkTable, link_id: &str) -> (result: Result<
    Vec<LinkStatistics>,
    StoreError,
>)
    requires
        table.well_formed(),
    ensures
        result matches Ok(rows) && is_summary(rows_view(rows@), table@.statistics, link_id@),
{
    let ghost events = table@.statistics;
    let key = String::from_str(link_id);
    let total = table.statistics.len();
    let mut rows: Vec<LinkStatistics> = Vec::new();
    let mut k: usize = 0;
    proof {
        assert(events.take(0) =~= Seq::<StatisticsEventView>::empty());
    }
    while k < total
        invariant
            k <= total,
            total == table.statistics.len(),
            total <= STATISTICS_CAPACITY,
            events == table@.statistics,
            events == table.statistics@.map_values(|event: StatisticsEvent| event@),
            key@ == link_id@,
            is_summary(rows_view(rows@), events.take(k as int), link_id@),
        decreases total - k,
    {
        let ghost seen = events.take(k as int);
        let ghost next = events.take(k as int + 1);
        let ghost before = rows_view(rows@);
        let event = &table.statistics[k];
        proof {
            assert(next.drop_last() =~= seen);
            assert(next.last() == event@);
        }
        if event.link_id == key {
            let at = row_position(&rows, &event.referer, &event.user_agent);
            if at < rows.len() {
                let count: i64 = match rows[at].hits {
                    Some(count) => count,
                    None => 0,
                };
                proof {
                    assert(before[at as int] == rows[at as int]@);
                    lemma_hit_count_bounded(seen, link_id@, event@.referer, event@.user_agent);
                }
                let row = LinkStatistics {
                    hits: Some(count + 1),
                    referer: clone_text(&event.referer),
                    user_agent: clone_text(&event.user_agent),
                };
                rows.set(at, row);
                proof {
                    let after = rows_view(rows@);
                    assert forall|i: int| 0 <= i < after.len() implies {
                        let count = hit_count(
                            next,
                            link_id@,
                            (#[trigger] after[i]).referer,
                            after[i].user_agent,
                        );
                        count > 0 && after[i].hits == Some(count as int)
                    } by {
                        if i != at {
                            assert(after[i] == before[i]);
                            assert(!(before[i].referer == before[at as int].referer
                                && before[i].user_agent == before[at as int].user_agent));
                        }
                    }
                    assert forall|i: int, j: int| 0 <= i < j < after.len() implies !((
                    #[trigger] after[i]).referer == (#[trigger] after[j]).referer
                        && after[i].user_agent == after[j].user_agent) by {
                        assert(after[i].referer == before[i].referer);
                        assert(after[j].referer == before[j].referer);
                        assert(after[i].user_agent == before[i].user_agent);
                        assert(after[j].user_agent == before[j].user_agent);
                    }
                    assert forall|referer: Option<Seq<char>>, user_agent: Option<Seq<char>>|
                        #[trigger] hit_count(next, link_id@, referer, user_agent)
                            > 0 implies has_row(after, referer, user_agent) by {
                        if is_hit(event@, link_id@, referer, user_agent) {
                            assert(after[at as int].referer == referer);
                        } else {
                            assert(hit_count(seen, link_id@, referer, user_agent) > 0);
                            let i = choose|i: int|
                                0 <= i < before.len() && (#[trigger] before[i]).referer == referer
                                    && before[i].user_agent == user_agent;
                            assert(after[i].referer == referer && after[i].user_agent
                                == user_agent);
                        }
                    }
                }
            } else {
                let row = LinkStatistics {
                    hits: Some(1),
                    referer: clone_text(&event.referer),
                    user_agent: clone_text(&event.user_agent),
                };
                rows.push(row);
                proof {
                    let after = rows_view(rows@);
                    let last = before.len() as int;
                    assert(after =~= before.push(after[last]));
                    assert(hit_count(seen, link_id@, event@.referer, event@.user_agent) == 0) by {
                        if hit_count(seen, link_id@, event@.referer, event@.user_agent) > 0 {
                            assert(has_row(before, event@.referer, event@.user_agent));
                        }
                    }
                    assert forall|i: int| 0 <= i < after.len() implies {
                        let count = hit_count(
                            next,
                            link_id@,
                            (#[trigger] after[i]).referer,
                            after[i].user_agent,
                        );
                        count > 0 && after[i].hits == Some(count as int)
                    } by {
                        if i < last {
                            assert(after[i] == before[i]);
                            assert(!has_row(before, event@.referer, event@.user_agent));
                        }
                    }
                    assert forall|i: int, j: int| 0 <= i < j < after.len() implies !((
                    #[trigger] after[i]).referer == (#[trigger] after[j]).referer
                        && after[i].user_agent == after[j].user_agent) by {
                        assert(after[i] == before[i]);
                        if j < last {
                            assert(after[j] == before[j]);
                        }
                    }
                    assert forall|referer: Option<Seq<char>>, user_agent: Option<Seq<char>>|
                        #[trigger] hit_count(next, link_id@, referer, user_agent)
                            > 0 implies has_row(after, referer, user_agent) by {
                        if is_hit(event@, link_id@, referer, user_agent) {
                            assert(after[last].referer == referer);
                        } else {
                            assert(hit_count(seen, link_id@, referer, user_agent) > 0);
                            let i = choose|i: int|
                                0 <= i < before.len() && (#[trigger] before[i]).referer == referer
                                    && before[i].user_agent == user_agent;
                            assert(after[i].referer == referer && after[i].user_agent
                                == user_agent);
                        }
                    }
                }
            }
        } else {
            proof {
                let after = rows_view(rows@);
                assert forall|referer: Option<Seq<char>>, user_agent: Option<Seq<char>>|
                    #[trigger] hit_count(next, link_id@, referer, user_agent)
                        > 0 implies has_row(after, referer, user_agent) by {
                    assert(hit_count(seen, link_id@, referer, user_agent) > 0);
                }
            }
        }
        k += 1;
    }
    proof {
        assert(events.take(total as int) =~= events);
    }
    Ok(rows)
}

} // verus!
