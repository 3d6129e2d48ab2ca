//! Records of the link store and their mathematical views.
//!
//! Instants are `i64` counts of microseconds since 1970-01-01T00:00:00 UTC,
//! the resolution at which the backing store keeps them.

use vstd::prelude::*;

verus! {

/// Mathematical value of a [`Link`].
pub struct LinkView {
    pub id: Seq<char>,
    pub target_url: Seq<char>,
    pub expiration: int,
}

/// A persisted mapping from a short identifier to a target URL, valid until
/// `expiration`.
#[derive(Debug, PartialEq, Eq)]
pub struct Link {
    pub id: String,
    pub target_url: String,
    pub expiration: i64,
}

impl View for Link {
    type V = LinkView;

    open spec fn view(&self) -> LinkView {
        LinkView { id: self.id@, target_url: self.target_url@, expiration: self.expiration as int }
    }
}

impl Clone for Link {
    fn clone(&self) -> (copy: Self)
        ensures
            copy == *self,
    {
        Link {
            id: self.id.clone(),
            target_url: self.target_url.clone(),
            expiration: self.expiration,
        }
    }
}

/// Mathematical value of a [`LinkSpecification`].
pub struct LinkSpecificationView {
    pub target_url: Seq<char>,
    pub expiration: int,
}

/// What a client asks for when it creates or updates a link: the target as the
/// client wrote it, not yet validated, and the instant at which the link ends.
#[derive(Debug, PartialEq, Eq)]
pub struct LinkSpecification {
    pub target_url: String,
    pub expiration: i64,
}

impl View for LinkSpecification {
    type V = LinkSpecificationView;

    open spec fn view(&self) -> LinkSpecificationView {
        LinkSpecificationView {
            target_url: self.target_url@,
            expiration: self.expiration as int,
        }
    }
}

/// The characters of an optional string.
pub open spec fn text_of(value: Option<String>) -> Option<Seq<char>> {
    match value {
        Some(text) => Some(text@),
        None => None,
    }
}

/// Copies an optional string.
pub fn clone_text(value: &Option<String>) -> (copy: Option<String>)
    ensures
        copy == *value,
{
    match value {
        Some(text) => Some(text.clone()),
        None => None,
    }
}

/// Whether two optional strings hold the same characters, or are both absent.
pub fn same_text(left: &Option<String>, right: &Option<String>) -> (same: bool)
    ensures
        same == (text_of(*left) == text_of(*right)),
{
    match (left, right) {
        (Some(a), Some(b)) => *a == *b,
        (None, None) => true,
        _ => false,
    }
}

/// Mathematical value of a [`StatisticsEvent`].
pub struct StatisticsEventView {
    pub link_id: Seq<char>,
    pub referer: Option<Seq<char>>,
    pub user_agent: Option<Seq<char>>,
}

/// One recorded redirect hit, with what the client said of where it came from.
#[derive(Debug, PartialEq, Eq)]
pub struct StatisticsEvent {
    pub link_id: String,
    pub referer: Option<String>,
    pub user_agent: Option<String>,
}

impl View for StatisticsEvent {
    type V = StatisticsEventView;

    open spec fn view(&self) -> StatisticsEventView {
        StatisticsEventView {
            link_id: self.link_id@,
            referer: text_of(self.referer),
            user_agent: text_of(self.user_agent),
        }
    }
}

impl Clone for StatisticsEvent {
    fn clone(&self) -> (copy: Self)
        ensures
            copy == *self,
    {
        StatisticsEvent {
            link_id: self.link_id.clone(),
            referer: clone_text(&self.referer),
            user_agent: clone_text(&self.user_agent),
        }
    }
}

/// Mathematical value of a [`LinkStatistics`].
pub struct LinkStatisticsView {
    pub hits: Option<int>,
    pub referer: Option<Seq<char>>,
    pub user_agent: Option<Seq<char>>,
}

/// One grouped count of redirect hits: how many recorded statistics events of
/// a link share the same referer and user agent.
#[derive(Debug, PartialEq, Eq)]
pub struct LinkStatistics {
    pub hits: Option<i64>,
    pub referer: Option<String>,
    pub user_agent: Option<String>,
}

impl View for LinkStatistics {
    type V = LinkStatisticsView;

    open spec fn view(&self) -> LinkStatisticsView {
        LinkStatisticsView {
            hits: match self.hits {
                Some(count) => Some(count as int),
                None => None,
            },
            referer: text_of(self.referer),
            user_agent: text_of(self.user_agent),
        }
    }
}

impl Clone for LinkStatistics {
    fn clone(&self) -> (copy: Self)
        ensures
            copy == *self,
    {
        LinkStatistics {
            hits: self.hits,
            referer: clone_text(&self.referer),
            user_agent: clone_text(&self.user_agent),
        }
    }
}

} // verus!
