//! The read side: what a query answers. A query records nothing.

use vstd::prelude::*;
use crate::model::{EventView, ShortenerError, Slug, Stats, StatsView, stats_result_view};
use crate::projection::{project, stats_of};

verus! {

/// What a query for the statistics of `slug` answers after `log`: the
/// current link of the slug with its count of redirects, or `SlugNotFound`
/// if the slug is not active.
pub open spec fn stats_outcome(log: Seq<EventView>, slug: Seq<char>) -> Result<
    StatsView,
    ShortenerError,
> {
    match stats_of(project(log), slug) {
        Some(stats) => Ok(stats),
        None => Err(ShortenerError::SlugNotFound),
    }
}

/// The count of redirects that a query for the statistics of `slug` answers
/// after `log`; zero for a slug that is not active.
pub open spec fn redirects_of(log: Seq<EventView>, slug: Seq<char>) -> nat {
    match stats_outcome(log, slug) {
        Ok(stats) => stats.redirects,
        Err(_) => 0,
    }
}

/// Trait for query handlers.
///
/// The view of a handler is the event log that its answers are derived
/// from.
pub trait QueryHandler: View<V = Seq<EventView>> {
    /// Returns the [`Stats`] for a specific [`ShortLink`], such as the
    /// number of redirects (clicks): the current link of the slug and its
    /// count, or `SlugNotFound` if the slug is not active.
    ///
    /// [`ShortLink`]: crate::model::ShortLink
    fn get_stats(&self, slug: Slug) -> (res: Result<Stats, ShortenerError>)
        ensures
            stats_result_view(res) == stats_outcome(self@, slug@),
    ;
}

} // verus!
