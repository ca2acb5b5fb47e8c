//! What holds of event logs: which events may follow a log, and what the
//! projection of a log built from such events looks like.

use vstd::prelude::*;
use crate::model::{EventView, is_valid_url};
use crate::projection::{LinkTable, apply_event, project};

verus! {

/// Whether `slug` has a link after `log`.
pub open spec fn is_active(log: Seq<EventView>, slug: Seq<char>) -> bool {
    project(log).contains_key(slug)
}

/// Whether `event` may be recorded after `log`: a creation needs a slug that
/// is not active and a valid URL, an access needs an active slug, and a
/// change of URL needs an active slug and a valid URL.
pub open spec fn admissible(log: Seq<EventView>, event: EventView) -> bool {
    match event {
        EventView::LinkCreated { slug, url } => !is_active(log, slug) && is_valid_url(url),
        EventView::LinkAccessed { slug } => is_active(log, slug),
        EventView::UrlChanged { slug, new_url } => is_active(log, slug) && is_valid_url(new_url),
    }
}

/// A log is well formed when each of its events was admissible after the
/// events before it.
pub open spec fn well_formed(log: Seq<EventView>) -> bool {
    forall|i: int| 0 <= i < log.len() ==> admissible(log.take(i), #[trigger] log[i])
}

/// No slug is created twice.
pub open spec fn unique_creations(log: Seq<EventView>) -> bool {
    forall|i: int, j: int|
        {
            &&& 0 <= i < j < log.len()
            &&& #[trigger] log[i] is LinkCreated
            &&& #[trigger] log[j] is LinkCreated
        } ==> log[i].slug() != log[j].slug()
}

/// The number of accesses of `slug` that `log` records.
pub open spec fn count_accesses(log: Seq<EventView>, slug: Seq<char>) -> nat
    decreases log.len(),
{
    if log.len() == 0 {
        0
    } else {
        let before = count_accesses(log.drop_last(), slug);
        if log.last() == (EventView::LinkAccessed { slug }) {
            before + 1
        } else {
            before
        }
    }
}

/// The URL that `log` last wrote for `slug`, by a creation or by a change of
/// URL, if it wrote any.
pub open spec fn last_written_url(log: Seq<EventView>, slug: Seq<char>) -> Option<Seq<char>>
    decreases log.len(),
{
    if log.len() == 0 {
        None
    } else {
        match log.last() {
            EventView::LinkCreated { slug: created, url } if created == slug => Some(url),
            EventView::UrlChanged { slug: changed, new_url } if changed == slug => Some(new_url),
            _ => last_written_url(log.drop_last(), slug),
        }
    }
}

/// The projection of a prefix, extended by the next event, is the
/// projection of the prefix that is longer by one.
pub proof fn lemma_project_step(log: Seq<EventView>, i: int)
    requires
        0 <= i < log.len(),
    ensures
        project(log.take(i + 1)) == apply_event(project(log.take(i)), log[i]),
{
    assert(log.take(i + 1).drop_last() =~= log.take(i));
}

/// An event never retires a slug: the active slugs only grow.
pub proof fn lemma_apply_keeps_active(table: LinkTable, event: EventView, slug: Seq<char>)
    requires
        table.contains_key(slug),
    ensures
        apply_event(table, event).contains_key(slug),
{
}

/// A slug that is active after a prefix of a log is active after the whole
/// log.
pub proof fn lemma_active_forever(log: Seq<EventView>, i: int, slug: Seq<char>)
    requires
        0 <= i <= log.len(),
        is_active(log.take(i), slug),
    ensures
        is_active(log, slug),
    decreases log.len() - i,
{
    if i < log.len() {
        lemma_project_step(log, i);
        lemma_active_forever(log, i + 1, slug);
    } else {
        assert(log.take(i) =~= log);
    }
}

/// A slug is active exactly when the log holds a creation of it.
pub proof fn lemma_active_iff_created(log: Seq<EventView>, slug: Seq<char>)
    ensures
        is_active(log, slug) <==> exists|i: int|
            0 <= i < log.len() && #[trigger] log[i] is LinkCreated && log[i].slug() == slug,
    decreases log.len(),
{
    if log.len() > 0 {
        let rest = log.drop_last();
        lemma_active_iff_created(rest, slug);
        if is_active(rest, slug) {
            let i = choose|i: int|
                0 <= i < rest.len() && #[trigger] rest[i] is LinkCreated && rest[i].slug() == slug;
            assert(log[i] is LinkCreated && log[i].slug() == slug);
        } else if is_active(log, slug) {
            let last = log.len() - 1;
            assert(log[last] is LinkCreated && log[last].slug() == slug);
        } else {
            assert forall|i: int|
                0 <= i < log.len() && #[trigger] log[i] is LinkCreated implies log[i].slug()
                != slug by {
                if i < rest.len() {
                    assert(rest[i] is LinkCreated);
                }
            }
        }
    }
}

/// A well-formed log stays well formed when an admissible event is added.
pub proof fn lemma_well_formed_push(log: Seq<EventView>, event: EventView)
    requires
        well_formed(log),
        admissible(log, event),
    ensures
        well_formed(log.push(event)),
{
    let longer = log.push(event);
    assert forall|i: int| 0 <= i < longer.len() implies admissible(
        longer.take(i),
        #[trigger] longer[i],
    ) by {
        if i < log.len() {
            assert(longer.take(i) =~= log.take(i));
            assert(admissible(log.take(i), log[i]));
        } else {
            assert(longer.take(i) =~= log);
        }
    }
}

/// Every prefix of a well-formed log is well formed.
pub proof fn lemma_well_formed_prefix(log: Seq<EventView>, n: int)
    requires
        well_formed(log),
        0 <= n <= log.len(),
    ensures
        well_formed(log.take(n)),
{
    let prefix = log.take(n);
    assert forall|i: int| 0 <= i < prefix.len() implies admissible(
        prefix.take(i),
        #[trigger] prefix[i],
    ) by {
        assert(prefix.take(i) =~= log.take(i));
        assert(admissible(log.take(i), log[i]));
    }
}

/// In a well-formed log no slug is created twice.
pub proof fn lemma_well_formed_unique(log: Seq<EventView>)
    requires
        well_formed(log),
    ensures
        unique_creations(log),
{
    assert forall|i: int, j: int|
        {
            &&& 0 <= i < j < log.len()
            &&& #[trigger] log[i] is LinkCreated
            &&& #[trigger] log[j] is LinkCreated
        } implies log[i].slug() != log[j].slug() by {
        let slug = log[i].slug();
        lemma_project_step(log, i);
        assert(is_active(log.take(i + 1), slug));
        assert(log.take(j).take(i + 1) =~= log.take(i + 1));
        lemma_active_forever(log.take(j), i + 1, slug);
        assert(admissible(log.take(j), log[j]));
    }
}

/// In a well-formed log the redirects of an active slug are the accesses of
/// it that the log records, and a slug that is not active has none.
pub proof fn lemma_redirects_are_accesses(log: Seq<EventView>, slug: Seq<char>)
    requires
        well_formed(log),
    ensures
        is_active(log, slug) ==> project(log)[slug].redirects == count_accesses(log, slug),
        !is_active(log, slug) ==> count_accesses(log, slug) == 0,
    decreases log.len(),
{
    if log.len() > 0 {
        let rest = log.drop_last();
        assert(rest =~= log.take(log.len() - 1));
        lemma_well_formed_prefix(log, log.len() - 1);
        lemma_redirects_are_accesses(rest, slug);
        assert(admissible(rest, log[log.len() - 1]));
    }
}

/// In a well-formed log the last write wins: an active link points to the
/// URL that the log wrote last for its slug, and nothing was written for a
/// slug that is not active.
pub proof fn lemma_last_write_wins(log: Seq<EventView>, slug: Seq<char>)
    requires
        well_formed(log),
    ensures
        is_active(log, slug) ==> last_written_url(log, slug) == Some(project(log)[slug].url),
        !is_active(log, slug) ==> last_written_url(log, slug) is None,
    decreases log.len(),
{
    if log.len() > 0 {
        let rest = log.drop_last();
        assert(rest =~= log.take(log.len() - 1));
        lemma_well_formed_prefix(log, log.len() - 1);
        lemma_last_write_wins(rest, slug);
        assert(admissible(rest, log[log.len() - 1]));
    }
}

/// In a well-formed log every active link points to a valid URL.
pub proof fn lemma_active_urls_valid(log: Seq<EventView>, slug: Seq<char>)
    requires
        well_formed(log),
        is_active(log, slug),
    ensures
        is_valid_url(project(log)[slug].url),
    decreases log.len(),
{
    if log.len() > 0 {
        let rest = log.drop_last();
        assert(rest =~= log.take(log.len() - 1));
        lemma_well_formed_prefix(log, log.len() - 1);
        assert(admissible(rest, log[log.len() - 1]));
        if is_active(rest, slug) {
            lemma_active_urls_valid(rest, slug);
        }
    }
}

} // verus!
