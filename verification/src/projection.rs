//! The projection of an event log: which links are active, where each
//! points, and how often each was followed.
//!
//! The fold over the log is stated once, as the spec functions
//! [`apply_event`], [`fold_events`] and [`project`]. The executable
//! [`Projection`] keeps the folded table and moves it forward one event at a
//! time; a full replay from the empty table gives the same table.

use vstd::prelude::*;
use vstd::hash_map::StringHashMap;
use crate::model::{
    Event, EventView, ShortLink, ShortLinkView, Slug, Stats, StatsView, Url, events_view,
    slugs_view,
};

verus! {

/// What the projection knows of one active slug.
pub struct LinkState {
    /// The URL that the link points to now.
    pub url: Seq<char>,
    /// How many times the link was followed.
    pub redirects: nat,
}

/// The table of the active links, by slug.
pub type LinkTable = Map<Seq<char>, LinkState>;

/// The table after one more event.
///
/// A creation adds the slug with no redirects; if the slug is active
/// already, the first creation stands and the table is unchanged. An access
/// or a change of URL of a slug that is not active changes nothing.
pub open spec fn apply_event(table: LinkTable, event: EventView) -> LinkTable {
    match event {
        EventView::LinkCreated { slug, url } => if table.contains_key(slug) {
            table
        } else {
            table.insert(slug, LinkState { url, redirects: 0 })
        },
        EventView::LinkAccessed { slug } => if table.contains_key(slug) {
            table.insert(
                slug,
                LinkState { url: table[slug].url, redirects: table[slug].redirects + 1 },
            )
        } else {
            table
        },
        EventView::UrlChanged { slug, new_url } => if table.contains_key(slug) {
            table.insert(slug, LinkState { url: new_url, redirects: table[slug].redirects })
        } else {
            table
        },
    }
}

/// The table after a run of events, applied in order to `table`.
pub open spec fn fold_events(table: LinkTable, events: Seq<EventView>) -> LinkTable
    decreases events.len(),
{
    if events.len() == 0 {
        table
    } else {
        apply_event(fold_events(table, events.drop_last()), events.last())
    }
}

/// The projection of a whole log: the fold from the empty table.
pub open spec fn project(log: Seq<EventView>) -> LinkTable {
    fold_events(Map::empty(), log)
}

/// The link that `table` holds for `slug`, if the slug is active.
pub open spec fn link_of(table: LinkTable, slug: Seq<char>) -> Option<ShortLinkView> {
    if table.contains_key(slug) {
        Some(ShortLinkView { slug, url: table[slug].url })
    } else {
        None
    }
}

/// The statistics that `table` holds for `slug`, if the slug is active: its
/// current link and its count of redirects.
pub open spec fn stats_of(table: LinkTable, slug: Seq<char>) -> Option<StatsView> {
    if table.contains_key(slug) {
        Some(
            StatsView {
                link: ShortLinkView { slug, url: table[slug].url },
                redirects: table[slug].redirects,
            },
        )
    } else {
        None
    }
}

/// The first of `candidates` that `table` does not hold, if there is one.
pub open spec fn first_free(table: LinkTable, candidates: Seq<Seq<char>>) -> Option<Seq<char>>
    decreases candidates.len(),
{
    if candidates.len() == 0 {
        None
    } else if !table.contains_key(candidates[0]) {
        Some(candidates[0])
    } else {
        first_free(table, candidates.drop_first())
    }
}

/// Candidates that the table holds are passed over.
pub proof fn lemma_first_free_skip(table: LinkTable, candidates: Seq<Seq<char>>, n: int)
    requires
        0 <= n <= candidates.len(),
        forall|j: int| 0 <= j < n ==> table.contains_key(#[trigger] candidates[j]),
    ensures
        first_free(table, candidates) == first_free(table, candidates.skip(n)),
    decreases n,
{
    if n == 0 {
        assert(candidates.skip(0) =~= candidates);
    } else {
        let rest = candidates.drop_first();
        assert forall|j: int| 0 <= j < n - 1 implies table.contains_key(#[trigger] rest[j]) by {
            assert(rest[j] == candidates[j + 1]);
        }
        lemma_first_free_skip(table, rest, n - 1);
        assert(rest.skip(n - 1) =~= candidates.skip(n));
    }
}

/// What `first_free` answers is one of the candidates, and one that the
/// table does not hold; it answers none only if the table holds them all.
pub proof fn lemma_first_free_found(table: LinkTable, candidates: Seq<Seq<char>>)
    ensures
        match first_free(table, candidates) {
            Some(slug) => !table.contains_key(slug) && exists|i: int|
                0 <= i < candidates.len() && first_free(table, candidates) == Some(
                    #[trigger] candidates[i],
                ),
            None => forall|i: int|
                0 <= i < candidates.len() ==> table.contains_key(#[trigger] candidates[i]),
        },
    decreases candidates.len(),
{
    if candidates.len() > 0 {
        if table.contains_key(candidates[0]) {
            let rest = candidates.drop_first();
            lemma_first_free_found(table, rest);
            match first_free(table, rest) {
                Some(slug) => {
                    let i = choose|i: int|
                        0 <= i < rest.len() && first_free(table, rest) == Some(#[trigger] rest[i]);
                    assert(candidates[i + 1] == rest[i]);
                },
                None => {
                    assert forall|i: int| 0 <= i < candidates.len() implies table.contains_key(
                        #[trigger] candidates[i],
                    ) by {
                        if i > 0 {
                            assert(candidates[i] == rest[i - 1]);
                        }
                    }
                },
            }
        } else {
            assert(first_free(table, candidates) == Some(candidates[0]));
        }
    }
}

/// Folding one more event is applying it to the fold of the rest.
pub proof fn lemma_fold_push(table: LinkTable, events: Seq<EventView>, event: EventView)
    ensures
        fold_events(table, events.push(event)) == apply_event(fold_events(table, events), event),
{
    assert(events.push(event).drop_last() =~= events);
}

/// Folding a log in two parts gives the fold of the whole: the table may be
/// kept and moved forward by the new events alone.
pub proof fn lemma_fold_concat(
    table: LinkTable,
    first: Seq<EventView>,
    second: Seq<EventView>,
)
    ensures
        fold_events(table, first + second) == fold_events(fold_events(table, first), second),
    decreases second.len(),
{
    if second.len() == 0 {
        assert(first + second =~= first);
    } else {
        lemma_fold_concat(table, first, second.drop_last());
        assert((first + second).drop_last() =~= first + second.drop_last());
    }
}

/// A count of redirects is below the number of events folded: beside the
/// accesses, the log holds the creation.
pub proof fn lemma_redirects_bounded(log: Seq<EventView>, slug: Seq<char>)
    requires
        project(log).contains_key(slug),
    ensures
        project(log)[slug].redirects < log.len(),
    decreases log.len(),
{
    if log.len() > 0 {
        let before = project(log.drop_last());
        if before.contains_key(slug) {
            lemma_redirects_bounded(log.drop_last(), slug);
        }
    }
}

struct LinkEntry {
    url: Url,
    redirects: u64,
}

impl View for LinkEntry {
    type V = LinkState;

    closed spec fn view(&self) -> LinkState {
        LinkState { url: self.url@, redirects: self.redirects as nat }
    }
}

/// The materialized view: the folded table, held for lookup by slug.
pub struct Projection {
    entries: StringHashMap<LinkEntry>,
}

impl View for Projection {
    type V = LinkTable;

    closed spec fn view(&self) -> LinkTable {
        Map::new(
            |slug: Seq<char>| self.entries@.contains_key(slug),
            |slug: Seq<char>| self.entries@[slug]@,
        )
    }
}

impl Projection {
    /// The projection of the empty log.
    pub fn new() -> (res: Self)
        ensures
            res@ == project(Seq::empty()),
    {
        let res = Projection { entries: StringHashMap::new() };
        assert(res@ =~= Map::empty());
        res
    }

    /// Whether `slug` is active.
    pub fn contains(&self, slug: &Slug) -> (res: bool)
        ensures
            res == self@.contains_key(slug@),
    {
        self.entries.contains_key(slug.0.as_str())
    }

    /// The current link of `slug`, if the slug is active.
    pub fn link(&self, slug: &Slug) -> (res: Option<ShortLink>)
        ensures
            match res {
                Some(link) => link_of(self@, slug@) == Some(link@),
                None => link_of(self@, slug@) is None,
            },
    {
        match self.entries.get(slug.0.as_str()) {
            Some(entry) => Some(ShortLink { slug: slug.clone(), url: entry.url.clone() }),
            None => None,
        }
    }

    /// The statistics of `slug`, if the slug is active.
    pub fn stats(&self, slug: &Slug) -> (res: Option<Stats>)
        ensures
            match res {
                Some(stats) => stats_of(self@, slug@) == Some(stats@),
                None => stats_of(self@, slug@) is None,
            },
    {
        match self.entries.get(slug.0.as_str()) {
            Some(entry) => Some(
                Stats {
                    link: ShortLink { slug: slug.clone(), url: entry.url.clone() },
                    redirects: entry.redirects,
                },
            ),
            None => None,
        }
    }

    /// The position of the first of `candidates` that is not active, if
    /// there is one: every candidate before it is active.
    pub fn first_free(&self, candidates: &Vec<Slug>) -> (res: Option<usize>)
        ensures
            match res {
                Some(i) => {
                    &&& i < candidates@.len()
                    &&& !self@.contains_key(candidates@[i as int]@)
                    &&& forall|j: int| 0 <= j < i ==> self@.contains_key(#[trigger] candidates@[j]@)
                    &&& first_free(self@, slugs_view(candidates@)) == Some(candidates@[i as int]@)
                },
                None => {
                    &&& forall|j: int|
                        0 <= j < candidates@.len() ==> self@.contains_key(
                            #[trigger] candidates@[j]@,
                        )
                    &&& first_free(self@, slugs_view(candidates@)) is None
                },
            },
    {
        let ghost slugs = slugs_view(candidates@);
        let mut i: usize = 0;
        while i < candidates.len()
            invariant
                0 <= i <= candidates@.len(),
                slugs == slugs_view(candidates@),
                forall|j: int| 0 <= j < i ==> self@.contains_key(#[trigger] candidates@[j]@),
            decreases candidates@.len() - i,
        {
            if !self.contains(&candidates[i]) {
                proof {
                    assert forall|j: int| 0 <= j < i implies self@.contains_key(
                        #[trigger] slugs[j],
                    ) by {
                        assert(slugs[j] == candidates@[j]@);
                    }
                    lemma_first_free_skip(self@, slugs, i as int);
                    assert(slugs.skip(i as int)[0] == candidates@[i as int]@);
                }
                return Some(i);
            }
            i = i + 1;
        }
        proof {
            assert forall|j: int| 0 <= j < i implies self@.contains_key(#[trigger] slugs[j]) by {
                assert(slugs[j] == candidates@[j]@);
            }
            lemma_first_free_skip(self@, slugs, i as int);
        }
        None
    }

    /// Moves the projection forward by one event.
    ///
    /// The count of redirects is a `u64`: an access of a link whose count
    /// has reached `u64::MAX` is left out.
    pub fn apply(&mut self, event: &Event)
        requires
            event@ is LinkAccessed && old(self)@.contains_key(event@.slug()) ==> old(
                self,
            )@[event@.slug()].redirects < u64::MAX,
        ensures
            final(self)@ == apply_event(old(self)@, event@),
    {
        match event {
            Event::LinkCreated { slug, url } => {
                if !self.entries.contains_key(slug.0.as_str()) {
                    let entry = LinkEntry { url: url.clone(), redirects: 0 };
                    self.entries.insert(slug.0.clone(), entry);
                }
            },
            Event::LinkAccessed { slug } => {
                let bumped = match self.entries.get(slug.0.as_str()) {
                    Some(entry) => Some(
                        LinkEntry { url: entry.url.clone(), redirects: entry.redirects + 1 },
                    ),
                    None => None,
                };
                if let Some(entry) = bumped {
                    self.entries.insert(slug.0.clone(), entry);
                }
            },
            Event::UrlChanged { slug, new_url } => {
                let moved = match self.entries.get(slug.0.as_str()) {
                    Some(entry) => Some(
                        LinkEntry { url: new_url.clone(), redirects: entry.redirects },
                    ),
                    None => None,
                };
                if let Some(entry) = moved {
                    self.entries.insert(slug.0.clone(), entry);
                }
            },
        }
        assert(self@ =~= apply_event(old(self)@, event@));
    }

    /// Replays a whole log from the empty table.
    pub fn replay(events: &Vec<Event>) -> (res: Self)
        ensures
            res@ == project(events_view(events@)),
    {
        let mut res = Projection::new();
        let ghost log = events_view(events@);
        let mut i: usize = 0;
        while i < events.len()
            invariant
                0 <= i <= events.len(),
                log == events_view(events@),
                res@ == project(log.take(i as int)),
            decreases events.len() - i,
        {
            proof {
                let slug = events[i as int]@.slug();
                if res@.contains_key(slug) {
                    lemma_redirects_bounded(log.take(i as int), slug);
                }
                lemma_fold_push(Map::empty(), log.take(i as int), log[i as int]);
                assert(log.take(i as int).push(log[i as int]) =~= log.take(i + 1));
            }
            res.apply(&events[i]);
            i = i + 1;
        }
        assert(log.take(i as int) =~= log);
        res
    }
}

} // verus!
