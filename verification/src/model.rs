//! Value types of the registry and their mathematical views.
//!
//! Every type here is plain data. Its view replaces each string by the
//! sequence of its characters, and contracts throughout the crate speak of
//! these views only.

use vstd::prelude::*;
use vstd::std_specs::cmp::PartialEqSpecImpl;

verus! {

/// All possible errors of the service.
///
/// Each of them is an ordinary, recoverable outcome of a command or a query:
/// none is returned after an event was recorded.
#[derive(Debug, Clone, Copy, PartialEq, Eq, Structural)]
pub enum ShortenerError {
    /// An invalid [`Url`] was provided for shortening.
    InvalidUrl,
    /// The slug (custom alias) is already taken by an active link.
    SlugAlreadyInUse,
    /// The [`Slug`] does not map to any existing short link.
    SlugNotFound,
}

/// A unique string (or alias) that identifies a short link.
///
/// Two slugs are the same slug exactly when their characters are the same.
#[derive(Debug)]
pub struct Slug(pub String);

impl View for Slug {
    type V = Seq<char>;

    open spec fn view(&self) -> Seq<char> {
        self.0@
    }
}

impl Clone for Slug {
    fn clone(&self) -> (res: Self)
        ensures
            res@ == self@,
    {
        Slug(self.0.clone())
    }
}

impl PartialEq for Slug {
    fn eq(&self, other: &Self) -> (res: bool) {
        self.0 == other.0
    }
}

impl PartialEqSpecImpl for Slug {
    open spec fn obeys_eq_spec() -> bool {
        true
    }

    open spec fn eq_spec(&self, other: &Self) -> bool {
        self@ == other@
    }
}

/// The long URL that a short link points to.
#[derive(Debug)]
pub struct Url(pub String);

impl View for Url {
    type V = Seq<char>;

    open spec fn view(&self) -> Seq<char> {
        self.0@
    }
}

impl Clone for Url {
    fn clone(&self) -> (res: Self)
        ensures
            res@ == self@,
    {
        Url(self.0.clone())
    }
}

impl PartialEq for Url {
    fn eq(&self, other: &Self) -> (res: bool) {
        self.0 == other.0
    }
}

impl PartialEqSpecImpl for Url {
    open spec fn obeys_eq_spec() -> bool {
        true
    }

    open spec fn eq_spec(&self, other: &Self) -> bool {
        self@ == other@
    }
}

/// The view of a [`ShortLink`].
pub struct ShortLinkView {
    pub slug: Seq<char>,
    pub url: Seq<char>,
}

/// Shortened URL representation: the current target of a slug.
#[derive(Debug)]
pub struct ShortLink {
    /// The slug that identifies the link.
    pub slug: Slug,
    /// The URL that the link points to.
    pub url: Url,
}

impl View for ShortLink {
    type V = ShortLinkView;

    open spec fn view(&self) -> ShortLinkView {
        ShortLinkView { slug: self.slug@, url: self.url@ }
    }
}

impl Clone for ShortLink {
    fn clone(&self) -> (res: Self)
        ensures
            res@ == self@,
    {
        ShortLink { slug: self.slug.clone(), url: self.url.clone() }
    }
}

impl PartialEq for ShortLink {
    fn eq(&self, other: &Self) -> (res: bool) {
        self.slug == other.slug && self.url == other.url
    }
}

impl PartialEqSpecImpl for ShortLink {
    open spec fn obeys_eq_spec() -> bool {
        true
    }

    open spec fn eq_spec(&self, other: &Self) -> bool {
        self@ == other@
    }
}

/// The view of a [`Stats`].
pub struct StatsView {
    pub link: ShortLinkView,
    pub redirects: nat,
}

/// Statistics of a [`ShortLink`].
#[derive(Debug)]
pub struct Stats {
    /// The link to which these statistics are related.
    pub link: ShortLink,
    /// Count of redirects of the link.
    pub redirects: u64,
}

impl View for Stats {
    type V = StatsView;

    open spec fn view(&self) -> StatsView {
        StatsView { link: self.link@, redirects: self.redirects as nat }
    }
}

impl Clone for Stats {
    fn clone(&self) -> (res: Self)
        ensures
            res@ == self@,
    {
        Stats { link: self.link.clone(), redirects: self.redirects }
    }
}

impl PartialEq for Stats {
    fn eq(&self, other: &Self) -> (res: bool) {
        self.link == other.link && self.redirects == other.redirects
    }
}

impl PartialEqSpecImpl for Stats {
    open spec fn obeys_eq_spec() -> bool {
        true
    }

    open spec fn eq_spec(&self, other: &Self) -> bool {
        self@ == other@
    }
}

/// The view of an [`Event`].
pub enum EventView {
    LinkCreated { slug: Seq<char>, url: Seq<char> },
    LinkAccessed { slug: Seq<char> },
    UrlChanged { slug: Seq<char>, new_url: Seq<char> },
}

impl EventView {
    /// The slug that the event is about.
    pub open spec fn slug(self) -> Seq<char> {
        match self {
            EventView::LinkCreated { slug, .. } => slug,
            EventView::LinkAccessed { slug } => slug,
            EventView::UrlChanged { slug, .. } => slug,
        }
    }
}

/// A fact of the registry's history: the unit of the event log.
#[derive(Debug)]
pub enum Event {
    /// A new link was established.
    LinkCreated { slug: Slug, url: Url },
    /// The link was followed once.
    LinkAccessed { slug: Slug },
    /// An existing link was pointed at another URL.
    UrlChanged { slug: Slug, new_url: Url },
}

impl View for Event {
    type V = EventView;

    open spec fn view(&self) -> EventView {
        match self {
            Event::LinkCreated { slug, url } => EventView::LinkCreated { slug: slug@, url: url@ },
            Event::LinkAccessed { slug } => EventView::LinkAccessed { slug: slug@ },
            Event::UrlChanged { slug, new_url } => EventView::UrlChanged {
                slug: slug@,
                new_url: new_url@,
            },
        }
    }
}

impl Clone for Event {
    fn clone(&self) -> (res: Self)
        ensures
            res@ == self@,
    {
        match self {
            Event::LinkCreated { slug, url } => Event::LinkCreated {
                slug: slug.clone(),
                url: url.clone(),
            },
            Event::LinkAccessed { slug } => Event::LinkAccessed { slug: slug.clone() },
            Event::UrlChanged { slug, new_url } => Event::UrlChanged {
                slug: slug.clone(),
                new_url: new_url.clone(),
            },
        }
    }
}

impl PartialEq for Event {
    fn eq(&self, other: &Self) -> (res: bool) {
        match (self, other) {
            (
                Event::LinkCreated { slug: s1, url: u1 },
                Event::LinkCreated { slug: s2, url: u2 },
            ) => *s1 == *s2 && *u1 == *u2,
            (Event::LinkAccessed { slug: s1 }, Event::LinkAccessed { slug: s2 }) => *s1 == *s2,
            (
                Event::UrlChanged { slug: s1, new_url: u1 },
                Event::UrlChanged { slug: s2, new_url: u2 },
            ) => *s1 == *s2 && *u1 == *u2,
            _ => false,
        }
    }
}

impl PartialEqSpecImpl for Event {
    open spec fn obeys_eq_spec() -> bool {
        true
    }

    open spec fn eq_spec(&self, other: &Self) -> bool {
        self@ == other@
    }
}

/// The view of what a command returns.
pub open spec fn link_result_view(res: Result<ShortLink, ShortenerError>) -> Result<
    ShortLinkView,
    ShortenerError,
> {
    match res {
        Ok(link) => Ok(link@),
        Err(error) => Err(error),
    }
}

/// The view of what a query for statistics returns.
pub open spec fn stats_result_view(res: Result<Stats, ShortenerError>) -> Result<
    StatsView,
    ShortenerError,
> {
    match res {
        Ok(stats) => Ok(stats@),
        Err(error) => Err(error),
    }
}

/// The view of a list of slugs: the view of each, in the same order.
pub open spec fn slugs_view(slugs: Seq<Slug>) -> Seq<Seq<char>> {
    Seq::new(slugs.len(), |i: int| slugs[i]@)
}

/// The view of a run of events: the view of each, in the same order.
pub open spec fn events_view(events: Seq<Event>) -> Seq<EventView> {
    Seq::new(events.len(), |i: int| events[i]@)
}

/// The prefix that every accepted URL begins with.
pub open spec fn scheme_prefix() -> Seq<char> {
    seq!['h', 't', 't', 'p']
}

/// The validity predicate on URLs: not empty, and beginning with the scheme
/// prefix.
pub open spec fn is_valid_url(url: Seq<char>) -> bool {
    url.len() > 0 && scheme_prefix().is_prefix_of(url)
}

/// Whether `text` begins with `prefix`, character by character.
pub fn has_prefix(text: &str, prefix: &str) -> (res: bool)
    ensures
        res == prefix@.is_prefix_of(text@),
{
    broadcast use vstd::string::group_string_axioms;

    let mut rest = text.chars();
    let mut wanted = prefix.chars();
    let ghost mut done: int = 0;
    loop
        invariant
            0 <= done <= prefix@.len(),
            done <= text@.len(),
            vstd::std_specs::iter::IteratorSpec::remaining(&wanted) == prefix@.skip(done),
            vstd::std_specs::iter::IteratorSpec::remaining(&rest) == text@.skip(done),
            text@.take(done) == prefix@.take(done),
        decreases prefix@.len() - done,
    {
        match wanted.next() {
            None => {
                return true;
            },
            Some(expected) => match rest.next() {
                None => {
                    return false;
                },
                Some(found) => {
                    if found != expected {
                        return false;
                    }
                    proof {
                        done = done + 1;
                    }
                },
            },
        }
    }
}

impl Url {
    /// Whether the URL passes the validity predicate.
    pub fn is_valid(&self) -> (ok: bool)
        ensures
            ok == is_valid_url(self@),
    {
        proof {
            reveal_strlit("http");
        }
        has_prefix(self.0.as_str(), "http")
    }
}

} // verus!
