//! The service: one event store, its projection, and the commands and
//! queries that work on them.

use vstd::prelude::*;
use crate::commands::{
    Command, CommandHandler, lemma_candidate_creation_is_creation, log_after, log_with_created,
    outcome, outcome_with_candidates,
};
use crate::event_store::EventStore;
use crate::history::{admissible, is_active, well_formed, lemma_well_formed_push};
use crate::model::{
    Event, EventView, ShortLink, ShortenerError, Slug, Stats, Url, events_view, is_valid_url,
    link_result_view, slugs_view,
};
use crate::projection::{
    Projection, first_free, lemma_first_free_found, lemma_fold_push, lemma_redirects_bounded,
    project,
};
use crate::queries::QueryHandler;
use crate::slug_source::{MAX_SLUG_ATTEMPTS, is_generated_slug, random_candidates};

verus! {

/// CQRS and Event Sourcing-based service implementation.
///
/// The service owns the event log and a projection of it. Its view is the
/// log: whatever a command or a query answers is a function of the log
/// alone. Taking `&mut self`, the commands run one after the other, each
/// against the log that the one before it left.
pub struct UrlShortenerService {
    store: EventStore,
    links: Projection,
}

impl View for UrlShortenerService {
    type V = Seq<EventView>;

    closed spec fn view(&self) -> Seq<EventView> {
        self.store@
    }
}

impl UrlShortenerService {
    /// The log is well formed, and the projection is the fold of the log.
    #[verifier::type_invariant]
    spec fn consistent(&self) -> bool {
        well_formed(self.store@) && self.links@ == project(self.store@)
    }

    /// Creates a new instance of the service, with an empty log.
    pub fn new() -> (res: Self)
        ensures
            res@ == Seq::<EventView>::empty(),
    {
        UrlShortenerService { store: EventStore::new(), links: Projection::new() }
    }

    /// Appends `event` to the log and moves the projection forward by it.
    fn record_event(&mut self, event: Event)
        requires
            admissible(old(self)@, event@),
        ensures
            final(self)@ == old(self)@.push(event@),
    {
        proof {
            use_type_invariant(&*self);
        }
        let mut taken = UrlShortenerService::new();
        std::mem::swap(self, &mut taken);
        let UrlShortenerService { mut store, mut links } = taken;
        proof {
            store.lemma_len_bounded();
            if links@.contains_key(event@.slug()) {
                lemma_redirects_bounded(store@, event@.slug());
            }
            lemma_fold_push(Map::empty(), store@, event@);
            lemma_well_formed_push(store@, event@);
        }
        links.apply(&event);
        store.append(event);
        *self = UrlShortenerService { store, links };
    }

    /// Creates the link of `url` under the slug of the caller's choice.
    fn create(&mut self, url: Url, slug: Slug) -> (res: Result<ShortLink, ShortenerError>)
        ensures
            link_result_view(res) == outcome(
                old(self)@,
                (Command::Create { url: url@, slug: slug@ }),
            ),
            final(self)@ == log_after(
                old(self)@,
                (Command::Create { url: url@, slug: slug@ }),
            ),
    {
        proof {
            use_type_invariant(&*self);
        }
        if !url.is_valid() {
            return Err(ShortenerError::InvalidUrl);
        }
        if self.links.contains(&slug) {
            return Err(ShortenerError::SlugAlreadyInUse);
        }
        self.record_event(Event::LinkCreated { slug: slug.clone(), url: url.clone() });
        Ok(ShortLink { slug, url })
    }

    /// Creates the link of `url` under the first of `candidates` that is not
    /// in use.
    ///
    /// This is the creation without a slug of the caller's choice, for
    /// candidates that are given: a candidate that collides with an active
    /// slug is passed over and the next one is tried. If every candidate is
    /// in use, and so too if there is none, the creation fails with
    /// `SlugAlreadyInUse` and records nothing.
    pub fn create_with_candidates(&mut self, url: Url, candidates: Vec<Slug>) -> (res: Result<
        ShortLink,
        ShortenerError,
    >)
        ensures
            link_result_view(res) == outcome_with_candidates(
                old(self)@,
                url@,
                slugs_view(candidates@),
            ),
            final(self)@ == log_with_created(
                old(self)@,
                outcome_with_candidates(old(self)@, url@, slugs_view(candidates@)),
            ),
    {
        proof {
            use_type_invariant(&*self);
        }
        if !url.is_valid() {
            return Err(ShortenerError::InvalidUrl);
        }
        proof {
            lemma_first_free_found(project(self@), slugs_view(candidates@));
        }
        match self.links.first_free(&candidates) {
            Some(i) => self.create(url, candidates[i].clone()),
            None => Err(ShortenerError::SlugAlreadyInUse),
        }
    }

    /// The events recorded so far, in the order of recording. The log of a
    /// service is always well formed.
    pub fn events(&self) -> (res: &Vec<Event>)
        ensures
            events_view(res@) == self@,
            well_formed(self@),
    {
        proof {
            use_type_invariant(self);
        }
        self.store.all()
    }

    /// The projection that the service keeps up to date: at every moment the
    /// fold of the whole log.
    pub fn projection(&self) -> (res: &Projection)
        ensures
            res@ == project(self@),
    {
        proof {
            use_type_invariant(self);
        }
        &self.links
    }

    /// Rebuilds the projection from the log alone, starting from the empty
    /// table.
    pub fn replay(&self) -> (res: Projection)
        ensures
            res@ == project(self@),
    {
        Projection::replay(self.store.all())
    }
}

impl CommandHandler for UrlShortenerService {
    /// Creates a new short link. To the contract that the trait states, this
    /// service adds what it knows of the slugs that it generates.
    ///
    /// Without a slug of the caller's choice, [`MAX_SLUG_ATTEMPTS`] random
    /// candidates of six ASCII letters and digits are drawn and the first
    /// that is not in use becomes the slug. Which slug that is cannot be
    /// said in advance. If every candidate collides, the creation gives up
    /// with `SlugAlreadyInUse`; that cannot happen unless some active slug
    /// has the shape of a generated one.
    fn handle_create_short_link(&mut self, url: Url, slug: Option<Slug>) -> (res: Result<
        ShortLink,
        ShortenerError,
    >)
        ensures
            slug is None ==> match res {
                Ok(link) => is_generated_slug(link@.slug),
                Err(_) => is_valid_url(url@) ==> exists|taken: Seq<char>|
                    is_generated_slug(taken) && #[trigger] is_active(old(self)@, taken),
            },
    {
        match slug {
            Some(chosen) => self.create(url, chosen),
            None => {
                let candidates = random_candidates(MAX_SLUG_ATTEMPTS);
                proof {
                    let slugs = slugs_view(candidates@);
                    lemma_candidate_creation_is_creation(self@, url@, slugs);
                    lemma_first_free_found(project(self@), slugs);
                    if first_free(project(self@), slugs) is None {
                        assert(is_generated_slug(candidates@[0]@));
                        assert(is_active(self@, slugs[0]));
                    } else {
                        let found = first_free(project(self@), slugs);
                        let i = choose|i: int| 0 <= i < slugs.len() && found == Some(slugs[i]);
                        assert(is_generated_slug(candidates@[i]@));
                    }
                }
                self.create_with_candidates(url, candidates)
            },
        }
    }

    /// Follows the link of `slug` and counts one redirect. The contract is
    /// the one that the trait states.
    fn handle_redirect(&mut self, slug: Slug) -> (res: Result<ShortLink, ShortenerError>) {
        proof {
            use_type_invariant(&*self);
        }
        match self.links.link(&slug) {
            Some(link) => {
                self.record_event(Event::LinkAccessed { slug });
                Ok(link)
            },
            None => Err(ShortenerError::SlugNotFound),
        }
    }

    /// Points the link of `slug` at `new_url`. The new URL has to pass the
    /// same validity predicate as the URL of a creation. The contract is the
    /// one that the trait states.
    fn handle_change_short_link(&mut self, slug: Slug, new_url: Url) -> (res: Result<
        ShortLink,
        ShortenerError,
    >) {
        proof {
            use_type_invariant(&*self);
        }
        if !self.links.contains(&slug) {
            return Err(ShortenerError::SlugNotFound);
        }
        if !new_url.is_valid() {
            return Err(ShortenerError::InvalidUrl);
        }
        self.record_event(Event::UrlChanged { slug: slug.clone(), new_url: new_url.clone() });
        Ok(ShortLink { slug, url: new_url })
    }
}

impl QueryHandler for UrlShortenerService {
    /// The statistics of `slug`, read from the projection. The contract is
    /// the one that the trait states.
    fn get_stats(&self, slug: Slug) -> (res: Result<Stats, ShortenerError>) {
        proof {
            use_type_invariant(self);
        }
        match self.links.stats(&slug) {
            Some(stats) => Ok(stats),
            None => Err(ShortenerError::SlugNotFound),
        }
    }
}

} // verus!
