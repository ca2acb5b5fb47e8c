//! The write side: what each command answers and what it records.
//!
//! A command is decided against the log as it stands. When it succeeds it
//! records exactly one event; when it fails it records none.

use vstd::prelude::*;
use crate::history::{is_active, well_formed, lemma_well_formed_push};
use crate::model::{
    EventView, ShortLink, ShortLinkView, ShortenerError, Slug, Url, is_valid_url, link_result_view,
};
use crate::projection::{first_free, project, lemma_first_free_found};

verus! {

/// A command, by the views of its arguments. A creation names its slug: for
/// a generated slug, the one that was chosen.
pub enum Command {
    Create { url: Seq<char>, slug: Seq<char> },
    Redirect { slug: Seq<char> },
    ChangeUrl { slug: Seq<char>, new_url: Seq<char> },
}

/// What `command` answers after `log`.
///
/// - A creation fails with `InvalidUrl` if the URL is not valid, else with
///   `SlugAlreadyInUse` if the slug is active, else it answers the new link.
/// - A redirect fails with `SlugNotFound` if the slug is not active, else it
///   answers the link as it stands.
/// - A change of URL fails with `SlugNotFound` if the slug is not active,
///   else with `InvalidUrl` if the new URL is not valid, else it answers the
///   link with its new URL.
pub open spec fn outcome(log: Seq<EventView>, command: Command) -> Result<
    ShortLinkView,
    ShortenerError,
> {
    match command {
        Command::Create { url, slug } => if !is_valid_url(url) {
            Err(ShortenerError::InvalidUrl)
        } else if is_active(log, slug) {
            Err(ShortenerError::SlugAlreadyInUse)
        } else {
            Ok(ShortLinkView { slug, url })
        },
        Command::Redirect { slug } => if !is_active(log, slug) {
            Err(ShortenerError::SlugNotFound)
        } else {
            Ok(ShortLinkView { slug, url: project(log)[slug].url })
        },
        Command::ChangeUrl { slug, new_url } => if !is_active(log, slug) {
            Err(ShortenerError::SlugNotFound)
        } else if !is_valid_url(new_url) {
            Err(ShortenerError::InvalidUrl)
        } else {
            Ok(ShortLinkView { slug, url: new_url })
        },
    }
}

/// The event that `command` records when it succeeds.
pub open spec fn event_of(command: Command) -> EventView {
    match command {
        Command::Create { url, slug } => EventView::LinkCreated { slug, url },
        Command::Redirect { slug } => EventView::LinkAccessed { slug },
        Command::ChangeUrl { slug, new_url } => EventView::UrlChanged { slug, new_url },
    }
}

/// The log after `command`: one event longer if the command succeeds, the
/// same if it fails.
pub open spec fn log_after(log: Seq<EventView>, command: Command) -> Seq<EventView> {
    if outcome(log, command) is Ok {
        log.push(event_of(command))
    } else {
        log
    }
}

/// The log after a run of commands, handled in order after `log`.
pub open spec fn run(log: Seq<EventView>, commands: Seq<Command>) -> Seq<EventView>
    decreases commands.len(),
{
    if commands.len() == 0 {
        log
    } else {
        log_after(run(log, commands.drop_last()), commands.last())
    }
}

/// What a creation answers that takes its slug from `candidates`: it fails
/// with `InvalidUrl` if the URL is not valid, else it creates the link under
/// the first candidate that is not active, and fails with `SlugAlreadyInUse`
/// if every candidate is active.
pub open spec fn outcome_with_candidates(
    log: Seq<EventView>,
    url: Seq<char>,
    candidates: Seq<Seq<char>>,
) -> Result<ShortLinkView, ShortenerError> {
    if !is_valid_url(url) {
        Err(ShortenerError::InvalidUrl)
    } else {
        match first_free(project(log), candidates) {
            Some(slug) => Ok(ShortLinkView { slug, url }),
            None => Err(ShortenerError::SlugAlreadyInUse),
        }
    }
}

/// The log after an answer to a creation: the created link is recorded, a
/// failure is not.
pub open spec fn log_with_created(
    log: Seq<EventView>,
    answer: Result<ShortLinkView, ShortenerError>,
) -> Seq<EventView> {
    match answer {
        Ok(link) => log.push(EventView::LinkCreated { slug: link.slug, url: link.url }),
        Err(_) => log,
    }
}

/// A creation from candidates that succeeds is the creation command under
/// the slug that it chose: it answers and records what that command does.
pub proof fn lemma_candidate_creation_is_creation(
    log: Seq<EventView>,
    url: Seq<char>,
    candidates: Seq<Seq<char>>,
)
    ensures
        match outcome_with_candidates(log, url, candidates) {
            Ok(link) => {
                let create = Command::Create { url, slug: link.slug };
                &&& outcome(log, create) == Ok::<ShortLinkView, ShortenerError>(link)
                &&& log_with_created(log, Ok(link)) == log_after(log, create)
            },
            Err(error) => {
                &&& log_with_created(log, Err(error)) == log
                &&& error == ShortenerError::SlugAlreadyInUse ==> forall|i: int|
                    0 <= i < candidates.len() ==> is_active(log, #[trigger] candidates[i])
            },
        },
{
    lemma_first_free_found(project(log), candidates);
}

/// A command keeps a well-formed log well formed.
pub proof fn lemma_command_keeps_well_formed(log: Seq<EventView>, command: Command)
    requires
        well_formed(log),
    ensures
        well_formed(log_after(log, command)),
{
    if outcome(log, command) is Ok {
        lemma_well_formed_push(log, event_of(command));
    }
}

/// Trait for command handlers.
///
/// The view of a handler is its event log. A command is decided against
/// that log, and the log after it is [`log_after`] of the command.
pub trait CommandHandler: View<V = Seq<EventView>> {
    /// Creates a new short link. It accepts the long url and an
    /// optional [`Slug`]. If a [`Slug`] is not provided, the service will
    /// generate one. Returns the newly created [`ShortLink`].
    ///
    /// With a slug of the caller's choice the answer is that of the
    /// creation command. Without one the handler chooses the slug: if it
    /// answers a link, the link was created as if the caller had chosen its
    /// slug, and if it fails, nothing was recorded and the error is
    /// `InvalidUrl` for a URL that is not valid and `SlugAlreadyInUse`
    /// otherwise.
    ///
    /// ## Errors
    ///
    /// See [`ShortenerError`].
    fn handle_create_short_link(&mut self, url: Url, slug: Option<Slug>) -> (res: Result<
        ShortLink,
        ShortenerError,
    >)
        ensures
            match slug {
                Some(chosen) => {
                    &&& link_result_view(res) == outcome(
                        old(self)@,
                        (Command::Create { url: url@, slug: chosen@ }),
                    )
                    &&& final(self)@ == log_after(
                        old(self)@,
                        (Command::Create { url: url@, slug: chosen@ }),
                    )
                },
                None => match res {
                    Ok(link) => {
                        &&& outcome(old(self)@, (Command::Create { url: url@, slug: link@.slug }))
                            == Ok::<ShortLinkView, ShortenerError>(link@)
                        &&& final(self)@ == log_after(
                            old(self)@,
                            (Command::Create { url: url@, slug: link@.slug }),
                        )
                    },
                    Err(error) => {
                        &&& final(self)@ == old(self)@
                        &&& error == if is_valid_url(url@) {
                            ShortenerError::SlugAlreadyInUse
                        } else {
                            ShortenerError::InvalidUrl
                        }
                    },
                },
            },
    ;

    /// Processes a redirection by [`Slug`], returning the associated
    /// [`ShortLink`] or a [`ShortenerError`]: the link as it stands, with
    /// one access recorded, or `SlugNotFound` with nothing recorded.
    fn handle_redirect(&mut self, slug: Slug) -> (res: Result<ShortLink, ShortenerError>)
        ensures
            link_result_view(res) == outcome(old(self)@, (Command::Redirect { slug: slug@ })),
            final(self)@ == log_after(old(self)@, (Command::Redirect { slug: slug@ })),
    ;

    /// Points the link of [`Slug`] at another [`Url`], returning the
    /// updated [`ShortLink`] or a [`ShortenerError`]: `SlugNotFound` if the
    /// slug is not active, `InvalidUrl` if the slug is active and the new
    /// URL is not valid. A failure records nothing.
    fn handle_change_short_link(&mut self, slug: Slug, new_url: Url) -> (res: Result<
        ShortLink,
        ShortenerError,
    >)
        ensures
            link_result_view(res) == outcome(
                old(self)@,
                (Command::ChangeUrl { slug: slug@, new_url: new_url@ }),
            ),
            final(self)@ == log_after(
                old(self)@,
                (Command::ChangeUrl { slug: slug@, new_url: new_url@ }),
            ),
    ;
}

} // verus!
