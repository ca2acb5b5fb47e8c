//! What the registry guarantees, whatever commands it is given.
//!
//! Each statement here is about the spec functions that the contracts of the
//! commands and queries are written in: [`outcome`] and [`log_after`] for a
//! command, [`run`] for a series of them, [`stats_outcome`] for a query and
//! [`project`] for the replay of a log.

use vstd::prelude::*;
use crate::commands::{Command, event_of, log_after, outcome, run, lemma_command_keeps_well_formed};
use crate::history::{
    is_active, unique_creations, well_formed, lemma_apply_keeps_active, lemma_well_formed_unique,
};
use crate::model::{EventView, ShortLinkView, ShortenerError, StatsView, is_valid_url};
use crate::projection::{Projection, link_of, project, stats_of, lemma_fold_push};
use crate::queries::{redirects_of, stats_outcome};

verus! {

/// A series of commands keeps a well-formed log well formed.
pub proof fn lemma_run_keeps_well_formed(log: Seq<EventView>, commands: Seq<Command>)
    requires
        well_formed(log),
    ensures
        well_formed(run(log, commands)),
    decreases commands.len(),
{
    if commands.len() > 0 {
        lemma_run_keeps_well_formed(log, commands.drop_last());
        lemma_command_keeps_well_formed(run(log, commands.drop_last()), commands.last());
    }
}

/// Uniqueness: whatever commands are handled, starting from the empty log,
/// the log never holds two creations of one slug.
pub proof fn lemma_creations_stay_unique(commands: Seq<Command>)
    ensures
        well_formed(run(Seq::empty(), commands)),
        unique_creations(run(Seq::empty(), commands)),
{
    lemma_run_keeps_well_formed(Seq::empty(), commands);
    lemma_well_formed_unique(run(Seq::empty(), commands));
}

/// A link is never retired: a slug that is active stays active whatever
/// commands follow.
pub proof fn lemma_active_links_stay_active(
    log: Seq<EventView>,
    commands: Seq<Command>,
    slug: Seq<char>,
)
    requires
        is_active(log, slug),
    ensures
        is_active(run(log, commands), slug),
    decreases commands.len(),
{
    if commands.len() > 0 {
        let before = run(log, commands.drop_last());
        lemma_active_links_stay_active(log, commands.drop_last(), slug);
        if outcome(before, commands.last()) is Ok {
            lemma_fold_push(Map::empty(), before, event_of(commands.last()));
            lemma_apply_keeps_active(project(before), event_of(commands.last()), slug);
        }
    }
}

/// Of two creations under one slug, handled one after the other, at most
/// one succeeds. If the first succeeds, the second fails, with
/// `SlugAlreadyInUse` if its URL is valid; and if the slug is free and both
/// URLs are valid, it is the first that succeeds.
pub proof fn lemma_one_creation_per_slug(
    log: Seq<EventView>,
    slug: Seq<char>,
    first_url: Seq<char>,
    second_url: Seq<char>,
)
    ensures
        ({
            let first = Command::Create { url: first_url, slug };
            let second = Command::Create { url: second_url, slug };
            let between = log_after(log, first);
            &&& !(outcome(log, first) is Ok && outcome(between, second) is Ok)
            &&& outcome(log, first) is Ok && is_valid_url(second_url) ==> outcome(between, second)
                == Err::<ShortLinkView, ShortenerError>(ShortenerError::SlugAlreadyInUse)
            &&& !is_active(log, slug) && is_valid_url(first_url) ==> outcome(log, first)
                == Ok::<ShortLinkView, ShortenerError>(ShortLinkView { slug, url: first_url })
        }),
{
    let first = Command::Create { url: first_url, slug };
    if outcome(log, first) is Ok {
        lemma_fold_push(Map::empty(), log, event_of(first));
    }
}

/// Determinism: two replays of one log give the same table, and so the same
/// answer to every lookup.
pub proof fn lemma_replay_is_deterministic(log: Seq<EventView>, once: Projection, again: Projection)
    requires
        once@ == project(log),
        again@ == project(log),
    ensures
        once@ == again@,
        forall|slug: Seq<char>| link_of(once@, slug) == link_of(again@, slug),
        forall|slug: Seq<char>| stats_of(once@, slug) == stats_of(again@, slug),
{
}

/// What a command does to the statistics of a slug: a redirect of that slug
/// that succeeds adds one to its count and leaves its link; a change of its
/// URL that succeeds moves its link and leaves its count; any other command,
/// and any that fails, leaves the statistics of an active slug as they
/// were.
pub proof fn lemma_command_effect_on_stats(log: Seq<EventView>, command: Command, slug: Seq<char>)
    requires
        is_active(log, slug),
    ensures
        ({
            let before = project(log)[slug];
            let succeeds = outcome(log, command) is Ok;
            stats_outcome(log_after(log, command), slug) == Ok::<StatsView, ShortenerError>(
                if succeeds && command == (Command::Redirect { slug }) {
                    StatsView {
                        link: ShortLinkView { slug, url: before.url },
                        redirects: before.redirects + 1,
                    }
                } else if succeeds && command is ChangeUrl && command->ChangeUrl_slug == slug {
                    StatsView {
                        link: ShortLinkView { slug, url: command->new_url },
                        redirects: before.redirects,
                    }
                } else {
                    StatsView {
                        link: ShortLinkView { slug, url: before.url },
                        redirects: before.redirects,
                    }
                },
            )
        }),
{
    if outcome(log, command) is Ok {
        lemma_fold_push(Map::empty(), log, event_of(command));
    }
}

/// Monotonicity, step by step: a redirect that succeeds adds exactly one to
/// the count of its slug, and leaves the count of every other slug.
pub proof fn lemma_redirect_counts_once(log: Seq<EventView>, slug: Seq<char>, other: Seq<char>)
    requires
        outcome(log, (Command::Redirect { slug })) is Ok,
    ensures
        ({
            let after = log_after(log, (Command::Redirect { slug }));
            &&& redirects_of(after, slug) == redirects_of(log, slug) + 1
            &&& other != slug ==> redirects_of(after, other) == redirects_of(log, other)
        }),
{
    lemma_fold_push(Map::empty(), log, event_of(Command::Redirect { slug }));
}

/// Monotonicity, one command: no command lowers a count of redirects, and
/// only a redirect of the slug that succeeds raises it.
pub proof fn lemma_count_changes_by_redirect_only(
    log: Seq<EventView>,
    command: Command,
    slug: Seq<char>,
)
    ensures
        redirects_of(log_after(log, command), slug) == redirects_of(log, slug) + if outcome(
            log,
            command,
        ) is Ok && command == (Command::Redirect { slug }) {
            1nat
        } else {
            0nat
        },
{
    if outcome(log, command) is Ok {
        lemma_fold_push(Map::empty(), log, event_of(command));
    }
}

/// Monotonicity, over time: after any series of commands the count of
/// redirects of a slug is at least what it was.
pub proof fn lemma_redirects_never_decrease(
    log: Seq<EventView>,
    commands: Seq<Command>,
    slug: Seq<char>,
)
    ensures
        redirects_of(run(log, commands), slug) >= redirects_of(log, slug),
    decreases commands.len(),
{
    if commands.len() > 0 {
        lemma_redirects_never_decrease(log, commands.drop_last(), slug);
        lemma_count_changes_by_redirect_only(run(log, commands.drop_last()), commands.last(), slug);
    }
}

/// Independence: a change of URL alters no count of redirects. If it
/// succeeds, the link of its slug points to the new URL afterwards, and
/// every other link is as it was.
pub proof fn lemma_change_keeps_redirects(
    log: Seq<EventView>,
    slug: Seq<char>,
    new_url: Seq<char>,
    other: Seq<char>,
)
    ensures
        ({
            let change = Command::ChangeUrl { slug, new_url };
            let after = log_after(log, change);
            &&& redirects_of(after, other) == redirects_of(log, other)
            &&& is_active(after, other) == is_active(log, other)
            &&& other != slug ==> link_of(project(after), other) == link_of(project(log), other)
            &&& outcome(log, change) is Ok ==> link_of(project(after), slug) == Some(
                ShortLinkView { slug, url: new_url },
            )
            &&& !(outcome(log, change) is Ok) ==> after == log
        }),
{
    let change = Command::ChangeUrl { slug, new_url };
    if outcome(log, change) is Ok {
        lemma_fold_push(Map::empty(), log, event_of(change));
    }
}

/// A command that fails records nothing, and one that succeeds records
/// exactly one event.
pub proof fn lemma_one_event_per_success(log: Seq<EventView>, command: Command)
    ensures
        outcome(log, command) is Err ==> log_after(log, command) == log,
        outcome(log, command) is Ok ==> log_after(log, command).len() == log.len() + 1
            && log_after(log, command).drop_last() == log,
{
    if outcome(log, command) is Ok {
        assert(log.push(event_of(command)).drop_last() =~= log);
    }
}

/// What a redirect answers is the link that the statistics show.
pub proof fn lemma_redirect_answers_current_link(log: Seq<EventView>, slug: Seq<char>)
    ensures
        match outcome(log, (Command::Redirect { slug })) {
            Ok(link) => {
                &&& stats_outcome(log, slug) is Ok
                &&& stats_outcome(log, slug)->Ok_0.link == link
            },
            Err(error) => {
                &&& error == ShortenerError::SlugNotFound
                &&& stats_outcome(log, slug) == Err::<StatsView, ShortenerError>(error)
            },
        },
{
}

} // verus!
