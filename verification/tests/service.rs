use url_shortener::commands::CommandHandler;
use url_shortener::queries::QueryHandler;
use url_shortener::{Event, ShortLink, ShortenerError, Slug, Stats, Url, UrlShortenerService};

fn slug(text: &str) -> Slug {
    Slug(text.to_string())
}

fn url(text: &str) -> Url {
    Url(text.to_string())
}

#[test]
fn test_create_short_link() {
    let mut service = UrlShortenerService::new();
    let url = Url("https://example.com".to_string());
    let slug = Slug("example".to_string());

    let result = service.handle_create_short_link(url.clone(), Some(slug.clone()));
    assert_eq!(result, Ok(ShortLink { slug: slug.clone(), url: url.clone() }));

    let result = service.handle_create_short_link(url.clone(), Some(slug.clone()));
    assert_eq!(result, Err(ShortenerError::SlugAlreadyInUse));
}

#[test]
fn test_redirect() {
    let mut service = UrlShortenerService::new();
    let url = Url("https://example.com".to_string());
    let slug = Slug("example".to_string());

    let _ = service.handle_create_short_link(url.clone(), Some(slug.clone()));

    let result = service.handle_redirect(slug.clone());
    assert_eq!(result, Ok(ShortLink { slug: slug.clone(), url: url.clone() }));
}

#[test]
fn test_get_stats() {
    let mut service = UrlShortenerService::new();
    let url = Url("https://example.com".to_string());
    let slug = Slug("example".to_string());

    let _ = service.handle_create_short_link(url.clone(), Some(slug.clone()));
    let _ = service.handle_redirect(slug.clone());

    let result = service.get_stats(slug.clone());
    assert_eq!(
        result,
        Ok(Stats { link: ShortLink { slug: slug.clone(), url: url.clone() }, redirects: 1 })
    );
}

#[test]
fn test_redirect_with_multiple_redirects() {
    let mut service = UrlShortenerService::new();
    let url = Url("https://example.com".to_string());
    let slug = Slug("example".to_string());

    let _ = service.handle_create_short_link(url.clone(), Some(slug.clone()));
    let _ = service.handle_redirect(slug.clone());
    let _ = service.handle_redirect(slug.clone());
    let _ = service.handle_redirect(slug.clone());

    let result = service.get_stats(slug.clone());
    assert_eq!(
        result,
        Ok(Stats { link: ShortLink { slug: slug.clone(), url: url.clone() }, redirects: 3 })
    );
}

#[test]
fn new_service_has_an_empty_log() {
    let service = UrlShortenerService::new();
    assert_eq!(service.events().len(), 0);
    assert_eq!(service.get_stats(slug("any")), Err(ShortenerError::SlugNotFound));
}

#[test]
fn create_then_create_again_is_rejected() {
    let mut service = UrlShortenerService::new();
    assert_eq!(
        service.handle_create_short_link(url("https://a.example"), Some(slug("abc"))),
        Ok(ShortLink { slug: slug("abc"), url: url("https://a.example") })
    );
    assert_eq!(
        service.handle_create_short_link(url("https://b.example"), Some(slug("abc"))),
        Err(ShortenerError::SlugAlreadyInUse)
    );
    assert_eq!(service.events().len(), 1);
    assert_eq!(
        service.get_stats(slug("abc")),
        Ok(Stats {
            link: ShortLink { slug: slug("abc"), url: url("https://a.example") },
            redirects: 0
        })
    );
}

#[test]
fn missing_slug_is_not_found_everywhere() {
    let mut service = UrlShortenerService::new();
    assert_eq!(service.handle_redirect(slug("missing")), Err(ShortenerError::SlugNotFound));
    assert_eq!(service.get_stats(slug("missing")), Err(ShortenerError::SlugNotFound));
    assert_eq!(
        service.handle_change_short_link(slug("missing"), url("https://example.com")),
        Err(ShortenerError::SlugNotFound)
    );
    assert_eq!(
        service.handle_change_short_link(slug("missing"), url("")),
        Err(ShortenerError::SlugNotFound)
    );
    assert_eq!(service.events().len(), 0);
}

#[test]
fn three_redirects_are_counted() {
    let mut service = UrlShortenerService::new();
    assert!(service
        .handle_create_short_link(url("https://example.com"), Some(slug("short")))
        .is_ok());
    for _ in 0..3 {
        assert_eq!(
            service.handle_redirect(slug("short")),
            Ok(ShortLink { slug: slug("short"), url: url("https://example.com") })
        );
    }
    assert_eq!(
        service.get_stats(slug("short")),
        Ok(Stats {
            link: ShortLink { slug: slug("short"), url: url("https://example.com") },
            redirects: 3
        })
    );
    assert_eq!(service.events().len(), 4);
}

#[test]
fn empty_url_is_rejected_and_nothing_is_recorded() {
    let mut service = UrlShortenerService::new();
    assert_eq!(service.handle_create_short_link(url(""), None), Err(ShortenerError::InvalidUrl));
    assert_eq!(service.events().len(), 0);
    assert_eq!(
        service.handle_create_short_link(url(""), Some(slug("abc"))),
        Err(ShortenerError::InvalidUrl)
    );
    assert_eq!(
        service.handle_create_short_link(url("ftp://example.com"), Some(slug("abc"))),
        Err(ShortenerError::InvalidUrl)
    );
    assert_eq!(
        service.handle_create_short_link(url("htt"), Some(slug("abc"))),
        Err(ShortenerError::InvalidUrl)
    );
    assert_eq!(service.events().len(), 0);
    assert_eq!(service.get_stats(slug("abc")), Err(ShortenerError::SlugNotFound));
}

#[test]
fn invalid_url_wins_over_slug_in_use() {
    let mut service = UrlShortenerService::new();
    assert!(service.handle_create_short_link(url("http://a"), Some(slug("abc"))).is_ok());
    assert_eq!(
        service.handle_create_short_link(url("nope"), Some(slug("abc"))),
        Err(ShortenerError::InvalidUrl)
    );
}

#[test]
fn colliding_candidate_is_passed_over() {
    let mut service = UrlShortenerService::new();
    let first = service.create_with_candidates(url("https://one.example"), vec![slug("aaaaaa")]);
    assert_eq!(first, Ok(ShortLink { slug: slug("aaaaaa"), url: url("https://one.example") }));
    let second = service.create_with_candidates(
        url("https://two.example"),
        vec![slug("aaaaaa"), slug("aaaaaa"), slug("bbbbbb"), slug("cccccc")],
    );
    assert_eq!(second, Ok(ShortLink { slug: slug("bbbbbb"), url: url("https://two.example") }));
    assert_eq!(service.events().len(), 2);
    assert_eq!(
        service.get_stats(slug("aaaaaa")).map(|stats| stats.link.url),
        Ok(url("https://one.example"))
    );
    assert_eq!(
        service.get_stats(slug("bbbbbb")).map(|stats| stats.link.url),
        Ok(url("https://two.example"))
    );
    assert_eq!(service.get_stats(slug("cccccc")), Err(ShortenerError::SlugNotFound));
}

#[test]
fn candidates_that_are_all_taken_give_slug_in_use() {
    let mut service = UrlShortenerService::new();
    assert!(service.handle_create_short_link(url("http://a"), Some(slug("one"))).is_ok());
    assert!(service.handle_create_short_link(url("http://b"), Some(slug("two"))).is_ok());
    assert_eq!(
        service.create_with_candidates(url("http://c"), vec![slug("two"), slug("one")]),
        Err(ShortenerError::SlugAlreadyInUse)
    );
    assert_eq!(
        service.create_with_candidates(url("http://c"), vec![]),
        Err(ShortenerError::SlugAlreadyInUse)
    );
    assert_eq!(
        service.create_with_candidates(url("c"), vec![slug("free")]),
        Err(ShortenerError::InvalidUrl)
    );
    assert_eq!(service.events().len(), 2);
}

#[test]
fn generated_slugs_are_six_letters_or_digits_and_distinct() {
    let mut service = UrlShortenerService::new();
    let first = service.handle_create_short_link(url("https://one.example"), None).unwrap();
    let second = service.handle_create_short_link(url("https://two.example"), None).unwrap();
    for link in [&first, &second] {
        assert_eq!(link.slug.0.chars().count(), 6);
        assert!(link.slug.0.chars().all(|c| c.is_ascii_alphanumeric()));
    }
    assert_ne!(first.slug, second.slug);
    assert_eq!(first.url, url("https://one.example"));
    assert_eq!(second.url, url("https://two.example"));
    assert_eq!(service.events().len(), 2);
    assert_eq!(
        service.handle_redirect(first.slug.clone()),
        Ok(ShortLink { slug: first.slug.clone(), url: url("https://one.example") })
    );
}

#[test]
fn change_moves_the_link_and_keeps_the_count() {
    let mut service = UrlShortenerService::new();
    assert!(service.handle_create_short_link(url("https://old.example"), Some(slug("s"))).is_ok());
    assert!(service.handle_redirect(slug("s")).is_ok());
    assert!(service.handle_redirect(slug("s")).is_ok());
    assert_eq!(
        service.handle_change_short_link(slug("s"), url("https://new.example")),
        Ok(ShortLink { slug: slug("s"), url: url("https://new.example") })
    );
    assert_eq!(
        service.get_stats(slug("s")),
        Ok(Stats {
            link: ShortLink { slug: slug("s"), url: url("https://new.example") },
            redirects: 2
        })
    );
    assert_eq!(
        service.handle_redirect(slug("s")),
        Ok(ShortLink { slug: slug("s"), url: url("https://new.example") })
    );
    assert_eq!(service.get_stats(slug("s")).map(|stats| stats.redirects), Ok(3));
}

#[test]
fn change_to_an_invalid_url_is_rejected() {
    let mut service = UrlShortenerService::new();
    assert!(service.handle_create_short_link(url("https://old.example"), Some(slug("s"))).is_ok());
    assert_eq!(
        service.handle_change_short_link(slug("s"), url("gopher://x")),
        Err(ShortenerError::InvalidUrl)
    );
    assert_eq!(service.events().len(), 1);
    assert_eq!(
        service.handle_redirect(slug("s")),
        Ok(ShortLink { slug: slug("s"), url: url("https://old.example") })
    );
}

#[test]
fn redirects_of_one_slug_leave_the_others_alone() {
    let mut service = UrlShortenerService::new();
    assert!(service.handle_create_short_link(url("http://a"), Some(slug("a"))).is_ok());
    assert!(service.handle_create_short_link(url("http://b"), Some(slug("b"))).is_ok());
    let mut last = 0;
    for round in 1..=5u64 {
        assert!(service.handle_redirect(slug("a")).is_ok());
        let now = service.get_stats(slug("a")).unwrap().redirects;
        assert_eq!(now, last + 1);
        assert_eq!(now, round);
        last = now;
        assert_eq!(service.get_stats(slug("b")).unwrap().redirects, 0);
    }
}

#[test]
fn failed_commands_record_nothing() {
    let mut service = UrlShortenerService::new();
    assert!(service.handle_create_short_link(url("http://a"), Some(slug("a"))).is_ok());
    let before = service.events().clone();
    assert!(service.handle_create_short_link(url("http://b"), Some(slug("a"))).is_err());
    assert!(service.handle_create_short_link(url("x"), Some(slug("b"))).is_err());
    assert!(service.handle_redirect(slug("b")).is_err());
    assert!(service.handle_change_short_link(slug("b"), url("http://b")).is_err());
    assert!(service.get_stats(slug("b")).is_err());
    assert_eq!(service.events(), &before);
}

#[test]
fn the_log_holds_one_event_per_successful_command() {
    let mut service = UrlShortenerService::new();
    assert!(service.handle_create_short_link(url("http://a"), Some(slug("a"))).is_ok());
    assert!(service.handle_redirect(slug("a")).is_ok());
    assert!(service.handle_change_short_link(slug("a"), url("http://b")).is_ok());
    assert_eq!(
        service.events(),
        &vec![
            Event::LinkCreated { slug: slug("a"), url: url("http://a") },
            Event::LinkAccessed { slug: slug("a") },
            Event::UrlChanged { slug: slug("a"), new_url: url("http://b") },
        ]
    );
}

#[test]
fn replay_of_the_log_agrees_with_the_kept_projection() {
    let mut service = UrlShortenerService::new();
    assert!(service.handle_create_short_link(url("http://a"), Some(slug("a"))).is_ok());
    assert!(service.handle_create_short_link(url("http://b"), Some(slug("b"))).is_ok());
    assert!(service.handle_redirect(slug("a")).is_ok());
    assert!(service.handle_change_short_link(slug("b"), url("http://c")).is_ok());
    assert!(service.handle_redirect(slug("b")).is_ok());
    assert!(service.handle_redirect(slug("b")).is_ok());
    let replayed = service.replay();
    let again = service.replay();
    for name in ["a", "b", "c"] {
        assert_eq!(replayed.stats(&slug(name)), service.projection().stats(&slug(name)));
        assert_eq!(replayed.link(&slug(name)), service.projection().link(&slug(name)));
        assert_eq!(replayed.stats(&slug(name)), again.stats(&slug(name)));
        assert_eq!(replayed.contains(&slug(name)), service.projection().contains(&slug(name)));
    }
    assert_eq!(
        replayed.stats(&slug("b")),
        Some(Stats { link: ShortLink { slug: slug("b"), url: url("http://c") }, redirects: 2 })
    );
}
