use catalog_resolver::captions::embed;
use catalog_resolver::catalog::{MediaItem, MediaKind, SearchResult};
use catalog_resolver::episode::Ep;
use catalog_resolver::error::ResolveError;
use catalog_resolver::images::{ImageBundle, ImageVariant};
use catalog_resolver::pipeline::{
    advance, begin, epOrSeries, pending_name, Action, Fetch, Outcome, Reply, Request, Resolution,
};
use catalog_resolver::session::ViewerContext;
use catalog_resolver::streams::{PlayResult, Qos, StreamSet, Strems, Sub};

fn logged_out() -> ViewerContext<u8> {
    ViewerContext::new()
}

fn logged_in() -> ViewerContext<u8> {
    let mut context = ViewerContext::new();
    assert!(context.login_anonymous(Ok(1)).is_ok());
    context
}

fn object(kind: MediaKind, id: &str, number: u32) -> MediaItem {
    MediaItem {
        kind,
        id: id.to_string(),
        title: format!("t-{}", id),
        description: format!("d-{}", id),
        images: None,
        episode_number: number,
    }
}

fn summary(id: &str, img: &str) -> SearchResult {
    SearchResult {
        name: format!("t-{}", id),
        id: id.to_string(),
        desc: format!("d-{}", id),
        img: Some(img.to_string()),
    }
}

fn announced(locale: &str, url: &str) -> (String, Sub) {
    (
        locale.to_string(),
        Sub { locale: locale.to_string(), url: url.to_string(), format: "ass".to_string() },
    )
}

fn stream_set(subs: Vec<(String, Sub)>, ccs: Vec<(String, Sub)>, locale: &str) -> StreamSet {
    StreamSet {
        play: PlayResult {
            audio_locale: "ja-JP".to_string(),
            subtitles: subs,
            streams: vec![(
                locale.to_string(),
                vec![(
                    "adaptive_hls".to_string(),
                    Strems {
                        hardsub_locale: String::new(),
                        url: "https://playlist".to_string(),
                        vcodec: String::new(),
                    },
                )],
            )],
            QoS: Qos::default(),
        },
        closed_captions: ccs,
    }
}

fn not_authenticated() -> (Resolution, Action) {
    (Resolution::Closed, Action::Abort(ResolveError::NotAuthenticated))
}

fn episode_request(id: &str) -> Request {
    Request::Episode { ep_id: id.to_string(), locale: String::new() }
}

fn to_streams(numbers: &[u32], subject: u32) -> Resolution {
    let (state, action) = begin(&logged_in(), episode_request("ep"));
    assert_eq!(action, Action::Fetch(Fetch::Object("ep".to_string())));
    let (state, action) = advance(state, Reply::Object(object(MediaKind::Episode, "ep", subject)));
    assert_eq!(action, Action::Fetch(Fetch::SeasonOf("ep".to_string())));
    let (state, action) = advance(state, Reply::Object(object(MediaKind::Season, "season", 0)));
    assert_eq!(action, Action::Fetch(Fetch::EpisodesOf("season".to_string())));
    let mut siblings = Vec::new();
    for (i, n) in numbers.iter().enumerate() {
        siblings.push(object(MediaKind::Episode, &format!("e{}", i), *n));
    }
    let (state, action) = advance(state, Reply::Items(siblings));
    assert_eq!(action, Action::Fetch(Fetch::StreamsOf("ep".to_string())));
    state
}

#[test]
fn search_without_session_is_not_authenticated() {
    assert_eq!(begin(&logged_out(), Request::Search("q".to_string())), not_authenticated());
}

#[test]
fn recommendations_without_session_is_not_authenticated() {
    assert_eq!(begin(&logged_out(), Request::Recommendations), not_authenticated());
}

#[test]
fn resolve_seasons_without_session_is_not_authenticated() {
    assert_eq!(begin(&logged_out(), Request::Seasons("s".to_string())), not_authenticated());
}

#[test]
fn resolve_children_without_session_is_not_authenticated() {
    let selector = epOrSeries { series_id: Some("s".to_string()), ep_id: None };
    assert_eq!(begin(&logged_out(), Request::Children(selector)), not_authenticated());
}

#[test]
fn resolve_episode_without_session_is_not_authenticated() {
    assert_eq!(begin(&logged_out(), episode_request("e")), not_authenticated());
}

#[test]
fn search_queries_then_summarises_series() {
    let (state, action) = begin(&logged_in(), Request::Search("naruto".to_string()));
    assert_eq!(state, Resolution::AwaitItems);
    assert_eq!(action, Action::Fetch(Fetch::Query("naruto".to_string())));
    let items = vec![object(MediaKind::Series, "a", 0), object(MediaKind::Movie, "m", 0)];
    let (state, action) = advance(state, Reply::Items(items));
    assert_eq!(state, Resolution::Closed);
    assert_eq!(action, Action::Finish(Outcome::Summaries(vec![summary("a", "")])));
}

#[test]
fn recommendations_fetch_feed_and_keep_series_only() {
    let (state, action) = begin(&logged_in(), Request::Recommendations);
    assert_eq!(action, Action::Fetch(Fetch::Feed));
    let feed = vec![
        object(MediaKind::Episode, "e", 1),
        object(MediaKind::Series, "a", 0),
        object(MediaKind::MovieListing, "l", 0),
        object(MediaKind::Series, "b", 0),
    ];
    let (_, action) = advance(state, Reply::Items(feed));
    assert_eq!(
        action,
        Action::Finish(Outcome::Summaries(vec![summary("a", ""), summary("b", "")]))
    );
}

#[test]
fn seasons_load_series_then_list_seasons() {
    let (state, action) = begin(&logged_in(), Request::Seasons("sid".to_string()));
    assert_eq!(action, Action::Fetch(Fetch::Object("sid".to_string())));
    let mut series = object(MediaKind::Series, "sid", 0);
    series.images = Some(ImageBundle {
        thumbnail: None,
        poster_wide: None,
        promo_image: None,
        poster_tall: Some(vec![vec![
            ImageVariant { source: "small".to_string(), height: 1, width: 1 },
            ImageVariant { source: "large".to_string(), height: 2, width: 2 },
        ]]),
    });
    let (state, action) = advance(state, Reply::Object(series));
    assert_eq!(action, Action::Fetch(Fetch::SeasonsOf("sid".to_string())));
    let seasons = vec![object(MediaKind::Season, "s1", 0), object(MediaKind::Season, "s2", 0)];
    let (state, action) = advance(state, Reply::Items(seasons));
    assert_eq!(state, Resolution::Closed);
    assert_eq!(
        action,
        Action::Finish(Outcome::Summaries(vec![summary("s1", "large"), summary("s2", "large")]))
    );
}

#[test]
fn seasons_of_something_that_is_no_series_is_not_found() {
    let (state, _) = begin(&logged_in(), Request::Seasons("x".to_string()));
    let (state, action) = advance(state, Reply::Object(object(MediaKind::Movie, "x", 0)));
    assert_eq!(state, Resolution::Closed);
    assert_eq!(action, Action::Abort(ResolveError::NotFound));
}

#[test]
fn children_prefer_the_series_identifier() {
    let selector = epOrSeries { series_id: Some("s".to_string()), ep_id: Some("".to_string()) };
    let (state, action) = begin(&logged_in(), Request::Children(selector));
    assert_eq!(state, Resolution::AwaitParent);
    assert_eq!(action, Action::Fetch(Fetch::Object("s".to_string())));
}

#[test]
fn children_fall_back_to_the_episode_identifier() {
    let selector = epOrSeries { series_id: None, ep_id: Some("e".to_string()) };
    let (_, action) = begin(&logged_in(), Request::Children(selector));
    assert_eq!(action, Action::Fetch(Fetch::Object("e".to_string())));
}

#[test]
fn children_without_any_identifier_is_not_found() {
    let (state, action) = begin(&logged_in(), Request::Children(epOrSeries::default()));
    assert_eq!(state, Resolution::Closed);
    assert_eq!(action, Action::Abort(ResolveError::NotFound));
}

#[test]
fn children_of_a_season_are_its_episodes() {
    let (state, action) =
        advance(Resolution::AwaitParent, Reply::Object(object(MediaKind::Season, "sn", 0)));
    assert_eq!(state, Resolution::AwaitChildren);
    assert_eq!(action, Action::Fetch(Fetch::EpisodesOf("sn".to_string())));
    let episodes = vec![object(MediaKind::Episode, "e1", 1), object(MediaKind::Episode, "e2", 2)];
    let (state, action) = advance(state, Reply::Items(episodes));
    assert_eq!(state, Resolution::Closed);
    assert_eq!(
        action,
        Action::Finish(Outcome::Summaries(vec![summary("e1", ""), summary("e2", "")]))
    );
}

#[test]
fn children_of_a_season_fail_on_malformed_images() {
    let mut broken = object(MediaKind::Episode, "e2", 2);
    broken.images = Some(ImageBundle {
        thumbnail: None,
        poster_wide: None,
        promo_image: None,
        poster_tall: None,
    });
    let episodes = vec![object(MediaKind::Episode, "e1", 1), broken];
    let (state, action) = advance(Resolution::AwaitChildren, Reply::Items(episodes));
    assert_eq!(state, Resolution::Closed);
    assert_eq!(action, Action::Abort(ResolveError::MalformedCatalogData("e2".to_string())));
}

#[test]
fn children_of_an_episode_is_the_episode_itself() {
    let (state, action) =
        advance(Resolution::AwaitParent, Reply::Object(object(MediaKind::Episode, "e", 3)));
    assert_eq!(state, Resolution::Closed);
    assert_eq!(action, Action::Finish(Outcome::Summaries(vec![summary("e", "")])));
}

#[test]
fn children_of_other_kinds_are_empty() {
    for kind in [MediaKind::Series, MediaKind::MovieListing, MediaKind::Movie] {
        let (state, action) = advance(Resolution::AwaitParent, Reply::Object(object(kind, "x", 0)));
        assert_eq!(state, Resolution::Closed);
        assert_eq!(action, Action::Finish(Outcome::Summaries(vec![])));
    }
}

#[test]
fn episode_four_of_season_with_two_fives_has_two_next_refs() {
    let state = to_streams(&[1, 2, 3, 4, 5, 5], 4);
    let (state, action) = advance(state, Reply::Streams(stream_set(vec![], vec![], "")));
    assert_eq!(state, Resolution::Closed);
    match action {
        Action::Finish(Outcome::Episode(record)) => {
            assert_eq!(
                record.nep,
                Some(vec![
                    Ep { ep_id: "e4".to_string(), ep_type: "secondary".to_string() },
                    Ep { ep_id: "e5".to_string(), ep_type: "secondary".to_string() },
                ])
            );
            assert_eq!(record.number, 4);
            assert_eq!(record.id, "ep");
            assert_eq!(record.title, "t-ep");
            assert_eq!(record.desc, "d-ep");
            assert_eq!(record.url, "https://playlist");
            assert_eq!(record.subs.len(), 0);
        },
        other => panic!("unexpected action {:?}", other),
    }
}

#[test]
fn subtitle_and_closed_caption_at_same_locale_yield_the_closed_caption() {
    let state = to_streams(&[1], 1);
    let set = stream_set(
        vec![announced("en", "https://sub")],
        vec![announced("en", "https://cc")],
        "",
    );
    let (state, action) = advance(state, Reply::Streams(set));
    assert_eq!(action, Action::Fetch(Fetch::Subtitle("https://sub".to_string())));
    assert_eq!(pending_name(&state), "subtitle");
    let (state, action) = advance(state, Reply::Text("subtitle text".to_string()));
    assert_eq!(action, Action::Fetch(Fetch::Caption("https://cc".to_string())));
    assert_eq!(pending_name(&state), "closed caption");
    let (state, action) = advance(state, Reply::Text("caption text".to_string()));
    assert_eq!(state, Resolution::Closed);
    match action {
        Action::Finish(Outcome::Episode(record)) => {
            assert_eq!(record.subs.len(), 1);
            assert_eq!(record.subs.get("en"), Some(&embed("caption text")));
            assert_eq!(record.nep, Some(vec![]));
        },
        other => panic!("unexpected action {:?}", other),
    }
}

#[test]
fn every_announced_track_is_fetched_in_order() {
    let state = to_streams(&[1, 2], 1);
    let set = stream_set(
        vec![announced("en-US", "s1"), announced("de-DE", "s2")],
        vec![announced("fr-FR", "c1")],
        "",
    );
    let (state, action) = advance(state, Reply::Streams(set));
    assert_eq!(action, Action::Fetch(Fetch::Subtitle("s1".to_string())));
    let (state, action) = advance(state, Reply::Text("a".to_string()));
    assert_eq!(action, Action::Fetch(Fetch::Subtitle("s2".to_string())));
    let (state, action) = advance(state, Reply::Text("b".to_string()));
    assert_eq!(action, Action::Fetch(Fetch::Caption("c1".to_string())));
    let (_, action) = advance(state, Reply::Text("c".to_string()));
    match action {
        Action::Finish(Outcome::Episode(record)) => {
            assert_eq!(record.subs.len(), 3);
            assert_eq!(record.subs.get("English (US)"), Some(&embed("a")));
            assert_eq!(record.subs.get("German"), Some(&embed("b")));
            assert_eq!(record.subs.get("French"), Some(&embed("c")));
        },
        other => panic!("unexpected action {:?}", other),
    }
}

#[test]
fn episode_without_requested_locale_is_not_found() {
    let state = to_streams(&[1], 1);
    let (state, action) = advance(state, Reply::Streams(stream_set(vec![], vec![], "en-US")));
    assert_eq!(state, Resolution::Closed);
    assert_eq!(action, Action::Abort(ResolveError::NotFound));
}

#[test]
fn episode_identifier_of_another_kind_is_not_found() {
    let (state, _) = begin(&logged_in(), episode_request("x"));
    let (state, action) = advance(state, Reply::Object(object(MediaKind::Series, "x", 0)));
    assert_eq!(state, Resolution::Closed);
    assert_eq!(action, Action::Abort(ResolveError::NotFound));
}

#[test]
fn failed_fetch_names_the_fetch_and_ends_the_call() {
    let state = to_streams(&[1], 1);
    let (state, action) = advance(state, Reply::Failed);
    assert_eq!(state, Resolution::Closed);
    assert_eq!(action, Action::Abort(ResolveError::RemoteUnavailable("streams".to_string())));
    let (_, action) = advance(Resolution::AwaitSeries, Reply::Failed);
    assert_eq!(action, Action::Abort(ResolveError::RemoteUnavailable("series".to_string())));
    let (_, action) = advance(Resolution::AwaitItems, Reply::Failed);
    assert_eq!(action, Action::Abort(ResolveError::RemoteUnavailable("items".to_string())));
}

#[test]
fn failed_subtitle_fetch_aborts_the_whole_episode() {
    let state = to_streams(&[1], 1);
    let set = stream_set(vec![announced("en", "https://sub")], vec![], "");
    let (state, _) = advance(state, Reply::Streams(set));
    let (state, action) = advance(state, Reply::Failed);
    assert_eq!(state, Resolution::Closed);
    assert_eq!(action, Action::Abort(ResolveError::RemoteUnavailable("subtitle".to_string())));
}

#[test]
fn missing_object_is_not_found() {
    let (state, _) = begin(&logged_in(), Request::Seasons("gone".to_string()));
    let (state, action) = advance(state, Reply::Missing);
    assert_eq!(state, Resolution::Closed);
    assert_eq!(action, Action::Abort(ResolveError::NotFound));
}

#[test]
fn reply_of_the_wrong_shape_is_malformed() {
    let (state, action) = advance(Resolution::AwaitItems, Reply::Text("x".to_string()));
    assert_eq!(state, Resolution::Closed);
    assert_eq!(action, Action::Abort(ResolveError::MalformedCatalogData("items".to_string())));
    let (_, action) = advance(Resolution::Closed, Reply::Items(vec![]));
    assert_eq!(action, Action::Abort(ResolveError::MalformedCatalogData("nothing".to_string())));
}
