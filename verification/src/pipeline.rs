//! The resolution pipeline as a state machine: each step takes the reply to
//! the pending fetch and names the next fetch, the finished result, or the
//! error that ends the call. The caller performs the fetches.

use crate::captions::FetchedTrack;
use crate::catalog::{
    child_summaries, child_summary, child_summary_of, is_malformed, season_summaries,
    series_in, series_summaries, summary_of, summary_with, views_of, MediaItem, MediaKind,
    SearchResult, SummaryView,
};
use crate::episode::{assemble_episode, is_record_of, EpisodeResult};
use crate::error::{ErrorView, ResolveError};
use crate::images::tall_poster_of;
use crate::session::ViewerContext;
use crate::streams::{playback_url_of, StreamSet, Sub};
use vstd::prelude::*;
use vstd::string::StringExecFns;

verus! {

/// The identifier of a `resolve_children` call: a series-side identifier, an
/// episode identifier, or both, in which case the first is used.
#[allow(non_camel_case_types)]
#[derive(Debug, Clone, Default, PartialEq, Eq)]
pub struct epOrSeries {
    pub series_id: Option<String>,
    pub ep_id: Option<String>,
}

/// What a caller asks the pipeline to resolve.
#[derive(Debug, Clone, PartialEq, Eq)]
pub enum Request {
    Search(String),
    Recommendations,
    Seasons(String),
    Children(epOrSeries),
    Episode { ep_id: String, locale: String },
}

/// One remote fetch that the caller performs on behalf of the pipeline.
#[derive(Debug, Clone, PartialEq, Eq)]
pub enum Fetch {
    /// Text query against the catalog.
    Query(String),
    /// The recommendation feed.
    Feed,
    /// The catalog object of an identifier.
    Object(String),
    /// The seasons of a series.
    SeasonsOf(String),
    /// The episodes of a season.
    EpisodesOf(String),
    /// The season that owns an episode.
    SeasonOf(String),
    /// The streams of an episode.
    StreamsOf(String),
    /// The text behind a subtitle URL, converted to the universal caption format.
    Subtitle(String),
    /// The text behind a closed-caption URL, as it is.
    Caption(String),
}

/// The reply to a fetch.
#[derive(Debug, Clone, PartialEq, Eq)]
pub enum Reply {
    Items(Vec<MediaItem>),
    Object(MediaItem),
    Streams(StreamSet),
    Text(String),
    /// The identifier resolves to nothing.
    Missing,
    /// The fetch failed in transport.
    Failed,
}

/// The result of a finished resolution.
#[derive(Debug, Clone, PartialEq, Eq)]
pub enum Outcome {
    Summaries(Vec<SearchResult>),
    Episode(EpisodeResult),
}

/// What the caller does next.
#[derive(Debug, Clone, PartialEq, Eq)]
pub enum Action {
    Fetch(Fetch),
    Finish(Outcome),
    Abort(ResolveError),
}

/// What an episode resolution has gathered once the streams are known.
#[derive(Debug, Clone, PartialEq, Eq)]
pub struct Progress {
    pub locale: String,
    pub episode: MediaItem,
    pub siblings: Vec<MediaItem>,
    pub streams: StreamSet,
    pub subtitles: Vec<FetchedTrack>,
    pub closed_captions: Vec<FetchedTrack>,
}

/// The state of one resolution call between two fetches.
#[derive(Debug, Clone, PartialEq, Eq)]
pub enum Resolution {
    AwaitItems,
    AwaitSeries,
    AwaitSeasons { series: MediaItem },
    AwaitParent,
    AwaitChildren,
    AwaitEpisode { locale: String },
    AwaitSeason { locale: String, episode: MediaItem },
    AwaitSiblings { locale: String, episode: MediaItem },
    AwaitStreams { locale: String, episode: MediaItem, siblings: Vec<MediaItem> },
    AwaitSubtitle(Progress),
    AwaitCaption(Progress),
    Closed,
}

/// The name of the fetch that a state is waiting for.
pub open spec fn pending_name_of(state: Resolution) -> Seq<char> {
    match state {
        Resolution::AwaitItems => "items"@,
        Resolution::AwaitSeries => "series"@,
        Resolution::AwaitSeasons { .. } => "seasons"@,
        Resolution::AwaitParent => "object"@,
        Resolution::AwaitChildren => "episodes"@,
        Resolution::AwaitEpisode { .. } => "episode"@,
        Resolution::AwaitSeason { .. } => "season"@,
        Resolution::AwaitSiblings { .. } => "episodes"@,
        Resolution::AwaitStreams { .. } => "streams"@,
        Resolution::AwaitSubtitle(_) => "subtitle"@,
        Resolution::AwaitCaption(_) => "closed caption"@,
        Resolution::Closed => "nothing"@,
    }
}

/// The call has ended with the error `error`.
pub open spec fn aborted(next: Resolution, action: Action, error: ErrorView) -> bool {
    &&& next is Closed
    &&& action is Abort
    &&& action->Abort_0@ == error
}

/// The call has ended with the summaries `summaries`.
pub open spec fn finished_with(next: Resolution, action: Action, summaries: Seq<SummaryView>) -> bool {
    &&& next is Closed
    &&& action is Finish
    &&& action->Finish_0 is Summaries
    &&& views_of(action->Finish_0->Summaries_0@) == summaries
}

/// The call goes on in state `state` with the fetch `fetch`.
pub open spec fn fetching(next: Resolution, action: Action, state: Resolution, fetch: Fetch) -> bool {
    &&& next == state
    &&& action == Action::Fetch(fetch)
}

/// The identifier that a children request names: the series-side one where
/// given, else the episode one.
pub open spec fn chosen_id(selector: epOrSeries) -> Option<String> {
    if selector.series_id is Some {
        selector.series_id
    } else {
        selector.ep_id
    }
}

/// How a resolution call starts. Without a session it ends at once with
/// `NotAuthenticated`, before any fetch is named.
pub open spec fn opening(authenticated: bool, request: Request, next: Resolution, action: Action) -> bool {
    if !authenticated {
        aborted(next, action, ErrorView::NotAuthenticated)
    } else {
        match request {
            Request::Search(query) => fetching(
                next,
                action,
                Resolution::AwaitItems,
                Fetch::Query(query),
            ),
            Request::Recommendations => fetching(next, action, Resolution::AwaitItems, Fetch::Feed),
            Request::Seasons(id) => fetching(next, action, Resolution::AwaitSeries, Fetch::Object(id)),
            Request::Children(selector) => match chosen_id(selector) {
                Some(id) => fetching(next, action, Resolution::AwaitParent, Fetch::Object(id)),
                None => aborted(next, action, ErrorView::NotFound),
            },
            Request::Episode { ep_id, locale } => fetching(
                next,
                action,
                Resolution::AwaitEpisode { locale },
                Fetch::Object(ep_id),
            ),
        }
    }
}

/// Starts a resolution call under the session gate.
pub fn begin<H>(context: &ViewerContext<H>, request: Request) -> (r: (Resolution, Action))
    ensures
        opening(context.session is Some, request, r.0, r.1),
        context.session is None ==> aborted(r.0, r.1, ErrorView::NotAuthenticated),
{
    if !context.is_authenticated() {
        return (Resolution::Closed, Action::Abort(ResolveError::NotAuthenticated));
    }
    match request {
        Request::Search(query) => (Resolution::AwaitItems, Action::Fetch(Fetch::Query(query))),
        Request::Recommendations => (Resolution::AwaitItems, Action::Fetch(Fetch::Feed)),
        Request::Seasons(id) => (Resolution::AwaitSeries, Action::Fetch(Fetch::Object(id))),
        Request::Children(selector) => {
            let epOrSeries { series_id, ep_id } = selector;
            let chosen = if series_id.is_some() {
                series_id
            } else {
                ep_id
            };
            match chosen {
                Some(id) => (Resolution::AwaitParent, Action::Fetch(Fetch::Object(id))),
                None => (Resolution::Closed, Action::Abort(ResolveError::NotFound)),
            }
        },
        Request::Episode { ep_id, locale } => (
            Resolution::AwaitEpisode { locale },
            Action::Fetch(Fetch::Object(ep_id)),
        ),
    }
}

/// The name of the fetch that `state` is waiting for.
pub fn pending_name(state: &Resolution) -> (r: String)
    ensures
        r@ == pending_name_of(*state),
{
    match state {
        Resolution::AwaitItems => String::from_str("items"),
        Resolution::AwaitSeries => String::from_str("series"),
        Resolution::AwaitSeasons { .. } => String::from_str("seasons"),
        Resolution::AwaitParent => String::from_str("object"),
        Resolution::AwaitChildren => String::from_str("episodes"),
        Resolution::AwaitEpisode { .. } => String::from_str("episode"),
        Resolution::AwaitSeason { .. } => String::from_str("season"),
        Resolution::AwaitSiblings { .. } => String::from_str("episodes"),
        Resolution::AwaitStreams { .. } => String::from_str("streams"),
        Resolution::AwaitSubtitle(_) => String::from_str("subtitle"),
        Resolution::AwaitCaption(_) => String::from_str("closed caption"),
        Resolution::Closed => String::from_str("nothing"),
    }
}

/// `i` is the position of the first malformed item of `items`.
pub open spec fn is_first_malformed(items: Seq<MediaItem>, i: int) -> bool {
    &&& 0 <= i < items.len()
    &&& is_malformed(items[i])
    &&& forall|j: int| 0 <= j < i ==> !is_malformed(#[trigger] items[j])
}

/// How the listing of a season's episodes ends: with their summaries, or
/// with the error that names the first malformed episode.
pub open spec fn children_listed(episodes: Seq<MediaItem>, next: Resolution, action: Action) -> bool {
    if forall|i: int| 0 <= i < episodes.len() ==> !is_malformed(#[trigger] episodes[i]) {
        finished_with(next, action, episodes.map_values(|e: MediaItem| child_summary_of(e)))
    } else {
        &&& next is Closed
        &&& action is Abort
        &&& exists|i: int| #[trigger]
            is_first_malformed(episodes, i) && action->Abort_0@ == ErrorView::MalformedCatalogData(
                episodes[i].id@,
            )
    }
}

/// What follows once the streams are known: the next subtitle fetch, then
/// the next closed-caption fetch, and when every track is in, the record.
pub open spec fn continuing(progress: Progress, next: Resolution, action: Action) -> bool {
    let subtitles = progress.streams.play.subtitles@;
    let captions = progress.streams.closed_captions@;
    if progress.subtitles@.len() < subtitles.len() {
        fetching(
            next,
            action,
            Resolution::AwaitSubtitle(progress),
            Fetch::Subtitle(subtitles[progress.subtitles@.len() as int].1.url),
        )
    } else if progress.closed_captions@.len() < captions.len() {
        fetching(
            next,
            action,
            Resolution::AwaitCaption(progress),
            Fetch::Caption(captions[progress.closed_captions@.len() as int].1.url),
        )
    } else {
        &&& next is Closed
        &&& match playback_url_of(progress.streams.play, progress.locale@) {
            Ok(url) => {
                &&& action is Finish
                &&& action->Finish_0 is Episode
                &&& is_record_of(
                    action->Finish_0->Episode_0,
                    progress.episode,
                    progress.siblings@,
                    url,
                    progress.subtitles@,
                    progress.closed_captions@,
                )
            },
            Err(e) => action is Abort && action->Abort_0@ == e,
        }
    }
}

/// `after` is `before` with nothing changed but the fetched tracks.
pub open spec fn same_episode(before: Progress, after: Progress) -> bool {
    &&& after.locale == before.locale
    &&& after.episode == before.episode
    &&& after.siblings == before.siblings
    &&& after.streams == before.streams
}

/// `after` is `before` with the text `body` stored as the next subtitle
/// track, under the locale announced for it.
pub open spec fn subtitle_stored(before: Progress, body: String, after: Progress) -> bool {
    &&& same_episode(before, after)
    &&& after.closed_captions == before.closed_captions
    &&& after.subtitles@ == before.subtitles@.push(
        FetchedTrack {
            locale: before.streams.play.subtitles@[before.subtitles@.len() as int].0,
            body,
        },
    )
}

/// `after` is `before` with the text `body` stored as the next
/// closed-caption track, under the locale announced for it.
pub open spec fn caption_stored(before: Progress, body: String, after: Progress) -> bool {
    &&& same_episode(before, after)
    &&& after.subtitles == before.subtitles
    &&& after.closed_captions@ == before.closed_captions@.push(
        FetchedTrack {
            locale: before.streams.closed_captions@[before.closed_captions@.len() as int].0,
            body,
        },
    )
}

/// The reply does not answer the pending fetch: the call ends as malformed.
pub open spec fn unexpected(state: Resolution, next: Resolution, action: Action) -> bool {
    aborted(next, action, ErrorView::MalformedCatalogData(pending_name_of(state)))
}

/// The step taken on a list of items.
pub open spec fn on_items(state: Resolution, list: Vec<MediaItem>, next: Resolution, action: Action) -> bool {
    match state {
        Resolution::AwaitItems => finished_with(
            next,
            action,
            series_in(list@).map_values(|m: MediaItem| summary_of(m)),
        ),
        Resolution::AwaitSeasons { series } => finished_with(
            next,
            action,
            list@.map_values(|s: MediaItem| summary_with(s, tall_poster_of(series.images))),
        ),
        Resolution::AwaitChildren => children_listed(list@, next, action),
        Resolution::AwaitSiblings { locale, episode } => fetching(
            next,
            action,
            Resolution::AwaitStreams { locale, episode, siblings: list },
            Fetch::StreamsOf(episode.id),
        ),
        _ => unexpected(state, next, action),
    }
}

/// The step taken on a single catalog object. Exactly one branch applies.
pub open spec fn on_object(state: Resolution, object: MediaItem, next: Resolution, action: Action) -> bool {
    match state {
        Resolution::AwaitSeries => if object.kind is Series {
            fetching(
                next,
                action,
                Resolution::AwaitSeasons { series: object },
                Fetch::SeasonsOf(object.id),
            )
        } else {
            aborted(next, action, ErrorView::NotFound)
        },
        Resolution::AwaitParent => match object.kind {
            MediaKind::Season => fetching(
                next,
                action,
                Resolution::AwaitChildren,
                Fetch::EpisodesOf(object.id),
            ),
            MediaKind::Episode => if is_malformed(object) {
                aborted(next, action, ErrorView::MalformedCatalogData(object.id@))
            } else {
                finished_with(next, action, seq![child_summary_of(object)])
            },
            _ => finished_with(next, action, Seq::<SummaryView>::empty()),
        },
        Resolution::AwaitEpisode { locale } => if object.kind is Episode {
            fetching(
                next,
                action,
                Resolution::AwaitSeason { locale, episode: object },
                Fetch::SeasonOf(object.id),
            )
        } else {
            aborted(next, action, ErrorView::NotFound)
        },
        Resolution::AwaitSeason { locale, episode } => fetching(
            next,
            action,
            Resolution::AwaitSiblings { locale, episode },
            Fetch::EpisodesOf(object.id),
        ),
        _ => unexpected(state, next, action),
    }
}

/// The step taken on the streams of the episode.
pub open spec fn on_streams(state: Resolution, streams: StreamSet, next: Resolution, action: Action) -> bool {
    match state {
        Resolution::AwaitStreams { locale, episode, siblings } => exists|start: Progress|
            {
                &&& start.locale == locale
                &&& start.episode == episode
                &&& start.siblings == siblings
                &&& start.streams == streams
                &&& start.subtitles@.len() == 0
                &&& start.closed_captions@.len() == 0
                &&& #[trigger] continuing(start, next, action)
            },
        _ => unexpected(state, next, action),
    }
}

/// The step taken on a fetched text.
pub open spec fn on_text(state: Resolution, body: String, next: Resolution, action: Action) -> bool {
    match state {
        Resolution::AwaitSubtitle(progress) => if progress.subtitles@.len()
            < progress.streams.play.subtitles@.len() {
            exists|after: Progress|
                subtitle_stored(progress, body, after) && #[trigger] continuing(after, next, action)
        } else {
            unexpected(state, next, action)
        },
        Resolution::AwaitCaption(progress) => if progress.closed_captions@.len()
            < progress.streams.closed_captions@.len() {
            exists|after: Progress|
                caption_stored(progress, body, after) && #[trigger] continuing(after, next, action)
        } else {
            unexpected(state, next, action)
        },
        _ => unexpected(state, next, action),
    }
}

/// One step of a resolution call: from the state and the reply to the
/// pending fetch, to the next state and what the caller does next. A failed
/// fetch ends the call with an error that names the fetch; the call is never
/// retried.
pub open spec fn transition(state: Resolution, reply: Reply, next: Resolution, action: Action) -> bool {
    match reply {
        Reply::Failed => aborted(
            next,
            action,
            ErrorView::RemoteUnavailable(pending_name_of(state)),
        ),
        Reply::Missing => aborted(next, action, ErrorView::NotFound),
        Reply::Items(list) => on_items(state, list, next, action),
        Reply::Object(object) => on_object(state, object, next, action),
        Reply::Streams(streams) => on_streams(state, streams, next, action),
        Reply::Text(body) => on_text(state, body, next, action),
    }
}

fn reject(name: String) -> (r: (Resolution, Action))
    ensures
        aborted(r.0, r.1, ErrorView::MalformedCatalogData(name@)),
{
    (Resolution::Closed, Action::Abort(ResolveError::MalformedCatalogData(name)))
}

fn proceed(progress: Progress) -> (r: (Resolution, Action))
    ensures
        continuing(progress, r.0, r.1),
{
    if progress.subtitles.len() < progress.streams.play.subtitles.len() {
        let url = progress.streams.play.subtitles[progress.subtitles.len()].1.url.clone();
        (Resolution::AwaitSubtitle(progress), Action::Fetch(Fetch::Subtitle(url)))
    } else if progress.closed_captions.len() < progress.streams.closed_captions.len() {
        let url = progress.streams.closed_captions[progress.closed_captions.len()].1.url.clone();
        (Resolution::AwaitCaption(progress), Action::Fetch(Fetch::Caption(url)))
    } else {
        match assemble_episode(
            &progress.episode,
            &progress.siblings,
            &progress.streams.play,
            progress.locale.as_str(),
            &progress.subtitles,
            &progress.closed_captions,
        ) {
            Ok(record) => (Resolution::Closed, Action::Finish(Outcome::Episode(record))),
            Err(e) => (Resolution::Closed, Action::Abort(e)),
        }
    }
}

fn step_items(state: Resolution, list: Vec<MediaItem>) -> (r: (Resolution, Action))
    ensures
        on_items(state, list, r.0, r.1),
{
    let name = pending_name(&state);
    match state {
        Resolution::AwaitItems => {
            let summaries = series_summaries(&list);
            (Resolution::Closed, Action::Finish(Outcome::Summaries(summaries)))
        },
        Resolution::AwaitSeasons { series } => {
            let summaries = season_summaries(&series, &list);
            (Resolution::Closed, Action::Finish(Outcome::Summaries(summaries)))
        },
        Resolution::AwaitChildren => match child_summaries(&list) {
            Ok(summaries) => (Resolution::Closed, Action::Finish(Outcome::Summaries(summaries))),
            Err(e) => {
                proof {
                    let i = choose|i: int|
                        {
                            &&& 0 <= i < list@.len()
                            &&& is_malformed(#[trigger] list@[i])
                            &&& forall|j: int| 0 <= j < i ==> !is_malformed(#[trigger] list@[j])
                            &&& e == ResolveError::MalformedCatalogData(list@[i].id)
                        };
                    assert(is_first_malformed(list@, i));
                }
                (Resolution::Closed, Action::Abort(e))
            },
        },
        Resolution::AwaitSiblings { locale, episode } => {
            let fetch = Fetch::StreamsOf(episode.id.clone());
            (Resolution::AwaitStreams { locale, episode, siblings: list }, Action::Fetch(fetch))
        },
        _ => reject(name),
    }
}

fn step_object(state: Resolution, object: MediaItem) -> (r: (Resolution, Action))
    ensures
        on_object(state, object, r.0, r.1),
{
    let name = pending_name(&state);
    match state {
        Resolution::AwaitSeries => match object.kind {
            MediaKind::Series => {
                let fetch = Fetch::SeasonsOf(object.id.clone());
                (Resolution::AwaitSeasons { series: object }, Action::Fetch(fetch))
            },
            _ => (Resolution::Closed, Action::Abort(ResolveError::NotFound)),
        },
        Resolution::AwaitParent => match object.kind {
            MediaKind::Season => (
                Resolution::AwaitChildren,
                Action::Fetch(Fetch::EpisodesOf(object.id)),
            ),
            MediaKind::Episode => match child_summary(&object) {
                Ok(summary) => {
                    let mut summaries: Vec<SearchResult> = Vec::new();
                    summaries.push(summary);
                    proof {
                        assert(views_of(summaries@) =~= seq![child_summary_of(object)]);
                    }
                    (Resolution::Closed, Action::Finish(Outcome::Summaries(summaries)))
                },
                Err(e) => (Resolution::Closed, Action::Abort(e)),
            },
            _ => {
                let summaries: Vec<SearchResult> = Vec::new();
                proof {
                    assert(views_of(summaries@) =~= Seq::<SummaryView>::empty());
                }
                (Resolution::Closed, Action::Finish(Outcome::Summaries(summaries)))
            },
        },
        Resolution::AwaitEpisode { locale } => match object.kind {
            MediaKind::Episode => {
                let fetch = Fetch::SeasonOf(object.id.clone());
                (Resolution::AwaitSeason { locale, episode: object }, Action::Fetch(fetch))
            },
            _ => (Resolution::Closed, Action::Abort(ResolveError::NotFound)),
        },
        Resolution::AwaitSeason { locale, episode } => (
            Resolution::AwaitSiblings { locale, episode },
            Action::Fetch(Fetch::EpisodesOf(object.id)),
        ),
        _ => reject(name),
    }
}

fn step_streams(state: Resolution, streams: StreamSet) -> (r: (Resolution, Action))
    ensures
        on_streams(state, streams, r.0, r.1),
{
    let name = pending_name(&state);
    match state {
        Resolution::AwaitStreams { locale, episode, siblings } => {
            let start = Progress {
                locale,
                episode,
                siblings,
                streams,
                subtitles: Vec::new(),
                closed_captions: Vec::new(),
            };
            proceed(start)
        },
        _ => reject(name),
    }
}

fn step_text(state: Resolution, body: String) -> (r: (Resolution, Action))
    ensures
        on_text(state, body, r.0, r.1),
{
    let name = pending_name(&state);
    match state {
        Resolution::AwaitSubtitle(progress) => {
            if progress.subtitles.len() < progress.streams.play.subtitles.len() {
                let ghost before = progress;
                let mut after = progress;
                let locale = after.streams.play.subtitles[after.subtitles.len()].0.clone();
                after.subtitles.push(FetchedTrack { locale, body });
                proof {
                    assert(subtitle_stored(before, body, after));
                }
                proceed(after)
            } else {
                reject(name)
            }
        },
        Resolution::AwaitCaption(progress) => {
            if progress.closed_captions.len() < progress.streams.closed_captions.len() {
                let ghost before = progress;
                let mut after = progress;
                let locale = after.streams.closed_captions[after.closed_captions.len()].0.clone();
                after.closed_captions.push(FetchedTrack { locale, body });
                proof {
                    assert(caption_stored(before, body, after));
                }
                proceed(after)
            } else {
                reject(name)
            }
        },
        _ => reject(name),
    }
}

/// Takes one step of a resolution call.
pub fn advance(state: Resolution, reply: Reply) -> (r: (Resolution, Action))
    ensures
        transition(state, reply, r.0, r.1),
{
    match reply {
        Reply::Failed => {
            let name = pending_name(&state);
            (Resolution::Closed, Action::Abort(ResolveError::RemoteUnavailable(name)))
        },
        Reply::Missing => (Resolution::Closed, Action::Abort(ResolveError::NotFound)),
        Reply::Items(list) => step_items(state, list),
        Reply::Object(object) => step_object(state, object),
        Reply::Streams(streams) => step_streams(state, streams),
        Reply::Text(body) => step_text(state, body),
    }
}

/// A step asks for a fetch exactly when the call goes on; a step that
/// finishes or aborts leaves the call closed.
pub proof fn lemma_call_ends_without_fetch(
    state: Resolution,
    reply: Reply,
    next: Resolution,
    action: Action,
)
    requires
        transition(state, reply, next, action),
    ensures
        action is Fetch <==> !(next is Closed),
{
}

/// A closed call stays closed: whatever the reply, the step aborts.
pub proof fn lemma_closed_is_final(reply: Reply, next: Resolution, action: Action)
    requires
        transition(Resolution::Closed, reply, next, action),
    ensures
        next is Closed,
        action is Abort,
{
}

/// Every fetched track carries the locale announced at its position.
pub open spec fn tracks_follow(fetched: Seq<FetchedTrack>, announced: Seq<(String, Sub)>) -> bool {
    &&& fetched.len() <= announced.len()
    &&& forall|i: int| 0 <= i < fetched.len() ==> (#[trigger] fetched[i]).locale == announced[i].0
}

/// Storing a fetched text keeps every track under its announced locale.
pub proof fn lemma_stored_tracks_follow(before: Progress, body: String, after: Progress)
    requires
        tracks_follow(before.subtitles@, before.streams.play.subtitles@),
        tracks_follow(before.closed_captions@, before.streams.closed_captions@),
    ensures
        before.subtitles@.len() < before.streams.play.subtitles@.len() && subtitle_stored(
            before,
            body,
            after,
        ) ==> tracks_follow(after.subtitles@, after.streams.play.subtitles@) && tracks_follow(
            after.closed_captions@,
            after.streams.closed_captions@,
        ),
        before.closed_captions@.len() < before.streams.closed_captions@.len() && caption_stored(
            before,
            body,
            after,
        ) ==> tracks_follow(after.subtitles@, after.streams.play.subtitles@) && tracks_follow(
            after.closed_captions@,
            after.streams.closed_captions@,
        ),
{
}

} // verus!
