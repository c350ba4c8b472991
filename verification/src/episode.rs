//! The resolved record of one episode and its next-episode suggestions.

use crate::captions::{captions_of, collect_captions, CaptionMap, FetchedTrack};
use crate::catalog::MediaItem;
use crate::error::ResolveError;
use crate::streams::{playback_url_of, resolve_playback_url, PlayResult};
use vstd::prelude::*;
use vstd::string::StringExecFns;

verus! {

/// A lightweight pointer to an episode, with the role it is offered in.
#[derive(Debug, Clone, Default, PartialEq, Eq)]
pub struct Ep {
    pub ep_id: String,
    pub ep_type: String,
}

/// The mathematical content of an `Ep`.
pub ghost struct EpView {
    pub ep_id: Seq<char>,
    pub ep_type: Seq<char>,
}

impl View for Ep {
    type V = EpView;

    open spec fn view(&self) -> EpView {
        EpView { ep_id: self.ep_id@, ep_type: self.ep_type@ }
    }
}

/// Everything a player needs for one episode.
#[derive(Debug, Clone, Default, PartialEq, Eq)]
pub struct EpisodeResult {
    pub title: String,
    pub id: String,
    pub number: i32,
    pub desc: String,
    pub url: String,
    pub img: String,
    pub subs: CaptionMap,
    pub nep: Option<Vec<Ep>>,
}

/// The role of an episode that is suggested as the next one.
pub open spec fn secondary_kind() -> Seq<char> {
    "secondary"@
}

/// Whether `candidate` carries the number that follows `number`.
pub open spec fn follows(candidate: MediaItem, number: u32) -> bool {
    candidate.episode_number as int == number as int + 1
}

/// The siblings that follow episode number `number`, in season order.
pub open spec fn successors(siblings: Seq<MediaItem>, number: u32) -> Seq<MediaItem> {
    siblings.filter(|f: MediaItem| follows(f, number))
}

/// The reference that suggests `item` as a next episode.
pub open spec fn suggestion_of(item: MediaItem) -> EpView {
    EpView { ep_id: item.id@, ep_type: secondary_kind() }
}

/// The views of a sequence of episode references.
pub open spec fn refs_of(refs: Seq<Ep>) -> Seq<EpView> {
    refs.map_values(|e: Ep| e@)
}

/// Every sibling whose number is one more than `number` becomes a
/// secondary-kind reference; duplicates in the season all appear, and where
/// none follows the result is empty.
pub fn next_episodes(siblings: &Vec<MediaItem>, number: u32) -> (r: Vec<Ep>)
    ensures
        refs_of(r@) == successors(siblings@, number).map_values(|f: MediaItem| suggestion_of(f)),
{
    let mut out: Vec<Ep> = Vec::new();
    let mut k: usize = 0;
    while k < siblings.len()
        invariant
            0 <= k <= siblings.len(),
            refs_of(out@) == successors(siblings@.take(k as int), number).map_values(
                |f: MediaItem| suggestion_of(f),
            ),
        decreases siblings.len() - k,
    {
        proof {
            reveal(Seq::filter);
            assert(siblings@.take(k as int + 1).drop_last() =~= siblings@.take(k as int));
        }
        let ghost before = out@;
        if number < u32::MAX && siblings[k].episode_number == number + 1 {
            let suggestion = Ep {
                ep_id: siblings[k].id.clone(),
                ep_type: String::from_str("secondary"),
            };
            out.push(suggestion);
            proof {
                assert(refs_of(out@) =~= refs_of(before).push(suggestion@));
                assert(successors(siblings@.take(k as int + 1), number).map_values(
                    |f: MediaItem| suggestion_of(f),
                ) =~= successors(siblings@.take(k as int), number).map_values(
                    |f: MediaItem| suggestion_of(f),
                ).push(suggestion_of(siblings@[k as int])));
            }
        }
        k = k + 1;
    }
    proof {
        assert(siblings@.take(k as int) =~= siblings@);
    }
    out
}

/// A sibling is among the successors exactly when its number is the next
/// one, and the successors are empty where no sibling has that number.
pub proof fn lemma_successors_are_the_followers(siblings: Seq<MediaItem>, number: u32)
    ensures
        forall|f: MediaItem| #[trigger]
            successors(siblings, number).contains(f) <==> siblings.contains(f) && follows(
                f,
                number,
            ),
        (forall|i: int| 0 <= i < siblings.len() ==> !follows(#[trigger] siblings[i], number))
            ==> successors(siblings, number).len() == 0,
{
    let pred = |f: MediaItem| follows(f, number);
    let kept = siblings.filter(pred);
    assert forall|f: MediaItem| #[trigger]
        successors(siblings, number).contains(f) <==> siblings.contains(f) && follows(
            f,
            number,
        ) by {
        if kept.contains(f) {
            let i = choose|i: int| 0 <= i < kept.len() && kept[i] == f;
            siblings.lemma_filter_pred(pred, i);
            siblings.lemma_filter_contains_rev(pred, f);
        }
        if siblings.contains(f) && follows(f, number) {
            let i = choose|i: int| 0 <= i < siblings.len() && siblings[i] == f;
            siblings.lemma_filter_contains(pred, i);
        }
    }
    if forall|i: int| 0 <= i < siblings.len() ==> !follows(#[trigger] siblings[i], number) {
        if kept.len() > 0 {
            let f = kept[0];
            assert(kept.contains(f));
            assert(successors(siblings, number).contains(f));
            let i = choose|i: int| 0 <= i < siblings.len() && siblings[i] == f;
            assert(!follows(siblings[i], number));
        }
    }
}

/// Whether `record` is the resolved form of `episode` within `siblings`,
/// playing at `url` with the captions of the fetched tracks.
pub open spec fn is_record_of(
    record: EpisodeResult,
    episode: MediaItem,
    siblings: Seq<MediaItem>,
    url: Seq<char>,
    subtitles: Seq<FetchedTrack>,
    closed_captions: Seq<FetchedTrack>,
) -> bool {
    &&& record.title@ == episode.title@
    &&& record.id@ == episode.id@
    &&& record.number == episode.episode_number as i32
    &&& record.desc@ == episode.description@
    &&& record.url@ == url
    &&& record.img@.len() == 0
    &&& record.subs.wf()
    &&& record.subs@ == captions_of(subtitles, closed_captions)
    &&& record.nep is Some
    &&& refs_of(record.nep.unwrap()@) == successors(siblings, episode.episode_number).map_values(
        |f: MediaItem| suggestion_of(f),
    )
}

/// Assembles the record of `episode` from its season's episode list, its
/// playback response and the fetched caption tracks. Fails exactly when no
/// playback URL resolves for `locale`.
pub fn assemble_episode(
    episode: &MediaItem,
    siblings: &Vec<MediaItem>,
    play: &PlayResult,
    locale: &str,
    subtitles: &Vec<FetchedTrack>,
    closed_captions: &Vec<FetchedTrack>,
) -> (r: Result<EpisodeResult, ResolveError>)
    ensures
        match playback_url_of(*play, locale@) {
            Ok(url) => r is Ok && is_record_of(
                r->Ok_0,
                *episode,
                siblings@,
                url,
                subtitles@,
                closed_captions@,
            ),
            Err(e) => r is Err && r->Err_0@ == e,
        },
{
    let nep = next_episodes(siblings, episode.episode_number);
    let subs = collect_captions(subtitles, closed_captions);
    match resolve_playback_url(play, locale) {
        Err(e) => Err(e),
        Ok(url) => Ok(
            EpisodeResult {
                title: episode.title.clone(),
                id: episode.id.clone(),
                number: #[verifier::truncate]
                (episode.episode_number as i32),
                desc: episode.description.clone(),
                url,
                img: String::new(),
                subs,
                nep: Some(nep),
            },
        ),
    }
}

} // verus!
