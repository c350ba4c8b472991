//! Catalog objects as plain values, and their normalisation into uniform summaries.

use crate::error::ResolveError;
use crate::images::{
    child_thumbnail_of, join_tall_posters, select_child_thumbnail, select_thumbnail,
    tall_poster_of, thumbnail_of, ImageBundle,
};
use vstd::prelude::*;

verus! {

/// The concrete kind of a catalog object.
#[derive(Debug, Clone, Copy, PartialEq, Eq)]
pub enum MediaKind {
    Series,
    Season,
    Episode,
    MovieListing,
    Movie,
}

/// A catalog object as delivered by the remote service, reduced to what
/// resolution reads.
#[derive(Debug, Clone, PartialEq, Eq)]
pub struct MediaItem {
    pub kind: MediaKind,
    pub id: String,
    pub title: String,
    pub description: String,
    pub images: Option<ImageBundle>,
    pub episode_number: u32,
}

/// The uniform summary of a catalog object.
#[derive(Debug, Clone, Default, PartialEq, Eq)]
pub struct SearchResult {
    pub name: String,
    pub id: String,
    pub desc: String,
    pub img: Option<String>,
}

/// The mathematical content of a `SearchResult`.
pub ghost struct SummaryView {
    pub name: Seq<char>,
    pub id: Seq<char>,
    pub desc: Seq<char>,
    pub img: Option<Seq<char>>,
}

impl View for SearchResult {
    type V = SummaryView;

    open spec fn view(&self) -> SummaryView {
        SummaryView {
            name: self.name@,
            id: self.id@,
            desc: self.desc@,
            img: match self.img {
                Some(text) => Some(text@),
                None => None,
            },
        }
    }
}

/// The summary of `item` that carries `thumbnail` as its image.
pub open spec fn summary_with(item: MediaItem, thumbnail: Seq<char>) -> SummaryView {
    SummaryView {
        name: item.title@,
        id: item.id@,
        desc: item.description@,
        img: Some(thumbnail),
    }
}

/// The summary of `item` with the thumbnail its own images select.
pub open spec fn summary_of(item: MediaItem) -> SummaryView {
    summary_with(item, thumbnail_of(item.images))
}

/// The views of a sequence of summaries.
pub open spec fn views_of(results: Seq<SearchResult>) -> Seq<SummaryView> {
    results.map_values(|r: SearchResult| r@)
}

/// The series-typed items of a feed, in feed order.
pub open spec fn series_in(items: Seq<MediaItem>) -> Seq<MediaItem> {
    items.filter(|m: MediaItem| m.kind is Series)
}

/// Builds the summary of `item` around an already chosen thumbnail.
pub fn summarize(item: &MediaItem, thumbnail: String) -> (r: SearchResult)
    ensures
        r@ == summary_with(*item, thumbnail@),
{
    SearchResult {
        name: item.title.clone(),
        id: item.id.clone(),
        desc: item.description.clone(),
        img: Some(thumbnail),
    }
}

/// Summarises every series-typed item of a result list or feed; items of any
/// other kind are skipped.
pub fn series_summaries(items: &Vec<MediaItem>) -> (r: Vec<SearchResult>)
    ensures
        views_of(r@) == series_in(items@).map_values(|m: MediaItem| summary_of(m)),
{
    let mut out: Vec<SearchResult> = Vec::new();
    let mut k: usize = 0;
    while k < items.len()
        invariant
            0 <= k <= items.len(),
            views_of(out@) == series_in(items@.take(k as int)).map_values(
                |m: MediaItem| summary_of(m),
            ),
        decreases items.len() - k,
    {
        proof {
            reveal(Seq::filter);
            assert(items@.take(k as int + 1).drop_last() =~= items@.take(k as int));
        }
        let ghost before = out@;
        match items[k].kind {
            MediaKind::Series => {
                let thumbnail = select_thumbnail(&items[k].images);
                let summary = summarize(&items[k], thumbnail);
                out.push(summary);
                proof {
                    assert(views_of(out@) =~= views_of(before).push(summary@));
                    assert(series_in(items@.take(k as int + 1)).map_values(
                        |m: MediaItem| summary_of(m),
                    ) =~= series_in(items@.take(k as int)).map_values(
                        |m: MediaItem| summary_of(m),
                    ).push(summary_of(items@[k as int])));
                }
            },
            _ => {},
        }
        k = k + 1;
    }
    proof {
        assert(items@.take(k as int) =~= items@);
    }
    out
}

/// Summarises the seasons of a series. Seasons carry no imagery of their own,
/// so each takes the joined tall-poster selection of the series.
pub fn season_summaries(series: &MediaItem, seasons: &Vec<MediaItem>) -> (r: Vec<SearchResult>)
    ensures
        views_of(r@) == seasons@.map_values(
            |s: MediaItem| summary_with(s, tall_poster_of(series.images)),
        ),
{
    let mut out: Vec<SearchResult> = Vec::new();
    let mut k: usize = 0;
    while k < seasons.len()
        invariant
            0 <= k <= seasons.len(),
            views_of(out@) == seasons@.take(k as int).map_values(
                |s: MediaItem| summary_with(s, tall_poster_of(series.images)),
            ),
        decreases seasons.len() - k,
    {
        let ghost before = out@;
        let poster = join_tall_posters(&series.images);
        let summary = summarize(&seasons[k], poster);
        out.push(summary);
        proof {
            assert(views_of(out@) =~= views_of(before).push(summary@));
            assert(seasons@.take(k as int + 1).map_values(
                |s: MediaItem| summary_with(s, tall_poster_of(series.images)),
            ) =~= seasons@.take(k as int).map_values(
                |s: MediaItem| summary_with(s, tall_poster_of(series.images)),
            ).push(summary_with(seasons@[k as int], tall_poster_of(series.images))));
        }
        k = k + 1;
    }
    proof {
        assert(seasons@.take(k as int) =~= seasons@);
    }
    out
}

/// Whether `item` cannot be listed as a child: it carries an image bundle in
/// which no category is present.
pub open spec fn is_malformed(item: MediaItem) -> bool {
    child_thumbnail_of(item.images, item.id) is Err
}

/// The summary of a well-formed child.
pub open spec fn child_summary_of(item: MediaItem) -> SummaryView {
    summary_with(item, thumbnail_of(item.images))
}

/// Summarises one listed child, failing where its images are malformed.
pub fn child_summary(item: &MediaItem) -> (r: Result<SearchResult, ResolveError>)
    ensures
        is_malformed(*item) <==> r is Err,
        r is Err ==> r->Err_0 == ResolveError::MalformedCatalogData(item.id),
        r is Ok ==> r->Ok_0@ == child_summary_of(*item),
{
    match select_child_thumbnail(&item.images, &item.id) {
        Ok(thumbnail) => Ok(summarize(item, thumbnail)),
        Err(e) => Err(e),
    }
}

/// Summarises the episodes of a season. The first episode with malformed
/// images aborts the listing with an error that names it.
pub fn child_summaries(episodes: &Vec<MediaItem>) -> (r: Result<Vec<SearchResult>, ResolveError>)
    ensures
        match r {
            Ok(list) => {
                &&& forall|i: int| 0 <= i < episodes@.len() ==> !is_malformed(#[trigger] episodes@[i])
                &&& views_of(list@) == episodes@.map_values(|e: MediaItem| child_summary_of(e))
            },
            Err(error) => exists|i: int|
                {
                    &&& 0 <= i < episodes@.len()
                    &&& is_malformed(#[trigger] episodes@[i])
                    &&& forall|j: int| 0 <= j < i ==> !is_malformed(#[trigger] episodes@[j])
                    &&& error == ResolveError::MalformedCatalogData(episodes@[i].id)
                },
        },
{
    let mut out: Vec<SearchResult> = Vec::new();
    let mut k: usize = 0;
    while k < episodes.len()
        invariant
            0 <= k <= episodes.len(),
            forall|i: int| 0 <= i < k ==> !is_malformed(#[trigger] episodes@[i]),
            views_of(out@) == episodes@.take(k as int).map_values(
                |e: MediaItem| child_summary_of(e),
            ),
        decreases episodes.len() - k,
    {
        let ghost before = out@;
        match child_summary(&episodes[k]) {
            Ok(summary) => {
                out.push(summary);
                proof {
                    assert(views_of(out@) =~= views_of(before).push(summary@));
                    assert(episodes@.take(k as int + 1).map_values(
                        |e: MediaItem| child_summary_of(e),
                    ) =~= episodes@.take(k as int).map_values(
                        |e: MediaItem| child_summary_of(e),
                    ).push(child_summary_of(episodes@[k as int])));
                }
            },
            Err(error) => {
                proof {
                    assert(is_malformed(episodes@[k as int]));
                }
                return Err(error);
            },
        }
        k = k + 1;
    }
    proof {
        assert(episodes@.take(k as int) =~= episodes@);
    }
    Ok(out)
}

} // verus!
