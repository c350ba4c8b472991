//! The locale-keyed variant map of an episode and the choice of its playback URL.

use crate::error::{ErrorView, ResolveError};
use vstd::prelude::*;
use vstd::string::StringExecFns;

verus! {

/// A subtitle or closed-caption track as the remote service announces it.
#[derive(Debug, Clone, Default, PartialEq, Eq)]
pub struct Sub {
    pub locale: String,
    pub url: String,
    pub format: String,
}

/// One technical playback variant.
#[derive(Debug, Clone, Default, PartialEq, Eq)]
pub struct Strems {
    pub hardsub_locale: String,
    pub url: String,
    pub vcodec: String,
}

/// Quality-of-service details attached to a playback response.
#[allow(non_snake_case)]
#[derive(Debug, Clone, Default, PartialEq, Eq)]
pub struct Qos {
    pub region: String,
    pub cloudFrontRequestId: String,
    pub lambdaRunTime: i32,
}

/// The playback response of one episode. Each keyed collection is an entry
/// list in which the first entry of a key is the one that counts.
#[allow(non_snake_case)]
#[derive(Debug, Clone, Default, PartialEq, Eq)]
pub struct PlayResult {
    pub audio_locale: String,
    pub subtitles: Vec<(String, Sub)>,
    pub streams: Vec<(String, Vec<(String, Strems)>)>,
    pub QoS: Qos,
}

/// What the remote service announces for one episode: its playback response
/// and, beside it, the closed-caption tracks keyed by locale.
#[derive(Debug, Clone, Default, PartialEq, Eq)]
pub struct StreamSet {
    pub play: PlayResult,
    pub closed_captions: Vec<(String, Sub)>,
}

/// The name under which a locale holds its adaptive-streaming variant.
pub open spec fn adaptive_variant_name() -> Seq<char> {
    "adaptive_hls"@
}

/// Position of the first entry stored under `key`, if there is one.
pub open spec fn position_of<V>(entries: Seq<(String, V)>, key: Seq<char>) -> Option<int>
    decreases entries.len(),
{
    if entries.len() == 0 {
        None
    } else if entries[0].0@ == key {
        Some(0)
    } else {
        match position_of(entries.drop_first(), key) {
            Some(i) => Some(i + 1),
            None => None,
        }
    }
}

/// `position_of` finds an entry of the key, and none lies before it; it
/// finds nothing exactly when no entry has the key.
pub proof fn lemma_position_of<V>(entries: Seq<(String, V)>, key: Seq<char>)
    ensures
        match position_of(entries, key) {
            Some(i) => {
                &&& 0 <= i < entries.len()
                &&& entries[i].0@ == key
                &&& forall|j: int| 0 <= j < i ==> (#[trigger] entries[j]).0@ != key
            },
            None => forall|j: int| 0 <= j < entries.len() ==> (#[trigger] entries[j]).0@ != key,
        },
    decreases entries.len(),
{
    if entries.len() > 0 && entries[0].0@ != key {
        let rest = entries.drop_first();
        lemma_position_of(rest, key);
        assert(forall|j: int| 0 <= j < rest.len() ==> rest[j] == entries[j + 1]);
        match position_of(rest, key) {
            Some(i) => {
                assert forall|j: int| 0 <= j < i + 1 implies (#[trigger] entries[j]).0@ != key by {
                    if j > 0 {
                        assert(rest[j - 1] == entries[j]);
                    }
                }
            },
            None => {
                assert forall|j: int| 0 <= j < entries.len() implies (#[trigger] entries[j]).0@
                    != key by {
                    if j > 0 {
                        assert(rest[j - 1] == entries[j]);
                    }
                }
            },
        }
    }
}

/// Finds the first entry stored under `key`.
pub fn find_entry<V>(entries: &Vec<(String, V)>, key: &str) -> (r: Option<usize>)
    ensures
        match r {
            Some(i) => {
                &&& position_of(entries@, key@) == Some(i as int)
                &&& i < entries@.len()
                &&& entries@[i as int].0@ == key@
            },
            None => position_of(entries@, key@) is None,
        },
{
    let mut k: usize = 0;
    while k < entries.len()
        invariant
            0 <= k <= entries.len(),
            forall|j: int| 0 <= j < k ==> (#[trigger] entries@[j]).0@ != key@,
        decreases entries.len() - k,
    {
        if str_equal(entries[k].0.as_str(), key) {
            proof {
                lemma_position_of(entries@, key@);
            }
            return Some(k);
        }
        k = k + 1;
    }
    proof {
        lemma_position_of(entries@, key@);
    }
    None
}

/// Whether two string slices hold the same text.
pub fn str_equal(a: &str, b: &str) -> (r: bool)
    ensures
        r == (a@ == b@),
{
    let left = String::from_str(a);
    let right = String::from_str(b);
    left == right
}

/// The playback URL for `locale`: the URL of the adaptive-streaming variant
/// of the first entry stored under exactly that locale.
pub open spec fn playback_url_of(play: PlayResult, locale: Seq<char>) -> Result<
    Seq<char>,
    ErrorView,
> {
    match position_of(play.streams@, locale) {
        None => Err(ErrorView::NotFound),
        Some(i) => {
            let variants = play.streams@[i].1@;
            match position_of(variants, adaptive_variant_name()) {
                None => Err(ErrorView::MalformedCatalogData(locale)),
                Some(j) => Ok(variants[j].1.url@),
            }
        },
    }
}

/// Extracts the adaptive-streaming URL for the requested locale. A locale
/// without an entry is `NotFound`; no other locale is ever consulted.
pub fn resolve_playback_url(play: &PlayResult, locale: &str) -> (r: Result<String, ResolveError>)
    ensures
        match playback_url_of(*play, locale@) {
            Ok(url) => r is Ok && r->Ok_0@ == url,
            Err(e) => r is Err && r->Err_0@ == e,
        },
{
    match find_entry(&play.streams, locale) {
        None => Err(ResolveError::NotFound),
        Some(i) => {
            let variants = &play.streams[i].1;
            proof {
                reveal_strlit("adaptive_hls");
            }
            match find_entry(variants, "adaptive_hls") {
                None => Err(ResolveError::MalformedCatalogData(String::from_str(locale))),
                Some(j) => Ok(variants[j].1.url.clone()),
            }
        },
    }
}

/// A locale absent from the variant map is `NotFound`, and a URL that is
/// returned always comes from an entry stored under the requested locale.
pub proof fn lemma_no_locale_fallback(play: PlayResult, locale: Seq<char>)
    ensures
        (forall|i: int| 0 <= i < play.streams@.len() ==> (#[trigger] play.streams@[i]).0@ != locale)
            ==> playback_url_of(play, locale) == Err::<Seq<char>, ErrorView>(ErrorView::NotFound),
        playback_url_of(play, locale) is Ok ==> exists|i: int, j: int|
            {
                &&& 0 <= i < play.streams@.len()
                &&& (#[trigger] play.streams@[i]).0@ == locale
                &&& 0 <= j < play.streams@[i].1@.len()
                &&& (#[trigger] play.streams@[i].1@[j]).0@ == adaptive_variant_name()
                &&& playback_url_of(play, locale) == Ok::<Seq<char>, ErrorView>(
                    play.streams@[i].1@[j].1.url@,
                )
            },
{
    lemma_position_of(play.streams@, locale);
    if let Some(i) = position_of(play.streams@, locale) {
        let variants = play.streams@[i].1@;
        lemma_position_of(variants, adaptive_variant_name());
        if let Some(j) = position_of(variants, adaptive_variant_name()) {
            assert(play.streams@[i].0@ == locale && play.streams@[i].1@[j].0@
                == adaptive_variant_name());
        }
    }
}

} // verus!
