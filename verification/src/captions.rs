//! Caption tracks packaged as self-contained embeddable resources, keyed by
//! the readable name of their locale.

use crate::codec::{base64_of_text, encode_base64, locale_label, readable_locale};
use crate::streams::str_equal;
use vstd::prelude::*;
use vstd::string::StringExecFns;

verus! {

/// The text of one track as fetched, with the locale code it belongs to.
#[derive(Debug, Clone, Default, PartialEq, Eq)]
pub struct FetchedTrack {
    pub locale: String,
    pub body: String,
}

/// One caption entry: a readable label and the resource to play.
#[derive(Debug, Clone, Default, PartialEq, Eq)]
pub struct Caption {
    pub label: String,
    pub resource: String,
}

/// A map from caption label to embeddable resource, kept as an entry list
/// in which no label occurs twice.
#[derive(Debug, Clone, Default, PartialEq, Eq)]
pub struct CaptionMap {
    pub entries: Vec<Caption>,
}

/// The map that an entry list stands for; a later entry replaces an earlier
/// one of the same label.
pub open spec fn entries_map(entries: Seq<Caption>) -> Map<Seq<char>, Seq<char>>
    decreases entries.len(),
{
    if entries.len() == 0 {
        Map::empty()
    } else {
        entries_map(entries.drop_last()).insert(entries.last().label@, entries.last().resource@)
    }
}

/// No label occurs twice in the entry list.
pub open spec fn labels_distinct(entries: Seq<Caption>) -> bool {
    forall|i: int, j: int|
        0 <= i < j < entries.len() ==> (#[trigger] entries[i]).label@ != (
        #[trigger] entries[j]).label@
}

/// A label is a key of the map exactly when some entry carries it.
pub proof fn lemma_entries_map_keys(entries: Seq<Caption>, label: Seq<char>)
    ensures
        entries_map(entries).contains_key(label) <==> exists|i: int|
            0 <= i < entries.len() && (#[trigger] entries[i]).label@ == label,
    decreases entries.len(),
{
    if entries.len() > 0 {
        let front = entries.drop_last();
        lemma_entries_map_keys(front, label);
        if entries_map(entries).contains_key(label) {
            if entries.last().label@ == label {
                assert(entries[entries.len() - 1].label@ == label);
            } else {
                let i = choose|i: int| 0 <= i < front.len() && (#[trigger] front[i]).label@ == label;
                assert(entries[i].label@ == label);
            }
        }
        if exists|i: int| 0 <= i < entries.len() && (#[trigger] entries[i]).label@ == label {
            let i = choose|i: int| 0 <= i < entries.len() && (#[trigger] entries[i]).label@ == label;
            if i < front.len() {
                assert(front[i].label@ == label);
            }
        }
    }
}

/// Where labels are distinct, each entry's label maps to that entry's resource.
pub proof fn lemma_entries_map_value(entries: Seq<Caption>, i: int)
    requires
        labels_distinct(entries),
        0 <= i < entries.len(),
    ensures
        entries_map(entries).contains_key(entries[i].label@),
        entries_map(entries)[entries[i].label@] == entries[i].resource@,
    decreases entries.len(),
{
    let front = entries.drop_last();
    if i < entries.len() - 1 {
        assert(labels_distinct(front)) by {
            assert(forall|a: int| 0 <= a < front.len() ==> front[a] == entries[a]);
        }
        lemma_entries_map_value(front, i);
        assert(entries[i].label@ != entries[entries.len() - 1].label@);
    }
}

/// Replacing the resource of entry `i` is an insertion under its label, and
/// keeps the labels distinct.
pub proof fn lemma_replace_entry(entries: Seq<Caption>, i: int, entry: Caption)
    requires
        labels_distinct(entries),
        0 <= i < entries.len(),
        entry.label@ == entries[i].label@,
    ensures
        labels_distinct(entries.update(i, entry)),
        entries_map(entries.update(i, entry)) == entries_map(entries).insert(
            entry.label@,
            entry.resource@,
        ),
    decreases entries.len(),
{
    let updated = entries.update(i, entry);
    assert(labels_distinct(updated)) by {
        assert forall|a: int, b: int| 0 <= a < b < updated.len() implies (#[trigger] updated[a]).label@
            != (#[trigger] updated[b]).label@ by {
            assert(updated[a].label@ == entries[a].label@);
            assert(updated[b].label@ == entries[b].label@);
        }
    }
    let front = entries.drop_last();
    if i == entries.len() - 1 {
        assert(updated.drop_last() =~= front);
        assert(entries_map(updated) =~= entries_map(entries).insert(entry.label@, entry.resource@));
    } else {
        assert(labels_distinct(front)) by {
            assert(forall|a: int| 0 <= a < front.len() ==> front[a] == entries[a]);
        }
        lemma_replace_entry(front, i, entry);
        assert(updated.drop_last() =~= front.update(i, entry));
        assert(updated.last() == entries.last());
        assert(entries[i].label@ != entries[entries.len() - 1].label@);
        assert(entries_map(updated) =~= entries_map(entries).insert(entry.label@, entry.resource@));
    }
}

impl View for CaptionMap {
    type V = Map<Seq<char>, Seq<char>>;

    open spec fn view(&self) -> Map<Seq<char>, Seq<char>> {
        entries_map(self.entries@)
    }
}

impl CaptionMap {
    /// The invariant of a caption map: no label occurs twice.
    pub open spec fn wf(&self) -> bool {
        labels_distinct(self.entries@)
    }

    /// An empty caption map.
    pub fn new() -> (r: CaptionMap)
        ensures
            r.wf(),
            r@ == Map::<Seq<char>, Seq<char>>::empty(),
    {
        CaptionMap { entries: Vec::new() }
    }

    /// The number of entries.
    pub fn len(&self) -> (r: usize)
        ensures
            r == self.entries@.len(),
    {
        self.entries.len()
    }

    fn position(&self, label: &str) -> (r: Option<usize>)
        ensures
            match r {
                Some(i) => i < self.entries@.len() && self.entries@[i as int].label@ == label@,
                None => forall|j: int|
                    0 <= j < self.entries@.len() ==> (#[trigger] self.entries@[j]).label@ != label@,
            },
    {
        let mut k: usize = 0;
        while k < self.entries.len()
            invariant
                0 <= k <= self.entries.len(),
                forall|j: int| 0 <= j < k ==> (#[trigger] self.entries@[j]).label@ != label@,
            decreases self.entries.len() - k,
        {
            if str_equal(self.entries[k].label.as_str(), label) {
                return Some(k);
            }
            k = k + 1;
        }
        None
    }

    /// The resource stored under `label`, if any.
    pub fn get(&self, label: &str) -> (r: Option<&String>)
        requires
            self.wf(),
        ensures
            match r {
                Some(resource) => self@.contains_key(label@) && resource@ == self@[label@],
                None => !self@.contains_key(label@),
            },
    {
        proof {
            lemma_entries_map_keys(self.entries@, label@);
        }
        match self.position(label) {
            Some(i) => {
                proof {
                    lemma_entries_map_value(self.entries@, i as int);
                }
                Some(&self.entries[i].resource)
            },
            None => None,
        }
    }

    /// Stores `resource` under `label`, replacing what was stored there.
    pub fn insert(&mut self, label: String, resource: String)
        requires
            old(self).wf(),
        ensures
            final(self).wf(),
            final(self)@ == old(self)@.insert(label@, resource@),
            final(self).entries@.len() == old(self).entries@.len() + (if old(self)@.contains_key(
                label@,
            ) {
                0int
            } else {
                1int
            }),
    {
        proof {
            lemma_entries_map_keys(self.entries@, label@);
        }
        let found = self.position(label.as_str());
        let entry = Caption { label, resource };
        match found {
            Some(i) => {
                proof {
                    lemma_replace_entry(self.entries@, i as int, entry);
                }
                self.entries.set(i, entry);
            },
            None => {
                let ghost before = self.entries@;
                self.entries.push(entry);
                proof {
                    assert(self.entries@.drop_last() =~= before);
                }
            },
        }
    }
}

/// The fixed marker that opens every embeddable caption resource.
pub open spec fn caption_marker() -> Seq<char> {
    "data:text/vtt;base64,"@
}

/// The embeddable resource that carries `body`.
pub open spec fn embedded(body: Seq<char>) -> Seq<char> {
    caption_marker() + base64_of_text(body)
}

/// `base` after every track of `tracks` has been stored, in order, under the
/// readable name of its locale.
pub open spec fn with_tracks(base: Map<Seq<char>, Seq<char>>, tracks: Seq<FetchedTrack>) -> Map<
    Seq<char>,
    Seq<char>,
>
    decreases tracks.len(),
{
    if tracks.len() == 0 {
        base
    } else {
        with_tracks(base, tracks.drop_last()).insert(
            locale_label(tracks.last().locale@),
            embedded(tracks.last().body@),
        )
    }
}

/// The caption map of an episode: subtitle tracks first, then closed captions.
pub open spec fn captions_of(subtitles: Seq<FetchedTrack>, closed_captions: Seq<FetchedTrack>) -> Map<
    Seq<char>,
    Seq<char>,
> {
    with_tracks(with_tracks(Map::empty(), subtitles), closed_captions)
}

/// Wraps caption text as a self-contained resource: the caption marker
/// followed by the base64 encoding of the text.
pub fn embed(body: &str) -> (r: String)
    ensures
        r@ == embedded(body@),
{
    let encoded = encode_base64(body);
    String::from_str("data:text/vtt;base64,").concat(encoded.as_str())
}

/// Stores every track of `tracks` into `map`, in order.
pub fn add_tracks(map: &mut CaptionMap, tracks: &Vec<FetchedTrack>)
    requires
        old(map).wf(),
    ensures
        final(map).wf(),
        final(map)@ == with_tracks(old(map)@, tracks@),
{
    let mut k: usize = 0;
    while k < tracks.len()
        invariant
            0 <= k <= tracks.len(),
            map.wf(),
            map@ == with_tracks(old(map)@, tracks@.take(k as int)),
        decreases tracks.len() - k,
    {
        proof {
            assert(tracks@.take(k as int + 1).drop_last() =~= tracks@.take(k as int));
        }
        let label = readable_locale(tracks[k].locale.as_str());
        let resource = embed(tracks[k].body.as_str());
        map.insert(label, resource);
        k = k + 1;
    }
    proof {
        assert(tracks@.take(k as int) =~= tracks@);
    }
}

/// Builds the caption map of an episode from its fetched subtitle tracks and
/// closed-caption tracks. Where both carry the same label, the closed
/// caption is the one that stays.
pub fn collect_captions(subtitles: &Vec<FetchedTrack>, closed_captions: &Vec<FetchedTrack>) -> (r:
    CaptionMap)
    ensures
        r.wf(),
        r@ == captions_of(subtitles@, closed_captions@),
{
    let mut map = CaptionMap::new();
    add_tracks(&mut map, subtitles);
    add_tracks(&mut map, closed_captions);
    map
}

/// Storing tracks on top of `base` gives `base` overridden by what the
/// tracks alone would give.
pub proof fn lemma_with_tracks_overrides(base: Map<Seq<char>, Seq<char>>, tracks: Seq<FetchedTrack>)
    ensures
        with_tracks(base, tracks) == base.union_prefer_right(with_tracks(Map::empty(), tracks)),
    decreases tracks.len(),
{
    if tracks.len() == 0 {
        assert(with_tracks(base, tracks) =~= base.union_prefer_right(
            with_tracks(Map::empty(), tracks),
        ));
    } else {
        lemma_with_tracks_overrides(base, tracks.drop_last());
        assert(with_tracks(base, tracks) =~= base.union_prefer_right(
            with_tracks(Map::empty(), tracks),
        ));
    }
}

/// The caption map holds every label of either collection, and at a label
/// that both carry the closed-caption resource is the one stored.
pub proof fn lemma_closed_captions_take_precedence(
    subtitles: Seq<FetchedTrack>,
    closed_captions: Seq<FetchedTrack>,
)
    ensures
        captions_of(subtitles, closed_captions) == with_tracks(
            Map::empty(),
            subtitles,
        ).union_prefer_right(with_tracks(Map::empty(), closed_captions)),
        captions_of(subtitles, closed_captions).dom() == with_tracks(
            Map::empty(),
            subtitles,
        ).dom().union(with_tracks(Map::empty(), closed_captions).dom()),
        forall|label: Seq<char>| #[trigger]
            with_tracks(Map::empty(), closed_captions).contains_key(label) ==> captions_of(
                subtitles,
                closed_captions,
            )[label] == with_tracks(Map::empty(), closed_captions)[label],
{
    lemma_with_tracks_overrides(with_tracks(Map::empty(), subtitles), closed_captions);
    assert(captions_of(subtitles, closed_captions).dom() =~= with_tracks(
        Map::empty(),
        subtitles,
    ).dom().union(with_tracks(Map::empty(), closed_captions).dom()));
}

/// Two caption maps collected from the same tracks are the same map, with
/// the same key set.
pub proof fn lemma_collection_is_deterministic(
    first: CaptionMap,
    second: CaptionMap,
    subtitles: Seq<FetchedTrack>,
    closed_captions: Seq<FetchedTrack>,
)
    requires
        first@ == captions_of(subtitles, closed_captions),
        second@ == captions_of(subtitles, closed_captions),
    ensures
        first@ == second@,
        first@.dom() == second@.dom(),
{
}

} // verus!
