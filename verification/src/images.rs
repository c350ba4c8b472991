//! Deterministic thumbnail selection from multi-tier, multi-resolution image sets.

use crate::error::ResolveError;
use vstd::prelude::*;
use vstd::string::StringExecFns;

verus! {

/// One resolution variant of an image.
#[derive(Debug, Clone, PartialEq, Eq)]
pub struct ImageVariant {
    pub source: String,
    pub height: u32,
    pub width: u32,
}

/// The image categories a catalog object may carry. Each category is a
/// sequence of image sets; each image set is a sequence of resolution variants.
#[derive(Debug, Clone, PartialEq, Eq)]
pub struct ImageBundle {
    pub thumbnail: Option<Vec<Vec<ImageVariant>>>,
    pub poster_wide: Option<Vec<Vec<ImageVariant>>>,
    pub promo_image: Option<Vec<Vec<ImageVariant>>>,
    pub poster_tall: Option<Vec<Vec<ImageVariant>>>,
}

/// `i` is the position of the first variant of maximal height in `set`.
pub open spec fn is_first_tallest(set: Seq<ImageVariant>, i: int) -> bool {
    &&& 0 <= i < set.len()
    &&& forall|j: int| 0 <= j < set.len() ==> set[j].height <= set[i].height
    &&& forall|j: int| 0 <= j < i ==> set[j].height < set[i].height
}

/// Position of the first variant of maximal height; 0 for an empty set.
pub open spec fn tallest_index(set: Seq<ImageVariant>) -> int
    decreases set.len(),
{
    if set.len() <= 1 {
        0
    } else {
        let rest = tallest_index(set.drop_last());
        if set.last().height > set[rest].height {
            set.len() - 1
        } else {
            rest
        }
    }
}

/// The source chosen from one image set: that of its first tallest variant,
/// or the empty string where the set holds no variant.
pub open spec fn selected_source(set: Seq<ImageVariant>) -> Seq<char> {
    if set.len() == 0 {
        Seq::<char>::empty()
    } else {
        set[tallest_index(set)].source@
    }
}

/// On a non-empty set, `tallest_index` is the first position of maximal height.
pub proof fn lemma_tallest_index_is_first_tallest(set: Seq<ImageVariant>)
    requires
        set.len() > 0,
    ensures
        is_first_tallest(set, tallest_index(set)),
    decreases set.len(),
{
    if set.len() > 1 {
        let front = set.drop_last();
        lemma_tallest_index_is_first_tallest(front);
        let rest = tallest_index(front);
        assert(forall|j: int| 0 <= j < front.len() ==> front[j] == set[j]);
        assert(forall|j: int| 0 <= j < front.len() ==> set[j].height <= set[rest].height) by {
            assert(forall|j: int| 0 <= j < front.len() ==> front[j].height <= front[rest].height);
        }
        assert(forall|j: int| 0 <= j < rest ==> set[j].height < set[rest].height) by {
            assert(forall|j: int| 0 <= j < rest ==> front[j].height < front[rest].height);
        }
    }
}

/// At most one position is the first of maximal height.
pub proof fn lemma_first_tallest_unique(set: Seq<ImageVariant>, i: int, j: int)
    requires
        is_first_tallest(set, i),
        is_first_tallest(set, j),
    ensures
        i == j,
{
    if i < j {
        assert(set[i].height < set[j].height);
        assert(set[j].height <= set[i].height);
    } else if j < i {
        assert(set[j].height < set[i].height);
        assert(set[i].height <= set[j].height);
    }
}

/// Finds the first variant of maximal height in an image set.
pub fn tallest_variant(set: &Vec<ImageVariant>) -> (r: Option<usize>)
    ensures
        r is None <==> set@.len() == 0,
        r is Some ==> r.unwrap() == tallest_index(set@) && is_first_tallest(set@, r.unwrap() as int),
{
    if set.len() == 0 {
        return None;
    }
    let mut best: usize = 0;
    let mut k: usize = 1;
    while k < set.len()
        invariant
            1 <= k <= set.len(),
            0 <= best < k,
            is_first_tallest(set@.subrange(0, k as int), best as int),
        decreases set.len() - k,
    {
        proof {
            let before = set@.subrange(0, k as int);
            let after = set@.subrange(0, k as int + 1);
            assert(forall|j: int| 0 <= j < k ==> before[j] == after[j]);
            assert(forall|j: int| 0 <= j < k ==> after[j].height <= after[best as int].height) by {
                assert(forall|j: int| 0 <= j < k ==> before[j].height <= before[best as int].height);
            }
            assert(forall|j: int| 0 <= j < best ==> after[j].height < after[best as int].height) by {
                assert(forall|j: int| 0 <= j < best ==> before[j].height < before[best as int].height);
            }
        }
        if set[k].height > set[best].height {
            best = k;
        }
        k = k + 1;
    }
    proof {
        assert(set@.subrange(0, k as int) =~= set@);
        lemma_tallest_index_is_first_tallest(set@);
        lemma_first_tallest_unique(set@, best as int, tallest_index(set@));
    }
    Some(best)
}

/// The source of the first tallest variant of an image set.
pub fn select_source(set: &Vec<ImageVariant>) -> (r: String)
    ensures
        r@ == selected_source(set@),
{
    match tallest_variant(set) {
        None => String::new(),
        Some(i) => set[i].source.clone(),
    }
}

/// A category counts as present when it is given and holds at least one image set.
pub open spec fn category_present(category: Option<Vec<Vec<ImageVariant>>>) -> bool {
    category is Some && category.unwrap()@.len() > 0
}

/// The first present category in the fixed priority order: thumbnail, wide
/// poster, promotional image, tall poster.
pub open spec fn winning_category(bundle: ImageBundle) -> Option<Vec<Vec<ImageVariant>>> {
    if category_present(bundle.thumbnail) {
        bundle.thumbnail
    } else if category_present(bundle.poster_wide) {
        bundle.poster_wide
    } else if category_present(bundle.promo_image) {
        bundle.promo_image
    } else if category_present(bundle.poster_tall) {
        bundle.poster_tall
    } else {
        None
    }
}

/// Whether any of the four categories is present.
pub open spec fn any_category_present(bundle: ImageBundle) -> bool {
    category_present(bundle.thumbnail) || category_present(bundle.poster_wide)
        || category_present(bundle.promo_image) || category_present(bundle.poster_tall)
}

/// The thumbnail chosen for an optional image bundle: the selection of the
/// first image set of the winning category, or the empty string where no
/// bundle or no category is present.
pub open spec fn thumbnail_of(images: Option<ImageBundle>) -> Seq<char> {
    match images {
        None => Seq::<char>::empty(),
        Some(bundle) => match winning_category(bundle) {
            None => Seq::<char>::empty(),
            Some(sets) => selected_source(sets@[0]@),
        },
    }
}

fn present(category: &Option<Vec<Vec<ImageVariant>>>) -> (r: bool)
    ensures
        r == category_present(*category),
{
    match category {
        None => false,
        Some(sets) => sets.len() > 0,
    }
}

/// Picks the winning category of a bundle.
pub fn pick_category(bundle: &ImageBundle) -> (r: &Option<Vec<Vec<ImageVariant>>>)
    ensures
        winning_category(*bundle) is Some ==> *r == winning_category(*bundle),
        winning_category(*bundle) is None ==> !category_present(*r),
        category_present(*r) == any_category_present(*bundle),
{
    if present(&bundle.thumbnail) {
        &bundle.thumbnail
    } else if present(&bundle.poster_wide) {
        &bundle.poster_wide
    } else if present(&bundle.promo_image) {
        &bundle.promo_image
    } else {
        &bundle.poster_tall
    }
}

/// Chooses the thumbnail for a catalog object. Never fails: where nothing
/// usable is present the result is the empty string.
pub fn select_thumbnail(images: &Option<ImageBundle>) -> (r: String)
    ensures
        r@ == thumbnail_of(*images),
        images is None || !any_category_present(images.unwrap()) ==> r@.len() == 0,
{
    match images {
        None => String::new(),
        Some(bundle) => {
            let category = pick_category(bundle);
            match category {
                None => String::new(),
                Some(sets) => {
                    if sets.len() == 0 {
                        String::new()
                    } else {
                        select_source(&sets[0])
                    }
                },
            }
        },
    }
}

/// The thumbnail is empty exactly when no category is present, provided the
/// selected variant itself carries a non-empty source.
pub proof fn lemma_thumbnail_empty_iff_absent(images: Option<ImageBundle>)
    requires
        images is Some && winning_category(images.unwrap()) is Some ==> {
            let first = winning_category(images.unwrap()).unwrap()@[0]@;
            first.len() > 0 && first[tallest_index(first)].source@.len() > 0
        },
    ensures
        thumbnail_of(images).len() == 0 <==> (images is None || !any_category_present(
            images.unwrap(),
        )),
{
}

/// The selected source of a non-empty image set belongs to a variant of
/// maximal height, and no earlier variant is as tall.
pub proof fn lemma_selected_source_is_first_tallest(set: Seq<ImageVariant>)
    requires
        set.len() > 0,
    ensures
        exists|i: int| is_first_tallest(set, i) && selected_source(set) == set[i].source@,
{
    lemma_tallest_index_is_first_tallest(set);
    assert(is_first_tallest(set, tallest_index(set)) && selected_source(set) == set[tallest_index(
        set,
    )].source@);
}

/// The selections of every image set of a category, joined by single spaces.
pub open spec fn joined_sources(sets: Seq<Vec<ImageVariant>>) -> Seq<char>
    decreases sets.len(),
{
    if sets.len() == 0 {
        Seq::<char>::empty()
    } else if sets.len() == 1 {
        selected_source(sets[0]@)
    } else {
        joined_sources(sets.drop_last()) + seq![' '] + selected_source(sets.last()@)
    }
}

/// The tall-poster text of an optional bundle: the joined selections of the
/// tall-poster category, or the empty string where it is not present.
pub open spec fn tall_poster_of(images: Option<ImageBundle>) -> Seq<char> {
    match images {
        None => Seq::<char>::empty(),
        Some(bundle) => if category_present(bundle.poster_tall) {
            joined_sources(bundle.poster_tall.unwrap()@)
        } else {
            Seq::<char>::empty()
        },
    }
}

/// Joins the selection of every tall-poster image set with a space separator.
pub fn join_tall_posters(images: &Option<ImageBundle>) -> (r: String)
    ensures
        r@ == tall_poster_of(*images),
{
    match images {
        None => String::new(),
        Some(bundle) => match &bundle.poster_tall {
            None => String::new(),
            Some(sets) => {
                let mut joined = String::new();
                let mut k: usize = 0;
                while k < sets.len()
                    invariant
                        0 <= k <= sets.len(),
                        joined@ == joined_sources(sets@.subrange(0, k as int)),
                    decreases sets.len() - k,
                {
                    proof {
                        let next = sets@.subrange(0, k as int + 1);
                        assert(next.drop_last() =~= sets@.subrange(0, k as int));
                        assert(next.last() == sets@[k as int]);
                        assert(next[0] == sets@[0]);
                    }
                    if k > 0 {
                        joined.append(" ");
                        proof {
                            reveal_strlit(" ");
                            assert(" "@ =~= seq![' ']);
                        }
                    }
                    let source = select_source(&sets[k]);
                    joined.append(source.as_str());
                    k = k + 1;
                }
                proof {
                    assert(sets@.subrange(0, k as int) =~= sets@);
                }
                joined
            },
        },
    }
}

/// The thumbnail of a listed child: as `thumbnail_of`, except that a bundle
/// which is given but holds no present category is an error naming `id`.
pub open spec fn child_thumbnail_of(images: Option<ImageBundle>, id: String) -> Result<
    Seq<char>,
    ResolveError,
> {
    match images {
        None => Ok(Seq::<char>::empty()),
        Some(bundle) => if any_category_present(bundle) {
            Ok(thumbnail_of(images))
        } else {
            Err(ResolveError::MalformedCatalogData(id))
        },
    }
}

/// Chooses the thumbnail of a listed child, failing where a bundle is given
/// without any present category.
pub fn select_child_thumbnail(images: &Option<ImageBundle>, id: &String) -> (r: Result<
    String,
    ResolveError,
>)
    ensures
        match child_thumbnail_of(*images, *id) {
            Ok(text) => r is Ok && r->Ok_0@ == text,
            Err(e) => r == Err::<String, ResolveError>(e),
        },
{
    match images {
        None => Ok(String::new()),
        Some(bundle) => {
            let category = pick_category(bundle);
            if present(category) {
                Ok(select_thumbnail(images))
            } else {
                Err(ResolveError::MalformedCatalogData(id.clone()))
            }
        },
    }
}

} // verus!
