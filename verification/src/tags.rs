//! Choice of the cover picture among the pictures of a stream's tags.

use vstd::prelude::*;

verus! {

/// Image type of a picture tag that shows the front cover.
pub const FRONT_COVER: i32 = 3;

/// Image type of a picture tag whose content is not specified.
pub const UNDEFINED_IMAGE: i32 = 1;

/// What the choice of a cover reads of one picture of a tag list.
#[derive(Clone, Copy, Debug, PartialEq, Eq)]
pub struct TagImage {
    /// Whether the picture comes with caps.
    pub has_caps: bool,
    /// The `image-type` field of the caps, where it can be read.
    pub image_type: Option<i32>,
}

/// A picture that is the front cover.
pub open spec fn is_front_cover(image: TagImage) -> bool {
    image.has_caps && image.image_type == Some(FRONT_COVER)
}

/// A picture that may serve as cover when no front cover is present: its type
/// is undefined or unknown.
pub open spec fn is_cover_fallback(image: TagImage) -> bool {
    image.has_caps && (image.image_type == Some(UNDEFINED_IMAGE) || image.image_type is None)
}

/// A front cover where `front` holds, a fallback picture where it does not.
pub open spec fn is_cover_of_kind(image: TagImage, front: bool) -> bool {
    if front {
        is_front_cover(image)
    } else {
        is_cover_fallback(image)
    }
}

/// The first index of `images` at which a picture of the kind `front` stands,
/// if any.
pub open spec fn first_index(images: Seq<TagImage>, front: bool) -> Option<int>
    decreases images.len(),
{
    if images.len() == 0 {
        None
    } else if is_cover_of_kind(images.last(), front) && first_index(images.drop_last(), front) is None {
        Some(images.len() - 1)
    } else {
        first_index(images.drop_last(), front)
    }
}

/// The picture to use as cover: the first front cover; where there is none,
/// the first picture of undefined or unknown type; where there is none
/// either, no picture.
pub open spec fn chosen_cover(images: Seq<TagImage>) -> Option<int> {
    match first_index(images, true) {
        Some(i) => Some(i),
        None => first_index(images, false),
    }
}

/// `first_index` is the least index at which the predicate holds.
pub proof fn lemma_first_index(images: Seq<TagImage>, front: bool)
    ensures
        match first_index(images, front) {
            Some(i) => 0 <= i < images.len() && is_cover_of_kind(images[i], front) && forall|j: int|
                0 <= j < i ==> !is_cover_of_kind(#[trigger] images[j], front),
            None => forall|j: int|
                0 <= j < images.len() ==> !is_cover_of_kind(#[trigger] images[j], front),
        },
    decreases images.len(),
{
    if images.len() > 0 {
        lemma_first_index(images.drop_last(), front);
        assert forall|j: int| 0 <= j < images.len() - 1 implies #[trigger] images[j]
            == images.drop_last()[j] by {}
    }
}

/// A front cover is preferred to any other picture, wherever it stands in the
/// list: where the list holds a front cover, the chosen picture is a front
/// cover, and no front cover comes before it.
pub proof fn lemma_front_cover_wins(images: Seq<TagImage>, j: int)
    requires
        0 <= j < images.len(),
        is_front_cover(images[j]),
    ensures
        chosen_cover(images) matches Some(i) && 0 <= i <= j && is_front_cover(images[i])
            && forall|k: int| 0 <= k < i ==> !is_front_cover(#[trigger] images[k]),
{
    lemma_first_index(images, true);
    assert(is_cover_of_kind(images[j], true));
    if let Some(i) = first_index(images, true) {
        assert forall|k: int| 0 <= k < i implies !is_front_cover(#[trigger] images[k]) by {
            assert(!is_cover_of_kind(images[k], true));
        }
    }
}

/// Without a front cover, the first picture of undefined or unknown type is
/// chosen; without such a picture either, none is.
pub proof fn lemma_fallback_without_front_cover(images: Seq<TagImage>)
    requires
        forall|k: int| 0 <= k < images.len() ==> !is_front_cover(#[trigger] images[k]),
    ensures
        match chosen_cover(images) {
            Some(i) => 0 <= i < images.len() && is_cover_fallback(images[i]) && forall|k: int|
                0 <= k < i ==> !is_cover_fallback(#[trigger] images[k]),
            None => forall|k: int|
                0 <= k < images.len() ==> !is_cover_fallback(#[trigger] images[k]),
        },
{
    lemma_first_index(images, true);
    lemma_first_index(images, false);
    if let Some(i) = first_index(images, true) {
        assert(!is_front_cover(images[i]));
    }
    match first_index(images, false) {
        Some(i) => {
            assert forall|k: int| 0 <= k < i implies !is_cover_fallback(#[trigger] images[k]) by {
                assert(!is_cover_of_kind(images[k], false));
            }
        },
        None => {
            assert forall|k: int| 0 <= k < images.len() implies !is_cover_fallback(
                #[trigger] images[k],
            ) by {
                assert(!is_cover_of_kind(images[k], false));
            }
        },
    }
}

/// The cover chosen among the pictures of a tag list: the first picture
/// with caps whose image type is 3 (front cover); where there is none, the
/// first picture with caps whose image type is 1 (undefined) or cannot be
/// read; where there is none either, no picture. Pictures without caps are
/// never chosen.
pub proof fn lemma_cover_choice(images: Seq<TagImage>)
    ensures
        (exists|j: int|
            0 <= j < images.len() && #[trigger] images[j].has_caps && images[j].image_type == Some(
                3i32,
            )) ==> (chosen_cover(images) matches Some(i) && 0 <= i < images.len()
            && images[i].has_caps && images[i].image_type == Some(3i32) && forall|k: int|
            0 <= k < i ==> !(#[trigger] images[k].has_caps && images[k].image_type == Some(3i32))),
        (forall|j: int|
            0 <= j < images.len() ==> !(#[trigger] images[j].has_caps && images[j].image_type
                == Some(3i32))) && (exists|j: int|
            0 <= j < images.len() && #[trigger] images[j].has_caps && (images[j].image_type == Some(
                1i32,
            ) || images[j].image_type is None)) ==> (chosen_cover(images) matches Some(i) && 0 <= i
            < images.len() && images[i].has_caps && (images[i].image_type == Some(1i32)
            || images[i].image_type is None) && forall|k: int|
            0 <= k < i ==> !(#[trigger] images[k].has_caps && (images[k].image_type == Some(1i32)
                || images[k].image_type is None))),
        (forall|j: int|
            0 <= j < images.len() ==> !(#[trigger] images[j].has_caps && (images[j].image_type
                == Some(3i32) || images[j].image_type == Some(1i32) || images[j].image_type is None)))
            ==> chosen_cover(images) is None,
{
    if exists|j: int|
        0 <= j < images.len() && #[trigger] images[j].has_caps && images[j].image_type == Some(
            3i32,
        ) {
        let j = choose|j: int|
            0 <= j < images.len() && #[trigger] images[j].has_caps && images[j].image_type == Some(
                3i32,
            );
        lemma_front_cover_wins(images, j);
    } else {
        assert forall|k: int| 0 <= k < images.len() implies !is_front_cover(
            #[trigger] images[k],
        ) by {
            if is_front_cover(images[k]) {
                assert(images[k].has_caps && images[k].image_type == Some(3i32));
            }
        }
        lemma_fallback_without_front_cover(images);
        if exists|j: int|
            0 <= j < images.len() && #[trigger] images[j].has_caps && (images[j].image_type == Some(
                1i32,
            ) || images[j].image_type is None) {
            let j = choose|j: int|
                0 <= j < images.len() && #[trigger] images[j].has_caps && (images[j].image_type
                    == Some(1i32) || images[j].image_type is None);
            assert(is_cover_fallback(images[j]));
            match chosen_cover(images) {
                Some(i) => {
                    assert forall|k: int| 0 <= k < i implies !(#[trigger] images[k].has_caps && (
                    images[k].image_type == Some(1i32) || images[k].image_type is None)) by {
                        assert(!is_cover_fallback(images[k]));
                    }
                },
                None => {},
            }
        } else {
            match chosen_cover(images) {
                Some(i) => {
                    assert(is_cover_fallback(images[i]));
                    assert(images[i].has_caps);
                },
                None => {},
            }
        }
    }
}

/// Picks the picture to use as cover among the pictures of one tag list, as
/// `chosen_cover` says: a front cover wins over any other picture, and among
/// pictures of one kind the first wins. Pictures without caps are skipped.
pub fn select_cover(images: &Vec<TagImage>) -> (r: Option<usize>)
    ensures
        match r {
            Some(i) => chosen_cover(images@) == Some(i as int),
            None => chosen_cover(images@) is None,
        },
        (exists|j: int|
            0 <= j < images@.len() && #[trigger] images@[j].has_caps && images@[j].image_type
                == Some(3i32)) ==> (r matches Some(i) && i < images@.len() && images@[i as int].has_caps
            && images@[i as int].image_type == Some(3i32) && forall|k: int|
            0 <= k < i ==> !(#[trigger] images@[k].has_caps && images@[k].image_type == Some(3i32))),
        (forall|j: int|
            0 <= j < images@.len() ==> !(#[trigger] images@[j].has_caps && images@[j].image_type
                == Some(3i32))) && (exists|j: int|
            0 <= j < images@.len() && #[trigger] images@[j].has_caps && (images@[j].image_type
                == Some(1i32) || images@[j].image_type is None)) ==> (r matches Some(i) && i
            < images@.len() && images@[i as int].has_caps && (images@[i as int].image_type == Some(
            1i32,
        ) || images@[i as int].image_type is None) && forall|k: int|
            0 <= k < i ==> !(#[trigger] images@[k].has_caps && (images@[k].image_type == Some(1i32)
                || images@[k].image_type is None))),
        (forall|j: int|
            0 <= j < images@.len() ==> !(#[trigger] images@[j].has_caps && (images@[j].image_type
                == Some(3i32) || images@[j].image_type == Some(1i32)
                || images@[j].image_type is None))) ==> r is None,
{
    proof {
        lemma_cover_choice(images@);
    }
    let mut fallback: Option<usize> = None;
    let mut i: usize = 0;
    while i < images.len()
        invariant
            i <= images.len(),
            first_index(images@.take(i as int), true) is None,
            match fallback {
                Some(f) => first_index(images@.take(i as int), false) == Some(f as int),
                None => first_index(images@.take(i as int), false) is None,
            },
        decreases images.len() - i,
    {
        let image = images[i];
        assert(images@.take(i + 1).drop_last() =~= images@.take(i as int));
        assert(images@.take(i + 1).last() == image);
        if image.has_caps {
            match image.image_type {
                Some(t) if t == FRONT_COVER => {
                    proof {
                        lemma_first_index(images@, true);
                        lemma_first_index(images@.take(i as int), true);
                        if let Some(k) = first_index(images@, true) {
                            if k < i {
                                assert(images@.take(i as int)[k] == images@[k]);
                            }
                            if k > i {
                                assert(is_cover_of_kind(images@[i as int], true));
                            }
                        }
                    }
                    return Some(i);
                },
                _ => {},
            }
            if fallback.is_none() {
                match image.image_type {
                    Some(t) if t == UNDEFINED_IMAGE => {
                        fallback = Some(i);
                    },
                    None => {
                        fallback = Some(i);
                    },
                    _ => {},
                }
            }
        }
        i = i + 1;
    }
    assert(images@.take(images.len() as int) =~= images@);
    fallback
}

} // verus!
