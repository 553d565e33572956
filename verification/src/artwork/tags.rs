//! Pictures in the tags of audio files, as `lofty` reads them.
use lofty::file::TaggedFileExt;
use lofty::probe::Probe;
use lofty::tag::Tag;
use vstd::prelude::*;

verus! {

/// Pictures of an audio file, tag by tag: those of the primary tag and those of
/// the first tag, where the file has them.
pub ghost struct TagPictures {
    pub primary: Option<Seq<Seq<u8>>>,
    pub first: Option<Seq<Seq<u8>>>,
}

/// Pictures that the tags of an audio file hold; none if it cannot be parsed.
pub uninterp spec fn tagged(bytes: Seq<u8>) -> Option<TagPictures>;

/// Views of a tag's pictures.
pub open spec fn picture_views(pictures: Option<Vec<Vec<u8>>>) -> Option<Seq<Seq<u8>>> {
    match pictures {
        Some(list) => Some(list@.map_values(|p: Vec<u8>| p@)),
        None => None,
    }
}

/// Views of the pictures of an audio file.
pub open spec fn tag_views(
    found: Option<(Option<Vec<Vec<u8>>>, Option<Vec<Vec<u8>>>)>,
) -> Option<TagPictures> {
    match found {
        Some((primary, first)) => Some(
            TagPictures { primary: picture_views(primary), first: picture_views(first) },
        ),
        None => None,
    }
}

/// `lofty::probe::Probe::read` parses an audio file whose type it guesses. Its
/// primary tag is the one that suits the type best, its first tag the one that
/// it found first. The answer depends on the bytes alone as long as no file type
/// is registered with `lofty` and its global options are left alone, as this
/// library does.
#[verifier::external_body]
pub(crate) fn read_tags(bytes: &[u8]) -> (found: Option<
    (Option<Vec<Vec<u8>>>, Option<Vec<Vec<u8>>>),
>)
    ensures
        tag_views(found) == tagged(bytes@),
{
    let pictures = |tag: &Tag| tag.pictures().iter().map(|p| p.data().to_vec()).collect();
    let file = Probe::new(std::io::Cursor::new(bytes)).guess_file_type().ok()?.read().ok()?;
    Some((file.primary_tag().map(pictures), file.first_tag().map(pictures)))
}

} // verus!
