use vstd::prelude::*;

use crate::event::FileRef;

verus! {

/// Whether a text parses as a media type.
pub uninterp spec fn is_media_type(s: Seq<char>) -> bool;

/// Relies on `MediaTypeBuf::from_str` of the mediatype crate, a parse that
/// depends on the text alone.
#[verifier::external_body]
fn parses_as_media_type(s: &str) -> (r: bool)
    ensures
        r == is_media_type(s@),
{
    <mediatype::MediaTypeBuf as std::str::FromStr>::from_str(s).is_ok()
}

/// Every attachment declares a media type that parses.
pub open spec fn all_media_types_parse(files: Seq<FileRef>) -> bool {
    forall|i: int| 0 <= i < files.len() ==> is_media_type(#[trigger] files[i].mimetype@)
}

/// The first attachment whose declared media type does not parse, if any.
/// Materializing a set of attachments fails as a whole when one of them has
/// such a type, so this is checked before anything is downloaded.
pub fn first_unparseable(files: &Vec<FileRef>) -> (r: Option<usize>)
    ensures
        r is None <==> all_media_types_parse(files@),
        r matches Some(k) ==> k < files@.len() && !is_media_type(files@[k as int].mimetype@)
            && forall|j: int| 0 <= j < k ==> is_media_type(#[trigger] files@[j].mimetype@),
{
    let mut i: usize = 0;
    while i < files.len()
        invariant
            i <= files@.len(),
            forall|j: int| 0 <= j < i ==> is_media_type(#[trigger] files@[j].mimetype@),
        decreases files@.len() - i,
    {
        if !parses_as_media_type(files[i].mimetype.as_str()) {
            return Some(i);
        }
        i = i + 1;
    }
    None
}

} // verus!
