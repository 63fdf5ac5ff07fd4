//! The playlist's image as a data URI.

use crate::text::chars_of;
use vstd::prelude::*;
use vstd::string::*;

verus! {

/// The base64 text of some bytes, in the standard alphabet and with padding.
pub uninterp spec fn base64_standard(bytes: Seq<u8>) -> Seq<char>;

/// `base64::Engine::encode` of `base64::engine::general_purpose::STANDARD`:
/// the text depends on the bytes alone. The call panics only where the
/// length of the text does not fit in a `usize`; no vector is that long.
#[verifier::external_body]
fn base64_encode(bytes: &Vec<u8>) -> (text: String)
    ensures
        text@ == base64_standard(bytes@),
{
    base64::Engine::encode(&base64::engine::general_purpose::STANDARD, bytes)
}

/// The data URI of an image of the given subtype whose bytes have the given
/// base64 text.
pub open spec fn data_uri(subtype: Seq<char>, encoded: Seq<char>) -> Seq<char> {
    "data:image/"@ + subtype + ";base64,"@ + encoded
}

/// Builds the data URI of an image from its subtype and the base64 text of
/// its bytes.
pub fn make_data_uri(subtype: &str, encoded: &str) -> (uri: String)
    ensures
        uri@ == data_uri(subtype@, encoded@),
{
    let mut uri = "data:image/".to_owned();
    uri.append(subtype);
    uri.append(";base64,");
    uri.append(encoded);
    uri
}

/// The data URI of a PNG image.
pub fn encode_base64(bytes: Vec<u8>) -> (uri: String)
    ensures
        uri@ == data_uri("png"@, base64_standard(bytes@)),
{
    let encoded = base64_encode(&bytes);
    make_data_uri("png", encoded.as_str())
}

/// The position of the last dot of a path, or -1 where it has none.
pub open spec fn last_dot(path: Seq<char>) -> int
    decreases path.len(),
{
    if path.len() == 0 {
        -1
    } else if path.last() == '.' {
        path.len() - 1
    } else {
        last_dot(path.drop_last())
    }
}

/// The extension of a path: what follows its last dot. A path without a dot
/// has none.
pub open spec fn extension_of(path: Seq<char>) -> Option<Seq<char>> {
    if last_dot(path) < 0 {
        None
    } else {
        Some(path.subrange(last_dot(path) + 1, path.len() as int))
    }
}

/// The last dot of a path is a dot with no dot after it, and a path without
/// one holds no dot at all.
pub proof fn lemma_last_dot(path: Seq<char>)
    ensures
        -1 <= last_dot(path) < path.len(),
        last_dot(path) >= 0 ==> path[last_dot(path)] == '.',
        forall|i: int| last_dot(path) < i < path.len() ==> path[i] != '.',
    decreases path.len(),
{
    if path.len() > 0 && path.last() != '.' {
        lemma_last_dot(path.drop_last());
        assert forall|i: int| last_dot(path) < i < path.len() implies path[i] != '.' by {
            if i < path.len() - 1 {
                assert(path.drop_last()[i] == path[i]);
            }
        }
    }
}

/// The extension of a path, if it has one.
pub fn image_subtype(path: &str) -> (subtype: Option<String>)
    ensures
        match subtype {
            Some(s) => extension_of(path@) == Some(s@),
            None => extension_of(path@) is None,
        },
{
    let chars = chars_of(path);
    let n = chars.len();
    let mut end: usize = n;
    assert(chars@.subrange(0, n as int) =~= chars@);
    while end > 0 && chars[end - 1] != '.'
        invariant
            end <= n,
            n == chars@.len(),
            last_dot(chars@) == last_dot(chars@.subrange(0, end as int)),
        decreases end,
    {
        assert(chars@.subrange(0, end as int).drop_last() =~= chars@.subrange(0, end - 1));
        end -= 1;
    }
    if end == 0 {
        None
    } else {
        Some(path.substring_char(end, n).to_owned())
    }
}

/// The data URI of an image file, from what was read of it: the bytes with
/// the path's extension as the subtype. It is empty where the file could not
/// be read, and where the path has no extension to take the subtype from.
pub open spec fn file_image(path: Seq<char>, contents: Option<Seq<u8>>) -> Seq<char> {
    match contents {
        None => Seq::empty(),
        Some(bytes) => match extension_of(path) {
            Some(subtype) => data_uri(subtype, base64_standard(bytes)),
            None => Seq::empty(),
        },
    }
}

/// What was read of a file, as plain bytes.
pub open spec fn contents_view(contents: Option<Vec<u8>>) -> Option<Seq<u8>> {
    match contents {
        None => None,
        Some(bytes) => Some(bytes@),
    }
}

/// The data URI of the image file at `path`, from what was read of it:
/// `None` where the file could not be read.
pub fn encode_base64_file(path: &str, contents: Option<Vec<u8>>) -> (uri: String)
    ensures
        uri@ == file_image(path@, contents_view(contents)),
{
    match contents {
        None => String::new(),
        Some(bytes) => match image_subtype(path) {
            Some(subtype) => {
                let encoded = base64_encode(&bytes);
                make_data_uri(subtype.as_str(), encoded.as_str())
            },
            None => String::new(),
        },
    }
}

/// The image of a playlist: the bundled PNG image where no path was
/// entered, else the image file at that path.
pub open spec fn playlist_image(
    image_path: Seq<char>,
    bundled: Seq<u8>,
    contents: Option<Seq<u8>>,
) -> Seq<char> {
    if image_path.len() == 0 {
        data_uri("png"@, base64_standard(bundled))
    } else {
        file_image(image_path, contents)
    }
}

/// Resolves the image of a playlist from the path that was entered, the
/// bundled image, and what was read of the file at that path.
pub fn resolve_image(image_path: &str, bundled: Vec<u8>, contents: Option<Vec<u8>>) -> (uri: String)
    ensures
        uri@ == playlist_image(image_path@, bundled@, contents_view(contents)),
{
    if image_path.is_empty() {
        encode_base64(bundled)
    } else {
        encode_base64_file(image_path, contents)
    }
}

} // verus!
