//! Decoding stored image data and object-store markers.
//!
//! An image is stored either inline, as base64 with an optional
//! `data:<mime>;base64,` header, or in an object store behind a marker
//! `od:s3|<content-type>|<key>`. The codec validates the header, decodes the
//! payload and canonicalizes the content type.

use vstd::prelude::*;

use crate::b64::{b64_decode, b64_decode_of};
use crate::errors::ApiError;
use crate::strutil::{find_char, lemma_first_index_concat, spec_first_index_of, str_eq};

verus! {

/// The bytes and content type of a decoded image.
#[derive(Debug)]
pub struct ImageBytes {
    pub content_type: String,
    pub bytes: Vec<u8>,
}

/// The canonical content type of a recognized mime name; JPEG spellings
/// collapse to one.
pub open spec fn spec_canonical_mime(mime: Seq<char>) -> Option<Seq<char>> {
    if mime == "image/png"@ {
        Some("image/png"@)
    } else if mime == "image/jpeg"@ || mime == "image/jpg"@ {
        Some("image/jpeg"@)
    } else if mime == "image/webp"@ {
        Some("image/webp"@)
    } else {
        None
    }
}

fn canonical_mime(mime: &str) -> (r: Option<String>)
    ensures
        r is Some <==> spec_canonical_mime(mime@) is Some,
        r matches Some(ct) ==> Some(ct@) == spec_canonical_mime(mime@),
{
    if str_eq(mime, "image/png") {
        Some("image/png".to_owned())
    } else if str_eq(mime, "image/jpeg") || str_eq(mime, "image/jpg") {
        Some("image/jpeg".to_owned())
    } else if str_eq(mime, "image/webp") {
        Some("image/webp".to_owned())
    } else {
        None
    }
}

/// Bounds of the first-occurrence index.
pub proof fn lemma_first_index_bounds(s: Seq<char>, c: char)
    ensures
        spec_first_index_of(s, c) == -1 || 0 <= spec_first_index_of(s, c) < s.len(),
        spec_first_index_of(s, c) >= 0 ==> s[spec_first_index_of(s, c)] == c,
    decreases s.len(),
{
    if s.len() > 0 && s[0] != c {
        lemma_first_index_bounds(s.drop_first(), c);
    }
}

/// Whether any `;`-separated segment of `s` is exactly `base64`.
pub open spec fn spec_any_segment_is_base64(s: Seq<char>) -> bool
    decreases s.len(),
    via spec_any_segment_is_base64_decreases
{
    let k = spec_first_index_of(s, ';');
    if k == -1 {
        s == "base64"@
    } else {
        s.subrange(0, k) == "base64"@ || spec_any_segment_is_base64(
            s.subrange(k + 1, s.len() as int),
        )
    }
}

#[via_fn]
proof fn spec_any_segment_is_base64_decreases(s: Seq<char>) {
    lemma_first_index_bounds(s, ';');
}

fn any_segment_is_base64(s: &str) -> (r: bool)
    ensures
        r == spec_any_segment_is_base64(s@),
    decreases s@.len(),
{
    proof {
        lemma_first_index_bounds(s@, ';');
    }
    let n = s.unicode_len();
    match find_char(s, ';') {
        None => str_eq(s, "base64"),
        Some(k) => {
            let head = s.substring_char(0, k);
            if str_eq(head, "base64") {
                true
            } else {
                any_segment_is_base64(s.substring_char(k + 1, n))
            }
        },
    }
}

/// The mime segment of a data URL's metadata: everything up to the first
/// `;`, or all of it.
pub open spec fn spec_mime_of(meta: Seq<char>) -> Seq<char> {
    let k = spec_first_index_of(meta, ';');
    if k == -1 {
        meta
    } else {
        meta.subrange(0, k)
    }
}

/// Whether `s` carries a `data:` header.
pub open spec fn spec_has_data_header(s: Seq<char>) -> bool {
    s.len() >= 5 && s.subrange(0, 5) == "data:"@
}

/// How a stored inline image string is read: with a `data:` header, the
/// metadata before the first comma must carry a `base64` flag and a
/// recognized mime, and the payload follows the comma; without a header the
/// whole string is the payload of a PNG. `None` stands for a malformed
/// header.
pub open spec fn spec_image_data_parts(s: Seq<char>) -> Option<(Seq<char>, Seq<char>)> {
    if spec_has_data_header(s) {
        let d = s.subrange(5, s.len() as int);
        let k = spec_first_index_of(d, ',');
        if k == -1 {
            None
        } else {
            let meta = d.subrange(0, k);
            let payload = d.subrange(k + 1, d.len() as int);
            if !spec_any_segment_is_base64(meta.subrange(
                spec_mime_of(meta).len() as int,
                meta.len() as int,
            )) {
                None
            } else {
                match spec_canonical_mime(spec_mime_of(meta)) {
                    None => None,
                    Some(ct) => Some((ct, payload)),
                }
            }
        }
    } else {
        Some(("image/png"@, s))
    }
}

/// Whether a stored inline image string decodes at all.
pub open spec fn spec_image_data_ok(s: Seq<char>) -> bool {
    match spec_image_data_parts(s) {
        None => false,
        Some(parts) => b64_decode_of(parts.1) is Some,
    }
}

/// Decodes a stored inline image: validates the optional `data:` header and
/// base64-decodes the payload. Rejected input leaves a `BadRequest` with a
/// stable reason.
pub fn decode_image_data(image_data: &str) -> (r: Result<ImageBytes, ApiError>)
    ensures
        r is Ok <==> spec_image_data_ok(image_data@),
        r matches Ok(img) ==> {
            let parts = spec_image_data_parts(image_data@)->0;
            img.content_type@ == parts.0 && Some(img.bytes@) == b64_decode_of(parts.1)
        },
        r matches Err(e) ==> e matches ApiError::BadRequest(m) && m@ == "Invalid image_data"@,
{
    let n = image_data.unicode_len();
    let has_header = n >= 5 && {
        let head = image_data.substring_char(0, 5);
        str_eq(head, "data:")
    };
    proof {
        assert(has_header == spec_has_data_header(image_data@));
    }
    let (content_type, payload): (String, String) = if has_header {
        let d = image_data.substring_char(5, n);
        let dn = d.unicode_len();
        let k = match find_char(d, ',') {
            Some(k) => k,
            None => {
                return Err(ApiError::BadRequest("Invalid image_data".to_owned()));
            },
        };
        let meta = d.substring_char(0, k);
        let payload = d.substring_char(k + 1, dn);
        let mn = meta.unicode_len();
        let mime_end = match find_char(meta, ';') {
            Some(p) => p,
            None => mn,
        };
        let mime = meta.substring_char(0, mime_end);
        proof {
            assert(mime@ == spec_mime_of(meta@));
        }
        let flags = meta.substring_char(mime_end, mn);
        if !any_segment_is_base64(flags) {
            return Err(ApiError::BadRequest("Invalid image_data".to_owned()));
        }
        let ct = match canonical_mime(mime) {
            Some(ct) => ct,
            None => {
                return Err(ApiError::BadRequest("Invalid image_data".to_owned()));
            },
        };
        (ct, payload.to_owned())
    } else {
        ("image/png".to_owned(), image_data.to_owned())
    };
    match b64_decode(payload.as_str()) {
        Some(bytes) => Ok(ImageBytes { content_type, bytes }),
        None => Err(ApiError::BadRequest("Invalid image_data".to_owned())),
    }
}

// ---------------------------------------------------------------------------
// Object-store markers.
// ---------------------------------------------------------------------------

/// How an object-store marker is read: `od:s3|<content-type>|<key>`, with
/// the content type canonicalized and the key everything after the second
/// bar (it may itself contain bars).
pub open spec fn spec_od_s3_marker(s: Seq<char>) -> Option<(Seq<char>, Seq<char>)> {
    if !(s.len() >= 6 && s.subrange(0, 6) == "od:s3|"@) {
        None
    } else {
        let rest = s.subrange(6, s.len() as int);
        let k = spec_first_index_of(rest, '|');
        if k == -1 {
            None
        } else {
            match spec_canonical_mime(rest.subrange(0, k)) {
                None => None,
                Some(ct) => Some((ct, rest.subrange(k + 1, rest.len() as int))),
            }
        }
    }
}

/// Reads an object-store marker: the canonical content type and the object
/// key, or nothing for a string that is no such marker.
pub fn parse_od_s3_marker(image_data: &str) -> (r: Option<(String, String)>)
    ensures
        r is Some <==> spec_od_s3_marker(image_data@) is Some,
        r matches Some(p) ==> Some((p.0@, p.1@)) == spec_od_s3_marker(image_data@),
{
    let n = image_data.unicode_len();
    let has_marker = n >= 6 && {
        let head = image_data.substring_char(0, 6);
        str_eq(head, "od:s3|")
    };
    if !has_marker {
        return None;
    }
    let rest = image_data.substring_char(6, n);
    let rn = rest.unicode_len();
    let k = match find_char(rest, '|') {
        Some(k) => k,
        None => {
            return None;
        },
    };
    let mime = rest.substring_char(0, k);
    let key = rest.substring_char(k + 1, rn);
    match canonical_mime(mime) {
        Some(ct) => Some((ct, key.to_owned())),
        None => None,
    }
}

/// Builds the object-store marker for a content type and key.
pub fn make_od_s3_marker(content_type: &str, key: &str) -> (r: String)
    ensures
        r@ == "od:s3|"@ + content_type@ + "|"@ + key@,
{
    let mut marker = String::new();
    marker.append("od:s3|");
    marker.append(content_type);
    marker.append("|");
    marker.append(key);
    proof {
        assert(marker@ =~= "od:s3|"@ + content_type@ + "|"@ + key@);
    }
    marker
}

/// The file extension for a canonical content type.
pub open spec fn spec_ext_of(content_type: Seq<char>) -> Option<Seq<char>> {
    if content_type == "image/png"@ {
        Some("png"@)
    } else if content_type == "image/jpeg"@ {
        Some("jpg"@)
    } else if content_type == "image/webp"@ {
        Some("webp"@)
    } else {
        None
    }
}

/// The file extension used when storing an image of a canonical content
/// type; anything else is rejected.
pub fn ext_from_content_type(content_type: &str) -> (r: Result<String, ApiError>)
    ensures
        r is Ok <==> spec_ext_of(content_type@) is Some,
        r matches Ok(ext) ==> Some(ext@) == spec_ext_of(content_type@),
        r matches Err(e) ==> e matches ApiError::BadRequest(m) && m@ == "Invalid image_data"@,
{
    if str_eq(content_type, "image/png") {
        Ok("png".to_owned())
    } else if str_eq(content_type, "image/jpeg") {
        Ok("jpg".to_owned())
    } else if str_eq(content_type, "image/webp") {
        Ok("webp".to_owned())
    } else {
        Err(ApiError::BadRequest("Invalid image_data".to_owned()))
    }
}

/// A marker built from a canonical content type is read back as exactly that
/// content type and key.
pub proof fn lemma_od_s3_marker_round_trip(content_type: Seq<char>, key: Seq<char>)
    requires
        spec_canonical_mime(content_type) == Some(content_type),
    ensures
        spec_od_s3_marker("od:s3|"@ + content_type + "|"@ + key) == Some((content_type, key)),
{
    let s = "od:s3|"@ + content_type + "|"@ + key;
    reveal_strlit("od:s3|");
    reveal_strlit("|");
    reveal_strlit("image/png");
    reveal_strlit("image/jpeg");
    reveal_strlit("image/webp");
    assert(s.subrange(0, 6) =~= "od:s3|"@);
    let rest = s.subrange(6, s.len() as int);
    assert(rest =~= content_type + "|"@ + key);
    assert("|"@ =~= seq!['|']);
    assert forall|j: int| 0 <= j < content_type.len() implies content_type[j] != '|' by {
        if content_type == "image/png"@ {
        } else if content_type == "image/jpeg"@ {
        } else {
            assert(content_type == "image/webp"@);
        }
    }
    assert(content_type + "|"@ + key =~= content_type + seq!['|'] + key);
    lemma_first_index_concat(content_type, key, '|');
    assert(spec_first_index_of(rest, '|') == content_type.len());
    assert(rest.subrange(0, content_type.len() as int) =~= content_type);
    assert(rest.subrange(content_type.len() as int + 1, rest.len() as int) =~= key);
}

} // verus!
