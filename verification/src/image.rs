//! Derivation of a CDN image URL from a product identifier and the optional
//! per-locale image metadata of an import record.
//!
//! The identifier (the trade barcode) is reformatted into the image store's
//! path convention, grouping its leading digits: identifiers longer than nine
//! characters get separators after positions 3, 6 and 9; identifiers of length
//! nine get separators after positions 3 and 6; shorter identifiers are used
//! unsegmented. The image id is taken from the German-locale metadata entry
//! first, then the English one, with the literal `1` as the default.

use vstd::prelude::*;
use vstd::string::*;
use crate::text::{strip_quotes, strip_quotes_spec};
use crate::values::{dec_digits, u64_to_dec_string, RawValue};

verus! {

/// The optional image-id value of one locale's metadata entry.
pub struct ImageData {
    pub imgid: Option<RawValue>,
}

/// Per-locale image metadata of an import record.
pub struct ImageType {
    pub front_de: Option<ImageData>,
    pub front_en: Option<ImageData>,
}

/// The identifier reformatted into the image store's path convention.
pub open spec fn segmented_spec(s: Seq<char>) -> Seq<char> {
    if s.len() > 9 {
        s.subrange(0, 3) + seq!['/'] + s.subrange(3, 6) + seq!['/'] + s.subrange(6, 9) + seq!['/']
            + s.skip(9)
    } else if s.len() > 8 {
        s.subrange(0, 3) + seq!['/'] + s.subrange(3, 6) + seq!['/'] + s.skip(6)
    } else {
        s
    }
}

/// The image-id value selected from the metadata: the German entry wins,
/// then the English one; with no entry there is no selection.
pub open spec fn selected_imgid(images: Option<ImageType>) -> Option<RawValue> {
    match images {
        Option::None => Option::None,
        Option::Some(it) => {
            if it.front_de is Some {
                it.front_de->0.imgid
            } else if it.front_en is Some {
                it.front_en->0.imgid
            } else {
                Option::None
            }
        },
    }
}

/// The selected image-id value coerced to a path segment: a missing
/// selection and unexpected shapes default to `1`, text is used with its
/// quote characters stripped, an unsigned number is rendered in base 10, and
/// a numeric value that is not an unsigned integer yields no image at all.
pub open spec fn image_id_string_spec(sel: Option<RawValue>) -> Option<Seq<char>> {
    match sel {
        Option::None => Option::Some("1"@),
        Option::Some(RawValue::Text(s)) => Option::Some(strip_quotes_spec(s@)),
        Option::Some(RawValue::Int(n)) => Option::Some(dec_digits(n as nat)),
        Option::Some(RawValue::Decimal(_)) => Option::None,
        Option::Some(RawValue::Other) => Option::Some("1"@),
    }
}

/// The resolved front-image URL: absent when the identifier is absent or the
/// selected image id is numeric but not an unsigned integer; otherwise the
/// fixed base, the segmented identifier and the image id composed into one
/// URL.
pub open spec fn front_image_spec(id: Option<String>, images: Option<ImageType>) -> Option<
    Seq<char>,
> {
    match id {
        Option::None => Option::None,
        Option::Some(pid) => {
            match image_id_string_spec(selected_imgid(images)) {
                Option::None => Option::None,
                Option::Some(img) => Option::Some(
                    "https://openfoodfacts-images.s3.eu-west-3.amazonaws.com/data/"@
                        + segmented_spec(pid@) + seq!['/'] + img + ".400.jpg"@,
                ),
            }
        },
    }
}

/// The fixed base of every resolved image URL.
pub fn image_base() -> (r: &'static str)
    ensures
        r@ == "https://openfoodfacts-images.s3.eu-west-3.amazonaws.com/data/"@,
{
    "https://openfoodfacts-images.s3.eu-west-3.amazonaws.com/data/"
}

/// Reformats an identifier into the image store's path convention.
pub fn segment_identifier(s: &str) -> (r: String)
    ensures
        r@ == segmented_spec(s@),
{
    let n = s.unicode_len();
    if n > 9 {
        let mut out = s.substring_char(0, 3).to_owned();
        out.append("/");
        out.append(s.substring_char(3, 6));
        out.append("/");
        out.append(s.substring_char(6, 9));
        out.append("/");
        out.append(s.substring_char(9, n));
        proof {
            reveal_strlit("/");
            assert(out@ =~= segmented_spec(s@));
        }
        out
    } else if n > 8 {
        let mut out = s.substring_char(0, 3).to_owned();
        out.append("/");
        out.append(s.substring_char(3, 6));
        out.append("/");
        out.append(s.substring_char(6, n));
        proof {
            reveal_strlit("/");
            assert(out@ =~= segmented_spec(s@));
        }
        out
    } else {
        s.to_owned()
    }
}

fn imgid_string(v: &Option<RawValue>) -> (r: Option<String>)
    ensures
        r.deep_view() == image_id_string_spec(*v),
{
    match v {
        Option::None => Option::Some("1".to_owned()),
        Option::Some(RawValue::Text(s)) => Option::Some(strip_quotes(s.as_str())),
        Option::Some(RawValue::Int(n)) => Option::Some(u64_to_dec_string(*n)),
        Option::Some(RawValue::Decimal(_)) => Option::None,
        Option::Some(RawValue::Other) => Option::Some("1".to_owned()),
    }
}

fn image_id_of(images: &Option<ImageType>) -> (r: Option<String>)
    ensures
        r.deep_view() == image_id_string_spec(selected_imgid(*images)),
{
    match images {
        Option::None => Option::Some("1".to_owned()),
        Option::Some(it) => {
            match &it.front_de {
                Option::Some(d) => imgid_string(&d.imgid),
                Option::None => {
                    match &it.front_en {
                        Option::Some(e) => imgid_string(&e.imgid),
                        Option::None => Option::Some("1".to_owned()),
                    }
                },
            }
        },
    }
}

/// Resolves the front-image URL of a record from its identifier and image
/// metadata; absent exactly when the identifier is absent or the selected
/// image id is numeric but not an unsigned integer.
pub fn resolve_front_image(product: &Option<String>, images: &Option<ImageType>) -> (r: Option<
    String,
>)
    ensures
        r.deep_view() == front_image_spec(*product, *images),
{
    match product {
        Option::None => Option::None,
        Option::Some(pid) => {
            match image_id_of(images) {
                Option::None => Option::None,
                Option::Some(img) => {
                    let mut url = image_base().to_owned();
                    let seg = segment_identifier(pid.as_str());
                    url.append(seg.as_str());
                    url.append("/");
                    url.append(img.as_str());
                    url.append(".400.jpg");
                    proof {
                        reveal_strlit("/");
                        assert(url@ =~= "https://openfoodfacts-images.s3.eu-west-3.amazonaws.com/data/"@
                            + segmented_spec(pid@) + seq!['/'] + img@ + ".400.jpg"@);
                    }
                    Option::Some(url)
                },
            }
        },
    }
}

/// Identifiers of length at most eight are not segmented at all: on them the
/// path segmentation is the identity function, by construction.
pub proof fn lemma_segment_short_identity(s: Seq<char>)
    requires
        s.len() <= 8,
    ensures
        segmented_spec(s) == s,
{
}

/// Identifiers of length nine receive exactly two separators, after
/// positions 3 and 6: the result keeps the identifier's characters in their
/// three groups and is two characters longer.
pub proof fn lemma_segment_two_separators(s: Seq<char>)
    requires
        8 < s.len() <= 9,
    ensures
        segmented_spec(s).len() == s.len() + 2,
        segmented_spec(s)[3] == '/',
        segmented_spec(s)[7] == '/',
        segmented_spec(s).subrange(0, 3) == s.subrange(0, 3),
        segmented_spec(s).subrange(4, 7) == s.subrange(3, 6),
        segmented_spec(s).subrange(8, s.len() as int + 2) == s.subrange(6, s.len() as int),
{
    assert(segmented_spec(s).subrange(0, 3) =~= s.subrange(0, 3));
    assert(segmented_spec(s).subrange(4, 7) =~= s.subrange(3, 6));
    assert(segmented_spec(s).subrange(8, s.len() as int + 2) =~= s.subrange(6, s.len() as int));
}

/// Identifiers longer than nine receive exactly three separators, after
/// positions 3, 6 and 9: the result keeps the identifier's characters in
/// their four groups and is three characters longer.
pub proof fn lemma_segment_three_separators(s: Seq<char>)
    requires
        s.len() > 9,
    ensures
        segmented_spec(s).len() == s.len() + 3,
        segmented_spec(s)[3] == '/',
        segmented_spec(s)[7] == '/',
        segmented_spec(s)[11] == '/',
        segmented_spec(s).subrange(0, 3) == s.subrange(0, 3),
        segmented_spec(s).subrange(4, 7) == s.subrange(3, 6),
        segmented_spec(s).subrange(8, 11) == s.subrange(6, 9),
        segmented_spec(s).subrange(12, s.len() as int + 3) == s.skip(9),
{
    assert(segmented_spec(s).subrange(0, 3) =~= s.subrange(0, 3));
    assert(segmented_spec(s).subrange(4, 7) =~= s.subrange(3, 6));
    assert(segmented_spec(s).subrange(8, 11) =~= s.subrange(6, 9));
    assert(segmented_spec(s).subrange(12, s.len() as int + 3) =~= s.skip(9));
}

/// The segmentation assumes an unsegmented identifier: on a long identifier,
/// running it twice on its own output changes the output again, so it is not
/// idempotent.
pub proof fn lemma_segment_not_idempotent(s: Seq<char>)
    requires
        s.len() > 9,
    ensures
        segmented_spec(segmented_spec(s)) != segmented_spec(s),
{
    lemma_segment_three_separators(s);
    let t = segmented_spec(s);
    lemma_segment_three_separators(t);
    assert(segmented_spec(t).len() != t.len());
}

} // verus!
