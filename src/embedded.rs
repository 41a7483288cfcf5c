//! Capture dates embedded in image metadata (EXIF).

use vstd::prelude::*;
use crate::capture::{CaptureDate, DEFAULT_OFFSET_SECONDS, local_format, local_text_parse, parse_local_date};

verus! {

/// What the primary image directory holds under one date tag.
#[derive(Clone, Debug)]
pub enum FieldText {
    /// The tag is not there, or the metadata could not be read.
    Absent,
    /// The tag is there, but its value is not text.
    NotText,
    /// The tag's text value, as the metadata reader displays it.
    Text(String),
}

/// A tag as plain values: `None` when it is absent, `Some(None)` when its
/// value is not text, `Some(Some(s))` for the text `s`.
pub open spec fn field_view(f: FieldText) -> Option<Option<Seq<char>>> {
    match f {
        FieldText::Absent => None,
        FieldText::NotText => Some(None),
        FieldText::Text(s) => Some(Some(s@)),
    }
}

/// What the EXIF block in `bytes` holds under `DateTimeOriginal` (when
/// `original`) or `DateTime` (otherwise), in the form of `field_view`.
pub uninterp spec fn exif_tag_text(bytes: Seq<u8>, original: bool) -> Option<Option<Seq<char>>>;

/// Relies on kamadak-exif's `Reader::read_from_container` (the EXIF block of
/// a TIFF, JPEG, HEIF, PNG or WebP image held in memory), `Exif::get_field`
/// with `In::PRIMARY`, and `Value::display_as`, which shows a date tag as
/// `YYYY-MM-DD HH:MM:SS`. The result depends on the bytes and the tag alone.
#[verifier::external_body]
fn exif_date_text(bytes: &[u8], original: bool) -> (r: FieldText)
    ensures
        field_view(r) == exif_tag_text(bytes@, original),
{
    let t = if original { exif::Tag::DateTimeOriginal } else { exif::Tag::DateTime };
    let ex = match exif::Reader::new().read_from_container(&mut std::io::Cursor::new(bytes)) {
        Ok(ex) => ex,
        Err(_) => return FieldText::Absent,
    };
    match ex.get_field(t, exif::In::PRIMARY) {
        None => FieldText::Absent,
        Some(f) => match f.value {
            exif::Value::Ascii(_) => FieldText::Text(format!("{}", f.value.display_as(f.tag))),
            _ => FieldText::NotText,
        },
    }
}

/// The text to read a date from: `DateTimeOriginal` whenever that tag is
/// present, and `DateTime` only when it is absent.
pub open spec fn picked_text(
    original: Option<Option<Seq<char>>>,
    generic: Option<Option<Seq<char>>>,
) -> Option<Seq<char>> {
    match original {
        Some(o) => o,
        None => match generic {
            Some(g) => g,
            None => None,
        },
    }
}

/// The capture date that the two date tags, as plain values, give.
pub open spec fn texts_date(
    original: Option<Option<Seq<char>>>,
    generic: Option<Option<Seq<char>>>,
) -> Option<CaptureDate> {
    match picked_text(original, generic) {
        None => None,
        Some(t) => match local_text_parse(t, local_format()) {
            Some(p) => Some(CaptureDate { local: p, offset_seconds: DEFAULT_OFFSET_SECONDS }),
            None => None,
        },
    }
}

/// The capture date that the two date tags give.
pub open spec fn fields_date(original: FieldText, generic: FieldText) -> Option<CaptureDate> {
    texts_date(field_view(original), field_view(generic))
}

/// Chooses the text that a date is read from.
pub fn pick_date_text(original: &FieldText, generic: &FieldText) -> (r: Option<String>)
    ensures
        r matches Some(s) ==> picked_text(field_view(*original), field_view(*generic)) == Some(
            s@,
        ),
        r is None ==> picked_text(field_view(*original), field_view(*generic)) is None,
{
    match original {
        FieldText::Text(s) => Some(s.clone()),
        FieldText::NotText => None,
        FieldText::Absent => match generic {
            FieldText::Text(s) => Some(s.clone()),
            _ => None,
        },
    }
}

/// The capture date that the two date tags give, read at the default offset.
pub fn date_from_fields(original: &FieldText, generic: &FieldText) -> (r: Option<CaptureDate>)
    ensures
        r == fields_date(*original, *generic),
        r matches Some(d) ==> d.wf(),
{
    match pick_date_text(original, generic) {
        Some(s) => parse_local_date(s.as_str()),
        None => None,
    }
}

/// The capture date embedded in an image's EXIF metadata, if it has one that
/// can be read. Metadata that cannot be parsed gives `None`; `DateTime` is
/// read only when `DateTimeOriginal` is absent.
pub fn embedded_date(bytes: &[u8]) -> (r: Option<CaptureDate>)
    ensures
        r == bytes_date(bytes@),
        r matches Some(d) ==> d.wf(),
{
    let original = exif_date_text(bytes, true);
    let generic = match original {
        FieldText::Absent => exif_date_text(bytes, false),
        _ => FieldText::Absent,
    };
    date_from_fields(&original, &generic)
}

/// The capture date that the EXIF block in `bytes` gives, as `embedded_date`
/// states it.
pub open spec fn bytes_date(bytes: Seq<u8>) -> Option<CaptureDate> {
    texts_date(exif_tag_text(bytes, true), exif_tag_text(bytes, false))
}

/// A readable `DateTimeOriginal` decides the capture date: its year and month
/// are the date's, and `DateTime` is not consulted: any other value of it
/// gives the same date.
pub proof fn lemma_original_tag_decides(
    bytes: Seq<u8>,
    s: Seq<char>,
    other: Option<Option<Seq<char>>>,
)
    requires
        exif_tag_text(bytes, true) == Some(Some(s)),
        local_text_parse(s, local_format()) is Some,
    ensures
        bytes_date(bytes) is Some,
        bytes_date(bytes)->0.local.year == local_text_parse(s, local_format())->0.year,
        bytes_date(bytes)->0.local.month == local_text_parse(s, local_format())->0.month,
        bytes_date(bytes) == texts_date(exif_tag_text(bytes, true), other),
{
}

/// Without `DateTimeOriginal`, the `DateTime` tag is read.
pub proof fn lemma_generic_tag_fallback(bytes: Seq<u8>, s: Seq<char>)
    requires
        exif_tag_text(bytes, true) is None,
        exif_tag_text(bytes, false) == Some(Some(s)),
    ensures
        bytes_date(bytes) == (match local_text_parse(s, local_format()) {
            Some(p) => Some(CaptureDate { local: p, offset_seconds: DEFAULT_OFFSET_SECONDS }),
            None => None,
        }),
{
}

} // verus!
