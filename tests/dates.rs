use rust_exif::calendar::LocalDateTime;
use rust_exif::capture::{
    container_date, fallback_date, normalize, normalize_with, parse_local_date, CaptureDate,
    DateError, DEFAULT_OFFSET_SECONDS,
};
use rust_exif::embedded::{date_from_fields, embedded_date, pick_date_text, FieldText};

fn local(year: i32, month: u8, day: u8, hour: u8, minute: u8, second: u8) -> LocalDateTime {
    LocalDateTime { year, month, day, hour, minute, second }
}

fn exif_bytes(fields: &[(exif::Tag, &str)]) -> Vec<u8> {
    let owned: Vec<exif::Field> = fields
        .iter()
        .map(|(tag, text)| exif::Field {
            tag: *tag,
            ifd_num: exif::In::PRIMARY,
            value: exif::Value::Ascii(vec![text.as_bytes().to_vec()]),
        })
        .collect();
    let mut writer = exif::experimental::Writer::new();
    for f in &owned {
        writer.push_field(f);
    }
    let mut buf = std::io::Cursor::new(Vec::new());
    writer.write(&mut buf, false).unwrap();
    buf.into_inner()
}

#[test]
fn normalize_attaches_default_offset() {
    let d = normalize(local(2022, 3, 1, 10, 0, 0));
    assert_eq!(d.offset_seconds, -25200);
    assert_eq!(d.local, local(2022, 3, 1, 10, 0, 0));
    let e = normalize_with(local(2022, 3, 1, 10, 0, 0), 3600);
    assert_eq!(e.offset_seconds, 3600);
}

#[test]
fn local_text_is_parsed() {
    let d = parse_local_date("2022-03-01 10:00:00").unwrap();
    assert_eq!(d.local, local(2022, 3, 1, 10, 0, 0));
    assert_eq!(d.offset_seconds, DEFAULT_OFFSET_SECONDS);
    assert_eq!(parse_local_date("2022:03:01 10:00:00"), None);
    assert_eq!(parse_local_date("2022-02-30 10:00:00"), None);
    assert_eq!(parse_local_date(""), None);
}

#[test]
fn container_tag_keeps_its_offset() {
    let d = container_date(Some("2021-12-25T08:00:00-0700")).unwrap();
    assert_eq!(d.local, local(2021, 12, 25, 8, 0, 0));
    assert_eq!(d.offset_seconds, -25200);
    let e = container_date(Some("2021-12-25T08:00:00+0230")).unwrap();
    assert_eq!(e.local, local(2021, 12, 25, 8, 0, 0));
    assert_eq!(e.offset_seconds, 9000);
}

#[test]
fn container_tag_absent_or_malformed() {
    assert_eq!(container_date(None), None);
    assert_eq!(container_date(Some("2021-12-25 08:00:00")), None);
    assert_eq!(container_date(Some("yesterday")), None);
}

#[test]
fn fallback_reads_utc_time_at_default_offset() {
    let d = fallback_date(1577836800).unwrap();
    assert_eq!(d.local, local(2020, 1, 1, 0, 0, 0));
    assert_eq!(d.offset_seconds, -25200);
    let epoch = fallback_date(0).unwrap();
    assert_eq!(epoch.local, local(1970, 1, 1, 0, 0, 0));
    let leap = fallback_date(951825600).unwrap();
    assert_eq!(leap.local, local(2000, 2, 29, 12, 0, 0));
    let last = fallback_date(253402300799).unwrap();
    assert_eq!(last.local, local(9999, 12, 31, 23, 59, 59));
    let latest = fallback_date(8210266876799).unwrap();
    assert_eq!(latest.local, local(262142, 12, 31, 23, 59, 59));
}

#[test]
fn fallback_out_of_range() {
    assert_eq!(fallback_date(u64::MAX), Err(DateError::TimestampOutOfRange));
    assert_eq!(fallback_date(8210266876800), Err(DateError::TimestampOutOfRange));
}

#[test]
fn original_tag_wins_over_generic() {
    let o = FieldText::Text("2022-03-01 10:00:00".to_string());
    let g = FieldText::Text("2019-11-05 09:30:00".to_string());
    let d = date_from_fields(&o, &g).unwrap();
    assert_eq!((d.local.year, d.local.month), (2022, 3));
    assert_eq!(pick_date_text(&o, &g), Some("2022-03-01 10:00:00".to_string()));
}

#[test]
fn generic_tag_used_without_original() {
    let g = FieldText::Text("2019-11-05 09:30:00".to_string());
    let d = date_from_fields(&FieldText::Absent, &g).unwrap();
    assert_eq!(d.local, local(2019, 11, 5, 9, 30, 0));
    assert_eq!(d.offset_seconds, -25200);
}

#[test]
fn unreadable_original_is_not_replaced() {
    let g = FieldText::Text("2019-11-05 09:30:00".to_string());
    assert_eq!(date_from_fields(&FieldText::NotText, &g), None);
    let bad = FieldText::Text("unknown".to_string());
    assert_eq!(date_from_fields(&bad, &g), None);
    assert_eq!(pick_date_text(&FieldText::NotText, &g), None);
    assert_eq!(date_from_fields(&FieldText::Absent, &FieldText::Absent), None);
}

#[test]
fn embedded_original_date() {
    let bytes = exif_bytes(&[
        (exif::Tag::DateTime, "2019:11:05 09:30:00"),
        (exif::Tag::DateTimeOriginal, "2022:03:01 10:00:00"),
    ]);
    let d = embedded_date(&bytes).unwrap();
    assert_eq!(d, CaptureDate { local: local(2022, 3, 1, 10, 0, 0), offset_seconds: -25200 });
}

#[test]
fn embedded_generic_date() {
    let bytes = exif_bytes(&[(exif::Tag::DateTime, "2019:11:05 09:30:00")]);
    let d = embedded_date(&bytes).unwrap();
    assert_eq!(d.local, local(2019, 11, 5, 9, 30, 0));
}

#[test]
fn embedded_without_metadata() {
    assert_eq!(embedded_date(b"not an image at all"), None);
    assert_eq!(embedded_date(&[]), None);
    let bytes = exif_bytes(&[(exif::Tag::Artist, "someone")]);
    assert_eq!(embedded_date(&bytes), None);
    // An unreadable DateTimeOriginal is not replaced by DateTime.
    let blank = exif_bytes(&[
        (exif::Tag::DateTime, "2019:11:05 09:30:00"),
        (exif::Tag::DateTimeOriginal, "    :  :     :  :  "),
    ]);
    assert_eq!(embedded_date(&blank), None);
}
