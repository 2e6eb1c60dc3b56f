use bili_merge::error::Error;
use bili_merge::metadata::{get_metadata, get_video_list, parse_metadata};

const SIDECAR: &str = r#"{"uname":"Alice","title":"EP1","groupTitle":"Season1","pubdate":1700000000,"updateTime":1700000100,"totalSize":1048576,"itemId":42,"coverPath":"/tmp/cover.jpg","groupCoverPath":"/tmp/gcover.jpg","extra":[1,2]}"#;

#[test]
fn metadata_parses_all_fields() {
    let v = parse_metadata(SIDECAR.as_bytes()).unwrap();
    assert_eq!(v.uname, "Alice");
    assert_eq!(v.title, "EP1");
    assert_eq!(v.group_title, "Season1");
    assert_eq!(v.pubdate, 1700000000);
    assert_eq!(v.update_time, 1700000100);
    assert_eq!(v.total_size, 1048576);
    assert_eq!(v.item_id, 42);
    assert_eq!(v.cover_path, "/tmp/cover.jpg");
    assert_eq!(v.group_cover_path, "/tmp/gcover.jpg");
}

#[test]
fn metadata_missing_field_is_invalid() {
    let text = SIDECAR.replace(r#""itemId":42,"#, "");
    assert_eq!(parse_metadata(text.as_bytes()).unwrap_err(), Error::MetadataInvalid);
}

#[test]
fn metadata_wrong_type_is_invalid() {
    let text = SIDECAR.replace(r#""totalSize":1048576"#, r#""totalSize":"big""#);
    assert_eq!(parse_metadata(text.as_bytes()).unwrap_err(), Error::MetadataInvalid);
    let negative = SIDECAR.replace(r#""itemId":42"#, r#""itemId":-42"#);
    assert_eq!(parse_metadata(negative.as_bytes()).unwrap_err(), Error::MetadataInvalid);
}

#[test]
fn metadata_not_json_is_invalid() {
    assert_eq!(parse_metadata(b"not json").unwrap_err(), Error::MetadataInvalid);
    assert_eq!(parse_metadata(&[0xff, 0xfe, 0x7b]).unwrap_err(), Error::MetadataInvalid);
    assert_eq!(parse_metadata(b"[1,2,3]").unwrap_err(), Error::MetadataInvalid);
}

#[test]
fn metadata_unreadable_sidecar_is_missing() {
    assert_eq!(get_metadata(&None).unwrap_err(), Error::MetadataMissing);
    assert_eq!(get_metadata(&Some(SIDECAR.as_bytes().to_vec())).unwrap().item_id, 42);
}

#[test]
fn video_list_in_order_or_first_error() {
    let second = SIDECAR.replace(r#""itemId":42"#, r#""itemId":43"#);
    let ok = vec![Some(SIDECAR.as_bytes().to_vec()), Some(second.as_bytes().to_vec())];
    let list = get_video_list(&ok).unwrap();
    assert_eq!(list.iter().map(|v| v.item_id).collect::<Vec<_>>(), vec![42, 43]);
    let bad = vec![Some(SIDECAR.as_bytes().to_vec()), Some(b"{}".to_vec()), None];
    assert_eq!(get_video_list(&bad).unwrap_err(), Error::MetadataInvalid);
    let missing = vec![None, Some(b"{}".to_vec())];
    assert_eq!(get_video_list(&missing).unwrap_err(), Error::MetadataMissing);
    assert!(get_video_list(&Vec::new()).unwrap().is_empty());
}

#[test]
fn summary_line_of_item() {
    let v = parse_metadata(SIDECAR.as_bytes()).unwrap();
    assert_eq!(
        v.summary().unwrap(),
        "42 Title: EP1, UP: Alice, size 1048576, update at 2023-11-14 22:13:20 UTC"
    );
    assert_eq!(v.summary_with("then"), "42 Title: EP1, UP: Alice, size 1048576, update at then");
}

#[test]
fn summary_line_out_of_range_time() {
    let text = SIDECAR.replace("1700000000", "9223372036854775807");
    let v = parse_metadata(text.as_bytes()).unwrap();
    assert_eq!(v.summary(), None);
}
