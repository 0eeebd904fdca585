use ccdisplay::settings::{
    device_id_from_fields, entry_text, find_device, find_name, fit_label, id_text, next_open,
    parse_id, DeviceId, LABEL_WIDTH,
};
use ccdisplay::text::decimal_string;
use ccdisplay::video::rgb_to_rgba;

fn id(vendor_id: Option<u16>, product_id: Option<u16>) -> DeviceId {
    DeviceId {
        vendor_id,
        product_id,
        serial_number: None,
    }
}

#[test]
fn decimal_text() {
    assert_eq!(decimal_string(0), "0");
    assert_eq!(decimal_string(10), "10");
    assert_eq!(decimal_string(4294967295), "4294967295");
}

#[test]
fn ids_are_read() {
    assert_eq!(parse_id(""), Ok(None));
    assert_eq!(parse_id("0"), Ok(Some(0)));
    assert_eq!(parse_id("1133"), Ok(Some(1133)));
    assert_eq!(parse_id("+12"), Ok(Some(12)));
    assert_eq!(parse_id("007"), Ok(Some(7)));
    assert_eq!(parse_id("65535"), Ok(Some(65535)));
}

#[test]
fn bad_ids_are_refused() {
    assert_eq!(parse_id("65536"), Err(()));
    assert_eq!(parse_id("1000000"), Err(()));
    assert_eq!(parse_id("-1"), Err(()));
    assert_eq!(parse_id("+"), Err(()));
    assert_eq!(parse_id("12a"), Err(()));
    assert_eq!(parse_id(" 12"), Err(()));
    assert_eq!(parse_id("é"), Err(()));
}

#[test]
fn stored_device_id() {
    assert_eq!(device_id_from_fields("2222", "1111"), id(Some(1111), Some(2222)));
    assert_eq!(device_id_from_fields("", "1111"), id(Some(1111), None));
    assert_eq!(device_id_from_fields("", ""), id(None, None));
    assert_eq!(device_id_from_fields("x", "1111"), id(None, None));
    assert_eq!(device_id_from_fields("2222", "70000"), id(None, None));
}

#[test]
fn id_texts() {
    assert_eq!(id_text(Some(1133)), "1133");
    assert_eq!(id_text(Some(0)), "0");
    assert_eq!(id_text(None), "");
}

#[test]
fn device_matching() {
    assert!(id(None, None).matches_device(1, 2));
    assert!(id(Some(1), None).matches_device(1, 2));
    assert!(!id(Some(1), None).matches_device(3, 2));
    assert!(id(Some(1), Some(2)).matches_device(1, 2));
    assert!(!id(Some(1), Some(2)).matches_device(1, 3));
    let devices = vec![(5, 6), (1, 3), (1, 2), (1, 2)];
    assert_eq!(find_device(&id(Some(1), Some(2)), &devices), 2);
    assert_eq!(find_device(&id(None, None), &devices), 0);
    assert_eq!(find_device(&id(Some(9), None), &devices), usize::MAX);
}

#[test]
fn name_lookup() {
    let names = vec!["a".to_string(), "mic".to_string(), "mic".to_string()];
    assert_eq!(find_name(&names, &"mic".to_string()), 1);
    assert_eq!(find_name(&names, &"cam".to_string()), usize::MAX);
    assert_eq!(find_name(&Vec::new(), &String::new()), usize::MAX);
}

#[test]
fn short_label_is_padded() {
    let r = fit_label("USB Camera");
    assert_eq!(r.chars().count(), LABEL_WIDTH);
    assert_eq!(r, format!("USB Camera{}", " ".repeat(30)));
    assert_eq!(fit_label(""), " ".repeat(40));
}

#[test]
fn exact_label_is_kept() {
    let t = "x".repeat(40);
    assert_eq!(fit_label(&t), t);
}

#[test]
fn long_label_is_cut() {
    let t = format!("{}{}", "é".repeat(40), "tail");
    let r = fit_label(&t);
    assert_eq!(r, format!("{}\u{2026}", "é".repeat(40)));
    assert_eq!(r.chars().count(), 41);
}

#[test]
fn entry_texts() {
    let labels = vec!["first".to_string(), "second".to_string()];
    assert_eq!(entry_text(&labels, 1, "saved"), "second");
    assert_eq!(entry_text(&labels, usize::MAX, "saved"), "saved");
}

#[test]
fn window_open_state() {
    assert!(next_open(false, true, false));
    assert!(!next_open(true, true, false));
    assert!(!next_open(true, false, true));
    assert!(!next_open(false, true, true));
    assert!(next_open(true, false, false));
    assert!(!next_open(false, false, false));
}

#[test]
fn frame_pixels() {
    let rgb = [1u8, 2, 3, 4, 5, 6, 7, 8];
    let px = rgb_to_rgba(&rgb, 4);
    assert_eq!(
        px,
        vec![(1, 2, 3, 255), (4, 5, 6, 255), (0, 0, 0, 0), (0, 0, 0, 0)]
    );
    assert_eq!(rgb_to_rgba(&rgb, 1), vec![(1, 2, 3, 255)]);
    assert_eq!(rgb_to_rgba(&[], 0), vec![]);
}
