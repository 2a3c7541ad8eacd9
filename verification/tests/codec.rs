use jelly_registry::codec::{bytes_eq, copy_range, frame_fields, frame_row, push_be32, push_be64, read_be32, read_be64, u64_to_be, unframe_bytes};
use jelly_registry::fields::{decode_count, decode_list, decode_opt_text, decode_opt_time, decode_text, encode_count, encode_list, encode_opt_text, encode_opt_time};
use jelly_registry::types::TimestampMills;

#[test]
fn be32_is_most_significant_first() {
    let mut out = vec![9u8];
    push_be32(&mut out, 0x0102_0304);
    assert_eq!(out, vec![9, 1, 2, 3, 4]);
    assert_eq!(read_be32(&out, 1), 0x0102_0304);
}

#[test]
fn be32_extremes() {
    let mut out = Vec::new();
    push_be32(&mut out, 0);
    push_be32(&mut out, u32::MAX);
    assert_eq!(out, vec![0, 0, 0, 0, 255, 255, 255, 255]);
    assert_eq!(read_be32(&out, 0), 0);
    assert_eq!(read_be32(&out, 4), u32::MAX);
}

#[test]
fn be64_is_most_significant_first() {
    assert_eq!(u64_to_be(0x0102_0304_0506_0708), vec![1, 2, 3, 4, 5, 6, 7, 8]);
    assert_eq!(u64_to_be(0x0102_0304_0506_0708), 0x0102_0304_0506_0708u64.to_be_bytes().to_vec());
    let mut out = vec![0u8, 0];
    push_be64(&mut out, u64::MAX - 1);
    assert_eq!(read_be64(&out, 2), u64::MAX - 1);
}

#[test]
fn copy_range_and_bytes_eq() {
    let bytes = vec![1u8, 2, 3, 4, 5];
    assert_eq!(copy_range(&bytes, 1, 4), vec![2, 3, 4]);
    assert_eq!(copy_range(&bytes, 2, 2), Vec::<u8>::new());
    assert!(bytes_eq(&bytes, &vec![1, 2, 3, 4, 5]));
    assert!(!bytes_eq(&bytes, &vec![1, 2, 3, 4]));
    assert!(!bytes_eq(&bytes, &vec![1, 2, 3, 4, 6]));
}

#[test]
fn frame_puts_each_field_behind_its_length() {
    let fields = vec![vec![7u8, 8], vec![], vec![9]];
    let framed = frame_fields(&fields).unwrap();
    assert_eq!(framed, vec![0, 0, 0, 2, 7, 8, 0, 0, 0, 0, 0, 0, 0, 1, 9]);
    assert_eq!(frame_row(&fields), Some(framed.clone()));
    assert_eq!(unframe_bytes(&framed), Some(fields));
}

#[test]
fn frame_of_no_field_is_empty() {
    assert_eq!(frame_fields(&Vec::new()), Some(Vec::new()));
    assert_eq!(unframe_bytes(&Vec::new()), Some(Vec::new()));
}

#[test]
fn unframe_rejects_cut_input() {
    assert_eq!(unframe_bytes(&vec![0, 0, 0]), None);
    assert_eq!(unframe_bytes(&vec![0, 0, 0, 2, 7]), None);
    assert_eq!(unframe_bytes(&vec![0, 0, 0, 1, 7, 0]), None);
    assert_eq!(unframe_bytes(&vec![255, 255, 255, 255, 1]), None);
}

#[test]
fn count_field_round_trips() {
    assert_eq!(encode_count(258), vec![0, 0, 0, 0, 0, 0, 1, 2]);
    assert_eq!(decode_count(&encode_count(u64::MAX)), Some(u64::MAX));
    assert_eq!(decode_count(&vec![1, 2, 3]), None);
}

#[test]
fn optional_time_field_round_trips() {
    assert_eq!(encode_opt_time(&None), Vec::<u8>::new());
    assert_eq!(encode_opt_time(&Some(TimestampMills(0))), vec![0x80, 0, 0, 0, 0, 0, 0, 0]);
    assert_eq!(encode_opt_time(&Some(TimestampMills(i64::MIN))), vec![0; 8]);
    assert_eq!(encode_opt_time(&Some(TimestampMills(i64::MAX))), vec![255; 8]);
    for t in [None, Some(TimestampMills(-1)), Some(TimestampMills(1)), Some(TimestampMills(i64::MIN)), Some(TimestampMills(i64::MAX))] {
        assert_eq!(decode_opt_time(&encode_opt_time(&t)), Some(t));
    }
    assert_eq!(decode_opt_time(&vec![1]), None);
}

#[test]
fn text_field_rejects_invalid_utf8() {
    assert_eq!(decode_text(&"héllo".as_bytes().to_vec()), Some("héllo".to_string()));
    assert_eq!(decode_text(&vec![0xff, 0xfe]), None);
    assert_eq!(decode_text(&vec![0xc3]), None);
}

#[test]
fn optional_text_field_round_trips() {
    assert_eq!(encode_opt_text(&None), vec![0]);
    assert_eq!(encode_opt_text(&Some("ab".to_string())), vec![1, b'a', b'b']);
    assert_eq!(encode_opt_text(&Some(String::new())), vec![1]);
    assert_eq!(decode_opt_text(&vec![0]), Some(None));
    assert_eq!(decode_opt_text(&vec![1]), Some(Some(String::new())));
    assert_eq!(decode_opt_text(&vec![1, b'x']), Some(Some("x".to_string())));
    assert_eq!(decode_opt_text(&vec![]), None);
    assert_eq!(decode_opt_text(&vec![0, 1]), None);
    assert_eq!(decode_opt_text(&vec![2]), None);
    assert_eq!(decode_opt_text(&vec![1, 0xff]), None);
}

#[test]
fn list_field_round_trips() {
    let list = vec![vec![1u8, 2, 3], vec![4]];
    let field = encode_list(&list).unwrap();
    assert_eq!(field, vec![0, 0, 0, 3, 1, 2, 3, 0, 0, 0, 1, 4]);
    assert_eq!(decode_list(&field), Some(list));
    assert_eq!(decode_list(&vec![0, 0]), None);
}
