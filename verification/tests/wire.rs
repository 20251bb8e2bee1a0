use dygma_api::wire::{join_u16s, parse_u16_list, read_uint, render_u16};

#[test]
fn renders_decimal_values() {
    assert_eq!(render_u16(0), "0");
    assert_eq!(render_u16(7), "7");
    assert_eq!(render_u16(255), "255");
    assert_eq!(render_u16(65535), "65535");
}

#[test]
fn joins_values_with_single_spaces() {
    assert_eq!(join_u16s(&vec![]), "");
    assert_eq!(join_u16s(&vec![1]), "1");
    assert_eq!(join_u16s(&vec![1, 22, 333]), "1 22 333");
}

#[test]
fn reads_bounded_decimals() {
    assert_eq!(read_uint("123 x", 0, 65535), Some((123, 3)));
    assert_eq!(read_uint("123", 0, 100), None);
    assert_eq!(read_uint("x", 0, 65535), None);
    // a leading zero is a complete number on its own
    assert_eq!(read_uint("012", 0, 65535), Some((0, 1)));
}

#[test]
fn parses_whole_lists() {
    assert_eq!(parse_u16_list("1 2 3"), Some(vec![1, 2, 3]));
    assert_eq!(parse_u16_list("  41 30  31 "), Some(vec![41, 30, 31]));
    assert_eq!(parse_u16_list(""), Some(vec![]));
    assert_eq!(parse_u16_list("65536"), None);
    assert_eq!(parse_u16_list("1 two"), None);
}

#[test]
fn list_round_trips_through_text() {
    let values: Vec<u16> = vec![41, 0, 65535, 17452, 49209];
    let text = join_u16s(&values);
    assert_eq!(parse_u16_list(&text), Some(values));
}
