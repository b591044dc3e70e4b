use claus::json_scan::{JsonScanner, ScanResult};

#[test]
fn scan_whole_object() {
    let mut s = JsonScanner::new();
    assert_eq!(s.scan(br#"{"a":1}"#), ScanResult::Found(7));
}

#[test]
fn scan_empty_input_needs_more() {
    let mut s = JsonScanner::new();
    assert_eq!(s.scan(b""), ScanResult::NeedsMore);
}

#[test]
fn scan_skips_leading_whitespace() {
    let mut s = JsonScanner::new();
    assert_eq!(s.scan(b" \t\r\n{}"), ScanResult::Found(6));
}

#[test]
fn scan_rejects_stray_byte() {
    let mut s = JsonScanner::new();
    assert_eq!(s.scan(b"x{}"), ScanResult::Error);
}

#[test]
fn scan_fragmented_byte_by_byte() {
    let whole = br#"{"a":{"b":[1,2]},"c":"}"}"#;
    let mut fresh = JsonScanner::new();
    assert_eq!(fresh.scan(whole), ScanResult::Found(whole.len()));

    let mut s = JsonScanner::new();
    for (i, b) in whole.iter().enumerate() {
        let r = s.scan(std::slice::from_ref(b));
        if i + 1 < whole.len() {
            assert_eq!(r, ScanResult::NeedsMore);
        } else {
            assert_eq!(r, ScanResult::Found(1));
        }
    }
}

#[test]
fn scan_fragmented_in_uneven_chunks() {
    let whole = br#"{"x":"a\"b","y":{"z":"{"}}"#;
    let mut s = JsonScanner::new();
    assert_eq!(s.scan(&whole[..3]), ScanResult::NeedsMore);
    assert_eq!(s.scan(&whole[3..10]), ScanResult::NeedsMore);
    assert_eq!(s.scan(&whole[10..]), ScanResult::Found(whole.len() - 10));
}

#[test]
fn scan_brace_inside_string_is_masked() {
    let mut s = JsonScanner::new();
    let input = br#"{"a":"{"}"#;
    assert_eq!(s.scan(input), ScanResult::Found(input.len()));
}

#[test]
fn scan_closing_brace_inside_string_is_masked() {
    let mut s = JsonScanner::new();
    assert_eq!(s.scan(br#"{"a":"}"#), ScanResult::NeedsMore);
    assert_eq!(s.scan(br#""}"#), ScanResult::Found(2));
}

#[test]
fn scan_escaped_quote_does_not_end_string() {
    let mut s = JsonScanner::new();
    let input = br#"{"a":"\""}"#;
    assert_eq!(input.len(), 10);
    assert_eq!(s.scan(input), ScanResult::Found(10));
}

#[test]
fn scan_escaped_backslash_then_quote_ends_string() {
    let mut s = JsonScanner::new();
    let input = br#"{"a":"\\"}"#;
    assert_eq!(s.scan(input), ScanResult::Found(input.len()));
}

#[test]
fn scan_two_objects_in_one_slice() {
    let input = br#"{"a":1} {"b":2}"#;
    let mut s = JsonScanner::new();
    assert_eq!(s.scan(input), ScanResult::Found(7));
    assert_eq!(s.scan(&input[7..]), ScanResult::Found(8));
}

#[test]
fn scan_every_two_way_split_finds_the_same_end() {
    let whole = br#" {"k":"v\\\"}{","n":{"m":[{}]}}"#;
    let mut fresh = JsonScanner::new();
    assert_eq!(fresh.scan(whole), ScanResult::Found(whole.len()));
    for cut in 1..whole.len() {
        let mut s = JsonScanner::new();
        assert_eq!(s.scan(&whole[..cut]), ScanResult::NeedsMore);
        assert_eq!(s.scan(&whole[cut..]), ScanResult::Found(whole.len() - cut));
    }
}
