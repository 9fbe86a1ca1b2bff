use linewindow::prefix::{byte_prefix, byte_prefix_text, line_prefix, source_header};

fn lines_of(strs: &[&str]) -> Vec<String> {
    strs.iter().map(|s| s.to_string()).collect()
}

#[test]
fn byte_bound_example() {
    let bytes = b"hello world".to_vec();
    assert_eq!(byte_prefix_text(&bytes, 5), "hello");
}

#[test]
fn byte_prefix_length_is_min_of_size_and_bound() {
    let bytes = b"hello world".to_vec();
    assert_eq!(byte_prefix(&bytes, 5).len(), 5);
    assert_eq!(byte_prefix(&bytes, 11).len(), 11);
    assert_eq!(byte_prefix(&bytes, 100).len(), 11);
    assert_eq!(byte_prefix(&Vec::new(), 4).len(), 0);
}

#[test]
fn byte_prefix_takes_leading_bytes() {
    assert_eq!(byte_prefix(&vec![1u8, 2, 3], 2), vec![1u8, 2]);
    assert_eq!(byte_prefix(&vec![1u8, 2, 3], 3), vec![1u8, 2, 3]);
}

#[test]
fn short_source_is_emitted_whole() {
    let bytes = b"hi".to_vec();
    assert_eq!(byte_prefix_text(&bytes, 100), "hi");
}

#[test]
fn ill_formed_bytes_are_replaced_not_fatal() {
    let bytes = vec![0xFF, b'a'];
    assert_eq!(byte_prefix_text(&bytes, 10), "\u{FFFD}a");
}

#[test]
fn byte_bound_can_split_a_multibyte_character() {
    let bytes = "é".as_bytes().to_vec();
    assert_eq!(bytes.len(), 2);
    assert_eq!(byte_prefix_text(&bytes, 1), "\u{FFFD}");
}

#[test]
fn line_bound_larger_than_source_emits_all_unchanged() {
    let input = lines_of(&["a\n", "b\n", "c\n"]);
    let out = line_prefix(&input, 10);
    assert_eq!(out, input);
}

#[test]
fn line_count_is_min_of_length_and_bound() {
    let input = lines_of(&["1\n", "2\n", "3\n", "4\n", "5\n"]);
    assert_eq!(line_prefix(&input, 3).len(), 3);
    assert_eq!(line_prefix(&input, 5).len(), 5);
    assert_eq!(line_prefix(&input, 9).len(), 5);
    assert_eq!(line_prefix(&Vec::new(), 3).len(), 0);
}

#[test]
fn line_prefix_keeps_terminators_exactly() {
    let input = lines_of(&["with\n", "without"]);
    let out = line_prefix(&input, 2);
    assert_eq!(out, lines_of(&["with\n", "without"]));
}

#[test]
fn line_prefix_takes_leading_lines() {
    let input = lines_of(&["a\n", "b\n", "c\n"]);
    assert_eq!(line_prefix(&input, 2), lines_of(&["a\n", "b\n"]));
}

#[test]
fn two_sources_get_two_headers_one_separator() {
    let first = source_header(&"a.txt".to_string(), 0, 2).unwrap();
    let second = source_header(&"b.txt".to_string(), 1, 2).unwrap();
    assert_eq!(first, "==> a.txt <==");
    assert_eq!(second, "\n==> b.txt <==");
    let separators = first.matches('\n').count() + second.matches('\n').count();
    assert_eq!(separators, 1);
}

#[test]
fn single_source_gets_no_header() {
    assert_eq!(source_header(&"a.txt".to_string(), 0, 1), None);
}

#[test]
fn later_sources_all_get_separators() {
    let third = source_header(&"c".to_string(), 2, 3).unwrap();
    assert_eq!(third, "\n==> c <==");
}
