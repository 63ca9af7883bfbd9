use clip_mesh::text::{decimal_string, precedes, same_text};

#[test]
fn numbers_are_written_in_decimal() {
    for n in [0u64, 9, 10, 99, 100, 65535, u64::MAX] {
        assert_eq!(decimal_string(n), n.to_string());
    }
}

#[test]
fn texts_are_compared_whole() {
    assert!(same_text("", ""));
    assert!(same_text("节点", "节点"));
    assert!(!same_text("a", "ab"));
    assert!(!same_text("a", "A"));
}

#[test]
fn texts_are_ordered_by_their_bytes() {
    let texts = ["", "0", "09", "1", "A", "a", "aa", "ab", "b", "é", "剪", "😀"];
    for (i, a) in texts.iter().enumerate() {
        for (j, b) in texts.iter().enumerate() {
            assert_eq!(precedes(a, b), i < j);
            assert_eq!(precedes(a, b), a < b);
        }
    }
}
