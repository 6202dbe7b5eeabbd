use gantt_page::ordering::name_precedes;

#[test]
fn orders_by_the_first_byte_that_differs() {
    assert!(name_precedes("a.toml", "b.toml"));
    assert!(!name_precedes("b.toml", "a.toml"));
    assert!(name_precedes("chart-1", "chart-2"));
    assert!(name_precedes("abc", "abd"));
    assert!(!name_precedes("abd", "abc"));
}

#[test]
fn a_name_does_not_precede_itself() {
    assert!(!name_precedes("a.toml", "a.toml"));
    assert!(!name_precedes("", ""));
}

#[test]
fn a_prefix_precedes_the_longer_name() {
    assert!(name_precedes("a", "a.toml"));
    assert!(!name_precedes("a.toml", "a"));
    assert!(name_precedes("", "a"));
    assert!(!name_precedes("a", ""));
}

#[test]
fn upper_case_precedes_lower_case() {
    assert!(name_precedes("B.toml", "a.toml"));
    assert!(!name_precedes("a.toml", "B.toml"));
}

#[test]
fn digits_are_compared_as_bytes_not_as_numbers() {
    assert!(name_precedes("10.toml", "2.toml"));
    assert!(!name_precedes("2.toml", "10.toml"));
}

#[test]
fn text_that_is_not_ascii_is_ordered_by_its_encoding() {
    assert!(name_precedes("z", "é"));
    assert!(!name_precedes("é", "z"));
    assert!(name_precedes("é", "日"));
    assert!(name_precedes("日", "😀"));
    assert!(!name_precedes("😀", "日"));
}

#[test]
fn agrees_with_the_order_of_strings() {
    let names = ["", "a", "A", "ab", "b", "é", "日本", "日", "10", "2", "~", "a.toml", "a-b"];
    for a in names {
        for b in names {
            assert_eq!(name_precedes(a, b), a < b);
        }
    }
}
