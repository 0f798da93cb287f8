use nr_data_downloader::identifier::normalize_nr;

#[test]
fn normalized_nrs() {
    assert_eq!(normalize_nr(""), "");
    assert_eq!(normalize_nr("12"), "12");
    assert_eq!(normalize_nr("no numbers"), "");
    assert_eq!(normalize_nr(" as-12.df "), "12");
}

#[test]
fn normalize_keeps_digit_order() {
    assert_eq!(normalize_nr("123-45"), "12345");
    assert_eq!(normalize_nr("678.90"), "67890");
    assert_eq!(normalize_nr("9a8b7c6"), "9876");
    assert_eq!(normalize_nr("0001"), "0001");
}

#[test]
fn normalize_is_idempotent() {
    for raw in ["", "12", "no numbers", " as-12.df ", "12.345.678/0001-90", "a1\nb2\tc3"] {
        let once = normalize_nr(raw);
        let twice = normalize_nr(&once);
        assert_eq!(twice, once);
    }
}

#[test]
fn normalize_removes_line_breaks_and_other_scripts() {
    assert_eq!(normalize_nr("1\n2\r\n3"), "123");
    assert_eq!(normalize_nr("\u{0663}4\u{ff15}"), "4");
    assert_eq!(normalize_nr("é1ü2日本3"), "123");
    assert_eq!(normalize_nr("$1 ${2}"), "12");
}

#[test]
fn normalize_leaves_only_ascii_digits() {
    let normalized = normalize_nr("x-19/ 28_37;46:55");
    assert!(normalized.chars().all(|c| c.is_ascii_digit()));
    assert_eq!(normalized, "1928374655");
}
