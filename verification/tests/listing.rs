use level_meter::listing::{index_label, print_list, render_list, INDEX_WIDTH};

#[test]
fn listing_numbers_each_item() {
    let items = vec!["alsa", "jack"];
    assert_eq!(print_list(&items), " 0 \"alsa\"\n 1 \"jack\"");
}

#[test]
fn listing_matches_plain_formatting() {
    let items: Vec<u32> = (0..120).map(|i| i * 7).collect();
    let expected = items
        .iter()
        .enumerate()
        .map(|(i, item)| format!("{:2} {:?}", i, item))
        .collect::<Vec<String>>()
        .join("\n");
    assert_eq!(print_list(&items), expected);
}

#[test]
fn listing_of_nothing_is_empty() {
    let items: Vec<u8> = Vec::new();
    assert_eq!(print_list(&items), "");
    assert_eq!(render_list(&Vec::new()), "");
}

#[test]
fn listing_of_one_item_has_no_line_break() {
    assert_eq!(print_list(&vec![Some(3)]), " 0 Some(3)");
    assert_eq!(render_list(&vec![String::from("only")]), " 0 only");
}

#[test]
fn rendered_list_keeps_labels_as_they_are() {
    let labels = vec![String::from("first"), String::new(), String::from("a b\tc")];
    assert_eq!(render_list(&labels), " 0 first\n 1 \n 2 a b\tc");
}

#[test]
fn rendered_list_separates_lines_with_one_line_feed() {
    let labels: Vec<String> = (0..12).map(|i| format!("item{}", i)).collect();
    let text = render_list(&labels);
    let lines: Vec<&str> = text.split('\n').collect();
    assert_eq!(lines.len(), 12);
    assert_eq!(lines[9], " 9 item9");
    assert_eq!(lines[10], "10 item10");
    assert_eq!(lines[11], "11 item11");
    assert!(!text.ends_with('\n'));
}

#[test]
fn index_labels_are_padded_to_two() {
    assert_eq!(INDEX_WIDTH, 2);
    assert_eq!(index_label(0), " 0");
    assert_eq!(index_label(7), " 7");
    assert_eq!(index_label(9), " 9");
    assert_eq!(index_label(10), "10");
    assert_eq!(index_label(42), "42");
    assert_eq!(index_label(99), "99");
    assert_eq!(index_label(100), "100");
    assert_eq!(index_label(12345), "12345");
    assert_eq!(index_label(usize::MAX), format!("{:2}", usize::MAX));
}

#[test]
fn index_labels_match_plain_formatting() {
    for i in 0..2000usize {
        assert_eq!(index_label(i), format!("{:2}", i));
    }
}
