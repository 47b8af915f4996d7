use rental_scraper::error::CrawlError;
use rental_scraper::page::{
    find_mileage, find_valuation, labelled_value, normalize_valuation, read_mileage,
    read_valuation, trim_each, LABEL_VALUE_SELECTOR, MILEAGE_LABEL, NON_NUMERIC, UNKNOWN,
    VALUATION_SELECTOR,
};

fn texts(items: &[&str]) -> Vec<String> {
    items.iter().map(|item| item.to_string()).collect()
}

#[test]
fn mileage_is_the_text_after_the_label() {
    let found = find_mileage(&texts(&["Color:", "Red", "Mileage:", "32,104 mi", "Doors:", "4"]));
    assert_eq!(found, "32,104 mi");
}

#[test]
fn mileage_is_taken_verbatim() {
    assert_eq!(find_mileage(&texts(&["Mileage:", "32,104 mi"])), "32,104 mi");
    assert_eq!(find_mileage(&texts(&["Mileage:", "n/a (see dealer)"])), "n/a (see dealer)");
    assert_eq!(find_mileage(&texts(&["Mileage:", ""])), "");
}

#[test]
fn mileage_texts_are_trimmed() {
    assert_eq!(find_mileage(&texts(&["  Mileage:\n", "\t 32,104 mi  "])), "32,104 mi");
    assert_eq!(find_mileage(&texts(&["Mileage:", "  12  345  "])), "12  345");
}

#[test]
fn mileage_without_label_is_unknown() {
    assert_eq!(find_mileage(&texts(&["Color:", "Red"])), "Unknown");
    assert_eq!(find_mileage(&Vec::new()), "Unknown");
    assert_eq!(find_mileage(&texts(&["Mileage", "10"])), "Unknown");
    assert_eq!(find_mileage(&texts(&["mileage:", "10"])), "Unknown");
}

#[test]
fn mileage_label_in_last_place_is_unknown() {
    assert_eq!(find_mileage(&texts(&["Color:", "Red", "Mileage:"])), "Unknown");
    assert_eq!(find_mileage(&texts(&["Mileage:"])), "Unknown");
}

#[test]
fn first_mileage_label_decides() {
    assert_eq!(find_mileage(&texts(&["Mileage:", "1", "Mileage:", "2"])), "1");
    assert_eq!(find_mileage(&texts(&["Mileage:", "Mileage:", "2"])), "Mileage:");
}

#[test]
fn labelled_value_compares_texts_as_they_are() {
    let items = texts(&[" Engine:", "V6", "Engine:", "V8"]);
    assert_eq!(labelled_value(&items, "Engine:"), Some("V8".to_string()));
    assert_eq!(labelled_value(&items, " Engine:"), Some("V6".to_string()));
    assert_eq!(labelled_value(&items, "V8"), None);
    assert_eq!(labelled_value(&items, "Doors:"), None);
    assert_eq!(labelled_value(&Vec::new(), "Engine:"), None);
}

#[test]
fn trim_each_cuts_white_space_at_the_ends_only() {
    assert_eq!(
        trim_each(&texts(&["  a b  ", "\n\tc", "d\r\n", "   ", "", "\u{a0}e\u{2003}"])),
        texts(&["a b", "c", "d", "", "", "e"])
    );
}

#[test]
fn valuation_keeps_digits_and_points() {
    assert_eq!(normalize_valuation("$18,250.00"), Ok("18250.00".to_string()));
}

#[test]
fn valuation_drops_everything_else() {
    assert_eq!(normalize_valuation("  USD 1,234.50 (est.)\n"), Ok("1234.50.".to_string()));
    assert_eq!(normalize_valuation("-42"), Ok("42".to_string()));
    assert_eq!(normalize_valuation("n/a"), Ok("".to_string()));
    assert_eq!(normalize_valuation(""), Ok("".to_string()));
    assert_eq!(normalize_valuation("1 2\t3\n4"), Ok("1234".to_string()));
    assert_eq!(normalize_valuation("..."), Ok("...".to_string()));
}

#[test]
fn valuation_keeps_digits_of_other_scripts() {
    assert_eq!(normalize_valuation("\u{20ac}\u{661}\u{662}.50"), Ok("\u{661}\u{662}.50".to_string()));
}

#[test]
fn valuation_is_unknown_without_a_row() {
    assert_eq!(find_valuation(&Vec::new()), Ok("Unknown".to_string()));
}

#[test]
fn valuation_is_read_off_the_first_row() {
    assert_eq!(find_valuation(&texts(&[" $18,250.00 ", "$1.00"])), Ok("18250.00".to_string()));
    assert_eq!(find_valuation(&texts(&["call us"])), Ok("".to_string()));
}

#[test]
fn mileage_is_read_off_a_detail_page() {
    let page = "<html><body><ul>\
        <li><span class=\"label\">Color:</span><span class=\"value\">Red</span></li>\
        <li><span class=\"label\"> Mileage: </span><span class=\"value\">32,104 mi</span></li>\
        </ul></body></html>";
    assert_eq!(read_mileage(page), Ok("32,104 mi".to_string()));
}

#[test]
fn mileage_value_is_the_next_match_whatever_its_class() {
    let page = "<span class=\"label\">Mileage:</span><span class=\"label\">Doors:</span>\
        <span class=\"value\">4</span>";
    assert_eq!(read_mileage(page), Ok("Doors:".to_string()));
}

#[test]
fn mileage_text_joins_nested_text_nodes() {
    let page = "<span class=\"label\"><b>Mile</b>age:</span><span class=\"value\">32,<i>104</i> mi</span>";
    assert_eq!(read_mileage(page), Ok("32,104 mi".to_string()));
}

#[test]
fn mileage_of_a_page_without_label_is_unknown() {
    assert_eq!(read_mileage("<p>nothing here</p>"), Ok("Unknown".to_string()));
    assert_eq!(read_mileage("<div class=\"label\">Mileage:</div><div class=\"value\">1</div>"),
        Ok("Unknown".to_string()));
}

#[test]
fn valuation_is_read_off_a_detail_page() {
    let page = "<div class=\"kbbsuggested-row\"><span class=\"row-label\">KBB</span>\
        <span class=\"row-value\">$18,250.00</span></div>\
        <div class=\"kbbsuggested-row\"><span class=\"row-value\">$1.00</span></div>";
    assert_eq!(read_valuation(page), Ok("18250.00".to_string()));
}

#[test]
fn valuation_of_a_page_without_row_is_unknown() {
    assert_eq!(read_valuation("<div class=\"row-value\">$5</div>"), Ok("Unknown".to_string()));
    assert_eq!(read_valuation(""), Ok("Unknown".to_string()));
}

#[test]
fn page_constants_are_fixed() {
    assert_eq!(LABEL_VALUE_SELECTOR, "span.label, span.value");
    assert_eq!(VALUATION_SELECTOR, ".kbbsuggested-row .row-value");
    assert_eq!(MILEAGE_LABEL, "Mileage:");
    assert_eq!(UNKNOWN, "Unknown");
    assert_eq!(NON_NUMERIC, "[^\\d.]");
}

#[test]
fn page_readers_do_not_fail_on_their_own_selectors() {
    assert!(read_mileage("<p></p>") != Err(CrawlError::Extractor));
    assert!(read_valuation("<p></p>") != Err(CrawlError::Extractor));
    assert!(normalize_valuation("1") != Err(CrawlError::Extractor));
}

fn has_white_space_property(c: char) -> bool {
    matches!(
        c,
        '\u{9}'..='\u{d}'
            | ' '
            | '\u{85}'
            | '\u{a0}'
            | '\u{1680}'
            | '\u{2000}'..='\u{200a}'
            | '\u{2028}'
            | '\u{2029}'
            | '\u{202f}'
            | '\u{205f}'
            | '\u{3000}'
    )
}

#[test]
fn trimming_cuts_exactly_the_white_space_characters() {
    let mut singles: Vec<String> = Vec::new();
    let mut expected: Vec<String> = Vec::new();
    let mut cut = 0;
    for code in 0..=0x10ffffu32 {
        if let Some(c) = char::from_u32(code) {
            singles.push(c.to_string());
            if has_white_space_property(c) {
                expected.push(String::new());
                cut += 1;
            } else {
                expected.push(c.to_string());
            }
        }
    }
    assert_eq!(cut, 25);
    assert_eq!(trim_each(&singles), expected);
}

#[test]
fn trimming_leaves_near_misses_alone() {
    assert_eq!(
        trim_each(&texts(&["\u{1c}a\u{1f}", "\u{200b}b\u{200b}", "\u{180e}c", "\u{feff}d", "\u{8}e\u{e}"])),
        texts(&["\u{1c}a\u{1f}", "\u{200b}b\u{200b}", "\u{180e}c", "\u{feff}d", "\u{8}e\u{e}"])
    );
}

#[test]
fn trimming_cuts_runs_at_both_ends_and_nothing_inside() {
    assert_eq!(
        trim_each(&texts(&[" \t\u{3000}a \u{a0} b\u{2028}\u{85}\r\n", "\u{b}\u{c}"])),
        texts(&["a \u{a0} b", ""])
    );
}

#[test]
fn valuation_of_a_row_is_never_unknown() {
    assert_eq!(find_valuation(&texts(&["Unknown"])), Ok("".to_string()));
    assert_eq!(find_valuation(&texts(&["", "$5"])), Ok("".to_string()));
    assert_eq!(normalize_valuation("Unknown"), Ok("".to_string()));
    assert_eq!(
        read_valuation("<div class=\"kbbsuggested-row\"><b class=\"row-value\">Unknown</b></div>"),
        Ok("".to_string())
    );
}

#[test]
fn valuation_keeps_no_ascii_character_but_digits_and_points() {
    let mut all_ascii = String::new();
    for code in 0..128u32 {
        all_ascii.push(char::from_u32(code).unwrap());
    }
    assert_eq!(normalize_valuation(&all_ascii), Ok(".0123456789".to_string()));
    let mixed = format!("\u{e9}{}\u{663}\u{4e00}", all_ascii);
    assert_eq!(normalize_valuation(&mixed), Ok(".0123456789\u{663}".to_string()));
}
