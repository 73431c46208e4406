use zwo_workout::attribute::{
    find_attribute, find_value, get_property_value_bool, get_property_value_float,
    get_property_value_integer, get_property_value_str, parse_flag, parse_float, parse_integer,
    Scan, TagText,
};

fn letters(s: &str) -> Vec<char> {
    s.chars().collect()
}

#[test]
fn value_is_what_stands_between_the_first_two_quotes() {
    assert_eq!(find_value(&letters("=\"600\" Cadence=\"90\""), 0), Some((2, 5)));
    assert_eq!(find_value(&letters("=\"600\" Cadence=\"90\""), 3), Some((6, 15)));
    assert_eq!(find_value(&letters("=\"\""), 0), Some((2, 2)));
    assert_eq!(find_value(&letters("=\"600"), 0), None);
    assert_eq!(find_value(&letters("=600"), 0), None);
    assert_eq!(find_value(&letters(""), 0), None);
    assert_eq!(find_value(&letters("\"a\""), 7), None);
}

#[test]
fn value_after_blanks_is_read_whole() {
    assert_eq!(get_property_value_integer(" = \"600\""), Some(600));
    assert_eq!(get_property_value_str("   \"abc\" \"def\""), Some("abc".to_string()));
}

#[test]
fn integer_value_is_read() {
    assert_eq!(get_property_value_integer("=\"600\" Cadence=\"90\""), Some(600));
    assert_eq!(get_property_value_integer("=\"-3\""), Some(-3));
    assert_eq!(get_property_value_integer("=\"+3\""), Some(3));
}

#[test]
fn integer_value_that_cannot_be_read_is_no_value() {
    assert_eq!(get_property_value_integer("=\"0.5\""), None);
    assert_eq!(get_property_value_integer("=\"\""), None);
    assert_eq!(get_property_value_integer("=\"abc\""), None);
    assert_eq!(get_property_value_integer("=\"12"), None);
    assert_eq!(get_property_value_integer("12"), None);
    assert_eq!(get_property_value_integer(""), None);
}

#[test]
fn switch_value_is_read() {
    assert_eq!(get_property_value_bool("=\"1\""), Some(true));
    assert_eq!(get_property_value_bool("=\"0\""), Some(false));
    assert_eq!(get_property_value_bool("=\"2\""), None);
    assert_eq!(get_property_value_bool("=\"true\""), None);
    assert_eq!(get_property_value_bool("=\"\""), None);
    assert_eq!(get_property_value_bool("=\"10\""), None);
    assert_eq!(get_property_value_bool("1"), None);
}

#[test]
fn text_value_is_returned_as_written() {
    assert_eq!(get_property_value_str("=\"Go hard\" x=\"y\""), Some("Go hard".to_string()));
    assert_eq!(get_property_value_str("=\"\""), Some(String::new()));
    assert_eq!(get_property_value_str("=\"open"), None);
    assert_eq!(get_property_value_str("nothing"), None);
}

#[test]
fn float_value_is_returned_as_written() {
    assert_eq!(get_property_value_float("=\"0.5\""), Some("0.5".to_string()));
    assert_eq!(get_property_value_float("=\"90\""), Some("90".to_string()));
    assert_eq!(get_property_value_float("=\"1e-3\""), Some("1e-3".to_string()));
    assert_eq!(get_property_value_float("=\"half\""), None);
    assert_eq!(get_property_value_float("=\"\""), None);
    assert_eq!(get_property_value_float("0.5"), None);
}

#[test]
fn parse_integer_agrees_with_the_standard_library() {
    let cases = [
        "0", "7", "-7", "+7", "0005", "-0", "+0", "2147483647", "2147483648", "-2147483648",
        "-2147483649", "99999999999999999999999", "-99999999999999999999999",
        "00000000000000000000000000000001", "", "+", "-", "--1", "+-1", "1-", " 1", "1 ", "1.0",
        "1e3", "0x10", "١٢", "1_000", "12a", "a12",
    ];
    for case in cases {
        assert_eq!(parse_integer(&letters(case)), case.parse::<i32>().ok(), "{}", case);
    }
}

#[test]
fn parse_float_agrees_with_the_standard_library() {
    let cases = [
        "0.5", "0", "90", "-1", "+1", ".5", "5.", "-.5", "+5.", "1e5", "1E5", "1e+5", "1e-5",
        "1.5e10", ".5e1", "5.e1", "inf", "INF", "Inf", "-inf", "+inf", "infinity", "Infinity",
        "-INFINITY", "nan", "NaN", "-nan", "+NAN", "000.000", "1e0005",
        "123456789012345678901234567890.123456789", "", ".", "+", "-", "e5", ".e5", "1e", "1e+",
        "1e-", "1e5.0", "1.2.3", "--1", "+-1", " 1", "1 ", "1 e5", "0x10", "1_000", "infinit",
        "infinityy", "in", "na", "nane", "1f", "1.0f32", "e", "E", "-e1", "١",
    ];
    for case in cases {
        assert_eq!(parse_float(&letters(case)), case.parse::<f32>().is_ok(), "{}", case);
    }
}

#[test]
fn parse_flag_knows_one_and_zero_only() {
    assert_eq!(parse_flag(&letters("1")), Some(true));
    assert_eq!(parse_flag(&letters("0")), Some(false));
    assert_eq!(parse_flag(&letters("")), None);
    assert_eq!(parse_flag(&letters("01")), None);
    assert_eq!(parse_flag(&letters("y")), None);
}

#[test]
fn attribute_is_found_by_the_first_place_of_its_name() {
    let tag = letters("<Warmup Duration=\"600\" Cadence=\"90\"");
    assert_eq!(find_attribute(&tag, &letters("Duration"), Scan::AfterName), Some((18, 21)));
    assert_eq!(find_attribute(&tag, &letters("Cadence"), Scan::AfterName), Some((32, 34)));
    assert_eq!(find_attribute(&tag, &letters("Power"), Scan::AfterName), None);
}

#[test]
fn short_name_is_found_inside_a_longer_one() {
    let tag = TagText::new("<Warmup CadenceHigh=\"95\" Cadence=\"90\"");
    assert_eq!(tag.integer("Cadence", Scan::AfterName), Some(95));
    assert_eq!(tag.integer("CadenceHigh", Scan::AfterName), Some(95));
    let tag = TagText::new("<Warmup Cadence=\"90\" CadenceHigh=\"95\"");
    assert_eq!(tag.integer("Cadence", Scan::AfterName), Some(90));
    assert_eq!(tag.integer("CadenceHigh", Scan::AfterName), Some(95));
}

#[test]
fn scan_ahead_of_the_name_reads_the_first_attribute_right() {
    let tag = TagText::new("<TextEvent Duration=\"10\" message=\"hi\"");
    assert_eq!(tag.integer("Duration", Scan::BeforeName), Some(10));
}

#[test]
fn scan_ahead_of_the_name_may_read_an_earlier_value() {
    let tag = TagText::new("<TextEvent Duration=\"10\" message=\"hi\"");
    assert_eq!(tag.text("message", Scan::BeforeName), Some("10".to_string()));
    assert_eq!(tag.text("message", Scan::AfterName), Some("hi".to_string()));
}

#[test]
fn scan_ahead_of_a_name_near_the_start_gives_no_value() {
    let tag = TagText::new("message=\"hi\"");
    assert_eq!(tag.text("message", Scan::BeforeName), None);
    assert_eq!(tag.text("message", Scan::AfterName), Some("hi".to_string()));
    let tag = TagText::new("1234567message=\"hi\"");
    assert_eq!(tag.text("message", Scan::BeforeName), Some("hi".to_string()));
}

#[test]
fn typed_readers_of_a_tag() {
    let tag = TagText::new("<SteadyState Power=\"0.75\" NeverFails=\"1\" Text=\"Hold\" Zone=\"x\"");
    assert_eq!(tag.float("Power", Scan::AfterName), Some("0.75".to_string()));
    assert_eq!(tag.flag("NeverFails", Scan::AfterName), Some(true));
    assert_eq!(tag.text("Text", Scan::AfterName), Some("Hold".to_string()));
    assert_eq!(tag.integer("Zone", Scan::AfterName), None);
    assert_eq!(tag.float("Text", Scan::AfterName), None);
    assert_eq!(tag.flag("Power", Scan::AfterName), None);
    assert_eq!(tag.integer("Missing", Scan::AfterName), None);
    assert_eq!(tag.text("Missing", Scan::AfterName), None);
    assert_eq!(tag.float("Missing", Scan::AfterName), None);
    assert_eq!(tag.flag("Missing", Scan::AfterName), None);
}

fn every_text(alphabet: &[char], longest: usize) -> Vec<String> {
    let mut all = vec![String::new()];
    let mut last = vec![String::new()];
    for _ in 0..longest {
        let mut next = Vec::new();
        for text in last.iter() {
            for c in alphabet.iter() {
                let mut longer = text.clone();
                longer.push(*c);
                next.push(longer);
            }
        }
        all.extend(next.iter().cloned());
        last = next;
    }
    all
}

#[test]
fn parse_float_agrees_with_the_standard_library_on_every_short_text() {
    let alphabet = ['1', '0', '.', 'e', 'E', '-', '+', ' '];
    for case in every_text(&alphabet, 5) {
        assert_eq!(parse_float(&letters(&case)), case.parse::<f32>().is_ok(), "{:?}", case);
    }
}

#[test]
fn parse_float_agrees_with_the_standard_library_on_words() {
    let alphabet = ['i', 'n', 'f', 'a', 'N', 'I', '-', 't', 'y'];
    for case in every_text(&alphabet, 4) {
        assert_eq!(parse_float(&letters(&case)), case.parse::<f32>().is_ok(), "{:?}", case);
    }
    for prefix in ["", "+", "-", "1", " "] {
        for word in ["infinity", "INFINITY", "InFiNiTy", "infinitY", "infinite", "infinityy"] {
            let case = format!("{}{}", prefix, word);
            assert_eq!(parse_float(&letters(&case)), case.parse::<f32>().is_ok(), "{:?}", case);
        }
    }
}

#[test]
fn parse_integer_agrees_with_the_standard_library_on_every_short_text() {
    let alphabet = ['0', '7', '9', '-', '+', ' ', 'a'];
    for case in every_text(&alphabet, 5) {
        assert_eq!(parse_integer(&letters(&case)), case.parse::<i32>().ok(), "{:?}", case);
    }
    for digits in 8..13 {
        for lead in ["", "-", "+"] {
            for digit in ['1', '2', '3', '9'] {
                let mut case = lead.to_string();
                for _ in 0..digits {
                    case.push(digit);
                }
                assert_eq!(parse_integer(&letters(&case)), case.parse::<i32>().ok(), "{:?}", case);
            }
        }
    }
    for value in [2147483646i64, 2147483647, 2147483648, 2147483649, 4294967295, 4294967296] {
        for case in [format!("{}", value), format!("-{}", value), format!("+{}", value)] {
            assert_eq!(parse_integer(&letters(&case)), case.parse::<i32>().ok(), "{:?}", case);
        }
    }
}
