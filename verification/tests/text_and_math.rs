use zwo_workout::math::int_linspace;
use zwo_workout::text::{chars_of, count, find, find_from, get_substr, starts_at, str_eq};

fn chars(s: &str) -> Vec<char> {
    s.chars().collect()
}

#[test]
fn linspace_spreads_the_remainder_over_the_first_values() {
    assert_eq!(int_linspace(0, 3, 10), vec![0, 0, 0, 1, 1, 1, 2, 2, 3, 3]);
}

#[test]
fn linspace_with_an_even_share() {
    assert_eq!(int_linspace(1, 3, 6), vec![1, 1, 2, 2, 3, 3]);
}

#[test]
fn linspace_with_one_sample_per_value() {
    assert_eq!(int_linspace(7, 10, 4), vec![7, 8, 9, 10]);
}

#[test]
fn linspace_of_equal_bounds_is_flat() {
    assert_eq!(int_linspace(5, 5, 3), vec![5, 5, 5]);
}

#[test]
fn linspace_runs_down_where_the_start_is_above_the_end() {
    assert_eq!(int_linspace(3, 0, 4), vec![3, 2, 1, 0]);
    assert_eq!(int_linspace(3, 0, 6), vec![3, 3, 2, 2, 1, 0]);
}

#[test]
fn linspace_with_fewer_samples_than_values_stops_short() {
    assert_eq!(int_linspace(0, 10, 3), vec![0, 1, 2]);
    assert_eq!(int_linspace(80, 100, 5), vec![80, 81, 82, 83, 84]);
}

#[test]
fn linspace_of_no_samples_is_empty() {
    assert_eq!(int_linspace(0, 1, 0), Vec::<i32>::new());
    assert_eq!(int_linspace(4, 4, 0), Vec::<i32>::new());
}

#[test]
fn linspace_over_the_whole_range_of_values() {
    assert_eq!(int_linspace(i32::MIN, i32::MAX, 2), vec![i32::MIN, i32::MIN + 1]);
    assert_eq!(int_linspace(i32::MAX, i32::MIN, 2), vec![i32::MAX, i32::MAX - 1]);
}

#[test]
fn linspace_has_the_length_asked_for_and_both_ends() {
    for length in 21..200usize {
        let ramp = int_linspace(80, 100, length);
        assert_eq!(ramp.len(), length);
        assert_eq!(ramp[0], 80);
        assert_eq!(ramp[length - 1], 100);
        for k in 1..length {
            assert!(ramp[k] == ramp[k - 1] || ramp[k] == ramp[k - 1] + 1);
        }
    }
}

#[test]
fn linspace_shares_differ_by_one_at_most() {
    let ramp = int_linspace(0, 6, 45);
    let mut shares = [0usize; 7];
    for v in ramp.iter() {
        shares[*v as usize] += 1;
    }
    assert_eq!(shares, [7, 7, 7, 6, 6, 6, 6]);
}

#[test]
fn chars_of_keeps_every_character() {
    assert_eq!(chars_of("a<b é"), vec!['a', '<', 'b', ' ', 'é']);
    assert_eq!(chars_of(""), Vec::<char>::new());
}

#[test]
fn starts_at_tells_a_match_from_a_miss() {
    let hay = chars("<Warmup Duration");
    assert!(starts_at(&hay, &chars("<Warmup"), 0));
    assert!(!starts_at(&hay, &chars("<Warmup"), 1));
    assert!(starts_at(&hay, &chars("Duration"), 8));
    assert!(!starts_at(&hay, &chars("Duration"), 9));
    assert!(!starts_at(&hay, &chars("Durations"), 8));
    assert!(starts_at(&hay, &chars(""), 16));
    assert!(!starts_at(&hay, &chars(""), 17));
}

#[test]
fn find_gives_the_first_place() {
    let hay = chars("CadenceHigh=\"1\" Cadence=\"2\"");
    assert_eq!(find(&hay, &chars("Cadence")), Some(0));
    assert_eq!(find(&hay, &chars("High")), Some(7));
    assert_eq!(find(&hay, &chars("Low")), None);
    assert_eq!(find_from(&hay, &chars("Cadence"), 1), Some(16));
    assert_eq!(find_from(&hay, &chars("Cadence"), 17), None);
    assert_eq!(find_from(&hay, &chars("Cadence"), 1000), None);
    assert_eq!(find(&chars(""), &chars("a")), None);
    assert_eq!(find(&chars("abc"), &chars("")), Some(0));
}

#[test]
fn find_agrees_with_the_search_of_the_standard_library() {
    let hays = ["<a><b/></a>", "aaaa", "", "abcabcabd", "xx\"yy\"zz"];
    let needles = ["<", "</", "/>", "aa", "abd", "\"", "zz", "q"];
    for hay in hays {
        for needle in needles {
            assert_eq!(find(&chars(hay), &chars(needle)), hay.find(needle));
        }
    }
}

#[test]
fn count_counts_every_place() {
    assert_eq!(count(&chars("<a><b/></a>"), &chars("<")), 3);
    assert_eq!(count(&chars("<a><b/></a>"), &chars("</")), 1);
    assert_eq!(count(&chars("<a><b/></a>"), &chars("/>")), 1);
    assert_eq!(count(&chars(""), &chars("<")), 0);
    assert_eq!(count(&chars("aaaa"), &chars("aa")), 3);
}

#[test]
fn get_substr_takes_the_part_between_two_places() {
    assert_eq!(get_substr("hello world", 0, 5), "hello");
    assert_eq!(get_substr("hello world", 6, 11), "world");
    assert_eq!(get_substr("hello world", 3, 3), "");
}

#[test]
fn get_substr_leaves_out_what_lies_beyond_the_end() {
    assert_eq!(get_substr("hello", 2, 100), "llo");
    assert_eq!(get_substr("hello", 5, 100), "");
    assert_eq!(get_substr("hello", 50, 100), "");
    assert_eq!(get_substr("", 0, 1), "");
}

#[test]
fn get_substr_is_empty_where_the_start_is_behind_the_end() {
    assert_eq!(get_substr("hello", 4, 2), "");
}

#[test]
fn get_substr_counts_characters() {
    assert_eq!(get_substr("aébc", 1, 3), "éb");
}

#[test]
fn str_eq_compares_the_characters() {
    assert!(str_eq("Warmup", "Warmup"));
    assert!(!str_eq("Warmup", "warmup"));
    assert!(!str_eq("Warmup", "Warmu"));
    assert!(str_eq("", ""));
}

#[test]
fn linspace_shares_are_even_for_every_small_ramp() {
    for start in -3..4i32 {
        for end in -3..4i32 {
            for length in 0..25usize {
                let ramp = int_linspace(start, end, length);
                assert_eq!(ramp.len(), length);
                let values = (end - start).unsigned_abs() as usize + 1;
                let mut shares = vec![0usize; values];
                for (k, v) in ramp.iter().enumerate() {
                    let step = (*v - start).unsigned_abs() as usize;
                    assert!(step < values);
                    shares[step] += 1;
                    if k > 0 {
                        assert!((ramp[k] - start).abs() >= (ramp[k - 1] - start).abs());
                    }
                }
                for step in 0..values {
                    let share = length / values + if step < length % values { 1 } else { 0 };
                    assert_eq!(shares[step], share);
                }
            }
        }
    }
}

#[test]
fn count_agrees_with_the_standard_library_where_matches_cannot_overlap() {
    let hays = ["<a><b/></a>", "</></>", "", "<<//>>", "<workout><x/></workout>"];
    let needles = ["<", "</", "/>", ">"];
    for hay in hays {
        for needle in needles {
            assert_eq!(count(&chars(hay), &chars(needle)), hay.matches(needle).count());
        }
    }
}
