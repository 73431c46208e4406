use zwo_workout::annotation::{
    build_annotation, get_properties_text_event, get_properties_text_event2,
    get_properties_text_notification, text_str2enum, TextTags,
};
use zwo_workout::document::{find_top_tags, get_tag_level, get_tag_names, zwo_read};
use zwo_workout::segment::{
    build_segment, exercise_str2enum, get_properties_cooldown, get_properties_free_ride,
    get_properties_free_ride2, get_properties_intervalst, get_properties_max_effort,
    get_properties_ramp, get_properties_solid_state, get_properties_steady_state,
    get_properties_warmup, ExerciseTag,
};
use zwo_workout::timeline::{build_series, create_timeseries, PowerSample, TimeSeriesError};

fn level(sample: &PowerSample) -> f32 {
    match sample {
        PowerSample::Level(text) => text.parse::<f32>().unwrap(),
        PowerSample::Between { .. } => panic!("a point inside a ramp"),
    }
}

fn text(value: &str) -> Option<String> {
    Some(value.to_string())
}

#[test]
fn scenario_constant_warmup() {
    let workout = zwo_read("<Warmup Duration=\"600\" Cadence=\"90\" Power=\"0.5\"/>");
    assert_eq!(workout.exercise.len(), 1);
    assert!(workout.text.is_empty());
    let series = create_timeseries(workout).unwrap();
    assert_eq!(series.time.len(), 600);
    assert_eq!(series.cadence.len(), 600);
    assert_eq!(series.power.len(), 600);
    for k in 0..600 {
        assert_eq!(series.time[k], k);
        assert_eq!(series.cadence[k], 90);
        assert_eq!(level(&series.power[k]), 0.5);
    }
}

#[test]
fn scenario_steady_state_with_power_bounds() {
    let workout = zwo_read(
        "<SteadyState Duration=\"300\" Cadence=\"85\" PowerLow=\"0.6\" PowerHigh=\"0.9\"/>",
    );
    let series = create_timeseries(workout).unwrap();
    assert_eq!(series.time.len(), 300);
    assert_eq!(series.cadence.len(), 300);
    assert_eq!(series.power.len(), 300);
    assert_eq!(level(&series.power[0]), 0.6);
    assert_eq!(level(&series.power[299]), 0.9);
    for k in 1..299 {
        match &series.power[k] {
            PowerSample::Between { low, high, step, steps } => {
                assert_eq!(low, "0.6");
                assert_eq!(high, "0.9");
                assert_eq!(*step, k);
                assert_eq!(*steps, 299);
            }
            PowerSample::Level(_) => panic!("an end of the ramp inside it"),
        }
        assert_eq!(series.cadence[k], 85);
    }
}

#[test]
fn scenario_rest_day_adds_nothing() {
    let workout = zwo_read("<RestDay/><Cooldown Duration=\"120\" Cadence=\"70\" Power=\"0.3\"/>");
    assert_eq!(workout.exercise.len(), 2);
    assert!(matches!(workout.exercise[0], ExerciseTag::RestDay));
    assert!(matches!(workout.exercise[1], ExerciseTag::Cooldown(_)));
    let series = create_timeseries(workout).unwrap();
    assert_eq!(series.time.len(), 120);
    assert_eq!(series.cadence, vec![70; 120]);
    assert_eq!(series.time, (0..120).collect::<Vec<usize>>());
    for sample in series.power.iter() {
        assert_eq!(level(sample), 0.3);
    }
}

#[test]
fn scenario_tag_without_an_end_gives_nothing() {
    let workout = zwo_read("<Warmup Duration=\"600\" Cadence=\"90\" Power=\"0.5\"");
    assert!(workout.exercise.is_empty());
    assert!(workout.text.is_empty());
    let series = create_timeseries(workout).unwrap();
    assert!(series.time.is_empty());
    assert!(series.cadence.is_empty());
    assert!(series.power.is_empty());
}

#[test]
fn tag_without_an_end_before_the_next_tag_gives_nothing() {
    let workout = zwo_read(
        "<Warmup Duration=\"600\" <Cooldown Duration=\"5\" Cadence=\"70\" Power=\"0.3\"/>",
    );
    assert_eq!(workout.exercise.len(), 1);
    assert!(matches!(workout.exercise[0], ExerciseTag::Cooldown(_)));
}

#[test]
fn empty_text_gives_an_empty_workout() {
    let workout = zwo_read("");
    assert!(workout.exercise.is_empty());
    assert!(workout.text.is_empty());
    let workout = zwo_read("<workout_file><name>Easy</name></workout_file>");
    assert!(workout.exercise.is_empty());
    assert!(workout.text.is_empty());
}

#[test]
fn segments_keep_the_order_of_the_text() {
    let workout = zwo_read(
        "<workout><Cooldown Duration=\"3\"/><Warmup Duration=\"1\"/><Ramp Duration=\"2\"/>\
         <Warmup Duration=\"4\"/><SolidState/><Freeride Duration=\"5\"/></workout>",
    );
    assert_eq!(workout.exercise.len(), 6);
    match &workout.exercise[0] {
        ExerciseTag::Cooldown(s) => assert_eq!(s.duration, Some(3)),
        _ => panic!("not a cool-down"),
    }
    match &workout.exercise[1] {
        ExerciseTag::Warmup(s) => assert_eq!(s.duration, Some(1)),
        _ => panic!("not a warm-up"),
    }
    match &workout.exercise[2] {
        ExerciseTag::Ramp(s) => assert_eq!(s.duration, Some(2)),
        _ => panic!("not a ramp"),
    }
    match &workout.exercise[3] {
        ExerciseTag::Warmup(s) => assert_eq!(s.duration, Some(4)),
        _ => panic!("not a warm-up"),
    }
    assert!(matches!(workout.exercise[4], ExerciseTag::SolidState(_)));
    match &workout.exercise[5] {
        ExerciseTag::Freeride(s) => assert_eq!(s.duration, Some(5)),
        _ => panic!("not a free ride"),
    }
}

#[test]
fn annotations_keep_the_order_of_the_text() {
    let workout = zwo_read(
        "<TextNotification text=\"a\"/><textevent message=\"b\"/><TextEvent x=\"c\"/>\
         <textevent message=\"d\"/>",
    );
    assert!(workout.exercise.is_empty());
    assert_eq!(workout.text.len(), 4);
    assert!(matches!(workout.text[0], TextTags::TextNotification(_)));
    match &workout.text[1] {
        TextTags::TextEvent2(t) => assert_eq!(t.message, text("b")),
        _ => panic!("not a text event"),
    }
    assert!(matches!(workout.text[2], TextTags::TextEvent(_)));
    match &workout.text[3] {
        TextTags::TextEvent2(t) => assert_eq!(t.message, text("d")),
        _ => panic!("not a text event"),
    }
}

#[test]
fn annotation_nested_two_deep_has_no_back_reference() {
    let workout = zwo_read(
        "<workout><SteadyState Duration=\"10\" Cadence=\"80\" Power=\"0.5\">\
         <textevent timeoffset=\"5\" message=\"Go\"/></SteadyState></workout>",
    );
    assert_eq!(workout.exercise.len(), 1);
    assert_eq!(workout.text.len(), 1);
    match &workout.text[0] {
        TextTags::TextEvent2(t) => {
            assert_eq!(t.time_offset, Some(5));
            assert_eq!(t.message, text("Go"));
            assert_eq!(t.duration, None);
            assert_eq!(t.distoffset, None);
            assert_eq!(t.text_scale, None);
            assert_eq!(t.level, Some(2));
            assert_eq!(t.previous_element, None);
        }
        _ => panic!("not a text event"),
    }
}

#[test]
fn annotation_nested_deeper_counts_the_segments_before_it() {
    let workout = zwo_read(
        "<workout_file><workout><Warmup Duration=\"10\" Cadence=\"80\" Power=\"0.5\"/>\
         <SteadyState Duration=\"10\" Cadence=\"80\" Power=\"0.5\">\
         <textevent timeoffset=\"5\" message=\"Go\"/>\
         <textevent timeoffset=\"8\" message=\"On\"/></SteadyState>\
         <Cooldown Duration=\"10\" Cadence=\"80\" Power=\"0.5\"/></workout></workout_file>",
    );
    assert_eq!(workout.exercise.len(), 3);
    assert_eq!(workout.text.len(), 2);
    match &workout.text[0] {
        TextTags::TextEvent2(t) => {
            assert_eq!(t.message, text("Go"));
            assert_eq!(t.level, Some(3));
            assert_eq!(t.previous_element, Some(2));
        }
        _ => panic!("not a text event"),
    }
    match &workout.text[1] {
        TextTags::TextEvent2(t) => {
            assert_eq!(t.message, text("On"));
            assert_eq!(t.level, Some(3));
            assert_eq!(t.previous_element, Some(2));
        }
        _ => panic!("not a text event"),
    }
}

#[test]
fn tag_names_are_the_known_ones() {
    let (category, exercise, text) = get_tag_names();
    assert_eq!(category, ["author", "name", "description", "workout", "sportType", "tags"]);
    assert_eq!(
        exercise,
        [
            "Warmup",
            "SteadyState",
            "Cooldown",
            "FreeRide",
            "Freeride",
            "IntervalsT",
            "MaxEffort",
            "Ramp",
            "RestDay",
            "SolidState"
        ]
    );
    assert_eq!(text, ["textevent", "TextEvent", "TextNotification"]);
}

#[test]
fn top_tags_are_found_tag_by_tag() {
    let doc = "<Ramp/><Warmup/><Ramp></Ramp><Warmup".to_string();
    let tags = vec!["Warmup".to_string(), "Ramp".to_string()];
    assert_eq!(find_top_tags(&doc, &tags), vec![7, 29, 0, 16]);
    assert_eq!(find_top_tags(&doc, &vec!["Cooldown".to_string()]), Vec::<usize>::new());
    assert_eq!(find_top_tags(&doc, &Vec::new()), Vec::<usize>::new());
    assert_eq!(find_top_tags(&String::new(), &tags), Vec::<usize>::new());
}

#[test]
fn top_tags_leave_out_closing_tags() {
    let doc = "</Warmup><Warmup>".to_string();
    assert_eq!(find_top_tags(&doc, &vec!["Warmup".to_string()]), vec![9]);
}

#[test]
fn tag_level_counts_what_stands_before() {
    assert_eq!(get_tag_level("<a><b><c><TextEvent", 9), 3);
    assert_eq!(get_tag_level("<a><b><c><TextEvent", 0), 0);
    assert_eq!(get_tag_level("<a><b/><c>x</c><TextEvent", 15), 1);
    assert_eq!(get_tag_level("<a><b><c>", 100), 3);
    assert_eq!(get_tag_level("", 0), 0);
}

#[test]
fn tag_level_does_not_fall_below_zero() {
    assert_eq!(get_tag_level("</a></b><c>", 11), 0);
    assert_eq!(get_tag_level("/>/>", 4), 0);
}

#[test]
fn segment_kinds_by_name() {
    assert!(matches!(exercise_str2enum("Warmup"), ExerciseTag::Warmup(_)));
    assert!(matches!(exercise_str2enum("SteadyState"), ExerciseTag::SteadyState(_)));
    assert!(matches!(exercise_str2enum("Cooldown"), ExerciseTag::Cooldown(_)));
    assert!(matches!(exercise_str2enum("FreeRide"), ExerciseTag::FreeRide(_)));
    assert!(matches!(exercise_str2enum("Freeride"), ExerciseTag::Freeride(_)));
    assert!(matches!(exercise_str2enum("IntervalsT"), ExerciseTag::IntervalsT(_)));
    assert!(matches!(exercise_str2enum("MaxEffort"), ExerciseTag::MaxEffort(_)));
    assert!(matches!(exercise_str2enum("Ramp"), ExerciseTag::Ramp(_)));
    assert!(matches!(exercise_str2enum("RestDay"), ExerciseTag::RestDay));
    assert!(matches!(exercise_str2enum("SolidState"), ExerciseTag::SolidState(_)));
    assert!(matches!(exercise_str2enum("warmup"), ExerciseTag::Unknown));
    assert!(matches!(exercise_str2enum(""), ExerciseTag::Unknown));
    match exercise_str2enum("Warmup") {
        ExerciseTag::Warmup(w) => {
            assert_eq!(w.duration, None);
            assert_eq!(w.power, None);
            assert_eq!(w.text, None);
        }
        _ => panic!("not a warm-up"),
    }
}

#[test]
fn annotation_kinds_by_name() {
    assert!(matches!(text_str2enum("TextEvent"), TextTags::TextEvent(_)));
    assert!(matches!(text_str2enum("textevent"), TextTags::TextEvent2(_)));
    assert!(matches!(text_str2enum("TextNotification"), TextTags::TextNotification(_)));
    assert!(matches!(text_str2enum("Textevent"), TextTags::Unknown));
    match text_str2enum("textevent") {
        TextTags::TextEvent2(t) => {
            assert_eq!(t.message, None);
            assert_eq!(t.level, None);
            assert_eq!(t.previous_element, None);
        }
        _ => panic!("not a text event"),
    }
}

#[test]
fn warmup_attributes() {
    let w = get_properties_warmup(
        "<Warmup Duration=\"600\" PowerLow=\"0.25\" PowerHigh=\"0.75\" pace=\"1\" \
         CadenceLow=\"80\" CadenceHigh=\"90\" CadenceResting=\"60\" Quantize=\"2\" \
         replacement_verb=\"ride\" replacement_prescription=\"easy\" Text=\"Hi\" units=\"0\" \
         Zone=\"3\"",
    );
    assert_eq!(w.duration, Some(600));
    assert_eq!(w.power_low, text("0.25"));
    assert_eq!(w.power_high, text("0.75"));
    assert_eq!(w.power, text("0.25"));
    assert_eq!(w.pace, Some(1));
    assert_eq!(w.cadence_low, Some(80));
    assert_eq!(w.cadence_high, Some(90));
    assert_eq!(w.cadence_resting, Some(60));
    assert_eq!(w.cadence, Some(80));
    assert_eq!(w.quantize, Some(2));
    assert_eq!(w.replacement_verb, text("ride"));
    assert_eq!(w.replacement_prescription, text("easy"));
    assert_eq!(w.text, text("Hi"));
    assert_eq!(w.units, Some(0));
    assert_eq!(w.zone, Some(3));
}

#[test]
fn tag_without_attributes_leaves_every_field_unset() {
    let w = get_properties_warmup("<Warmup");
    assert_eq!(w.cadence, None);
    assert_eq!(w.cadence_high, None);
    assert_eq!(w.cadence_low, None);
    assert_eq!(w.cadence_resting, None);
    assert_eq!(w.duration, None);
    assert_eq!(w.pace, None);
    assert_eq!(w.power, None);
    assert_eq!(w.power_high, None);
    assert_eq!(w.power_low, None);
    assert_eq!(w.quantize, None);
    assert_eq!(w.replacement_prescription, None);
    assert_eq!(w.replacement_verb, None);
    assert_eq!(w.text, None);
    assert_eq!(w.units, None);
    assert_eq!(w.zone, None);
}

#[test]
fn attribute_that_cannot_be_read_leaves_the_others() {
    let w = get_properties_warmup("<Warmup Duration=\"ten\" Cadence=\"90\" Power=\"much\"");
    assert_eq!(w.duration, None);
    assert_eq!(w.cadence, Some(90));
    assert_eq!(w.power, None);
}

#[test]
fn steady_state_attributes() {
    let s = get_properties_steady_state(
        "<SteadyState Duration=\"300\" Cadence=\"85\" Power=\"0.8\" NeverFails=\"1\" \
         ramptest=\"0\" show_avg=\"1\" Target=\"1.5\" OffPower=\"0.4\" \
         FailThresholdDuration=\"2.5\" Forced_Performance_Test=\"1\" \
         forced_performance_test=\"2\"",
    );
    assert_eq!(s.duration, Some(300));
    assert_eq!(s.cadence, Some(85));
    assert_eq!(s.never_fails, Some(true));
    assert_eq!(s.ramp_test, Some(false));
    assert_eq!(s.show_average, Some(true));
    assert_eq!(s.target, text("1.5"));
    assert_eq!(s.off_power, text("0.4"));
    assert_eq!(s.fail_threshold_duration, text("2.5"));
    assert_eq!(s.forced_performance_test1, Some(1));
    assert_eq!(s.forced_performance_test2, Some(2));
    assert_eq!(s.power, text("0.8"));
    assert_eq!(s.power_low, None);
    assert_eq!(s.text, None);
}

#[test]
fn cooldown_has_two_paces() {
    let c = get_properties_cooldown(
        "<Cooldown Duration=\"120\" pace=\"1\" Pace=\"2\" end_at_road_time=\"3.5\"",
    );
    assert_eq!(c.duration, Some(120));
    assert_eq!(c.pace, Some(1));
    assert_eq!(c.pace2, Some(2));
    assert_eq!(c.end_at_road_time, text("3.5"));
}

#[test]
fn free_ride_attributes() {
    let f = get_properties_free_ride(
        "<FreeRide Duration=\"60\" FlatRoad=\"1\" ftptest=\"0\" Cadence=\"90\" Power=\"0.5\"",
    );
    assert_eq!(f.duration, Some(60));
    assert_eq!(f.flat_road, Some(true));
    assert_eq!(f.ftp_test, Some(false));
    assert_eq!(f.cadence, Some(90));
    assert_eq!(f.power, text("0.5"));
    let f = get_properties_free_ride2("<Freeride Duration=\"60\" FlatRoad=\"0\" ftptest=\"1\"");
    assert_eq!(f.duration, Some(60));
    assert_eq!(f.flat_road, Some(false));
    assert_eq!(f.ftp_test, Some(true));
}

#[test]
fn intervals_attributes() {
    let i = get_properties_intervalst(
        "<IntervalsT Repeat=\"4\" OnDuration=\"30\" OffDuration=\"15\" OnPower=\"1.2\" \
         OffPower=\"0.5\" OverUnder=\"1\" PowerOnZone=\"5\" PowerOffZone=\"1\" \
         PowerOnLow=\"1.0\" PowerOnHigh=\"1.3\" PowerOffLow=\"0.4\" PowerOffHigh=\"0.6\"",
    );
    assert_eq!(i.repeat, Some(4));
    assert_eq!(i.on_duration, text("30"));
    assert_eq!(i.off_duration, text("15"));
    assert_eq!(i.on_power, text("1.2"));
    assert_eq!(i.off_power, text("0.5"));
    assert_eq!(i.over_under, Some(true));
    assert_eq!(i.power_on_zone, Some(5));
    assert_eq!(i.power_off_zone, Some(1));
    assert_eq!(i.power_on_low, text("1.0"));
    assert_eq!(i.power_on_high, text("1.3"));
    assert_eq!(i.power_off_low, text("0.4"));
    assert_eq!(i.power_off_high, text("0.6"));
    assert_eq!(i.cadence, None);
}

#[test]
fn ramp_attributes() {
    let r = get_properties_ramp(
        "<Ramp Duration=\"90\" PowerLow=\"0.3\" PowerHigh=\"0.9\" Cadence=\"88\" show_avg=\"0\"",
    );
    assert_eq!(r.duration, Some(90));
    assert_eq!(r.power_low, text("0.3"));
    assert_eq!(r.power_high, text("0.9"));
    assert_eq!(r.cadence, Some(88));
    assert_eq!(r.show_average, Some(false));
}

#[test]
fn max_effort_and_solid_state_scan_ahead_of_lower_case_names() {
    let m = get_properties_max_effort("<MaxEffort duration=\"30\"");
    assert_eq!(m.duration, Some(30));
    let m = get_properties_max_effort("<MaxEffort Duration=\"30\"");
    assert_eq!(m.duration, None);
    let s = get_properties_solid_state("<SolidState duration=\"30\" power=\"0.5\"");
    assert_eq!(s.duration, Some(30));
    assert_eq!(s.power, text("30"));
    let s = get_properties_solid_state("<SolidState power=\"0.5\"");
    assert_eq!(s.power, text("0.5"));
}

#[test]
fn text_event_attributes() {
    let t = get_properties_text_event("<TextEvent Duration=\"10\" message=\"hi\"");
    assert_eq!(t.duration, Some(10));
    assert_eq!(t.message, text("10"));
    assert_eq!(t.time_offset, None);
    assert_eq!(t.time_offset2, None);
    assert_eq!(t.level, None);
    assert_eq!(t.previous_element, None);
    let t = get_properties_text_event("<TextEvent TimeOffset=\"7\" timeoffset=\"9\"");
    assert_eq!(t.time_offset, Some(7));
    assert_eq!(t.time_offset2, Some(7));
}

#[test]
fn lower_case_text_event_attributes() {
    let t = get_properties_text_event2(
        "<textevent timeoffset=\"20\" message=\"Spin\" duration=\"5\" distoffset=\"100\"",
    );
    assert_eq!(t.time_offset, Some(20));
    assert_eq!(t.message, text("Spin"));
    assert_eq!(t.duration, Some(5));
    assert_eq!(t.distoffset, Some(100));
    assert_eq!(t.text_scale, None);
    assert_eq!(t.level, None);
    assert_eq!(t.previous_element, None);
}

#[test]
fn text_notification_attributes() {
    let t = get_properties_text_notification("<TextNotification text=\"Drink\" duration=\"3\"");
    assert_eq!(t.text, text("Drink"));
    assert_eq!(t.duration, None);
    let t = get_properties_text_notification("<TextNotification duration=\"3\" text=\"Drink\"");
    assert_eq!(t.duration, Some(3));
    assert_eq!(t.text, text("3"));
    let t = get_properties_text_notification("<TextNotification timeoffset=\"12\"");
    assert_eq!(t.time_offset, Some(12));
    assert_eq!(t.level, None);
}

#[test]
fn build_segment_decodes_by_name() {
    match build_segment("Ramp", "<Ramp Duration=\"9\"") {
        ExerciseTag::Ramp(r) => assert_eq!(r.duration, Some(9)),
        _ => panic!("not a ramp"),
    }
    assert!(matches!(build_segment("RestDay", "<RestDay/"), ExerciseTag::RestDay));
    assert!(matches!(build_segment("Nothing", "<Nothing/"), ExerciseTag::Unknown));
}

#[test]
fn build_annotation_records_level_and_segments() {
    match build_annotation("textevent", "<textevent message=\"x\"", 3, 4) {
        TextTags::TextEvent2(t) => {
            assert_eq!(t.message, text("x"));
            assert_eq!(t.level, Some(3));
            assert_eq!(t.previous_element, Some(4));
        }
        _ => panic!("not a text event"),
    }
    match build_annotation("TextEvent", "<TextEvent", 2, 4) {
        TextTags::TextEvent(t) => {
            assert_eq!(t.level, Some(2));
            assert_eq!(t.previous_element, None);
        }
        _ => panic!("not a text event"),
    }
    match build_annotation("TextNotification", "<TextNotification", 0, 0) {
        TextTags::TextNotification(t) => {
            assert_eq!(t.level, Some(0));
            assert_eq!(t.previous_element, None);
        }
        _ => panic!("not a notification"),
    }
    assert!(matches!(build_annotation("other", "<other", 5, 1), TextTags::Unknown));
}

#[test]
fn segment_without_duration_fails() {
    let outcome = get_properties_warmup("<Warmup Cadence=\"90\" Power=\"0.5\"").to_time_series();
    assert_eq!(outcome.unwrap_err(), TimeSeriesError);
}

#[test]
fn segment_without_cadence_fails() {
    let outcome = get_properties_warmup("<Warmup Duration=\"10\" Power=\"0.5\"").to_time_series();
    assert!(outcome.is_err());
    let power = Some("0.5".to_string());
    let outcome = build_series(Some(10), None, Some(80), None, &power, &None, &None);
    assert!(outcome.is_err());
    let outcome = build_series(Some(10), None, None, Some(90), &power, &None, &None);
    assert!(outcome.is_err());
}

#[test]
fn segment_without_power_fails() {
    let outcome = get_properties_cooldown("<Cooldown Duration=\"10\" Cadence=\"80\"").to_time_series();
    assert!(outcome.is_err());
    let outcome = build_series(
        Some(10),
        Some(80),
        None,
        None,
        &None,
        &None,
        &Some("0.9".to_string()),
    );
    assert!(outcome.is_err());
}

#[test]
fn segment_kinds_without_cadence_or_power_fail() {
    assert!(get_properties_free_ride2("<Freeride Duration=\"10\"").to_time_series().is_err());
    assert!(get_properties_max_effort("<MaxEffort duration=\"10\"").to_time_series().is_err());
    assert!(get_properties_solid_state("<SolidState power=\"1\"").to_time_series().is_err());
    assert!(get_properties_intervalst("<IntervalsT Cadence=\"90\" OnPower=\"1\"")
        .to_time_series()
        .is_err());
}

#[test]
fn missing_field_fails_the_whole_workout() {
    let workout = zwo_read(
        "<Warmup Duration=\"10\" Cadence=\"90\" Power=\"0.5\"/><Cooldown Cadence=\"70\" \
         Power=\"0.3\"/><Warmup Duration=\"10\" Cadence=\"90\" Power=\"0.5\"/>",
    );
    assert_eq!(workout.exercise.len(), 3);
    let outcome = create_timeseries(workout);
    assert_eq!(outcome.unwrap_err(), TimeSeriesError);
}

#[test]
fn failure_in_words() {
    assert_eq!(TimeSeriesError.message(), "Missing essential field.");
}

#[test]
fn time_starts_again_with_every_segment() {
    let workout = zwo_read(
        "<Warmup Duration=\"3\" Cadence=\"90\" Power=\"0.5\"/><RestDay/>\
         <Cooldown Duration=\"2\" Cadence=\"70\" Power=\"0.3\"/>",
    );
    let series = create_timeseries(workout).unwrap();
    assert_eq!(series.time, vec![0, 1, 2, 0, 1]);
    assert_eq!(series.cadence, vec![90, 90, 90, 70, 70]);
    let power: Vec<f32> = series.power.iter().map(level).collect();
    assert_eq!(power, vec![0.5, 0.5, 0.5, 0.3, 0.3]);
}

#[test]
fn cadence_bounds_give_a_stepped_ramp() {
    let series = build_series(
        Some(10),
        None,
        Some(0),
        Some(3),
        &Some("1".to_string()),
        &None,
        &None,
    )
    .unwrap();
    assert_eq!(series.cadence, vec![0, 0, 0, 1, 1, 1, 2, 2, 3, 3]);
    assert_eq!(series.time, (0..10).collect::<Vec<usize>>());
}

#[test]
fn bounds_are_taken_before_the_single_value() {
    let series = build_series(
        Some(4),
        Some(50),
        Some(80),
        Some(83),
        &Some("0.1".to_string()),
        &Some("0.2".to_string()),
        &Some("0.8".to_string()),
    )
    .unwrap();
    assert_eq!(series.cadence, vec![80, 81, 82, 83]);
    assert_eq!(level(&series.power[0]), 0.2);
    assert_eq!(level(&series.power[3]), 0.8);
    assert!(matches!(series.power[1], PowerSample::Between { step: 1, steps: 3, .. }));
    assert!(matches!(series.power[2], PowerSample::Between { step: 2, steps: 3, .. }));
}

#[test]
fn power_ramp_of_one_or_two_seconds() {
    let low = Some("0.2".to_string());
    let high = Some("0.8".to_string());
    let series = build_series(Some(1), Some(90), None, None, &None, &low, &high).unwrap();
    assert_eq!(series.power.len(), 1);
    assert_eq!(level(&series.power[0]), 0.2);
    let series = build_series(Some(2), Some(90), None, None, &None, &low, &high).unwrap();
    assert_eq!(series.power.len(), 2);
    assert_eq!(level(&series.power[0]), 0.2);
    assert_eq!(level(&series.power[1]), 0.8);
}

#[test]
fn duration_of_zero_or_less_gives_no_samples() {
    let power = Some("0.5".to_string());
    let series = build_series(Some(0), Some(90), None, None, &power, &None, &None).unwrap();
    assert!(series.time.is_empty() && series.cadence.is_empty() && series.power.is_empty());
    let series = build_series(Some(-5), Some(90), None, None, &power, &None, &None).unwrap();
    assert!(series.time.is_empty() && series.cadence.is_empty() && series.power.is_empty());
}

#[test]
fn rest_day_and_unknown_give_no_series() {
    assert!(ExerciseTag::RestDay.to_time_series().is_none());
    assert!(ExerciseTag::Unknown.to_time_series().is_none());
    assert!(exercise_str2enum("MaxEffort").to_time_series().unwrap().is_err());
}

#[test]
fn power_ramp_is_evenly_spaced() {
    let low = Some("0.5".to_string());
    let high = Some("1.0".to_string());
    let series = build_series(Some(6), Some(90), None, None, &None, &low, &high).unwrap();
    let mut values: Vec<f32> = Vec::new();
    for sample in series.power.iter() {
        match sample {
            PowerSample::Level(text) => values.push(text.parse::<f32>().unwrap()),
            PowerSample::Between { low, high, step, steps } => {
                let start = low.parse::<f32>().unwrap();
                let end = high.parse::<f32>().unwrap();
                values.push(start + (*step as f32) * (end - start) / (*steps as f32));
            }
        }
    }
    assert_eq!(values.len(), 6);
    assert_eq!(values[0], 0.5);
    assert_eq!(values[5], 1.0);
    for k in 0..6 {
        assert!((values[k] - (0.5 + 0.1 * k as f32)).abs() < 1e-6);
    }
}
