//! Workout segments.
//!
//! A segment is one block of a workout. Every kind has its own set of
//! attributes, and each attribute may be missing: a field holds a value only
//! where the tag gave one that could be read. Floating-point attributes are
//! kept as the literals that the tag wrote.

use vstd::prelude::*;
use crate::attribute::{flag_in, float_in, integer_in, text_in, text_of, Scan, TagText};
use crate::text::str_eq;

verus! {

/// A warm-up block.
#[derive(Clone, Debug)]
pub struct Warmup {
    /// The attribute `Cadence`, a whole number.
    pub cadence: Option<i32>,
    /// The attribute `CadenceHigh`, a whole number.
    pub cadence_high: Option<i32>,
    /// The attribute `CadenceLow`, a whole number.
    pub cadence_low: Option<i32>,
    /// The attribute `CadenceResting`, a whole number.
    pub cadence_resting: Option<i32>,
    /// The attribute `Duration`, a whole number.
    pub duration: Option<i32>,
    /// The attribute `pace`, a whole number.
    pub pace: Option<i32>,
    /// The attribute `Power`, a floating-point literal, kept as written.
    pub power: Option<String>,
    /// The attribute `PowerHigh`, a floating-point literal, kept as written.
    pub power_high: Option<String>,
    /// The attribute `PowerLow`, a floating-point literal, kept as written.
    pub power_low: Option<String>,
    /// The attribute `Quantize`, a whole number.
    pub quantize: Option<i32>,
    /// The attribute `replacement_prescription`, text.
    pub replacement_prescription: Option<String>,
    /// The attribute `replacement_verb`, text.
    pub replacement_verb: Option<String>,
    /// The attribute `Text`, text.
    pub text: Option<String>,
    /// The attribute `units`, a whole number.
    pub units: Option<i32>,
    /// The attribute `Zone`, a whole number.
    pub zone: Option<i32>,
}

impl Warmup {
    /// No field holds a value.
    pub open spec fn is_blank(&self) -> bool {
        &&& self.cadence is None
        &&& self.cadence_high is None
        &&& self.cadence_low is None
        &&& self.cadence_resting is None
        &&& self.duration is None
        &&& self.pace is None
        &&& self.power is None
        &&& self.power_high is None
        &&& self.power_low is None
        &&& self.quantize is None
        &&& self.replacement_prescription is None
        &&& self.replacement_verb is None
        &&& self.text is None
        &&& self.units is None
        &&& self.zone is None
    }

    /// Every field that an attribute fills holds what the text of the tag
    /// gives for that attribute; the scan for a value starts behind the name.
    pub open spec fn decoded_from(&self, chunk: Seq<char>) -> bool {
        &&& self.cadence == integer_in(chunk, "Cadence", Scan::AfterName)
        &&& self.cadence_high == integer_in(chunk, "CadenceHigh", Scan::AfterName)
        &&& self.cadence_low == integer_in(chunk, "CadenceLow", Scan::AfterName)
        &&& self.cadence_resting == integer_in(chunk, "CadenceResting", Scan::AfterName)
        &&& self.duration == integer_in(chunk, "Duration", Scan::AfterName)
        &&& self.pace == integer_in(chunk, "pace", Scan::AfterName)
        &&& text_of(self.power) == float_in(chunk, "Power", Scan::AfterName)
        &&& text_of(self.power_high) == float_in(chunk, "PowerHigh", Scan::AfterName)
        &&& text_of(self.power_low) == float_in(chunk, "PowerLow", Scan::AfterName)
        &&& self.quantize == integer_in(chunk, "Quantize", Scan::AfterName)
        &&& text_of(self.replacement_prescription) == text_in(chunk, "replacement_prescription", Scan::AfterName)
        &&& text_of(self.replacement_verb) == text_in(chunk, "replacement_verb", Scan::AfterName)
        &&& text_of(self.text) == text_in(chunk, "Text", Scan::AfterName)
        &&& self.units == integer_in(chunk, "units", Scan::AfterName)
        &&& self.zone == integer_in(chunk, "Zone", Scan::AfterName)
    }
}

/// A block ridden at a steady effort.
#[derive(Clone, Debug)]
pub struct SteadyState {
    /// The attribute `Cadence`, a whole number.
    pub cadence: Option<i32>,
    /// The attribute `CadenceHigh`, a whole number.
    pub cadence_high: Option<i32>,
    /// The attribute `CadenceLow`, a whole number.
    pub cadence_low: Option<i32>,
    /// The attribute `CadenceResting`, a whole number.
    pub cadence_resting: Option<i32>,
    /// The attribute `Duration`, a whole number.
    pub duration: Option<i32>,
    /// The attribute `FailThresholdDuration`, a floating-point literal, kept as written.
    pub fail_threshold_duration: Option<String>,
    /// The attribute `Forced_Performance_Test`, a whole number.
    pub forced_performance_test1: Option<i32>,
    /// The attribute `forced_performance_test`, a whole number.
    pub forced_performance_test2: Option<i32>,
    /// The attribute `NeverFails`, a switch.
    pub never_fails: Option<bool>,
    /// The attribute `OffPower`, a floating-point literal, kept as written.
    pub off_power: Option<String>,
    /// The attribute `pace`, a whole number.
    pub pace: Option<i32>,
    /// The attribute `Power`, a floating-point literal, kept as written.
    pub power: Option<String>,
    /// The attribute `PowerHigh`, a floating-point literal, kept as written.
    pub power_high: Option<String>,
    /// The attribute `PowerLow`, a floating-point literal, kept as written.
    pub power_low: Option<String>,
    /// The attribute `ramptest`, a switch.
    pub ramp_test: Option<bool>,
    /// The attribute `replacement_prescription`, text.
    pub replacement_prescription: Option<String>,
    /// The attribute `replacement_verb`, text.
    pub replacement_verb: Option<String>,
    /// The attribute `show_avg`, a switch.
    pub show_average: Option<bool>,
    /// The attribute `Target`, a floating-point literal, kept as written.
    pub target: Option<String>,
    /// The attribute `Text`, text.
    pub text: Option<String>,
    /// The attribute `units`, a whole number.
    pub units: Option<i32>,
    /// The attribute `Zone`, a whole number.
    pub zone: Option<i32>,
}

impl SteadyState {
    /// No field holds a value.
    pub open spec fn is_blank(&self) -> bool {
        &&& self.cadence is None
        &&& self.cadence_high is None
        &&& self.cadence_low is None
        &&& self.cadence_resting is None
        &&& self.duration is None
        &&& self.fail_threshold_duration is None
        &&& self.forced_performance_test1 is None
        &&& self.forced_performance_test2 is None
        &&& self.never_fails is None
        &&& self.off_power is None
        &&& self.pace is None
        &&& self.power is None
        &&& self.power_high is None
        &&& self.power_low is None
        &&& self.ramp_test is None
        &&& self.replacement_prescription is None
        &&& self.replacement_verb is None
        &&& self.show_average is None
        &&& self.target is None
        &&& self.text is None
        &&& self.units is None
        &&& self.zone is None
    }

    /// Every field that an attribute fills holds what the text of the tag
    /// gives for that attribute; the scan for a value starts behind the name.
    pub open spec fn decoded_from(&self, chunk: Seq<char>) -> bool {
        &&& self.cadence == integer_in(chunk, "Cadence", Scan::AfterName)
        &&& self.cadence_high == integer_in(chunk, "CadenceHigh", Scan::AfterName)
        &&& self.cadence_low == integer_in(chunk, "CadenceLow", Scan::AfterName)
        &&& self.cadence_resting == integer_in(chunk, "CadenceResting", Scan::AfterName)
        &&& self.duration == integer_in(chunk, "Duration", Scan::AfterName)
        &&& text_of(self.fail_threshold_duration) == float_in(chunk, "FailThresholdDuration", Scan::AfterName)
        &&& self.forced_performance_test1 == integer_in(chunk, "Forced_Performance_Test", Scan::AfterName)
        &&& self.forced_performance_test2 == integer_in(chunk, "forced_performance_test", Scan::AfterName)
        &&& self.never_fails == flag_in(chunk, "NeverFails", Scan::AfterName)
        &&& text_of(self.off_power) == float_in(chunk, "OffPower", Scan::AfterName)
        &&& self.pace == integer_in(chunk, "pace", Scan::AfterName)
        &&& text_of(self.power) == float_in(chunk, "Power", Scan::AfterName)
        &&& text_of(self.power_high) == float_in(chunk, "PowerHigh", Scan::AfterName)
        &&& text_of(self.power_low) == float_in(chunk, "PowerLow", Scan::AfterName)
        &&& self.ramp_test == flag_in(chunk, "ramptest", Scan::AfterName)
        &&& text_of(self.replacement_prescription) == text_in(chunk, "replacement_prescription", Scan::AfterName)
        &&& text_of(self.replacement_verb) == text_in(chunk, "replacement_verb", Scan::AfterName)
        &&& self.show_average == flag_in(chunk, "show_avg", Scan::AfterName)
        &&& text_of(self.target) == float_in(chunk, "Target", Scan::AfterName)
        &&& text_of(self.text) == text_in(chunk, "Text", Scan::AfterName)
        &&& self.units == integer_in(chunk, "units", Scan::AfterName)
        &&& self.zone == integer_in(chunk, "Zone", Scan::AfterName)
    }
}

/// A cool-down block.
#[derive(Clone, Debug)]
pub struct Cooldown {
    /// The attribute `Cadence`, a whole number.
    pub cadence: Option<i32>,
    /// The attribute `CadenceHigh`, a whole number.
    pub cadence_high: Option<i32>,
    /// The attribute `CadenceLow`, a whole number.
    pub cadence_low: Option<i32>,
    /// The attribute `CadenceResting`, a whole number.
    pub cadence_resting: Option<i32>,
    /// The attribute `Duration`, a whole number.
    pub duration: Option<i32>,
    /// The attribute `end_at_road_time`, a floating-point literal, kept as written.
    pub end_at_road_time: Option<String>,
    /// The attribute `pace`, a whole number.
    pub pace: Option<i32>,
    /// The attribute `Pace`, a whole number.
    pub pace2: Option<i32>,
    /// The attribute `Power`, a floating-point literal, kept as written.
    pub power: Option<String>,
    /// The attribute `PowerHigh`, a floating-point literal, kept as written.
    pub power_high: Option<String>,
    /// The attribute `PowerLow`, a floating-point literal, kept as written.
    pub power_low: Option<String>,
    /// The attribute `replacement_prescription`, text.
    pub replacement_prescription: Option<String>,
    /// The attribute `replacement_verb`, text.
    pub replacement_verb: Option<String>,
    /// The attribute `units`, a whole number.
    pub units: Option<i32>,
    /// The attribute `Zone`, a whole number.
    pub zone: Option<i32>,
}

impl Cooldown {
    /// No field holds a value.
    pub open spec fn is_blank(&self) -> bool {
        &&& self.cadence is None
        &&& self.cadence_high is None
        &&& self.cadence_low is None
        &&& self.cadence_resting is None
        &&& self.duration is None
        &&& self.end_at_road_time is None
        &&& self.pace is None
        &&& self.pace2 is None
        &&& self.power is None
        &&& self.power_high is None
        &&& self.power_low is None
        &&& self.replacement_prescription is None
        &&& self.replacement_verb is None
        &&& self.units is None
        &&& self.zone is None
    }

    /// Every field that an attribute fills holds what the text of the tag
    /// gives for that attribute; the scan for a value starts behind the name.
    pub open spec fn decoded_from(&self, chunk: Seq<char>) -> bool {
        &&& self.cadence == integer_in(chunk, "Cadence", Scan::AfterName)
        &&& self.cadence_high == integer_in(chunk, "CadenceHigh", Scan::AfterName)
        &&& self.cadence_low == integer_in(chunk, "CadenceLow", Scan::AfterName)
        &&& self.cadence_resting == integer_in(chunk, "CadenceResting", Scan::AfterName)
        &&& self.duration == integer_in(chunk, "Duration", Scan::AfterName)
        &&& text_of(self.end_at_road_time) == float_in(chunk, "end_at_road_time", Scan::AfterName)
        &&& self.pace == integer_in(chunk, "pace", Scan::AfterName)
        &&& self.pace2 == integer_in(chunk, "Pace", Scan::AfterName)
        &&& text_of(self.power) == float_in(chunk, "Power", Scan::AfterName)
        &&& text_of(self.power_high) == float_in(chunk, "PowerHigh", Scan::AfterName)
        &&& text_of(self.power_low) == float_in(chunk, "PowerLow", Scan::AfterName)
        &&& text_of(self.replacement_prescription) == text_in(chunk, "replacement_prescription", Scan::AfterName)
        &&& text_of(self.replacement_verb) == text_in(chunk, "replacement_verb", Scan::AfterName)
        &&& self.units == integer_in(chunk, "units", Scan::AfterName)
        &&& self.zone == integer_in(chunk, "Zone", Scan::AfterName)
    }
}

/// A block without a set effort, written `FreeRide`.
#[derive(Clone, Debug)]
pub struct FreeRide {
    /// The attribute `Cadence`, a whole number.
    pub cadence: Option<i32>,
    /// The attribute `CadenceHigh`, a whole number.
    pub cadence_high: Option<i32>,
    /// The attribute `CadenceLow`, a whole number.
    pub cadence_low: Option<i32>,
    /// The attribute `Duration`, a whole number.
    pub duration: Option<i32>,
    /// The attribute `FailThresholdDuration`, a floating-point literal, kept as written.
    pub fail_threshold_duration: Option<String>,
    /// The attribute `FlatRoad`, a switch.
    pub flat_road: Option<bool>,
    /// The attribute `ftptest`, a switch.
    pub ftp_test: Option<bool>,
    /// The attribute `Power`, a floating-point literal, kept as written.
    pub power: Option<String>,
    /// The attribute `ramptest`, a switch.
    pub ramp_test: Option<bool>,
    /// The attribute `show_avg`, a switch.
    pub show_average: Option<bool>,
}

impl FreeRide {
    /// No field holds a value.
    pub open spec fn is_blank(&self) -> bool {
        &&& self.cadence is None
        &&& self.cadence_high is None
        &&& self.cadence_low is None
        &&& self.duration is None
        &&& self.fail_threshold_duration is None
        &&& self.flat_road is None
        &&& self.ftp_test is None
        &&& self.power is None
        &&& self.ramp_test is None
        &&& self.show_average is None
    }

    /// Every field that an attribute fills holds what the text of the tag
    /// gives for that attribute; the scan for a value starts behind the name.
    pub open spec fn decoded_from(&self, chunk: Seq<char>) -> bool {
        &&& self.cadence == integer_in(chunk, "Cadence", Scan::AfterName)
        &&& self.cadence_high == integer_in(chunk, "CadenceHigh", Scan::AfterName)
        &&& self.cadence_low == integer_in(chunk, "CadenceLow", Scan::AfterName)
        &&& self.duration == integer_in(chunk, "Duration", Scan::AfterName)
        &&& text_of(self.fail_threshold_duration) == float_in(chunk, "FailThresholdDuration", Scan::AfterName)
        &&& self.flat_road == flag_in(chunk, "FlatRoad", Scan::AfterName)
        &&& self.ftp_test == flag_in(chunk, "ftptest", Scan::AfterName)
        &&& text_of(self.power) == float_in(chunk, "Power", Scan::AfterName)
        &&& self.ramp_test == flag_in(chunk, "ramptest", Scan::AfterName)
        &&& self.show_average == flag_in(chunk, "show_avg", Scan::AfterName)
    }
}

/// A block without a set effort, written `Freeride`: a tag of its own, with fewer attributes.
#[derive(Clone, Debug)]
pub struct Freeride {
    /// The attribute `Duration`, a whole number.
    pub duration: Option<i32>,
    /// The attribute `FlatRoad`, a switch.
    pub flat_road: Option<bool>,
    /// The attribute `ftptest`, a switch.
    pub ftp_test: Option<bool>,
}

impl Freeride {
    /// No field holds a value.
    pub open spec fn is_blank(&self) -> bool {
        &&& self.duration is None
        &&& self.flat_road is None
        &&& self.ftp_test is None
    }

    /// Every field that an attribute fills holds what the text of the tag
    /// gives for that attribute; the scan for a value starts behind the name.
    pub open spec fn decoded_from(&self, chunk: Seq<char>) -> bool {
        &&& self.duration == integer_in(chunk, "Duration", Scan::AfterName)
        &&& self.flat_road == flag_in(chunk, "FlatRoad", Scan::AfterName)
        &&& self.ftp_test == flag_in(chunk, "ftptest", Scan::AfterName)
    }
}

/// A block of repeated on and off intervals.
#[derive(Clone, Debug)]
pub struct IntervalsT {
    /// The attribute `Cadence`, a whole number.
    pub cadence: Option<i32>,
    /// The attribute `CadenceHigh`, a whole number.
    pub cadence_high: Option<i32>,
    /// The attribute `CadenceLow`, a whole number.
    pub cadence_low: Option<i32>,
    /// The attribute `CadenceResting`, a whole number.
    pub cadence_resting: Option<i32>,
    /// The attribute `FlatRoad`, a switch.
    pub flat_road: Option<bool>,
    /// The attribute `OffDuration`, a floating-point literal, kept as written.
    pub off_duration: Option<String>,
    /// The attribute `OffPower`, a floating-point literal, kept as written.
    pub off_power: Option<String>,
    /// The attribute `OnDuration`, a floating-point literal, kept as written.
    pub on_duration: Option<String>,
    /// The attribute `OnPower`, a floating-point literal, kept as written.
    pub on_power: Option<String>,
    /// The attribute `OverUnder`, a switch.
    pub over_under: Option<bool>,
    /// The attribute `pace`, a whole number.
    pub pace: Option<i32>,
    /// The attribute `PowerOffHigh`, a floating-point literal, kept as written.
    pub power_off_high: Option<String>,
    /// The attribute `PowerOffLow`, a floating-point literal, kept as written.
    pub power_off_low: Option<String>,
    /// The attribute `PowerOffZone`, a whole number.
    pub power_off_zone: Option<i32>,
    /// The attribute `PowerOnHigh`, a floating-point literal, kept as written.
    pub power_on_high: Option<String>,
    /// The attribute `PowerOnLow`, a floating-point literal, kept as written.
    pub power_on_low: Option<String>,
    /// The attribute `PowerOnZone`, a whole number.
    pub power_on_zone: Option<i32>,
    /// The attribute `Repeat`, a whole number.
    pub repeat: Option<i32>,
    /// The attribute `units`, a whole number.
    pub units: Option<i32>,
}

impl IntervalsT {
    /// No field holds a value.
    pub open spec fn is_blank(&self) -> bool {
        &&& self.cadence is None
        &&& self.cadence_high is None
        &&& self.cadence_low is None
        &&& self.cadence_resting is None
        &&& self.flat_road is None
        &&& self.off_duration is None
        &&& self.off_power is None
        &&& self.on_duration is None
        &&& self.on_power is None
        &&& self.over_under is None
        &&& self.pace is None
        &&& self.power_off_high is None
        &&& self.power_off_low is None
        &&& self.power_off_zone is None
        &&& self.power_on_high is None
        &&& self.power_on_low is None
        &&& self.power_on_zone is None
        &&& self.repeat is None
        &&& self.units is None
    }

    /// Every field that an attribute fills holds what the text of the tag
    /// gives for that attribute; the scan for a value starts behind the name.
    pub open spec fn decoded_from(&self, chunk: Seq<char>) -> bool {
        &&& self.cadence == integer_in(chunk, "Cadence", Scan::AfterName)
        &&& self.cadence_high == integer_in(chunk, "CadenceHigh", Scan::AfterName)
        &&& self.cadence_low == integer_in(chunk, "CadenceLow", Scan::AfterName)
        &&& self.cadence_resting == integer_in(chunk, "CadenceResting", Scan::AfterName)
        &&& self.flat_road == flag_in(chunk, "FlatRoad", Scan::AfterName)
        &&& text_of(self.off_duration) == float_in(chunk, "OffDuration", Scan::AfterName)
        &&& text_of(self.off_power) == float_in(chunk, "OffPower", Scan::AfterName)
        &&& text_of(self.on_duration) == float_in(chunk, "OnDuration", Scan::AfterName)
        &&& text_of(self.on_power) == float_in(chunk, "OnPower", Scan::AfterName)
        &&& self.over_under == flag_in(chunk, "OverUnder", Scan::AfterName)
        &&& self.pace == integer_in(chunk, "pace", Scan::AfterName)
        &&& text_of(self.power_off_high) == float_in(chunk, "PowerOffHigh", Scan::AfterName)
        &&& text_of(self.power_off_low) == float_in(chunk, "PowerOffLow", Scan::AfterName)
        &&& self.power_off_zone == integer_in(chunk, "PowerOffZone", Scan::AfterName)
        &&& text_of(self.power_on_high) == float_in(chunk, "PowerOnHigh", Scan::AfterName)
        &&& text_of(self.power_on_low) == float_in(chunk, "PowerOnLow", Scan::AfterName)
        &&& self.power_on_zone == integer_in(chunk, "PowerOnZone", Scan::AfterName)
        &&& self.repeat == integer_in(chunk, "Repeat", Scan::AfterName)
        &&& self.units == integer_in(chunk, "units", Scan::AfterName)
    }
}

/// A block ridden all out.
#[derive(Clone, Debug)]
pub struct MaxEffort {
    /// The attribute `duration`, a whole number.
    pub duration: Option<i32>,
}

impl MaxEffort {
    /// No field holds a value.
    pub open spec fn is_blank(&self) -> bool {
        &&& self.duration is None
    }

    /// Every field that an attribute fills holds what the text of the tag
    /// gives for that attribute; the scan for a value starts ahead of the name, by its length.
    pub open spec fn decoded_from(&self, chunk: Seq<char>) -> bool {
        &&& self.duration == integer_in(chunk, "duration", Scan::BeforeName)
    }
}

/// A block whose effort rises or falls steadily.
#[derive(Clone, Debug)]
pub struct Ramp {
    /// The attribute `Cadence`, a whole number.
    pub cadence: Option<i32>,
    /// The attribute `CadenceResting`, a whole number.
    pub cadence_resting: Option<i32>,
    /// The attribute `Duration`, a whole number.
    pub duration: Option<i32>,
    /// The attribute `pace`, a whole number.
    pub pace: Option<i32>,
    /// The attribute `Power`, a floating-point literal, kept as written.
    pub power: Option<String>,
    /// The attribute `PowerHigh`, a floating-point literal, kept as written.
    pub power_high: Option<String>,
    /// The attribute `PowerLow`, a floating-point literal, kept as written.
    pub power_low: Option<String>,
    /// The attribute `show_avg`, a switch.
    pub show_average: Option<bool>,
}

impl Ramp {
    /// No field holds a value.
    pub open spec fn is_blank(&self) -> bool {
        &&& self.cadence is None
        &&& self.cadence_resting is None
        &&& self.duration is None
        &&& self.pace is None
        &&& self.power is None
        &&& self.power_high is None
        &&& self.power_low is None
        &&& self.show_average is None
    }

    /// Every field that an attribute fills holds what the text of the tag
    /// gives for that attribute; the scan for a value starts behind the name.
    pub open spec fn decoded_from(&self, chunk: Seq<char>) -> bool {
        &&& self.cadence == integer_in(chunk, "Cadence", Scan::AfterName)
        &&& self.cadence_resting == integer_in(chunk, "CadenceResting", Scan::AfterName)
        &&& self.duration == integer_in(chunk, "Duration", Scan::AfterName)
        &&& self.pace == integer_in(chunk, "pace", Scan::AfterName)
        &&& text_of(self.power) == float_in(chunk, "Power", Scan::AfterName)
        &&& text_of(self.power_high) == float_in(chunk, "PowerHigh", Scan::AfterName)
        &&& text_of(self.power_low) == float_in(chunk, "PowerLow", Scan::AfterName)
        &&& self.show_average == flag_in(chunk, "show_avg", Scan::AfterName)
    }
}

/// A block held at one power.
#[derive(Clone, Debug)]
pub struct SolidState {
    /// The attribute `duration`, a whole number.
    pub duration: Option<i32>,
    /// The attribute `power`, a floating-point literal, kept as written.
    pub power: Option<String>,
}

impl SolidState {
    /// No field holds a value.
    pub open spec fn is_blank(&self) -> bool {
        &&& self.duration is None
        &&& self.power is None
    }

    /// Every field that an attribute fills holds what the text of the tag
    /// gives for that attribute; the scan for a value starts ahead of the name, by its length.
    pub open spec fn decoded_from(&self, chunk: Seq<char>) -> bool {
        &&& self.duration == integer_in(chunk, "duration", Scan::BeforeName)
        &&& text_of(self.power) == float_in(chunk, "power", Scan::BeforeName)
    }
}

/// One block of a workout.
#[derive(Clone, Debug)]
pub enum ExerciseTag {
    Warmup(Warmup),
    SteadyState(SteadyState),
    Cooldown(Cooldown),
    FreeRide(FreeRide),
    Freeride(Freeride),
    IntervalsT(IntervalsT),
    MaxEffort(MaxEffort),
    Ramp(Ramp),
    /// A day without riding. It has no attributes.
    RestDay,
    SolidState(SolidState),
    /// A tag that is no segment.
    Unknown,
}

impl ExerciseTag {
    /// The segment is of the kind that the tag name `name` stands for, and
    /// the name of no kind gives `Unknown`.
    pub open spec fn is_kind(&self, name: Seq<char>) -> bool {
        if name == "Warmup"@ {
            self is Warmup
        } else if name == "SteadyState"@ {
            self is SteadyState
        } else if name == "Cooldown"@ {
            self is Cooldown
        } else if name == "FreeRide"@ {
            self is FreeRide
        } else if name == "Freeride"@ {
            self is Freeride
        } else if name == "IntervalsT"@ {
            self is IntervalsT
        } else if name == "MaxEffort"@ {
            self is MaxEffort
        } else if name == "Ramp"@ {
            self is Ramp
        } else if name == "RestDay"@ {
            self is RestDay
        } else if name == "SolidState"@ {
            self is SolidState
        } else {
            self is Unknown
        }
    }

    /// No field of the segment holds a value.
    pub open spec fn is_blank(&self) -> bool {
        match self {
            ExerciseTag::Warmup(s) => s.is_blank(),
            ExerciseTag::SteadyState(s) => s.is_blank(),
            ExerciseTag::Cooldown(s) => s.is_blank(),
            ExerciseTag::FreeRide(s) => s.is_blank(),
            ExerciseTag::Freeride(s) => s.is_blank(),
            ExerciseTag::IntervalsT(s) => s.is_blank(),
            ExerciseTag::MaxEffort(s) => s.is_blank(),
            ExerciseTag::Ramp(s) => s.is_blank(),
            ExerciseTag::RestDay => true,
            ExerciseTag::SolidState(s) => s.is_blank(),
            ExerciseTag::Unknown => true,
        }
    }

    /// The fields of the segment hold what the text of the tag gives.
    pub open spec fn decoded_from(&self, chunk: Seq<char>) -> bool {
        match self {
            ExerciseTag::Warmup(s) => s.decoded_from(chunk),
            ExerciseTag::SteadyState(s) => s.decoded_from(chunk),
            ExerciseTag::Cooldown(s) => s.decoded_from(chunk),
            ExerciseTag::FreeRide(s) => s.decoded_from(chunk),
            ExerciseTag::Freeride(s) => s.decoded_from(chunk),
            ExerciseTag::IntervalsT(s) => s.decoded_from(chunk),
            ExerciseTag::MaxEffort(s) => s.decoded_from(chunk),
            ExerciseTag::Ramp(s) => s.decoded_from(chunk),
            ExerciseTag::RestDay => true,
            ExerciseTag::SolidState(s) => s.decoded_from(chunk),
            ExerciseTag::Unknown => true,
        }
    }
}

/// The segment kind that a tag name stands for, with no field set.
pub fn exercise_str2enum(name_str: &str) -> (kind: ExerciseTag)
    ensures
        kind.is_kind(name_str@),
        kind.is_blank(),
{
    if str_eq(name_str, "Warmup") {
        ExerciseTag::Warmup(new_warmup_struct())
    } else if str_eq(name_str, "SteadyState") {
        ExerciseTag::SteadyState(new_steady_state_struct())
    } else if str_eq(name_str, "Cooldown") {
        ExerciseTag::Cooldown(new_cooldown_struct())
    } else if str_eq(name_str, "FreeRide") {
        ExerciseTag::FreeRide(new_free_ride_struct())
    } else if str_eq(name_str, "Freeride") {
        ExerciseTag::Freeride(new_free_ride2_struct())
    } else if str_eq(name_str, "IntervalsT") {
        ExerciseTag::IntervalsT(new_intervalst_struct())
    } else if str_eq(name_str, "MaxEffort") {
        ExerciseTag::MaxEffort(new_max_effort_struct())
    } else if str_eq(name_str, "Ramp") {
        ExerciseTag::Ramp(new_ramp_struct())
    } else if str_eq(name_str, "RestDay") {
        ExerciseTag::RestDay
    } else if str_eq(name_str, "SolidState") {
        ExerciseTag::SolidState(new_solid_state_struct())
    } else {
        ExerciseTag::Unknown
    }
}

/// Decodes the segment of the kind that `name` stands for from the text of
/// its tag.
pub fn build_segment(name: &str, chunk: &str) -> (segment: ExerciseTag)
    ensures
        segment.is_kind(name@),
        segment.decoded_from(chunk@),
{
    match exercise_str2enum(name) {
        ExerciseTag::Warmup(_) => ExerciseTag::Warmup(get_properties_warmup(chunk)),
        ExerciseTag::SteadyState(_) => ExerciseTag::SteadyState(
            get_properties_steady_state(chunk),
        ),
        ExerciseTag::Cooldown(_) => ExerciseTag::Cooldown(get_properties_cooldown(chunk)),
        ExerciseTag::FreeRide(_) => ExerciseTag::FreeRide(get_properties_free_ride(chunk)),
        ExerciseTag::Freeride(_) => ExerciseTag::Freeride(get_properties_free_ride2(chunk)),
        ExerciseTag::IntervalsT(_) => ExerciseTag::IntervalsT(get_properties_intervalst(chunk)),
        ExerciseTag::MaxEffort(_) => ExerciseTag::MaxEffort(get_properties_max_effort(chunk)),
        ExerciseTag::Ramp(_) => ExerciseTag::Ramp(get_properties_ramp(chunk)),
        ExerciseTag::RestDay => ExerciseTag::RestDay,
        ExerciseTag::SolidState(_) => ExerciseTag::SolidState(
            get_properties_solid_state(chunk),
        ),
        ExerciseTag::Unknown => ExerciseTag::Unknown,
    }
}

/// A `Warmup` with no field set.
pub fn new_warmup_struct() -> (blank: Warmup)
    ensures
        blank.is_blank(),
{
    Warmup {
        cadence: None,
        cadence_high: None,
        cadence_low: None,
        cadence_resting: None,
        duration: None,
        pace: None,
        power: None,
        power_high: None,
        power_low: None,
        quantize: None,
        replacement_prescription: None,
        replacement_verb: None,
        text: None,
        units: None,
        zone: None,
    }
}

/// A `SteadyState` with no field set.
pub fn new_steady_state_struct() -> (blank: SteadyState)
    ensures
        blank.is_blank(),
{
    SteadyState {
        cadence: None,
        cadence_high: None,
        cadence_low: None,
        cadence_resting: None,
        duration: None,
        fail_threshold_duration: None,
        forced_performance_test1: None,
        forced_performance_test2: None,
        never_fails: None,
        off_power: None,
        pace: None,
        power: None,
        power_high: None,
        power_low: None,
        ramp_test: None,
        replacement_prescription: None,
        replacement_verb: None,
        show_average: None,
        target: None,
        text: None,
        units: None,
        zone: None,
    }
}

/// A `Cooldown` with no field set.
pub fn new_cooldown_struct() -> (blank: Cooldown)
    ensures
        blank.is_blank(),
{
    Cooldown {
        cadence: None,
        cadence_high: None,
        cadence_low: None,
        cadence_resting: None,
        duration: None,
        end_at_road_time: None,
        pace: None,
        pace2: None,
        power: None,
        power_high: None,
        power_low: None,
        replacement_prescription: None,
        replacement_verb: None,
        units: None,
        zone: None,
    }
}

/// A `FreeRide` with no field set.
pub fn new_free_ride_struct() -> (blank: FreeRide)
    ensures
        blank.is_blank(),
{
    FreeRide {
        cadence: None,
        cadence_high: None,
        cadence_low: None,
        duration: None,
        fail_threshold_duration: None,
        flat_road: None,
        ftp_test: None,
        power: None,
        ramp_test: None,
        show_average: None,
    }
}

/// A `Freeride` with no field set.
pub fn new_free_ride2_struct() -> (blank: Freeride)
    ensures
        blank.is_blank(),
{
    Freeride {
        duration: None,
        flat_road: None,
        ftp_test: None,
    }
}

/// A `IntervalsT` with no field set.
pub fn new_intervalst_struct() -> (blank: IntervalsT)
    ensures
        blank.is_blank(),
{
    IntervalsT {
        cadence: None,
        cadence_high: None,
        cadence_low: None,
        cadence_resting: None,
        flat_road: None,
        off_duration: None,
        off_power: None,
        on_duration: None,
        on_power: None,
        over_under: None,
        pace: None,
        power_off_high: None,
        power_off_low: None,
        power_off_zone: None,
        power_on_high: None,
        power_on_low: None,
        power_on_zone: None,
        repeat: None,
        units: None,
    }
}

/// A `MaxEffort` with no field set.
pub fn new_max_effort_struct() -> (blank: MaxEffort)
    ensures
        blank.is_blank(),
{
    MaxEffort {
        duration: None,
    }
}

/// A `Ramp` with no field set.
pub fn new_ramp_struct() -> (blank: Ramp)
    ensures
        blank.is_blank(),
{
    Ramp {
        cadence: None,
        cadence_resting: None,
        duration: None,
        pace: None,
        power: None,
        power_high: None,
        power_low: None,
        show_average: None,
    }
}

/// A `SolidState` with no field set.
pub fn new_solid_state_struct() -> (blank: SolidState)
    ensures
        blank.is_blank(),
{
    SolidState {
        duration: None,
        power: None,
    }
}

/// Decodes the attributes of a `Warmup` tag from the text of the tag.
pub fn get_properties_warmup(chunk: &str) -> (segment: Warmup)
    ensures
        segment.decoded_from(chunk@),
{
    let tag = TagText::new(chunk);
    Warmup {
        cadence: tag.integer("Cadence", Scan::AfterName),
        cadence_high: tag.integer("CadenceHigh", Scan::AfterName),
        cadence_low: tag.integer("CadenceLow", Scan::AfterName),
        cadence_resting: tag.integer("CadenceResting", Scan::AfterName),
        duration: tag.integer("Duration", Scan::AfterName),
        pace: tag.integer("pace", Scan::AfterName),
        power: tag.float("Power", Scan::AfterName),
        power_high: tag.float("PowerHigh", Scan::AfterName),
        power_low: tag.float("PowerLow", Scan::AfterName),
        quantize: tag.integer("Quantize", Scan::AfterName),
        replacement_prescription: tag.text("replacement_prescription", Scan::AfterName),
        replacement_verb: tag.text("replacement_verb", Scan::AfterName),
        text: tag.text("Text", Scan::AfterName),
        units: tag.integer("units", Scan::AfterName),
        zone: tag.integer("Zone", Scan::AfterName),
    }
}

/// Decodes the attributes of a `SteadyState` tag from the text of the tag.
pub fn get_properties_steady_state(chunk: &str) -> (segment: SteadyState)
    ensures
        segment.decoded_from(chunk@),
{
    let tag = TagText::new(chunk);
    SteadyState {
        cadence: tag.integer("Cadence", Scan::AfterName),
        cadence_high: tag.integer("CadenceHigh", Scan::AfterName),
        cadence_low: tag.integer("CadenceLow", Scan::AfterName),
        cadence_resting: tag.integer("CadenceResting", Scan::AfterName),
        duration: tag.integer("Duration", Scan::AfterName),
        fail_threshold_duration: tag.float("FailThresholdDuration", Scan::AfterName),
        forced_performance_test1: tag.integer("Forced_Performance_Test", Scan::AfterName),
        forced_performance_test2: tag.integer("forced_performance_test", Scan::AfterName),
        never_fails: tag.flag("NeverFails", Scan::AfterName),
        off_power: tag.float("OffPower", Scan::AfterName),
        pace: tag.integer("pace", Scan::AfterName),
        power: tag.float("Power", Scan::AfterName),
        power_high: tag.float("PowerHigh", Scan::AfterName),
        power_low: tag.float("PowerLow", Scan::AfterName),
        ramp_test: tag.flag("ramptest", Scan::AfterName),
        replacement_prescription: tag.text("replacement_prescription", Scan::AfterName),
        replacement_verb: tag.text("replacement_verb", Scan::AfterName),
        show_average: tag.flag("show_avg", Scan::AfterName),
        target: tag.float("Target", Scan::AfterName),
        text: tag.text("Text", Scan::AfterName),
        units: tag.integer("units", Scan::AfterName),
        zone: tag.integer("Zone", Scan::AfterName),
    }
}

/// Decodes the attributes of a `Cooldown` tag from the text of the tag.
pub fn get_properties_cooldown(chunk: &str) -> (segment: Cooldown)
    ensures
        segment.decoded_from(chunk@),
{
    let tag = TagText::new(chunk);
    Cooldown {
        cadence: tag.integer("Cadence", Scan::AfterName),
        cadence_high: tag.integer("CadenceHigh", Scan::AfterName),
        cadence_low: tag.integer("CadenceLow", Scan::AfterName),
        cadence_resting: tag.integer("CadenceResting", Scan::AfterName),
        duration: tag.integer("Duration", Scan::AfterName),
        end_at_road_time: tag.float("end_at_road_time", Scan::AfterName),
        pace: tag.integer("pace", Scan::AfterName),
        pace2: tag.integer("Pace", Scan::AfterName),
        power: tag.float("Power", Scan::AfterName),
        power_high: tag.float("PowerHigh", Scan::AfterName),
        power_low: tag.float("PowerLow", Scan::AfterName),
        replacement_prescription: tag.text("replacement_prescription", Scan::AfterName),
        replacement_verb: tag.text("replacement_verb", Scan::AfterName),
        units: tag.integer("units", Scan::AfterName),
        zone: tag.integer("Zone", Scan::AfterName),
    }
}

/// Decodes the attributes of a `FreeRide` tag from the text of the tag.
pub fn get_properties_free_ride(chunk: &str) -> (segment: FreeRide)
    ensures
        segment.decoded_from(chunk@),
{
    let tag = TagText::new(chunk);
    FreeRide {
        cadence: tag.integer("Cadence", Scan::AfterName),
        cadence_high: tag.integer("CadenceHigh", Scan::AfterName),
        cadence_low: tag.integer("CadenceLow", Scan::AfterName),
        duration: tag.integer("Duration", Scan::AfterName),
        fail_threshold_duration: tag.float("FailThresholdDuration", Scan::AfterName),
        flat_road: tag.flag("FlatRoad", Scan::AfterName),
        ftp_test: tag.flag("ftptest", Scan::AfterName),
        power: tag.float("Power", Scan::AfterName),
        ramp_test: tag.flag("ramptest", Scan::AfterName),
        show_average: tag.flag("show_avg", Scan::AfterName),
    }
}

/// Decodes the attributes of a `Freeride` tag from the text of the tag.
pub fn get_properties_free_ride2(chunk: &str) -> (segment: Freeride)
    ensures
        segment.decoded_from(chunk@),
{
    let tag = TagText::new(chunk);
    Freeride {
        duration: tag.integer("Duration", Scan::AfterName),
        flat_road: tag.flag("FlatRoad", Scan::AfterName),
        ftp_test: tag.flag("ftptest", Scan::AfterName),
    }
}

/// Decodes the attributes of a `IntervalsT` tag from the text of the tag.
pub fn get_properties_intervalst(chunk: &str) -> (segment: IntervalsT)
    ensures
        segment.decoded_from(chunk@),
{
    let tag = TagText::new(chunk);
    IntervalsT {
        cadence: tag.integer("Cadence", Scan::AfterName),
        cadence_high: tag.integer("CadenceHigh", Scan::AfterName),
        cadence_low: tag.integer("CadenceLow", Scan::AfterName),
        cadence_resting: tag.integer("CadenceResting", Scan::AfterName),
        flat_road: tag.flag("FlatRoad", Scan::AfterName),
        off_duration: tag.float("OffDuration", Scan::AfterName),
        off_power: tag.float("OffPower", Scan::AfterName),
        on_duration: tag.float("OnDuration", Scan::AfterName),
        on_power: tag.float("OnPower", Scan::AfterName),
        over_under: tag.flag("OverUnder", Scan::AfterName),
        pace: tag.integer("pace", Scan::AfterName),
        power_off_high: tag.float("PowerOffHigh", Scan::AfterName),
        power_off_low: tag.float("PowerOffLow", Scan::AfterName),
        power_off_zone: tag.integer("PowerOffZone", Scan::AfterName),
        power_on_high: tag.float("PowerOnHigh", Scan::AfterName),
        power_on_low: tag.float("PowerOnLow", Scan::AfterName),
        power_on_zone: tag.integer("PowerOnZone", Scan::AfterName),
        repeat: tag.integer("Repeat", Scan::AfterName),
        units: tag.integer("units", Scan::AfterName),
    }
}

/// Decodes the attributes of a `MaxEffort` tag from the text of the tag.
pub fn get_properties_max_effort(chunk: &str) -> (segment: MaxEffort)
    ensures
        segment.decoded_from(chunk@),
{
    let tag = TagText::new(chunk);
    MaxEffort {
        duration: tag.integer("duration", Scan::BeforeName),
    }
}

/// Decodes the attributes of a `Ramp` tag from the text of the tag.
pub fn get_properties_ramp(chunk: &str) -> (segment: Ramp)
    ensures
        segment.decoded_from(chunk@),
{
    let tag = TagText::new(chunk);
    Ramp {
        cadence: tag.integer("Cadence", Scan::AfterName),
        cadence_resting: tag.integer("CadenceResting", Scan::AfterName),
        duration: tag.integer("Duration", Scan::AfterName),
        pace: tag.integer("pace", Scan::AfterName),
        power: tag.float("Power", Scan::AfterName),
        power_high: tag.float("PowerHigh", Scan::AfterName),
        power_low: tag.float("PowerLow", Scan::AfterName),
        show_average: tag.flag("show_avg", Scan::AfterName),
    }
}

/// Decodes the attributes of a `SolidState` tag from the text of the tag.
pub fn get_properties_solid_state(chunk: &str) -> (segment: SolidState)
    ensures
        segment.decoded_from(chunk@),
{
    let tag = TagText::new(chunk);
    SolidState {
        duration: tag.integer("duration", Scan::BeforeName),
        power: tag.float("power", Scan::BeforeName),
    }
}

} // verus!
