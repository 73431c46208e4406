//! Compiling a workout into a timeline.
//!
//! A timeline gives, second by second, the time since the start of the
//! segment, the cadence to hold and the power to hold. A segment can be
//! compiled where it has a duration, a cadence and a power; cadence and power
//! may each be given as one value, or as a low and a high bound between which
//! the segment ramps. With both given, the bounds are taken. A workout is
//! compiled segment by segment, and not at all where one segment cannot be.
//!
//! Power is carried as the literals that the workout file wrote. A sample
//! inside a power ramp names its bounds and its place between them.

use vstd::prelude::*;
use crate::attribute::text_of;
use crate::document::Workout;
use crate::math::{int_linspace, lemma_linspace_first, lemma_linspace_last, linspace_at, span};
use crate::segment::{
    Cooldown, ExerciseTag, FreeRide, Freeride, IntervalsT, MaxEffort, Ramp, SolidState,
    SteadyState, Warmup,
};

verus! {

/// The failure of a segment that lacks a duration, a cadence or a power.
#[derive(Clone, Copy, Debug, PartialEq, Eq, Structural)]
pub struct TimeSeriesError;

impl TimeSeriesError {
    /// The failure in words.
    pub fn message(&self) -> (text: String)
        ensures
            text@ == "Missing essential field."@,
    {
        "Missing essential field.".to_owned()
    }
}

/// The power to hold for one second, as a model.
pub enum PowerTarget {
    /// The power that a literal writes.
    Level(Seq<char>),
    /// A point inside a ramp of `steps` equal steps from `low` to `high`:
    /// the power after `step` of them.
    Between { low: Seq<char>, high: Seq<char>, step: int, steps: int },
}

/// The power to hold for one second.
#[derive(Clone, Debug)]
pub enum PowerSample {
    /// The power that a literal writes.
    Level(String),
    /// A point inside a ramp of `steps` equal steps from `low` to `high`:
    /// the power after `step` of them.
    Between { low: String, high: String, step: usize, steps: usize },
}

impl View for PowerSample {
    type V = PowerTarget;

    open spec fn view(&self) -> PowerTarget {
        match self {
            PowerSample::Level(value) => PowerTarget::Level(value@),
            PowerSample::Between { low, high, step, steps } => PowerTarget::Between {
                low: low@,
                high: high@,
                step: *step as int,
                steps: *steps as int,
            },
        }
    }
}

/// A timeline as a model: three sequences of one length.
pub struct Timeline {
    pub time: Seq<int>,
    pub cadence: Seq<int>,
    pub power: Seq<PowerTarget>,
}

impl Timeline {
    /// The timeline without samples.
    pub open spec fn empty() -> Timeline {
        Timeline { time: Seq::empty(), cadence: Seq::empty(), power: Seq::empty() }
    }

    /// This timeline, followed by `next`.
    pub open spec fn followed_by(self, next: Timeline) -> Timeline {
        Timeline {
            time: self.time + next.time,
            cadence: self.cadence + next.cadence,
            power: self.power + next.power,
        }
    }

    /// The three sequences have one length.
    pub open spec fn well_formed(self) -> bool {
        self.time.len() == self.cadence.len() && self.time.len() == self.power.len()
    }
}

/// The time series of a segment, or of a whole workout.
#[derive(Clone, Debug)]
pub struct WorkoutTimeSeries {
    /// Seconds since the start of the segment.
    pub time: Vec<usize>,
    /// The cadence to hold in each second.
    pub cadence: Vec<i32>,
    /// The power to hold in each second.
    pub power: Vec<PowerSample>,
}

impl View for WorkoutTimeSeries {
    type V = Timeline;

    open spec fn view(&self) -> Timeline {
        Timeline {
            time: Seq::new(self.time@.len(), |k: int| self.time@[k] as int),
            cadence: Seq::new(self.cadence@.len(), |k: int| self.cadence@[k] as int),
            power: Seq::new(self.power@.len(), |k: int| self.power@[k]@),
        }
    }
}

/// What a segment gives to compile: its duration, its cadence and its power,
/// the latter two each as one value and as a pair of bounds.
pub struct Plan {
    pub duration: Option<i32>,
    pub cadence: Option<i32>,
    pub cadence_low: Option<i32>,
    pub cadence_high: Option<i32>,
    pub power: Option<Seq<char>>,
    pub power_low: Option<Seq<char>>,
    pub power_high: Option<Seq<char>>,
}

impl Plan {
    /// The cadence is given as a pair of bounds.
    pub open spec fn cadence_ramps(self) -> bool {
        self.cadence_low is Some && self.cadence_high is Some
    }

    /// The power is given as a pair of bounds.
    pub open spec fn power_ramps(self) -> bool {
        self.power_low is Some && self.power_high is Some
    }

    /// Nothing that a timeline needs is missing: the duration is there, the
    /// cadence is there as one value or as both bounds, and so is the power.
    pub open spec fn complete(self) -> bool {
        &&& self.duration is Some
        &&& (self.cadence is Some || self.cadence_ramps())
        &&& (self.power is Some || self.power_ramps())
    }

    /// The number of samples: the duration in whole seconds, and none for a
    /// duration below zero.
    pub open spec fn samples(self) -> int {
        if self.duration is Some && self.duration.unwrap() > 0 {
            self.duration.unwrap() as int
        } else {
            0
        }
    }

    /// The cadence of sample `k`: a step of the ramp between the bounds
    /// where both are given, else the one value.
    pub open spec fn cadence_at(self, k: int) -> int {
        if self.cadence_ramps() {
            linspace_at(
                self.cadence_low.unwrap() as int,
                self.cadence_high.unwrap() as int,
                self.samples(),
                k,
            )
        } else {
            self.cadence.unwrap() as int
        }
    }

    /// The power of sample `k`. Where both bounds are given, the first
    /// sample is the low bound, the last is the high bound, and each sample
    /// between them is its step of the evenly spaced ramp; else every sample
    /// is the one value.
    pub open spec fn power_at(self, k: int) -> PowerTarget {
        if self.power_ramps() {
            if k == 0 {
                PowerTarget::Level(self.power_low.unwrap())
            } else if k == self.samples() - 1 {
                PowerTarget::Level(self.power_high.unwrap())
            } else {
                PowerTarget::Between {
                    low: self.power_low.unwrap(),
                    high: self.power_high.unwrap(),
                    step: k,
                    steps: self.samples() - 1,
                }
            }
        } else {
            PowerTarget::Level(self.power.unwrap())
        }
    }

    /// The timeline of the segment: one sample for each second, the time
    /// counted from zero.
    pub open spec fn timeline(self) -> Timeline {
        Timeline {
            time: Seq::new(self.samples() as nat, |k: int| k),
            cadence: Seq::new(self.samples() as nat, |k: int| self.cadence_at(k)),
            power: Seq::new(self.samples() as nat, |k: int| self.power_at(k)),
        }
    }
}

/// `outcome` is what compiling a segment with the plan `plan` gives: its
/// timeline where the plan is complete, and the failure where it is not.
pub open spec fn compiles_to(plan: Plan, outcome: Result<WorkoutTimeSeries, TimeSeriesError>)
    -> bool {
    match outcome {
        Ok(series) => plan.complete() && series@ == plan.timeline(),
        Err(_) => !plan.complete(),
    }
}

/// Builds the timeline of a segment from what the segment gives.
pub fn build_series(
    duration: Option<i32>,
    cadence: Option<i32>,
    cadence_low: Option<i32>,
    cadence_high: Option<i32>,
    power: &Option<String>,
    power_low: &Option<String>,
    power_high: &Option<String>,
) -> (outcome: Result<WorkoutTimeSeries, TimeSeriesError>)
    ensures
        compiles_to(
            (Plan {
                duration,
                cadence,
                cadence_low,
                cadence_high,
                power: text_of(*power),
                power_low: text_of(*power_low),
                power_high: text_of(*power_high),
            }),
            outcome,
        ),
{
    let ghost plan = Plan {
        duration,
        cadence,
        cadence_low,
        cadence_high,
        power: text_of(*power),
        power_low: text_of(*power_low),
        power_high: text_of(*power_high),
    };
    let cadence_ramps = cadence_low.is_some() && cadence_high.is_some();
    let power_ramps = power_low.is_some() && power_high.is_some();
    if duration.is_none() || !(cadence.is_some() || cadence_ramps) || !(power.is_some()
        || power_ramps) {
        return Err(TimeSeriesError);
    }
    let seconds = duration.unwrap();
    let length: usize = if seconds > 0 {
        seconds as usize
    } else {
        0
    };
    let mut time: Vec<usize> = Vec::new();
    let mut k: usize = 0;
    while k < length
        invariant
            k <= length,
            time@.len() == k,
            forall|j: int| 0 <= j < k ==> time@[j] == j,
        decreases length - k,
    {
        time.push(k);
        k += 1;
    }
    let cadence_series: Vec<i32> = if cadence_ramps {
        int_linspace(cadence_low.unwrap(), cadence_high.unwrap(), length)
    } else {
        let value = cadence.unwrap();
        let mut flat: Vec<i32> = Vec::new();
        let mut k: usize = 0;
        while k < length
            invariant
                k <= length,
                flat@.len() == k,
                forall|j: int| 0 <= j < k ==> flat@[j] == value,
            decreases length - k,
        {
            flat.push(value);
            k += 1;
        }
        flat
    };
    let mut power_series: Vec<PowerSample> = Vec::new();
    let mut k: usize = 0;
    while k < length
        invariant
            k <= length,
            length == plan.samples(),
            power_ramps == plan.power_ramps(),
            plan.complete(),
            plan.power == text_of(*power),
            plan.power_low == text_of(*power_low),
            plan.power_high == text_of(*power_high),
            power_series@.len() == k,
            forall|j: int| 0 <= j < k ==> (#[trigger] power_series@[j])@ == plan.power_at(j),
        decreases length - k,
    {
        let sample = if power_ramps {
            let low = match power_low {
                Some(text) => text,
                None => {
                    proof {
                        assert(false);
                    }
                    return Err(TimeSeriesError);
                },
            };
            let high = match power_high {
                Some(text) => text,
                None => {
                    proof {
                        assert(false);
                    }
                    return Err(TimeSeriesError);
                },
            };
            if k == 0 {
                PowerSample::Level(low.clone())
            } else if k == length - 1 {
                PowerSample::Level(high.clone())
            } else {
                PowerSample::Between {
                    low: low.clone(),
                    high: high.clone(),
                    step: k,
                    steps: length - 1,
                }
            }
        } else {
            match power {
                Some(text) => PowerSample::Level(text.clone()),
                None => {
                    proof {
                        assert(false);
                    }
                    return Err(TimeSeriesError);
                },
            }
        };
        power_series.push(sample);
        k += 1;
    }
    let series = WorkoutTimeSeries { time, cadence: cadence_series, power: power_series };
    proof {
        assert(series@.time =~= plan.timeline().time);
        assert(series@.cadence =~= plan.timeline().cadence);
        assert(series@.power =~= plan.timeline().power);
    }
    Ok(series)
}

impl Warmup {
    /// What the segment gives to compile.
    pub open spec fn plan(&self) -> Plan {
        Plan {
            duration: self.duration,
            cadence: self.cadence,
            cadence_low: self.cadence_low,
            cadence_high: self.cadence_high,
            power: text_of(self.power),
            power_low: text_of(self.power_low),
            power_high: text_of(self.power_high),
        }
    }

    /// Compiles the segment: its timeline where it has a duration, a
    /// cadence and a power, and the failure where one of them is missing.
    pub fn to_time_series(&self) -> (outcome: Result<WorkoutTimeSeries, TimeSeriesError>)
        ensures
            compiles_to(self.plan(), outcome),
    {
        build_series(
            self.duration,
            self.cadence,
            self.cadence_low,
            self.cadence_high,
            &self.power,
            &self.power_low,
            &self.power_high,
        )
    }
}

impl SteadyState {
    /// What the segment gives to compile.
    pub open spec fn plan(&self) -> Plan {
        Plan {
            duration: self.duration,
            cadence: self.cadence,
            cadence_low: self.cadence_low,
            cadence_high: self.cadence_high,
            power: text_of(self.power),
            power_low: text_of(self.power_low),
            power_high: text_of(self.power_high),
        }
    }

    /// Compiles the segment: its timeline where it has a duration, a
    /// cadence and a power, and the failure where one of them is missing.
    pub fn to_time_series(&self) -> (outcome: Result<WorkoutTimeSeries, TimeSeriesError>)
        ensures
            compiles_to(self.plan(), outcome),
    {
        build_series(
            self.duration,
            self.cadence,
            self.cadence_low,
            self.cadence_high,
            &self.power,
            &self.power_low,
            &self.power_high,
        )
    }
}

impl Cooldown {
    /// What the segment gives to compile.
    pub open spec fn plan(&self) -> Plan {
        Plan {
            duration: self.duration,
            cadence: self.cadence,
            cadence_low: self.cadence_low,
            cadence_high: self.cadence_high,
            power: text_of(self.power),
            power_low: text_of(self.power_low),
            power_high: text_of(self.power_high),
        }
    }

    /// Compiles the segment: its timeline where it has a duration, a
    /// cadence and a power, and the failure where one of them is missing.
    pub fn to_time_series(&self) -> (outcome: Result<WorkoutTimeSeries, TimeSeriesError>)
        ensures
            compiles_to(self.plan(), outcome),
    {
        build_series(
            self.duration,
            self.cadence,
            self.cadence_low,
            self.cadence_high,
            &self.power,
            &self.power_low,
            &self.power_high,
        )
    }
}

impl FreeRide {
    /// What the segment gives to compile. It has no power bounds.
    pub open spec fn plan(&self) -> Plan {
        Plan {
            duration: self.duration,
            cadence: self.cadence,
            cadence_low: self.cadence_low,
            cadence_high: self.cadence_high,
            power: text_of(self.power),
            power_low: None,
            power_high: None,
        }
    }

    /// Compiles the segment: its timeline where it has a duration, a
    /// cadence and a power, and the failure where one of them is missing.
    pub fn to_time_series(&self) -> (outcome: Result<WorkoutTimeSeries, TimeSeriesError>)
        ensures
            compiles_to(self.plan(), outcome),
    {
        build_series(
            self.duration,
            self.cadence,
            self.cadence_low,
            self.cadence_high,
            &self.power,
            &None,
            &None,
        )
    }
}

impl Freeride {
    /// What the segment gives to compile. It has a duration only, so it never compiles.
    pub open spec fn plan(&self) -> Plan {
        Plan {
            duration: self.duration,
            cadence: None,
            cadence_low: None,
            cadence_high: None,
            power: None,
            power_low: None,
            power_high: None,
        }
    }

    /// Compiles the segment: its timeline where it has a duration, a
    /// cadence and a power, and the failure where one of them is missing.
    pub fn to_time_series(&self) -> (outcome: Result<WorkoutTimeSeries, TimeSeriesError>)
        ensures
            compiles_to(self.plan(), outcome),
    {
        build_series(
            self.duration,
            None,
            None,
            None,
            &None,
            &None,
            &None,
        )
    }
}

impl IntervalsT {
    /// What the segment gives to compile. It has no duration and no power of its own, so it never compiles.
    pub open spec fn plan(&self) -> Plan {
        Plan {
            duration: None,
            cadence: self.cadence,
            cadence_low: self.cadence_low,
            cadence_high: self.cadence_high,
            power: None,
            power_low: None,
            power_high: None,
        }
    }

    /// Compiles the segment: its timeline where it has a duration, a
    /// cadence and a power, and the failure where one of them is missing.
    pub fn to_time_series(&self) -> (outcome: Result<WorkoutTimeSeries, TimeSeriesError>)
        ensures
            compiles_to(self.plan(), outcome),
    {
        build_series(
            None,
            self.cadence,
            self.cadence_low,
            self.cadence_high,
            &None,
            &None,
            &None,
        )
    }
}

impl MaxEffort {
    /// What the segment gives to compile. It has a duration only, so it never compiles.
    pub open spec fn plan(&self) -> Plan {
        Plan {
            duration: self.duration,
            cadence: None,
            cadence_low: None,
            cadence_high: None,
            power: None,
            power_low: None,
            power_high: None,
        }
    }

    /// Compiles the segment: its timeline where it has a duration, a
    /// cadence and a power, and the failure where one of them is missing.
    pub fn to_time_series(&self) -> (outcome: Result<WorkoutTimeSeries, TimeSeriesError>)
        ensures
            compiles_to(self.plan(), outcome),
    {
        build_series(
            self.duration,
            None,
            None,
            None,
            &None,
            &None,
            &None,
        )
    }
}

impl Ramp {
    /// What the segment gives to compile. It has no cadence bounds.
    pub open spec fn plan(&self) -> Plan {
        Plan {
            duration: self.duration,
            cadence: self.cadence,
            cadence_low: None,
            cadence_high: None,
            power: text_of(self.power),
            power_low: text_of(self.power_low),
            power_high: text_of(self.power_high),
        }
    }

    /// Compiles the segment: its timeline where it has a duration, a
    /// cadence and a power, and the failure where one of them is missing.
    pub fn to_time_series(&self) -> (outcome: Result<WorkoutTimeSeries, TimeSeriesError>)
        ensures
            compiles_to(self.plan(), outcome),
    {
        build_series(
            self.duration,
            self.cadence,
            None,
            None,
            &self.power,
            &self.power_low,
            &self.power_high,
        )
    }
}

impl SolidState {
    /// What the segment gives to compile. It has no cadence, so it never compiles.
    pub open spec fn plan(&self) -> Plan {
        Plan {
            duration: self.duration,
            cadence: None,
            cadence_low: None,
            cadence_high: None,
            power: text_of(self.power),
            power_low: None,
            power_high: None,
        }
    }

    /// Compiles the segment: its timeline where it has a duration, a
    /// cadence and a power, and the failure where one of them is missing.
    pub fn to_time_series(&self) -> (outcome: Result<WorkoutTimeSeries, TimeSeriesError>)
        ensures
            compiles_to(self.plan(), outcome),
    {
        build_series(
            self.duration,
            None,
            None,
            None,
            &self.power,
            &None,
            &None,
        )
    }
}

impl ExerciseTag {
    /// What the segment gives to compile. A rest day and an unknown tag
    /// give nothing, and add nothing to a timeline.
    pub open spec fn plan(&self) -> Option<Plan> {
        match self {
            ExerciseTag::Warmup(s) => Some(s.plan()),
            ExerciseTag::SteadyState(s) => Some(s.plan()),
            ExerciseTag::Cooldown(s) => Some(s.plan()),
            ExerciseTag::FreeRide(s) => Some(s.plan()),
            ExerciseTag::Freeride(s) => Some(s.plan()),
            ExerciseTag::IntervalsT(s) => Some(s.plan()),
            ExerciseTag::MaxEffort(s) => Some(s.plan()),
            ExerciseTag::Ramp(s) => Some(s.plan()),
            ExerciseTag::RestDay => None,
            ExerciseTag::SolidState(s) => Some(s.plan()),
            ExerciseTag::Unknown => None,
        }
    }

    /// Compiles the segment. A rest day and an unknown tag give no
    /// timeline and no failure.
    pub fn to_time_series(&self) -> (outcome: Option<Result<WorkoutTimeSeries, TimeSeriesError>>)
        ensures
            match outcome {
                Some(compiled) => self.plan() is Some && compiles_to(
                    self.plan().unwrap(),
                    compiled,
                ),
                None => self.plan() is None,
            },
    {
        match self {
            ExerciseTag::Warmup(s) => Some(s.to_time_series()),
            ExerciseTag::SteadyState(s) => Some(s.to_time_series()),
            ExerciseTag::Cooldown(s) => Some(s.to_time_series()),
            ExerciseTag::FreeRide(s) => Some(s.to_time_series()),
            ExerciseTag::Freeride(s) => Some(s.to_time_series()),
            ExerciseTag::IntervalsT(s) => Some(s.to_time_series()),
            ExerciseTag::MaxEffort(s) => Some(s.to_time_series()),
            ExerciseTag::Ramp(s) => Some(s.to_time_series()),
            ExerciseTag::RestDay => None,
            ExerciseTag::SolidState(s) => Some(s.to_time_series()),
            ExerciseTag::Unknown => None,
        }
    }
}

/// Every one of the first `n` segments that has something to compile has
/// all that a timeline needs.
pub open spec fn compilable_upto(segments: Seq<ExerciseTag>, n: int) -> bool {
    forall|k: int|
        0 <= k < n && k < segments.len() && (#[trigger] segments[k]).plan() is Some
            ==> segments[k].plan().unwrap().complete()
}

/// Every segment that has something to compile has all that a timeline
/// needs.
pub open spec fn compilable(segments: Seq<ExerciseTag>) -> bool {
    compilable_upto(segments, segments.len() as int)
}

/// The timelines of the first `n` segments, one after the other. The time
/// of each starts again at zero.
pub open spec fn timeline_upto(segments: Seq<ExerciseTag>, n: int) -> Timeline
    decreases n,
{
    if n <= 0 {
        Timeline::empty()
    } else {
        match segments[n - 1].plan() {
            Some(plan) => timeline_upto(segments, n - 1).followed_by(plan.timeline()),
            None => timeline_upto(segments, n - 1),
        }
    }
}

/// The timelines of all the segments, one after the other.
pub open spec fn workout_timeline(segments: Seq<ExerciseTag>) -> Timeline {
    timeline_upto(segments, segments.len() as int)
}

/// Compiles a workout into one timeline: the timelines of its segments in
/// their order, the time of each starting again at zero. Where a segment
/// lacks a duration, a cadence or a power, the whole workout fails and no
/// part of a timeline is returned.
pub fn create_timeseries(workout: Workout) -> (outcome: Result<
    WorkoutTimeSeries,
    TimeSeriesError,
>)
    ensures
        match outcome {
            Ok(series) => compilable(workout.exercise@) && series@ == workout_timeline(
                workout.exercise@,
            ) && series@.well_formed(),
            Err(_) => !compilable(workout.exercise@),
        },
{
    let mut time: Vec<usize> = Vec::new();
    let mut cadence: Vec<i32> = Vec::new();
    let mut power: Vec<PowerSample> = Vec::new();
    let ghost segments = workout.exercise@;
    let mut i: usize = 0;
    assert((WorkoutTimeSeries { time, cadence, power })@.time =~= Timeline::empty().time);
    assert((WorkoutTimeSeries { time, cadence, power })@.cadence =~= Timeline::empty().cadence);
    assert((WorkoutTimeSeries { time, cadence, power })@.power =~= Timeline::empty().power);
    while i < workout.exercise.len()
        invariant
            i <= segments.len(),
            segments == workout.exercise@,
            compilable_upto(segments, i as int),
            (WorkoutTimeSeries { time, cadence, power })@ == timeline_upto(segments, i as int),
        decreases segments.len() - i,
    {
        let ghost so_far = (WorkoutTimeSeries { time, cadence, power })@;
        match workout.exercise[i].to_time_series() {
            None => {},
            Some(Err(error)) => {
                return Err(error);
            },
            Some(Ok(part)) => {
                let ghost added = part@;
                let mut part = part;
                time.append(&mut part.time);
                cadence.append(&mut part.cadence);
                power.append(&mut part.power);
                proof {
                    let now = (WorkoutTimeSeries { time, cadence, power })@;
                    assert(now.time =~= so_far.followed_by(added).time);
                    assert(now.cadence =~= so_far.followed_by(added).cadence);
                    assert(now.power =~= so_far.followed_by(added).power);
                }
            },
        }
        i += 1;
    }
    proof {
        lemma_timeline_well_formed(segments, segments.len() as int);
    }
    Ok(WorkoutTimeSeries { time, cadence, power })
}

/// A segment with one cadence and one power, and no pair of bounds for
/// either, compiles to as many samples as its duration has seconds: the time
/// counts up from zero, and every sample holds that cadence and that power.
pub proof fn lemma_constant_segment(plan: Plan)
    requires
        plan.duration is Some,
        plan.cadence is Some,
        plan.power is Some,
        !plan.cadence_ramps(),
        !plan.power_ramps(),
    ensures
        plan.complete(),
        plan.duration.unwrap() >= 0 ==> plan.timeline().time.len() == plan.duration.unwrap(),
        plan.timeline().well_formed(),
        forall|k: int|
            0 <= k < plan.timeline().time.len() ==> {
                &&& #[trigger] plan.timeline().time[k] == k
                &&& plan.timeline().cadence[k] == plan.cadence.unwrap()
                &&& plan.timeline().power[k] == PowerTarget::Level(plan.power.unwrap())
            },
{
}

/// A segment whose power is given as a pair of bounds, with a duration of
/// two seconds or more, compiles to as many samples as the duration has
/// seconds; the first holds the low bound and the last the high bound.
pub proof fn lemma_power_ramp(plan: Plan)
    requires
        plan.complete(),
        plan.power_ramps(),
        plan.duration.unwrap() >= 2,
    ensures
        plan.timeline().power.len() == plan.duration.unwrap(),
        plan.timeline().power[0] == PowerTarget::Level(plan.power_low.unwrap()),
        plan.timeline().power[plan.duration.unwrap() - 1] == PowerTarget::Level(
            plan.power_high.unwrap(),
        ),
{
}

/// A segment whose cadence is given as a pair of bounds compiles to as many
/// samples as its duration has seconds. The first holds the low bound; the
/// last holds the high bound where there is a second for every whole number
/// between the bounds.
pub proof fn lemma_cadence_ramp(plan: Plan)
    requires
        plan.complete(),
        plan.cadence_ramps(),
        plan.duration.unwrap() >= 1,
    ensures
        plan.timeline().cadence.len() == plan.duration.unwrap(),
        plan.timeline().cadence[0] == plan.cadence_low.unwrap(),
        span(plan.cadence_low.unwrap() as int, plan.cadence_high.unwrap() as int)
            <= plan.duration.unwrap() ==> plan.timeline().cadence[plan.duration.unwrap() - 1]
            == plan.cadence_high.unwrap(),
{
    let low = plan.cadence_low.unwrap() as int;
    let high = plan.cadence_high.unwrap() as int;
    let length = plan.duration.unwrap() as int;
    lemma_linspace_first(low, high, length);
    if span(low, high) <= length {
        lemma_linspace_last(low, high, length);
    }
}

/// A workout with a segment that lacks a duration, a cadence or a power does
/// not compile.
pub proof fn lemma_incomplete_segment_fails(segments: Seq<ExerciseTag>, k: int)
    requires
        0 <= k < segments.len(),
        segments[k].plan() is Some,
        !segments[k].plan().unwrap().complete(),
    ensures
        !compilable(segments),
{
}

/// The timeline of a workout has one cadence and one power for every time.
pub proof fn lemma_timeline_well_formed(segments: Seq<ExerciseTag>, n: int)
    ensures
        timeline_upto(segments, n).well_formed(),
    decreases n,
{
    if n > 0 {
        lemma_timeline_well_formed(segments, n - 1);
    }
}

proof fn lemma_timeline_without(segments: Seq<ExerciseTag>, k: int, n: int)
    requires
        0 <= k < segments.len(),
        segments[k].plan() is None,
        0 <= n <= segments.len(),
    ensures
        n <= k ==> timeline_upto(segments, n) == timeline_upto(segments.remove(k), n),
        n > k ==> timeline_upto(segments, n) == timeline_upto(segments.remove(k), n - 1),
    decreases n,
{
    let rest = segments.remove(k);
    if n > 0 {
        lemma_timeline_without(segments, k, n - 1);
        if n - 1 < k {
            assert(rest[n - 1] == segments[n - 1]);
        } else if n - 1 > k {
            assert(rest[n - 2] == segments[n - 1]);
        }
    }
}

/// A rest day or an unknown tag never shows in a timeline: the workout
/// compiles as it does without that segment, to the same timeline.
pub proof fn lemma_rest_adds_nothing(segments: Seq<ExerciseTag>, k: int)
    requires
        0 <= k < segments.len(),
        segments[k] is RestDay || segments[k] is Unknown,
    ensures
        compilable(segments) == compilable(segments.remove(k)),
        workout_timeline(segments) == workout_timeline(segments.remove(k)),
{
    let rest = segments.remove(k);
    lemma_timeline_without(segments, k, segments.len() as int);
    if compilable(segments) {
        assert forall|j: int|
            0 <= j < rest.len() && (#[trigger] rest[j]).plan() is Some implies rest[j].plan().unwrap().complete() by {
            if j < k {
                assert(rest[j] == segments[j]);
            } else {
                assert(rest[j] == segments[j + 1]);
            }
        }
    }
    if compilable(rest) {
        assert forall|j: int|
            0 <= j < segments.len() && (#[trigger] segments[j]).plan() is Some implies segments[j].plan().unwrap().complete() by {
            if j < k {
                assert(rest[j] == segments[j]);
            } else if j > k {
                assert(rest[j - 1] == segments[j]);
            }
        }
    }
}

} // verus!
