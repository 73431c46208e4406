//! Text annotations.
//!
//! An annotation is a text or notification tied to a point of the workout.
//! Besides its attributes it carries how deeply its tag is nested and, where
//! that is deeper than two levels, how many segments stand before it.

use vstd::prelude::*;
use crate::attribute::{integer_in, text_in, text_of, Scan, TagText};
use crate::text::str_eq;

verus! {

/// A text shown during the ride, written `TextEvent`.
#[derive(Clone, Debug)]
pub struct TextEvent {
    /// The attribute `Duration`, a whole number.
    pub duration: Option<i32>,
    /// The attribute `message`, text.
    pub message: Option<String>,
    /// The attribute `TimeOffset`, a whole number.
    pub time_offset: Option<i32>,
    /// The attribute `timeoffset`, a whole number.
    pub time_offset2: Option<i32>,
    /// How deeply the tag is nested, by the count of tags opened and closed before it.
    pub level: Option<usize>,
    /// How many segments stand before the tag, where it is nested deeper than two levels.
    pub previous_element: Option<usize>,
}

impl TextEvent {
    /// No field holds a value.
    pub open spec fn is_blank(&self) -> bool {
        &&& self.duration is None
        &&& self.message is None
        &&& self.time_offset is None
        &&& self.time_offset2 is None
        &&& self.level is None
        &&& self.previous_element is None
    }

    /// Every field that an attribute fills holds what the text of the tag
    /// gives for that attribute; the scan for a value starts ahead of the name, by its length.
    pub open spec fn decoded_from(&self, chunk: Seq<char>) -> bool {
        &&& self.duration == integer_in(chunk, "Duration", Scan::BeforeName)
        &&& text_of(self.message) == text_in(chunk, "message", Scan::BeforeName)
        &&& self.time_offset == integer_in(chunk, "TimeOffset", Scan::BeforeName)
        &&& self.time_offset2 == integer_in(chunk, "timeoffset", Scan::BeforeName)
    }
}

/// A text shown during the ride, written `textevent`: a tag of its own, with other attributes.
#[derive(Clone, Debug)]
pub struct Textevent {
    /// The attribute `distoffset`, a whole number.
    pub distoffset: Option<i32>,
    /// The attribute `duration`, a whole number.
    pub duration: Option<i32>,
    /// The attribute `message`, text.
    pub message: Option<String>,
    /// The scale of the text. No attribute fills it.
    pub text_scale: Option<i32>,
    /// The attribute `timeoffset`, a whole number.
    pub time_offset: Option<i32>,
    /// How deeply the tag is nested, by the count of tags opened and closed before it.
    pub level: Option<usize>,
    /// How many segments stand before the tag, where it is nested deeper than two levels.
    pub previous_element: Option<usize>,
}

impl Textevent {
    /// No field holds a value.
    pub open spec fn is_blank(&self) -> bool {
        &&& self.distoffset is None
        &&& self.duration is None
        &&& self.message is None
        &&& self.text_scale is None
        &&& self.time_offset is None
        &&& self.level is None
        &&& self.previous_element is None
    }

    /// Every field that an attribute fills holds what the text of the tag
    /// gives for that attribute; the scan for a value starts behind the name.
    pub open spec fn decoded_from(&self, chunk: Seq<char>) -> bool {
        &&& self.distoffset == integer_in(chunk, "distoffset", Scan::AfterName)
        &&& self.duration == integer_in(chunk, "duration", Scan::AfterName)
        &&& text_of(self.message) == text_in(chunk, "message", Scan::AfterName)
        &&& self.text_scale is None
        &&& self.time_offset == integer_in(chunk, "timeoffset", Scan::AfterName)
    }
}

/// A notification shown during the ride.
#[derive(Clone, Debug)]
pub struct TextNotification {
    /// The attribute `duration`, a whole number.
    pub duration: Option<i32>,
    /// The attribute `text`, text.
    pub text: Option<String>,
    /// The attribute `timeoffset`, a whole number.
    pub time_offset: Option<i32>,
    /// How deeply the tag is nested, by the count of tags opened and closed before it.
    pub level: Option<usize>,
    /// How many segments stand before the tag, where it is nested deeper than two levels.
    pub previous_element: Option<usize>,
}

impl TextNotification {
    /// No field holds a value.
    pub open spec fn is_blank(&self) -> bool {
        &&& self.duration is None
        &&& self.text is None
        &&& self.time_offset is None
        &&& self.level is None
        &&& self.previous_element is None
    }

    /// Every field that an attribute fills holds what the text of the tag
    /// gives for that attribute; the scan for a value starts ahead of the name, by its length.
    pub open spec fn decoded_from(&self, chunk: Seq<char>) -> bool {
        &&& self.duration == integer_in(chunk, "duration", Scan::BeforeName)
        &&& text_of(self.text) == text_in(chunk, "text", Scan::BeforeName)
        &&& self.time_offset == integer_in(chunk, "timeoffset", Scan::BeforeName)
    }
}

/// A text or notification of a workout.
#[derive(Clone, Debug)]
pub enum TextTags {
    TextEvent(TextEvent),
    TextEvent2(Textevent),
    TextNotification(TextNotification),
    /// A tag that is no annotation.
    Unknown,
}

impl TextTags {
    /// The annotation is of the kind that the tag name `name` stands for,
    /// and the name of no kind gives `Unknown`.
    pub open spec fn is_kind(&self, name: Seq<char>) -> bool {
        if name == "TextEvent"@ {
            self is TextEvent
        } else if name == "textevent"@ {
            self is TextEvent2
        } else if name == "TextNotification"@ {
            self is TextNotification
        } else {
            self is Unknown
        }
    }

    /// No field of the annotation holds a value.
    pub open spec fn is_blank(&self) -> bool {
        match self {
            TextTags::TextEvent(t) => t.is_blank(),
            TextTags::TextEvent2(t) => t.is_blank(),
            TextTags::TextNotification(t) => t.is_blank(),
            TextTags::Unknown => true,
        }
    }

    /// The fields that attributes fill hold what the text of the tag gives.
    pub open spec fn decoded_from(&self, chunk: Seq<char>) -> bool {
        match self {
            TextTags::TextEvent(t) => t.decoded_from(chunk),
            TextTags::TextEvent2(t) => t.decoded_from(chunk),
            TextTags::TextNotification(t) => t.decoded_from(chunk),
            TextTags::Unknown => true,
        }
    }

    /// How deeply the tag is nested, where that is set.
    pub open spec fn level(&self) -> Option<usize> {
        match self {
            TextTags::TextEvent(t) => t.level,
            TextTags::TextEvent2(t) => t.level,
            TextTags::TextNotification(t) => t.level,
            TextTags::Unknown => None,
        }
    }

    /// How many segments stand before the tag, where that is set.
    pub open spec fn previous_element(&self) -> Option<usize> {
        match self {
            TextTags::TextEvent(t) => t.previous_element,
            TextTags::TextEvent2(t) => t.previous_element,
            TextTags::TextNotification(t) => t.previous_element,
            TextTags::Unknown => None,
        }
    }
}

/// The annotation kind that a tag name stands for, with no field set.
pub fn text_str2enum(name_str: &str) -> (kind: TextTags)
    ensures
        kind.is_kind(name_str@),
        kind.is_blank(),
{
    if str_eq(name_str, "TextEvent") {
        TextTags::TextEvent(new_text_event_struct())
    } else if str_eq(name_str, "textevent") {
        TextTags::TextEvent2(new_text_event2_struct())
    } else if str_eq(name_str, "TextNotification") {
        TextTags::TextNotification(new_text_notification_struct())
    } else {
        TextTags::Unknown
    }
}

/// A `TextEvent` with no field set.
pub fn new_text_event_struct() -> (blank: TextEvent)
    ensures
        blank.is_blank(),
{
    TextEvent {
        duration: None,
        message: None,
        time_offset: None,
        time_offset2: None,
        level: None,
        previous_element: None,
    }
}

/// A `Textevent` with no field set.
pub fn new_text_event2_struct() -> (blank: Textevent)
    ensures
        blank.is_blank(),
{
    Textevent {
        distoffset: None,
        duration: None,
        message: None,
        text_scale: None,
        time_offset: None,
        level: None,
        previous_element: None,
    }
}

/// A `TextNotification` with no field set.
pub fn new_text_notification_struct() -> (blank: TextNotification)
    ensures
        blank.is_blank(),
{
    TextNotification {
        duration: None,
        text: None,
        time_offset: None,
        level: None,
        previous_element: None,
    }
}

/// Decodes the attributes of a `TextEvent` tag from the text of the tag.
/// The nesting level and the count of segments are left unset.
pub fn get_properties_text_event(chunk: &str) -> (annotation: TextEvent)
    ensures
        annotation.decoded_from(chunk@),
        annotation.level is None,
        annotation.previous_element is None,
{
    let tag = TagText::new(chunk);
    TextEvent {
        duration: tag.integer("Duration", Scan::BeforeName),
        message: tag.text("message", Scan::BeforeName),
        time_offset: tag.integer("TimeOffset", Scan::BeforeName),
        time_offset2: tag.integer("timeoffset", Scan::BeforeName),
        level: None,
        previous_element: None,
    }
}

/// Decodes the attributes of a `textevent` tag from the text of the tag.
/// The nesting level and the count of segments are left unset.
pub fn get_properties_text_event2(chunk: &str) -> (annotation: Textevent)
    ensures
        annotation.decoded_from(chunk@),
        annotation.level is None,
        annotation.previous_element is None,
{
    let tag = TagText::new(chunk);
    Textevent {
        distoffset: tag.integer("distoffset", Scan::AfterName),
        duration: tag.integer("duration", Scan::AfterName),
        message: tag.text("message", Scan::AfterName),
        text_scale: None,
        time_offset: tag.integer("timeoffset", Scan::AfterName),
        level: None,
        previous_element: None,
    }
}

/// Decodes the attributes of a `TextNotification` tag from the text of the tag.
/// The nesting level and the count of segments are left unset.
pub fn get_properties_text_notification(chunk: &str) -> (annotation: TextNotification)
    ensures
        annotation.decoded_from(chunk@),
        annotation.level is None,
        annotation.previous_element is None,
{
    let tag = TagText::new(chunk);
    TextNotification {
        duration: tag.integer("duration", Scan::BeforeName),
        text: tag.text("text", Scan::BeforeName),
        time_offset: tag.integer("timeoffset", Scan::BeforeName),
        level: None,
        previous_element: None,
    }
}

/// Decodes the annotation of the kind that `name` stands for from the text
/// of its tag, and records the nesting level of the tag and, where that is
/// above two, the number of segments that stand before it.
pub fn build_annotation(name: &str, chunk: &str, level: usize, segments: usize) -> (annotation:
    TextTags)
    ensures
        annotation.is_kind(name@),
        annotation.decoded_from(chunk@),
        !(annotation is Unknown) ==> annotation.level() == Some(level),
        !(annotation is Unknown) ==> annotation.previous_element() == if level > 2 {
            Some(segments)
        } else {
            None::<usize>
        },
{
    let previous = if level > 2 {
        Some(segments)
    } else {
        None
    };
    match text_str2enum(name) {
        TextTags::TextEvent(_) => {
            let mut event = get_properties_text_event(chunk);
            event.level = Some(level);
            event.previous_element = previous;
            TextTags::TextEvent(event)
        },
        TextTags::TextEvent2(_) => {
            let mut event = get_properties_text_event2(chunk);
            event.level = Some(level);
            event.previous_element = previous;
            TextTags::TextEvent2(event)
        },
        TextTags::TextNotification(_) => {
            let mut notification = get_properties_text_notification(chunk);
            notification.level = Some(level);
            notification.previous_element = previous;
            TextTags::TextNotification(notification)
        },
        TextTags::Unknown => TextTags::Unknown,
    }
}

} // verus!
