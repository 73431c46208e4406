//! Assembling a workout from the text of a workout file.
//!
//! The text is searched for the names of the known tags, each behind a `<`.
//! Every place where one stands begins a chunk, which runs up to the next
//! such place, or to the end of the text. The text of a tag is its chunk up
//! to the first `>`; a chunk without one gives nothing. Segments and
//! annotations are collected apart, each kind in the order of the text.

use vstd::prelude::*;
use vstd::slice::slice_subrange;
use vstd::string::*;
use crate::annotation::{build_annotation, TextTags};
use crate::segment::{build_segment, ExerciseTag};
use crate::text::{
    chars_of, clip, count, count_matches, find, first_match, lemma_first_match_from, matches_at,
    starts_at,
};

verus! {

/// The names of the tags that describe the workout as a whole.
pub open spec fn category_names() -> Seq<Seq<char>> {
    seq!["author"@, "name"@, "description"@, "workout"@, "sportType"@, "tags"@]
}

/// The names of the segment tags.
pub open spec fn exercise_names() -> Seq<Seq<char>> {
    seq![
        "Warmup"@,
        "SteadyState"@,
        "Cooldown"@,
        "FreeRide"@,
        "Freeride"@,
        "IntervalsT"@,
        "MaxEffort"@,
        "Ramp"@,
        "RestDay"@,
        "SolidState"@,
    ]
}

/// The names of the annotation tags.
pub open spec fn text_names() -> Seq<Seq<char>> {
    seq!["textevent"@, "TextEvent"@, "TextNotification"@]
}

/// The text that opens the tag `name`.
pub open spec fn open_tag(name: Seq<char>) -> Seq<char> {
    seq!['<'] + name
}

/// The positions as whole numbers.
pub open spec fn as_ints(positions: Seq<usize>) -> Seq<int> {
    Seq::new(positions.len(), |i: int| positions[i] as int)
}

/// The positions below `upto` where `pattern` occurs in `doc`, ascending.
pub open spec fn positions_upto(doc: Seq<char>, pattern: Seq<char>, upto: int) -> Seq<int>
    decreases upto,
{
    if upto <= 0 {
        Seq::empty()
    } else if matches_at(doc, pattern, upto - 1) {
        positions_upto(doc, pattern, upto - 1).push(upto - 1)
    } else {
        positions_upto(doc, pattern, upto - 1)
    }
}

/// The positions where the first `n` of `tags` are opened in `doc`: those of
/// the first tag in ascending order, then those of the second, and so on.
pub open spec fn top_tags_upto(doc: Seq<char>, tags: Seq<Seq<char>>, n: int) -> Seq<int>
    decreases n,
{
    if n <= 0 {
        Seq::empty()
    } else {
        top_tags_upto(doc, tags, n - 1) + positions_upto(
            doc,
            open_tag(tags[n - 1]),
            doc.len() as int,
        )
    }
}

/// The positions where any of `tags` is opened in `doc`, tag by tag.
pub open spec fn top_tags(doc: Seq<char>, tags: Seq<Seq<char>>) -> Seq<int> {
    top_tags_upto(doc, tags, tags.len() as int)
}

/// The first of `names`, from the `from`-th on, whose tag is opened in `doc`
/// at position `at`.
pub open spec fn tag_index_from(doc: Seq<char>, names: Seq<Seq<char>>, at: int, from: int)
    -> Option<int>
    decreases names.len() - from,
{
    if from < 0 || from >= names.len() {
        None
    } else if matches_at(doc, open_tag(names[from]), at) {
        Some(from)
    } else {
        tag_index_from(doc, names, at, from + 1)
    }
}

/// The first of `names` whose tag is opened in `doc` at position `at`.
pub open spec fn tag_index(doc: Seq<char>, names: Seq<Seq<char>>, at: int) -> Option<int> {
    tag_index_from(doc, names, at, 0)
}

/// A segment tag or an annotation tag is opened in `doc` at position `at`.
pub open spec fn is_mark(doc: Seq<char>, at: int) -> bool {
    tag_index(doc, exercise_names(), at) is Some || tag_index(doc, text_names(), at) is Some
}

/// The positions below `upto` where a known tag is opened, ascending.
pub open spec fn marks_upto(doc: Seq<char>, upto: int) -> Seq<int>
    decreases upto,
{
    if upto <= 0 {
        Seq::empty()
    } else if is_mark(doc, upto - 1) {
        marks_upto(doc, upto - 1).push(upto - 1)
    } else {
        marks_upto(doc, upto - 1)
    }
}

/// The positions where a known tag is opened, ascending.
pub open spec fn marks(doc: Seq<char>) -> Seq<int> {
    marks_upto(doc, doc.len() as int)
}

/// Where the chunk of the `i`-th mark ends: at the next mark, or with the
/// text.
pub open spec fn chunk_end(doc: Seq<char>, i: int) -> int {
    if i + 1 < marks(doc).len() {
        marks(doc)[i + 1]
    } else {
        doc.len() as int
    }
}

/// The chunk of the `i`-th mark.
pub open spec fn chunk(doc: Seq<char>, i: int) -> Seq<char> {
    doc.subrange(marks(doc)[i], chunk_end(doc, i))
}

/// The text of the tag that a chunk begins with: the chunk up to its first
/// `>`. A chunk without one holds no whole tag.
pub open spec fn tag_text(chunk: Seq<char>) -> Option<Seq<char>> {
    match first_match(chunk, seq!['>']) {
        None => None,
        Some(end) => Some(chunk.subrange(0, end)),
    }
}

/// The `i`-th mark opens a segment tag that is whole.
pub open spec fn yields_segment(doc: Seq<char>, i: int) -> bool {
    &&& tag_index(doc, exercise_names(), marks(doc)[i]) is Some
    &&& tag_text(chunk(doc, i)) is Some
}

/// The `i`-th mark opens an annotation tag that is whole.
pub open spec fn yields_annotation(doc: Seq<char>, i: int) -> bool {
    &&& tag_index(doc, text_names(), marks(doc)[i]) is Some
    &&& tag_text(chunk(doc, i)) is Some
}

/// Which of the first `n` marks give a segment, ascending.
pub open spec fn segment_sources_upto(doc: Seq<char>, n: int) -> Seq<int>
    decreases n,
{
    if n <= 0 {
        Seq::empty()
    } else if yields_segment(doc, n - 1) {
        segment_sources_upto(doc, n - 1).push(n - 1)
    } else {
        segment_sources_upto(doc, n - 1)
    }
}

/// Which marks give a segment, ascending.
pub open spec fn segment_sources(doc: Seq<char>) -> Seq<int> {
    segment_sources_upto(doc, marks(doc).len() as int)
}

/// Which of the first `n` marks give an annotation, ascending.
pub open spec fn annotation_sources_upto(doc: Seq<char>, n: int) -> Seq<int>
    decreases n,
{
    if n <= 0 {
        Seq::empty()
    } else if yields_annotation(doc, n - 1) {
        annotation_sources_upto(doc, n - 1).push(n - 1)
    } else {
        annotation_sources_upto(doc, n - 1)
    }
}

/// Which marks give an annotation, ascending.
pub open spec fn annotation_sources(doc: Seq<char>) -> Seq<int> {
    annotation_sources_upto(doc, marks(doc).len() as int)
}

/// How deeply a tag at position `at` is nested: the number of `<` before it,
/// less twice the number of `</` and the number of `/>` before it, and zero
/// where that would fall below zero.
pub open spec fn tag_level(doc: Seq<char>, at: int) -> nat {
    let before = clip(doc, 0, at);
    let opened = count_matches(before, seq!['<']);
    let closed = 2 * count_matches(before, seq!['<', '/']) + count_matches(before, seq!['/', '>']);
    if opened >= closed {
        (opened - closed) as nat
    } else {
        0
    }
}

/// `segment` is what the `i`-th mark gives: a segment of the kind that the
/// tag names, with the attributes that the text of the tag holds.
pub open spec fn segment_from(doc: Seq<char>, i: int, segment: ExerciseTag) -> bool {
    let name = exercise_names()[tag_index(doc, exercise_names(), marks(doc)[i]).unwrap()];
    &&& segment.is_kind(name)
    &&& segment.decoded_from(tag_text(chunk(doc, i)).unwrap())
}

/// `annotation` is what the `i`-th mark gives: an annotation of the kind that
/// the tag names, with the attributes that the text of the tag holds, the
/// nesting level of the tag and, where that is above two, the number of
/// segments that stand before it.
pub open spec fn annotation_from(doc: Seq<char>, i: int, annotation: TextTags) -> bool {
    let name = text_names()[tag_index(doc, text_names(), marks(doc)[i]).unwrap()];
    let level = tag_level(doc, marks(doc)[i]);
    &&& annotation.is_kind(name)
    &&& annotation.decoded_from(tag_text(chunk(doc, i)).unwrap())
    &&& annotation.level() == Some(level as usize)
    &&& annotation.previous_element() == if level > 2 {
        Some(segment_sources_upto(doc, i).len() as usize)
    } else {
        None
    }
}

/// The segments and the annotations of a workout, each in the order of the
/// file.
#[derive(Clone, Debug)]
pub struct Workout {
    pub exercise: Vec<ExerciseTag>,
    pub text: Vec<TextTags>,
}

impl Workout {
    /// The workout holds, in the order of the text, one segment for every
    /// whole segment tag of `doc` and one annotation for every whole
    /// annotation tag, and nothing else.
    pub open spec fn assembled_from(&self, doc: Seq<char>) -> bool {
        &&& self.exercise@.len() == segment_sources(doc).len()
        &&& forall|k: int|
            0 <= k < self.exercise@.len() ==> segment_from(
                doc,
                segment_sources(doc)[k],
                #[trigger] self.exercise@[k],
            )
        &&& self.text@.len() == annotation_sources(doc).len()
        &&& forall|k: int|
            0 <= k < self.text@.len() ==> annotation_from(
                doc,
                annotation_sources(doc)[k],
                #[trigger] self.text@[k],
            )
    }
}

/// The marks below `upto` lie below `upto`, ascend strictly, and are the
/// positions where a known tag is opened.
pub proof fn lemma_marks_upto(doc: Seq<char>, upto: int)
    ensures
        marks_upto(doc, upto).len() <= if upto <= 0 {
            0
        } else {
            upto
        },
        forall|i: int|
            0 <= i < marks_upto(doc, upto).len() ==> 0 <= #[trigger] marks_upto(doc, upto)[i]
                < upto && is_mark(doc, marks_upto(doc, upto)[i]),
        forall|i: int, j: int|
            0 <= i < j < marks_upto(doc, upto).len() ==> marks_upto(doc, upto)[i] < marks_upto(
                doc,
                upto,
            )[j],
        forall|at: int|
            0 <= at < upto && is_mark(doc, at) ==> marks_upto(doc, upto).contains(at),
    decreases upto,
{
    if upto > 0 {
        lemma_marks_upto(doc, upto - 1);
        let rest = marks_upto(doc, upto - 1);
        let all = marks_upto(doc, upto);
        assert forall|at: int| 0 <= at < upto && is_mark(doc, at) implies all.contains(at) by {
            if at < upto - 1 {
                let i = choose|i: int| 0 <= i < rest.len() && rest[i] == at;
                assert(all[i] == at);
            } else {
                assert(all[all.len() - 1] == at);
            }
        }
    }
}

/// The marks of a text lie inside it and ascend strictly.
pub proof fn lemma_marks(doc: Seq<char>)
    ensures
        marks(doc).len() <= doc.len(),
        forall|i: int|
            0 <= i < marks(doc).len() ==> 0 <= #[trigger] marks(doc)[i] < doc.len() && is_mark(
                doc,
                marks(doc)[i],
            ),
        forall|i: int, j: int| 0 <= i < j < marks(doc).len() ==> marks(doc)[i] < marks(doc)[j],
        forall|at: int| 0 <= at < doc.len() && is_mark(doc, at) ==> marks(doc).contains(at),
{
    lemma_marks_upto(doc, doc.len() as int);
}

/// The sources among the first `n` marks are marks among the first `n`,
/// ascend strictly, and each gives a segment.
pub proof fn lemma_segment_sources_upto(doc: Seq<char>, n: int)
    ensures
        segment_sources_upto(doc, n).len() <= if n <= 0 {
            0
        } else {
            n
        },
        forall|k: int|
            0 <= k < segment_sources_upto(doc, n).len() ==> 0 <= #[trigger] segment_sources_upto(
                doc,
                n,
            )[k] < n && yields_segment(doc, segment_sources_upto(doc, n)[k]),
        forall|j: int, k: int|
            0 <= j < k < segment_sources_upto(doc, n).len() ==> segment_sources_upto(doc, n)[j]
                < segment_sources_upto(doc, n)[k],
    decreases n,
{
    if n > 0 {
        lemma_segment_sources_upto(doc, n - 1);
    }
}

/// The sources among the first `n` marks are marks among the first `n`,
/// ascend strictly, and each gives an annotation.
pub proof fn lemma_annotation_sources_upto(doc: Seq<char>, n: int)
    ensures
        annotation_sources_upto(doc, n).len() <= if n <= 0 {
            0
        } else {
            n
        },
        forall|k: int|
            0 <= k < annotation_sources_upto(doc, n).len() ==> 0
                <= #[trigger] annotation_sources_upto(doc, n)[k] < n && yields_annotation(
                doc,
                annotation_sources_upto(doc, n)[k],
            ),
        forall|j: int, k: int|
            0 <= j < k < annotation_sources_upto(doc, n).len() ==> annotation_sources_upto(
                doc,
                n,
            )[j] < annotation_sources_upto(doc, n)[k],
    decreases n,
{
    if n > 0 {
        lemma_annotation_sources_upto(doc, n - 1);
    }
}

/// The place in the text of the tag that the `k`-th segment was made from.
pub open spec fn segment_offset(doc: Seq<char>, k: int) -> int {
    marks(doc)[segment_sources(doc)[k]]
}

/// The place in the text of the tag that the `k`-th annotation was made
/// from.
pub open spec fn annotation_offset(doc: Seq<char>, k: int) -> int {
    marks(doc)[annotation_sources(doc)[k]]
}

/// Segments keep the order of the text: of two segments of a workout, the
/// one whose tag stands first in the text comes first.
pub proof fn lemma_segments_in_document_order(doc: Seq<char>, j: int, k: int)
    requires
        0 <= j < segment_sources(doc).len(),
        0 <= k < segment_sources(doc).len(),
    ensures
        j < k <==> segment_offset(doc, j) < segment_offset(doc, k),
{
    lemma_marks(doc);
    lemma_segment_sources_upto(doc, marks(doc).len() as int);
}

/// Annotations keep the order of the text: of two annotations of a workout,
/// the one whose tag stands first in the text comes first.
pub proof fn lemma_annotations_in_document_order(doc: Seq<char>, j: int, k: int)
    requires
        0 <= j < annotation_sources(doc).len(),
        0 <= k < annotation_sources(doc).len(),
    ensures
        j < k <==> annotation_offset(doc, j) < annotation_offset(doc, k),
{
    lemma_marks(doc);
    lemma_annotation_sources_upto(doc, marks(doc).len() as int);
}

/// The back-reference of an annotation counts the segments whose tags stand
/// before the tag of the annotation, and no others.
pub proof fn lemma_segments_before_annotation(doc: Seq<char>, i: int, k: int)
    requires
        0 <= i < marks(doc).len(),
        0 <= k < segment_sources(doc).len(),
    ensures
        k < segment_sources_upto(doc, i).len() <==> segment_offset(doc, k) < marks(doc)[i],
{
    lemma_marks(doc);
    let n = marks(doc).len() as int;
    lemma_segment_sources_upto(doc, n);
    lemma_segment_sources_upto(doc, i);
    lemma_sources_prefix(doc, i, n);
}

/// The sources among fewer marks begin the sources among more.
pub proof fn lemma_sources_prefix(doc: Seq<char>, i: int, n: int)
    requires
        0 <= i <= n,
    ensures
        segment_sources_upto(doc, i).len() <= segment_sources_upto(doc, n).len(),
        forall|k: int|
            0 <= k < segment_sources_upto(doc, i).len() ==> #[trigger] segment_sources_upto(
                doc,
                n,
            )[k] == segment_sources_upto(doc, i)[k],
        forall|k: int|
            segment_sources_upto(doc, i).len() <= k < segment_sources_upto(doc, n).len() ==> i
                <= #[trigger] segment_sources_upto(doc, n)[k],
    decreases n - i,
{
    if i < n {
        lemma_sources_prefix(doc, i, n - 1);
        lemma_segment_sources_upto(doc, n - 1);
    }
}

/// A tag index that is found names one of the tags, and its tag is opened at
/// the place asked for.
pub proof fn lemma_tag_index_from(doc: Seq<char>, names: Seq<Seq<char>>, at: int, from: int)
    requires
        0 <= from,
    ensures
        match tag_index_from(doc, names, at, from) {
            Some(k) => from <= k < names.len() && matches_at(doc, open_tag(names[k]), at),
            None => forall|k: int|
                from <= k < names.len() ==> !matches_at(doc, open_tag(#[trigger] names[k]), at),
        },
    decreases names.len() - from,
{
    if from < names.len() && !matches_at(doc, open_tag(names[from]), at) {
        lemma_tag_index_from(doc, names, at, from + 1);
    }
}

/// The positions below `upto` where `pattern` occurs are those that
/// `positions_upto` lists.
pub proof fn lemma_positions_upto(doc: Seq<char>, pattern: Seq<char>, upto: int)
    ensures
        forall|at: int|
            #![trigger positions_upto(doc, pattern, upto).contains(at)]
            #![trigger matches_at(doc, pattern, at)]
            positions_upto(doc, pattern, upto).contains(at) <==> 0 <= at < upto && matches_at(
                doc,
                pattern,
                at,
            ),
    decreases upto,
{
    if upto > 0 {
        lemma_positions_upto(doc, pattern, upto - 1);
        let rest = positions_upto(doc, pattern, upto - 1);
        let all = positions_upto(doc, pattern, upto);
        assert forall|at: int| all.contains(at) implies 0 <= at < upto && matches_at(
            doc,
            pattern,
            at,
        ) by {
            let i = choose|i: int| 0 <= i < all.len() && all[i] == at;
            if i < rest.len() {
                assert(rest[i] == at);
                assert(rest.contains(at));
                assert(0 <= at < upto - 1 && matches_at(doc, pattern, at));
            } else {
                assert(matches_at(doc, pattern, upto - 1));
                assert(all == rest.push(upto - 1));
                assert(at == upto - 1);
            }
        }
        assert forall|at: int| 0 <= at < upto && matches_at(doc, pattern, at) implies all.contains(
            at,
        ) by {
            if at < upto - 1 {
                assert(rest.contains(at));
                let i = choose|i: int| 0 <= i < rest.len() && rest[i] == at;
                assert(all[i] == at);
            } else {
                assert(all[all.len() - 1] == at);
            }
        }
    }
}

/// A place is listed for the first `n` tags where one of them is opened
/// there.
pub proof fn lemma_top_tags_upto(doc: Seq<char>, tags: Seq<Seq<char>>, n: int)
    requires
        n <= tags.len(),
    ensures
        forall|at: int|
            #![trigger top_tags_upto(doc, tags, n).contains(at)]
            top_tags_upto(doc, tags, n).contains(at) <==> exists|k: int|
                0 <= k < n && #[trigger] matches_at(doc, open_tag(tags[k]), at),
    decreases n,
{
    if n > 0 {
        lemma_top_tags_upto(doc, tags, n - 1);
        let pattern = open_tag(tags[n - 1]);
        lemma_positions_upto(doc, pattern, doc.len() as int);
        let rest = top_tags_upto(doc, tags, n - 1);
        let last = positions_upto(doc, pattern, doc.len() as int);
        let all = top_tags_upto(doc, tags, n);
        assert(all == rest + last);
        assert forall|at: int| all.contains(at) implies exists|k: int|
            0 <= k < n && #[trigger] matches_at(doc, open_tag(tags[k]), at) by {
            let i = choose|i: int| 0 <= i < all.len() && all[i] == at;
            if i < rest.len() {
                assert(rest[i] == at);
                assert(rest.contains(at));
                let k = choose|k: int|
                    0 <= k < n - 1 && #[trigger] matches_at(doc, open_tag(tags[k]), at);
                assert(matches_at(doc, open_tag(tags[k]), at));
            } else {
                assert(last[i - rest.len()] == at);
                assert(last.contains(at));
                assert(matches_at(doc, open_tag(tags[n - 1]), at));
            }
        }
        assert forall|at: int|
            (exists|k: int|
                0 <= k < n && #[trigger] matches_at(doc, open_tag(tags[k]), at)) implies all.contains(
            at,
        ) by {
            let k = choose|k: int| 0 <= k < n && #[trigger] matches_at(doc, open_tag(tags[k]), at);
            if k < n - 1 {
                assert(rest.contains(at));
                let i = choose|i: int| 0 <= i < rest.len() && rest[i] == at;
                assert(all[i] == at);
            } else {
                assert(pattern.len() >= 1);
                assert(last.contains(at));
                let i = choose|i: int| 0 <= i < last.len() && last[i] == at;
                assert(all[rest.len() + i] == at);
            }
        }
    } else {
        assert(top_tags_upto(doc, tags, n) =~= Seq::<int>::empty());
    }
}

/// The marks of a text are the places that the search for the segment tags
/// and the search for the annotation tags find, merged and put in ascending
/// order: a place is a mark where one of the two searches lists it.
pub proof fn lemma_marks_merge_top_tags(doc: Seq<char>, at: int)
    ensures
        marks(doc).contains(at) <==> top_tags(doc, exercise_names()).contains(at) || top_tags(
            doc,
            text_names(),
        ).contains(at),
{
    lemma_marks(doc);
    lemma_top_tags_upto(doc, exercise_names(), exercise_names().len() as int);
    lemma_top_tags_upto(doc, text_names(), text_names().len() as int);
    lemma_tag_index_from(doc, exercise_names(), at, 0);
    lemma_tag_index_from(doc, text_names(), at, 0);
    if marks(doc).contains(at) {
        let i = choose|i: int| 0 <= i < marks(doc).len() && marks(doc)[i] == at;
        assert(is_mark(doc, marks(doc)[i]));
        if tag_index(doc, exercise_names(), at) is Some {
            let k = tag_index(doc, exercise_names(), at).unwrap();
            assert(matches_at(doc, open_tag(exercise_names()[k]), at));
        } else {
            let k = tag_index(doc, text_names(), at).unwrap();
            assert(matches_at(doc, open_tag(text_names()[k]), at));
        }
    }
    if top_tags(doc, exercise_names()).contains(at) {
        let k = choose|k: int|
            0 <= k < exercise_names().len() && #[trigger] matches_at(
                doc,
                open_tag(exercise_names()[k]),
                at,
            );
        assert(open_tag(exercise_names()[k]).len() >= 1);
        assert(tag_index(doc, exercise_names(), at) is Some);
        assert(is_mark(doc, at));
    }
    if top_tags(doc, text_names()).contains(at) {
        let k = choose|k: int|
            0 <= k < text_names().len() && #[trigger] matches_at(
                doc,
                open_tag(text_names()[k]),
                at,
            );
        assert(open_tag(text_names()[k]).len() >= 1);
        assert(tag_index(doc, text_names(), at) is Some);
        assert(is_mark(doc, at));
    }
}

/// The names of the known tags: those that describe the workout as a whole,
/// those of the segments, and those of the annotations.
pub fn get_tag_names() -> (names: (Vec<String>, Vec<String>, Vec<String>))
    ensures
        names.0.deep_view() == category_names(),
        names.1.deep_view() == exercise_names(),
        names.2.deep_view() == text_names(),
{
    let mut category_names: Vec<String> = Vec::new();
    category_names.push("author".to_owned());
    category_names.push("name".to_owned());
    category_names.push("description".to_owned());
    category_names.push("workout".to_owned());
    category_names.push("sportType".to_owned());
    category_names.push("tags".to_owned());
    let mut exercise_names: Vec<String> = Vec::new();
    exercise_names.push("Warmup".to_owned());
    exercise_names.push("SteadyState".to_owned());
    exercise_names.push("Cooldown".to_owned());
    exercise_names.push("FreeRide".to_owned());
    exercise_names.push("Freeride".to_owned());
    exercise_names.push("IntervalsT".to_owned());
    exercise_names.push("MaxEffort".to_owned());
    exercise_names.push("Ramp".to_owned());
    exercise_names.push("RestDay".to_owned());
    exercise_names.push("SolidState".to_owned());
    let mut text_names: Vec<String> = Vec::new();
    text_names.push("textevent".to_owned());
    text_names.push("TextEvent".to_owned());
    text_names.push("TextNotification".to_owned());
    assert(category_names.deep_view() =~= self::category_names());
    assert(exercise_names.deep_view() =~= self::exercise_names());
    assert(text_names.deep_view() =~= self::text_names());
    (category_names, exercise_names, text_names)
}

fn open_pattern(name: &str) -> (pattern: Vec<char>)
    ensures
        pattern@ == open_tag(name@),
{
    let mut pattern: Vec<char> = vec!['<'];
    let mut letters = chars_of(name);
    pattern.append(&mut letters);
    assert(pattern@ =~= open_tag(name@));
    pattern
}

fn scan_positions(doc: &[char], pattern: &[char], offsets: &mut Vec<usize>)
    ensures
        as_ints(final(offsets)@) == as_ints(old(offsets)@) + positions_upto(
            doc@,
            pattern@,
            doc@.len() as int,
        ),
{
    let ghost before = as_ints(offsets@);
    let mut at: usize = 0;
    assert(as_ints(offsets@) =~= before + positions_upto(doc@, pattern@, 0));
    while at < doc.len()
        invariant
            at <= doc@.len(),
            as_ints(offsets@) == before + positions_upto(doc@, pattern@, at as int),
        decreases doc@.len() - at,
    {
        let ghost seen = as_ints(offsets@);
        if starts_at(doc, pattern, at) {
            offsets.push(at);
            assert(as_ints(offsets@) =~= seen.push(at as int));
        }
        at += 1;
        assert(as_ints(offsets@) =~= before + positions_upto(doc@, pattern@, at as int));
    }
}

/// Finds every place where one of `tags` is opened in the text: the places
/// of the first tag in ascending order, then those of the second, and so on.
pub fn find_top_tags(file_contents: &String, tags: &Vec<String>) -> (tag_starts: Vec<usize>)
    ensures
        as_ints(tag_starts@) == top_tags(file_contents@, tags.deep_view()),
        forall|i: int| 0 <= i < tag_starts@.len() ==> #[trigger] tag_starts@[i] < file_contents@.len(),
{
    let doc = chars_of(file_contents.as_str());
    let mut tag_starts: Vec<usize> = Vec::new();
    let mut t: usize = 0;
    assert(as_ints(tag_starts@) =~= top_tags_upto(file_contents@, tags.deep_view(), 0));
    while t < tags.len()
        invariant
            t <= tags@.len(),
            doc@ == file_contents@,
            as_ints(tag_starts@) == top_tags_upto(file_contents@, tags.deep_view(), t as int),
        decreases tags@.len() - t,
    {
        let pattern = open_pattern(tags[t].as_str());
        assert(tags.deep_view()[t as int] == tags@[t as int]@);
        scan_positions(doc.as_slice(), pattern.as_slice(), &mut tag_starts);
        t += 1;
    }
    proof {
        let names = tags.deep_view();
        let listed = top_tags(file_contents@, names);
        lemma_top_tags_upto(file_contents@, names, names.len() as int);
        assert forall|i: int| 0 <= i < tag_starts@.len() implies #[trigger] tag_starts@[i]
            < file_contents@.len() by {
            let at = as_ints(tag_starts@)[i];
            assert(listed[i] == at);
            assert(listed.contains(at));
            let k = choose|k: int|
                0 <= k < names.len() && #[trigger] matches_at(
                    file_contents@,
                    open_tag(names[k]),
                    at,
                );
            assert(open_tag(names[k]).len() >= 1);
        }
    }
    tag_starts
}

fn level_at(doc: &[char], at: usize) -> (level: usize)
    ensures
        level == tag_level(doc@, at as int),
{
    let end = if at <= doc.len() {
        at
    } else {
        doc.len()
    };
    let before = slice_subrange(doc, 0, end);
    let open = vec!['<'];
    let close = vec!['<', '/'];
    let self_close = vec!['/', '>'];
    assert(open@ =~= seq!['<']);
    assert(close@ =~= seq!['<', '/']);
    assert(self_close@ =~= seq!['/', '>']);
    let opened = count(before, open.as_slice()) as u128;
    let closed = 2 * (count(before, close.as_slice()) as u128) + (count(
        before,
        self_close.as_slice(),
    ) as u128);
    if opened >= closed {
        (opened - closed) as usize
    } else {
        0
    }
}

/// How deeply a tag at position `start_pos` of the text is nested: the
/// number of `<` before it, less twice the number of `</` and the number of
/// `/>` before it, and zero where that would fall below zero.
pub fn get_tag_level(file_str: &str, start_pos: usize) -> (level: usize)
    ensures
        level == tag_level(file_str@, start_pos as int),
{
    let doc = chars_of(file_str);
    level_at(doc.as_slice(), start_pos)
}

fn open_patterns(names: &Vec<String>) -> (patterns: Vec<Vec<char>>)
    ensures
        patterns@.len() == names@.len(),
        forall|k: int|
            0 <= k < names@.len() ==> (#[trigger] patterns@[k])@ == open_tag(names@[k]@),
{
    let mut patterns: Vec<Vec<char>> = Vec::new();
    let mut k: usize = 0;
    while k < names.len()
        invariant
            k <= names@.len(),
            patterns@.len() == k,
            forall|j: int| 0 <= j < k ==> (#[trigger] patterns@[j])@ == open_tag(names@[j]@),
        decreases names@.len() - k,
    {
        patterns.push(open_pattern(names[k].as_str()));
        k += 1;
    }
    patterns
}

fn tag_index_at(
    doc: &[char],
    patterns: &Vec<Vec<char>>,
    Ghost(names): Ghost<Seq<Seq<char>>>,
    at: usize,
) -> (found: Option<usize>)
    requires
        patterns@.len() == names.len(),
        forall|k: int| 0 <= k < names.len() ==> (#[trigger] patterns@[k])@ == open_tag(names[k]),
    ensures
        match found {
            Some(k) => tag_index(doc@, names, at as int) == Some(k as int) && k < names.len(),
            None => tag_index(doc@, names, at as int) is None,
        },
{
    let mut k: usize = 0;
    while k < patterns.len()
        invariant
            k <= patterns@.len(),
            patterns@.len() == names.len(),
            forall|k: int|
                0 <= k < names.len() ==> (#[trigger] patterns@[k])@ == open_tag(names[k]),
            tag_index(doc@, names, at as int) == tag_index_from(doc@, names, at as int, k as int),
        decreases patterns@.len() - k,
    {
        if starts_at(doc, patterns[k].as_slice(), at) {
            return Some(k);
        }
        k += 1;
    }
    None
}

fn scan_marks(doc: &[char], exercise: &Vec<Vec<char>>, text: &Vec<Vec<char>>) -> (found: Vec<
    usize,
>)
    requires
        exercise@.len() == exercise_names().len(),
        forall|k: int|
            0 <= k < exercise_names().len() ==> (#[trigger] exercise@[k])@ == open_tag(
                exercise_names()[k],
            ),
        text@.len() == text_names().len(),
        forall|k: int|
            0 <= k < text_names().len() ==> (#[trigger] text@[k])@ == open_tag(text_names()[k]),
    ensures
        as_ints(found@) == marks(doc@),
{
    let mut found: Vec<usize> = Vec::new();
    let mut at: usize = 0;
    assert(as_ints(found@) =~= marks_upto(doc@, 0));
    while at < doc.len()
        invariant
            at <= doc@.len(),
            exercise@.len() == exercise_names().len(),
            forall|k: int|
                0 <= k < exercise_names().len() ==> (#[trigger] exercise@[k])@ == open_tag(
                    exercise_names()[k],
                ),
            text@.len() == text_names().len(),
            forall|k: int|
                0 <= k < text_names().len() ==> (#[trigger] text@[k])@ == open_tag(
                    text_names()[k],
                ),
            as_ints(found@) == marks_upto(doc@, at as int),
        decreases doc@.len() - at,
    {
        let ghost seen = as_ints(found@);
        let segment = tag_index_at(doc, exercise, Ghost(exercise_names()), at);
        let annotation = tag_index_at(doc, text, Ghost(text_names()), at);
        if segment.is_some() || annotation.is_some() {
            found.push(at);
            assert(as_ints(found@) =~= seen.push(at as int));
        }
        at += 1;
    }
    found
}

/// Assembles the workout that the text of a workout file describes.
///
/// Every place where a segment tag or an annotation tag is opened begins a
/// chunk, which ends where the next one begins. A chunk with a `>` gives the
/// segment or the annotation of its tag, decoded from the chunk up to that
/// `>`; a chunk without one gives nothing. An annotation also gets its
/// nesting level and, where that is above two, the number of segments before
/// it.
pub fn zwo_read(file_contents: &str) -> (workout: Workout)
    ensures
        workout.assembled_from(file_contents@),
{
    let doc = chars_of(file_contents);
    let names = get_tag_names();
    let exercise = open_patterns(&names.1);
    let text = open_patterns(&names.2);
    proof {
        assert forall|k: int| 0 <= k < exercise_names().len() implies (
        #[trigger] exercise@[k])@ == open_tag(exercise_names()[k]) by {
            assert(names.1.deep_view()[k] == names.1@[k]@);
        }
        assert forall|k: int| 0 <= k < text_names().len() implies (#[trigger] text@[k])@
            == open_tag(text_names()[k]) by {
            assert(names.2.deep_view()[k] == names.2@[k]@);
        }
        assert(names.1.deep_view().len() == names.1@.len());
        assert(names.2.deep_view().len() == names.2@.len());
    }
    let found = scan_marks(doc.as_slice(), &exercise, &text);
    let close = vec!['>'];
    assert(close@ =~= seq!['>']);
    let mut segments: Vec<ExerciseTag> = Vec::new();
    let mut annotations: Vec<TextTags> = Vec::new();
    let mut i: usize = 0;
    proof {
        lemma_marks(doc@);
    }
    while i < found.len()
        invariant
            i <= found@.len(),
            doc@ == file_contents@,
            close@ == seq!['>'],
            as_ints(found@) == marks(doc@),
            names.1.deep_view() == exercise_names(),
            names.2.deep_view() == text_names(),
            exercise@.len() == exercise_names().len(),
            forall|k: int|
                0 <= k < exercise_names().len() ==> (#[trigger] exercise@[k])@ == open_tag(
                    exercise_names()[k],
                ),
            text@.len() == text_names().len(),
            forall|k: int|
                0 <= k < text_names().len() ==> (#[trigger] text@[k])@ == open_tag(
                    text_names()[k],
                ),
            segments@.len() == segment_sources_upto(doc@, i as int).len(),
            forall|k: int|
                0 <= k < segments@.len() ==> segment_from(
                    doc@,
                    segment_sources_upto(doc@, i as int)[k],
                    #[trigger] segments@[k],
                ),
            annotations@.len() == annotation_sources_upto(doc@, i as int).len(),
            forall|k: int|
                0 <= k < annotations@.len() ==> annotation_from(
                    doc@,
                    annotation_sources_upto(doc@, i as int)[k],
                    #[trigger] annotations@[k],
                ),
        decreases found@.len() - i,
    {
        proof {
            lemma_marks(doc@);
            lemma_segment_sources_upto(doc@, i as int);
            assert(as_ints(found@)[i as int] == found@[i as int]);
            if i + 1 < found@.len() {
                assert(as_ints(found@)[i + 1] == found@[i + 1]);
            }
        }
        let before = segments.len();
        let start = found[i];
        let end = if i + 1 < found.len() {
            found[i + 1]
        } else {
            doc.len()
        };
        let piece = slice_subrange(doc.as_slice(), start, end);
        assert(piece@ == chunk(doc@, i as int));
        match find(piece, close.as_slice()) {
            None => {},
            Some(stop) => {
                proof {
                    lemma_first_match_from(piece@, close@, 0);
                    assert(matches_at(piece@, close@, stop as int));
                }
                let tag = file_contents.substring_char(start, start + stop);
                assert(tag@ =~= tag_text(chunk(doc@, i as int)).unwrap());
                match tag_index_at(doc.as_slice(), &exercise, Ghost(exercise_names()), start) {
                    None => {},
                    Some(k) => {
                        assert(names.1.deep_view()[k as int] == names.1@[k as int]@);
                        let segment = build_segment(names.1[k].as_str(), tag);
                        segments.push(segment);
                    },
                }
                match tag_index_at(doc.as_slice(), &text, Ghost(text_names()), start) {
                    None => {},
                    Some(k) => {
                        assert(names.2.deep_view()[k as int] == names.2@[k as int]@);
                        let level = level_at(doc.as_slice(), start);
                        let annotation = build_annotation(
                            names.2[k].as_str(),
                            tag,
                            level,
                            before,
                        );
                        assert(!(annotation is Unknown));
                        annotations.push(annotation);
                    },
                }
            },
        }
        i += 1;
    }
    Workout { exercise: segments, text: annotations }
}

} // verus!
