//! Transcript correction by a language model: how segments are batched for the model,
//! and what of its answer is accepted.
use vstd::prelude::*;

use crate::text::{
    find_char, is_first_index, is_last_index, lacks_char, law_find_char_is_first_occurrence,
    law_rfind_char_is_last_occurrence, rfind_char, trim, trim_str,
};

verus! {

/// At most this many segments go to the model at once.
pub const MAX_BATCH_ITEMS: usize = 12;

/// A batch holds at most this many characters, unless it is a single segment.
pub const MAX_BATCH_CHARS: usize = 5000;

/// One segment as the model sees it: its id and its text.
#[derive(Debug)]
pub struct EnhancementItem {
    pub id: String,
    pub text: String,
}

impl Clone for EnhancementItem {
    fn clone(&self) -> (copy: Self)
        ensures
            copy == *self,
    {
        EnhancementItem { id: self.id.clone(), text: self.text.clone() }
    }
}

/// The number of characters of all the texts.
pub open spec fn chars_sum(items: Seq<EnhancementItem>) -> nat
    decreases items.len(),
{
    if items.len() == 0 {
        0
    } else {
        chars_sum(items.drop_last()) + items.last().text@.len()
    }
}

/// A batch is not empty, holds at most `MAX_BATCH_ITEMS` segments, and at most
/// `MAX_BATCH_CHARS` characters unless it is a single segment.
pub open spec fn batch_fits(batch: Seq<EnhancementItem>) -> bool {
    &&& 0 < batch.len() <= MAX_BATCH_ITEMS
    &&& (batch.len() == 1 || chars_sum(batch) <= MAX_BATCH_CHARS)
}

/// The batch could take no more: it is full, or the next segment would exceed the
/// character limit.
pub open spec fn batch_full_before(batch: Seq<EnhancementItem>, next: EnhancementItem) -> bool {
    batch.len() == MAX_BATCH_ITEMS || chars_sum(batch) + next.text@.len() > MAX_BATCH_CHARS
}

/// Batch `k` could not have taken the first segment of batch `k + 1`.
pub open spec fn full_at(batches: Seq<Seq<EnhancementItem>>, k: int) -> bool {
    batch_full_before(batches[k], batches[k + 1][0])
}

/// `batches` cut `items` greedily: in order, nothing left out, every batch fits, and
/// every batch but the last was filled as far as the limits allow.
pub open spec fn greedy_batches(items: Seq<EnhancementItem>, batches: Seq<Seq<EnhancementItem>>) -> bool {
    &&& batches.flatten() == items
    &&& forall|k: int| 0 <= k < batches.len() ==> batch_fits(#[trigger] batches[k])
    &&& forall|k: int| 0 <= k < batches.len() - 1 ==> #[trigger] full_at(batches, k)
}

/// The batches as sequences.
pub open spec fn batch_seqs(batches: Seq<&[EnhancementItem]>) -> Seq<Seq<EnhancementItem>> {
    batches.map_values(|b: &[EnhancementItem]| b@)
}

proof fn lemma_chars_sum_push(items: Seq<EnhancementItem>, item: EnhancementItem)
    ensures
        chars_sum(items.push(item)) == chars_sum(items) + item.text@.len(),
{
    assert(items.push(item).drop_last() =~= items);
}

/// Cuts the segments into the batches sent to the model, greedily: each batch takes
/// segments until it holds `MAX_BATCH_ITEMS` of them or the next one would bring it over
/// `MAX_BATCH_CHARS` characters; a batch always takes at least one segment.
pub fn build_batches(items: &[EnhancementItem]) -> (batches: Vec<&[EnhancementItem]>)
    ensures
        greedy_batches(items@, batch_seqs(batches@)),
{
    let n = items.len();
    let mut batches: Vec<&[EnhancementItem]> = Vec::new();
    let mut start: usize = 0;
    while start < n
        invariant
            n == items@.len(),
            start <= n,
            batch_seqs(batches@).flatten() == items@.subrange(0, start as int),
            forall|k: int|
                0 <= k < batches@.len() ==> batch_fits(#[trigger] batch_seqs(batches@)[k]),
            forall|k: int|
                0 <= k < batches@.len() - 1 ==> #[trigger] full_at(batch_seqs(batches@), k),
            batches@.len() > 0 && start < n ==> batch_full_before(
                batch_seqs(batches@).last(),
                items@[start as int],
            ),
        decreases n - start,
    {
        let mut end: usize = start;
        let mut characters: usize = 0;
        assert(items@.subrange(start as int, start as int) =~= Seq::<EnhancementItem>::empty());
        loop
            invariant
                n == items@.len(),
                start < n,
                start <= end <= n,
                end - start <= MAX_BATCH_ITEMS,
                characters == chars_sum(items@.subrange(start as int, end as int)),
                end - start <= 1 || characters <= MAX_BATCH_CHARS,
            ensures
                start < end <= n,
                end - start <= MAX_BATCH_ITEMS,
                characters == chars_sum(items@.subrange(start as int, end as int)),
                end - start <= 1 || characters <= MAX_BATCH_CHARS,
                end < n ==> batch_full_before(
                    items@.subrange(start as int, end as int),
                    items@[end as int],
                ),
            decreases n - end,
        {
            if end >= n || end - start >= MAX_BATCH_ITEMS {
                break;
            }
            let next = items[end].text.as_str().unicode_len();
            proof {
                assert(items@.subrange(start as int, end + 1) =~= items@.subrange(
                    start as int,
                    end as int,
                ).push(items@[end as int]));
                lemma_chars_sum_push(items@.subrange(start as int, end as int), items@[end as int]);
            }
            if end > start && (characters > MAX_BATCH_CHARS || next > MAX_BATCH_CHARS - characters) {
                break;
            }
            characters = characters + next;
            end = end + 1;
        }
        let batch = &items[start..end];
        let ghost before = batch_seqs(batches@);
        batches.push(batch);
        proof {
            assert(batch_seqs(batches@) =~= before.push(items@.subrange(start as int, end as int)));
            before.lemma_flatten_push(items@.subrange(start as int, end as int));
            assert(items@.subrange(0, start as int) + items@.subrange(start as int, end as int)
                =~= items@.subrange(0, end as int));
            assert forall|k: int| 0 <= k < batches@.len() - 1 implies #[trigger] full_at(
                batch_seqs(batches@),
                k,
            ) by {
                if k < before.len() - 1 {
                    assert(full_at(before, k));
                } else {
                    assert(batch_seqs(batches@)[k + 1][0] == items@[start as int]);
                }
            }
        }
        start = end;
    }
    assert(items@.subrange(0, n as int) =~= items@);
    batches
}

// ---------------------------------------------------------------------------------
// The model's answer.
// ---------------------------------------------------------------------------------
/// Everything the enhancement logic can refuse.
#[derive(Debug)]
pub enum EnhancementError {
    /// The meeting id is blank.
    EmptyMeetingId,
    /// No meeting has the id.
    MeetingNotFound,
    /// The meeting has no transcript to correct.
    NoTranscriptSegments,
    /// The answer holds no `[`.
    NoJsonArray,
    /// The answer holds no `]`.
    IncompleteJsonArray,
    /// The answer has another number of segments than the request.
    SegmentCountChanged,
    /// A segment of the answer has another id than the segment at its place.
    SegmentIdentityChanged,
    /// A segment that had text came back blank.
    TranscriptTextRemoved,
}

/// The text shown for each refusal.
pub open spec fn enhancement_error_text(e: EnhancementError) -> Seq<char> {
    match e {
        EnhancementError::EmptyMeetingId => "meeting_id cannot be empty"@,
        EnhancementError::MeetingNotFound => "Meeting not found"@,
        EnhancementError::NoTranscriptSegments => "Meeting has no transcript segments"@,
        EnhancementError::NoJsonArray => "LLM response did not contain a JSON array"@,
        EnhancementError::IncompleteJsonArray => "LLM response did not contain a complete JSON array"@,
        EnhancementError::SegmentCountChanged => "LLM changed the transcript segment count"@,
        EnhancementError::SegmentIdentityChanged => "LLM changed transcript segment identity or order"@,
        EnhancementError::TranscriptTextRemoved => "LLM removed transcript text"@,
    }
}

impl EnhancementError {
    /// The message of this error, as the user sees it.
    pub fn message(&self) -> (text: String)
        ensures
            text@ == enhancement_error_text(*self),
    {
        match self {
            EnhancementError::EmptyMeetingId => String::from_str("meeting_id cannot be empty"),
            EnhancementError::MeetingNotFound => String::from_str("Meeting not found"),
            EnhancementError::NoTranscriptSegments => String::from_str(
                "Meeting has no transcript segments",
            ),
            EnhancementError::NoJsonArray => String::from_str(
                "LLM response did not contain a JSON array",
            ),
            EnhancementError::IncompleteJsonArray => String::from_str(
                "LLM response did not contain a complete JSON array",
            ),
            EnhancementError::SegmentCountChanged => String::from_str(
                "LLM changed the transcript segment count",
            ),
            EnhancementError::SegmentIdentityChanged => String::from_str(
                "LLM changed transcript segment identity or order",
            ),
            EnhancementError::TranscriptTextRemoved => String::from_str(
                "LLM removed transcript text",
            ),
        }
    }
}

/// The part of an answer from its first `[` to its last `]`, both included.
pub open spec fn array_span(s: Seq<char>) -> Result<Seq<char>, EnhancementError> {
    match find_char(s, '[', 0) {
        None => Err(EnhancementError::NoJsonArray),
        Some(open) => match rfind_char(s, ']', s.len() as int) {
            None => Err(EnhancementError::IncompleteJsonArray),
            Some(close) => Ok(s.subrange(open, close + 1)),
        },
    }
}

/// Whether the last `]` comes too early for a span to be cut: before the character that
/// precedes the first `[`.
pub open spec fn span_is_inverted(s: Seq<char>) -> bool {
    match (find_char(s, '[', 0), rfind_char(s, ']', s.len() as int)) {
        (Some(open), Some(close)) => close + 1 < open,
        _ => false,
    }
}

/// The array is cut from the first `[` of the answer to the last `]` of the whole answer,
/// both included; an answer with no `[` has no array, and one with a `[` but no `]` has an
/// unfinished one.  Where the last `]` comes before the first `[` (and not right before
/// it), no cut is possible.
pub proof fn law_answer_span_is_first_open_to_last_close(s: Seq<char>, open: int, close: int)
    ensures
        is_first_index(s, '[', open) && is_last_index(s, ']', close) ==> {
            &&& (open <= close + 1 <==> !span_is_inverted(s))
            &&& array_span(s) == Ok::<Seq<char>, EnhancementError>(s.subrange(open, close + 1))
        },
        lacks_char(s, '[') ==> array_span(s) == Err::<Seq<char>, EnhancementError>(
            EnhancementError::NoJsonArray,
        ),
        is_first_index(s, '[', open) && lacks_char(s, ']') ==> array_span(s) == Err::<
            Seq<char>,
            EnhancementError,
        >(EnhancementError::IncompleteJsonArray),
{
    law_find_char_is_first_occurrence(s, '[', open);
    law_rfind_char_is_last_occurrence(s, ']', close);
}

/// An answer that ends with `]` and holds a `[` is cut from its first `[` to its very
/// end.
pub proof fn law_answer_ending_in_bracket_is_cut_to_its_end(s: Seq<char>, open: int)
    requires
        s.len() > 0,
        s.last() == ']',
        is_first_index(s, '[', open),
    ensures
        !span_is_inverted(s),
        array_span(s) == Ok::<Seq<char>, EnhancementError>(s.subrange(open, s.len() as int)),
{
    law_answer_span_is_first_open_to_last_close(s, open, s.len() - 1);
}

proof fn law_answer_span_is_first_open_to_last_close_all(s: Seq<char>)
    ensures
        forall|open: int, close: int|
            #[trigger] is_first_index(s, '[', open) && #[trigger] is_last_index(s, ']', close)
                ==> array_span(s) == Ok::<Seq<char>, EnhancementError>(s.subrange(open, close + 1)),
        lacks_char(s, '[') ==> array_span(s) == Err::<Seq<char>, EnhancementError>(
            EnhancementError::NoJsonArray,
        ),
        forall|open: int|
            #[trigger] is_first_index(s, '[', open) && lacks_char(s, ']') ==> array_span(s) == Err::<
                Seq<char>,
                EnhancementError,
            >(EnhancementError::IncompleteJsonArray),
{
    assert forall|open: int, close: int|
        #[trigger] is_first_index(s, '[', open) && #[trigger] is_last_index(
            s,
            ']',
            close,
        ) implies array_span(s) == Ok::<Seq<char>, EnhancementError>(s.subrange(open, close + 1)) by {
        law_answer_span_is_first_open_to_last_close(s, open, close);
    }
    law_answer_span_is_first_open_to_last_close(s, 0, 0);
    assert forall|open: int| #[trigger] is_first_index(s, '[', open) && lacks_char(s, ']') implies array_span(
        s,
    ) == Err::<Seq<char>, EnhancementError>(EnhancementError::IncompleteJsonArray) by {
        law_answer_span_is_first_open_to_last_close(s, open, 0);
    }
}

/// Cuts the JSON array out of a model's answer: from the first `[` to the last `]`.  The
/// cut is impossible where the last `]` lies before the character preceding the first
/// `[`; such answers are left out.
pub fn json_array_span(response: &str) -> (span: Result<&str, EnhancementError>)
    requires
        !span_is_inverted(response@),
    ensures
        match (span, array_span(response@)) {
            (Ok(s), Ok(t)) => s@ == t,
            (Err(e), Err(f)) => e == f,
            _ => false,
        },
        forall|open: int, close: int|
            #[trigger] is_first_index(response@, '[', open) && #[trigger] is_last_index(
                response@,
                ']',
                close,
            ) ==> (span matches Ok(t) && t@ == response@.subrange(open, close + 1)),
        lacks_char(response@, '[') ==> span matches Err(EnhancementError::NoJsonArray),
        forall|open: int|
            #[trigger] is_first_index(response@, '[', open) && lacks_char(response@, ']') ==> (
            span matches Err(EnhancementError::IncompleteJsonArray)),
{
    proof {
        law_answer_span_is_first_open_to_last_close_all(response@);
    }
    let n = response.unicode_len();
    let mut open: usize = 0;
    while open < n && response.get_char(open) != '['
        invariant
            open <= n,
            n == response@.len(),
            find_char(response@, '[', 0) == find_char(response@, '[', open as int),
        decreases n - open,
    {
        open = open + 1;
    }
    if open == n {
        return Err(EnhancementError::NoJsonArray);
    }
    let mut close: usize = n;
    while close > 0 && response.get_char(close - 1) != ']'
        invariant
            close <= n,
            n == response@.len(),
            rfind_char(response@, ']', n as int) == rfind_char(response@, ']', close as int),
        decreases close,
    {
        close = close - 1;
    }
    if close == 0 {
        return Err(EnhancementError::IncompleteJsonArray);
    }
    Ok(response.substring_char(open, close))
}

/// Whether the answer's segment may stand for the requested one: same id, and no text
/// turned blank.
pub open spec fn item_accepted(expected: EnhancementItem, actual: EnhancementItem) -> bool {
    &&& actual.id@ == expected.id@
    &&& !(trim(actual.text@).len() == 0 && trim(expected.text@).len() > 0)
}

/// The verdict on the answer from position `k` on: the first refused pair decides, a
/// changed id before a removed text.
pub open spec fn check_items_from(
    input: Seq<EnhancementItem>,
    output: Seq<EnhancementItem>,
    k: int,
) -> Result<(), EnhancementError>
    decreases input.len() - k,
{
    if k < 0 || k >= input.len() {
        Ok(())
    } else if output[k].id@ != input[k].id@ {
        Err(EnhancementError::SegmentIdentityChanged)
    } else if trim(output[k].text@).len() == 0 && trim(input[k].text@).len() > 0 {
        Err(EnhancementError::TranscriptTextRemoved)
    } else {
        check_items_from(input, output, k + 1)
    }
}

/// The verdict on a whole answer.
pub open spec fn answer_verdict(input: Seq<EnhancementItem>, output: Seq<EnhancementItem>) -> Result<
    (),
    EnhancementError,
> {
    if output.len() != input.len() {
        Err(EnhancementError::SegmentCountChanged)
    } else {
        check_items_from(input, output, 0)
    }
}

/// Accepts the model's answer for a batch only when it has as many segments, with the same
/// ids in the same order, and turned no text blank.
pub fn validate_enhancement_output(
    input: &[EnhancementItem],
    output: Vec<EnhancementItem>,
) -> (accepted: Result<Vec<EnhancementItem>, EnhancementError>)
    ensures
        match (accepted, answer_verdict(input@, output@)) {
            (Ok(v), Ok(())) => v@ == output@,
            (Err(e), Err(f)) => e == f,
            _ => false,
        },
{
    if output.len() != input.len() {
        return Err(EnhancementError::SegmentCountChanged);
    }
    let mut k: usize = 0;
    while k < input.len()
        invariant
            k <= input@.len(),
            output@.len() == input@.len(),
            check_items_from(input@, output@, 0) == check_items_from(input@, output@, k as int),
        decreases input@.len() - k,
    {
        let expected = &input[k];
        let actual = &output[k];
        if actual.id != expected.id {
            return Err(EnhancementError::SegmentIdentityChanged);
        }
        if trim_str(actual.text.as_str()).is_empty() && !trim_str(expected.text.as_str()).is_empty() {
            return Err(EnhancementError::TranscriptTextRemoved);
        }
        k = k + 1;
    }
    Ok(output)
}

/// An accepted answer keeps every segment's id at its place.
pub proof fn lemma_accepted_answer_keeps_ids(
    input: Seq<EnhancementItem>,
    output: Seq<EnhancementItem>,
    k: int,
)
    requires
        answer_verdict(input, output) is Ok,
        0 <= k < input.len(),
    ensures
        output.len() == input.len(),
        item_accepted(input[k], output[k]),
{
    lemma_check_from_accepts(input, output, 0, k);
}

proof fn lemma_check_from_accepts(
    input: Seq<EnhancementItem>,
    output: Seq<EnhancementItem>,
    from: int,
    k: int,
)
    requires
        check_items_from(input, output, from) is Ok,
        0 <= from <= k < input.len(),
    ensures
        item_accepted(input[k], output[k]),
    decreases k - from,
{
    if from < k {
        lemma_check_from_accepts(input, output, from + 1, k);
    }
}

/// A meeting id is required.
pub fn check_meeting_id(meeting_id: &str) -> (checked: Result<(), EnhancementError>)
    ensures
        checked == if trim(meeting_id@).len() == 0 {
            Err(EnhancementError::EmptyMeetingId)
        } else {
            Ok(())
        },
{
    if trim_str(meeting_id).is_empty() {
        Err(EnhancementError::EmptyMeetingId)
    } else {
        Ok(())
    }
}

/// The status of a meeting whose enhancement is running.
pub open spec fn processing_status() -> Seq<char> {
    seq!['p', 'r', 'o', 'c', 'e', 's', 's', 'i', 'n', 'g']
}

/// The status of a meeting whose enhancement has finished.
pub open spec fn completed_status() -> Seq<char> {
    seq!['c', 'o', 'm', 'p', 'l', 'e', 't', 'e', 'd']
}

/// Whether an enhancement starts for a meeting with the given stored status: not for a
/// missing meeting (an error), not while one runs or after one finished (`Ok(false)`).
pub fn enhancement_should_start(status: Option<&str>) -> (start: Result<bool, EnhancementError>)
    ensures
        start == match status {
            None => Err(EnhancementError::MeetingNotFound),
            Some(s) => Ok(s@ != processing_status() && s@ != completed_status()),
        },
{
    proof {
        reveal_strlit("processing");
        reveal_strlit("completed");
        assert("processing"@ =~= processing_status());
        assert("completed"@ =~= completed_status());
    }
    match status {
        None => Err(EnhancementError::MeetingNotFound),
        Some(s) => {
            let status = String::from_str(s);
            Ok(!(status == String::from_str("processing")) && !(status == String::from_str("completed")))
        },
    }
}

/// A meeting is enhanced only when it has transcript segments.
pub fn require_transcript_segments(count: usize) -> (checked: Result<(), EnhancementError>)
    ensures
        checked == if count == 0 {
            Err(EnhancementError::NoTranscriptSegments)
        } else {
            Ok(())
        },
{
    if count == 0 {
        Err(EnhancementError::NoTranscriptSegments)
    } else {
        Ok(())
    }
}

} // verus!
