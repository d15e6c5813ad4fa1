//! What a meeting sent to Connections holds, and the checks around sending it.
use vstd::prelude::*;
use vstd::string::StringSliceAdditionalSpecFns;

use crate::codec::{form_urlencode, form_urlencoded};
use crate::identity::{IdentityView, OperationIdentity};
use crate::text::{joined_transcript, lemma_join_lines_push, lemma_kept_lines_push, kept_lines, trim_str};

verus! {

/// One transcript segment, as sequences of characters.  The three timing values are the
/// bit patterns (`f64::to_bits`) of the seconds the recording measured; they are carried,
/// never computed with.
pub struct SegmentView {
    pub id: Seq<char>,
    pub text: Seq<char>,
    pub timestamp: Seq<char>,
    pub speaker: Option<Seq<char>>,
    pub audio_start_time: Option<u64>,
    pub audio_end_time: Option<u64>,
    pub duration: Option<u64>,
}

/// One transcript segment of a meeting.  The timing values hold the bit patterns of
/// `f64` seconds (`f64::to_bits`), so that they pass through unchanged.
#[derive(Debug)]
pub struct TranscriptSegment {
    pub id: String,
    pub text: String,
    pub timestamp: String,
    pub speaker: Option<String>,
    pub audio_start_time: Option<u64>,
    pub audio_end_time: Option<u64>,
    pub duration: Option<u64>,
}

pub open spec fn opt_string_view(s: Option<String>) -> Option<Seq<char>> {
    match s {
        Some(s) => Some(s@),
        None => None,
    }
}

pub open spec fn opt_str_view(s: Option<&str>) -> Option<Seq<char>> {
    match s {
        Some(s) => Some(s@),
        None => None,
    }
}

fn clone_opt_string(s: &Option<String>) -> (copy: Option<String>)
    ensures
        opt_string_view(copy) == opt_string_view(*s),
{
    match s {
        Some(s) => Some(s.clone()),
        None => None,
    }
}

fn opt_str_to_string(s: Option<&str>) -> (owned: Option<String>)
    ensures
        opt_string_view(owned) == opt_str_view(s),
{
    match s {
        Some(s) => Some(String::from_str(s)),
        None => None,
    }
}

impl View for TranscriptSegment {
    type V = SegmentView;

    open spec fn view(&self) -> SegmentView {
        SegmentView {
            id: self.id@,
            text: self.text@,
            timestamp: self.timestamp@,
            speaker: opt_string_view(self.speaker),
            audio_start_time: self.audio_start_time,
            audio_end_time: self.audio_end_time,
            duration: self.duration,
        }
    }
}

impl Clone for TranscriptSegment {
    fn clone(&self) -> (copy: Self)
        ensures
            copy@ == self@,
    {
        TranscriptSegment {
            id: self.id.clone(),
            text: self.text.clone(),
            timestamp: self.timestamp.clone(),
            speaker: clone_opt_string(&self.speaker),
            audio_start_time: self.audio_start_time,
            audio_end_time: self.audio_end_time,
            duration: self.duration,
        }
    }
}

/// The segments as views.
pub open spec fn segments_view(segments: Seq<TranscriptSegment>) -> Seq<SegmentView> {
    segments.map_values(|s: TranscriptSegment| s@)
}

/// The texts of the segments.
pub open spec fn segment_texts(segments: Seq<SegmentView>) -> Seq<Seq<char>> {
    segments.map_values(|s: SegmentView| s.text)
}

/// The transcript of some segments: their texts, trimmed, blank ones left out, one per line.
pub open spec fn transcript_of(segments: Seq<SegmentView>) -> Seq<char> {
    joined_transcript(segment_texts(segments))
}

/// A copy of every segment, in order.
pub fn copy_segments(segments: &[TranscriptSegment]) -> (copy: Vec<TranscriptSegment>)
    ensures
        segments_view(copy@) == segments_view(segments@),
{
    let mut copy: Vec<TranscriptSegment> = Vec::new();
    let mut i: usize = 0;
    while i < segments.len()
        invariant
            i <= segments@.len(),
            segments_view(copy@) == segments_view(segments@.take(i as int)),
        decreases segments@.len() - i,
    {
        let ghost before = copy@;
        copy.push(segments[i].clone());
        assert(segments@.take(i + 1) =~= segments@.take(i as int).push(segments@[i as int]));
        assert(segments_view(copy@) =~= segments_view(before).push(segments@[i as int]@));
        assert(segments_view(segments@.take(i + 1)) =~= segments_view(segments@.take(i as int)).push(
            segments@[i as int]@,
        ));
        i = i + 1;
    }
    assert(segments@.take(segments@.len() as int) =~= segments@);
    copy
}

/// The transcript of the segments: each text trimmed, blank ones left out, joined by line feeds.
pub fn transcript_text(segments: &[TranscriptSegment]) -> (transcript: String)
    ensures
        transcript@ == transcript_of(segments_view(segments@)),
{
    let ghost texts = segment_texts(segments_view(segments@));
    let mut transcript = String::new();
    let mut kept: usize = 0;
    let mut i: usize = 0;
    proof {
        reveal_strlit("\n");
        assert(texts.take(0) =~= Seq::<Seq<char>>::empty());
        reveal(Seq::filter);
    }
    while i < segments.len()
        invariant
            i <= segments@.len(),
            texts == segment_texts(segments_view(segments@)),
            texts.len() == segments@.len(),
            kept == kept_lines(texts.take(i as int)).len(),
            kept <= i,
            transcript@ == crate::text::join_lines(kept_lines(texts.take(i as int))),
            "\n"@ == seq!['\n'],
        decreases segments@.len() - i,
    {
        let line = trim_str(segments[i].text.as_str());
        proof {
            assert(texts[i as int] == segments@[i as int].text@);
            assert(texts.take(i + 1) =~= texts.take(i as int).push(texts[i as int]));
            lemma_kept_lines_push(texts.take(i as int), texts[i as int]);
        }
        if !line.is_empty() {
            proof {
                lemma_join_lines_push(kept_lines(texts.take(i as int)), line@);
            }
            if kept > 0 {
                transcript.append("\n");
            }
            transcript.append(line);
            kept = kept + 1;
        }
        i = i + 1;
    }
    assert(texts.take(segments@.len() as int) =~= texts);
    transcript
}

/// What Connections receives for a meeting.
pub struct PayloadView {
    pub state: Seq<char>,
    pub revision: i64,
    pub title: Seq<char>,
    pub transcript: Seq<char>,
    pub transcript_segments: Seq<SegmentView>,
    pub raw_transcript: Option<Seq<char>>,
    pub raw_transcript_segments: Option<Seq<SegmentView>>,
    pub summary: Option<Seq<char>>,
    pub started_at: Option<Seq<char>>,
    pub ended_at: Option<Seq<char>>,
}

/// The meeting as Connections receives it.
#[derive(Debug)]
pub struct MeetingPayload {
    pub state: String,
    pub revision: i64,
    pub title: String,
    pub transcript: String,
    pub transcript_segments: Vec<TranscriptSegment>,
    pub raw_transcript: Option<String>,
    pub raw_transcript_segments: Option<Vec<TranscriptSegment>>,
    pub summary: Option<String>,
    pub started_at: Option<String>,
    pub ended_at: Option<String>,
}

pub open spec fn opt_segments_view(s: Option<Vec<TranscriptSegment>>) -> Option<Seq<SegmentView>> {
    match s {
        Some(v) => Some(segments_view(v@)),
        None => None,
    }
}

pub open spec fn opt_slice_view(s: Option<&[TranscriptSegment]>) -> Option<Seq<SegmentView>> {
    match s {
        Some(v) => Some(segments_view(v@)),
        None => None,
    }
}

impl View for MeetingPayload {
    type V = PayloadView;

    open spec fn view(&self) -> PayloadView {
        PayloadView {
            state: self.state@,
            revision: self.revision,
            title: self.title@,
            transcript: self.transcript@,
            transcript_segments: segments_view(self.transcript_segments@),
            raw_transcript: opt_string_view(self.raw_transcript),
            raw_transcript_segments: opt_segments_view(self.raw_transcript_segments),
            summary: opt_string_view(self.summary),
            started_at: opt_string_view(self.started_at),
            ended_at: opt_string_view(self.ended_at),
        }
    }
}

/// The state name of a meeting whose recording has ended and been saved.
pub open spec fn final_state() -> Seq<char> {
    seq!['f', 'i', 'n', 'a', 'l']
}

/// Whether `state` names a final meeting.
pub fn is_final_state(state: &str) -> (is_final: bool)
    ensures
        is_final == (state@ == final_state()),
{
    proof {
        reveal_strlit("final");
        assert("final"@ =~= final_state());
    }
    String::from_str(state) == String::from_str("final")
}

// ---------------------------------------------------------------------------------
// Revisions.
// ---------------------------------------------------------------------------------
/// `x + 1`, held at `i64::MAX`.
pub open spec fn saturating_succ(x: i64) -> i64 {
    if x == i64::MAX {
        x
    } else {
        (x + 1) as i64
    }
}

/// The revision after `last` at `now_millis`: the clock's milliseconds (at least 1), or
/// one more than the last revision where that is larger.
pub open spec fn next_revision_value(last: i64, now_millis: i64) -> i64 {
    let now = if now_millis < 1 {
        1
    } else {
        now_millis
    };
    let after = saturating_succ(last);
    if now < after {
        after
    } else {
        now
    }
}

/// Hands out meeting revisions that increase from call to call.
pub struct RevisionClock {
    last: i64,
}

impl View for RevisionClock {
    type V = i64;

    closed spec fn view(&self) -> i64 {
        self.last
    }
}

impl RevisionClock {
    /// A clock that has handed out no revision.
    pub fn new() -> (clock: Self)
        ensures
            clock@ == 0,
    {
        RevisionClock { last: 0 }
    }

    /// The last revision handed out.
    pub fn last(&self) -> (last: i64)
        ensures
            last == self@,
    {
        self.last
    }

    /// The next revision for the clock reading `now_millis` (milliseconds since the epoch).
    pub fn next_revision(&mut self, now_millis: i64) -> (revision: i64)
        ensures
            revision == next_revision_value(old(self)@, now_millis),
            final(self)@ == revision,
            revision >= 1,
            revision >= now_millis,
            old(self)@ < i64::MAX ==> revision > old(self)@,
    {
        let now = if now_millis < 1 {
            1
        } else {
            now_millis
        };
        let after = if self.last == i64::MAX {
            self.last
        } else {
            self.last + 1
        };
        let next = if now < after {
            after
        } else {
            now
        };
        self.last = next;
        next
    }
}

// ---------------------------------------------------------------------------------
// Payloads.
// ---------------------------------------------------------------------------------
/// Whether a meeting with this transcript and state is sent at all: a live meeting with
/// nothing said yet is not.
pub open spec fn payload_is_sent(transcript: Seq<char>, state: Seq<char>) -> bool {
    transcript.len() > 0 || state == final_state()
}

/// The payload for the given meeting, with the given revision.
pub open spec fn payload_of(
    title: Seq<char>,
    segments: Seq<SegmentView>,
    raw_segments: Option<Seq<SegmentView>>,
    summary: Option<Seq<char>>,
    state: Seq<char>,
    started_at: Option<Seq<char>>,
    ended_at: Option<Seq<char>>,
    revision: i64,
) -> PayloadView {
    PayloadView {
        state,
        revision,
        title,
        transcript: transcript_of(segments),
        transcript_segments: segments,
        raw_transcript: match raw_segments {
            Some(r) => Some(transcript_of(r)),
            None => None,
        },
        raw_transcript_segments: raw_segments,
        summary,
        started_at,
        ended_at,
    }
}

/// Builds what Connections receives for a meeting.  Nothing is sent for a live meeting
/// whose transcript is still empty; the clock then hands out no revision.
pub fn meeting_payload(
    clock: &mut RevisionClock,
    now_millis: i64,
    title: &str,
    segments: &[TranscriptSegment],
    raw_segments: Option<&[TranscriptSegment]>,
    summary: Option<&str>,
    state: &str,
    started_at: Option<&str>,
    ended_at: Option<&str>,
) -> (payload: Option<MeetingPayload>)
    ensures
        payload_is_sent(transcript_of(segments_view(segments@)), state@) <==> payload is Some,
        payload is None ==> final(clock)@ == old(clock)@,
        payload matches Some(p) ==> {
            &&& final(clock)@ == next_revision_value(old(clock)@, now_millis)
            &&& p@ == payload_of(
                title@,
                segments_view(segments@),
                opt_slice_view(raw_segments),
                opt_str_view(summary),
                state@,
                opt_str_view(started_at),
                opt_str_view(ended_at),
                final(clock)@,
            )
            &&& p.revision == final(clock)@
            &&& p.state@ == state@
            &&& p.title@ == title@
            &&& p.transcript@ == transcript_of(segments_view(segments@))
            &&& segments_view(p.transcript_segments@) == segments_view(segments@)
            &&& opt_segments_view(p.raw_transcript_segments) == opt_slice_view(raw_segments)
            &&& opt_string_view(p.raw_transcript) == match raw_segments {
                Some(raw) => Some(transcript_of(segments_view(raw@))),
                None => None,
            }
            &&& opt_string_view(p.summary) == opt_str_view(summary)
            &&& opt_string_view(p.started_at) == opt_str_view(started_at)
            &&& opt_string_view(p.ended_at) == opt_str_view(ended_at)
        },
{
    let transcript = transcript_text(segments);
    if transcript.as_str().is_empty() && !is_final_state(state) {
        return None;
    }
    let raw_transcript = match raw_segments {
        Some(raw) => Some(transcript_text(raw)),
        None => None,
    };
    let raw_copy = match raw_segments {
        Some(raw) => Some(copy_segments(raw)),
        None => None,
    };
    let revision = clock.next_revision(now_millis);
    Some(
        MeetingPayload {
            state: String::from_str(state),
            revision,
            title: String::from_str(title),
            transcript,
            transcript_segments: copy_segments(segments),
            raw_transcript,
            raw_transcript_segments: raw_copy,
            summary: opt_str_to_string(summary),
            started_at: opt_str_to_string(started_at),
            ended_at: opt_str_to_string(ended_at),
        },
    )
}

// ---------------------------------------------------------------------------------
// Stored transcripts.
// ---------------------------------------------------------------------------------
/// A stored transcript row: the recognised text, the corrected text if any, and the
/// segment's metadata (timing values as `f64` bit patterns).
#[derive(Debug)]
pub struct StoredTranscript {
    pub id: String,
    pub transcript: String,
    pub enhanced_transcript: Option<String>,
    pub timestamp: String,
    pub speaker: Option<String>,
    pub audio_start_time: Option<u64>,
    pub audio_end_time: Option<u64>,
    pub duration: Option<u64>,
}

/// A segment made of a stored row's metadata and the given text.
pub open spec fn row_segment(row: StoredTranscript, text: Seq<char>) -> SegmentView {
    SegmentView {
        id: row.id@,
        text,
        timestamp: row.timestamp@,
        speaker: opt_string_view(row.speaker),
        audio_start_time: row.audio_start_time,
        audio_end_time: row.audio_end_time,
        duration: row.duration,
    }
}

/// The text a reader sees: the corrected one where there is one.
pub open spec fn shown_text(row: StoredTranscript) -> Seq<char> {
    match row.enhanced_transcript {
        Some(t) => t@,
        None => row.transcript@,
    }
}

fn segment_from_row(row: &StoredTranscript, text: String) -> (segment: TranscriptSegment)
    ensures
        segment@ == row_segment(*row, text@),
{
    TranscriptSegment {
        id: row.id.clone(),
        text,
        timestamp: row.timestamp.clone(),
        speaker: clone_opt_string(&row.speaker),
        audio_start_time: row.audio_start_time,
        audio_end_time: row.audio_end_time,
        duration: row.duration,
    }
}

/// The segments of a recovered meeting: with the corrected texts, and with the recognised
/// ones, row for row.
pub fn recovered_segments(rows: &[StoredTranscript]) -> (segments: (
    Vec<TranscriptSegment>,
    Vec<TranscriptSegment>,
))
    ensures
        segments.0@.len() == rows@.len(),
        segments.1@.len() == rows@.len(),
        forall|k: int|
            0 <= k < rows@.len() ==> #[trigger] segments.0@[k]@ == row_segment(
                rows@[k],
                shown_text(rows@[k]),
            ),
        forall|k: int|
            0 <= k < rows@.len() ==> #[trigger] segments.1@[k]@ == row_segment(
                rows@[k],
                rows@[k].transcript@,
            ),
        forall|k: int|
            #![trigger segments.0@[k]]
            #![trigger segments.1@[k]]
            0 <= k < rows@.len() ==> {
                &&& segments.0@[k].id@ == rows@[k].id@
                &&& segments.1@[k].id@ == rows@[k].id@
                &&& segments.0@[k].text@ == match rows@[k].enhanced_transcript {
                    Some(t) => t@,
                    None => rows@[k].transcript@,
                }
                &&& segments.1@[k].text@ == rows@[k].transcript@
                &&& segments.0@[k].timestamp@ == rows@[k].timestamp@
                &&& segments.1@[k].timestamp@ == rows@[k].timestamp@
                &&& opt_string_view(segments.0@[k].speaker) == opt_string_view(rows@[k].speaker)
                &&& opt_string_view(segments.1@[k].speaker) == opt_string_view(rows@[k].speaker)
                &&& segments.0@[k].audio_start_time == rows@[k].audio_start_time
                &&& segments.1@[k].audio_start_time == rows@[k].audio_start_time
                &&& segments.0@[k].audio_end_time == rows@[k].audio_end_time
                &&& segments.1@[k].audio_end_time == rows@[k].audio_end_time
                &&& segments.0@[k].duration == rows@[k].duration
                &&& segments.1@[k].duration == rows@[k].duration
            },
{
    let mut shown: Vec<TranscriptSegment> = Vec::new();
    let mut raw: Vec<TranscriptSegment> = Vec::new();
    let mut i: usize = 0;
    while i < rows.len()
        invariant
            i <= rows@.len(),
            shown@.len() == i,
            raw@.len() == i,
            forall|k: int|
                0 <= k < i ==> #[trigger] shown@[k]@ == row_segment(rows@[k], shown_text(rows@[k])),
            forall|k: int| 0 <= k < i ==> #[trigger] raw@[k]@ == row_segment(rows@[k], rows@[k].transcript@),
        decreases rows@.len() - i,
    {
        let row = &rows[i];
        let text = match &row.enhanced_transcript {
            Some(t) => t.clone(),
            None => row.transcript.clone(),
        };
        shown.push(segment_from_row(row, text));
        raw.push(segment_from_row(row, row.transcript.clone()));
        i = i + 1;
    }
    proof {
        assert forall|k: int| 0 <= k < rows@.len() implies shown@[k]@ == row_segment(
            rows@[k],
            shown_text(rows@[k]),
        ) && raw@[k]@ == row_segment(rows@[k], rows@[k].transcript@) by {}
    }
    (shown, raw)
}

/// A transcript of a saved meeting: its current text and the text first recognised.
#[derive(Debug)]
pub struct SavedTranscript {
    pub id: String,
    pub text: String,
    pub raw_text: String,
    pub timestamp: String,
    pub speaker: Option<String>,
    pub audio_start_time: Option<u64>,
    pub audio_end_time: Option<u64>,
    pub duration: Option<u64>,
}

/// A segment made of a saved transcript's metadata and the given text.
pub open spec fn saved_segment(t: SavedTranscript, text: Seq<char>) -> SegmentView {
    SegmentView {
        id: t.id@,
        text,
        timestamp: t.timestamp@,
        speaker: opt_string_view(t.speaker),
        audio_start_time: t.audio_start_time,
        audio_end_time: t.audio_end_time,
        duration: t.duration,
    }
}

fn segment_from_saved(t: &SavedTranscript, text: String) -> (segment: TranscriptSegment)
    ensures
        segment@ == saved_segment(*t, text@),
{
    TranscriptSegment {
        id: t.id.clone(),
        text,
        timestamp: t.timestamp.clone(),
        speaker: clone_opt_string(&t.speaker),
        audio_start_time: t.audio_start_time,
        audio_end_time: t.audio_end_time,
        duration: t.duration,
    }
}

/// The segments of a saved meeting: with the current texts, and with the raw ones.
pub fn saved_meeting_segments(transcripts: &[SavedTranscript]) -> (segments: (
    Vec<TranscriptSegment>,
    Vec<TranscriptSegment>,
))
    ensures
        segments.0@.len() == transcripts@.len(),
        segments.1@.len() == transcripts@.len(),
        forall|k: int|
            0 <= k < transcripts@.len() ==> #[trigger] segments.0@[k]@ == saved_segment(
                transcripts@[k],
                transcripts@[k].text@,
            ),
        forall|k: int|
            0 <= k < transcripts@.len() ==> #[trigger] segments.1@[k]@ == saved_segment(
                transcripts@[k],
                transcripts@[k].raw_text@,
            ),
        forall|k: int|
            #![trigger segments.0@[k]]
            #![trigger segments.1@[k]]
            0 <= k < transcripts@.len() ==> {
                &&& segments.0@[k].id@ == transcripts@[k].id@
                &&& segments.1@[k].id@ == transcripts@[k].id@
                &&& segments.0@[k].text@ == transcripts@[k].text@
                &&& segments.1@[k].text@ == transcripts@[k].raw_text@
                &&& segments.0@[k].timestamp@ == transcripts@[k].timestamp@
                &&& segments.1@[k].timestamp@ == transcripts@[k].timestamp@
                &&& opt_string_view(segments.0@[k].speaker) == opt_string_view(transcripts@[k].speaker)
                &&& opt_string_view(segments.1@[k].speaker) == opt_string_view(transcripts@[k].speaker)
                &&& segments.0@[k].audio_start_time == transcripts@[k].audio_start_time
                &&& segments.1@[k].audio_start_time == transcripts@[k].audio_start_time
                &&& segments.0@[k].audio_end_time == transcripts@[k].audio_end_time
                &&& segments.1@[k].audio_end_time == transcripts@[k].audio_end_time
                &&& segments.0@[k].duration == transcripts@[k].duration
                &&& segments.1@[k].duration == transcripts@[k].duration
            },
{
    let mut current: Vec<TranscriptSegment> = Vec::new();
    let mut raw: Vec<TranscriptSegment> = Vec::new();
    let mut i: usize = 0;
    while i < transcripts.len()
        invariant
            i <= transcripts@.len(),
            current@.len() == i,
            raw@.len() == i,
            forall|k: int|
                0 <= k < i ==> #[trigger] current@[k]@ == saved_segment(
                    transcripts@[k],
                    transcripts@[k].text@,
                ),
            forall|k: int|
                0 <= k < i ==> #[trigger] raw@[k]@ == saved_segment(
                    transcripts@[k],
                    transcripts@[k].raw_text@,
                ),
        decreases transcripts@.len() - i,
    {
        let t = &transcripts[i];
        current.push(segment_from_saved(t, t.text.clone()));
        raw.push(segment_from_saved(t, t.raw_text.clone()));
        i = i + 1;
    }
    proof {
        assert forall|k: int| 0 <= k < transcripts@.len() implies current@[k]@ == saved_segment(
            transcripts@[k],
            transcripts@[k].text@,
        ) && raw@[k]@ == saved_segment(transcripts@[k], transcripts@[k].raw_text@) by {}
    }
    (current, raw)
}

// ---------------------------------------------------------------------------------
// Ownership checks.
// ---------------------------------------------------------------------------------
/// Everything the sync logic can refuse.
#[derive(Debug)]
pub enum SyncError {
    /// A final meeting is queued only once it has been saved locally.
    MeetingNotSavedLocally,
    /// The saved meeting belongs to someone else.
    SavedMeetingOwnerMismatch,
    /// The queued meeting belongs to someone else.
    QueuedMeetingOwnerMismatch,
    /// The meeting does not exist.
    MeetingNotFound,
}

/// The text shown for each refusal.
pub open spec fn sync_error_text(e: SyncError) -> Seq<char> {
    match e {
        SyncError::MeetingNotSavedLocally => "The final meeting must be saved locally before queueing."@,
        SyncError::SavedMeetingOwnerMismatch =>
            "The saved meeting belongs to a different Clerk user or organization."@,
        SyncError::QueuedMeetingOwnerMismatch =>
            "The queued meeting belongs to a different Clerk user or organization."@,
        SyncError::MeetingNotFound => "Meeting not found"@,
    }
}

impl SyncError {
    /// The message of this error, as the user sees it.
    pub fn message(&self) -> (text: String)
        ensures
            text@ == sync_error_text(*self),
    {
        match self {
            SyncError::MeetingNotSavedLocally => String::from_str(
                "The final meeting must be saved locally before queueing.",
            ),
            SyncError::SavedMeetingOwnerMismatch => String::from_str(
                "The saved meeting belongs to a different Clerk user or organization.",
            ),
            SyncError::QueuedMeetingOwnerMismatch => String::from_str(
                "The queued meeting belongs to a different Clerk user or organization.",
            ),
            SyncError::MeetingNotFound => String::from_str("Meeting not found"),
        }
    }
}

/// Whether two identities name the same organization and user.
pub fn same_identity(a: &OperationIdentity, b: &OperationIdentity) -> (same: bool)
    ensures
        same == (a@ == b@),
{
    a.clerk_org_id == b.clerk_org_id && a.user_id == b.user_id
}

/// A final meeting is queued only for the organization and user stored with it; `stored`
/// is that pair, if the meeting is saved.
pub fn check_saved_meeting_identity(
    stored: Option<(String, String)>,
    identity: &OperationIdentity,
) -> (checked: Result<(), SyncError>)
    ensures
        checked == match stored {
            None => Err(SyncError::MeetingNotSavedLocally),
            Some(owner) => if (IdentityView { clerk_org_id: owner.0@, user_id: owner.1@ }) == identity@ {
                Ok(())
            } else {
                Err(SyncError::SavedMeetingOwnerMismatch)
            },
        },
{
    match stored {
        None => Err(SyncError::MeetingNotSavedLocally),
        Some((org, user)) => if org == identity.clerk_org_id && user == identity.user_id {
            Ok(())
        } else {
            Err(SyncError::SavedMeetingOwnerMismatch)
        },
    }
}

/// A saved meeting is republished only by the user who created it, in its organization.
pub fn ensure_saved_meeting_owner(
    stored: &OperationIdentity,
    current: &OperationIdentity,
) -> (checked: Result<(), SyncError>)
    ensures
        checked == if stored@ == current@ {
            Ok(())
        } else {
            Err(SyncError::SavedMeetingOwnerMismatch)
        },
{
    if same_identity(stored, current) {
        Ok(())
    } else {
        Err(SyncError::SavedMeetingOwnerMismatch)
    }
}

/// A queued meeting is delivered only while its owner is the signed-in identity.
pub fn ensure_queue_owner(
    current: &OperationIdentity,
    queued: &OperationIdentity,
) -> (checked: Result<(), SyncError>)
    ensures
        checked == if current@ == queued@ {
            Ok(())
        } else {
            Err(SyncError::QueuedMeetingOwnerMismatch)
        },
{
    if same_identity(current, queued) {
        Ok(())
    } else {
        Err(SyncError::QueuedMeetingOwnerMismatch)
    }
}

/// The Connections address of a meeting: the external id is form-urlencoded.
pub fn meeting_endpoint(connections_url: &str, external_id: &str) -> (url: String)
    ensures
        url@ == connections_url@ + "/api/meetings/"@ + form_urlencoded(external_id.spec_bytes()),
{
    let encoded = form_urlencode(external_id.as_bytes());
    let mut url = String::from_str(connections_url);
    url.append("/api/meetings/");
    url.append(encoded.as_str());
    url
}

// ---------------------------------------------------------------------------------
// Draining the queue.
// ---------------------------------------------------------------------------------
/// The number of queued meetings fetched at once.
pub const QUEUE_BATCH_SIZE: usize = 20;

/// What happened since the last step of a drain.
#[derive(Debug)]
pub enum DrainEvent {
    /// A fetch of the owner's oldest queued meetings returned this many rows.
    Fetched(usize),
    /// The next fetched meeting was delivered and its delivered revision deleted.
    Delivered,
    /// Reading, delivering or deleting the next meeting failed.
    Failed,
}

/// What the drain does next.
#[derive(Debug)]
pub enum DrainAction {
    /// Fetch up to `QUEUE_BATCH_SIZE` of the owner's queued meetings, oldest revision first.
    Fetch,
    /// Deliver the next fetched meeting, then delete the revision that was delivered.
    DeliverNext,
    /// The queue is empty; report this many deliveries.
    Finish(usize),
    /// Stop at the failure, keeping what is still queued.
    Stop,
}

/// How far a drain has come: the meetings delivered, and those of the current batch
/// still to deliver.
#[derive(Debug)]
pub struct DrainProgress {
    delivered: usize,
    in_batch: usize,
}

/// The progress of a drain, as plain numbers.
pub struct DrainView {
    pub delivered: nat,
    pub in_batch: nat,
}

impl View for DrainProgress {
    type V = DrainView;

    closed spec fn view(&self) -> DrainView {
        DrainView { delivered: self.delivered as nat, in_batch: self.in_batch as nat }
    }
}

/// One step of a drain: an empty fetch ends it, a fetch with rows starts delivering them,
/// each delivery counts and moves on (fetching again after the batch), a failure stops it.
pub open spec fn drain_next(p: DrainView, event: DrainEvent) -> (DrainView, DrainAction) {
    match event {
        DrainEvent::Fetched(rows) => if rows == 0 {
            (p, DrainAction::Finish(p.delivered as usize))
        } else {
            (DrainView { delivered: p.delivered, in_batch: rows as nat }, DrainAction::DeliverNext)
        },
        DrainEvent::Delivered => {
            let q = DrainView { delivered: p.delivered + 1, in_batch: (p.in_batch - 1) as nat };
            (q, if q.in_batch > 0 {
                DrainAction::DeliverNext
            } else {
                DrainAction::Fetch
            })
        },
        DrainEvent::Failed => (p, DrainAction::Stop),
    }
}

impl DrainProgress {
    /// A drain that has delivered nothing yet; its first action is `Fetch`.
    pub fn new() -> (progress: Self)
        ensures
            progress@ == (DrainView { delivered: 0, in_batch: 0 }),
    {
        DrainProgress { delivered: 0, in_batch: 0 }
    }

    /// The meetings delivered so far.
    pub fn delivered(&self) -> (delivered: usize)
        ensures
            delivered == self@.delivered,
    {
        self.delivered
    }

    /// Advances the drain by one event.  A delivery is reported only for a meeting of the
    /// current batch, and the count of deliveries must fit in a `usize`.
    pub fn step(&mut self, event: DrainEvent) -> (action: DrainAction)
        requires
            event is Delivered ==> old(self)@.in_batch > 0 && old(self)@.delivered < usize::MAX,
        ensures
            (final(self)@, action) == drain_next(old(self)@, event),
    {
        match event {
            DrainEvent::Fetched(rows) => if rows == 0 {
                DrainAction::Finish(self.delivered)
            } else {
                self.in_batch = rows;
                DrainAction::DeliverNext
            },
            DrainEvent::Delivered => {
                self.delivered = self.delivered + 1;
                self.in_batch = self.in_batch - 1;
                if self.in_batch > 0 {
                    DrainAction::DeliverNext
                } else {
                    DrainAction::Fetch
                }
            },
            DrainEvent::Failed => DrainAction::Stop,
        }
    }
}

} // verus!
