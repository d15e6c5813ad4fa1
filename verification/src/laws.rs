//! Properties that relate several operations of the library.
use vstd::prelude::*;

use crate::codec::{form_encode_byte, form_urlencoded};
use crate::enhancement::{batch_fits, chars_sum, full_at, greedy_batches, EnhancementItem};
use crate::error::AuthError;
use crate::identity::{
    after_begin, after_finish_if_matches, after_finish_scope, attributed_org, attributed_user,
    begin_outcome, current_identity, current_org, current_user, finish_scope_outcome, session_identity,
    switching_outcome, with_session, without_recording, AuthStateView, IdentityView, PendingView,
    SessionView,
};
use crate::oauth::{
    after_callback, audience_names, callback_outcome, claims_outcome, connections_url_of, is_blank,
    is_callback_shape, query_lookup, strip_trailing_slashes, AccessClaims, Audience,
    CONNECTIONS_DEFAULT_URL,
};
use crate::sync::{
    drain_next, next_revision_value, payload_of, row_segment, saved_segment, transcript_of,
    DrainAction, DrainEvent, DrainView, SavedTranscript, SegmentView, StoredTranscript,
};

verus! {

/// A recording stays bound to the organization and user it started with: whatever session
/// is installed afterwards, operations are attributed to the starting identity, while the
/// current session's own organization follows the new session.
pub proof fn law_recording_stays_bound_to_starting_identity(
    v: AuthStateView,
    later: Option<SessionView>,
)
    requires
        begin_outcome(v) is Ok,
    ensures
        ({
            let w = with_session(after_begin(v), later);
            &&& attributed_org(w) == Ok::<Seq<char>, AuthError>(v.session->0.clerk_org_id)
            &&& attributed_user(w) == Ok::<Seq<char>, AuthError>(v.session->0.user_id)
            &&& current_org(w) == match later {
                Some(s) => Ok::<Seq<char>, AuthError>(s.clerk_org_id),
                None => Err(AuthError::OrganizationRequired),
            }
        }),
{
}

/// Only one recording holds the organization lock: a second start is refused and leaves
/// the state as it was.
pub proof fn law_recording_lock_is_exclusive(v: AuthStateView)
    requires
        begin_outcome(v) is Ok,
    ensures
        begin_outcome(after_begin(v)) == Err::<IdentityView, AuthError>(AuthError::RecordingAlreadyLocked),
        after_begin(after_begin(v)) == after_begin(v),
{
}

/// While a recording is bound, the organization may not change; once its lock is released,
/// it may.
pub proof fn law_switching_blocked_while_recording(v: AuthStateView)
    requires
        begin_outcome(v) is Ok,
    ensures
        switching_outcome(after_begin(v)) == Err::<(), AuthError>(AuthError::SwitchingBlocked),
        switching_outcome(without_recording(after_begin(v))) is Ok,
{
}

/// A conditional release frees the lock only for the identity that holds it; for any
/// other identity nothing changes.  After the release, operations are attributed to the
/// current session again.
pub proof fn law_release_only_matching_identity(v: AuthStateView, identity: IdentityView)
    ensures
        v.recording != Some(identity) ==> after_finish_if_matches(v, identity) == v,
        v.recording == Some(identity) ==> {
            &&& after_finish_if_matches(v, identity).recording is None
            &&& attributed_org(after_finish_if_matches(v, identity)) == current_org(v)
        },
{
}

/// The current user may end a recording scope only if the recording is theirs, in their
/// organization; otherwise the scope is kept.
pub proof fn law_finish_scope_needs_the_owner(v: AuthStateView)
    requires
        v.session is Some,
        v.recording is Some,
        v.recording != Some(session_identity(v.session->0)),
    ensures
        finish_scope_outcome(v) == Err::<(), AuthError>(AuthError::RecordingScopeMismatch),
        after_finish_scope(v) == v,
{
}

/// A session that is installed is the one read back.
pub proof fn law_session_read_after_write(v: AuthStateView, s: SessionView)
    ensures
        current_org(with_session(v, Some(s))) == Ok::<Seq<char>, AuthError>(s.clerk_org_id),
        current_user(with_session(v, Some(s))) == Ok::<Seq<char>, AuthError>(s.user_id),
        current_identity(with_session(v, Some(s))) == Some(session_identity(s)),
{
}

/// Revisions strictly increase from one payload to the next, whatever the clock says,
/// as long as they stay below `i64::MAX`.
pub proof fn law_revisions_strictly_increase(last: i64, first_now: i64, second_now: i64)
    requires
        last < i64::MAX - 1,
        first_now < i64::MAX,
    ensures
        next_revision_value(last, first_now) > last,
        next_revision_value(next_revision_value(last, first_now), second_now) > next_revision_value(
            last,
            first_now,
        ),
{
}

/// A callback is accepted at most once: accepting it consumes the pending sign-in, so the
/// same callback is then refused.
pub proof fn law_callback_is_single_use(v: AuthStateView, cb: crate::oauth::CallbackView)
    requires
        callback_outcome(v, cb) is Ok,
    ensures
        callback_outcome(after_callback(v, cb), cb) == Err::<(Seq<char>, Seq<char>), AuthError>(
            AuthError::NoPendingSignIn,
        ),
{
}

/// A callback that carries the pending sign-in's state is accepted, and yields the
/// pending verifier with the callback's code.
pub proof fn law_matching_callback_yields_pending_verifier(
    v: AuthStateView,
    cb: crate::oauth::CallbackView,
    p: PendingView,
)
    requires
        v.recording is None,
        v.pending == Some(p),
        is_callback_shape(cb),
        query_lookup(cb.query, "error"@) is None,
        query_lookup(cb.query, "code"@) is Some,
        query_lookup(cb.query, "state"@) == Some(p.state),
    ensures
        callback_outcome(v, cb) == Ok::<(Seq<char>, Seq<char>), AuthError>(
            (query_lookup(cb.query, "code"@)->0, p.verifier),
        ),
        after_callback(v, cb).pending is None,
{
}

/// A configured address never ends with a slash, so appending a path gives one slash.
pub proof fn law_configured_address_has_no_trailing_slash(s: Seq<char>)
    ensures
        strip_trailing_slashes(s).len() == 0 || strip_trailing_slashes(s).last() != '/',
    decreases s.len(),
{
    if s.len() > 0 && s.last() == '/' {
        law_configured_address_has_no_trailing_slash(s.drop_last());
    }
}

/// A form-urlencoded meeting id holds no `/`, `?` or `#`: the meeting address stays under
/// the meetings path.
pub proof fn law_encoded_id_stays_in_path(bytes: Seq<u8>)
    ensures
        forall|i: int|
            0 <= i < form_urlencoded(bytes).len() ==> #[trigger] form_urlencoded(bytes)[i] != '/'
                && form_urlencoded(bytes)[i] != '?' && form_urlencoded(bytes)[i] != '#',
    decreases bytes.len(),
{
    if bytes.len() > 0 {
        law_encoded_id_stays_in_path(bytes.drop_first());
        let head = form_encode_byte(bytes[0]);
        let tail = form_urlencoded(bytes.drop_first());
        assert(form_urlencoded(bytes) == head + tail);
        assert forall|i: int| 0 <= i < head.len() implies head[i] != '/' && head[i] != '?' && head[i]
            != '#' by {
            let b = bytes[0];
            if crate::codec::form_byte_unchanged(b) {
                assert(b != 0x2f && b != 0x3f && b != 0x23);
            }
        }
        assert forall|i: int| 0 <= i < form_urlencoded(bytes).len() implies #[trigger] form_urlencoded(
            bytes,
        )[i] != '/' && form_urlencoded(bytes)[i] != '?' && form_urlencoded(bytes)[i] != '#' by {
            if i < head.len() {
                assert(form_urlencoded(bytes)[i] == head[i]);
            } else {
                assert(form_urlencoded(bytes)[i] == tail[i - head.len()]);
            }
        }
    }
}

proof fn lemma_chars_sum_prefix_monotone(s: Seq<EnhancementItem>, i: int, j: int)
    requires
        0 <= i <= j <= s.len(),
    ensures
        chars_sum(s.take(i)) <= chars_sum(s.take(j)),
    decreases j - i,
{
    if i < j {
        lemma_chars_sum_prefix_monotone(s, i, j - 1);
        assert(s.take(j).drop_last() =~= s.take(j - 1));
    }
}

proof fn lemma_flatten_nonempty(batches: Seq<Seq<EnhancementItem>>)
    requires
        batches.len() > 0,
        batch_fits(batches[0]),
    ensures
        batches.flatten().len() > 0,
        batches.flatten() == batches[0] + batches.drop_first().flatten(),
{
}

/// Dropping the first batch of a greedy cut leaves a greedy cut of the rest.
proof fn lemma_greedy_rest(items: Seq<EnhancementItem>, batches: Seq<Seq<EnhancementItem>>)
    requires
        greedy_batches(items, batches),
        batches.len() > 0,
    ensures
        greedy_batches(items.skip(batches[0].len() as int), batches.drop_first()),
        batches[0] == items.take(batches[0].len() as int),
{
    let rest = batches.drop_first();
    assert(batch_fits(batches[0]));
    lemma_flatten_nonempty(batches);
    assert(items.take(batches[0].len() as int) =~= batches[0]);
    assert(items.skip(batches[0].len() as int) =~= rest.flatten());
    assert forall|k: int| 0 <= k < rest.len() implies batch_fits(#[trigger] rest[k]) by {
        assert(rest[k] == batches[k + 1]);
        assert(batch_fits(batches[k + 1]));
    }
    assert forall|k: int| 0 <= k < rest.len() - 1 implies #[trigger] full_at(rest, k) by {
        assert(full_at(batches, k + 1));
    }
}

/// A greedy cut whose first batch is shorter than `y` segments could not have been
/// extended to `y` segments within the limits.
proof fn lemma_first_batch_not_shorter(
    items: Seq<EnhancementItem>,
    a: Seq<Seq<EnhancementItem>>,
    y: int,
)
    requires
        greedy_batches(items, a),
        a.len() > 0,
        a[0].len() < y <= items.len(),
    ensures
        !batch_fits(items.take(y)),
{
    let x = a[0].len() as int;
    lemma_greedy_rest(items, a);
    assert(batch_fits(a[0]));
    if a.len() == 1 {
        lemma_flatten_nonempty(a);
        assert(a.drop_first().flatten() =~= Seq::<EnhancementItem>::empty());
        assert(items == a[0]);
    } else {
        assert(full_at(a, 0));
        lemma_greedy_rest(items.skip(x), a.drop_first());
        assert(a[1] == a.drop_first()[0]);
        assert(batch_fits(a[1]));
        assert(a[1] == items.skip(x).take(a[1].len() as int));
        assert(a[1][0] == items[x]);
        assert(items.take(x + 1) =~= items.take(x).push(items[x]));
        assert(items.take(x + 1).drop_last() =~= items.take(x));
        lemma_chars_sum_prefix_monotone(items, x + 1, y);
        assert(items.take(y).take(x + 1) =~= items.take(x + 1));
    }
}

/// The greedy cut is determined by the segments: two cuts of the same segments that both
/// keep the batch limits and fill every batch as far as they allow are the same cut.
pub proof fn law_batches_are_determined(
    items: Seq<EnhancementItem>,
    a: Seq<Seq<EnhancementItem>>,
    b: Seq<Seq<EnhancementItem>>,
)
    requires
        greedy_batches(items, a),
        greedy_batches(items, b),
    ensures
        a == b,
    decreases items.len(),
{
    if a.len() == 0 || b.len() == 0 {
        if a.len() > 0 {
            assert(batch_fits(a[0]));
            lemma_flatten_nonempty(a);
        }
        if b.len() > 0 {
            assert(batch_fits(b[0]));
            lemma_flatten_nonempty(b);
        }
        assert(a =~= b);
    } else {
        lemma_greedy_rest(items, a);
        lemma_greedy_rest(items, b);
        let x = a[0].len() as int;
        let y = b[0].len() as int;
        assert(batch_fits(a[0]));
        assert(batch_fits(b[0]));
        lemma_flatten_nonempty(a);
        lemma_flatten_nonempty(b);
        if x < y {
            lemma_first_batch_not_shorter(items, a, y);
        }
        if y < x {
            lemma_first_batch_not_shorter(items, b, x);
        }
        assert(x == y);
        law_batches_are_determined(items.skip(x), a.drop_first(), b.drop_first());
        assert(a =~= seq![a[0]] + a.drop_first());
        assert(b =~= seq![b[0]] + b.drop_first());
    }
}

/// A drain counts each delivery once and nothing else, finishes only when a fetch comes
/// back empty, and then reports the deliveries counted; a failure stops it with the count
/// unchanged.
pub proof fn law_drain_counts_deliveries(p: DrainView, event: DrainEvent)
    ensures
        drain_next(p, event).0.delivered == p.delivered + if event is Delivered {
            1nat
        } else {
            0nat
        },
        drain_next(p, event).1 is Finish ==> (event matches DrainEvent::Fetched(rows) && rows == 0),
        drain_next(p, event).1 matches DrainAction::Finish(n) ==> n == p.delivered as usize,
        event is Failed ==> drain_next(p, event).1 is Stop && drain_next(p, event).0 == p,
{
}

/// A list audience names the client exactly when some entry, at any position, is the
/// client's id; an entry that is not text names no one.
pub proof fn law_audience_list_names_any_listed_client(
    values: Vec<Option<String>>,
    client_id: Seq<char>,
    i: int,
)
    ensures
        (0 <= i < values@.len() && values@[i] is Some && values@[i]->0@ == client_id)
            ==> audience_names(Audience::List(values), client_id),
        (forall|j: int|
            0 <= j < values@.len() ==> !(#[trigger] values@[j] is Some && values@[j]->0@
                == client_id)) ==> !audience_names(Audience::List(values), client_id),
{
    if 0 <= i < values@.len() && values@[i] is Some && values@[i]->0@ == client_id {
        assert(crate::oauth::entry_names(values@[i], client_id));
        assert(audience_names(Audience::List(values), client_id)) by {
            let vs = match Audience::List(values) {
                Audience::List(vs) => vs,
                _ => arbitrary(),
            };
            assert(vs@[i] == values@[i]);
        }
    }
}

/// A token from the issuer, not expired, whose audience lists the client at any position,
/// passes the claims check.
pub proof fn law_listed_client_passes_claims(
    claims: AccessClaims,
    values: Vec<Option<String>>,
    issuer: Seq<char>,
    client_id: Seq<char>,
    now: i64,
    i: int,
)
    requires
        claims.aud == Some(Audience::List(values)),
        strip_trailing_slashes(claims.iss@) == issuer,
        claims.exp > now,
        0 <= i < values@.len(),
        values@[i] is Some,
        values@[i]->0@ == client_id,
    ensures
        claims_outcome(claims, issuer, client_id, now) == Ok::<(), AuthError>(()),
{
    law_audience_list_names_any_listed_client(values, client_id, i);
}

/// A payload carries what it was built from: the segments and the raw segments as given,
/// the transcript of the segments, the transcript of the raw segments, and the revision.
pub proof fn law_payload_carries_its_segments(
    title: Seq<char>,
    segments: Seq<SegmentView>,
    raw_segments: Option<Seq<SegmentView>>,
    summary: Option<Seq<char>>,
    state: Seq<char>,
    started_at: Option<Seq<char>>,
    ended_at: Option<Seq<char>>,
    revision: i64,
)
    ensures
        ({
            let p = payload_of(title, segments, raw_segments, summary, state, started_at, ended_at, revision);
            &&& p.transcript_segments == segments
            &&& p.raw_transcript_segments == raw_segments
            &&& p.transcript == transcript_of(segments)
            &&& p.raw_transcript == match raw_segments {
                Some(r) => Some(transcript_of(r)),
                None => None,
            }
            &&& p.revision == revision
            &&& p.state == state
            &&& p.title == title
            &&& p.summary == summary
            &&& p.started_at == started_at
            &&& p.ended_at == ended_at
        }),
{
}

/// A recovered or saved segment keeps its row's id, timestamp, speaker and timings, each
/// in its own field.
pub proof fn law_segments_keep_row_metadata(
    row: StoredTranscript,
    saved: SavedTranscript,
    text: Seq<char>,
)
    ensures
        row_segment(row, text).id == row.id@,
        row_segment(row, text).text == text,
        row_segment(row, text).timestamp == row.timestamp@,
        row_segment(row, text).speaker == crate::sync::opt_string_view(row.speaker),
        row_segment(row, text).audio_start_time == row.audio_start_time,
        row_segment(row, text).audio_end_time == row.audio_end_time,
        row_segment(row, text).duration == row.duration,
        saved_segment(saved, text).id == saved.id@,
        saved_segment(saved, text).text == text,
        saved_segment(saved, text).timestamp == saved.timestamp@,
        saved_segment(saved, text).speaker == crate::sync::opt_string_view(saved.speaker),
        saved_segment(saved, text).audio_start_time == saved.audio_start_time,
        saved_segment(saved, text).audio_end_time == saved.audio_end_time,
        saved_segment(saved, text).duration == saved.duration,
{
}

/// The Connections address comes from the environment whenever it holds more than white
/// space, whatever is built in; otherwise from the built-in value, else the default.
pub proof fn law_environment_address_wins(env_value: Option<Seq<char>>, built: Option<Seq<char>>)
    ensures
        env_value is Some && !is_blank(env_value->0) ==> connections_url_of(env_value, built)
            == strip_trailing_slashes(env_value->0),
        !(env_value is Some && !is_blank(env_value->0)) && built is Some ==> connections_url_of(
            env_value,
            built,
        ) == strip_trailing_slashes(built->0),
        !(env_value is Some && !is_blank(env_value->0)) && built is None ==> connections_url_of(
            env_value,
            built,
        ) == strip_trailing_slashes(CONNECTIONS_DEFAULT_URL@),
{
}

/// Stripping trailing slashes keeps a prefix of the text and removes only slashes.
pub proof fn law_strip_removes_only_trailing_slashes(s: Seq<char>)
    ensures
        strip_trailing_slashes(s).len() <= s.len(),
        strip_trailing_slashes(s) == s.subrange(0, strip_trailing_slashes(s).len() as int),
        forall|j: int| strip_trailing_slashes(s).len() <= j < s.len() ==> s[j] == '/',
        strip_trailing_slashes(s).len() == 0 || strip_trailing_slashes(s).last() != '/',
    decreases s.len(),
{
    if s.len() > 0 && s.last() == '/' {
        law_strip_removes_only_trailing_slashes(s.drop_last());
        let r = strip_trailing_slashes(s.drop_last());
        assert(s.drop_last().subrange(0, r.len() as int) =~= s.subrange(0, r.len() as int));
        assert forall|j: int| r.len() <= j < s.len() implies s[j] == '/' by {
            if j < s.len() - 1 {
                assert(s.drop_last()[j] == s[j]);
            }
        }
    } else {
        assert(s.subrange(0, s.len() as int) =~= s);
    }
}

} // verus!
