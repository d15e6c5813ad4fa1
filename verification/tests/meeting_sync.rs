use meetingly::identity::OperationIdentity;
use meetingly::sync::{
    DrainAction, DrainEvent, DrainProgress, QUEUE_BATCH_SIZE,
    check_saved_meeting_identity, copy_segments, ensure_queue_owner, ensure_saved_meeting_owner,
    is_final_state, meeting_endpoint, meeting_payload, recovered_segments, saved_meeting_segments,
    transcript_text, RevisionClock, SavedTranscript, StoredTranscript, SyncError,
    TranscriptSegment,
};
use meetingly::text::trim_str;

fn segment(id: &str, text: &str, speaker: Option<&str>) -> TranscriptSegment {
    TranscriptSegment {
        id: id.to_string(),
        text: text.to_string(),
        timestamp: "00:01".to_string(),
        speaker: speaker.map(str::to_string),
        audio_start_time: Some(1.0f64.to_bits()),
        audio_end_time: Some(2.0f64.to_bits()),
        duration: Some(1.0f64.to_bits()),
    }
}

#[test]
fn payload_preserves_speaker_and_summary() {
    let segments = [segment("segment-1", "Здравейте", Some("Microphone"))];
    let raw = [segment("segment-1", "здравейте", Some("Microphone"))];
    let mut clock = RevisionClock::new();
    let payload = meeting_payload(
        &mut clock,
        2,
        "Test",
        &segments,
        Some(&raw),
        Some("Резюме"),
        "final",
        None,
        None,
    )
    .unwrap();
    assert_eq!(payload.transcript_segments[0].speaker.as_deref(), Some("Microphone"));
    assert_eq!(payload.summary.as_deref(), Some("Резюме"));
    assert_eq!(payload.raw_transcript.as_deref(), Some("здравейте"));
    assert_eq!(payload.transcript, "Здравейте");
    assert_eq!(payload.revision, 2);
    assert_eq!(
        f64::from_bits(payload.transcript_segments[0].audio_start_time.unwrap()),
        1.0
    );
}

#[test]
fn revisions_are_strictly_monotonic() {
    let mut clock = RevisionClock::new();
    let first = clock.next_revision(1_700_000_000_000);
    let second = clock.next_revision(1_700_000_000_000);
    assert!(second > first);
}

#[test]
fn revisions_follow_the_clock_when_it_is_ahead() {
    let mut clock = RevisionClock::new();
    assert_eq!(clock.next_revision(0), 1);
    assert_eq!(clock.next_revision(-5), 2);
    assert_eq!(clock.next_revision(100), 100);
    assert_eq!(clock.next_revision(50), 101);
    assert_eq!(clock.last(), 101);
}

#[test]
fn transcript_joins_trimmed_non_blank_texts() {
    let segments = [
        segment("1", "  hello ", None),
        segment("2", " \t\n", None),
        segment("3", "world\u{3000}", None),
        segment("4", "", None),
    ];
    assert_eq!(transcript_text(&segments), "hello\nworld");
    assert_eq!(transcript_text(&[]), "");
    assert_eq!(trim_str("\u{a0} x y \u{2003}"), "x y");
}

#[test]
fn live_payload_without_text_is_not_sent() {
    let mut clock = RevisionClock::new();
    let blank = [segment("1", "   ", None)];
    assert!(meeting_payload(&mut clock, 10, "T", &blank, None, None, "live", None, None).is_none());
    assert_eq!(clock.last(), 0);
    let empty_final = meeting_payload(&mut clock, 10, "Silent", &[], None, None, "final", None, None).unwrap();
    assert_eq!(empty_final.transcript, "");
    assert_eq!(empty_final.revision, 10);
    assert!(empty_final.raw_transcript.is_none());
    assert!(is_final_state("final"));
    assert!(!is_final_state("Final"));
}

#[test]
fn payload_keeps_meeting_fields() {
    let mut clock = RevisionClock::new();
    let segments = [segment("1", "a", None), segment("2", "b", Some("System Audio"))];
    let payload = meeting_payload(
        &mut clock,
        5,
        "Weekly",
        &segments,
        None,
        None,
        "live",
        Some("2026-07-20"),
        Some("2026-07-21"),
    )
    .unwrap();
    assert_eq!(payload.title, "Weekly");
    assert_eq!(payload.state, "live");
    assert_eq!(payload.transcript, "a\nb");
    assert_eq!(payload.transcript_segments.len(), 2);
    assert_eq!(payload.started_at.as_deref(), Some("2026-07-20"));
    assert_eq!(payload.ended_at.as_deref(), Some("2026-07-21"));
    assert!(payload.summary.is_none());
    assert!(payload.raw_transcript_segments.is_none());
    assert_eq!(copy_segments(&segments).len(), 2);
}

#[test]
fn recovered_segments_prefer_corrected_text() {
    let rows = [
        StoredTranscript {
            id: "s1".to_string(),
            transcript: "raw one".to_string(),
            enhanced_transcript: Some("Fixed one".to_string()),
            timestamp: "00:01".to_string(),
            speaker: None,
            audio_start_time: None,
            audio_end_time: None,
            duration: None,
        },
        StoredTranscript {
            id: "s2".to_string(),
            transcript: "raw two".to_string(),
            enhanced_transcript: None,
            timestamp: "00:02".to_string(),
            speaker: Some("Microphone".to_string()),
            audio_start_time: None,
            audio_end_time: None,
            duration: None,
        },
    ];
    let (shown, raw) = recovered_segments(&rows);
    assert_eq!(shown[0].text, "Fixed one");
    assert_eq!(shown[1].text, "raw two");
    assert_eq!(raw[0].text, "raw one");
    assert_eq!(raw[1].speaker.as_deref(), Some("Microphone"));
}

#[test]
fn saved_segments_split_current_and_raw_text() {
    let saved = [SavedTranscript {
        id: "s1".to_string(),
        text: "current".to_string(),
        raw_text: "raw".to_string(),
        timestamp: "00:01".to_string(),
        speaker: None,
        audio_start_time: None,
        audio_end_time: None,
        duration: None,
    }];
    let (current, raw) = saved_meeting_segments(&saved);
    assert_eq!(current[0].text, "current");
    assert_eq!(raw[0].text, "raw");
    assert_eq!(raw[0].id, "s1");
}

#[test]
fn final_queue_checks_the_saved_owner() {
    let owner = OperationIdentity::new("org-a", "user-a");
    assert!(check_saved_meeting_identity(Some(("org-a".to_string(), "user-a".to_string())), &owner).is_ok());
    assert!(matches!(
        check_saved_meeting_identity(Some(("org-a".to_string(), "user-b".to_string())), &owner),
        Err(SyncError::SavedMeetingOwnerMismatch)
    ));
    let missing = check_saved_meeting_identity(None, &owner).unwrap_err();
    assert_eq!(
        missing.message(),
        "The final meeting must be saved locally before queueing."
    );
    assert!(ensure_saved_meeting_owner(&owner, &OperationIdentity::new("org-a", "user-a")).is_ok());
    assert!(ensure_saved_meeting_owner(&owner, &OperationIdentity::new("org-b", "user-a")).is_err());
    assert!(matches!(
        ensure_queue_owner(&OperationIdentity::new("org-a", "user-b"), &owner),
        Err(SyncError::QueuedMeetingOwnerMismatch)
    ));
}

#[test]
fn meeting_endpoint_encodes_the_id() {
    assert_eq!(
        meeting_endpoint("https://c.example", "a b/c?d"),
        "https://c.example/api/meetings/a+b%2Fc%3Fd"
    );
    assert_eq!(
        meeting_endpoint("https://c.example", "m-1_x.y*Z"),
        "https://c.example/api/meetings/m-1_x.y*Z"
    );
    assert_eq!(
        meeting_endpoint("https://c.example", "é"),
        "https://c.example/api/meetings/%C3%A9"
    );
}

#[test]
fn drain_delivers_every_batch_then_finishes() {
    let mut progress = DrainProgress::new();
    let mut deliveries = 0;
    let mut queued = 25usize;
    let mut action = DrainAction::Fetch;
    loop {
        action = match action {
            DrainAction::Fetch => {
                let fetched = queued.min(QUEUE_BATCH_SIZE);
                progress.step(DrainEvent::Fetched(fetched))
            }
            DrainAction::DeliverNext => {
                queued -= 1;
                deliveries += 1;
                progress.step(DrainEvent::Delivered)
            }
            DrainAction::Finish(delivered) => {
                assert_eq!(delivered, 25);
                break;
            }
            DrainAction::Stop => panic!("no delivery failed"),
        };
    }
    assert_eq!(deliveries, 25);
    assert_eq!(progress.delivered(), 25);
}

#[test]
fn drain_stops_at_the_first_failure() {
    let mut progress = DrainProgress::new();
    assert!(matches!(progress.step(DrainEvent::Fetched(3)), DrainAction::DeliverNext));
    assert!(matches!(progress.step(DrainEvent::Delivered), DrainAction::DeliverNext));
    assert!(matches!(progress.step(DrainEvent::Failed), DrainAction::Stop));
    assert_eq!(progress.delivered(), 1);
    let mut empty = DrainProgress::new();
    assert!(matches!(empty.step(DrainEvent::Fetched(0)), DrainAction::Finish(0)));
    let mut one = DrainProgress::new();
    one.step(DrainEvent::Fetched(1));
    assert!(matches!(one.step(DrainEvent::Delivered), DrainAction::Fetch));
}
