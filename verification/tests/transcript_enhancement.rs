use meetingly::enhancement::{
    build_batches, check_meeting_id, enhancement_should_start, json_array_span,
    require_transcript_segments, validate_enhancement_output, EnhancementError, EnhancementItem,
};

fn item(id: &str, text: &str) -> EnhancementItem {
    EnhancementItem { id: id.to_string(), text: text.to_string() }
}

fn parse_items(json: &str) -> Vec<EnhancementItem> {
    let values: Vec<serde_json::Value> = serde_json::from_str(json).unwrap();
    values
        .iter()
        .map(|v| item(v["id"].as_str().unwrap(), v["text"].as_str().unwrap()))
        .collect()
}

fn parse_and_validate_response(
    input: &[EnhancementItem],
    response: &str,
) -> Result<Vec<EnhancementItem>, EnhancementError> {
    let span = json_array_span(response)?;
    validate_enhancement_output(input, parse_items(span))
}

#[test]
fn validates_ids_and_extracts_fenced_json() {
    let input = vec![EnhancementItem { id: "a".into(), text: "здравейте".into() }];
    let parsed = parse_and_validate_response(
        &input,
        "```json\n[{\"id\":\"a\",\"text\":\"Здравейте!\"}]\n```",
    )
    .unwrap();
    assert_eq!(parsed[0].text, "Здравейте!");
}

#[test]
fn rejects_changed_segment_identity() {
    let input = vec![EnhancementItem { id: "a".into(), text: "text".into() }];
    assert!(parse_and_validate_response(
        &input,
        "[{\"id\":\"b\",\"text\":\"text\"}]",
    )
    .is_err());
}

#[test]
fn answers_are_refused_for_each_reason() {
    let input = vec![item("a", "one"), item("b", "two")];
    assert!(matches!(
        validate_enhancement_output(&input, vec![item("a", "One")]),
        Err(EnhancementError::SegmentCountChanged)
    ));
    assert!(matches!(
        validate_enhancement_output(&input, vec![item("b", "Two"), item("a", "One")]),
        Err(EnhancementError::SegmentIdentityChanged)
    ));
    assert!(matches!(
        validate_enhancement_output(&input, vec![item("a", "One"), item("b", "  ")]),
        Err(EnhancementError::TranscriptTextRemoved)
    ));
    let blank_in = vec![item("a", " ")];
    assert_eq!(
        validate_enhancement_output(&blank_in, vec![item("a", "")]).unwrap()[0].text,
        ""
    );
}

#[test]
fn json_span_needs_both_brackets() {
    assert!(matches!(json_array_span("no array"), Err(EnhancementError::NoJsonArray)));
    assert!(matches!(json_array_span("[ unfinished"), Err(EnhancementError::IncompleteJsonArray)));
    assert_eq!(json_array_span("x [1, [2]] y").unwrap(), "[1, [2]]");
    assert_eq!(json_array_span("][").unwrap(), "");
    assert_eq!(
        EnhancementError::NoJsonArray.message(),
        "LLM response did not contain a JSON array"
    );
}

#[test]
fn batches_hold_at_most_twelve_segments() {
    let items: Vec<EnhancementItem> = (0..25).map(|i| item(&i.to_string(), "short")).collect();
    let batches = build_batches(&items);
    let sizes: Vec<usize> = batches.iter().map(|b| b.len()).collect();
    assert_eq!(sizes, vec![12, 12, 1]);
    assert!(build_batches(&[]).is_empty());
}

#[test]
fn batches_respect_the_character_limit() {
    let long = "x".repeat(3000);
    let huge = "y".repeat(6000);
    let items = vec![
        item("a", &long),
        item("b", &long),
        item("c", "z".repeat(2000).as_str()),
        item("d", &huge),
        item("e", "w"),
    ];
    let batches = build_batches(&items);
    let ids: Vec<Vec<&str>> = batches
        .iter()
        .map(|b| b.iter().map(|i| i.id.as_str()).collect())
        .collect();
    assert_eq!(ids, vec![vec!["a"], vec!["b", "c"], vec!["d"], vec!["e"]]);
}

#[test]
fn enhancement_starts_only_when_idle() {
    assert!(matches!(enhancement_should_start(None), Err(EnhancementError::MeetingNotFound)));
    assert_eq!(enhancement_should_start(Some("processing")).unwrap(), false);
    assert_eq!(enhancement_should_start(Some("completed")).unwrap(), false);
    assert_eq!(enhancement_should_start(Some("failed")).unwrap(), true);
    assert_eq!(enhancement_should_start(Some("")).unwrap(), true);
    assert!(matches!(check_meeting_id("  "), Err(EnhancementError::EmptyMeetingId)));
    assert!(check_meeting_id("m").is_ok());
    assert!(matches!(require_transcript_segments(0), Err(EnhancementError::NoTranscriptSegments)));
    assert!(require_transcript_segments(3).is_ok());
}
