use vietnote::evidence::keep_evidence;
use vietnote::summary::{
    validate_summary, ActionItem, DeferredItem, MeetingSummary, SummaryBullet, TranscriptSegment, UnresolvedTopic,
};

fn segment(id: &str) -> TranscriptSegment {
    TranscriptSegment {
        id: id.into(),
        timestamp: "09:00".into(),
        audio_source: "system".into(),
        raw_text: "raw".into(),
        clean_text: "clean".into(),
    }
}

fn ids(v: &[&str]) -> Vec<String> {
    v.iter().map(|s| s.to_string()).collect()
}

#[test]
fn validation_rejects_unsupported_important_items() {
    let summary = MeetingSummary {
        decisions: vec![
            SummaryBullet { id: "valid".into(), text: "Use FastAPI".into(), evidence_ids: vec!["s1".into()] },
            SummaryBullet { id: "invented".into(), text: "Use Qdrant".into(), evidence_ids: vec!["missing".into()] },
        ],
        action_items: vec![ActionItem { id: "a1".into(), owner: Some("Minh".into()), task: "Test both".into(), deadline: None, evidence_ids: vec!["s2".into()] }],
        ..MeetingSummary::default()
    };
    let validated = validate_summary(summary, &[segment("s1"), segment("s2")]);
    assert_eq!(validated.decisions.len(), 1);
    assert_eq!(validated.decisions[0].text, "Use FastAPI");
    assert_eq!(validated.action_items[0].deadline, None);
}

#[test]
fn unresolved_status_is_always_conservative() {
    let summary = MeetingSummary {
        unresolved_topics: vec![UnresolvedTopic { id: "u1".into(), text: String::new(), topic: "Vector database".into(), options: vec!["Qdrant".into(), "Chroma".into()], status: "Use Qdrant".into(), evidence_ids: vec!["s1".into()] }],
        ..MeetingSummary::default()
    };
    let validated = validate_summary(summary, &[segment("s1")]);
    assert_eq!(validated.unresolved_topics[0].status, "No final decision");
}

#[test]
fn keep_evidence_filters_sorts_and_dedups() {
    let mut evidence = ids(&["s3", "x", "s1", "s3", "s2", "s1"]);
    keep_evidence(&mut evidence, &ids(&["s1", "s2", "s3"]));
    assert_eq!(evidence, ids(&["s1", "s2", "s3"]));
}

#[test]
fn keep_evidence_orders_by_code_point() {
    let mut evidence = ids(&["seg-10", "seg-9", "Seg-1", "seg-1", "é"]);
    keep_evidence(&mut evidence, &ids(&["seg-1", "seg-9", "seg-10", "Seg-1", "é"]));
    let mut expected = ids(&["seg-10", "seg-9", "Seg-1", "seg-1", "é"]);
    expected.sort();
    assert_eq!(evidence, expected);
    assert_eq!(evidence, ids(&["Seg-1", "seg-1", "seg-10", "seg-9", "é"]));
}

#[test]
fn keep_evidence_with_no_segments_keeps_nothing() {
    let mut evidence = ids(&["s1"]);
    keep_evidence(&mut evidence, &Vec::new());
    assert!(evidence.is_empty());
}

#[test]
fn keep_evidence_is_idempotent() {
    let allowed = ids(&["b", "a", "c"]);
    let mut once = ids(&["c", "a", "z", "a"]);
    keep_evidence(&mut once, &allowed);
    let mut twice = once.clone();
    keep_evidence(&mut twice, &allowed);
    assert_eq!(once, twice);
    assert_eq!(once, ids(&["a", "c"]));
}

#[test]
fn blank_items_and_unbacked_items_are_dropped() {
    let summary = MeetingSummary {
        tldr: "Short".into(),
        key_points: vec![
            SummaryBullet { id: "k1".into(), text: "  \t".into(), evidence_ids: vec!["s1".into()] },
            SummaryBullet { id: "k2".into(), text: "No evidence needed".into(), evidence_ids: vec!["nope".into()] },
        ],
        tentative_decisions: vec![SummaryBullet { id: "t1".into(), text: "Maybe Rust".into(), evidence_ids: vec![] }],
        open_questions: vec![SummaryBullet { id: "q1".into(), text: "Budget?".into(), evidence_ids: vec![] }],
        deferred: vec![
            DeferredItem { id: "d1".into(), text: "Later".into(), target: Some("Q3".into()), evidence_ids: vec!["s1".into(), "s1".into()] },
            DeferredItem { id: "d2".into(), text: " ".into(), target: None, evidence_ids: vec!["s1".into()] },
        ],
        action_items: vec![ActionItem { id: "a1".into(), owner: None, task: "\u{3000}".into(), deadline: None, evidence_ids: vec!["s1".into()] }],
        ..MeetingSummary::default()
    };
    let v = validate_summary(summary, &[segment("s1")]);
    assert_eq!(v.tldr, "Short");
    assert_eq!(v.key_points.len(), 1);
    assert_eq!(v.key_points[0].id, "k2");
    assert!(v.key_points[0].evidence_ids.is_empty());
    assert!(v.tentative_decisions.is_empty());
    assert_eq!(v.open_questions.len(), 1);
    assert_eq!(v.deferred.len(), 1);
    assert_eq!(v.deferred[0].evidence_ids, ids(&["s1"]));
    assert_eq!(v.deferred[0].target.as_deref(), Some("Q3"));
    assert!(v.action_items.is_empty());
}

#[test]
fn unresolved_topic_keeps_text_and_needs_topic_and_evidence() {
    let summary = MeetingSummary {
        unresolved_topics: vec![
            UnresolvedTopic { id: "u1".into(), text: "Which DB".into(), topic: "DB".into(), options: vec![], status: "Decided".into(), evidence_ids: vec!["s2".into(), "s1".into()] },
            UnresolvedTopic { id: "u2".into(), text: "x".into(), topic: "  ".into(), options: vec![], status: String::new(), evidence_ids: vec!["s1".into()] },
            UnresolvedTopic { id: "u3".into(), text: "y".into(), topic: "Cloud".into(), options: vec![], status: String::new(), evidence_ids: vec!["s9".into()] },
        ],
        ..MeetingSummary::default()
    };
    let v = validate_summary(summary, &[segment("s1"), segment("s2")]);
    assert_eq!(v.unresolved_topics.len(), 1);
    assert_eq!(v.unresolved_topics[0].text, "Which DB");
    assert_eq!(v.unresolved_topics[0].evidence_ids, ids(&["s1", "s2"]));
    assert_eq!(v.unresolved_topics[0].status, "No final decision");
}

#[test]
fn validating_twice_changes_nothing() {
    let make = || MeetingSummary {
        decisions: vec![SummaryBullet { id: "d".into(), text: "Ship".into(), evidence_ids: vec!["s2".into(), "s1".into(), "bad".into()] }],
        unresolved_topics: vec![UnresolvedTopic { id: "u".into(), text: String::new(), topic: "T".into(), options: vec![], status: "x".into(), evidence_ids: vec!["s1".into()] }],
        ..MeetingSummary::default()
    };
    let segs = [segment("s1"), segment("s2")];
    let once = validate_summary(make(), &segs);
    let twice = validate_summary(once.clone(), &segs);
    assert_eq!(format!("{:?}", once), format!("{:?}", twice));
    assert_eq!(once.unresolved_topics[0].text, "T");
}

#[test]
fn default_unresolved_topic_is_conservative() {
    assert_eq!(UnresolvedTopic::default().status, "No final decision");
    let s = MeetingSummary::default();
    assert!(s.tldr.is_empty() && s.decisions.is_empty() && s.deferred.is_empty());
}
