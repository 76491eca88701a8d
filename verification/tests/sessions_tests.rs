use grokrs::sessions::{
    clean_confirmed, count_deletable, is_deletable, limit_sessions, list_lines,
    resolve_session_id, show_lines, transcript_lines, usage_summary_lines, SessionRecord,
    TranscriptRecord,
};

fn record(id: &str, state: &str, trust: &str, updated: &str) -> SessionRecord {
    SessionRecord {
        id: id.into(),
        state: state.into(),
        trust_level: trust.into(),
        created_at: "2025-01-01T00:00:00Z".into(),
        updated_at: updated.into(),
    }
}

#[test]
fn resolve_exact_match() {
    let exact = record("test-session-abc123", "Created", "Untrusted", "t");
    let result = resolve_session_id("test-session-abc123", Some(exact), vec![]).unwrap();
    assert_eq!(result.id, "test-session-abc123");
}

#[test]
fn resolve_prefix_match() {
    let only = record("test-session-abc123", "Created", "Untrusted", "t");
    let result = resolve_session_id("test-session", None, vec![only]).unwrap();
    assert_eq!(result.id, "test-session-abc123");
}

#[test]
fn resolve_ambiguous_prefix() {
    let a = record("test-session-001", "Created", "Untrusted", "2025-01-02T00:00:00Z");
    let b = record("test-session-002", "Ready", "Untrusted", "2025-01-03T00:00:00Z");
    let err = resolve_session_id("test-session", None, vec![a, b]).unwrap_err();
    assert!(err.contains("Ambiguous"), "got: {err}");
    assert_eq!(
        err,
        "Ambiguous session ID prefix 'test-session' matches 2 sessions:\n\
         \x20 test-session  state=Created  updated=2025-01-02T00:00:00Z\n\
         \x20 test-session  state=Ready  updated=2025-01-03T00:00:00Z\n\
         \nPlease provide a longer prefix to uniquely identify the session."
    );
}

#[test]
fn resolve_no_match() {
    let err = resolve_session_id("nonexistent", None, vec![]).unwrap_err();
    assert!(err.contains("No session found"), "got: {err}");
    assert_eq!(err, "No session found matching 'nonexistent'.");
}

#[test]
fn list_sessions_empty_store() {
    let lines = list_lines(&vec![], &vec![], false, None);
    assert_eq!(
        lines,
        vec!["No sessions found. Run a chat or API command to create one.".to_owned()]
    );
    assert_eq!(
        list_lines(&vec![], &vec![], true, None),
        vec!["No active sessions found.".to_owned()]
    );
    assert_eq!(
        list_lines(&vec![], &vec![], false, Some("Ready")),
        vec!["No sessions found with state 'Ready'.".to_owned()]
    );
}

#[test]
fn list_sessions_with_data() {
    let sessions = vec![
        record("session-001", "Created", "Untrusted", "2025-01-01T00:00:00Z"),
        record("session-002", "Failed: a long reason", "AdminTrusted", "2025-01-01T00:00:00Z"),
    ];
    let lines = list_lines(&sessions, &vec![0, 12], false, None);
    assert_eq!(lines.len(), 5);
    assert_eq!(
        lines[0],
        format!(
            "{:<10} {:<18} {:<15} {:<22} {:<22} {:>6}",
            "ID", "STATE", "TRUST", "CREATED", "UPDATED", "TURNS"
        )
    );
    assert_eq!(lines[1], "-".repeat(95));
    assert_eq!(
        lines[2],
        format!(
            "{:<10} {:<18} {:<15} {:<22} {:<22} {:>6}",
            "session-", "Created", "Untrusted", "2025-01-01T00:00:00Z", "2025-01-01T00:00:00Z", 0
        )
    );
    assert_eq!(
        lines[3],
        format!(
            "{:<10} {:<18} {:<15} {:<22} {:<22} {:>6}",
            "session-",
            "Failed: a lon...",
            "AdminTrusted",
            "2025-01-01T00:00:00Z",
            "2025-01-01T00:00:00Z",
            12
        )
    );
    assert_eq!(lines[4], "\n2 session(s) shown.");
}

#[test]
fn limit_applies_only_to_filtered_listings() {
    let all = vec![
        record("a", "Ready", "Untrusted", "t"),
        record("b", "Ready", "Untrusted", "t"),
        record("c", "Ready", "Untrusted", "t"),
    ];
    assert_eq!(limit_sessions(all.clone(), true, None, Some(2)).len(), 2);
    assert_eq!(limit_sessions(all.clone(), false, Some("Ready"), Some(1)).len(), 1);
    assert_eq!(limit_sessions(all.clone(), false, None, Some(1)).len(), 3);
    assert_eq!(limit_sessions(all, true, None, None).len(), 3);
}

#[test]
fn show_session_with_transcripts() {
    let r = record("session-show-test", "Created", "Untrusted", "2025-01-02T00:00:00Z");
    let lines = show_lines(&r, 1);
    assert_eq!(
        lines,
        vec![
            "Session detail:".to_owned(),
            "  id:          session-show-test".to_owned(),
            "  state:       Created".to_owned(),
            "  trust_level: Untrusted".to_owned(),
            "  created_at:  2025-01-01T00:00:00Z".to_owned(),
            "  updated_at:  2025-01-02T00:00:00Z".to_owned(),
            "  transcripts: 1".to_owned(),
        ]
    );
    let usage = usage_summary_lines(3, 10, 20, 0);
    assert_eq!(usage[0], "");
    assert_eq!(usage[1], "Usage summary:");
    assert_eq!(usage[2], "  requests:         3");
    assert_eq!(usage[5], "  reasoning_tokens: 0");
}

#[test]
fn transcript_display() {
    let t = TranscriptRecord {
        request_at: "2025-01-01T00:00:00Z".into(),
        method: "POST".into(),
        endpoint: "/v1/responses".into(),
        request_body: Some("{\"prompt\":\"hi\"}".into()),
        response_at: Some("2025-01-01T00:00:01Z".into()),
        status_code: Some(200),
        response_body: Some("Hello!".into()),
        error: None,
        input_tokens: Some(10),
        output_tokens: Some(20),
        reasoning_tokens: None,
        response_id: Some("resp_abc".into()),
    };
    let lines = transcript_lines("session-tx-test", &vec![t], 500);
    assert_eq!(
        lines,
        vec![
            "Transcript for session session- (1 entries):".to_owned(),
            "".to_owned(),
            "--- Turn 1 ---".to_owned(),
            "  request_at:  2025-01-01T00:00:00Z".to_owned(),
            "  endpoint:    POST /v1/responses".to_owned(),
            "  request:     {\"prompt\":\"hi\"}".to_owned(),
            "  response_at: 2025-01-01T00:00:01Z".to_owned(),
            "  status:      200".to_owned(),
            "  response:    Hello!".to_owned(),
            "  usage:       input=10, output=20".to_owned(),
            "  response_id: resp_abc".to_owned(),
            "".to_owned(),
        ]
    );
}

#[test]
fn transcript_display_empty_and_truncated() {
    assert_eq!(
        transcript_lines("abc", &vec![], 500),
        vec!["No transcripts found for session abc.".to_owned()]
    );
    let t = TranscriptRecord {
        request_at: "t".into(),
        method: "GET".into(),
        endpoint: "/v1/models".into(),
        request_body: None,
        response_at: None,
        status_code: None,
        response_body: Some("abcdef".into()),
        error: Some("boom".into()),
        input_tokens: None,
        output_tokens: None,
        reasoning_tokens: None,
        response_id: None,
    };
    let lines = transcript_lines("abc", &vec![t], 3);
    assert_eq!(lines[5], "  response:    abc... [truncated, 6 total bytes]");
    assert_eq!(lines[6], "  error:       boom");
    assert_eq!(lines.len(), 8);
}

#[test]
fn clean_no_sessions() {
    assert_eq!(count_deletable(&vec![], "2025-01-01T00:00:00Z"), 0);
}

#[test]
fn clean_skips_active_sessions() {
    let cutoff = "2025-06-01T00:00:00Z";
    let sessions = vec![
        record("active", "Ready", "Untrusted", "2025-01-01T00:00:00Z"),
        record("closed-old", "Closed", "Untrusted", "2025-01-01T00:00:00Z"),
        record("failed-old", "Failed: boom", "Untrusted", "2025-02-01T00:00:00Z"),
        record("closed-new", "Closed", "Untrusted", "2025-07-01T00:00:00Z"),
    ];
    assert!(!is_deletable(&sessions[0], cutoff));
    assert!(is_deletable(&sessions[1], cutoff));
    assert!(is_deletable(&sessions[2], cutoff));
    assert!(!is_deletable(&sessions[3], cutoff));
    assert_eq!(count_deletable(&sessions, cutoff), 2);
}

#[test]
fn clean_confirmation_answers() {
    assert!(clean_confirmed("y\n"));
    assert!(clean_confirmed("  YES "));
    assert!(!clean_confirmed("no"));
    assert!(!clean_confirmed(""));
}
