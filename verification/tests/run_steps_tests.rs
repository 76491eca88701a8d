use grokrs::agent::{
    check_tools_available, finish_agent_run, AgentExitCode, AgentOutcome, ContentBlock,
    HeadlessEvent, OutputFormat, OutputItem, RunUsage, ToolLoopFailure,
};
use grokrs::chat::{readline_failed_state, session_summary_line, turn_log, TurnLog};
use grokrs::config::PolicyConfig;
use grokrs::generate::{
    edit_source, first_image, image_payload, plan_image, revised_prompt_line, AspectRatio,
    EditSource, ImageDatum, ImagePayload, ImageResponseFormat,
};
use grokrs::json::Json;
use grokrs::policy::PolicyEngine;
use grokrs::repl::{ConversationHistory, ConversationTurn, TokenUsage};

fn engine(allow_writes: bool) -> PolicyEngine {
    PolicyEngine::new(PolicyConfig {
        allow_network: true,
        allow_shell: false,
        allow_workspace_writes: allow_writes,
        max_patch_bytes: 0,
    })
}

fn message(text: &str) -> OutputItem {
    OutputItem::Message {
        content: vec![ContentBlock::Text { text: text.to_string() }],
    }
}

fn search_call(url: &str, title: &str) -> OutputItem {
    OutputItem::WebSearchCall {
        search_results: Some(vec![Json::Object(vec![
            ("url".to_string(), Json::Str(url.to_string())),
            ("title".to_string(), Json::Str(title.to_string())),
        ])]),
    }
}

#[test]
fn no_tools_at_trust_level_is_refused() {
    assert!(check_tools_available("untrusted", 2).is_ok());
    assert_eq!(
        check_tools_available("untrusted", 0).unwrap_err(),
        "no tools available at trust level 'untrusted'"
    );
}

#[test]
fn finish_completed_run_in_text_mode() {
    let outcome = AgentOutcome::Completed {
        output: vec![search_call("https://a.example", "A"), message("All done.")],
        usage: Some(RunUsage {
            input_tokens: 10,
            output_tokens: 5,
            total_tokens: None,
            cached_tokens: None,
        }),
    };
    let r = finish_agent_run(outcome, OutputFormat::Text, false);
    assert_eq!(r.stdout, "All done.\n");
    assert_eq!(
        r.stderr,
        "\nSources:\n  [1] A — https://a.example\n[usage] input=10 output=5 total=15\n"
    );
    assert_eq!(
        r.events,
        vec![
            HeadlessEvent::Message { content: "All done.".into() },
            HeadlessEvent::Usage { input_tokens: 10, output_tokens: 5, total_tokens: 15 },
        ]
    );
    assert_eq!(r.transitions, vec!["Ready".to_string(), "Closed".to_string()]);
    assert_eq!(r.result, Ok(AgentExitCode::Success));
}

#[test]
fn finish_completed_run_in_json_mode_without_text() {
    let outcome = AgentOutcome::Completed {
        output: vec![search_call("https://a.example", "A")],
        usage: None,
    };
    let r = finish_agent_run(outcome, OutputFormat::Json, true);
    assert_eq!(r.stdout, "");
    assert_eq!(r.stderr, "");
    assert!(r.events.is_empty());
    assert_eq!(r.result, Ok(AgentExitCode::Success));
}

#[test]
fn finish_failed_and_timed_out_runs() {
    let failed = AgentOutcome::Failed {
        failure: ToolLoopFailure::Transport { message: "reset".into() },
        message: "transport error: reset".into(),
    };
    let r = finish_agent_run(failed, OutputFormat::Json, true);
    assert_eq!(r.stderr, "[agent] failed: transport error: reset\n");
    assert_eq!(
        r.events,
        vec![HeadlessEvent::Error { message: "transport error: reset".into(), exit_code: 3 }]
    );
    assert_eq!(r.transitions, vec!["Failed: transport error: reset".to_string()]);
    assert_eq!(r.result, Ok(AgentExitCode::ApiError));

    let failed = AgentOutcome::Failed {
        failure: ToolLoopFailure::InvalidConfiguration { message: "x".into() },
        message: "bad config".into(),
    };
    let r = finish_agent_run(failed, OutputFormat::Text, false);
    assert_eq!(r.stderr, "");
    assert_eq!(r.result, Err("agent failed: bad config".to_string()));

    let r = finish_agent_run(AgentOutcome::TimedOut { secs: 300 }, OutputFormat::Json, true);
    assert_eq!(r.stderr, "[agent] agent timed out after 300s\n");
    assert_eq!(
        r.events,
        vec![HeadlessEvent::Error { message: "agent timed out after 300s".into(), exit_code: 4 }]
    );
    assert_eq!(r.transitions, vec!["Failed: agent timed out after 300s".to_string()]);
    assert_eq!(r.result, Ok(AgentExitCode::Timeout));
    let r = finish_agent_run(AgentOutcome::TimedOut { secs: 5 }, OutputFormat::Text, false);
    assert_eq!(r.result, Err("agent timed out after 5s".to_string()));
}

#[test]
fn plan_image_defaults_and_parses() {
    let p = plan_image("out/cat.png", None, Some("16:9"), None, "b64", None, &engine(true), "deny")
        .unwrap();
    assert_eq!(p.output, "out/cat.png");
    assert_eq!(p.model, "grok-2-image");
    assert_eq!(p.format, ImageResponseFormat::B64Json);
    assert_eq!(p.aspect_ratio, Some(AspectRatio::Wide));
    assert_eq!(p.resolution, None);
    assert_eq!(p.edit, None);
    let p = plan_image(
        "cat.png",
        Some("grok-3-image"),
        None,
        None,
        "url",
        Some("https://img.example/a.png"),
        &engine(true),
        "deny",
    )
    .unwrap();
    assert_eq!(p.model, "grok-3-image");
    assert_eq!(p.edit, Some(EditSource::Url("https://img.example/a.png".into())));
}

#[test]
fn plan_image_reports_first_error() {
    assert_eq!(
        plan_image("/abs.png", None, None, None, "url", None, &engine(true), "deny").unwrap_err(),
        "invalid output path '/abs.png': must be workspace-relative"
    );
    assert!(plan_image("cat.png", None, None, None, "jpeg", None, &engine(true), "deny")
        .unwrap_err()
        .starts_with("unknown image format: 'jpeg'"));
    assert!(plan_image("cat.png", None, Some("5:4"), None, "url", None, &engine(true), "deny")
        .unwrap_err()
        .starts_with("unknown aspect ratio: '5:4'"));
    assert_eq!(
        plan_image("cat.png", None, None, None, "url", Some("../in.png"), &engine(true), "deny")
            .unwrap_err(),
        "invalid edit input path '../in.png': must be workspace-relative"
    );
    assert!(plan_image("cat.png", None, None, None, "url", None, &engine(false), "deny")
        .unwrap_err()
        .starts_with("writing to 'cat.png' denied by policy"));
}

#[test]
fn edit_source_reads_workspace_files() {
    assert_eq!(
        edit_source("images/in.png", &engine(false), "deny").unwrap(),
        EditSource::WorkspaceFile("images/in.png".into())
    );
    assert_eq!(
        edit_source("http://x/y.png", &engine(false), "deny").unwrap(),
        EditSource::Url("http://x/y.png".into())
    );
}

#[test]
fn image_payload_prefers_url_then_base64() {
    assert_eq!(first_image(&vec![]).unwrap_err(), "API returned no image data");
    let d = ImageDatum {
        url: Some("https://img/1.png".into()),
        b64_json: Some("AAAA".into()),
        revised_prompt: Some("a cat, photo".into()),
    };
    let data = vec![d.clone()];
    assert_eq!(first_image(&data).unwrap(), &d);
    assert_eq!(image_payload(&d).unwrap(), ImagePayload::Download("https://img/1.png".into()));
    assert_eq!(
        revised_prompt_line(&d).as_deref(),
        Some("[generate] revised prompt: a cat, photo")
    );
    let b = ImageDatum { url: None, b64_json: Some("AAAA".into()), revised_prompt: None };
    assert_eq!(image_payload(&b).unwrap(), ImagePayload::Decode("AAAA".into()));
    assert_eq!(revised_prompt_line(&b), None);
    let none = ImageDatum { url: None, b64_json: None, revised_prompt: None };
    assert_eq!(
        image_payload(&none).unwrap_err(),
        "API returned image data with neither URL nor base64 content"
    );
}

fn turn(reply: &str, input: u64, output: u64) -> ConversationTurn {
    ConversationTurn {
        user_input: "hi".into(),
        assistant_response: reply.into(),
        usage: TokenUsage { input_tokens: input, output_tokens: output, cached_tokens: None },
    }
}

#[test]
fn turn_log_records_reply_or_error() {
    let mut c = ConversationHistory::new();
    assert_eq!(turn_log(&c, 0), TurnLog::Error { message: "no response recorded".into() });
    c.push(turn("hello", 7, 3));
    c.set_last_response_id(Some("resp_1".into()));
    assert_eq!(
        turn_log(&c, 0),
        TurnLog::Response {
            status: 200,
            body: Some("hello".into()),
            input_tokens: 7,
            output_tokens: 3,
            response_id: Some("resp_1".into()),
        }
    );
    c.push(turn("", 1, 0));
    assert!(matches!(turn_log(&c, 1), TurnLog::Response { body: None, .. }));
    assert_eq!(turn_log(&c, 2), TurnLog::Error { message: "no response recorded".into() });
}

#[test]
fn chat_end_summary_and_readline_failure() {
    let mut c = ConversationHistory::new();
    assert_eq!(session_summary_line(&c, 0), None);
    c.push(turn("ok", 4, 6));
    assert_eq!(
        session_summary_line(&c, 0).as_deref(),
        Some("Session summary: turns=1, input_tokens=4, output_tokens=6, total_tokens=10")
    );
    assert_eq!(session_summary_line(&c, 1), None);
    assert_eq!(readline_failed_state("broken pipe"), "Failed: readline error: broken pipe");
}
