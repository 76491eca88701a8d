//! The decisions of `grokrs voice`: the WebSocket base URL derived from the
//! API base URL, and the voice session settings from the flags.

use vstd::prelude::*;
use crate::config::AppConfig;
use crate::text::{opt_view, owned, spec_starts_with, starts_with, str_eq};

verus! {

/// The flags of `grokrs voice`.
#[derive(Debug, Clone)]
pub struct VoiceArgs {
    pub text_only: bool,
    pub model: Option<String>,
    pub voice: String,
    pub language: String,
    pub turn_detection: String,
    pub vad_sensitivity: String,
    pub system: Option<String>,
    pub max_duration: Option<u32>,
}

/// How the end of the user's turn is detected.
#[derive(Debug, Clone, Copy, PartialEq, Eq)]
pub enum TurnDetectionMode {
    ServerVad,
    Manual,
}

/// How sensitive server-side voice activity detection is.
#[derive(Debug, Clone, Copy, PartialEq, Eq)]
pub enum VadSensitivity {
    Low,
    Medium,
    High,
}

/// The settings of a voice session.
#[derive(Debug, Clone)]
pub struct VoiceSettings {
    pub model: String,
    pub voice: String,
    pub language: String,
    pub turn_detection: TurnDetectionMode,
    pub vad_sensitivity: VadSensitivity,
    pub system_instructions: Option<String>,
    pub max_duration_secs: Option<u32>,
}

/// The WebSocket base URL: `wss://` for an `https://` API base, `ws://` for
/// `http://`, the base itself otherwise, and `wss://api.x.ai` without one.
pub open spec fn spec_ws_base_url(base: Option<Seq<char>>) -> Seq<char> {
    match base {
        None => "wss://api.x.ai"@,
        Some(u) => if spec_starts_with(u, "https://"@) {
            "wss://"@ + u.subrange(8, u.len() as int)
        } else if spec_starts_with(u, "http://"@) {
            "ws://"@ + u.subrange(7, u.len() as int)
        } else {
            u
        },
    }
}

/// The WebSocket URL keeps the host and path of the API base and swaps its
/// scheme: `https://` becomes `wss://` and `http://` becomes `ws://`. The
/// result never starts with an `http` scheme.
pub proof fn lemma_ws_scheme(rest: Seq<char>, base: Option<Seq<char>>)
    ensures
        spec_ws_base_url(Some("https://"@ + rest)) == "wss://"@ + rest,
        spec_ws_base_url(Some("http://"@ + rest)) == "ws://"@ + rest,
        !spec_starts_with(spec_ws_base_url(base), "https://"@),
        !spec_starts_with(spec_ws_base_url(base), "http://"@),
{
    reveal_strlit("https://");
    reveal_strlit("http://");
    reveal_strlit("wss://");
    reveal_strlit("ws://");
    reveal_strlit("wss://api.x.ai");
    let a = "https://"@ + rest;
    assert(a.subrange(0, 8) =~= "https://"@);
    assert(a.subrange(8, a.len() as int) =~= rest);
    let b = "http://"@ + rest;
    assert(b.subrange(0, 7) =~= "http://"@);
    assert(b[4] == ':');
    assert(!spec_starts_with(b, "https://"@) || b.len() < 8 || b.subrange(0, 8)[4] == ':');
    assert(b.subrange(7, b.len() as int) =~= rest);
    let r = spec_ws_base_url(base);
    if spec_starts_with(r, "https://"@) {
        assert(r.subrange(0, 8)[0] == 'h');
        assert(r[0] == 'h');
    }
    if spec_starts_with(r, "http://"@) {
        assert(r.subrange(0, 7)[0] == 'h');
        assert(r[0] == 'h');
    }
}

/// The API base URL configured in `[api]`, if any.
pub open spec fn configured_base_url(config: AppConfig) -> Option<Seq<char>> {
    match config.api {
        Some(a) => opt_view(a.base_url),
        None => None,
    }
}

/// The WebSocket base URL of the voice agent.
pub fn ws_base_url(config: &AppConfig) -> (r: String)
    ensures
        r@ == spec_ws_base_url(configured_base_url(*config)),
{
    proof {
        reveal_strlit("https://");
        reveal_strlit("http://");
    }
    let base = match &config.api {
        Some(a) => match &a.base_url {
            Some(u) => Some(u.as_str()),
            None => None,
        },
        None => None,
    };
    match base {
        None => owned("wss://api.x.ai"),
        Some(u) => {
            let n = u.unicode_len();
            if starts_with(u, "https://") {
                let mut s = owned("wss://");
                s.append(u.substring_char(8, n));
                s
            } else if starts_with(u, "http://") {
                let mut s = owned("ws://");
                s.append(u.substring_char(7, n));
                s
            } else {
                owned(u)
            }
        },
    }
}

/// The turn detection mode a flag names.
pub open spec fn spec_turn_detection(s: Seq<char>) -> Option<TurnDetectionMode> {
    if s == "server_vad"@ { Some(TurnDetectionMode::ServerVad) }
    else if s == "manual"@ { Some(TurnDetectionMode::Manual) }
    else { None }
}

/// The sensitivity a flag names.
pub open spec fn spec_vad(s: Seq<char>) -> Option<VadSensitivity> {
    if s == "low"@ { Some(VadSensitivity::Low) }
    else if s == "medium"@ { Some(VadSensitivity::Medium) }
    else if s == "high"@ { Some(VadSensitivity::High) }
    else { None }
}

/// The voice session settings of the flags: the turn detection mode and the
/// sensitivity must be known names; the model defaults to the configured one.
pub fn parse_voice_config(args: &VoiceArgs, config: &AppConfig) -> (r: Result<VoiceSettings, String>)
    ensures
        spec_turn_detection(args.turn_detection@) is None ==> (r matches Err(e) && e@ == "unknown turn detection mode '"@
            + args.turn_detection@ + "'; expected: server_vad, manual"@),
        spec_turn_detection(args.turn_detection@) is Some && spec_vad(args.vad_sensitivity@) is None
            ==> (r matches Err(e) && e@ == "unknown VAD sensitivity '"@ + args.vad_sensitivity@
            + "'; expected: low, medium, high"@),
        (r is Ok) <==> (spec_turn_detection(args.turn_detection@) is Some && spec_vad(args.vad_sensitivity@) is Some),
        r matches Ok(v) ==> {
            &&& v.model@ == match args.model { Some(m) => m@, None => config.model.default_model@ }
            &&& v.voice@ == args.voice@
            &&& v.language@ == args.language@
            &&& Some(v.turn_detection) == spec_turn_detection(args.turn_detection@)
            &&& Some(v.vad_sensitivity) == spec_vad(args.vad_sensitivity@)
            &&& opt_view(v.system_instructions) == opt_view(args.system)
            &&& v.max_duration_secs == args.max_duration
        },
{
    let td = args.turn_detection.as_str();
    let turn_detection = if str_eq(td, "server_vad") {
        TurnDetectionMode::ServerVad
    } else if str_eq(td, "manual") {
        TurnDetectionMode::Manual
    } else {
        let mut e = owned("unknown turn detection mode '");
        e.append(td);
        e.append("'; expected: server_vad, manual");
        return Err(e);
    };
    let vs = args.vad_sensitivity.as_str();
    let vad_sensitivity = if str_eq(vs, "low") {
        VadSensitivity::Low
    } else if str_eq(vs, "medium") {
        VadSensitivity::Medium
    } else if str_eq(vs, "high") {
        VadSensitivity::High
    } else {
        let mut e = owned("unknown VAD sensitivity '");
        e.append(vs);
        e.append("'; expected: low, medium, high");
        return Err(e);
    };
    let model = match &args.model {
        Some(m) => m.clone(),
        None => config.model.default_model.clone(),
    };
    Ok(VoiceSettings {
        model,
        voice: args.voice.clone(),
        language: args.language.clone(),
        turn_detection,
        vad_sensitivity,
        system_instructions: crate::search::clone_opt(&args.system),
        max_duration_secs: args.max_duration,
    })
}

/// Whether this build captures and plays audio. It does not: voice
/// sessions run in text mode.
pub fn audio_feature_available() -> (r: bool)
    ensures
        !r,
{
    false
}

/// An event of a voice session, as the text mode reads it. Roles, states
/// and error codes come as their display texts.
#[derive(Debug)]
pub enum VoiceEvent {
    SessionCreated { session_id: String },
    Transcript { role: String, text: String, is_final: bool },
    FunctionCall { call_id: String, name: String, arguments: String },
    StateChange { state: String, closed: bool, reason: Option<String> },
    Error { code: String, message: String, fatal: bool },
    Pong,
    AudioChunk,
    Usage,
}

/// What the text mode does for one event.
#[derive(Debug, PartialEq, Eq)]
pub struct VoiceStep {
    /// Lines for standard output.
    pub stdout: Vec<String>,
    /// Lines for standard error.
    pub stderr: Vec<String>,
    /// Text for standard error without a line end (a partial transcript).
    pub stderr_partial: Option<String>,
    /// A final transcript to record: role and text.
    pub transcript: Option<(String, String)>,
    /// A function result to send back: call identifier and result text.
    pub function_result: Option<(String, String)>,
    /// Whether the usage line is to be printed.
    pub print_usage: bool,
    /// Whether the session ends.
    pub close: bool,
}

pub const FUNCTION_UNAVAILABLE: &'static str = "{\"error\":\"function execution not available in text-only voice mode\"}";

/// The lines of a step as values.
pub open spec fn step_lines(v: Vec<String>) -> Seq<Seq<char>> {
    crate::text::texts(v@)
}

/// The pair of texts of an optional pair of strings.
pub open spec fn opt_pair(p: Option<(String, String)>) -> Option<(Seq<char>, Seq<char>)> {
    match p {
        Some((a, b)) => Some((a@, b@)),
        None => None,
    }
}

/// What the text mode does for an event.
pub open spec fn spec_voice_step(e: VoiceEvent) -> (Seq<Seq<char>>, Seq<Seq<char>>, Option<Seq<char>>, Option<(Seq<char>, Seq<char>)>, Option<(Seq<char>, Seq<char>)>, bool, bool) {
    match e {
        VoiceEvent::SessionCreated { session_id } => (Seq::empty(),
            seq!["[voice] Session created: "@ + crate::text::utf8_prefix(session_id@, 12)], None, None, None, false, false),
        VoiceEvent::Transcript { role, text, is_final } => if is_final {
            (seq!["["@ + role@ + "] "@ + text@], Seq::empty(), None, Some((role@, text@)), None, false, false)
        } else {
            (Seq::empty(), Seq::empty(), Some("\r["@ + role@ + "] "@ + text@ + "..."@), None, None, false, false)
        },
        VoiceEvent::FunctionCall { call_id, name, arguments } => (Seq::empty(),
            seq!["[voice] Function call: "@ + name@ + "("@ + arguments@ + ")"@, "[voice] Call ID: "@ + call_id@,
                "[voice] Function calling in voice text-only mode is not yet connected to tool execution."@],
            None, None, Some((call_id@, FUNCTION_UNAVAILABLE@)), false, false),
        VoiceEvent::StateChange { state, closed, reason } => (Seq::empty(),
            seq!["[voice] State: "@ + state@ + " "@ + match reason { Some(r) => r@, None => Seq::empty() }],
            None, None, None, false, closed),
        VoiceEvent::Error { code, message, fatal } => (Seq::empty(),
            if fatal {
                seq!["[voice] Error ("@ + code@ + "): "@ + message@, "[voice] Fatal error -- session ending."@]
            } else {
                seq!["[voice] Error ("@ + code@ + "): "@ + message@]
            }, None, None, None, false, fatal),
        VoiceEvent::Usage => (Seq::empty(), Seq::empty(), None, None, None, true, false),
        _ => (Seq::empty(), Seq::empty(), None, None, None, false, false),
    }
}

/// A step as values.
pub open spec fn step_value(s: VoiceStep) -> (Seq<Seq<char>>, Seq<Seq<char>>, Option<Seq<char>>, Option<(Seq<char>, Seq<char>)>, Option<(Seq<char>, Seq<char>)>, bool, bool) {
    (step_lines(s.stdout), step_lines(s.stderr), opt_view(s.stderr_partial), opt_pair(s.transcript),
        opt_pair(s.function_result), s.print_usage, s.close)
}

fn quiet_step() -> (s: VoiceStep)
    ensures
        step_lines(s.stdout) == Seq::<Seq<char>>::empty(),
        step_lines(s.stderr) == Seq::<Seq<char>>::empty(),
        s.stderr_partial is None,
        s.transcript is None,
        s.function_result is None,
        !s.print_usage,
        !s.close,
{
    let s = VoiceStep {
        stdout: Vec::new(),
        stderr: Vec::new(),
        stderr_partial: None,
        transcript: None,
        function_result: None,
        print_usage: false,
        close: false,
    };
    assert(step_lines(s.stdout) =~= Seq::<Seq<char>>::empty());
    assert(step_lines(s.stderr) =~= Seq::<Seq<char>>::empty());
    s
}

/// Decide what the text mode does for an event.
pub fn handle_voice_event(event: &VoiceEvent) -> (r: VoiceStep)
    requires
        event matches VoiceEvent::SessionCreated { session_id } ==> crate::sessions::cuttable(session_id@, 12),
    ensures
        step_value(r) == spec_voice_step(*event),
{
    let mut step = quiet_step();
    match event {
        VoiceEvent::SessionCreated { session_id } => {
            let mut l = owned("[voice] Session created: ");
            l.append(crate::text::truncate_utf8(session_id.as_str(), 12));
            crate::text::push_line(&mut step.stderr, l);
        },
        VoiceEvent::Transcript { role, text, is_final } => {
            if *is_final {
                let mut l = owned("[");
                l.append(role.as_str());
                l.append("] ");
                l.append(text.as_str());
                crate::text::push_line(&mut step.stdout, l);
                step.transcript = Some((owned(role.as_str()), owned(text.as_str())));
            } else {
                let mut l = owned("\r[");
                l.append(role.as_str());
                l.append("] ");
                l.append(text.as_str());
                l.append("...");
                step.stderr_partial = Some(l);
            }
        },
        VoiceEvent::FunctionCall { call_id, name, arguments } => {
            let mut l = owned("[voice] Function call: ");
            l.append(name.as_str());
            l.append("(");
            l.append(arguments.as_str());
            l.append(")");
            crate::text::push_line(&mut step.stderr, l);
            let mut l = owned("[voice] Call ID: ");
            l.append(call_id.as_str());
            crate::text::push_line(&mut step.stderr, l);
            crate::text::push_line(&mut step.stderr, owned("[voice] Function calling in voice text-only mode is not yet connected to tool execution."));
            step.function_result = Some((owned(call_id.as_str()), owned(FUNCTION_UNAVAILABLE)));
        },
        VoiceEvent::StateChange { state, closed, reason } => {
            let mut l = owned("[voice] State: ");
            l.append(state.as_str());
            l.append(" ");
            match reason {
                Some(r) => l.append(r.as_str()),
                None => {},
            }
            crate::text::push_line(&mut step.stderr, l);
            step.close = *closed;
        },
        VoiceEvent::Error { code, message, fatal } => {
            let mut l = owned("[voice] Error (");
            l.append(code.as_str());
            l.append("): ");
            l.append(message.as_str());
            crate::text::push_line(&mut step.stderr, l);
            if *fatal {
                crate::text::push_line(&mut step.stderr, owned("[voice] Fatal error -- session ending."));
            }
            step.close = *fatal;
        },
        VoiceEvent::Usage => {
            step.print_usage = true;
        },
        _ => {},
    }
    proof {
        assert(step_lines(step.stdout) =~= spec_voice_step(*event).0);
        assert(step_lines(step.stderr) =~= spec_voice_step(*event).1);
    }
    step
}

/// What a line typed in the text mode asks for.
#[derive(Debug, PartialEq, Eq)]
pub enum VoiceInput {
    /// A blank line.
    Ignore,
    /// `/exit` or `/quit`.
    Exit,
    /// `/interrupt`: stop the agent's speech.
    Interrupt,
    /// `/help`: these lines go to standard error.
    Help(Vec<String>),
    /// Any other command: this message goes to standard error.
    Unknown(String),
    /// The trimmed text, sent to the agent.
    Send(String),
}

/// The `/help` lines of the text mode.
pub open spec fn voice_help() -> Seq<Seq<char>> {
    seq!["  /exit       - Close the voice session"@, "  /interrupt  - Interrupt agent speech"@,
        "  /help       - Show this help"@]
}

/// Classify a line typed in the text mode: after trimming, a blank line is
/// ignored, a line starting with `/` is a command (matched exactly), and
/// anything else is sent.
pub fn classify_voice_input(line: &str) -> (r: VoiceInput)
    ensures
        crate::text::trimmed(line@).len() == 0 ==> r is Ignore,
        crate::text::trimmed(line@).len() > 0 && crate::text::trimmed(line@)[0] != '/'
            ==> (r matches VoiceInput::Send(t) && t@ == crate::text::trimmed(line@)),
        crate::text::trimmed(line@).len() > 0 && crate::text::trimmed(line@)[0] == '/' ==> {
            let t = crate::text::trimmed(line@);
            if t == "/exit"@ || t == "/quit"@ {
                r is Exit
            } else if t == "/interrupt"@ {
                r is Interrupt
            } else if t == "/help"@ {
                r matches VoiceInput::Help(h) && step_lines(h) == voice_help()
            } else {
                r matches VoiceInput::Unknown(m) && m@ == "Unknown command: "@ + t + ". Type /help for available commands."@
            }
        },
{
    let t = crate::text::trim(line);
    let n = t.unicode_len();
    if n == 0 {
        return VoiceInput::Ignore;
    }
    if t.get_char(0) != '/' {
        return VoiceInput::Send(owned(t));
    }
    if str_eq(t, "/exit") || str_eq(t, "/quit") {
        VoiceInput::Exit
    } else if str_eq(t, "/interrupt") {
        VoiceInput::Interrupt
    } else if str_eq(t, "/help") {
        let mut h: Vec<String> = Vec::new();
        crate::text::push_line(&mut h, owned("  /exit       - Close the voice session"));
        crate::text::push_line(&mut h, owned("  /interrupt  - Interrupt agent speech"));
        crate::text::push_line(&mut h, owned("  /help       - Show this help"));
        assert(step_lines(h) =~= voice_help());
        VoiceInput::Help(h)
    } else {
        let mut m = owned("Unknown command: ");
        m.append(t);
        m.append(". Type /help for available commands.");
        VoiceInput::Unknown(m)
    }
}

/// The closing summary of the text mode after `count` final transcripts.
pub fn voice_summary(count: usize) -> (r: Option<String>)
    ensures
        count == 0 ==> r is None,
        count > 0 ==> (r matches Some(s) && s@ == "\n[voice] Session summary: "@ + crate::text::dec(count as nat) + " transcript(s)"@),
{
    if count == 0 {
        return None;
    }
    let mut s = owned("\n[voice] Session summary: ");
    crate::text::push_u64(&mut s, count as u64);
    s.append(" transcript(s)");
    Some(s)
}

} // verus!
