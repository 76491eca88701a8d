//! The check every tool call of the agent passes: the tool must be
//! registered, the session's trust rank must reach the tool's, its input
//! must classify into effects, and every effect must be allowed by the
//! policy engine once the approval mode is applied. Only then does the tool
//! run. A refused call is answered with a message for the model.

use vstd::prelude::*;
use crate::policy::{
    approval_required_message, resolve_decision, spec_evaluate, Decision, Effect, PolicyEngine,
    ResolvedDecision,
};
use crate::text::{dec, join, owned, push_joined, push_u64, texts};

verus! {

/// Why the approval mode refuses a decision, if it does.
pub open spec fn refusal(d: Decision, mode: Seq<char>) -> Option<Seq<char>> {
    match d {
        Decision::Allow { .. } => None,
        Decision::Deny { reason } => Some(reason@),
        Decision::Ask { reason } => if mode == "allow"@ {
            None
        } else if mode == "deny"@ {
            Some(reason@)
        } else {
            Some(approval_required_message(mode, reason@))
        },
    }
}

/// The rendering of an effect in refusal messages.
pub open spec fn effect_text(e: Effect) -> Seq<char> {
    match e {
        Effect::FsRead(p) => "FsRead(\""@ + p@ + "\")"@,
        Effect::FsWrite(p) => "FsWrite(\""@ + p@ + "\")"@,
        Effect::ProcessSpawn { program } => "ProcessSpawn { program: \""@ + program@ + "\" }"@,
        Effect::NetworkConnect { host } => "NetworkConnect { host: \""@ + host@ + "\" }"@,
    }
}

/// Render an effect for a refusal message.
pub fn describe_effect(e: &Effect) -> (s: String)
    ensures
        s@ == effect_text(*e),
{
    let mut s = match e {
        Effect::FsRead(p) => {
            let mut s = owned("FsRead(\"");
            s.append(p.as_str());
            s
        },
        Effect::FsWrite(p) => {
            let mut s = owned("FsWrite(\"");
            s.append(p.as_str());
            s
        },
        Effect::ProcessSpawn { program } => {
            let mut s = owned("ProcessSpawn { program: \"");
            s.append(program.as_str());
            s
        },
        Effect::NetworkConnect { host } => {
            let mut s = owned("NetworkConnect { host: \"");
            s.append(host.as_str());
            s
        },
    };
    match e {
        Effect::FsRead(_) | Effect::FsWrite(_) => s.append("\")"),
        _ => s.append("\" }"),
    }
    s
}

/// Every one of the first `n` effects is allowed under the approval mode.
pub open spec fn allowed_upto(effects: Seq<Effect>, config: crate::config::PolicyConfig, mode: Seq<char>, n: int) -> bool {
    forall|j: int| 0 <= j < n ==> #[trigger] refusal(spec_evaluate(config, effects[j]), mode) is None
}

/// The message for a call of a tool that is not registered.
pub open spec fn unknown_tool_message(name: Seq<char>, available: Seq<String>) -> Seq<char> {
    "unknown tool '"@ + name + "'. Available tools: "@ + join(texts(available), ", "@)
}

/// The message for a call of a tool above the session's trust rank.
pub open spec fn trust_rank_message(name: Seq<char>, needed: u8, have: u8) -> Seq<char> {
    "tool '"@ + name + "' requires trust rank "@ + dec(needed as nat)
        + " but current session has rank "@ + dec(have as nat)
}

/// The message for a call whose input could not be classified.
pub open spec fn classify_message(name: Seq<char>, error: Seq<char>) -> Seq<char> {
    "failed to classify input for tool '"@ + name + "': "@ + error
}

/// The message for a call refused because of one of its effects.
pub open spec fn denied_message(name: Seq<char>, e: Effect, reason: Seq<char>) -> Seq<char> {
    "policy denied tool '"@ + name + "' for effect "@ + effect_text(e) + ": "@ + reason
}

/// Whether a call runs: the tool is registered, the session's rank reaches
/// it, the input classified and every effect is allowed.
pub open spec fn call_allowed(
    min_rank: Option<u8>,
    trust_rank: u8,
    classified: Result<Vec<Effect>, String>,
    config: crate::config::PolicyConfig,
    mode: Seq<char>,
) -> bool {
    match min_rank {
        None => false,
        Some(m) => m <= trust_rank && match classified {
            Ok(effects) => allowed_upto(effects@, config, mode, effects@.len() as int),
            Err(_) => false,
        },
    }
}

/// A refusal names the first refused effect and the reason for it.
pub open spec fn first_denial_reported(
    r: Result<(), String>,
    name: Seq<char>,
    effects: Seq<Effect>,
    config: crate::config::PolicyConfig,
    mode: Seq<char>,
) -> bool {
    match r {
        Ok(_) => true,
        Err(msg) => exists|i: int|
            0 <= i < effects.len() && allowed_upto(effects, config, mode, i)
                && match #[trigger] refusal(spec_evaluate(config, effects[i]), mode) {
                Some(reason) => msg@ == denied_message(name, effects[i], reason),
                None => false,
            },
    }
}

/// Decide whether a tool call may run.
///
/// `min_rank` is the trust rank the registered tool named `name` needs, or
/// `None` when no such tool is registered; `available` names the tools the
/// session may use; `classified` is the outcome of classifying the call's
/// input into effects. The call runs (`Ok`) exactly when the tool is
/// registered, the session's rank reaches the tool's, the input classified,
/// and every effect is allowed; otherwise the first reason in that order
/// is reported.
pub fn check_tool_call(
    name: &str,
    min_rank: Option<u8>,
    available: &Vec<String>,
    trust_rank: u8,
    classified: &Result<Vec<Effect>, String>,
    engine: &PolicyEngine,
    approval_mode: &str,
) -> (r: Result<(), String>)
    ensures
        (r is Ok) <==> call_allowed(min_rank, trust_rank, *classified, engine.config(), approval_mode@),
        match min_rank {
            None => r matches Err(msg) && msg@ == unknown_tool_message(name@, available@),
            Some(m) => if m > trust_rank {
                r matches Err(msg) && msg@ == trust_rank_message(name@, m, trust_rank)
            } else {
                match *classified {
                    Err(e) => r matches Err(msg) && msg@ == classify_message(name@, e@),
                    Ok(effects) => first_denial_reported(r, name@, effects@, engine.config(), approval_mode@),
                }
            },
        },
{
    let needed = match min_rank {
        None => {
            let mut msg = owned("unknown tool '");
            msg.append(name);
            msg.append("'. Available tools: ");
            push_joined(&mut msg, available, ", ");
            return Err(msg);
        },
        Some(m) => m,
    };
    if needed > trust_rank {
        let mut msg = owned("tool '");
        msg.append(name);
        msg.append("' requires trust rank ");
        push_u64(&mut msg, needed as u64);
        msg.append(" but current session has rank ");
        push_u64(&mut msg, trust_rank as u64);
        return Err(msg);
    }
    let effects = match classified {
        Err(e) => {
            let mut msg = owned("failed to classify input for tool '");
            msg.append(name);
            msg.append("': ");
            msg.append(e.as_str());
            return Err(msg);
        },
        Ok(effects) => effects,
    };
    let n = effects.len();
    let mut i: usize = 0;
    while i < n
        invariant
            n == effects@.len(),
            i <= n,
            min_rank == Some(needed),
            needed <= trust_rank,
            *classified == Ok::<Vec<Effect>, String>(*effects),
            allowed_upto(effects@, engine.config(), approval_mode@, i as int),
        decreases n - i,
    {
        let decision = engine.evaluate(&effects[i]);
        match resolve_decision(decision, approval_mode) {
            ResolvedDecision::Allow => {},
            ResolvedDecision::Deny { reason } => {
                let mut msg = owned("policy denied tool '");
                msg.append(name);
                msg.append("' for effect ");
                let d = describe_effect(&effects[i]);
                msg.append(d.as_str());
                msg.append(": ");
                msg.append(reason.as_str());
                proof {
                    assert(refusal(spec_evaluate(engine.config(), effects@[i as int]), approval_mode@) matches Some(rr) && rr == reason@);
                    assert(!allowed_upto(effects@, engine.config(), approval_mode@, n as int));
                }
                return Err(msg);
            },
        }
        i = i + 1;
    }
    Ok(())
}

/// The tool-call guard of an agent session: the policy engine, the approval mode and
/// the session's trust rank, fixed for the session.
#[derive(Debug, Clone)]
pub struct PolicyGatedExecutor {
    engine: PolicyEngine,
    approval_mode: String,
    trust_rank: u8,
}

impl PolicyGatedExecutor {
    /// The policy configuration the guard decides by.
    pub closed spec fn config(&self) -> crate::config::PolicyConfig {
        self.engine.config()
    }

    /// The approval mode of the session.
    pub closed spec fn mode(&self) -> Seq<char> {
        self.approval_mode@
    }

    /// The trust rank of the session.
    pub closed spec fn rank(&self) -> u8 {
        self.trust_rank
    }

    /// A guard for a session.
    pub fn new(engine: PolicyEngine, approval_mode: String, trust_rank: u8) -> (g: Self)
        ensures
            g.config() == engine.config(),
            g.mode() == approval_mode@,
            g.rank() == trust_rank,
    {
        PolicyGatedExecutor { engine, approval_mode, trust_rank }
    }

    /// The trust rank of the session.
    pub fn trust_rank(&self) -> (r: u8)
        ensures
            r == self.rank(),
    {
        self.trust_rank
    }

    /// Decide whether a call of the tool `name` may run, as
    /// `check_tool_call` does with this session's engine, mode and rank.
    pub fn check(
        &self,
        name: &str,
        min_rank: Option<u8>,
        available: &Vec<String>,
        classified: &Result<Vec<Effect>, String>,
    ) -> (r: Result<(), String>)
        ensures
            (r is Ok) <==> call_allowed(min_rank, self.rank(), *classified, self.config(), self.mode()),
            match min_rank {
                None => r matches Err(msg) && msg@ == unknown_tool_message(name@, available@),
                Some(m) => if m > self.rank() {
                    r matches Err(msg) && msg@ == trust_rank_message(name@, m, self.rank())
                } else {
                    match *classified {
                        Err(e) => r matches Err(msg) && msg@ == classify_message(name@, e@),
                        Ok(effects) => first_denial_reported(r, name@, effects@, self.config(), self.mode()),
                    }
                },
            },
    {
        check_tool_call(
            name,
            min_rank,
            available,
            self.trust_rank,
            classified,
            &self.engine,
            self.approval_mode.as_str(),
        )
    }
}

/// The answer for a tool that ran: its output, or its failure as a message.
pub fn tool_outcome(name: &str, result: Result<String, String>) -> (r: Result<String, String>)
    ensures
        match result {
            Ok(out) => r == Ok::<String, String>(out),
            Err(e) => r matches Err(msg) && msg@ == "tool '"@ + name@ + "' execution failed: "@ + e@,
        },
{
    match result {
        Ok(out) => Ok(out),
        Err(e) => {
            let mut msg = owned("tool '");
            msg.append(name);
            msg.append("' execution failed: ");
            msg.append(e.as_str());
            Err(msg)
        },
    }
}

} // verus!
