//! The session lifecycle: a session is created, becomes ready, runs turns,
//! may wait for approval, and ends closed or failed. The session counts its
//! state transitions and its turns for telemetry.

use vstd::prelude::*;
use std::marker::PhantomData;
use crate::text::owned;

verus! {

/// A trust level a session runs at, fixed by its type.
pub trait TrustLevel {
    /// The rank of the level: 0 untrusted, 1 interactive, 2 admin.
    fn trust_rank() -> (r: u8)
        ensures
            r <= 2;
}

/// Sessions that may only read the workspace.
#[derive(Debug, Clone, Copy)]
pub struct Untrusted;

/// Sessions an interactive user vouches for.
#[derive(Debug, Clone, Copy)]
pub struct InteractiveTrusted;

/// Sessions with administrator trust.
#[derive(Debug, Clone, Copy)]
pub struct AdminTrusted;

impl TrustLevel for Untrusted {
    fn trust_rank() -> (r: u8)
        ensures
            r == 0,
    {
        0
    }
}

impl TrustLevel for InteractiveTrusted {
    fn trust_rank() -> (r: u8)
        ensures
            r == 1,
    {
        1
    }
}

impl TrustLevel for AdminTrusted {
    fn trust_rank() -> (r: u8)
        ensures
            r == 2,
    {
        2
    }
}

/// The state of a session.
#[derive(Debug, Clone, PartialEq, Eq)]
pub enum SessionState {
    Created,
    Ready,
    RunningTurn,
    WaitingApproval,
    Closed,
    Failed(String),
}

/// The display text of a state.
pub open spec fn state_text(s: SessionState) -> Seq<char> {
    match s {
        SessionState::Created => "created"@,
        SessionState::Ready => "ready"@,
        SessionState::RunningTurn => "running_turn"@,
        SessionState::WaitingApproval => "waiting_approval"@,
        SessionState::Closed => "closed"@,
        SessionState::Failed(reason) => "failed:"@ + reason@,
    }
}

impl SessionState {
    /// An equal copy of the state.
    pub fn duplicate(&self) -> (s: SessionState)
        ensures
            s == *self,
    {
        match self {
            SessionState::Created => SessionState::Created,
            SessionState::Ready => SessionState::Ready,
            SessionState::RunningTurn => SessionState::RunningTurn,
            SessionState::WaitingApproval => SessionState::WaitingApproval,
            SessionState::Closed => SessionState::Closed,
            SessionState::Failed(reason) => SessionState::Failed(reason.clone()),
        }
    }

    /// The display text of the state, as logged in telemetry.
    pub fn to_string(&self) -> (s: String)
        ensures
            s@ == state_text(*self),
    {
        match self {
            SessionState::Created => owned("created"),
            SessionState::Ready => owned("ready"),
            SessionState::RunningTurn => owned("running_turn"),
            SessionState::WaitingApproval => owned("waiting_approval"),
            SessionState::Closed => owned("closed"),
            SessionState::Failed(reason) => {
                let mut s = owned("failed:");
                s.append(reason.as_str());
                s
            },
        }
    }
}

/// What a session is, for reasoning: its identifier, its state and its two
/// counters.
pub struct SessionView {
    pub id: Seq<char>,
    pub state: SessionState,
    pub state_transitions: nat,
    pub total_turns: nat,
}

/// The session after one transition to `next`.
pub open spec fn step(v: SessionView, next: SessionState) -> SessionView {
    SessionView {
        id: v.id,
        state: next,
        state_transitions: v.state_transitions + 1,
        total_turns: if next is RunningTurn { v.total_turns + 1 } else { v.total_turns },
    }
}

/// The session after the transitions `nexts`, in order.
pub open spec fn run(v: SessionView, nexts: Seq<SessionState>) -> SessionView
    decreases nexts.len(),
{
    if nexts.len() == 0 {
        v
    } else {
        step(run(v, nexts.drop_last()), nexts.last())
    }
}

/// How many of the states are `RunningTurn`.
pub open spec fn turns_in(nexts: Seq<SessionState>) -> nat
    decreases nexts.len(),
{
    if nexts.len() == 0 {
        0
    } else {
        turns_in(nexts.drop_last()) + if nexts.last() is RunningTurn { 1nat } else { 0nat }
    }
}

/// A session at trust level `T`.
#[derive(Debug)]
pub struct Session<T: TrustLevel> {
    id: String,
    state: SessionState,
    state_transitions: u32,
    total_turns: u32,
    _trust: PhantomData<T>,
}

impl<T: TrustLevel> Session<T> {
    /// The session as a value.
    pub closed spec fn view(&self) -> SessionView {
        SessionView {
            id: self.id@,
            state: self.state,
            state_transitions: self.state_transitions as nat,
            total_turns: self.total_turns as nat,
        }
    }

    /// Turns are transitions, so there are never more turns than transitions.
    #[verifier::type_invariant]
    closed spec fn counters_consistent(&self) -> bool {
        self.total_turns <= self.state_transitions
    }

    /// A new session in the `Created` state with both counters at zero.
    pub fn new(id: String) -> (s: Self)
        ensures
            s.view() == (SessionView { id: id@, state: SessionState::Created, state_transitions: 0, total_turns: 0 }),
    {
        Session {
            id,
            state: SessionState::Created,
            state_transitions: 0,
            total_turns: 0,
            _trust: PhantomData,
        }
    }

    /// The current state.
    pub fn state(&self) -> (s: &SessionState)
        ensures
            *s == self.view().state,
    {
        &self.state
    }

    /// Move to `next`, counting the transition and, when `next` is
    /// `RunningTurn`, the turn.
    pub fn transition(&mut self, next: SessionState)
        requires
            old(self).view().state_transitions < u32::MAX,
        ensures
            final(self).view() == step(old(self).view(), next),
    {
        proof {
            use_type_invariant(&*self);
        }
        self.state_transitions = self.state_transitions + 1;
        if matches!(next, SessionState::RunningTurn) {
            self.total_turns = self.total_turns + 1;
        }
        self.state = next;
    }

    /// The session identifier.
    pub fn id(&self) -> (s: &str)
        ensures
            s@ == self.view().id,
    {
        self.id.as_str()
    }

    /// The number of transitions so far.
    pub fn state_transitions(&self) -> (n: u32)
        ensures
            n == self.view().state_transitions,
    {
        self.state_transitions
    }

    /// The number of transitions into `RunningTurn` so far.
    pub fn total_turns(&self) -> (n: u32)
        ensures
            n == self.view().total_turns,
    {
        self.total_turns
    }
}

impl<T: TrustLevel> Clone for Session<T> {
    fn clone(&self) -> (c: Self)
        ensures
            c.view() == self.view(),
    {
        proof {
            use_type_invariant(self);
        }
        Session {
            id: self.id.clone(),
            state: self.state.duplicate(),
            state_transitions: self.state_transitions,
            total_turns: self.total_turns,
            _trust: PhantomData,
        }
    }
}

/// After any run of transitions from a new session, the transition counter
/// is the length of the run, the turn counter is the number of
/// `RunningTurn` states in it, the state is the last one (or `Created`), and
/// the identifier never changes.
pub proof fn lemma_counters_over_run(id: Seq<char>, nexts: Seq<SessionState>)
    ensures
        ({
            let v = run(SessionView { id, state: SessionState::Created, state_transitions: 0, total_turns: 0 }, nexts);
            &&& v.state_transitions == nexts.len()
            &&& v.total_turns == turns_in(nexts)
            &&& v.total_turns <= v.state_transitions
            &&& v.id == id
            &&& v.state == if nexts.len() == 0 { SessionState::Created } else { nexts.last() }
        }),
    decreases nexts.len(),
{
    if nexts.len() > 0 {
        lemma_counters_over_run(id, nexts.drop_last());
    }
}

} // verus!
