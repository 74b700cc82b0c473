//! The agent's transitions: what a reply asks to change, and how those
//! changes are applied to working memory and to the list of stack changes,
//! each stack change passing the safety control first.
use vstd::prelude::*;
use crate::json::{JsonValue, JsonV};
use crate::provider::Message;
use crate::sync::SyncAction;
use crate::text::{concat2, concat3, concat4, debug_str, debug_text, nat_text, owned, u64_text};

verus! {

/// A change to the agent's working memory.
#[derive(Debug)]
pub enum WorkingMemoryDelta {
    /// Appends a message to the history.
    AppendMessage(Message),
    /// Records technical context (such as a tool's raw output) under a key.
    AddTechnicalNoise(String, JsonValue),
}

/// A transition the agent asks for.
#[derive(Debug)]
pub enum AgentAction {
    /// Change the short-term context.
    UpdateWorkingMemory(WorkingMemoryDelta),
    /// Change the long-term stack; needs the safety control's approval.
    UpdateStack(SyncAction),
    /// Several transitions, in order.
    Compound(Vec<AgentAction>),
    /// Finish with a final answer.
    Stop(String),
}

/// The agent's short-term scratchpad: the conversation and technical notes.
#[derive(Debug)]
pub struct WorkingMemory {
    pub messages: Vec<Message>,
    pub technical_noise: Vec<JsonValue>,
}

impl WorkingMemory {
    /// An empty working memory.
    pub fn new() -> (r: WorkingMemory)
        ensures
            r.messages@.len() == 0,
            r.technical_noise@.len() == 0,
    {
        WorkingMemory { messages: Vec::new(), technical_noise: Vec::new() }
    }
}

/// What can go wrong while the agent works.
#[derive(Debug)]
pub enum Error {
    Network(String),
    Api { status: u16, body: String },
    Provider(String),
    Internal(String),
    Header(String),
    World(String),
    MaxIterations,
    /// The wait, in seconds, by its decimal rendering.
    RateLimitExceeded { wait_time: String },
    Redis(String),
    Denied(String),
}

impl Error {
    /// What the error says, as the user reads it.
    pub open spec fn message_spec(&self) -> Seq<char> {
        match *self {
            Error::Network(m) => "Network error: "@ + m@,
            Error::Api { status, body } => "API error (status "@ + nat_text(status as nat) + "): "@ + body@,
            Error::Provider(m) => "Provider error: "@ + m@,
            Error::Internal(m) => "Internal error: "@ + m@,
            Error::Header(m) => "Header error: "@ + m@,
            Error::World(m) => "HStack world error: "@ + m@,
            Error::MaxIterations => "Max iterations reached"@,
            Error::RateLimitExceeded { wait_time } => "Rate limit exceeded. Wait "@ + wait_time@ + "s"@,
            Error::Redis(m) => "Redis error: "@ + m@,
            Error::Denied(m) => "Control system denied action: "@ + m@,
        }
    }

    /// What the error says, as the user reads it.
    pub fn message(&self) -> (r: String)
        ensures
            r@ == self.message_spec(),
    {
        match self {
            Error::Network(m) => concat2("Network error: ", m.as_str()),
            Error::Api { status, body } => {
                let code = u64_text(*status as u64);
                concat4("API error (status ", code.as_str(), "): ", body.as_str())
            },
            Error::Provider(m) => concat2("Provider error: ", m.as_str()),
            Error::Internal(m) => concat2("Internal error: ", m.as_str()),
            Error::Header(m) => concat2("Header error: ", m.as_str()),
            Error::World(m) => concat2("HStack world error: ", m.as_str()),
            Error::MaxIterations => owned("Max iterations reached"),
            Error::RateLimitExceeded { wait_time } => concat3("Rate limit exceeded. Wait ", wait_time.as_str(), "s"),
            Error::Redis(m) => concat2("Redis error: ", m.as_str()),
            Error::Denied(m) => concat2("Control system denied action: ", m.as_str()),
        }
    }
}

/// How many rounds a loop has run, out of the most it may run.
pub struct IterationBudget {
    pub used: u32,
    pub max: u32,
}

impl IterationBudget {
    /// A budget of `max` rounds, none run yet.
    pub fn new(max: u32) -> (r: IterationBudget)
        ensures
            r.used == 0,
            r.max == max,
    {
        IterationBudget { used: 0, max }
    }

    /// Starts a round: once `max` rounds have run the loop must stop, with
    /// `MaxIterations`; otherwise the round is counted.
    pub fn next_round(&mut self) -> (r: Result<(), Error>)
        ensures
            old(self).used >= old(self).max ==> (r matches Err(Error::MaxIterations)) && final(self).used
                == old(self).used && final(self).max == old(self).max,
            old(self).used < old(self).max ==> r is Ok && final(self).used == old(self).used + 1
                && final(self).max == old(self).max,
    {
        if self.used >= self.max {
            return Err(Error::MaxIterations);
        }
        self.used = self.used + 1;
        Ok(())
    }
}

/// The safety control for changes to the long-term stack. Callers implement it
/// to decide which changes the agent may make.
pub trait AgentControlSystem {
    /// Whether the control allows `action` through.
    spec fn permits(&self, action: SyncAction) -> bool;

    /// Whether `e` is an error the control may refuse `action` with.
    spec fn refuses_with(&self, action: SyncAction, e: Error) -> bool;

    /// `Ok` exactly when the control allows `action` through; a refusal
    /// comes with one of the control's errors for that action.
    fn validate_stack_action(&self, action: &SyncAction) -> (r: Result<(), Error>)
        ensures
            r is Ok <==> self.permits(*action),
            r matches Err(e) ==> self.refuses_with(*action, e),
    ;
}

/// A control that lets every change through.
pub struct AllowAllControl;

impl AgentControlSystem for AllowAllControl {
    open spec fn permits(&self, action: SyncAction) -> bool {
        true
    }

    open spec fn refuses_with(&self, action: SyncAction, e: Error) -> bool {
        false
    }

    fn validate_stack_action(&self, action: &SyncAction) -> (r: Result<(), Error>) {
        Ok(())
    }
}

/// A control that refuses every change (a read-only agent).
pub struct ReadOnlyControl;

impl AgentControlSystem for ReadOnlyControl {
    open spec fn permits(&self, action: SyncAction) -> bool {
        false
    }

    open spec fn refuses_with(&self, action: SyncAction, e: Error) -> bool {
        e matches Error::Denied(m) && m@ == "Sync action "@ + debug_text(action.action_id@)
            + " is forbidden in read-only mode"@
    }

    fn validate_stack_action(&self, action: &SyncAction) -> (r: Result<(), Error>)
        ensures
            r matches Err(Error::Denied(m)) && m@ == "Sync action "@ + debug_text(action.action_id@)
                + " is forbidden in read-only mode"@,
    {
        let id = debug_str(action.action_id.as_str());
        Err(Error::Denied(concat3("Sync action ", id.as_str(), " is forbidden in read-only mode")))
    }
}

/// The simple transitions an action is made of, in order.
pub open spec fn leaves(a: AgentAction) -> Seq<AgentAction>
    decreases a,
{
    match a {
        AgentAction::Compound(v) => leaves_of(v@),
        _ => seq![a],
    }
}

/// The simple transitions of a sequence of actions, in order.
pub open spec fn leaves_of(s: Seq<AgentAction>) -> Seq<AgentAction>
    decreases s,
{
    if s.len() == 0 {
        Seq::empty()
    } else {
        leaves_of(s.subrange(0, s.len() - 1)) + leaves(s[s.len() - 1])
    }
}

/// The effect of transitions so far: the history and notes added, the stack
/// changes allowed, the last answer given, and whether the control refused
/// a change (after which nothing more happens).
pub struct RunV {
    pub messages: Seq<Message>,
    pub noise: Seq<JsonV>,
    pub deltas: Seq<SyncAction>,
    pub stop: Option<Seq<char>>,
    pub blocked: bool,
    /// The change the control refused, if it refused one.
    pub refused: Option<SyncAction>,
}

/// The effect of one simple transition.
pub open spec fn step<C: AgentControlSystem>(c: C, st: RunV, l: AgentAction) -> RunV {
    match l {
        AgentAction::Stop(s) => RunV { stop: Some(s@), ..st },
        AgentAction::UpdateWorkingMemory(WorkingMemoryDelta::AppendMessage(m)) => RunV {
            messages: st.messages.push(m),
            ..st
        },
        AgentAction::UpdateWorkingMemory(WorkingMemoryDelta::AddTechnicalNoise(k, v)) => RunV {
            noise: st.noise.push(JsonV::Object(seq![(k@, v@)])),
            ..st
        },
        AgentAction::UpdateStack(a) => if c.permits(a) {
            RunV { deltas: st.deltas.push(a), ..st }
        } else {
            RunV { blocked: true, refused: Some(a), ..st }
        },
        AgentAction::Compound(_) => st,
    }
}

/// The effect of running simple transitions from `st`, stopping at the
/// first change the control refuses.
pub open spec fn run_from<C: AgentControlSystem>(c: C, st: RunV, ls: Seq<AgentAction>) -> RunV
    decreases ls.len(),
{
    if ls.len() == 0 {
        st
    } else {
        let prev = run_from(c, st, ls.drop_last());
        if prev.blocked {
            prev
        } else {
            step(c, prev, ls.last())
        }
    }
}

/// Running one simple transition.
pub proof fn lemma_run_single<C: AgentControlSystem>(c: C, st: RunV, l: AgentAction)
    ensures
        run_from(c, st, seq![l]) == if st.blocked {
            st
        } else {
            step(c, st, l)
        },
{
    assert(seq![l].drop_last() =~= Seq::<AgentAction>::empty());
    assert(seq![l].last() == l);
    assert(run_from(c, st, Seq::<AgentAction>::empty()) == st);
}

/// Running `a` then `b` is running `a + b`.
pub proof fn lemma_run_from_concat<C: AgentControlSystem>(
    c: C,
    st: RunV,
    a: Seq<AgentAction>,
    b: Seq<AgentAction>,
)
    ensures
        run_from(c, st, a + b) == run_from(c, run_from(c, st, a), b),
    decreases b.len(),
{
    if b.len() == 0 {
        assert(a + b =~= a);
    } else {
        assert((a + b).drop_last() =~= a + b.drop_last());
        assert((a + b).last() == b.last());
        lemma_run_from_concat(c, st, a, b.drop_last());
    }
}

/// Once the control has refused a change, nothing more happens.
pub proof fn lemma_run_from_blocked<C: AgentControlSystem>(c: C, st: RunV, ls: Seq<AgentAction>)
    requires
        st.blocked,
    ensures
        run_from(c, st, ls) == st,
    decreases ls.len(),
{
    if ls.len() > 0 {
        lemma_run_from_blocked(c, st, ls.drop_last());
    }
}

/// The same run without an earlier answer: the answer is the run's own last
/// one, or else the earlier answer; everything else is the same.
pub proof fn lemma_run_from_stop<C: AgentControlSystem>(c: C, st: RunV, ls: Seq<AgentAction>)
    ensures
        ({
            let with = run_from(c, st, ls);
            let without = run_from(c, RunV { stop: None, ..st }, ls);
            &&& with.messages == without.messages
            &&& with.noise == without.noise
            &&& with.deltas == without.deltas
            &&& with.blocked == without.blocked
            &&& with.refused == without.refused
            &&& with.stop == match without.stop {
                Some(s) => Some(s),
                None => st.stop,
            }
        }),
    decreases ls.len(),
{
    if ls.len() > 0 {
        lemma_run_from_stop(c, st, ls.drop_last());
    }
}

/// While no change is refused, the refused change stays as it was.
pub proof fn lemma_run_refused<C: AgentControlSystem>(c: C, st: RunV, ls: Seq<AgentAction>)
    ensures
        !run_from(c, st, ls).blocked ==> run_from(c, st, ls).refused == st.refused,
    decreases ls.len(),
{
    if ls.len() > 0 {
        lemma_run_refused(c, st, ls.drop_last());
    }
}

/// The content of the notes.
pub open spec fn noise_view(v: Seq<JsonValue>) -> Seq<JsonV> {
    v.map_values(|x: JsonValue| x@)
}

/// The state a run starts from: the memory and changes so far.
pub open spec fn start_state(m: WorkingMemory, deltas: Seq<SyncAction>) -> RunV {
    RunV {
        messages: m.messages@,
        noise: noise_view(m.technical_noise@),
        deltas,
        stop: None,
        blocked: false,
        refused: None,
    }
}

/// The memory and changes match a run's state.
pub open spec fn matches_state(m: WorkingMemory, deltas: Seq<SyncAction>, st: RunV) -> bool {
    &&& m.messages@ == st.messages
    &&& noise_view(m.technical_noise@) == st.noise
    &&& deltas == st.deltas
}

/// The answer an application returns.
pub open spec fn stop_view(r: Result<Option<String>, Error>) -> Option<Seq<char>> {
    match r {
        Ok(Some(s)) => Some(s@),
        _ => None,
    }
}

/// Applies an action: messages and notes go to working memory, each stack
/// change goes through the control and is collected when allowed; the first
/// refusal ends the application with the control's error. Returns the last
/// answer the action gave, if any.
#[verifier::loop_isolation(false)]
pub fn apply_action<C: AgentControlSystem>(
    control: &C,
    action: AgentAction,
    memory: &mut WorkingMemory,
    deltas: &mut Vec<SyncAction>,
) -> (r: Result<Option<String>, Error>)
    ensures
        ({
            let rv = run_from(*control, start_state(*old(memory), old(deltas)@), leaves(action));
            &&& matches_state(*final(memory), final(deltas)@, rv)
            &&& (r is Err <==> rv.blocked)
            &&& (r matches Err(e) ==> rv.refused matches Some(a) && control.refuses_with(a, e))
            &&& (r is Ok ==> stop_view(r) == rv.stop)
        }),
    decreases action,
{
    let ghost st0 = start_state(*memory, deltas@);
    let ghost act0 = action;
    proof {
        if !(action is Compound) {
            assert(leaves(action) == seq![action]);
            lemma_run_single(*control, st0, action);
        }
    }
    match action {
        AgentAction::Stop(answer) => {
            Ok(Some(answer))
        },
        AgentAction::UpdateWorkingMemory(delta) => {
            match delta {
                WorkingMemoryDelta::AppendMessage(msg) => {
                    memory.messages.push(msg);
                },
                WorkingMemoryDelta::AddTechnicalNoise(key, val) => {
                    let mut entries: Vec<(String, JsonValue)> = Vec::new();
                    entries.push((key, val));
                    memory.technical_noise.push(JsonValue::Object(entries));
                    proof {
                        assert(crate::json::entries_view(entries@) =~= seq![(key@, val@)]) by {
                            reveal_with_fuel(crate::json::entries_view, 2);
                        }
                        assert(noise_view(memory.technical_noise@) =~= st0.noise.push(
                            JsonV::Object(seq![(key@, val@)]),
                        ));
                    }
                },
            }
            Ok(None)
        },
        AgentAction::UpdateStack(sync_action) => {
            match control.validate_stack_action(&sync_action) {
                Err(e) => {
                    return Err(e);
                },
                Ok(()) => {},
            }
            deltas.push(sync_action);
            Ok(None)
        },
        AgentAction::Compound(actions) => {
            let ghost v = actions@;
            let ghost vec0 = actions;
            let ghost whole = AgentAction::Compound(actions);
            let n = actions.len();
            let mut rest = actions;
            let mut last_stop: Option<String> = None;
            let mut i: usize = 0;
            proof {
                assert(v.subrange(0, 0) =~= Seq::<AgentAction>::empty());
                assert(v.skip(0) =~= v);
            }
            while rest.len() > 0
                invariant
                    i <= v.len(),
                    v.len() == n,
                    v == vec0@,
                    act0 == AgentAction::Compound(vec0),
                    rest@ == v.skip(i as int),
                    leaves(whole) == leaves_of(v),
                    ({
                        let cur = run_from(*control, st0, leaves_of(v.subrange(0, i as int)));
                        &&& matches_state(*memory, deltas@, cur)
                        &&& !cur.blocked
                        &&& cur.refused is None
                        &&& opt_text_of(last_stop) == cur.stop
                    }),
                decreases rest.len(),
            {
                let a = rest.remove(0);
                proof {
                    assert(a == v[i as int]);
                    assert(rest@ =~= v.skip(i + 1));
                    assert(v.subrange(0, i + 1).subrange(0, i as int) =~= v.subrange(0, i as int));
                    assert(leaves_of(v.subrange(0, i + 1)) == leaves_of(v.subrange(0, i as int)) + leaves(a));
                }
                let ghost before_mem = *memory;
                let ghost before_deltas = deltas@;
                let ghost cur = run_from(*control, st0, leaves_of(v.subrange(0, i as int)));
                proof {
                    assert(act0->Compound_0 == vec0);
                    assert(decreases_to!(act0 => act0->Compound_0));
                    assert(decreases_to!(vec0 => vec0@));
                    assert(decreases_to!(vec0@ => vec0@[i as int]));
                    assert(decreases_to!(act0 => a));
                }
                let sub = apply_action(control, a, memory, deltas);
                proof {
                    lemma_run_from_concat(*control, st0, leaves_of(v.subrange(0, i as int)), leaves(a));
                    lemma_run_from_stop(*control, cur, leaves(a));
                    lemma_run_refused(*control, cur, leaves(a));
                    assert(RunV { stop: None, ..cur } == start_state(before_mem, before_deltas));
                }
                match sub {
                    Err(e) => {
                        proof {
                            let next = run_from(*control, st0, leaves_of(v.subrange(0, i + 1)));
                            assert(next.blocked);
                            assert(v =~= v.subrange(0, i + 1) + v.skip(i + 1));
                            lemma_leaves_of_concat(v.subrange(0, i + 1), v.skip(i + 1));
                            lemma_run_from_concat(*control, st0, leaves_of(v.subrange(0, i + 1)), leaves_of(v.skip(i + 1)));
                            lemma_run_from_blocked(*control, next, leaves_of(v.skip(i + 1)));
                        }
                        return Err(e);
                    },
                    Ok(s) => {
                        match s {
                            Some(answer) => {
                                last_stop = Some(answer);
                            },
                            None => {},
                        }
                    },
                }
                i = i + 1;
            }
            proof {
                assert(v.subrange(0, i as int) =~= v);
            }
            Ok(last_stop)
        },
    }
}

/// The content of an optional text.
pub open spec fn opt_text_of(o: Option<String>) -> Option<Seq<char>> {
    match o {
        Some(s) => Some(s@),
        None => None,
    }
}

/// The leaves of a concatenation are the concatenated leaves.
pub proof fn lemma_leaves_of_concat(a: Seq<AgentAction>, b: Seq<AgentAction>)
    ensures
        leaves_of(a + b) == leaves_of(a) + leaves_of(b),
    decreases b.len(),
{
    if b.len() == 0 {
        assert(a + b =~= a);
        assert(leaves_of(a) + leaves_of(b) =~= leaves_of(a));
    } else {
        let ab = a + b;
        assert(ab.subrange(0, ab.len() - 1) =~= a + b.subrange(0, b.len() - 1));
        assert(ab[ab.len() - 1] == b[b.len() - 1]);
        lemma_leaves_of_concat(a, b.subrange(0, b.len() - 1));
        assert(leaves_of(a + b) =~= leaves_of(a) + leaves_of(b));
    }
}

} // verus!
