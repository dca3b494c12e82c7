//! The per-request generation state machine.
//!
//! A session walks through the tokens of a prompt (prefill), then produces one
//! new token per model step (decode) until the model ends the sequence, a bound
//! is reached, a step fails or the consumer goes away. The session itself never
//! touches the model or the consumer: it tells its driver what to do next
//! ([`GenerationSession::action`]) and is told what happened
//! ([`GenerationSession::advance`]).

use vstd::prelude::*;

verus! {

/// Where a session stands.
#[derive(Clone, Copy, Debug, PartialEq, Eq, Structural)]
pub enum Phase {
    /// Consuming the tokens of the prompt; nothing is sampled or emitted.
    Prefill,
    /// Sampling one new token per step.
    Decode,
    /// Finished: the model ended the sequence, or a bound cut it short.
    Done,
    /// Abandoned: a step failed, or the consumer went away.
    Aborted,
}

/// Why a session reached a terminal phase.
#[derive(Clone, Copy, Debug, PartialEq, Eq, Structural)]
pub enum SessionEnd {
    /// The sampler chose the end-of-sequence token.
    EndOfSequence,
    /// A bound on the generated tokens or on the sequence length was reached.
    Truncated,
    /// The model could not complete a step.
    BackendStepFailure,
    /// The fragment sink was closed by its receiver.
    ConsumerGone,
}

impl SessionEnd {
    /// The terminal phase that this ending leads to.
    pub open spec fn spec_phase(self) -> Phase {
        match self {
            SessionEnd::EndOfSequence | SessionEnd::Truncated => Phase::Done,
            SessionEnd::BackendStepFailure | SessionEnd::ConsumerGone => Phase::Aborted,
        }
    }

    /// The terminal phase that this ending leads to.
    #[verifier::when_used_as_spec(spec_phase)]
    pub fn phase(self) -> (p: Phase)
        ensures
            p == self.spec_phase(),
    {
        match self {
            SessionEnd::EndOfSequence | SessionEnd::Truncated => Phase::Done,
            SessionEnd::BackendStepFailure | SessionEnd::ConsumerGone => Phase::Aborted,
        }
    }
}

/// The bounds of a session and the token that ends a sequence.
#[derive(Clone, Copy, Debug, PartialEq, Eq, Structural)]
pub struct SessionLimits {
    /// The model's end-of-sequence token.
    pub eos_token: usize,
    /// The largest number of tokens that one session may generate.
    pub max_generated: usize,
    /// The number of positions that the model can hold.
    pub max_sequence_length: usize,
}

/// What the driver of a session has to do next.
#[derive(Clone, Copy, Debug, PartialEq, Eq, Structural)]
pub enum SessionAction {
    /// Run one model step on `token` at `position`; sample from its logits
    /// if `sample` is set.
    Step { token: usize, position: usize, sample: bool },
    /// Decode `token` to text and push the fragment into the sink.
    Emit { token: usize },
    /// The session is over: close the sink.
    Finish { end: SessionEnd },
}

/// What the driver reports back to a session.
#[derive(Clone, Copy, Debug, PartialEq, Eq, Structural)]
pub enum SessionEvent {
    /// The step on a prompt token completed.
    Stepped,
    /// The step completed and the sampler chose this token.
    Sampled(usize),
    /// The model could not complete the step.
    StepFailed,
    /// The fragment was taken by the sink.
    Delivered,
    /// The sink was closed by its receiver.
    SinkClosed,
}

/// The mathematical state of a session.
pub struct SessionModel {
    pub prompt: Seq<usize>,
    pub limits: SessionLimits,
    pub position: nat,
    pub phase: Phase,
    pub current_token: usize,
    pub generated_count: nat,
    /// A sampled token whose fragment has not been delivered yet.
    pub pending: Option<usize>,
    pub end: Option<SessionEnd>,
}

impl SessionModel {
    /// The state in which every session starts.
    pub open spec fn initial(prompt: Seq<usize>, limits: SessionLimits) -> SessionModel {
        SessionModel {
            prompt,
            limits,
            position: 0,
            phase: Phase::Prefill,
            current_token: prompt[0],
            generated_count: 0,
            pending: None,
            end: None,
        }
    }

    pub open spec fn is_terminal(self) -> bool {
        self.phase == Phase::Done || self.phase == Phase::Aborted
    }

    /// The step at the current position is the last one that consumes a
    /// prompt token, or a later one: its logits are sampled.
    pub open spec fn prompt_exhausted(self) -> bool {
        self.position + 1 >= self.prompt.len()
    }

    /// No further step may be taken: the sequence is full, or the next step
    /// would generate more tokens than allowed.
    pub open spec fn out_of_room(self) -> bool {
        ||| self.position >= self.limits.max_sequence_length
        ||| (self.prompt_exhausted() && self.generated_count >= self.limits.max_generated)
    }

    /// A model step is outstanding.
    pub open spec fn awaits_step(self) -> bool {
        !self.is_terminal() && self.pending is None
    }

    /// What holds of every state that a session can be in.
    pub open spec fn wf(self) -> bool {
        &&& self.prompt.len() >= 1
        &&& self.limits.max_generated >= 1
        &&& self.limits.max_sequence_length >= 1
        &&& self.generated_count <= self.limits.max_generated
        &&& self.position <= self.limits.max_sequence_length
        &&& match self.end {
            None => !self.is_terminal(),
            Some(end) => self.phase == end.spec_phase(),
        }
        &&& self.is_terminal() ==> self.pending is None
        &&& self.awaits_step() ==> !self.out_of_room()
        &&& self.phase == Phase::Prefill ==> {
            &&& self.position < self.prompt.len()
            &&& self.current_token == self.prompt[self.position as int]
            &&& self.generated_count == 0
            &&& self.pending is None
        }
        &&& self.phase == Phase::Decode ==> self.position + 1 == self.prompt.len()
            + self.generated_count
        &&& self.pending matches Some(token) ==> {
            &&& token != self.limits.eos_token
            &&& self.generated_count < self.limits.max_generated
            &&& self.position < self.limits.max_sequence_length
        }
    }

    /// What the driver has to do in this state.
    pub open spec fn action(self) -> SessionAction {
        match self.end {
            Some(end) => SessionAction::Finish { end },
            None => match self.pending {
                Some(token) => SessionAction::Emit { token },
                None => SessionAction::Step {
                    token: self.current_token,
                    position: self.position as usize,
                    sample: self.prompt_exhausted(),
                },
            },
        }
    }

    /// The event answers what the session is waiting for. Any other event
    /// leaves the session as it is.
    pub open spec fn accepts(self, event: SessionEvent) -> bool {
        !self.is_terminal() && match event {
            SessionEvent::Stepped => self.pending is None && !self.prompt_exhausted(),
            SessionEvent::Sampled(_) => self.pending is None && self.prompt_exhausted(),
            SessionEvent::StepFailed => self.pending is None,
            SessionEvent::Delivered => self.pending is Some,
            SessionEvent::SinkClosed => true,
        }
    }

    /// This state, ended for the given reason.
    pub open spec fn ended(self, end: SessionEnd) -> SessionModel {
        SessionModel { phase: end.spec_phase(), end: Some(end), pending: None, ..self }
    }

    /// This state, ended as truncated if no further step may be taken.
    pub open spec fn bounded(self) -> SessionModel {
        if self.out_of_room() {
            self.ended(SessionEnd::Truncated)
        } else {
            self
        }
    }

    /// The state that follows this one on the given event.
    pub open spec fn next(self, event: SessionEvent) -> SessionModel {
        if !self.accepts(event) {
            self
        } else {
            match event {
                SessionEvent::Stepped => SessionModel {
                    position: self.position + 1,
                    current_token: self.prompt[self.position as int + 1],
                    ..self
                }.bounded(),
                SessionEvent::Sampled(token) => if token == self.limits.eos_token {
                    self.ended(SessionEnd::EndOfSequence)
                } else {
                    SessionModel { phase: Phase::Decode, pending: Some(token), ..self }
                },
                SessionEvent::StepFailed => self.ended(SessionEnd::BackendStepFailure),
                SessionEvent::Delivered => SessionModel {
                    phase: Phase::Decode,
                    position: self.position + 1,
                    current_token: self.pending->0,
                    generated_count: self.generated_count + 1,
                    pending: None,
                    ..self
                }.bounded(),
                SessionEvent::SinkClosed => self.ended(SessionEnd::ConsumerGone),
            }
        }
    }

    /// The state reached from this one by a sequence of events.
    pub open spec fn run(self, events: Seq<SessionEvent>) -> SessionModel
        decreases events.len(),
    {
        if events.len() == 0 {
            self
        } else {
            self.run(events.drop_last()).next(events.last())
        }
    }
}

/// The order in which phases may follow each other.
pub open spec fn phase_rank(phase: Phase) -> nat {
    match phase {
        Phase::Prefill => 0,
        Phase::Decode => 1,
        Phase::Done | Phase::Aborted => 2,
    }
}

/// The state of one generation request.
pub struct GenerationSession {
    prompt_tokens: Vec<usize>,
    limits: SessionLimits,
    position: usize,
    phase: Phase,
    current_token: usize,
    generated_count: usize,
    pending: Option<usize>,
    end: Option<SessionEnd>,
}

impl View for GenerationSession {
    type V = SessionModel;

    closed spec fn view(&self) -> SessionModel {
        SessionModel {
            prompt: self.prompt_tokens@,
            limits: self.limits,
            position: self.position as nat,
            phase: self.phase,
            current_token: self.current_token,
            generated_count: self.generated_count as nat,
            pending: self.pending,
            end: self.end,
        }
    }
}

impl GenerationSession {
    /// Starts a session on a tokenized prompt. There is no session for an
    /// empty prompt, nor under a bound that leaves no room for a single step.
    pub fn new(prompt_tokens: Vec<usize>, limits: SessionLimits) -> (session: Option<
        GenerationSession,
    >)
        ensures
            session is Some <==> prompt_tokens@.len() >= 1 && limits.max_generated >= 1
                && limits.max_sequence_length >= 1,
            session matches Some(s) ==> s@ == SessionModel::initial(prompt_tokens@, limits)
                && s@.wf(),
    {
        if prompt_tokens.len() == 0 || limits.max_generated == 0 || limits.max_sequence_length
            == 0 {
            return None;
        }
        let first = prompt_tokens[0];
        Some(
            GenerationSession {
                prompt_tokens,
                limits,
                position: 0,
                phase: Phase::Prefill,
                current_token: first,
                generated_count: 0,
                pending: None,
                end: None,
            },
        )
    }

    /// The 0-based index of the token that the next step works on.
    pub fn position(&self) -> (p: usize)
        ensures
            p == self@.position,
    {
        self.position
    }

    pub fn phase(&self) -> (p: Phase)
        ensures
            p == self@.phase,
    {
        self.phase
    }

    /// The token that drives the next model step.
    pub fn current_token(&self) -> (t: usize)
        ensures
            t == self@.current_token,
    {
        self.current_token
    }

    /// The number of fragments delivered so far.
    pub fn generated_count(&self) -> (n: usize)
        ensures
            n == self@.generated_count,
    {
        self.generated_count
    }

    pub fn prompt_tokens(&self) -> (tokens: &Vec<usize>)
        ensures
            tokens@ == self@.prompt,
    {
        &self.prompt_tokens
    }

    pub fn limits(&self) -> (limits: SessionLimits)
        ensures
            limits == self@.limits,
    {
        self.limits
    }

    /// Why the session ended, once it has.
    pub fn end(&self) -> (end: Option<SessionEnd>)
        ensures
            end == self@.end,
    {
        self.end
    }

    pub fn is_terminal(&self) -> (b: bool)
        ensures
            b == self@.is_terminal(),
    {
        match self.phase {
            Phase::Done | Phase::Aborted => true,
            _ => false,
        }
    }

    /// What the driver has to do now. The answer does not change until an
    /// event is accepted.
    pub fn action(&self) -> (action: SessionAction)
        requires
            self@.wf(),
        ensures
            action == self@.action(),
    {
        match self.end {
            Some(end) => SessionAction::Finish { end },
            None => match self.pending {
                Some(token) => SessionAction::Emit { token },
                None => SessionAction::Step {
                    token: self.current_token,
                    position: self.position,
                    sample: self.position >= self.prompt_tokens.len() - 1,
                },
            },
        }
    }

    fn finish(&mut self, end: SessionEnd)
        ensures
            final(self)@ == old(self)@.ended(end),
    {
        self.phase = end.phase();
        self.end = Some(end);
        self.pending = None;
    }

    fn finish_if_out_of_room(&mut self)
        requires
            old(self)@.prompt.len() >= 1,
        ensures
            final(self)@ == old(self)@.bounded(),
    {
        if self.position >= self.limits.max_sequence_length || (self.position
            >= self.prompt_tokens.len() - 1 && self.generated_count
            >= self.limits.max_generated) {
            self.finish(SessionEnd::Truncated);
        }
    }

    /// Takes in what the driver reports. An event that does not answer what
    /// the session is waiting for changes nothing.
    pub fn advance(&mut self, event: SessionEvent) -> (accepted: bool)
        requires
            old(self)@.wf(),
        ensures
            accepted == old(self)@.accepts(event),
            final(self)@ == old(self)@.next(event),
            final(self)@.wf(),
    {
        if self.is_terminal() {
            return false;
        }
        let exhausted = self.position >= self.prompt_tokens.len() - 1;
        match event {
            SessionEvent::Stepped => {
                if self.pending.is_some() || exhausted {
                    return false;
                }
                self.position = self.position + 1;
                self.current_token = self.prompt_tokens[self.position];
                self.finish_if_out_of_room();
            },
            SessionEvent::Sampled(token) => {
                if self.pending.is_some() || !exhausted {
                    return false;
                }
                if token == self.limits.eos_token {
                    self.finish(SessionEnd::EndOfSequence);
                } else {
                    self.phase = Phase::Decode;
                    self.pending = Some(token);
                }
            },
            SessionEvent::StepFailed => {
                if self.pending.is_some() {
                    return false;
                }
                self.finish(SessionEnd::BackendStepFailure);
            },
            SessionEvent::Delivered => {
                match self.pending {
                    None => {
                        return false;
                    },
                    Some(token) => {
                        self.phase = Phase::Decode;
                        self.position = self.position + 1;
                        self.current_token = token;
                        self.generated_count = self.generated_count + 1;
                        self.pending = None;
                        self.finish_if_out_of_room();
                    },
                }
            },
            SessionEvent::SinkClosed => {
                self.finish(SessionEnd::ConsumerGone);
            },
        }
        true
    }
}

/// Every step of the state machine keeps a session well formed.
pub proof fn lemma_next_wf(m: SessionModel, event: SessionEvent)
    requires
        m.wf(),
    ensures
        m.next(event).wf(),
{
}

/// Every run of the state machine keeps a session well formed.
pub proof fn lemma_run_wf(m: SessionModel, events: Seq<SessionEvent>)
    requires
        m.wf(),
    ensures
        m.run(events).wf(),
    decreases events.len(),
{
    if events.len() > 0 {
        lemma_run_wf(m, events.drop_last());
        lemma_next_wf(m.run(events.drop_last()), events.last());
    }
}

/// A session that has ended stays exactly as it is, whatever is reported to it.
pub proof fn lemma_terminal_is_final(m: SessionModel, events: Seq<SessionEvent>)
    requires
        m.is_terminal(),
    ensures
        m.run(events) == m,
    decreases events.len(),
{
    if events.len() > 0 {
        lemma_terminal_is_final(m, events.drop_last());
    }
}

/// Along any sequence of events the phases of a session are visited in the
/// order prefill, decode, then one terminal phase: the phase after `i` events
/// never ranks above the phase after `j >= i` events, and once the session is
/// done or aborted it does not change again. A session is in the decode phase
/// only once the tokens of its prompt are used up.
pub proof fn lemma_phases_in_order(
    m: SessionModel,
    events: Seq<SessionEvent>,
    i: int,
    j: int,
)
    requires
        m.wf(),
        0 <= i <= j <= events.len(),
    ensures
        phase_rank(m.run(events.take(i)).phase) <= phase_rank(m.run(events.take(j)).phase),
        m.run(events.take(i)).is_terminal() ==> m.run(events.take(j)) == m.run(
            events.take(i),
        ),
        m.run(events.take(j)).phase == Phase::Decode ==> m.run(
            events.take(j),
        ).prompt_exhausted(),
    decreases j - i,
{
    lemma_run_wf(m, events.take(j));
    if i < j {
        lemma_phases_in_order(m, events, i, j - 1);
        lemma_run_wf(m, events.take(j - 1));
        assert(events.take(j).drop_last() =~= events.take(j - 1));
    }
}

/// The same, of a session from its start: for every non-empty prompt the
/// phases visited are some prefill states, then some decode states, then done
/// or aborted for good.
pub proof fn lemma_phases_from_start(
    prompt: Seq<usize>,
    limits: SessionLimits,
    events: Seq<SessionEvent>,
    i: int,
    j: int,
)
    requires
        prompt.len() >= 1,
        limits.max_generated >= 1,
        limits.max_sequence_length >= 1,
        0 <= i <= j <= events.len(),
    ensures
        ({
            let start = SessionModel::initial(prompt, limits);
            let earlier = start.run(events.take(i));
            let later = start.run(events.take(j));
            &&& start.phase == Phase::Prefill
            &&& phase_rank(earlier.phase) <= phase_rank(later.phase)
            &&& earlier.is_terminal() ==> later == earlier
            &&& later.phase == Phase::Decode ==> later.prompt_exhausted()
        }),
{
    lemma_phases_in_order(SessionModel::initial(prompt, limits), events, i, j);
}

/// The cursor moves by exactly one position per completed step and never
/// otherwise: an accepted `Stepped` or `Delivered` moves it one forward, every
/// other event leaves it where it is.
pub proof fn lemma_position_moves_one_per_step(m: SessionModel, event: SessionEvent)
    requires
        m.wf(),
    ensures
        m.next(event).position == m.position + (if m.accepts(event) && (event
            == SessionEvent::Stepped || event == SessionEvent::Delivered) {
            1nat
        } else {
            0nat
        }),
        m.next(event).prompt == m.prompt,
        m.next(event).limits == m.limits,
{
}

impl SessionModel {
    /// The number of model steps asked for along a run, the first one included.
    pub open spec fn steps_started(self, events: Seq<SessionEvent>) -> nat
        decreases events.len(),
    {
        if events.len() == 0 {
            if self.awaits_step() {
                1
            } else {
                0
            }
        } else {
            let before = self.run(events.drop_last());
            let after = before.next(events.last());
            self.steps_started(events.drop_last()) + (if before.accepts(events.last())
                && after.awaits_step() {
                1nat
            } else {
                0nat
            })
        }
    }

    /// The number of model steps whose outcome was reported along a run.
    pub open spec fn steps_answered(self, events: Seq<SessionEvent>) -> nat
        decreases events.len(),
    {
        if events.len() == 0 {
            0
        } else {
            let before = self.run(events.drop_last());
            self.steps_answered(events.drop_last()) + (if before.accepts(events.last())
                && before.awaits_step() {
                1nat
            } else {
                0nat
            })
        }
    }
}

/// At no point of a run is more than one model step outstanding: the steps
/// asked for exceed the steps answered by one while the session waits for a
/// step, and by none otherwise.
pub proof fn lemma_one_step_in_flight(m: SessionModel, events: Seq<SessionEvent>)
    requires
        m.wf(),
    ensures
        m.steps_started(events) == m.steps_answered(events) + (if m.run(events).awaits_step() {
            1nat
        } else {
            0nat
        }),
    decreases events.len(),
{
    if events.len() > 0 {
        lemma_one_step_in_flight(m, events.drop_last());
        lemma_run_wf(m, events.drop_last());
    }
}

/// A session ends within a bounded number of accepted events: the number of
/// positions consumed never exceeds the sequence length, nor the number of
/// generated tokens their bound.
pub proof fn lemma_run_stays_in_bounds(m: SessionModel, events: Seq<SessionEvent>)
    requires
        m.wf(),
    ensures
        m.run(events).position <= m.limits.max_sequence_length,
        m.run(events).generated_count <= m.limits.max_generated,
        m.run(events).position >= m.position,
        m.run(events).generated_count >= m.generated_count,
        m.run(events).prompt == m.prompt,
        m.run(events).limits == m.limits,
    decreases events.len(),
{
    if events.len() > 0 {
        lemma_run_stays_in_bounds(m, events.drop_last());
        lemma_run_wf(m, events.drop_last());
        lemma_position_moves_one_per_step(m.run(events.drop_last()), events.last());
    }
}

impl SessionModel {
    /// The tokens that the sampler chose for emission along a run, in the
    /// order in which it chose them.
    pub open spec fn produced(self, events: Seq<SessionEvent>) -> Seq<usize>
        decreases events.len(),
    {
        if events.len() == 0 {
            Seq::empty()
        } else {
            let before = self.run(events.drop_last());
            match events.last() {
                SessionEvent::Sampled(token) if before.accepts(events.last()) && token
                    != self.limits.eos_token => self.produced(events.drop_last()).push(token),
                _ => self.produced(events.drop_last()),
            }
        }
    }

    /// The tokens whose fragments the sink took along a run, in the order in
    /// which it took them.
    pub open spec fn delivered(self, events: Seq<SessionEvent>) -> Seq<usize>
        decreases events.len(),
    {
        if events.len() == 0 {
            Seq::empty()
        } else {
            let before = self.run(events.drop_last());
            match events.last() {
                SessionEvent::Delivered if before.accepts(events.last()) => self.delivered(
                    events.drop_last(),
                ).push(before.pending->0),
                _ => self.delivered(events.drop_last()),
            }
        }
    }
}

/// Fragments reach the sink in the order of their production, none twice and
/// none skipped: what was delivered is what was produced, up to the one
/// fragment that may still be on its way, or that was lost when the session
/// was aborted. The count of generated tokens counts the delivered fragments.
pub proof fn lemma_delivered_in_production_order(m: SessionModel, events: Seq<SessionEvent>)
    requires
        m.wf(),
        m.pending is None,
    ensures
        m.delivered(events).len() <= m.produced(events).len() <= m.delivered(events).len() + 1,
        m.delivered(events) == m.produced(events).take(m.delivered(events).len() as int),
        m.run(events).pending matches Some(token) ==> m.produced(events)
            == m.delivered(events).push(token),
        m.run(events).awaits_step() ==> m.produced(events) == m.delivered(events),
        m.run(events).generated_count == m.generated_count + m.delivered(events).len(),
    decreases events.len(),
{
    if events.len() == 0 {
        assert(m.delivered(events) =~= m.produced(events).take(0));
    } else {
        let earlier = events.drop_last();
        lemma_delivered_in_production_order(m, earlier);
        lemma_run_wf(m, earlier);
        lemma_run_stays_in_bounds(m, earlier);
        let before = m.run(earlier);
        let produced = m.produced(earlier);
        let delivered = m.delivered(earlier);
        match events.last() {
            SessionEvent::Sampled(token) => {
                if before.accepts(events.last()) && token != m.limits.eos_token {
                    assert(produced.push(token).take(delivered.len() as int) =~= produced.take(
                        delivered.len() as int,
                    ));
                }
            },
            SessionEvent::Delivered => {
                if before.accepts(events.last()) {
                    let token = before.pending->0;
                    assert(produced.take(delivered.len() as int + 1) =~= delivered.push(token));
                }
            },
            _ => {},
        }
    }
}

} // verus!
