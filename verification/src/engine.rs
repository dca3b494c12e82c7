//! The worker: it owns the model, takes one task at a time from the admission
//! queue and runs its session to the end before it looks for the next.
//!
//! Like a session, the engine does none of the outside work itself. It says
//! what is to be done ([`GenerationEngine::action`]) and takes in what came of
//! it. It holds at most one task and at most one session at any time.

use crate::queue::{AdmissionQueue, Dequeued, QueueModel};
use crate::session::{
    GenerationSession, SessionAction, SessionEnd, SessionEvent, SessionLimits, SessionModel,
};
use vstd::prelude::*;

verus! {

/// What the driver of the engine has to do next.
#[derive(Clone, Copy, Debug, PartialEq, Eq, Structural)]
pub enum EngineAction {
    /// No task is held: look into the queue, waiting where it is empty.
    Dequeue,
    /// A task was taken: turn its prompt into tokens and hand them in.
    Tokenize,
    /// Run one model step, as the session of the task asks.
    Step { token: usize, position: usize, sample: bool },
    /// Push one fragment, as the session of the task asks.
    Emit { token: usize },
    /// The task is finished: close its sink and let go of it. `end` says how
    /// its session ended, and is `None` where its prompt gave no session.
    Release { end: Option<SessionEnd> },
    /// The queue was closed and is empty: the worker's loop ends.
    Stop,
}

/// What the engine holds.
pub enum SlotModel<T> {
    Idle,
    /// A task whose prompt is being turned into tokens.
    Preparing(T),
    /// A task and its session.
    Running(T, SessionModel),
    /// A task whose prompt gave no session.
    Refused(T),
    Stopped,
}

/// The mathematical state of the engine.
pub struct EngineModel<T> {
    pub limits: SessionLimits,
    pub slot: SlotModel<T>,
}

impl<T> EngineModel<T> {
    pub open spec fn idle(limits: SessionLimits) -> EngineModel<T> {
        EngineModel { limits, slot: SlotModel::Idle }
    }

    pub open spec fn wf(self) -> bool {
        self.slot matches SlotModel::Running(_, session) ==> session.wf() && session.limits
            == self.limits
    }

    /// The task that the engine holds, if it holds one.
    pub open spec fn task(self) -> Option<T> {
        match self.slot {
            SlotModel::Preparing(task) | SlotModel::Running(task, _) | SlotModel::Refused(
                task,
            ) => Some(task),
            _ => None,
        }
    }

    /// The session of the task that the engine holds, if it has one.
    pub open spec fn session(self) -> Option<SessionModel> {
        match self.slot {
            SlotModel::Running(_, session) => Some(session),
            _ => None,
        }
    }

    /// The number of model steps that are outstanding: one while the session
    /// of the held task waits for a step, and none otherwise.
    pub open spec fn steps_outstanding(self) -> nat {
        match self.slot {
            SlotModel::Running(_, session) if session.awaits_step() => 1,
            _ => 0,
        }
    }

    /// What the driver has to do in this state.
    pub open spec fn action(self) -> EngineAction {
        match self.slot {
            SlotModel::Idle => EngineAction::Dequeue,
            SlotModel::Preparing(_) => EngineAction::Tokenize,
            SlotModel::Running(_, session) => match session.action() {
                SessionAction::Step { token, position, sample } => EngineAction::Step {
                    token,
                    position,
                    sample,
                },
                SessionAction::Emit { token } => EngineAction::Emit { token },
                SessionAction::Finish { end } => EngineAction::Release { end: Some(end) },
            },
            SlotModel::Refused(_) => EngineAction::Release { end: None },
            SlotModel::Stopped => EngineAction::Stop,
        }
    }

    /// The engine after a look into the queue: an idle engine takes the oldest
    /// pending task, stops at a queue that is drained, and stays idle at one
    /// that is only empty. An engine that is not idle does not look.
    pub open spec fn poll(self, queue: QueueModel<T>) -> EngineModel<T> {
        match self.slot {
            SlotModel::Idle => match queue.front() {
                Some(task) => EngineModel { slot: SlotModel::Preparing(task), ..self },
                None => if queue.closed {
                    EngineModel { slot: SlotModel::Stopped, ..self }
                } else {
                    self
                },
            },
            _ => self,
        }
    }

    /// The queue after the engine's look into it.
    pub open spec fn polled(self, queue: QueueModel<T>) -> QueueModel<T> {
        match self.slot {
            SlotModel::Idle => queue.take(),
            _ => queue,
        }
    }

    /// A prompt of these tokens gives a session under the engine's bounds.
    pub open spec fn gives_session(self, prompt: Seq<usize>) -> bool {
        prompt.len() >= 1 && self.limits.max_generated >= 1 && self.limits.max_sequence_length
            >= 1
    }

    /// The engine after the tokens of the held task's prompt came in.
    pub open spec fn begin(self, prompt: Seq<usize>) -> EngineModel<T> {
        match self.slot {
            SlotModel::Preparing(task) => if self.gives_session(prompt) {
                EngineModel {
                    slot: SlotModel::Running(task, SessionModel::initial(prompt, self.limits)),
                    ..self
                }
            } else {
                EngineModel { slot: SlotModel::Refused(task), ..self }
            },
            _ => self,
        }
    }

    /// The engine after an event was reported to the session of the held task.
    pub open spec fn advance(self, event: SessionEvent) -> EngineModel<T> {
        match self.slot {
            SlotModel::Running(task, session) => EngineModel {
                slot: SlotModel::Running(task, session.next(event)),
                ..self
            },
            _ => self,
        }
    }

    /// The held task is finished and can be let go.
    pub open spec fn releasable(self) -> bool {
        match self.slot {
            SlotModel::Running(_, session) => session.is_terminal(),
            SlotModel::Refused(_) => true,
            _ => false,
        }
    }

    /// The engine after letting go of a finished task.
    pub open spec fn release(self) -> EngineModel<T> {
        if self.releasable() {
            EngineModel { slot: SlotModel::Idle, ..self }
        } else {
            self
        }
    }
}

enum Slot<T> {
    Idle,
    Preparing(T),
    Running(T, GenerationSession),
    Refused(T),
    Stopped,
}

/// The worker's state: the bounds of every session, and the task in hand.
pub struct GenerationEngine<T> {
    limits: SessionLimits,
    slot: Slot<T>,
}

impl<T> View for GenerationEngine<T> {
    type V = EngineModel<T>;

    closed spec fn view(&self) -> EngineModel<T> {
        EngineModel {
            limits: self.limits,
            slot: match self.slot {
                Slot::Idle => SlotModel::Idle,
                Slot::Preparing(task) => SlotModel::Preparing(task),
                Slot::Running(task, session) => SlotModel::Running(task, session@),
                Slot::Refused(task) => SlotModel::Refused(task),
                Slot::Stopped => SlotModel::Stopped,
            },
        }
    }
}

impl<T> GenerationEngine<T> {
    /// An idle engine whose sessions run under the given bounds.
    pub fn new(limits: SessionLimits) -> (engine: GenerationEngine<T>)
        ensures
            engine@ == EngineModel::<T>::idle(limits),
            engine@.wf(),
    {
        GenerationEngine { limits, slot: Slot::Idle }
    }

    pub fn limits(&self) -> (limits: SessionLimits)
        ensures
            limits == self@.limits,
    {
        self.limits
    }

    /// The task in hand, if there is one.
    pub fn task(&self) -> (task: Option<&T>)
        ensures
            match self@.task() {
                Some(held) => task == Some(&held),
                None => task is None,
            },
    {
        match &self.slot {
            Slot::Preparing(task) => Some(task),
            Slot::Running(task, _) => Some(task),
            Slot::Refused(task) => Some(task),
            _ => None,
        }
    }

    /// The session of the task in hand, if it has one.
    pub fn session(&self) -> (session: Option<&GenerationSession>)
        ensures
            match self@.session() {
                Some(running) => session matches Some(s) && s@ == running,
                None => session is None,
            },
    {
        match &self.slot {
            Slot::Running(_, session) => Some(session),
            _ => None,
        }
    }

    /// What the driver has to do now. The answer does not change until the
    /// engine takes something in.
    pub fn action(&self) -> (action: EngineAction)
        requires
            self@.wf(),
        ensures
            action == self@.action(),
    {
        match &self.slot {
            Slot::Idle => EngineAction::Dequeue,
            Slot::Preparing(_) => EngineAction::Tokenize,
            Slot::Running(_, session) => match session.action() {
                SessionAction::Step { token, position, sample } => EngineAction::Step {
                    token,
                    position,
                    sample,
                },
                SessionAction::Emit { token } => EngineAction::Emit { token },
                SessionAction::Finish { end } => EngineAction::Release { end: Some(end) },
            },
            Slot::Refused(_) => EngineAction::Release { end: None },
            Slot::Stopped => EngineAction::Stop,
        }
    }

    /// Looks into the queue for the next task. Only an idle engine does; it
    /// takes the oldest pending task and so never holds two.
    pub fn poll(&mut self, queue: &mut AdmissionQueue<T>) -> (taken: bool)
        requires
            old(self)@.wf(),
            old(queue)@.wf(),
        ensures
            final(self)@ == old(self)@.poll(old(queue)@),
            final(queue)@ == old(self)@.polled(old(queue)@),
            final(self)@.wf(),
            final(queue)@.wf(),
            taken == (old(self)@.slot is Idle && old(queue)@.front() is Some),
    {
        match &self.slot {
            Slot::Idle => {
                match queue.next() {
                    Dequeued::Task(task) => {
                        self.slot = Slot::Preparing(task);
                        true
                    },
                    Dequeued::Empty => false,
                    Dequeued::Drained => {
                        self.slot = Slot::Stopped;
                        false
                    },
                }
            },
            _ => false,
        }
    }

    /// Takes in the tokens of the prompt of the task in hand and starts its
    /// session. A prompt without tokens gives no session: the task is then to
    /// be released at once.
    pub fn begin(&mut self, prompt_tokens: Vec<usize>) -> (started: bool)
        requires
            old(self)@.wf(),
        ensures
            final(self)@ == old(self)@.begin(prompt_tokens@),
            final(self)@.wf(),
            started == (old(self)@.slot is Preparing && old(self)@.gives_session(
                prompt_tokens@,
            )),
    {
        let mut slot = Slot::Idle;
        std::mem::swap(&mut self.slot, &mut slot);
        match slot {
            Slot::Preparing(task) => {
                match GenerationSession::new(prompt_tokens, self.limits) {
                    Some(session) => {
                        self.slot = Slot::Running(task, session);
                        true
                    },
                    None => {
                        self.slot = Slot::Refused(task);
                        false
                    },
                }
            },
            other => {
                self.slot = other;
                false
            },
        }
    }

    /// Reports an event to the session of the task in hand.
    pub fn advance(&mut self, event: SessionEvent) -> (accepted: bool)
        requires
            old(self)@.wf(),
        ensures
            final(self)@ == old(self)@.advance(event),
            final(self)@.wf(),
            accepted == match old(self)@.session() {
                Some(session) => session.accepts(event),
                None => false,
            },
    {
        let mut slot = Slot::Idle;
        std::mem::swap(&mut self.slot, &mut slot);
        match slot {
            Slot::Running(task, session) => {
                let mut session = session;
                let accepted = session.advance(event);
                self.slot = Slot::Running(task, session);
                accepted
            },
            other => {
                self.slot = other;
                false
            },
        }
    }

    /// Lets go of the task in hand once it is finished, however its session
    /// ended: the engine is idle again and free for the next task.
    pub fn release(&mut self) -> (task: Option<T>)
        requires
            old(self)@.wf(),
        ensures
            final(self)@ == old(self)@.release(),
            final(self)@.wf(),
            task == (if old(self)@.releasable() {
                old(self)@.task()
            } else {
                None
            }),
    {
        let mut slot = Slot::Idle;
        std::mem::swap(&mut self.slot, &mut slot);
        match slot {
            Slot::Running(task, session) => {
                if session.is_terminal() {
                    Some(task)
                } else {
                    self.slot = Slot::Running(task, session);
                    None
                }
            },
            Slot::Refused(task) => Some(task),
            other => {
                self.slot = other;
                None
            },
        }
    }
}

/// One thing that can happen to the queue and the engine together.
pub enum ServingOp<T> {
    /// A caller submits a task.
    Submit(T),
    /// The queue is closed.
    Close,
    /// The worker looks into the queue.
    Poll,
    /// The tokens of the held task's prompt come in.
    Begin(Seq<usize>),
    /// An event is reported to the session of the held task.
    Report(SessionEvent),
    /// The worker lets go of a finished task.
    Release,
}

/// The admission queue and the engine that serves it.
pub struct ServingModel<T> {
    pub queue: QueueModel<T>,
    pub engine: EngineModel<T>,
}

impl<T> ServingModel<T> {
    pub open spec fn wf(self) -> bool {
        self.queue.wf() && self.engine.wf()
    }

    pub open spec fn apply(self, op: ServingOp<T>) -> ServingModel<T> {
        match op {
            ServingOp::Submit(task) => ServingModel { queue: self.queue.submit(task), ..self },
            ServingOp::Close => ServingModel { queue: self.queue.close(), ..self },
            ServingOp::Poll => ServingModel {
                queue: self.engine.polled(self.queue),
                engine: self.engine.poll(self.queue),
            },
            ServingOp::Begin(prompt) => ServingModel { engine: self.engine.begin(prompt), ..self },
            ServingOp::Report(event) => ServingModel {
                engine: self.engine.advance(event),
                ..self
            },
            ServingOp::Release => ServingModel { engine: self.engine.release(), ..self },
        }
    }

    /// The queue and the engine after a sequence of happenings.
    pub open spec fn run(self, ops: Seq<ServingOp<T>>) -> ServingModel<T>
        decreases ops.len(),
    {
        if ops.len() == 0 {
            self
        } else {
            self.run(ops.drop_last()).apply(ops.last())
        }
    }

    /// The tasks admitted up to the end of a run, in the order in which they
    /// were submitted, those pending at its start first.
    pub open spec fn admitted(self, ops: Seq<ServingOp<T>>) -> Seq<T>
        decreases ops.len(),
    {
        if ops.len() == 0 {
            self.queue.items
        } else {
            let before = self.run(ops.drop_last());
            match ops.last() {
                ServingOp::Submit(task) if before.queue.admits() => self.admitted(
                    ops.drop_last(),
                ).push(task),
                _ => self.admitted(ops.drop_last()),
            }
        }
    }

    /// The tasks that the worker took in hand during a run, in the order in
    /// which it did.
    pub open spec fn begun(self, ops: Seq<ServingOp<T>>) -> Seq<T>
        decreases ops.len(),
    {
        if ops.len() == 0 {
            Seq::empty()
        } else {
            let before = self.run(ops.drop_last());
            match ops.last() {
                ServingOp::Poll if before.engine.slot is Idle && before.queue.items.len()
                    > 0 => self.begun(ops.drop_last()).push(before.queue.items[0]),
                _ => self.begun(ops.drop_last()),
            }
        }
    }

    /// The number of model steps asked for up to the end of a run.
    pub open spec fn steps_started(self, ops: Seq<ServingOp<T>>) -> nat
        decreases ops.len(),
    {
        if ops.len() == 0 {
            self.engine.steps_outstanding()
        } else {
            let before = self.run(ops.drop_last()).engine;
            let after = self.run(ops).engine;
            self.steps_started(ops.drop_last()) + (match ops.last() {
                ServingOp::Begin(_) if before.slot is Preparing => after.steps_outstanding(),
                ServingOp::Report(event) if before.session() matches Some(session)
                    && session.accepts(event) => after.steps_outstanding(),
                _ => 0nat,
            })
        }
    }

    /// The number of model steps whose outcome was reported up to the end of
    /// a run.
    pub open spec fn steps_answered(self, ops: Seq<ServingOp<T>>) -> nat
        decreases ops.len(),
    {
        if ops.len() == 0 {
            0
        } else {
            let before = self.run(ops.drop_last()).engine;
            self.steps_answered(ops.drop_last()) + (match ops.last() {
                ServingOp::Report(event) if before.session() matches Some(session)
                    && session.accepts(event) => before.steps_outstanding(),
                _ => 0nat,
            })
        }
    }
}

/// Nothing that happens takes the queue over its bound or the engine out of
/// its well-formed states.
pub proof fn lemma_serving_wf<T>(m: ServingModel<T>, ops: Seq<ServingOp<T>>)
    requires
        m.wf(),
    ensures
        m.run(ops).wf(),
        m.run(ops).engine.limits == m.engine.limits,
    decreases ops.len(),
{
    if ops.len() > 0 {
        lemma_serving_wf(m, ops.drop_last());
        let before = m.run(ops.drop_last());
        match ops.last() {
            ServingOp::Report(event) => {
                if let SlotModel::Running(_, session) = before.engine.slot {
                    crate::session::lemma_next_wf(session, event);
                    crate::session::lemma_position_moves_one_per_step(session, event);
                }
            },
            _ => {},
        }
    }
}

/// Sessions begin in the order of submission, whatever the interleaving of
/// submissions with the worker's progress: the tasks admitted so far, in the
/// order in which they were submitted, are the tasks that the worker took in
/// hand, in the order in which it did, followed by the tasks still pending.
/// None is lost, none served twice, none overtaken.
pub proof fn lemma_sessions_begin_in_submission_order<T>(
    m: ServingModel<T>,
    ops: Seq<ServingOp<T>>,
)
    ensures
        m.admitted(ops) == m.begun(ops) + m.run(ops).queue.items,
    decreases ops.len(),
{
    if ops.len() == 0 {
        assert(m.queue.items =~= Seq::<T>::empty() + m.queue.items);
    } else {
        lemma_sessions_begin_in_submission_order(m, ops.drop_last());
        let before = m.run(ops.drop_last());
        let begun = m.begun(ops.drop_last());
        let items = before.queue.items;
        match ops.last() {
            ServingOp::Submit(task) => {
                if before.queue.admits() {
                    assert((begun + items).push(task) =~= begun + items.push(task));
                }
            },
            ServingOp::Poll => {
                if before.engine.slot is Idle && items.len() > 0 {
                    assert(begun + items =~= begun.push(items[0]) + items.subrange(
                        1,
                        items.len() as int,
                    ));
                }
            },
            _ => {},
        }
    }
}

/// No two model steps are ever outstanding at once, however many tasks are
/// submitted and whatever is reported: the steps asked for exceed the steps
/// answered by exactly the one that the engine waits for, if it waits for one.
pub proof fn lemma_steps_never_overlap<T>(m: ServingModel<T>, ops: Seq<ServingOp<T>>)
    requires
        m.wf(),
    ensures
        m.steps_started(ops) == m.steps_answered(ops) + m.run(ops).engine.steps_outstanding(),
        m.run(ops).engine.steps_outstanding() <= 1,
        m.run(ops).engine.steps_outstanding() == 1 <==> m.run(ops).engine.action() is Step,
    decreases ops.len(),
{
    lemma_serving_wf(m, ops);
    if ops.len() > 0 {
        lemma_steps_never_overlap(m, ops.drop_last());
        lemma_serving_wf(m, ops.drop_last());
    }
}

/// A session that has ended, done or aborted, never holds the worker up: the
/// task can be released, the engine is idle after that, and its next look
/// into a queue with pending tasks takes the oldest of them in hand.
pub proof fn lemma_worker_moves_on<T>(engine: EngineModel<T>, queue: QueueModel<T>)
    requires
        engine.wf(),
        engine.session() matches Some(session) && session.is_terminal(),
        queue.items.len() > 0,
    ensures
        engine.action() is Release,
        engine.steps_outstanding() == 0,
        engine.release().slot is Idle,
        engine.release().poll(queue).slot == SlotModel::Preparing(queue.items[0]),
        engine.release().poll(queue).action() == EngineAction::Tokenize,
{
}

} // verus!
