use local_llm_api::engine::{EngineAction, GenerationEngine};
use local_llm_api::entities;
use local_llm_api::entities::Timestamp;
use local_llm_api::queue::{AdmissionError, AdmissionQueue};
use local_llm_api::session::{Phase, SessionEnd, SessionEvent, SessionLimits};
use local_llm_api::stream::{BridgeStage, StreamBridge};
use uuid::Uuid;

fn limits() -> SessionLimits {
    SessionLimits { eos_token: 0, max_generated: 32, max_sequence_length: 128 }
}

#[test]
fn engine_begins_tasks_in_submission_order() {
    let mut queue: AdmissionQueue<&'static str> = AdmissionQueue::new(10);
    let mut engine: GenerationEngine<&'static str> = GenerationEngine::new(limits());
    for task in ["T1", "T2", "T3"] {
        assert!(queue.submit(task).is_ok());
    }
    let mut begun = Vec::new();
    for _ in 0..3 {
        assert_eq!(engine.action(), EngineAction::Dequeue);
        assert!(engine.poll(&mut queue));
        assert_eq!(engine.action(), EngineAction::Tokenize);
        begun.push(*engine.task().unwrap());
        assert!(engine.begin(vec![5]));
        assert_eq!(engine.action(), EngineAction::Step { token: 5, position: 0, sample: true });
        assert!(engine.advance(SessionEvent::Sampled(0)));
        assert_eq!(engine.action(), EngineAction::Release { end: Some(SessionEnd::EndOfSequence) });
        assert!(engine.release().is_some());
    }
    assert_eq!(begun, vec!["T1", "T2", "T3"]);
    assert!(!engine.poll(&mut queue));
    assert_eq!(engine.action(), EngineAction::Dequeue);
}

#[test]
fn engine_holds_one_task_while_queue_fills_up() {
    let mut queue: AdmissionQueue<u32> = AdmissionQueue::new(2);
    let mut engine: GenerationEngine<u32> = GenerationEngine::new(limits());
    assert!(queue.submit(1).is_ok());
    assert!(engine.poll(&mut queue));
    assert!(engine.begin(vec![5, 6]));
    assert!(queue.submit(2).is_ok());
    assert!(queue.submit(3).is_ok());
    assert_eq!(queue.submit(4).unwrap_err().reason, AdmissionError::QueueFull);
    assert!(!engine.poll(&mut queue));
    assert_eq!(queue.len(), 2);
    assert!(engine.release().is_none());
    assert_eq!(engine.task(), Some(&1));
    assert!(engine.advance(SessionEvent::StepFailed));
    assert_eq!(engine.release(), Some(1));
    assert!(engine.poll(&mut queue));
    assert_eq!(engine.task(), Some(&2));
    assert!(queue.submit(4).is_ok());
}

#[test]
fn engine_releases_task_whose_prompt_has_no_tokens() {
    let mut queue: AdmissionQueue<u32> = AdmissionQueue::new(2);
    let mut engine: GenerationEngine<u32> = GenerationEngine::new(limits());
    assert!(queue.submit(1).is_ok());
    assert!(queue.submit(2).is_ok());
    assert!(engine.poll(&mut queue));
    assert!(!engine.begin(vec![]));
    assert_eq!(engine.action(), EngineAction::Release { end: None });
    assert!(engine.session().is_none());
    assert!(!engine.advance(SessionEvent::Stepped));
    assert_eq!(engine.release(), Some(1));
    assert!(engine.poll(&mut queue));
    assert_eq!(engine.task(), Some(&2));
}

#[test]
fn engine_stops_when_queue_is_closed_and_drained() {
    let mut queue: AdmissionQueue<u32> = AdmissionQueue::new(2);
    let mut engine: GenerationEngine<u32> = GenerationEngine::new(limits());
    assert!(queue.submit(1).is_ok());
    queue.close();
    assert!(engine.poll(&mut queue));
    assert!(engine.begin(vec![5]));
    assert!(engine.advance(SessionEvent::Sampled(0)));
    assert_eq!(engine.release(), Some(1));
    assert!(!engine.poll(&mut queue));
    assert_eq!(engine.action(), EngineAction::Stop);
    assert!(!engine.poll(&mut queue));
    assert!(!engine.begin(vec![1]));
    assert_eq!(engine.action(), EngineAction::Stop);
    assert_eq!(engine.limits(), limits());
}

#[test]
fn engine_ignores_what_does_not_fit_its_state() {
    let mut engine: GenerationEngine<u32> = GenerationEngine::new(limits());
    assert!(!engine.begin(vec![1, 2]));
    assert!(!engine.advance(SessionEvent::Stepped));
    assert!(engine.release().is_none());
    assert_eq!(engine.action(), EngineAction::Dequeue);
    assert!(engine.task().is_none());
}

/// A stand-in for the model and the tokenizer: token `1` ends the sequence,
/// `10` decodes to "He", `11` to "llo"; the sampler's choices are scripted.
struct StubBackend {
    script: Vec<usize>,
    steps: Vec<(usize, usize)>,
    in_flight: usize,
    most_in_flight: usize,
}

impl StubBackend {
    fn new(script: Vec<usize>) -> StubBackend {
        StubBackend { script, steps: Vec::new(), in_flight: 0, most_in_flight: 0 }
    }

    fn step(&mut self, token: usize, position: usize, sample: bool) -> SessionEvent {
        self.in_flight += 1;
        self.most_in_flight = self.most_in_flight.max(self.in_flight);
        self.steps.push((token, position));
        let event =
            if sample { SessionEvent::Sampled(self.script.remove(0)) } else { SessionEvent::Stepped };
        self.in_flight -= 1;
        event
    }

    fn decode(token: usize) -> String {
        match token {
            10 => "He".to_string(),
            11 => "llo".to_string(),
            other => format!("<{}>", other),
        }
    }
}

struct Task {
    prompt_tokens: Vec<usize>,
    sink: Vec<String>,
    closes_after: Option<usize>,
}

fn serve(
    engine: &mut GenerationEngine<Task>,
    queue: &mut AdmissionQueue<Task>,
    backend: &mut StubBackend,
) -> Vec<(Task, Option<SessionEnd>, Vec<Phase>)> {
    let mut finished = Vec::new();
    let mut phases = Vec::new();
    let mut sink: Vec<String> = Vec::new();
    loop {
        if let Some(session) = engine.session() {
            phases.push(session.phase());
        }
        match engine.action() {
            EngineAction::Dequeue => {
                if !engine.poll(queue) && engine.action() == EngineAction::Dequeue {
                    break;
                }
            }
            EngineAction::Tokenize => {
                let tokens = engine.task().unwrap().prompt_tokens.clone();
                engine.begin(tokens);
            }
            EngineAction::Step { token, position, sample } => {
                let event = backend.step(token, position, sample);
                assert!(engine.advance(event));
            }
            EngineAction::Emit { token } => {
                let closed = engine.task().unwrap().closes_after == Some(sink.len());
                if closed {
                    assert!(engine.advance(SessionEvent::SinkClosed));
                } else {
                    sink.push(StubBackend::decode(token));
                    assert!(engine.advance(SessionEvent::Delivered));
                }
            }
            EngineAction::Release { end } => {
                let mut task = engine.release().unwrap();
                task.sink = std::mem::take(&mut sink);
                finished.push((task, end, std::mem::take(&mut phases)));
            }
            EngineAction::Stop => break,
        }
    }
    finished
}

fn stored_user_message(text: &str) -> entities::Message {
    entities::Message {
        id: Uuid::new_v4(),
        conversation_id: Uuid::new_v4(),
        kind: entities::MessageKind::User,
        created_at: Timestamp { secs: 1_700_000_000, nanos: 0 },
        text: text.to_string(),
    }
}

#[test]
fn end_to_end_hi_gives_he_llo_and_stores_hello() {
    let mut queue: AdmissionQueue<Task> = AdmissionQueue::new(10);
    let mut engine: GenerationEngine<Task> =
        GenerationEngine::new(SessionLimits { eos_token: 1, max_generated: 32, max_sequence_length: 128 });
    let mut backend = StubBackend::new(vec![10, 11, 1]);
    let (mut bridge, first) = StreamBridge::begin(stored_user_message("Hi"));
    assert_eq!(first.text, "Hi");

    let task = Task { prompt_tokens: vec![7, 8, 9], sink: Vec::new(), closes_after: None };
    assert!(queue.submit(task).is_ok());
    queue.close();
    let mut finished = serve(&mut engine, &mut queue, &mut backend);
    assert_eq!(finished.len(), 1);
    let (task, end, phases) = finished.remove(0);
    assert_eq!(end, Some(SessionEnd::EndOfSequence));
    assert_eq!(task.sink, vec!["He".to_string(), "llo".to_string()]);
    assert_eq!(backend.steps, vec![(7, 0), (8, 1), (9, 2), (10, 3), (11, 4)]);
    assert_eq!(backend.most_in_flight, 1);

    let first_decode = phases.iter().position(|p| *p == Phase::Decode).unwrap();
    let first_done = phases.iter().position(|p| *p == Phase::Done).unwrap();
    assert!(phases[..first_decode].iter().all(|p| *p == Phase::Prefill));
    assert!(phases[first_decode..first_done].iter().all(|p| *p == Phase::Decode));
    assert!(phases[first_done..].iter().all(|p| *p == Phase::Done));
    assert_eq!(first_decode, 3);

    let mut streamed = Vec::new();
    for fragment in task.sink {
        streamed.push(bridge.relay(fragment).unwrap().message_part);
    }
    assert_eq!(streamed, vec!["He".to_string(), "llo".to_string()]);
    let request = bridge.close(end.unwrap()).unwrap();
    assert_eq!(request.text, "Hello");
    assert_eq!(request.kind, entities::MessageKind::Bot);
    assert_eq!(request.message_id, bridge.message_id());
    assert_eq!(bridge.persisted(true), Ok(()));
    assert_eq!(bridge.stage(), BridgeStage::Completed);
    assert_eq!(engine.action(), EngineAction::Stop);
}

#[test]
fn end_to_end_consumer_leaves_after_first_fragment() {
    let mut queue: AdmissionQueue<Task> = AdmissionQueue::new(10);
    let mut engine: GenerationEngine<Task> =
        GenerationEngine::new(SessionLimits { eos_token: 1, max_generated: 32, max_sequence_length: 128 });
    let mut backend = StubBackend::new(vec![10, 11, 10, 1]);
    let (mut bridge, _first) = StreamBridge::begin(stored_user_message("Hi"));

    assert!(queue
        .submit(Task { prompt_tokens: vec![7], sink: Vec::new(), closes_after: Some(1) })
        .is_ok());
    assert!(queue
        .submit(Task { prompt_tokens: vec![8], sink: Vec::new(), closes_after: None })
        .is_ok());
    queue.close();
    let finished = serve(&mut engine, &mut queue, &mut backend);
    assert_eq!(finished.len(), 2);

    let (first_task, first_end, first_phases) = &finished[0];
    assert_eq!(*first_end, Some(SessionEnd::ConsumerGone));
    assert_eq!(first_task.sink, vec!["He".to_string()]);
    assert_eq!(first_phases.last(), Some(&Phase::Aborted));
    assert_eq!(&backend.steps[..2], &[(7, 0), (10, 1)]);
    assert_eq!(backend.steps[2], (8, 0));

    assert!(bridge.relay("He".to_string()).is_some());
    assert!(bridge.close(first_end.unwrap()).is_none());
    assert_eq!(bridge.stage(), BridgeStage::Abandoned);

    let (second_task, second_end, _) = &finished[1];
    assert_eq!(*second_end, Some(SessionEnd::EndOfSequence));
    assert_eq!(second_task.sink, vec!["He".to_string()]);
    assert_eq!(backend.most_in_flight, 1);
}
