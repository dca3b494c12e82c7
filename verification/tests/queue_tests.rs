use local_llm_api::queue::{AdmissionError, AdmissionQueue, Dequeued};

#[test]
fn queue_serves_in_submission_order() {
    let mut q: AdmissionQueue<&'static str> = AdmissionQueue::new(10);
    assert!(q.submit("T1").is_ok());
    assert!(q.submit("T2").is_ok());
    assert!(q.submit("T3").is_ok());
    assert_eq!(q.len(), 3);
    assert_eq!(q.take(), Some("T1"));
    assert_eq!(q.take(), Some("T2"));
    assert_eq!(q.take(), Some("T3"));
    assert_eq!(q.take(), None);
}

#[test]
fn queue_full_on_one_more_than_capacity_then_free_again() {
    let mut q: AdmissionQueue<u32> = AdmissionQueue::new(10);
    for i in 0..10 {
        assert!(q.submit(i).is_ok());
    }
    assert!(q.is_full());
    let rejected = q.submit(10).unwrap_err();
    assert_eq!(rejected.reason, AdmissionError::QueueFull);
    assert_eq!(rejected.task, 10);
    assert_eq!(q.len(), 10);
    assert_eq!(q.take(), Some(0));
    assert!(q.submit(10).is_ok());
    assert_eq!(q.len(), 10);
    for i in 1..=10 {
        assert_eq!(q.take(), Some(i));
    }
    assert!(q.is_empty());
}

#[test]
fn queue_of_capacity_zero_admits_nothing() {
    let mut q: AdmissionQueue<u32> = AdmissionQueue::new(0);
    assert_eq!(q.capacity(), 0);
    assert_eq!(q.submit(1).unwrap_err().reason, AdmissionError::QueueFull);
}

#[test]
fn closed_queue_drains_then_refuses() {
    let mut q: AdmissionQueue<u32> = AdmissionQueue::new(4);
    assert!(q.submit(1).is_ok());
    assert!(q.submit(2).is_ok());
    q.close();
    assert!(q.is_closed());
    assert!(!q.is_drained());
    let rejected = q.submit(3).unwrap_err();
    assert_eq!(rejected.reason, AdmissionError::Closed);
    assert_eq!(rejected.task, 3);
    assert!(matches!(q.next(), Dequeued::Task(1)));
    assert!(matches!(q.next(), Dequeued::Task(2)));
    assert!(q.is_drained());
    assert!(matches!(q.next(), Dequeued::Drained));
}

#[test]
fn open_empty_queue_says_empty() {
    let mut q: AdmissionQueue<u32> = AdmissionQueue::new(4);
    assert!(matches!(q.next(), Dequeued::Empty));
    assert!(q.submit(9).is_ok());
    assert!(matches!(q.next(), Dequeued::Task(9)));
    assert!(matches!(q.next(), Dequeued::Empty));
}
