use natebot::queue::{
    changed_any, AddStep, EncodedQueueItem, JobOutcome, ListEnd, ListenAction, PollAction, PollEvent,
    PollOutcome, QueueItem, QueueListener, QueuePoll, QueueSender, RedisQueueBroker,
    ScheduledJob, SendableJob, WorkQueue, TASK_MAX_RETRIES, TASK_TIMEOUT_SECS,
};

fn queue() -> WorkQueue {
    WorkQueue::new("work_queue")
}

#[test]
fn work_queue_keys() {
    let q = queue();
    assert_eq!(q.main_queue_key, "work_queue:queue");
    assert_eq!(q.processing_key, "work_queue:processing");
    assert_eq!(q.item_data_key, "work_queue:item");
    assert_eq!(q.item_key("PatchScraper"), "work_queue:item:PatchScraper");
    let c = q.complete_request("job");
    assert_eq!(c.data_key, "work_queue:item:job");
    assert_eq!(c.main_queue_key, "work_queue:queue");
    assert_eq!(c.processing_key, "work_queue:processing");
    assert_eq!(c.item_id, "job");
}

#[test]
fn attempts_stop_at_max_retries() {
    let mut item = QueueItem::new(SendableJob::PatchScraper, "PatchScraper".to_string(), 2, 60);
    assert_eq!(item.current_attempt, 0);
    assert!(item.increment_attempt());
    assert!(item.increment_attempt());
    assert!(!item.increment_attempt());
    assert_eq!(item.current_attempt, 2);
    let mut none = QueueItem::new((), "x".to_string(), 0, 1);
    assert!(!none.increment_attempt());
    assert_eq!(none.current_attempt, 0);
}

#[test]
fn encoded_item_keeps_bytes() {
    let e = EncodedQueueItem::from_bytes(vec![1, 2, 3], "id".to_string());
    assert_eq!(e.id, "id");
    assert_eq!(e.data_bytes, vec![1, 2, 3]);
}

fn item(attempt: usize, max: usize) -> QueueItem<u32> {
    let mut it = QueueItem::new(7u32, "job".to_string(), max, 30);
    it.current_attempt = attempt;
    it
}

#[test]
fn poll_hands_out_a_counted_item() {
    let (mut poll, first) = QueuePoll::<u32>::start(queue());
    assert!(matches!(first, PollAction::QueryProcessingLen { ref key } if key == "work_queue:processing"));
    let a = poll.step(PollEvent::ProcessingLen(0));
    assert!(matches!(a, PollAction::MoveToProcessing { ref from, from_end: ListEnd::Right, ref to, to_end: ListEnd::Left } if from == "work_queue:queue" && to == "work_queue:processing"));
    let a = poll.step(PollEvent::Moved(true));
    assert!(matches!(a, PollAction::PopProcessing { ref key, end: ListEnd::Right } if key == "work_queue:processing"));
    let a = poll.step(PollEvent::Popped(Some("job".to_string())));
    assert!(matches!(a, PollAction::FetchItem { ref key } if key == "work_queue:item:job"));
    let a = poll.step(PollEvent::Decoded(item(0, 2)));
    let stored = match a {
        PollAction::StoreItem { key, item } => {
            assert_eq!(key, "work_queue:item:job");
            assert_eq!(item.current_attempt, 1);
            item
        }
        _ => panic!("expected a store"),
    };
    let a = poll.step(PollEvent::Stored(true, stored));
    assert!(matches!(a, PollAction::Requeue { ref key, ref item_id, end: ListEnd::Left } if key == "work_queue:processing" && item_id == "job"));
    match poll.step(PollEvent::Requeued(1)) {
        PollAction::ReturnItem(it) => {
            assert_eq!(it.current_attempt, 1);
            assert_eq!(it.data, 7);
        }
        _ => panic!("expected an item"),
    }
}

#[test]
fn poll_gives_up_when_nothing_arrives() {
    let (mut poll, _) = QueuePoll::<u32>::start(queue());
    let _ = poll.step(PollEvent::ProcessingLen(0));
    assert!(matches!(poll.step(PollEvent::Moved(false)), PollAction::ReturnNone));
    let (mut poll, _) = QueuePoll::<u32>::start(queue());
    assert!(matches!(poll.step(PollEvent::ProcessingLen(3)), PollAction::PopProcessing { .. }));
    assert!(matches!(poll.step(PollEvent::Popped(None)), PollAction::ReturnNone));
}

#[test]
fn poll_deletes_exhausted_items_and_starts_over() {
    let (mut poll, _) = QueuePoll::<u32>::start(queue());
    let _ = poll.step(PollEvent::ProcessingLen(1));
    let _ = poll.step(PollEvent::Popped(Some("job".to_string())));
    let a = poll.step(PollEvent::Decoded(item(2, 2)));
    assert!(matches!(a, PollAction::DeleteItem { ref key } if key == "work_queue:item:job"));
    assert!(matches!(poll.step(PollEvent::Deleted(1)), PollAction::QueryProcessingLen { .. }));
    // missing data also starts over
    let _ = poll.step(PollEvent::ProcessingLen(1));
    let _ = poll.step(PollEvent::Popped(Some("gone".to_string())));
    assert!(matches!(poll.step(PollEvent::Missing), PollAction::QueryProcessingLen { .. }));
}

#[test]
fn poll_starts_over_when_store_or_requeue_fails() {
    let (mut poll, _) = QueuePoll::<u32>::start(queue());
    let _ = poll.step(PollEvent::ProcessingLen(1));
    let _ = poll.step(PollEvent::Popped(Some("job".to_string())));
    let stored = match poll.step(PollEvent::Decoded(item(0, 1))) {
        PollAction::StoreItem { item, .. } => item,
        _ => panic!("expected a store"),
    };
    assert!(!poll.expects(&PollEvent::Requeued(1)));
    assert!(matches!(poll.step(PollEvent::Stored(false, stored)), PollAction::QueryProcessingLen { .. }));
    let _ = poll.step(PollEvent::ProcessingLen(1));
    let _ = poll.step(PollEvent::Popped(Some("job".to_string())));
    let stored = match poll.step(PollEvent::Decoded(item(0, 1))) {
        PollAction::StoreItem { item, .. } => item,
        _ => panic!("expected a store"),
    };
    let _ = poll.step(PollEvent::Stored(true, stored));
    assert!(matches!(poll.step(PollEvent::Requeued(0)), PollAction::QueryProcessingLen { .. }));
}

#[test]
fn adding_items() {
    let q = queue();
    assert!(matches!(q.after_set(false, "job"), AddStep::Finish(false)));
    match q.after_set(true, "job") {
        AddStep::PushToMain { key, item_id, end } => {
            assert_eq!(end, ListEnd::Left);
            assert_eq!(key, "work_queue:queue");
            assert_eq!(item_id, "job");
        }
        _ => panic!("expected a push"),
    }
    assert!(changed_any(1));
    assert!(!changed_any(0));
}

#[test]
fn sender_and_broker() {
    assert!(RedisQueueBroker::new("not a url".to_string()).is_err());
    let b = RedisQueueBroker::new("redis://127.0.0.1:6379/".to_string()).ok().unwrap();
    assert_eq!(b.work_queue.main_queue_key, "work_queue:queue");
    let s = QueueSender::new("redis://127.0.0.1/".to_string()).ok().unwrap();
    assert_eq!((s.max_retries, s.timeout_secs), (TASK_MAX_RETRIES, TASK_TIMEOUT_SECS));
    let it = s.job_item(&SendableJob::PatchScraper);
    assert_eq!(it.id, "PatchScraper");
    assert_eq!(it.data, SendableJob::PatchScraper);
    assert_eq!((it.max_retries, it.current_attempt, it.timeout_secs), (2, 0, 3600));
    assert!(QueueListener::new("redis://localhost".to_string()).is_ok());
    let j = ScheduledJob::new("0 */5 * * * *".to_string(), SendableJob::PatchScraper);
    assert_eq!(j.cron_schedule, "0 */5 * * * *");
}

#[test]
fn listener_decisions() {
    assert!(QueueListener::after_poll(PollOutcome::Item) == ListenAction::RunJob);
    assert!(QueueListener::after_poll(PollOutcome::Empty) == ListenAction::PollAgain);
    assert!(QueueListener::after_poll(PollOutcome::RedisFailure { unrecoverable: true }) == ListenAction::Ping);
    assert!(QueueListener::after_poll(PollOutcome::RedisFailure { unrecoverable: false }) == ListenAction::Stop);
    assert!(QueueListener::after_poll(PollOutcome::OtherFailure) == ListenAction::Stop);
    assert!(QueueListener::after_job(JobOutcome::Succeeded) == ListenAction::Complete);
    assert!(QueueListener::after_job(JobOutcome::Failed) == ListenAction::PollAgain);
    assert!(QueueListener::after_job(JobOutcome::TimedOut) == ListenAction::PollAgain);
    assert!(QueueListener::after_ping(true) == ListenAction::PollAgain);
    assert!(QueueListener::after_ping(false) == ListenAction::Stop);
}
