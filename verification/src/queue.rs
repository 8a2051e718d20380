//! The job queue: items stored in Redis under a work queue's keys, and the
//! decisions taken while adding, polling, completing and running jobs.
//!
//! Talking to Redis is left to the caller. The library says which command
//! comes next and what to make of its reply.

use vstd::prelude::*;

use crate::clock::now_naive_utc;
use crate::text::{append_str, owned};

verus! {

/// Errors of the job queue.
pub enum QueueError {
    /// A job task failed: the task's name and the failure.
    FailedJobTask(String, String),
    /// A job was tried more often than allowed.
    MaxRetriesExceeded(usize),
    /// An error of the cron scheduler.
    JobScheduler(tokio_cron_scheduler::JobSchedulerError),
    /// An error of Redis.
    Redis(redis::RedisError),
    /// An error while encoding or decoding an item.
    SerdeJson(serde_json::Error),
}

/// Jobs that can be sent to the queue.
#[derive(Clone, Copy, Debug, PartialEq, Eq, Structural)]
pub enum SendableJob {
    /// Patch Scraper job
    PatchScraper,
}

impl SendableJob {
    /// The job's name as `{:?}` writes it; it is also the id of its queue item.
    pub open spec fn spec_name(self) -> Seq<char> {
        match self {
            SendableJob::PatchScraper => "PatchScraper"@,
        }
    }

    /// Exec form of [`SendableJob::spec_name`].
    pub fn debug_name(&self) -> (s: String)
        ensures
            s@ == self.spec_name(),
    {
        match self {
            SendableJob::PatchScraper => owned("PatchScraper"),
        }
    }
}

/// A job in the queue, with how often it was tried.
#[derive(Clone, Debug)]
pub struct QueueItem<T> {
    pub id: String,
    pub data: T,
    pub max_retries: usize,
    pub current_attempt: usize,
    pub created_at: chrono::NaiveDateTime,
    pub timeout_secs: u64,
}

/// What counting one more attempt does to an item tried `current` times out
/// of `max`: the new count, and whether the attempt was allowed.
pub open spec fn attempt_step(current: nat, max: nat) -> (nat, bool) {
    if current >= max {
        (current, false)
    } else {
        (current + 1, true)
    }
}

impl<T> QueueItem<T> {
    /// A new item that has not been tried yet, created now.
    pub fn new(data: T, id: String, max_retries: usize, timeout_secs: u64) -> (item: QueueItem<T>)
        ensures
            item.id == id,
            item.data == data,
            item.max_retries == max_retries,
            item.current_attempt == 0,
            item.timeout_secs == timeout_secs,
    {
        let created_at = now_naive_utc();
        QueueItem { id, data, max_retries, current_attempt: 0, created_at, timeout_secs }
    }

    /// Counts one more attempt, unless the item was already tried
    /// `max_retries` times; says whether the attempt is allowed.
    pub fn increment_attempt(&mut self) -> (allowed: bool)
        ensures
            (final(self).current_attempt as nat, allowed) == attempt_step(
                old(self).current_attempt as nat,
                old(self).max_retries as nat,
            ),
            final(self).id == old(self).id,
            final(self).data == old(self).data,
            final(self).max_retries == old(self).max_retries,
            final(self).created_at == old(self).created_at,
            final(self).timeout_secs == old(self).timeout_secs,
    {
        if self.current_attempt >= self.max_retries {
            false
        } else {
            self.current_attempt = self.current_attempt + 1;
            true
        }
    }
}

/// The count of attempts after `n` more are counted, starting at `current`.
pub open spec fn attempts_after(current: nat, max: nat, n: nat) -> nat
    decreases n,
{
    if n == 0 {
        current
    } else {
        attempt_step(attempts_after(current, max, (n - 1) as nat), max).0
    }
}

/// How many of `n` more counted attempts are allowed, starting at `current`.
pub open spec fn allowed_attempts(current: nat, max: nat, n: nat) -> nat
    decreases n,
{
    if n == 0 {
        0
    } else {
        allowed_attempts(current, max, (n - 1) as nat) + if attempt_step(
            attempts_after(current, max, (n - 1) as nat),
            max,
        ).1 {
            1nat
        } else {
            0nat
        }
    }
}

/// However often an item's attempt is counted, the count never passes
/// `max_retries` once it is within it, and at most `max_retries - current`
/// attempts are allowed: a job is handed out at most `max_retries` times.
pub proof fn lemma_attempts_bounded(current: nat, max: nat, n: nat)
    requires
        current <= max,
    ensures
        attempts_after(current, max, n) <= max,
        allowed_attempts(current, max, n) == attempts_after(current, max, n) - current,
        allowed_attempts(current, max, n) <= max - current,
        attempts_after(current, max, n) == if current + n <= max {
            current + n
        } else {
            max
        },
    decreases n,
{
    if n > 0 {
        lemma_attempts_bounded(current, max, (n - 1) as nat);
    }
}

/// An item's data as stored: its id and its encoded bytes.
pub struct EncodedQueueItem {
    pub id: String,
    pub data_bytes: Vec<u8>,
}

impl EncodedQueueItem {
    /// An item from its encoded `data_bytes` and its `id`.
    pub fn from_bytes(data_bytes: Vec<u8>, id: String) -> (e: EncodedQueueItem)
        ensures
            e.id == id,
            e.data_bytes == data_bytes,
    {
        EncodedQueueItem { id, data_bytes }
    }
}

/// The Redis keys of a work queue.
#[derive(Clone, Debug)]
pub struct WorkQueue {
    /// The key for the list of items in the queue
    pub main_queue_key: String,
    /// The key for the list of items being processed
    pub processing_key: String,
    /// The key prefix for item data entries
    pub item_data_key: String,
}

/// The key of a queue's list of waiting items.
pub open spec fn main_key_of(name: Seq<char>) -> Seq<char> {
    name + ":queue"@
}

/// The key of a queue's list of items being processed.
pub open spec fn processing_key_of(name: Seq<char>) -> Seq<char> {
    name + ":processing"@
}

/// The prefix of the keys of a queue's item data.
pub open spec fn item_prefix_of(name: Seq<char>) -> Seq<char> {
    name + ":item"@
}

impl WorkQueue {
    /// The keys of the work queue named `queue_name`.
    pub fn new(queue_name: &str) -> (q: WorkQueue)
        ensures
            q.main_queue_key@ == main_key_of(queue_name@),
            q.processing_key@ == processing_key_of(queue_name@),
            q.item_data_key@ == item_prefix_of(queue_name@),
    {
        let mut main_queue_key = owned(queue_name);
        append_str(&mut main_queue_key, ":queue");
        let mut processing_key = owned(queue_name);
        append_str(&mut processing_key, ":processing");
        let mut item_data_key = owned(queue_name);
        append_str(&mut item_data_key, ":item");
        WorkQueue { main_queue_key, processing_key, item_data_key }
    }

    /// The key under which the data of item `item_id` is stored.
    pub open spec fn spec_item_key(&self, item_id: Seq<char>) -> Seq<char> {
        self.item_data_key@ + ":"@ + item_id
    }

    /// Exec form of [`WorkQueue::spec_item_key`].
    pub fn item_key(&self, item_id: &str) -> (k: String)
        ensures
            k@ == self.spec_item_key(item_id@),
    {
        let mut k = self.item_data_key.clone();
        append_str(&mut k, ":");
        append_str(&mut k, item_id);
        k
    }
}


/// An end of a Redis list. Ids are pushed at the left and taken from the
/// right, so the oldest id goes first.
#[derive(Clone, Copy, Debug, PartialEq, Eq, Structural)]
pub enum ListEnd {
    Left,
    Right,
}

/// What a poll of the work queue asks the caller to do next.
pub enum PollAction<T> {
    /// Ask for the length of the list `key` (`LLEN`).
    QueryProcessingLen { key: String },
    /// Wait for an id to move from the `from_end` of `from` to the `to_end`
    /// of `to` (`BLMOVE`, with the poll timeout).
    MoveToProcessing { from: String, from_end: ListEnd, to: String, to_end: ListEnd },
    /// Pop an id from the `end` of the list `key` (`RPOP` or `LPOP`).
    PopProcessing { key: String, end: ListEnd },
    /// Read the data stored under `key` (`GET`) and decode it.
    FetchItem { key: String },
    /// Encode `item` and store it under `key` (`SET`).
    StoreItem { key: String, item: QueueItem<T> },
    /// Push `item_id` at the `end` of the list `key` (`LPUSH` or `RPUSH`).
    Requeue { key: String, item_id: String, end: ListEnd },
    /// Delete the data stored under `key` (`DEL`).
    DeleteItem { key: String },
    /// The poll is over: there is nothing to work on.
    ReturnNone,
    /// The poll is over: work on this item.
    ReturnItem(QueueItem<T>),
}

/// What the caller reports back after doing what a [`PollAction`] asked.
pub enum PollEvent<T> {
    /// The length of the processing list.
    ProcessingLen(usize),
    /// Whether an id moved into the processing list before the timeout.
    Moved(bool),
    /// The id popped from the processing list, if any.
    Popped(Option<String>),
    /// No data was stored for the item.
    Missing,
    /// The item's stored data, decoded.
    Decoded(QueueItem<T>),
    /// Whether the item was stored, and the item that was to be stored.
    Stored(bool, QueueItem<T>),
    /// How long the list became after the push.
    Requeued(usize),
    /// How many keys were deleted.
    Deleted(usize),
}

/// Where a poll stands.
pub enum PollStage<T> {
    /// Waiting for the length of the processing list.
    CheckProcessing,
    /// Waiting for an id to move into the processing list.
    WaitMove,
    /// Waiting for an id popped from the processing list.
    Pop,
    /// Waiting for the data of item `item_id`.
    Fetch { item_id: String },
    /// Waiting for item `item_id`, counted as `counted`, to be stored.
    Store { item_id: String, counted: Ghost<QueueItem<T>> },
    /// Waiting for item `item` to go back to the processing list.
    Requeue { item: QueueItem<T> },
    /// Waiting for the data of item `item_id`, out of attempts, to be deleted.
    Remove { item_id: String },
    /// The poll is over.
    Finished,
}

/// One poll of a work queue, from asking Redis for work to an item to work
/// on or none.
///
/// The poll first checks whether an item is being processed; if none is, it
/// waits for one to move in from the queue and gives up when none comes. It
/// then pops an id, reads the item's data (starting over when there is
/// none), and counts one more attempt. An item that may be tried again is
/// stored and put back into processing, then handed out; an item out of
/// attempts has its data deleted, and the poll starts over.
pub struct QueuePoll<T> {
    pub queue: WorkQueue,
    pub stage: PollStage<T>,
}

impl<T> QueuePoll<T> {
    /// Whether the poll is waiting for an event of the kind of `event`.
    pub open spec fn accepts_kind(&self, event: PollEvent<T>) -> bool {
        match (self.stage, event) {
            (PollStage::CheckProcessing, PollEvent::ProcessingLen(_)) => true,
            (PollStage::WaitMove, PollEvent::Moved(_)) => true,
            (PollStage::Pop, PollEvent::Popped(_)) => true,
            (PollStage::Fetch { .. }, PollEvent::Missing) => true,
            (PollStage::Fetch { .. }, PollEvent::Decoded(_)) => true,
            (PollStage::Store { .. }, PollEvent::Stored(_, _)) => true,
            (PollStage::Requeue { .. }, PollEvent::Requeued(_)) => true,
            (PollStage::Remove { .. }, PollEvent::Deleted(_)) => true,
            _ => false,
        }
    }

    /// Whether the poll is waiting for `event`: an event of the right kind,
    /// and after a store, the very item that was to be stored.
    pub open spec fn accepts(&self, event: PollEvent<T>) -> bool {
        &&& self.accepts_kind(event)
        &&& (self.stage matches PollStage::Store { counted, .. } ==> event matches PollEvent::Stored(
            _,
            item,
        ) && item == counted@)
    }

    /// Items held by the poll have had an allowed attempt counted.
    pub open spec fn wf(&self) -> bool {
        match self.stage {
            PollStage::Store { counted, .. } => 1 <= counted@.current_attempt
                <= counted@.max_retries,
            PollStage::Requeue { item } => 1 <= item.current_attempt <= item.max_retries,
            _ => true,
        }
    }

    /// Exec form of [`QueuePoll::accepts`].
    pub fn expects(&self, event: &PollEvent<T>) -> (b: bool)
        ensures
            b == self.accepts_kind(*event),
    {
        match (&self.stage, event) {
            (PollStage::CheckProcessing, PollEvent::ProcessingLen(_)) => true,
            (PollStage::WaitMove, PollEvent::Moved(_)) => true,
            (PollStage::Pop, PollEvent::Popped(_)) => true,
            (PollStage::Fetch { .. }, PollEvent::Missing) => true,
            (PollStage::Fetch { .. }, PollEvent::Decoded(_)) => true,
            (PollStage::Store { .. }, PollEvent::Stored(_, _)) => true,
            (PollStage::Requeue { .. }, PollEvent::Requeued(_)) => true,
            (PollStage::Remove { .. }, PollEvent::Deleted(_)) => true,
            _ => false,
        }
    }

    /// Starts a poll of `queue`: the first thing to do is to ask how many
    /// items are being processed.
    pub fn start(queue: WorkQueue) -> (r: (QueuePoll<T>, PollAction<T>))
        ensures
            r.0.queue == queue,
            r.0.stage is CheckProcessing,
            r.0.wf(),
            r.1 matches PollAction::QueryProcessingLen { key } && key@ == queue.processing_key@,
    {
        let key = queue.processing_key.clone();
        (QueuePoll { queue, stage: PollStage::CheckProcessing }, PollAction::QueryProcessingLen {
            key,
        })
    }

    /// Moves the poll on after `event`, and says what to do next.
    pub fn step(&mut self, event: PollEvent<T>) -> (action: PollAction<T>)
        requires
            old(self).wf(),
            old(self).accepts(event),
        ensures
            final(self).queue == old(self).queue,
            final(self).wf(),
            action matches PollAction::ReturnItem(item) ==> 1 <= item.current_attempt
                <= item.max_retries,
            match (old(self).stage, event) {
                (PollStage::CheckProcessing, PollEvent::ProcessingLen(n)) => if n == 0 {
                    &&& final(self).stage is WaitMove
                    &&& action matches PollAction::MoveToProcessing { from, from_end, to, to_end }
                        && from@ == old(self).queue.main_queue_key@ && from_end == ListEnd::Right
                        && to@ == old(self).queue.processing_key@ && to_end == ListEnd::Left
                } else {
                    &&& final(self).stage is Pop
                    &&& action matches PollAction::PopProcessing { key, end } && key@
                        == old(self).queue.processing_key@ && end == ListEnd::Right
                },
                (PollStage::WaitMove, PollEvent::Moved(moved)) => if moved {
                    &&& final(self).stage is Pop
                    &&& action matches PollAction::PopProcessing { key, end } && key@
                        == old(self).queue.processing_key@ && end == ListEnd::Right
                } else {
                    &&& final(self).stage is Finished
                    &&& action is ReturnNone
                },
                (PollStage::Pop, PollEvent::Popped(popped)) => match popped {
                    None => {
                        &&& final(self).stage is Finished
                        &&& action is ReturnNone
                    },
                    Some(id) => {
                        &&& final(self).stage matches PollStage::Fetch { item_id } && item_id
                            == id
                        &&& action matches PollAction::FetchItem { key } && key@
                            == old(self).queue.spec_item_key(id@)
                    },
                },
                (PollStage::Fetch { .. }, PollEvent::Missing) => {
                    &&& final(self).stage is CheckProcessing
                    &&& action matches PollAction::QueryProcessingLen { key } && key@
                        == old(self).queue.processing_key@
                },
                (PollStage::Fetch { item_id }, PollEvent::Decoded(item)) => {
                    let (count, allowed) = attempt_step(
                        item.current_attempt as nat,
                        item.max_retries as nat,
                    );
                    if allowed {
                        &&& action matches PollAction::StoreItem { key, item: counted } && key@
                            == old(self).queue.spec_item_key(item_id@) && counted.current_attempt
                            == count && counted.id == item.id && counted.data == item.data
                            && counted.max_retries == item.max_retries && counted.created_at
                            == item.created_at && counted.timeout_secs == item.timeout_secs
                            && (final(self).stage matches PollStage::Store {
                            item_id: id2,
                            counted: c2,
                        } && id2 == item_id && c2@ == counted)
                    } else {
                        &&& final(self).stage matches PollStage::Remove { item_id: id2 } && id2
                            == item_id
                        &&& action matches PollAction::DeleteItem { key } && key@
                            == old(self).queue.spec_item_key(item_id@)
                    }
                },
                (PollStage::Store { item_id, .. }, PollEvent::Stored(stored, item)) => if stored {
                    &&& final(self).stage matches PollStage::Requeue { item: held } && held
                        == item
                    &&& action matches PollAction::Requeue { key, item_id: id2, end } && key@
                        == old(self).queue.processing_key@ && id2 == item_id && end
                        == ListEnd::Left
                } else {
                    &&& final(self).stage is CheckProcessing
                    &&& action matches PollAction::QueryProcessingLen { key } && key@
                        == old(self).queue.processing_key@
                },
                (PollStage::Requeue { item }, PollEvent::Requeued(n)) => if n > 0 {
                    &&& final(self).stage is Finished
                    &&& action == PollAction::ReturnItem(item)
                } else {
                    &&& final(self).stage is CheckProcessing
                    &&& action matches PollAction::QueryProcessingLen { key } && key@
                        == old(self).queue.processing_key@
                },
                (PollStage::Remove { .. }, PollEvent::Deleted(_)) => {
                    &&& final(self).stage is CheckProcessing
                    &&& action matches PollAction::QueryProcessingLen { key } && key@
                        == old(self).queue.processing_key@
                },
                _ => false,
            },
    {
        let mut stage = PollStage::Finished;
        std::mem::swap(&mut stage, &mut self.stage);
        match (stage, event) {
            (PollStage::CheckProcessing, PollEvent::ProcessingLen(n)) => {
                if n == 0 {
                    self.stage = PollStage::WaitMove;
                    PollAction::MoveToProcessing {
                        from: self.queue.main_queue_key.clone(),
                        from_end: ListEnd::Right,
                        to: self.queue.processing_key.clone(),
                        to_end: ListEnd::Left,
                    }
                } else {
                    self.stage = PollStage::Pop;
                    PollAction::PopProcessing {
                        key: self.queue.processing_key.clone(),
                        end: ListEnd::Right,
                    }
                }
            },
            (PollStage::WaitMove, PollEvent::Moved(moved)) => {
                if moved {
                    self.stage = PollStage::Pop;
                    PollAction::PopProcessing {
                        key: self.queue.processing_key.clone(),
                        end: ListEnd::Right,
                    }
                } else {
                    PollAction::ReturnNone
                }
            },
            (PollStage::Pop, PollEvent::Popped(popped)) => {
                match popped {
                    None => PollAction::ReturnNone,
                    Some(item_id) => {
                        let key = self.queue.item_key(item_id.as_str());
                        self.stage = PollStage::Fetch { item_id };
                        PollAction::FetchItem { key }
                    },
                }
            },
            (PollStage::Fetch { .. }, PollEvent::Missing) => {
                self.stage = PollStage::CheckProcessing;
                PollAction::QueryProcessingLen { key: self.queue.processing_key.clone() }
            },
            (PollStage::Fetch { item_id }, PollEvent::Decoded(item)) => {
                let mut queue_item = item;
                let key = self.queue.item_key(item_id.as_str());
                if queue_item.increment_attempt() {
                    self.stage = PollStage::Store { item_id, counted: Ghost(queue_item) };
                    PollAction::StoreItem { key, item: queue_item }
                } else {
                    self.stage = PollStage::Remove { item_id };
                    PollAction::DeleteItem { key }
                }
            },
            (PollStage::Store { item_id, .. }, PollEvent::Stored(stored, item)) => {
                if stored {
                    self.stage = PollStage::Requeue { item };
                    PollAction::Requeue {
                        key: self.queue.processing_key.clone(),
                        item_id,
                        end: ListEnd::Left,
                    }
                } else {
                    self.stage = PollStage::CheckProcessing;
                    PollAction::QueryProcessingLen { key: self.queue.processing_key.clone() }
                }
            },
            (PollStage::Requeue { item }, PollEvent::Requeued(n)) => {
                if n > 0 {
                    PollAction::ReturnItem(item)
                } else {
                    self.stage = PollStage::CheckProcessing;
                    PollAction::QueryProcessingLen { key: self.queue.processing_key.clone() }
                }
            },
            (PollStage::Remove { .. }, PollEvent::Deleted(_)) => {
                self.stage = PollStage::CheckProcessing;
                PollAction::QueryProcessingLen { key: self.queue.processing_key.clone() }
            },
            (_, _) => vstd::pervasive::unreached(),
        }
    }
}


impl WorkQueue {
    /// After `SET NX` of an item's data: when it was stored, the item's id
    /// goes to the left of the main queue; when an item of that id already
    /// existed, adding fails.
    pub fn after_set(&self, is_added: bool, item_id: &str) -> (r: AddStep)
        ensures
            is_added ==> (r matches AddStep::PushToMain { key, item_id: id, end } && key@
                == self.main_queue_key@ && id@ == item_id@ && end == ListEnd::Left),
            !is_added ==> r matches AddStep::Finish(false),
    {
        if is_added {
            AddStep::PushToMain {
                key: self.main_queue_key.clone(),
                item_id: owned(item_id),
                end: ListEnd::Left,
            }
        } else {
            AddStep::Finish(false)
        }
    }

    /// The keys that completing item `item_id` clears: its data, and the
    /// item's id in the main queue and in the processing list.
    pub fn complete_request(&self, item_id: &str) -> (r: CompleteRequest)
        ensures
            r.data_key@ == self.spec_item_key(item_id@),
            r.main_queue_key@ == self.main_queue_key@,
            r.processing_key@ == self.processing_key@,
            r.item_id@ == item_id@,
    {
        CompleteRequest {
            data_key: self.item_key(item_id),
            main_queue_key: self.main_queue_key.clone(),
            processing_key: self.processing_key.clone(),
            item_id: owned(item_id),
        }
    }
}

/// Items of different ids have their data under different keys.
pub proof fn lemma_item_keys_distinct(q: WorkQueue, a: Seq<char>, b: Seq<char>)
    requires
        q.spec_item_key(a) == q.spec_item_key(b),
    ensures
        a == b,
{
    let p = q.item_data_key@ + ":"@;
    assert(q.spec_item_key(a) == p + a);
    assert(q.spec_item_key(b) == p + b);
    assert(a =~= (p + a).skip(p.len() as int));
    assert(b =~= (p + b).skip(p.len() as int));
}

/// What adding an item does after storing its data.
pub enum AddStep {
    /// Push `item_id` at the `end` of the list `key` (`LPUSH` or `RPUSH`);
    /// the item was added when the list then holds anything.
    PushToMain { key: String, item_id: String, end: ListEnd },
    /// Adding is over, with this outcome.
    Finish(bool),
}

/// Whether an item was added (or a job completed): some entry was changed.
pub fn changed_any(count: usize) -> (b: bool)
    ensures
        b == (count > 0),
{
    count > 0
}

/// The commands that complete an item: delete its data, and remove every
/// occurrence of its id from both lists (`DEL`, `LREM 0`, `LREM 0`); the job
/// was completed when the data was deleted.
pub struct CompleteRequest {
    pub data_key: String,
    pub main_queue_key: String,
    pub processing_key: String,
    pub item_id: String,
}

/// Name of the bot's work queue.
pub const QUEUE_NAME: &'static str = "work_queue";

/// Whether `redis::Client::open` accepts `url`.
pub uninterp spec fn redis_url_accepted(url: Seq<char>) -> bool;

/// Opens a Redis client for `url` (`redis::Client::open`).
///
/// The contract claims that the outcome depends on the URL alone: the call
/// only parses the URL and connects to nothing. Which URLs are accepted is
/// left to the crate.
#[verifier::external_body]
fn open_redis_client(url: String) -> (r: Result<redis::Client, redis::RedisError>)
    ensures
        r is Ok == redis_url_accepted(url@),
{
    redis::Client::open(url)
}

/// Connection to the work queue in Redis.
pub struct RedisQueueBroker {
    pub redis_client: redis::Client,
    pub work_queue: WorkQueue,
}

impl RedisQueueBroker {
    /// A broker for the bot's work queue at `broker_url`.
    pub fn new(broker_url: String) -> (r: Result<RedisQueueBroker, QueueError>)
        ensures
            r is Ok == redis_url_accepted(broker_url@),
            r matches Ok(b) ==> b.work_queue.main_queue_key@ == main_key_of(QUEUE_NAME@)
                && b.work_queue.processing_key@ == processing_key_of(QUEUE_NAME@)
                && b.work_queue.item_data_key@ == item_prefix_of(QUEUE_NAME@),
            r matches Err(e) ==> e is Redis,
    {
        let redis_client = match open_redis_client(broker_url) {
            Ok(c) => c,
            Err(e) => return Err(QueueError::Redis(e)),
        };
        let work_queue = WorkQueue::new(QUEUE_NAME);
        Ok(RedisQueueBroker { redis_client, work_queue })
    }
}

/// How often a job sent by a [`QueueSender`] may be tried.
pub const TASK_MAX_RETRIES: usize = 2;

/// How long a job sent by a [`QueueSender`] may run, in seconds.
pub const TASK_TIMEOUT_SECS: u64 = 3600;

/// Sends jobs to the work queue.
pub struct QueueSender {
    pub broker: RedisQueueBroker,
    pub max_retries: usize,
    pub timeout_secs: u64,
}

impl QueueSender {
    /// A sender to the work queue at `broker_url`, with the default limits.
    pub fn new(broker_url: String) -> (r: Result<QueueSender, QueueError>)
        ensures
            r is Ok == redis_url_accepted(broker_url@),
            r matches Ok(s) ==> s.max_retries == TASK_MAX_RETRIES && s.timeout_secs
                == TASK_TIMEOUT_SECS && s.broker.work_queue.main_queue_key@ == main_key_of(
                QUEUE_NAME@,
            ),
            r matches Err(e) ==> e is Redis,
    {
        let broker = RedisQueueBroker::new(broker_url)?;
        Ok(QueueSender { broker, max_retries: TASK_MAX_RETRIES, timeout_secs: TASK_TIMEOUT_SECS })
    }

    /// The queue item that sending `job` adds: named after the job, not yet
    /// tried, with the sender's limits.
    pub fn job_item(&self, job: &SendableJob) -> (item: QueueItem<SendableJob>)
        ensures
            item.id@ == job.spec_name(),
            item.data == *job,
            item.max_retries == self.max_retries,
            item.current_attempt == 0,
            item.timeout_secs == self.timeout_secs,
    {
        let item_id = job.debug_name();
        QueueItem::new(*job, item_id, self.max_retries, self.timeout_secs)
    }
}

/// A job, to be added to the work queue on a cron schedule.
#[derive(Clone, Debug)]
pub struct ScheduledJob {
    /// Cron-formatted schedule for the job task
    pub cron_schedule: String,
    /// Job task to run
    pub job_task: SendableJob,
}

impl ScheduledJob {
    /// A job that runs on `cron_schedule`.
    pub fn new(cron_schedule: String, job_task: SendableJob) -> (j: ScheduledJob)
        ensures
            j.cron_schedule == cron_schedule,
            j.job_task == job_task,
    {
        ScheduledJob { cron_schedule, job_task }
    }
}

/// Listens to the work queue and runs the jobs it hands out.
pub struct QueueListener {
    pub broker: RedisQueueBroker,
}

/// How a poll of the work queue ended, as the listener sees it.
#[derive(Clone, Copy, PartialEq, Eq, Structural)]
pub enum PollOutcome {
    /// An item to work on.
    Item,
    /// Nothing to work on.
    Empty,
    /// A Redis error; `unrecoverable` when the connection was lost.
    RedisFailure { unrecoverable: bool },
    /// Any other error.
    OtherFailure,
}

/// How running a job ended.
#[derive(Clone, Copy, PartialEq, Eq, Structural)]
pub enum JobOutcome {
    /// The job returned `Ok`.
    Succeeded,
    /// The job returned an error.
    Failed,
    /// The job ran out of time.
    TimedOut,
}

/// What the listener does next.
#[derive(Clone, Copy, PartialEq, Eq, Structural)]
pub enum ListenAction {
    /// Run the job of the item, within its timeout.
    RunJob,
    /// Mark the item complete, then poll again.
    Complete,
    /// Poll again.
    PollAgain,
    /// Check the connection with a ping.
    Ping,
    /// Stop listening, returning the error.
    Stop,
}

impl QueueListener {
    /// A listener on the work queue at `broker_url`.
    pub fn new(broker_url: String) -> (r: Result<QueueListener, QueueError>)
        ensures
            r is Ok == redis_url_accepted(broker_url@),
            r matches Err(e) ==> e is Redis,
    {
        let broker = RedisQueueBroker::new(broker_url)?;
        Ok(QueueListener { broker })
    }

    /// After a poll: run the job of an item, poll again when there was none,
    /// check the connection after losing it, and stop on any other error.
    pub fn after_poll(outcome: PollOutcome) -> (a: ListenAction)
        ensures
            a == match outcome {
                PollOutcome::Item => ListenAction::RunJob,
                PollOutcome::Empty => ListenAction::PollAgain,
                PollOutcome::RedisFailure { unrecoverable } => if unrecoverable {
                    ListenAction::Ping
                } else {
                    ListenAction::Stop
                },
                PollOutcome::OtherFailure => ListenAction::Stop,
            },
    {
        match outcome {
            PollOutcome::Item => ListenAction::RunJob,
            PollOutcome::Empty => ListenAction::PollAgain,
            PollOutcome::RedisFailure { unrecoverable } => if unrecoverable {
                ListenAction::Ping
            } else {
                ListenAction::Stop
            },
            PollOutcome::OtherFailure => ListenAction::Stop,
        }
    }

    /// After running a job: a job that succeeded is completed; one that
    /// failed or ran out of time stays in the queue for another attempt.
    pub fn after_job(outcome: JobOutcome) -> (a: ListenAction)
        ensures
            a == if outcome == JobOutcome::Succeeded {
                ListenAction::Complete
            } else {
                ListenAction::PollAgain
            },
    {
        match outcome {
            JobOutcome::Succeeded => ListenAction::Complete,
            _ => ListenAction::PollAgain,
        }
    }

    /// After a ping: poll again when the connection is back, else stop.
    pub fn after_ping(reconnected: bool) -> (a: ListenAction)
        ensures
            a == if reconnected {
                ListenAction::PollAgain
            } else {
                ListenAction::Stop
            },
    {
        if reconnected {
            ListenAction::PollAgain
        } else {
            ListenAction::Stop
        }
    }
}

} // verus!
