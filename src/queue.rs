//! The ordered store of pending transfer jobs.

use vstd::prelude::*;

verus! {

/// Where a chat message lives: its chat, and its id within that chat.
#[derive(Debug, Clone, Copy, PartialEq, Eq)]
pub struct MessageRef {
    pub chat_id: i64,
    pub message_id: i32,
}

/// One transfer job: the inbound message, the bot's status reply that is edited as
/// the job moves on, and what to fetch (a file held by the transport, or a URL)
/// with the name the sender gave it, if any.
#[derive(Debug)]
pub struct FileQueueItem {
    pub message: MessageRef,
    pub queue_message: MessageRef,
    pub file_id: Option<String>,
    pub file_name: Option<String>,
    pub url: Option<String>,
}

/// A copy of an optional string.
pub fn copy_text(s: &Option<String>) -> (r: Option<String>)
    ensures
        r == *s,
{
    match s {
        Some(t) => Some(t.clone()),
        None => None,
    }
}

impl FileQueueItem {
    pub fn new(
        message: MessageRef,
        queue_message: MessageRef,
        file_id: Option<String>,
        file_name: Option<String>,
        url: Option<String>,
    ) -> (r: Self)
        ensures
            r == (FileQueueItem { message, queue_message, file_id, file_name, url }),
    {
        FileQueueItem { message, queue_message, file_id, file_name, url }
    }

    /// An equal job.
    pub fn duplicate(&self) -> (r: Self)
        ensures
            r == *self,
    {
        FileQueueItem {
            message: self.message,
            queue_message: self.queue_message,
            file_id: copy_text(&self.file_id),
            file_name: copy_text(&self.file_name),
            url: copy_text(&self.url),
        }
    }
}

/// Pending jobs in the order they arrived; the first one is the one in work.
#[derive(Debug)]
pub struct FileQueue {
    items: Vec<FileQueueItem>,
}

impl View for FileQueue {
    type V = Seq<FileQueueItem>;

    closed spec fn view(&self) -> Seq<FileQueueItem> {
        self.items@
    }
}

impl FileQueue {
    pub fn new() -> (r: Self)
        ensures
            r@ == Seq::<FileQueueItem>::empty(),
    {
        FileQueue { items: Vec::new() }
    }

    pub fn len(&self) -> (r: usize)
        ensures
            r == self@.len(),
    {
        self.items.len()
    }

    pub fn is_empty(&self) -> (r: bool)
        ensures
            r == (self@.len() == 0),
    {
        self.items.len() == 0
    }

    /// The position that the next job will take: one past the current length.
    pub fn next_position(&self) -> (r: usize)
        requires
            self@.len() < usize::MAX,
        ensures
            r == self@.len() + 1,
    {
        self.items.len() + 1
    }

    /// Appends a job at the back and returns its 1-based position.
    pub fn enqueue(&mut self, item: FileQueueItem) -> (r: usize)
        requires
            old(self)@.len() < usize::MAX,
        ensures
            final(self)@ == old(self)@.push(item),
            r == old(self)@.len() + 1,
    {
        self.items.push(item);
        self.items.len()
    }

    /// The job at the front, if any.
    pub fn peek_front(&self) -> (r: Option<&FileQueueItem>)
        ensures
            self@.len() == 0 ==> r is None,
            self@.len() > 0 ==> r == Some(&self@[0]),
    {
        if self.items.len() == 0 {
            None
        } else {
            Some(&self.items[0])
        }
    }

    /// Removes the job at the front; an empty queue stays empty.
    pub fn pop_front(&mut self)
        ensures
            old(self)@.len() == 0 ==> final(self)@ == old(self)@,
            old(self)@.len() > 0 ==> final(self)@ == old(self)@.drop_first(),
    {
        if self.items.len() > 0 {
            self.items.remove(0);
        }
    }
}

/// Enqueueing onto a queue of length `L` reports position `L + 1`, and the job then
/// stands at index `L`, behind the jobs that were there, which keep their order.
pub proof fn lemma_enqueue_position(q: Seq<FileQueueItem>, item: FileQueueItem)
    ensures
        q.push(item).len() == q.len() + 1,
        q.push(item)[q.len() as int] == item,
        q.push(item).subrange(0, q.len() as int) == q,
{
    assert(q.push(item).subrange(0, q.len() as int) =~= q);
}

/// Enqueues done one after another leave the jobs in the order the lock admitted
/// them, after those already waiting: none is lost or repeated.
pub proof fn lemma_enqueues_keep_order(q: Seq<FileQueueItem>, jobs: Seq<FileQueueItem>)
    ensures
        jobs.fold_left(q, |acc: Seq<FileQueueItem>, j: FileQueueItem| acc.push(j)) == q + jobs,
    decreases jobs.len(),
{
    if jobs.len() > 0 {
        lemma_enqueues_keep_order(q, jobs.drop_last());
        assert(q + jobs.drop_last() + seq![jobs.last()] =~= q + jobs);
    } else {
        assert(q + jobs =~= q);
    }
}

} // verus!
