use vstd::prelude::*;
use std::collections::HashMap;
use crate::stream::{Status, StatusCode, StreamEvent};
use vstd::std_specs::hash::spec_keys_iter;
use vstd::std_specs::iter::IteratorSpec;

verus! {

broadcast use vstd::std_specs::hash::group_hash_axioms;

/// The workers connected to a proxy, each with the sender through which the proxy
/// passes the backend's responses on to it, and the id that the next worker gets.
pub struct WorkerRegistry<S> {
    workers: HashMap<usize, S>,
    next_worker_id: usize,
}

impl<S> WorkerRegistry<S> {
    /// The connected workers, by id.
    pub closed spec fn workers(&self) -> Map<usize, S> {
        self.workers@
    }

    /// The id that the next worker to register gets.
    pub closed spec fn next_worker_id(&self) -> nat {
        self.next_worker_id as nat
    }

    /// Every connected worker's id was handed out before the next one.
    pub open spec fn wf(&self) -> bool {
        forall|id: usize| #[trigger] self.workers().contains_key(id) ==> id < self.next_worker_id()
    }

    /// A registry with no worker, whose first id is 0.
    pub fn new() -> (r: Self)
        ensures
            r.wf(),
            r.workers() == Map::<usize, S>::empty(),
            r.next_worker_id() == 0,
    {
        WorkerRegistry { workers: HashMap::new(), next_worker_id: 0 }
    }

    /// Whether one more worker can be registered: whether the next id is not the last
    /// `usize`.
    pub fn can_register(&self) -> (b: bool)
        ensures
            b == (self.next_worker_id() < usize::MAX),
    {
        self.next_worker_id < usize::MAX
    }

    /// Registers a worker with its sender and returns the worker's id: the next id,
    /// which no connected worker holds.
    pub fn register_worker(&mut self, sender: S) -> (worker_id: usize)
        requires
            old(self).wf(),
            old(self).next_worker_id() < usize::MAX,
        ensures
            final(self).wf(),
            worker_id == old(self).next_worker_id(),
            !old(self).workers().contains_key(worker_id),
            final(self).next_worker_id() == old(self).next_worker_id() + 1,
            final(self).workers() == old(self).workers().insert(worker_id, sender),
            registers(*old(self), sender, worker_id, *final(self)),
    {
        let worker_id = self.next_worker_id;
        self.next_worker_id = self.next_worker_id + 1;
        self.workers.insert(worker_id, sender);
        assert forall|id: usize| #[trigger] self.workers().contains_key(id) implies id
            < self.next_worker_id() by {
            if id != worker_id {
                assert(old(self).workers().contains_key(id));
            }
        }
        worker_id
    }

    /// Removes the worker with id `worker_id`, if it is connected.
    pub fn unregister_worker(&mut self, worker_id: usize)
        requires
            old(self).wf(),
        ensures
            final(self).wf(),
            final(self).next_worker_id() == old(self).next_worker_id(),
            final(self).workers() == old(self).workers().remove(worker_id),
            unregisters(*old(self), worker_id, *final(self)),
    {
        self.workers.remove(&worker_id);
        assert forall|id: usize| #[trigger] self.workers().contains_key(id) implies id
            < self.next_worker_id() by {
            assert(old(self).workers().contains_key(id));
        }
    }

    /// The sender of the worker with id `worker_id`, if it is connected.
    pub fn get(&self, worker_id: usize) -> (sender: Option<&S>)
        ensures
            match sender {
                Some(s) => self.workers().contains_key(worker_id) && *s == self.workers()[worker_id],
                None => !self.workers().contains_key(worker_id),
            },
    {
        self.workers.get(&worker_id)
    }

    /// The number of connected workers.
    pub fn len(&self) -> (n: usize)
        ensures
            n == self.workers().len(),
    {
        self.workers.len()
    }

    /// The ids of all connected workers, each once, in no particular order: the
    /// workers to which a response of the backend is passed on.
    pub fn worker_ids(&self) -> (ids: Vec<usize>)
        ensures
            ids@.to_set() == self.workers().dom(),
            ids@.no_duplicates(),
            ids@.len() == self.workers().len(),
    {
        let ghost keys = spec_keys_iter(&self.workers).remaining();
        let mut ids: Vec<usize> = Vec::new();
        for id in it: self.workers.keys()
            invariant
                it.seq() == keys,
                ids@ == it.seq().take(it.index()).unref(),
        {
            ids.push(*id);
            assert(it.seq().take(it.index() + 1).unref() == ids@);
        }
        assert(ids@ == keys.unref());
        proof {
            keys.unref().unique_seq_to_set();
        }
        ids
    }
}

/// `after` is `before` with `sender` registered under `worker_id`, as `register_worker`
/// leaves it.
pub open spec fn registers<S>(
    before: WorkerRegistry<S>,
    sender: S,
    worker_id: usize,
    after: WorkerRegistry<S>,
) -> bool {
    &&& worker_id == before.next_worker_id()
    &&& after.next_worker_id() == before.next_worker_id() + 1
    &&& after.workers() == before.workers().insert(worker_id, sender)
}

/// `after` is `before` with `worker_id` unregistered, as `unregister_worker` leaves it.
pub open spec fn unregisters<S>(
    before: WorkerRegistry<S>,
    worker_id: usize,
    after: WorkerRegistry<S>,
) -> bool {
    &&& after.next_worker_id() == before.next_worker_id()
    &&& after.workers() == before.workers().remove(worker_id)
}

/// Registering keeps every connected id below the next one, and the id handed out is
/// held by no connected worker, so no live worker's sender is ever replaced.
pub proof fn lemma_registration_keeps_ids_fresh<S>(
    before: WorkerRegistry<S>,
    sender: S,
    worker_id: usize,
    after: WorkerRegistry<S>,
)
    requires
        before.wf(),
        registers(before, sender, worker_id, after),
    ensures
        after.wf(),
        !before.workers().contains_key(worker_id),
{
    assert forall|id: usize| #[trigger] after.workers().contains_key(id) implies id
        < after.next_worker_id() by {
        if id != worker_id {
            assert(before.workers().contains_key(id));
        }
    }
}

/// Unregistering keeps every connected id below the next one.
pub proof fn lemma_unregistration_keeps_ids_fresh<S>(
    before: WorkerRegistry<S>,
    worker_id: usize,
    after: WorkerRegistry<S>,
)
    requires
        before.wf(),
        unregisters(before, worker_id, after),
    ensures
        after.wf(),
{
    assert forall|id: usize| #[trigger] after.workers().contains_key(id) implies id
        < after.next_worker_id() by {
        assert(before.workers().contains_key(id));
    }
}

/// Ids are never handed out twice: of two registrations, the later (the one made from a
/// registry whose next id is at least that after the earlier; registering and
/// unregistering never lower it) hands out a larger id.
pub proof fn lemma_later_registration_gets_larger_id<S>(
    r0: WorkerRegistry<S>,
    s0: S,
    id0: usize,
    r1: WorkerRegistry<S>,
    r2: WorkerRegistry<S>,
    s2: S,
    id2: usize,
    r3: WorkerRegistry<S>,
)
    requires
        registers(r0, s0, id0, r1),
        r1.next_worker_id() <= r2.next_worker_id(),
        registers(r2, s2, id2, r3),
    ensures
        id0 < id2,
{
}

/// Unregistering a worker right after registering it leaves the connected workers as
/// they were, while the next id stays advanced: the id is not handed out again.
pub proof fn lemma_unregister_undoes_register<S>(
    before: WorkerRegistry<S>,
    sender: S,
    worker_id: usize,
    middle: WorkerRegistry<S>,
    after: WorkerRegistry<S>,
)
    requires
        before.wf(),
        registers(before, sender, worker_id, middle),
        unregisters(middle, worker_id, after),
    ensures
        after.workers() == before.workers(),
        after.next_worker_id() == before.next_worker_id() + 1,
{
    lemma_registration_keeps_ids_fresh(before, sender, worker_id, middle);
    assert(after.workers() =~= before.workers());
}

/// What the proxy does with one item of a worker's request stream whose failures are of
/// type `E`.
#[derive(Debug)]
pub enum ProxyAction<T, E> {
    /// Pass the request on to the backend stream.
    Forward(T),
    /// Stop reading this worker's stream, report this failure and unregister the worker.
    Stop(E),
}

/// Decides what the proxy does with one item of a worker's request stream: a request
/// is passed on, a failure of the stream ends it.
pub fn proxy_step<T, E>(event: StreamEvent<T, E>) -> (action: ProxyAction<T, E>)
    ensures
        match event {
            StreamEvent::Received(req) => action == ProxyAction::<T, E>::Forward(req),
            StreamEvent::Failed(e) => action == ProxyAction::<T, E>::Stop(e),
        },
{
    match event {
        StreamEvent::Received(req) => ProxyAction::Forward(req),
        StreamEvent::Failed(e) => ProxyAction::Stop(e),
    }
}

/// Whether the proxy goes on reading a worker's stream after carrying out `action`,
/// given whether passing the request on to the backend failed: it goes on only after a
/// request that reached the backend.
pub fn proxy_continues<T, E>(action: &ProxyAction<T, E>, forward_failed: bool) -> (r: bool)
    ensures
        r == match *action {
            ProxyAction::Forward(_) => !forward_failed,
            ProxyAction::Stop(_) => false,
        },
{
    match action {
        ProxyAction::Forward(_) => !forward_failed,
        ProxyAction::Stop(_) => false,
    }
}

/// Why the proxy's stream to the backend ended.
#[derive(Debug, Clone, Copy, PartialEq, Eq)]
pub enum BackendStreamError {
    /// The backend stream could not be opened.
    StartFailed,
    /// The backend stopped sending responses.
    Ended,
}

impl BackendStreamError {
    /// The text of the internal-error status that reports it; `detail` is the
    /// transport's own description of a failure to start.
    pub fn message(&self, detail: &str) -> (m: String)
        ensures
            m@ == match *self {
                BackendStreamError::StartFailed => "Failed to start backend stream: "@ + detail@,
                BackendStreamError::Ended => "Backend stream ended unexpectedly"@,
            },
    {
        match self {
            BackendStreamError::StartFailed => {
                String::from_str("Failed to start backend stream: ").concat(detail)
            },
            BackendStreamError::Ended => String::from_str("Backend stream ended unexpectedly"),
        }
    }

    /// The status that reports it: an internal error, with `message`.
    pub fn status(&self, detail: &str) -> (s: Status)
        ensures
            s.code == StatusCode::Internal,
            s.message@ == match *self {
                BackendStreamError::StartFailed => "Failed to start backend stream: "@ + detail@,
                BackendStreamError::Ended => "Backend stream ended unexpectedly"@,
            },
    {
        Status::internal(self.message(detail))
    }
}

} // verus!
