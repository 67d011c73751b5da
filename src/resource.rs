use vstd::prelude::*;
use std::collections::HashMap;
use crate::error::NetError;

verus! {

broadcast use vstd::std_specs::hash::group_hash_axioms;

/// Opaque handle of a live resource in the registry.
pub type ResourceId = u32;

/// The scheduler's name for a suspended task, used to wake it later.
pub type TaskId = u64;

/// A bound, listening socket as the registry sees it: the task waiting on it,
/// if any, and its local address in "host:port" form.
#[derive(Debug)]
pub struct TcpListenerResource {
    pub task: Option<TaskId>,
    pub local_addr: String,
}

/// The kinds of byte stream that the registry can hold.
#[derive(Debug, Clone, Copy, PartialEq, Eq, Structural)]
pub enum StreamResource {
    Stdin,
    Stdout,
    Stderr,
    FsFile,
    TcpStream,
}

/// A live resource: a listener or a stream.
#[derive(Debug)]
pub enum Resource {
    TcpListener(TcpListenerResource),
    Stream(StreamResource),
}

/// The listener `l` with `t` as its waiting task.
pub open spec fn with_task(l: TcpListenerResource, t: Option<TaskId>) -> TcpListenerResource {
    TcpListenerResource { task: t, local_addr: l.local_addr }
}

/// What tracking task `t` does to listener `l`: a free slot, or one that
/// already holds `t`, ends holding `t`; a slot held by another task is an error
/// and stays as it was.
pub open spec fn track_spec(l: TcpListenerResource, t: TaskId) -> Result<TcpListenerResource, NetError> {
    match l.task {
        None => Ok(with_task(l, Some(t))),
        Some(u) => if u == t {
            Ok(l)
        } else {
            Err(NetError::ConcurrentAcceptViolation)
        },
    }
}

impl TcpListenerResource {
    /// A listener with no waiting task.
    pub fn new(local_addr: String) -> (r: TcpListenerResource)
        ensures
            r.task is None,
            r.local_addr == local_addr,
    {
        TcpListenerResource { task: None, local_addr }
    }

    /// Tracks `current` as the task waiting for a connection, so that closing the
    /// listener can wake it. Only one task may wait at a time: when another one
    /// is already tracked, fails and keeps that one. Tracking the task that is
    /// already tracked changes nothing.
    pub fn track_task(&mut self, current: TaskId) -> (r: Result<(), NetError>)
        ensures
            match track_spec(*old(self), current) {
                Ok(l) => r is Ok && *final(self) == l,
                Err(e) => r == Err::<(), NetError>(e) && *final(self) == *old(self),
            },
            old(self).task is None ==> r is Ok && final(self).task == Some(current),
            old(self).task is Some && old(self).task != Some(current) ==> {
                &&& r == Err::<(), NetError>(NetError::ConcurrentAcceptViolation)
                &&& final(self).task == old(self).task
            },
            final(self).local_addr == old(self).local_addr,
    {
        match self.task {
            Some(u) => {
                if u == current {
                    Ok(())
                } else {
                    Err(NetError::ConcurrentAcceptViolation)
                }
            },
            None => {
                self.task = Some(current);
                Ok(())
            },
        }
    }

    /// Takes the waiting task out of the listener so that it can be woken: the
    /// listener is closing and the accept must observe it.
    pub fn notify_task(&mut self) -> (r: Option<TaskId>)
        ensures
            r == old(self).task,
            *final(self) == with_task(*old(self), None),
    {
        self.task.take()
    }

    /// Stops tracking the waiting task, once the accept that it ran is done.
    pub fn untrack_task(&mut self)
        ensures
            *final(self) == with_task(*old(self), None),
    {
        self.task = None;
    }
}

/// The registry of live resources, keyed by handle. Handles are handed out in
/// increasing order and never reused.
pub struct ResourceTable {
    map: HashMap<ResourceId, Resource>,
    next_id: ResourceId,
}

impl View for ResourceTable {
    type V = Map<ResourceId, Resource>;

    closed spec fn view(&self) -> Map<ResourceId, Resource> {
        self.map@
    }
}

/// Whether `rid` resolves to a listener in the registry contents `m`.
pub open spec fn is_listener(m: Map<ResourceId, Resource>, rid: ResourceId) -> bool {
    m.contains_key(rid) && m[rid] is TcpListener
}

/// The listener that `rid` resolves to in `m`.
pub open spec fn listener_of(m: Map<ResourceId, Resource>, rid: ResourceId) -> TcpListenerResource
    recommends
        is_listener(m, rid),
{
    m[rid]->TcpListener_0
}

/// What closing `rid` does to the registry contents `m`: the entry is removed,
/// and a listener's waiting task is handed out to be woken.
pub open spec fn close_spec(m: Map<ResourceId, Resource>, rid: ResourceId) -> (Map<
    ResourceId,
    Resource,
>, Result<Option<TaskId>, NetError>) {
    if !m.contains_key(rid) {
        (m, Err(NetError::BadResource))
    } else if m[rid] is TcpListener {
        (m.remove(rid), Ok(listener_of(m, rid).task))
    } else {
        (m.remove(rid), Ok(None))
    }
}

impl ResourceTable {
    /// The handle that the next added resource receives.
    pub closed spec fn next(&self) -> ResourceId {
        self.next_id
    }

    /// Every live handle lies below the next one to be handed out.
    pub closed spec fn wf(&self) -> bool {
        forall|k: ResourceId| #[trigger] self.map@.contains_key(k) ==> k < self.next_id
    }

    /// Room for one more handle.
    pub open spec fn has_room_spec(&self) -> bool {
        self.next() < u32::MAX
    }

    /// An empty registry.
    pub fn new() -> (r: ResourceTable)
        ensures
            r.wf(),
            r@ == Map::<ResourceId, Resource>::empty(),
            r.next() == 0,
    {
        ResourceTable { map: HashMap::new(), next_id: 0 }
    }

    /// Whether another resource can be added.
    pub fn has_room(&self) -> (r: bool)
        ensures
            r == self.has_room_spec(),
    {
        self.next_id < u32::MAX
    }

    /// Stores `resource` under a fresh handle and returns that handle.
    pub fn add(&mut self, resource: Resource) -> (rid: ResourceId)
        requires
            old(self).wf(),
            old(self).has_room_spec(),
        ensures
            final(self).wf(),
            rid == old(self).next(),
            final(self).next() == rid + 1,
            !old(self)@.contains_key(rid),
            final(self)@ == old(self)@.insert(rid, resource),
    {
        let rid = self.next_id;
        self.map.insert(rid, resource);
        self.next_id = rid + 1;
        rid
    }

    /// The resource that `rid` resolves to, if any.
    pub fn get(&self, rid: ResourceId) -> (r: Option<&Resource>)
        ensures
            match r {
                Some(res) => self@.contains_key(rid) && *res == self@[rid],
                None => !self@.contains_key(rid),
            },
    {
        self.map.get(&rid)
    }

    /// The listener that `rid` resolves to, if it resolves to one.
    pub fn get_listener(&self, rid: ResourceId) -> (r: Option<&TcpListenerResource>)
        ensures
            match r {
                Some(l) => is_listener(self@, rid) && *l == listener_of(self@, rid),
                None => !is_listener(self@, rid),
            },
    {
        match self.map.get(&rid) {
            Some(Resource::TcpListener(l)) => Some(l),
            _ => None,
        }
    }

    /// Takes the listener under `rid` out of the registry, to be changed and
    /// put back with `put_listener`. Anything else under `rid` stays.
    pub fn take_listener(&mut self, rid: ResourceId) -> (r: Option<TcpListenerResource>)
        requires
            old(self).wf(),
        ensures
            final(self).wf(),
            final(self).next() == old(self).next(),
            match r {
                Some(l) => {
                    &&& is_listener(old(self)@, rid)
                    &&& l == listener_of(old(self)@, rid)
                    &&& final(self)@ == old(self)@.remove(rid)
                    &&& rid < old(self).next()
                },
                None => !is_listener(old(self)@, rid) && final(self)@ == old(self)@,
            },
    {
        match self.map.remove(&rid) {
            Some(Resource::TcpListener(l)) => Some(l),
            Some(other) => {
                self.map.insert(rid, other);
                proof {
                    assert(self.map@ =~= old(self).map@);
                }
                None
            },
            None => None,
        }
    }

    /// Puts listener `l` under `rid`, a handle already handed out.
    pub fn put_listener(&mut self, rid: ResourceId, l: TcpListenerResource)
        requires
            old(self).wf(),
            rid < old(self).next(),
        ensures
            final(self).wf(),
            final(self).next() == old(self).next(),
            final(self)@ == old(self)@.insert(rid, Resource::TcpListener(l)),
    {
        self.map.insert(rid, Resource::TcpListener(l));
    }

    /// Removes the resource under `rid`. A listener is torn down first: its
    /// waiting task, if any, is taken out and returned so that the caller wakes
    /// it and the suspended accept observes that the listener is gone.
    pub fn close(&mut self, rid: ResourceId) -> (r: Result<Option<TaskId>, NetError>)
        requires
            old(self).wf(),
        ensures
            final(self).wf(),
            final(self).next() == old(self).next(),
            (final(self)@, r) == close_spec(old(self)@, rid),
    {
        match self.map.remove(&rid) {
            None => Err(NetError::BadResource),
            Some(Resource::TcpListener(l)) => {
                let mut l = l;
                Ok(l.notify_task())
            },
            Some(Resource::Stream(_)) => Ok(None),
        }
    }
}

} // verus!
