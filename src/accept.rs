use vstd::prelude::*;
use crate::error::NetError;
use crate::resource::{
    is_listener, listener_of, track_spec, with_task, Resource, ResourceId, ResourceTable, TaskId,
};

verus! {

/// Phase of an accept: nothing tried yet, suspended on the listener, finished.
#[derive(Debug, Clone, Copy, PartialEq, Eq, Structural)]
pub enum AcceptState {
    Eager,
    Pending,
    Done,
}

/// What a non-blocking accept on the listener's socket gave: a connection, no
/// connection yet, or a socket error.
#[derive(Debug)]
pub enum AcceptPoll<C> {
    Ready(C),
    NotReady,
    Failed(String),
}

/// Outcome of one step of an asynchronous operation.
#[derive(Debug)]
pub enum Async<T> {
    Ready(T),
    NotReady,
}

/// An accept in progress on the listener `rid`.
#[derive(Debug)]
pub struct Accept {
    pub accept_state: AcceptState,
    pub rid: ResourceId,
}

/// One step of an accept in phase `st` on listener `rid`, over registry contents
/// `m`, with `current` the running task and `outcome` what the socket gave.
/// Yields the next phase, the next registry contents and the step's result.
pub open spec fn poll_spec<C>(
    st: AcceptState,
    rid: ResourceId,
    m: Map<ResourceId, Resource>,
    current: TaskId,
    outcome: AcceptPoll<C>,
) -> (AcceptState, Map<ResourceId, Resource>, Result<Async<C>, NetError>) {
    if !is_listener(m, rid) {
        (st, m, Err(NetError::ListenerUnavailable))
    } else {
        let l = listener_of(m, rid);
        let cleared = m.insert(rid, Resource::TcpListener(with_task(l, None)));
        match st {
            AcceptState::Eager => match outcome {
                AcceptPoll::Ready(c) => (AcceptState::Done, m, Ok(Async::Ready(c))),
                AcceptPoll::NotReady => (AcceptState::Pending, m, Ok(Async::NotReady)),
                AcceptPoll::Failed(e) => (AcceptState::Done, m, Err(NetError::Io(e))),
            },
            _ => match outcome {
                AcceptPoll::Ready(c) => (AcceptState::Done, cleared, Ok(Async::Ready(c))),
                AcceptPoll::NotReady => match track_spec(l, current) {
                    Ok(l2) => (
                        AcceptState::Pending,
                        m.insert(rid, Resource::TcpListener(l2)),
                        Ok(Async::NotReady),
                    ),
                    Err(e) => (AcceptState::Pending, m, Err(e)),
                },
                AcceptPoll::Failed(e) => (AcceptState::Done, cleared, Err(NetError::Io(e))),
            },
        }
    }
}

/// A new accept on the listener `rid`, in its eager phase.
pub fn accept(rid: ResourceId) -> (r: Accept)
    ensures
        r.accept_state == AcceptState::Eager,
        r.rid == rid,
{
    Accept { accept_state: AcceptState::Eager, rid }
}

impl Accept {
    /// Whether the listener still stands in the registry; the socket is polled
    /// only while it does.
    pub fn listener_present(&self, table: &ResourceTable) -> (r: bool)
        ensures
            r == is_listener(table@, self.rid),
    {
        table.get_listener(self.rid).is_some()
    }

    /// Advances the accept by one step, given what polling the listener's socket
    /// gave. The listener is looked up afresh on every step: once it is gone the
    /// step fails with `ListenerUnavailable`, whatever the phase. In the eager
    /// phase the registry is left as it is; a first "not ready" only moves to
    /// the pending phase. In the pending phase a "not ready" tracks `current` as
    /// the listener's waiting task, and a connection or an error clears it.
    pub fn poll<C>(&mut self, table: &mut ResourceTable, current: TaskId, outcome: AcceptPoll<C>) -> (r:
        Result<Async<C>, NetError>)
        requires
            old(self).accept_state != AcceptState::Done,
            old(table).wf(),
        ensures
            final(table).wf(),
            final(table).next() == old(table).next(),
            final(self).rid == old(self).rid,
            (final(self).accept_state, final(table)@, r) == poll_spec(
                old(self).accept_state,
                old(self).rid,
                old(table)@,
                current,
                outcome,
            ),
    {
        let rid = self.rid;
        let mut l = match table.take_listener(rid) {
            Some(l) => l,
            None => {
                return Err(NetError::ListenerUnavailable);
            },
        };
        let ghost m = old(table)@;
        if self.accept_state == AcceptState::Eager {
            // A listener put back unchanged leaves the registry as it was.
            table.put_listener(rid, l);
            proof {
                assert(table@ =~= m);
            }
            match outcome {
                AcceptPoll::Ready(c) => {
                    self.accept_state = AcceptState::Done;
                    Ok(Async::Ready(c))
                },
                AcceptPoll::NotReady => {
                    self.accept_state = AcceptState::Pending;
                    Ok(Async::NotReady)
                },
                AcceptPoll::Failed(e) => {
                    self.accept_state = AcceptState::Done;
                    Err(NetError::Io(e))
                },
            }
        } else {
            match outcome {
                AcceptPoll::Ready(c) => {
                    l.untrack_task();
                    table.put_listener(rid, l);
                    proof {
                        assert(table@ =~= m.insert(rid, Resource::TcpListener(with_task(listener_of(m, rid), None))));
                    }
                    self.accept_state = AcceptState::Done;
                    Ok(Async::Ready(c))
                },
                AcceptPoll::NotReady => {
                    let r = l.track_task(current);
                    table.put_listener(rid, l);
                    match r {
                        Ok(()) => {
                            proof {
                                assert(table@ =~= m.insert(rid, Resource::TcpListener(l)));
                            }
                            Ok(Async::NotReady)
                        },
                        Err(e) => {
                            proof {
                                assert(table@ =~= m);
                            }
                            Err(e)
                        },
                    }
                },
                AcceptPoll::Failed(e) => {
                    l.untrack_task();
                    table.put_listener(rid, l);
                    proof {
                        assert(table@ =~= m.insert(rid, Resource::TcpListener(with_task(listener_of(m, rid), None))));
                    }
                    self.accept_state = AcceptState::Done;
                    Err(NetError::Io(e))
                },
            }
        }
    }
}

} // verus!
