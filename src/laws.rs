use vstd::prelude::*;
use crate::accept::{poll_spec, AcceptPoll, AcceptState, Async};
use crate::error::NetError;
use crate::resource::{
    close_spec, is_listener, listener_of, track_spec, Resource, ResourceId, TaskId,
};

verus! {

/// A listener admits one waiting accept: while task `first` waits on it, a
/// pending accept of another task that finds no connection fails with
/// `ConcurrentAcceptViolation`, and `first` stays the waiting task.
pub proof fn lemma_single_waiter<C>(
    m: Map<ResourceId, Resource>,
    rid: ResourceId,
    first: TaskId,
    second: TaskId,
)
    requires
        is_listener(m, rid),
        listener_of(m, rid).task == Some(first),
        first != second,
    ensures
        track_spec(listener_of(m, rid), second) == Err::<crate::resource::TcpListenerResource, NetError>(
            NetError::ConcurrentAcceptViolation,
        ),
        ({
            let (st, m2, r) = poll_spec(AcceptState::Pending, rid, m, second, AcceptPoll::<C>::NotReady);
            &&& r == Err::<Async<C>, NetError>(NetError::ConcurrentAcceptViolation)
            &&& m2 == m
            &&& listener_of(m2, rid).task == Some(first)
        }),
{
}

/// Closing a listener on which an accept is suspended hands out the waiting
/// task to be woken, and the accept's next step, whatever the socket reports,
/// fails with `ListenerUnavailable` and leaves the registry alone.
pub proof fn lemma_close_ends_pending_accept<C>(
    m: Map<ResourceId, Resource>,
    rid: ResourceId,
    waiting: TaskId,
    st: AcceptState,
    outcome: AcceptPoll<C>,
)
    requires
        is_listener(m, rid),
        listener_of(m, rid).task == Some(waiting),
    ensures
        ({
            let (m2, woken) = close_spec(m, rid);
            let (st2, m3, r) = poll_spec(st, rid, m2, waiting, outcome);
            &&& woken == Ok::<Option<TaskId>, NetError>(Some(waiting))
            &&& !m2.contains_key(rid)
            &&& r == Err::<Async<C>, NetError>(NetError::ListenerUnavailable)
            &&& m3 == m2
            &&& st2 == st
        }),
{
}

/// The eager phase never touches the listener's waiting slot: a first step that
/// finds a connection completes at once and leaves the registry as it was, and
/// one that finds none only moves to the pending phase.
pub proof fn lemma_eager_fast_path<C>(
    m: Map<ResourceId, Resource>,
    rid: ResourceId,
    current: TaskId,
    conn: C,
)
    requires
        is_listener(m, rid),
    ensures
        poll_spec(AcceptState::Eager, rid, m, current, AcceptPoll::Ready(conn)) == (
            AcceptState::Done,
            m,
            Ok::<Async<C>, NetError>(Async::Ready(conn)),
        ),
        poll_spec(AcceptState::Eager, rid, m, current, AcceptPoll::<C>::NotReady) == (
            AcceptState::Pending,
            m,
            Ok::<Async<C>, NetError>(Async::NotReady),
        ),
{
}

/// The waiting slot follows one accept on an idle listener: the eager step
/// leaves it empty, the next step that finds no connection fills it with the
/// accepting task, and the step that then finds a connection empties it again.
pub proof fn lemma_waiting_slot_lifecycle<C>(
    m: Map<ResourceId, Resource>,
    rid: ResourceId,
    current: TaskId,
    conn: C,
)
    requires
        is_listener(m, rid),
        listener_of(m, rid).task is None,
    ensures
        ({
            let (st1, m1, r1) = poll_spec(AcceptState::Eager, rid, m, current, AcceptPoll::<C>::NotReady);
            let (st2, m2, r2) = poll_spec(st1, rid, m1, current, AcceptPoll::<C>::NotReady);
            let (st3, m3, r3) = poll_spec(st2, rid, m2, current, AcceptPoll::Ready(conn));
            &&& m1 == m && st1 == AcceptState::Pending
            &&& r2 == Ok::<Async<C>, NetError>(Async::NotReady) && st2 == AcceptState::Pending
            &&& listener_of(m2, rid).task == Some(current)
            &&& r3 == Ok::<Async<C>, NetError>(Async::Ready(conn)) && st3 == AcceptState::Done
            &&& is_listener(m3, rid) && listener_of(m3, rid).task is None
            &&& m3 == m
        }),
{
    let l = listener_of(m, rid);
    let (st1, m1, r1) = poll_spec(AcceptState::Eager, rid, m, current, AcceptPoll::<C>::NotReady);
    let (st2, m2, r2) = poll_spec(st1, rid, m1, current, AcceptPoll::<C>::NotReady);
    let (st3, m3, r3) = poll_spec(st2, rid, m2, current, AcceptPoll::Ready(conn));
    assert(listener_of(m3, rid) == l);
    assert(m3 =~= m);
}

} // verus!
