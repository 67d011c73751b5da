use net_ops::accept::{accept, Accept, AcceptPoll, AcceptState, Async};
use net_ops::error::NetError;
use net_ops::ops::{
    add_tcp_stream, is_supported_transport, op_accept, op_dial, op_listen, op_shutdown,
    AcceptArgs, DialArgs, ListenArgs, Shutdown, ShutdownArgs,
};
use net_ops::resource::{Resource, ResourceTable, StreamResource, TcpListenerResource};

fn listen_args() -> ListenArgs {
    ListenArgs { transport: "tcp".to_string(), hostname: "127.0.0.1".to_string(), port: 0 }
}

fn dial_args(port: u16) -> DialArgs {
    DialArgs { transport: "tcp".to_string(), hostname: "127.0.0.1".to_string(), port }
}

fn listen(table: &mut ResourceTable, addr: &str) -> u32 {
    op_listen(table, &listen_args(), Ok(addr.to_string())).unwrap().rid
}

fn waiting_task(table: &ResourceTable, rid: u32) -> Option<u64> {
    table.get_listener(rid).unwrap().task
}

#[test]
fn listen_stores_listener_without_task() {
    let mut table = ResourceTable::new();
    let reply = op_listen(&mut table, &listen_args(), Ok("127.0.0.1:4500".to_string())).unwrap();
    assert_eq!(reply.rid, 0);
    assert_eq!(reply.local_addr, "127.0.0.1:4500");
    let l = table.get_listener(reply.rid).unwrap();
    assert_eq!(l.task, None);
    assert_eq!(l.local_addr, "127.0.0.1:4500");
}

#[test]
fn listen_failure_leaves_registry_alone() {
    let mut table = ResourceTable::new();
    let r = op_listen(&mut table, &listen_args(), Err(NetError::PermissionDenied("denied".to_string())));
    assert!(matches!(r, Err(NetError::PermissionDenied(ref m)) if m == "denied"));
    assert!(table.get(0).is_none());
    let rid = listen(&mut table, "127.0.0.1:1");
    assert_eq!(rid, 0);
}

#[test]
fn handles_are_fresh() {
    let mut table = ResourceTable::new();
    let a = listen(&mut table, "127.0.0.1:1");
    let b = listen(&mut table, "127.0.0.1:2");
    assert_ne!(a, b);
    table.close(a).unwrap();
    let c = listen(&mut table, "127.0.0.1:3");
    assert_ne!(c, a);
    assert_ne!(c, b);
}

#[test]
fn transport_check() {
    assert!(is_supported_transport(&"tcp".to_string()));
    assert!(!is_supported_transport(&"udp".to_string()));
    assert!(!is_supported_transport(&"TCP".to_string()));
    assert!(!is_supported_transport(&"".to_string()));
}

#[test]
fn accept_on_unknown_handle_is_bad_resource() {
    let table = ResourceTable::new();
    assert!(matches!(op_accept(&table, &AcceptArgs { rid: 3 }), Err(NetError::BadResource)));
}

#[test]
fn accept_on_stream_is_bad_resource() {
    let mut table = ResourceTable::new();
    let s = add_tcp_stream(&mut table, Ok(("a:1".to_string(), "b:2".to_string()))).unwrap();
    assert!(matches!(op_accept(&table, &AcceptArgs { rid: s.rid as i32 }), Err(NetError::BadResource)));
}

#[test]
fn shutdown_on_unknown_handle_is_bad_resource() {
    let table = ResourceTable::new();
    assert!(matches!(op_shutdown(&table, &ShutdownArgs { rid: 9, how: 0 }), Err(NetError::BadResource)));
}

#[test]
fn shutdown_on_listener_or_other_stream_is_bad_resource() {
    let mut table = ResourceTable::new();
    let l = listen(&mut table, "127.0.0.1:1");
    assert!(matches!(op_shutdown(&table, &ShutdownArgs { rid: l as i32, how: 1 }), Err(NetError::BadResource)));
    let f = table.add(Resource::Stream(StreamResource::FsFile));
    assert!(matches!(op_shutdown(&table, &ShutdownArgs { rid: f as i32, how: 0 }), Err(NetError::BadResource)));
}

#[test]
fn shutdown_modes() {
    let mut table = ResourceTable::new();
    let s = add_tcp_stream(&mut table, Ok(("a:1".to_string(), "b:2".to_string()))).unwrap();
    assert_eq!(op_shutdown(&table, &ShutdownArgs { rid: s.rid as i32, how: 0 }).unwrap(), Shutdown::Read);
    assert_eq!(op_shutdown(&table, &ShutdownArgs { rid: s.rid as i32, how: 1 }).unwrap(), Shutdown::Write);
    assert!(matches!(table.get(s.rid), Some(Resource::Stream(StreamResource::TcpStream))));
}

#[test]
fn eager_accept_with_pending_connection_registers_no_task() {
    let mut table = ResourceTable::new();
    let l = listen(&mut table, "127.0.0.1:4500");
    let mut a = op_accept(&table, &AcceptArgs { rid: l as i32 }).unwrap();
    assert_eq!(a.accept_state, AcceptState::Eager);
    let r = a.poll(&mut table, 1, AcceptPoll::Ready(42u32));
    assert!(matches!(r, Ok(Async::Ready(42))));
    assert_eq!(a.accept_state, AcceptState::Done);
    assert_eq!(waiting_task(&table, l), None);
}

#[test]
fn eager_not_ready_moves_to_pending_without_task() {
    let mut table = ResourceTable::new();
    let l = listen(&mut table, "127.0.0.1:4500");
    let mut a = accept(l);
    let r = a.poll(&mut table, 1, AcceptPoll::<u32>::NotReady);
    assert!(matches!(r, Ok(Async::NotReady)));
    assert_eq!(a.accept_state, AcceptState::Pending);
    assert_eq!(waiting_task(&table, l), None);
}

#[test]
fn eager_error_finishes() {
    let mut table = ResourceTable::new();
    let l = listen(&mut table, "127.0.0.1:4500");
    let mut a = accept(l);
    let r = a.poll(&mut table, 1, AcceptPoll::<u32>::Failed("reset".to_string()));
    assert!(matches!(r, Err(NetError::Io(ref m)) if m == "reset"));
    assert_eq!(a.accept_state, AcceptState::Done);
}

fn pending_accept(table: &mut ResourceTable, l: u32, task: u64) -> Accept {
    let mut a = accept(l);
    a.poll(table, task, AcceptPoll::<u32>::NotReady).unwrap();
    a.poll(table, task, AcceptPoll::<u32>::NotReady).unwrap();
    a
}

#[test]
fn pending_accept_tracks_task_then_clears_it() {
    let mut table = ResourceTable::new();
    let l = listen(&mut table, "127.0.0.1:4500");
    let mut a = pending_accept(&mut table, l, 5);
    assert_eq!(a.accept_state, AcceptState::Pending);
    assert_eq!(waiting_task(&table, l), Some(5));
    let r = a.poll(&mut table, 5, AcceptPoll::Ready(7u32));
    assert!(matches!(r, Ok(Async::Ready(7))));
    assert_eq!(a.accept_state, AcceptState::Done);
    assert_eq!(waiting_task(&table, l), None);
}

#[test]
fn pending_error_clears_task() {
    let mut table = ResourceTable::new();
    let l = listen(&mut table, "127.0.0.1:4500");
    let mut a = pending_accept(&mut table, l, 5);
    let r = a.poll(&mut table, 5, AcceptPoll::<u32>::Failed("boom".to_string()));
    assert!(matches!(r, Err(NetError::Io(_))));
    assert_eq!(a.accept_state, AcceptState::Done);
    assert_eq!(waiting_task(&table, l), None);
}

#[test]
fn repoll_by_same_task_is_no_violation() {
    let mut table = ResourceTable::new();
    let l = listen(&mut table, "127.0.0.1:4500");
    let mut a = pending_accept(&mut table, l, 5);
    let r = a.poll(&mut table, 5, AcceptPoll::<u32>::NotReady);
    assert!(matches!(r, Ok(Async::NotReady)));
    assert_eq!(waiting_task(&table, l), Some(5));
}

#[test]
fn second_waiter_is_refused() {
    let mut table = ResourceTable::new();
    let l = listen(&mut table, "127.0.0.1:4500");
    let _first = pending_accept(&mut table, l, 5);
    let mut second = accept(l);
    second.poll(&mut table, 6, AcceptPoll::<u32>::NotReady).unwrap();
    let r = second.poll(&mut table, 6, AcceptPoll::<u32>::NotReady);
    assert!(matches!(r, Err(NetError::ConcurrentAcceptViolation)));
    assert_eq!(waiting_task(&table, l), Some(5));
}

#[test]
fn track_task_keeps_first_waiter() {
    let mut l = TcpListenerResource::new("127.0.0.1:1".to_string());
    assert!(l.track_task(1).is_ok());
    assert_eq!(l.task, Some(1));
    assert!(matches!(l.track_task(2), Err(NetError::ConcurrentAcceptViolation)));
    assert_eq!(l.task, Some(1));
    assert_eq!(l.notify_task(), Some(1));
    assert_eq!(l.task, None);
    assert_eq!(l.notify_task(), None);
    l.track_task(3).unwrap();
    l.untrack_task();
    assert_eq!(l.task, None);
}

#[test]
fn closing_listener_wakes_and_fails_pending_accept() {
    let mut table = ResourceTable::new();
    let l = listen(&mut table, "127.0.0.1:4500");
    let mut a = pending_accept(&mut table, l, 5);
    assert_eq!(table.close(l).unwrap(), Some(5));
    assert!(!a.listener_present(&table));
    let r = a.poll(&mut table, 5, AcceptPoll::Ready(1u32));
    assert!(matches!(r, Err(NetError::ListenerUnavailable)));
    assert!(matches!(table.close(l), Err(NetError::BadResource)));
}

#[test]
fn closing_idle_listener_wakes_nobody() {
    let mut table = ResourceTable::new();
    let l = listen(&mut table, "127.0.0.1:4500");
    assert_eq!(table.close(l).unwrap(), None);
}

#[test]
fn dial_stores_stream() {
    let mut table = ResourceTable::new();
    let r = op_dial(&mut table, &dial_args(80), Ok(("127.0.0.1:50000".to_string(), "127.0.0.1:80".to_string()))).unwrap();
    assert_eq!(r.rid, 0);
    assert_eq!(r.local_addr, "127.0.0.1:50000");
    assert_eq!(r.remote_addr, "127.0.0.1:80");
    assert!(matches!(table.get(0), Some(Resource::Stream(StreamResource::TcpStream))));
}

#[test]
fn dial_failure_is_returned() {
    let mut table = ResourceTable::new();
    let r = op_dial(&mut table, &dial_args(80), Err(NetError::AddressResolutionFailed("no host".to_string())));
    assert!(matches!(r, Err(NetError::AddressResolutionFailed(_))));
    assert!(table.get(0).is_none());
}

#[test]
fn listen_dial_accept_scenario() {
    let mut table = ResourceTable::new();
    let lr = op_listen(&mut table, &listen_args(), Ok("127.0.0.1:4501".to_string())).unwrap();
    assert_eq!(lr.local_addr, "127.0.0.1:4501");
    let mut a = op_accept(&table, &AcceptArgs { rid: lr.rid as i32 }).unwrap();
    let dialed = op_dial(&mut table, &dial_args(4501), Ok(("127.0.0.1:50001".to_string(), "127.0.0.1:4501".to_string()))).unwrap();
    let conn = match a.poll(&mut table, 1, AcceptPoll::Ready(("127.0.0.1:4501".to_string(), "127.0.0.1:50001".to_string()))) {
        Ok(Async::Ready(c)) => c,
        _ => panic!("accept did not complete"),
    };
    let accepted = add_tcp_stream(&mut table, Ok(conn)).unwrap();
    assert_eq!(accepted.remote_addr, dialed.local_addr);
    assert_eq!(accepted.local_addr, dialed.remote_addr);
    assert_ne!(accepted.rid, dialed.rid);
    assert_ne!(accepted.rid, lr.rid);
}

#[test]
fn error_messages() {
    assert_eq!(NetError::ListenerUnavailable.message(), "Listener has been closed");
    assert_eq!(NetError::Io("x".to_string()).message(), "x");
}

#[test]
fn table_room() {
    let table = ResourceTable::new();
    assert!(table.has_room());
}
