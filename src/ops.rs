use vstd::prelude::*;
use crate::accept::{accept, Accept, AcceptState};
use crate::error::NetError;
use crate::resource::{
    is_listener, Resource, ResourceId, ResourceTable, StreamResource, TcpListenerResource,
};

verus! {

/// Arguments of listen: transport, host name and port to bind.
#[derive(Debug)]
pub struct ListenArgs {
    pub transport: String,
    pub hostname: String,
    pub port: u16,
}

/// Arguments of dial: transport, host name and port to connect to.
#[derive(Debug)]
pub struct DialArgs {
    pub transport: String,
    pub hostname: String,
    pub port: u16,
}

/// Arguments of accept: the listener's handle as the caller wrote it.
#[derive(Debug, Clone, Copy)]
pub struct AcceptArgs {
    pub rid: i32,
}

/// Arguments of shutdown: the stream's handle and the direction to close
/// (0 for reading, 1 for writing).
#[derive(Debug, Clone, Copy)]
pub struct ShutdownArgs {
    pub rid: i32,
    pub how: i32,
}

/// The direction of a half-close.
#[derive(Debug, Clone, Copy, PartialEq, Eq, Structural)]
pub enum Shutdown {
    Read,
    Write,
}

/// Reply of listen: the listener's handle and its local address.
#[derive(Debug)]
pub struct ListenReply {
    pub rid: ResourceId,
    pub local_addr: String,
}

/// Reply of accept and dial: the new stream's handle and both of its ends.
#[derive(Debug)]
pub struct StreamReply {
    pub rid: ResourceId,
    pub local_addr: String,
    pub remote_addr: String,
}

/// The one transport supported.
pub open spec fn is_tcp(transport: Seq<char>) -> bool {
    transport == "tcp"@
}

/// Whether `mode` is a half-close mode: 0 closes reading, 1 closes writing.
pub open spec fn is_shutdown_mode(mode: i32) -> bool {
    mode == 0 || mode == 1
}

/// The handle that a caller's integer names.
pub open spec fn handle_of(rid: i32) -> ResourceId {
    rid as ResourceId
}

/// Whether `transport` names the one supported transport.
pub fn is_supported_transport(transport: &String) -> (r: bool)
    ensures
        r == is_tcp(transport@),
{
    let tcp = "tcp".to_string();
    proof {
        reveal_strlit("tcp");
    }
    *transport == tcp
}

/// Finishes listen once the permission check, the address resolution and the
/// bind have run, in that order: `bound` is the first failure among them, or
/// the local address of the bound socket. On success the listener is stored
/// under a fresh handle with no waiting task; on failure the registry is left
/// as it was and the failure is returned.
pub fn op_listen(table: &mut ResourceTable, args: &ListenArgs, bound: Result<String, NetError>) -> (r:
    Result<ListenReply, NetError>)
    requires
        is_tcp(args.transport@),
        old(table).wf(),
        old(table).has_room_spec(),
    ensures
        final(table).wf(),
        match bound {
            Ok(addr) => {
                &&& r matches Ok(reply)
                &&& reply.rid == old(table).next()
                &&& reply.local_addr == addr
                &&& !old(table)@.contains_key(reply.rid)
                &&& final(table)@ == old(table)@.insert(
                    reply.rid,
                    Resource::TcpListener(TcpListenerResource { task: None, local_addr: addr }),
                )
            },
            Err(e) => r == Err::<ListenReply, NetError>(e) && final(table)@ == old(table)@
                && final(table).next() == old(table).next(),
        },
{
    match bound {
        Ok(addr) => {
            let reply_addr = addr.clone();
            let rid = table.add(Resource::TcpListener(TcpListenerResource::new(addr)));
            Ok(ListenReply { rid, local_addr: reply_addr })
        },
        Err(e) => Err(e),
    }
}

/// Starts accept on the listener that `args.rid` names. The handle is checked
/// once, up front: when it does not resolve to a listener the call fails with
/// `BadResource` at once. Otherwise returns the accept, in its eager phase.
pub fn op_accept(table: &ResourceTable, args: &AcceptArgs) -> (r: Result<Accept, NetError>)
    ensures
        is_listener(table@, handle_of(args.rid)) ==> (r matches Ok(a) && a.accept_state
            == AcceptState::Eager && a.rid == handle_of(args.rid)),
        !is_listener(table@, handle_of(args.rid)) ==> r == Err::<Accept, NetError>(
            NetError::BadResource,
        ),
{
    let rid = args.rid as u32;
    match table.get_listener(rid) {
        Some(_) => Ok(accept(rid)),
        None => Err(NetError::BadResource),
    }
}

/// Stores a connected stream, given its two addresses or the error met while
/// reading them, and replies with its handle and addresses. Ends both accept
/// and dial.
pub fn add_tcp_stream(table: &mut ResourceTable, addrs: Result<(String, String), NetError>) -> (r:
    Result<StreamReply, NetError>)
    requires
        old(table).wf(),
        old(table).has_room_spec(),
    ensures
        final(table).wf(),
        match addrs {
            Ok((local, remote)) => {
                &&& r matches Ok(reply)
                &&& reply.rid == old(table).next()
                &&& reply.local_addr == local
                &&& reply.remote_addr == remote
                &&& !old(table)@.contains_key(reply.rid)
                &&& final(table)@ == old(table)@.insert(
                    reply.rid,
                    Resource::Stream(StreamResource::TcpStream),
                )
            },
            Err(e) => r == Err::<StreamReply, NetError>(e) && final(table)@ == old(table)@
                && final(table).next() == old(table).next(),
        },
{
    match addrs {
        Ok((local_addr, remote_addr)) => {
            let rid = table.add(Resource::Stream(StreamResource::TcpStream));
            Ok(StreamReply { rid, local_addr, remote_addr })
        },
        Err(e) => Err(e),
    }
}

/// Finishes dial once the permission check, the resolution and the connect
/// have run, in that order: `connected` is the first failure among them, or the
/// addresses of the connected stream, which is then stored.
pub fn op_dial(
    table: &mut ResourceTable,
    args: &DialArgs,
    connected: Result<(String, String), NetError>,
) -> (r: Result<StreamReply, NetError>)
    requires
        is_tcp(args.transport@),
        old(table).wf(),
        old(table).has_room_spec(),
    ensures
        final(table).wf(),
        match connected {
            Ok((local, remote)) => {
                &&& r matches Ok(reply)
                &&& reply.rid == old(table).next()
                &&& reply.local_addr == local
                &&& reply.remote_addr == remote
                &&& !old(table)@.contains_key(reply.rid)
                &&& final(table)@ == old(table)@.insert(
                    reply.rid,
                    Resource::Stream(StreamResource::TcpStream),
                )
            },
            Err(e) => r == Err::<StreamReply, NetError>(e) && final(table)@ == old(table)@
                && final(table).next() == old(table).next(),
        },
{
    add_tcp_stream(table, connected)
}

/// Decides shutdown: the direction to close on the stream that `args.rid`
/// names. Fails with `BadResource` when the handle does not resolve to a TCP
/// stream. The registry is not changed; the half-close itself is applied to the
/// socket by the caller.
pub fn op_shutdown(table: &ResourceTable, args: &ShutdownArgs) -> (r: Result<Shutdown, NetError>)
    requires
        is_shutdown_mode(args.how),
    ensures
        ({
            let rid = handle_of(args.rid);
            if table@.contains_key(rid) && table@[rid] == Resource::Stream(StreamResource::TcpStream) {
                r == Ok::<Shutdown, NetError>(if args.how == 0 { Shutdown::Read } else { Shutdown::Write })
            } else {
                r == Err::<Shutdown, NetError>(NetError::BadResource)
            }
        }),
{
    let mode = if args.how == 0 {
        Shutdown::Read
    } else {
        Shutdown::Write
    };
    let rid = args.rid as u32;
    match table.get(rid) {
        Some(Resource::Stream(StreamResource::TcpStream)) => Ok(mode),
        _ => Err(NetError::BadResource),
    }
}

} // verus!
