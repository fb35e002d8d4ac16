//! How the sockets of the server are made.
use vstd::prelude::*;
use vstd::string::*;

use crate::addr::IpAddr;
use crate::config::{TcpSocketConfig, UdpSocketConfig};
use crate::text::{append_decimal, decimal};

verus! {

/// The family and kind of a socket.
#[derive(Clone, Copy, Debug, PartialEq, Eq, Structural)]
pub enum SocketKind {
    Ipv4Stream,
    Ipv6Stream,
    Ipv4Datagram,
    Ipv6Datagram,
}

/// One step in the making of a socket. The first that fails ends it.
#[derive(Clone, Copy, Debug, PartialEq, Eq, Structural)]
pub enum SocketOp {
    /// Make the socket.
    Create(SocketKind),
    /// Accept no IPv4 traffic on an IPv6 socket.
    SetOnlyV6,
    /// Allow the address to be bound again at once.
    SetReuseAddress,
    /// Allow several sockets on the same port.
    SetReusePort,
    /// Let no operation block.
    SetNonblocking,
    /// Ask for a receive buffer of this size.
    SetRecvBufferSize(usize),
    /// Ask for a send buffer of this size.
    SetSendBufferSize(usize),
    /// Look at the sizes that the system gave, and warn of those that fall short.
    ReportBufferSizes,
    /// Bind the socket.
    Bind { ip: IpAddr, port: u16 },
    /// Listen with this backlog.
    Listen(i32),
}

/// The steps that make a socket of the right family: on an IPv6 address, one that accepts no IPv4
/// traffic.
pub open spec fn creation(ip: IpAddr, v4: SocketKind, v6: SocketKind) -> Seq<SocketOp> {
    if ip is V4 {
        seq![SocketOp::Create(v4)]
    } else {
        seq![SocketOp::Create(v6), SocketOp::SetOnlyV6]
    }
}

/// `op` if it is asked for, and nothing otherwise.
pub open spec fn optional(wanted: bool, op: SocketOp) -> Seq<SocketOp> {
    if wanted {
        seq![op]
    } else {
        Seq::empty()
    }
}

/// The making of a TCP listener.
pub open spec fn tcp_listener_ops(ip: IpAddr, port: u16, config: TcpSocketConfig) -> Seq<SocketOp> {
    creation(ip, SocketKind::Ipv4Stream, SocketKind::Ipv6Stream) + seq![
        SocketOp::SetReuseAddress,
        SocketOp::SetNonblocking,
        SocketOp::Bind { ip, port },
        SocketOp::Listen(config.listen_backlog),
    ]
}

/// What is asked of a UDP socket before it is bound.
pub open spec fn udp_options(config: UdpSocketConfig) -> Seq<SocketOp> {
    let recv = config.recv_buffer_size;
    let send = config.send_buffer_size;
    seq![SocketOp::SetNonblocking] + optional(
        config.sockets is Some && config.sockets->0 > 1,
        SocketOp::SetReusePort,
    ) + optional(recv is Some, SocketOp::SetRecvBufferSize(recv->0)) + optional(
        send is Some,
        SocketOp::SetSendBufferSize(send->0),
    ) + optional(recv is Some || send is Some, SocketOp::ReportBufferSizes)
}

/// The making of a UDP socket.
pub open spec fn udp_socket_ops(ip: IpAddr, port: u16, config: UdpSocketConfig) -> Seq<SocketOp> {
    creation(ip, SocketKind::Ipv4Datagram, SocketKind::Ipv6Datagram) + udp_options(config) + seq![
        SocketOp::Bind { ip, port },
    ]
}

fn append_creation(ops: &mut Vec<SocketOp>, ip: IpAddr, v4: SocketKind, v6: SocketKind)
    ensures
        final(ops)@ == old(ops)@ + creation(ip, v4, v6),
{
    if ip.is_ipv4() {
        ops.push(SocketOp::Create(v4));
    } else {
        ops.push(SocketOp::Create(v6));
        ops.push(SocketOp::SetOnlyV6);
    }
    proof {
        assert(ops@ =~= old(ops)@ + creation(ip, v4, v6));
    }
}

/// The making of a TCP listener for an address and a port; IPv6 listeners will not accept v4
/// connections.
pub fn build_tcp_listener(ip: IpAddr, port: u16, socket_config: TcpSocketConfig) -> (res: Vec<
    SocketOp,
>)
    ensures
        res@ == tcp_listener_ops(ip, port, socket_config),
{
    let mut ops: Vec<SocketOp> = Vec::new();
    append_creation(&mut ops, ip, SocketKind::Ipv4Stream, SocketKind::Ipv6Stream);
    ops.push(SocketOp::SetReuseAddress);
    ops.push(SocketOp::SetNonblocking);
    ops.push(SocketOp::Bind { ip, port });
    ops.push(SocketOp::Listen(socket_config.listen_backlog));
    proof {
        assert(ops@ =~= tcp_listener_ops(ip, port, socket_config));
    }
    ops
}

/// The making of a UDP socket for an address and a port; IPv6 sockets will not accept v4
/// connections.
pub fn build_udp_socket(ip: IpAddr, port: u16, socket_config: UdpSocketConfig) -> (res: Vec<
    SocketOp,
>)
    ensures
        res@ == udp_socket_ops(ip, port, socket_config),
{
    let mut ops: Vec<SocketOp> = Vec::new();
    append_creation(&mut ops, ip, SocketKind::Ipv4Datagram, SocketKind::Ipv6Datagram);
    ops.push(SocketOp::SetNonblocking);
    if let Some(count) = socket_config.sockets {
        if count > 1 {
            ops.push(SocketOp::SetReusePort);
        }
    }
    if let Some(size) = socket_config.recv_buffer_size {
        ops.push(SocketOp::SetRecvBufferSize(size));
    }
    if let Some(size) = socket_config.send_buffer_size {
        ops.push(SocketOp::SetSendBufferSize(size));
    }
    if socket_config.recv_buffer_size.is_some() || socket_config.send_buffer_size.is_some() {
        ops.push(SocketOp::ReportBufferSizes);
    }
    ops.push(SocketOp::Bind { ip, port });
    proof {
        assert(ops@ =~= udp_socket_ops(ip, port, socket_config));
    }
    ops
}

/// A receive buffer of `actual` bytes where more were asked for.
pub open spec fn recv_warning(actual: nat, requested: nat) -> Seq<char> {
    "kernel capped UDP recv buffer at "@ + decimal(actual) + ", below the requested "@ + decimal(
        requested,
    )
        + "; increase net.core.rmem_max (Linux) or kern.ipc.maxsockbuf (BSD/macOS) to absorb traffic bursts as configured"@
}

/// A send buffer of `actual` bytes where more were asked for.
pub open spec fn send_warning(actual: nat, requested: nat) -> Seq<char> {
    "kernel capped UDP send buffer at "@ + decimal(actual) + ", below the requested "@ + decimal(
        requested,
    ) + "; increase net.core.wmem_max (Linux) or kern.ipc.maxsockbuf (BSD/macOS)"@
}

/// The warning of a receive buffer that falls short of what was asked for.
pub fn recv_buffer_warning(config: UdpSocketConfig, actual_recv: usize) -> (res: Option<String>)
    ensures
        match config.recv_buffer_size {
            Some(requested) if actual_recv < requested => res matches Some(text) && text@
                == recv_warning(actual_recv as nat, requested as nat),
            _ => res is None,
        },
{
    match config.recv_buffer_size {
        Some(requested) => if actual_recv < requested {
            let mut text = "kernel capped UDP recv buffer at ".to_string();
            append_decimal(&mut text, actual_recv as u64);
            text.append(", below the requested ");
            append_decimal(&mut text, requested as u64);
            text.append(
                "; increase net.core.rmem_max (Linux) or kern.ipc.maxsockbuf (BSD/macOS) to absorb traffic bursts as configured",
            );
            Some(text)
        } else {
            None
        },
        None => None,
    }
}

/// The warning of a send buffer that falls short of what was asked for.
pub fn send_buffer_warning(config: UdpSocketConfig, actual_send: usize) -> (res: Option<String>)
    ensures
        match config.send_buffer_size {
            Some(requested) if actual_send < requested => res matches Some(text) && text@
                == send_warning(actual_send as nat, requested as nat),
            _ => res is None,
        },
{
    match config.send_buffer_size {
        Some(requested) => if actual_send < requested {
            let mut text = "kernel capped UDP send buffer at ".to_string();
            append_decimal(&mut text, actual_send as u64);
            text.append(", below the requested ");
            append_decimal(&mut text, requested as u64);
            text.append(
                "; increase net.core.wmem_max (Linux) or kern.ipc.maxsockbuf (BSD/macOS)",
            );
            Some(text)
        } else {
            None
        },
        None => None,
    }
}

/// A socket on an IPv6 address never accepts IPv4 traffic: the option is set before the socket is
/// bound, which is once, and to the address that was asked for.
pub open spec fn only_v6_when_bound(ops: Seq<SocketOp>, ip: IpAddr, port: u16) -> bool {
    exists|bound: int|
        0 <= bound < ops.len() && (#[trigger] ops[bound]) == (SocketOp::Bind { ip, port }) && (ip is V6
            ==> ops.take(bound).contains(SocketOp::SetOnlyV6)) && forall|k: int|
            0 <= k < ops.len() && k != bound ==> !((#[trigger] ops[k]) is Bind)
}

/// TCP listeners on IPv6 addresses do not accept IPv4 connections.
pub proof fn tcp_listeners_keep_families_apart(ip: IpAddr, port: u16, config: TcpSocketConfig)
    ensures
        only_v6_when_bound(tcp_listener_ops(ip, port, config), ip, port),
{
    let ops = tcp_listener_ops(ip, port, config);
    let bound = ops.len() - 2;
    assert(ops[bound] == (SocketOp::Bind { ip, port }));
    if ip is V6 {
        assert(ops.take(bound)[1] == SocketOp::SetOnlyV6);
    }
}

/// UDP sockets on IPv6 addresses do not accept IPv4 datagrams.
pub proof fn udp_sockets_keep_families_apart(ip: IpAddr, port: u16, config: UdpSocketConfig)
    ensures
        only_v6_when_bound(udp_socket_ops(ip, port, config), ip, port),
{
    let ops = udp_socket_ops(ip, port, config);
    let bound = ops.len() - 1;
    assert(ops[bound] == (SocketOp::Bind { ip, port }));
    if ip is V6 {
        assert(ops.take(bound)[1] == SocketOp::SetOnlyV6);
    }
}

/// Several sockets are allowed on the port of a UDP socket just where several are configured.
pub proof fn udp_ports_are_shared_as_configured(ip: IpAddr, port: u16, config: UdpSocketConfig)
    ensures
        udp_socket_ops(ip, port, config).contains(SocketOp::SetReusePort) <==> (
        config.sockets matches Some(count) && count > 1),
{
    let ops = udp_socket_ops(ip, port, config);
    let lead = creation(ip, SocketKind::Ipv4Datagram, SocketKind::Ipv6Datagram);
    if config.sockets is Some && config.sockets->0 > 1 {
        assert(ops[lead.len() as int + 1] == SocketOp::SetReusePort);
    } else {
        assert forall|k: int| 0 <= k < ops.len() implies ops[k] != SocketOp::SetReusePort by {}
    }
}

/// What is asked of a UDP socket is what its configuration gives, whatever else that gives: each
/// buffer size just where it is configured, and the sharing of the port just where several sockets
/// are. The socket is made first, for the family of its address, and bound last; nothing blocks on
/// it, and on IPv6 it takes no IPv4 traffic. Buffer sizes are looked at once they are set.
pub proof fn udp_sockets_are_made_as_configured(
    ip: IpAddr,
    port: u16,
    config: UdpSocketConfig,
    res: Vec<SocketOp>,
)
    requires
        call_ensures(build_udp_socket, (ip, port, config), res),
    ensures
        res@.len() >= 3,
        res@[0] == SocketOp::Create(
            if ip is V4 {
                SocketKind::Ipv4Datagram
            } else {
                SocketKind::Ipv6Datagram
            },
        ),
        res@[res@.len() - 1] == (SocketOp::Bind { ip, port }),
        forall|i: int| 0 < i < res@.len() ==> !((#[trigger] res@[i]) is Create),
        forall|i: int| 0 <= i < res@.len() - 1 ==> !((#[trigger] res@[i]) is Bind),
        res@.contains(SocketOp::SetNonblocking),
        res@.contains(SocketOp::SetOnlyV6) <==> ip is V6,
        res@.contains(SocketOp::SetReusePort) <==> (config.sockets is Some && config.sockets->0 > 1),
        forall|n: usize| #[trigger]
            res@.contains(SocketOp::SetRecvBufferSize(n)) <==> config.recv_buffer_size == Some(n),
        forall|n: usize| #[trigger]
            res@.contains(SocketOp::SetSendBufferSize(n)) <==> config.send_buffer_size == Some(n),
        res@.contains(SocketOp::ReportBufferSizes) <==> (config.recv_buffer_size is Some
            || config.send_buffer_size is Some),
        forall|i: int, k: int|
            0 <= i < res@.len() && 0 <= k < res@.len() && (#[trigger] res@[i]) is ReportBufferSizes
                && ((#[trigger] res@[k]) is SetRecvBufferSize || res@[k] is SetSendBufferSize)
                ==> k < i,
        forall|i: int|
            0 <= i < res@.len() ==> !((#[trigger] res@[i]) is Listen) && !(res@[i]
                is SetReuseAddress),
{
    udp_steps_by_position(ip, port, config);
    udp_steps_found(res@, ip, port, config);
}

spec fn one_if(wanted: bool) -> int {
    if wanted {
        1
    } else {
        0
    }
}

spec fn udp_steps_lie_so(
    ops: Seq<SocketOp>,
    ip: IpAddr,
    port: u16,
    config: UdpSocketConfig,
) -> bool {
    let recv = config.recv_buffer_size;
    let send = config.send_buffer_size;
    let shared = config.sockets is Some && config.sockets->0 > 1;
    let free = 1 + one_if(ip is V6);
    let share = free + 1;
    let receive = share + one_if(shared);
    let sent = receive + one_if(recv is Some);
    let report = sent + one_if(send is Some);
    let bind = report + one_if(recv is Some || send is Some);
    &&& ops.len() == bind + 1
    &&& ops[0] == SocketOp::Create(
        if ip is V4 {
            SocketKind::Ipv4Datagram
        } else {
            SocketKind::Ipv6Datagram
        },
    )
    &&& ip is V6 ==> ops[1] == SocketOp::SetOnlyV6
    &&& ops[free] == SocketOp::SetNonblocking
    &&& shared ==> ops[share] == SocketOp::SetReusePort
    &&& recv is Some ==> ops[receive] == SocketOp::SetRecvBufferSize(recv->0)
    &&& send is Some ==> ops[sent] == SocketOp::SetSendBufferSize(send->0)
    &&& recv is Some || send is Some ==> ops[report] == SocketOp::ReportBufferSizes
    &&& ops[bind] == (SocketOp::Bind { ip, port })
}

proof fn udp_steps_by_position(ip: IpAddr, port: u16, config: UdpSocketConfig)
    ensures
        udp_steps_lie_so(udp_socket_ops(ip, port, config), ip, port, config),
{
    let recv = config.recv_buffer_size;
    let send = config.send_buffer_size;
    let shared = config.sockets is Some && config.sockets->0 > 1;
    let lead = creation(ip, SocketKind::Ipv4Datagram, SocketKind::Ipv6Datagram);
    let free = lead + seq![SocketOp::SetNonblocking];
    let share = free + optional(shared, SocketOp::SetReusePort);
    let receive = share + optional(recv is Some, SocketOp::SetRecvBufferSize(recv->0));
    let sent = receive + optional(send is Some, SocketOp::SetSendBufferSize(send->0));
    let report = sent + optional(recv is Some || send is Some, SocketOp::ReportBufferSizes);
    let bind = report + seq![SocketOp::Bind { ip, port }];
    assert(udp_socket_ops(ip, port, config) =~= bind);
}

proof fn udp_steps_found(ops: Seq<SocketOp>, ip: IpAddr, port: u16, config: UdpSocketConfig)
    requires
        udp_steps_lie_so(ops, ip, port, config),
    ensures
        forall|i: int| 0 < i < ops.len() ==> !((#[trigger] ops[i]) is Create),
        forall|i: int| 0 <= i < ops.len() - 1 ==> !((#[trigger] ops[i]) is Bind),
        ops.contains(SocketOp::SetNonblocking),
        ops.contains(SocketOp::SetOnlyV6) <==> ip is V6,
        ops.contains(SocketOp::SetReusePort) <==> (config.sockets is Some && config.sockets->0 > 1),
        forall|n: usize| #[trigger]
            ops.contains(SocketOp::SetRecvBufferSize(n)) <==> config.recv_buffer_size == Some(n),
        forall|n: usize| #[trigger]
            ops.contains(SocketOp::SetSendBufferSize(n)) <==> config.send_buffer_size == Some(n),
        ops.contains(SocketOp::ReportBufferSizes) <==> (config.recv_buffer_size is Some
            || config.send_buffer_size is Some),
        forall|i: int, k: int|
            0 <= i < ops.len() && 0 <= k < ops.len() && (#[trigger] ops[i]) is ReportBufferSizes && ((
            #[trigger] ops[k]) is SetRecvBufferSize || ops[k] is SetSendBufferSize) ==> k < i,
        forall|i: int|
            0 <= i < ops.len() ==> !((#[trigger] ops[i]) is Listen) && !(ops[i] is SetReuseAddress),
{
}

/// A TCP listener is made for the family of its address, is bound to the address and port that
/// were asked for, and then listens with the backlog that is configured; before it is bound, its
/// address may be used again, nothing blocks on it, and on IPv6 it takes no IPv4 connection.
/// Nothing else is asked of it.
pub proof fn tcp_listeners_are_made_as_configured(
    ip: IpAddr,
    port: u16,
    config: TcpSocketConfig,
    res: Vec<SocketOp>,
)
    requires
        call_ensures(build_tcp_listener, (ip, port, config), res),
    ensures
        res@.len() == if ip is V4 {
            5int
        } else {
            6
        },
        res@[0] == SocketOp::Create(
            if ip is V4 {
                SocketKind::Ipv4Stream
            } else {
                SocketKind::Ipv6Stream
            },
        ),
        res@[res@.len() - 2] == (SocketOp::Bind { ip, port }),
        res@[res@.len() - 1] == SocketOp::Listen(config.listen_backlog),
        res@.contains(SocketOp::SetReuseAddress),
        res@.contains(SocketOp::SetNonblocking),
        res@.contains(SocketOp::SetOnlyV6) <==> ip is V6,
{
    let ops = res@;
    let at = ops.len() - 4;
    assert(ops[at] == SocketOp::SetReuseAddress);
    assert(ops[at + 1] == SocketOp::SetNonblocking);
    if ip is V6 {
        assert(ops[1] == SocketOp::SetOnlyV6);
    }
}

/// A buffer is warned of just where one was asked for and the system gave less, and the warning
/// says how much was given and how much was asked for.
pub proof fn short_buffers_are_warned_of(
    config: UdpSocketConfig,
    actual: usize,
    recv: Option<String>,
    send: Option<String>,
)
    requires
        call_ensures(recv_buffer_warning, (config, actual), recv),
        call_ensures(send_buffer_warning, (config, actual), send),
    ensures
        recv is Some <==> (config.recv_buffer_size is Some && actual < config.recv_buffer_size->0),
        send is Some <==> (config.send_buffer_size is Some && actual < config.send_buffer_size->0),
        recv matches Some(text) ==> text@ == "kernel capped UDP recv buffer at "@ + decimal(
            actual as nat,
        ) + ", below the requested "@ + decimal(config.recv_buffer_size->0 as nat)
            + "; increase net.core.rmem_max (Linux) or kern.ipc.maxsockbuf (BSD/macOS) to absorb traffic bursts as configured"@,
        send matches Some(text) ==> text@ == "kernel capped UDP send buffer at "@ + decimal(
            actual as nat,
        ) + ", below the requested "@ + decimal(config.send_buffer_size->0 as nat)
            + "; increase net.core.wmem_max (Linux) or kern.ipc.maxsockbuf (BSD/macOS)"@,
{
}

} // verus!
