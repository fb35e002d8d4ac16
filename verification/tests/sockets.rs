use hickory_dns::addr::{IpAddr, Ipv4Addr, Ipv6Addr};
use hickory_dns::config::{RequestTimeout, TcpSocketConfig, UdpSocketConfig};
use hickory_dns::setup::{BindRequest, Listeners, Registration, ServerSetup, Transport};
use hickory_dns::socket::{
    build_tcp_listener, build_udp_socket, recv_buffer_warning, send_buffer_warning, SocketKind,
    SocketOp,
};

const V4: IpAddr = IpAddr::V4(Ipv4Addr { bits: 0x7f00_0001 });
const V6: IpAddr = IpAddr::V6(Ipv6Addr { bits: 1 });

fn udp(recv: Option<usize>, send: Option<usize>, sockets: Option<usize>) -> UdpSocketConfig {
    UdpSocketConfig { recv_buffer_size: recv, send_buffer_size: send, sockets }
}

fn setup(has_certificate: bool, sockets: Option<usize>) -> ServerSetup {
    ServerSetup {
        listen_addrs: vec![V4, V6],
        tcp_request_timeout: RequestTimeout { secs: 5 },
        has_certificate,
        ssl_keylog_enabled: true,
        udp_socket_config: udp(None, None, sockets),
        tcp_socket_config: TcpSocketConfig::default(),
    }
}

fn all(listeners: Listeners) -> Vec<BindRequest> {
    let mut queue = listeners.requests;
    let mut requests = vec![];
    while let Some(request) = queue.next() {
        requests.push(request);
    }
    assert!(queue.next().is_none());
    requests
}

#[test]
fn tcp_listener_on_ipv4() {
    assert_eq!(
        build_tcp_listener(V4, 53, TcpSocketConfig::default()),
        vec![
            SocketOp::Create(SocketKind::Ipv4Stream),
            SocketOp::SetReuseAddress,
            SocketOp::SetNonblocking,
            SocketOp::Bind { ip: V4, port: 53 },
            SocketOp::Listen(128),
        ]
    );
}

#[test]
fn tcp_listener_on_ipv6_accepts_no_ipv4() {
    let config = TcpSocketConfig { listen_backlog: 7, response_buffer_size: 1 };
    assert_eq!(
        build_tcp_listener(V6, 853, config),
        vec![
            SocketOp::Create(SocketKind::Ipv6Stream),
            SocketOp::SetOnlyV6,
            SocketOp::SetReuseAddress,
            SocketOp::SetNonblocking,
            SocketOp::Bind { ip: V6, port: 853 },
            SocketOp::Listen(7),
        ]
    );
}

#[test]
fn plain_udp_socket() {
    for sockets in [None, Some(0), Some(1)] {
        assert_eq!(
            build_udp_socket(V4, 53, udp(None, None, sockets)),
            vec![
                SocketOp::Create(SocketKind::Ipv4Datagram),
                SocketOp::SetNonblocking,
                SocketOp::Bind { ip: V4, port: 53 },
            ]
        );
    }
}

#[test]
fn udp_socket_with_every_option() {
    assert_eq!(
        build_udp_socket(V6, 53, udp(Some(10), Some(20), Some(2))),
        vec![
            SocketOp::Create(SocketKind::Ipv6Datagram),
            SocketOp::SetOnlyV6,
            SocketOp::SetNonblocking,
            SocketOp::SetReusePort,
            SocketOp::SetRecvBufferSize(10),
            SocketOp::SetSendBufferSize(20),
            SocketOp::ReportBufferSizes,
            SocketOp::Bind { ip: V6, port: 53 },
        ]
    );
}

#[test]
fn udp_buffers_are_reported_where_one_is_asked_for() {
    let ops = build_udp_socket(V4, 53, udp(None, Some(20), None));
    assert_eq!(
        ops[2..4],
        [SocketOp::SetSendBufferSize(20), SocketOp::ReportBufferSizes]
    );
}

#[test]
fn buffers_that_fall_short() {
    let config = udp(Some(1000), Some(2000), None);
    assert_eq!(recv_buffer_warning(config, 1000), None);
    assert_eq!(send_buffer_warning(config, 2001), None);
    assert_eq!(
        recv_buffer_warning(config, 999).unwrap(),
        "kernel capped UDP recv buffer at 999, below the requested 1000; increase \
         net.core.rmem_max (Linux) or kern.ipc.maxsockbuf (BSD/macOS) to absorb traffic bursts as \
         configured"
    );
    assert_eq!(
        send_buffer_warning(config, 0).unwrap(),
        "kernel capped UDP send buffer at 0, below the requested 2000; increase \
         net.core.wmem_max (Linux) or kern.ipc.maxsockbuf (BSD/macOS)"
    );
    assert_eq!(recv_buffer_warning(udp(None, Some(1), None), 0), None);
    assert_eq!(send_buffer_warning(udp(Some(1), None, None), 0), None);
}

#[test]
fn udp_binds_one_socket_at_least() {
    for sockets in [None, Some(0), Some(1)] {
        let setup = setup(false, sockets);
        let requests = all(setup.udp(53));
        let request =
            |ip| BindRequest { transport: Transport::Udp, ip, port: 53, first: true, key_log: false };
        assert_eq!(requests, vec![request(V4), request(V6)]);
    }
}

#[test]
fn udp_binds_as_many_sockets_as_configured() {
    let setup = setup(false, Some(3));
    let requests = all(setup.udp(0));
    let seen: Vec<(IpAddr, bool)> = requests.iter().map(|r| (r.ip, r.first)).collect();
    assert_eq!(
        seen,
        vec![(V4, true), (V4, false), (V4, false), (V6, true), (V6, false), (V6, false)]
    );
}

#[test]
fn tcp_binds_one_listener_per_address() {
    let setup = setup(false, Some(3));
    let requests = all(setup.tcp(53));
    assert_eq!(requests.len(), 2);
    assert!(requests.iter().all(|r| r.transport == Transport::Tcp && r.port == 53 && !r.key_log));
}

#[test]
fn encrypted_transports_need_a_certificate() {
    let without = setup(false, None);
    assert!(all(without.tls(853)).is_empty());
    assert!(all(without.https(443, "/dns-query", None)).is_empty());
    assert!(all(without.quic(853)).is_empty());
    let with = setup(true, Some(3));
    for transport in [Transport::Tls, Transport::Https, Transport::Quic] {
        let requests = all(with.listen(transport, 1, "/dns-query", None));
        let ips: Vec<IpAddr> = requests.iter().map(|r| r.ip).collect();
        assert_eq!(ips, vec![V4, V6]);
        assert!(requests.iter().all(|r| r.transport == transport && r.key_log && r.port == 1));
    }
}

#[test]
fn sockets_of_requests() {
    let setup = setup(true, None);
    for transport in
        [Transport::Udp, Transport::Tcp, Transport::Tls, Transport::Https, Transport::Quic]
    {
        let request = all(setup.listen(transport, 5, "/dns-query", None))[0];
        let ops = setup.socket_ops(request);
        let datagram = ops[0] == SocketOp::Create(SocketKind::Ipv4Datagram);
        assert_eq!(datagram, transport == Transport::Udp || transport == Transport::Quic);
    }
}

#[test]
fn names_of_transports() {
    assert_eq!(Transport::Https.name(), "HTTPS");
    assert_eq!(Transport::Tls.keylog_name(), Some("DoT"));
    assert_eq!(Transport::Https.keylog_name(), Some("DoH"));
    assert_eq!(Transport::Quic.keylog_name(), Some("DoQ"));
    assert_eq!(Transport::Tcp.keylog_name(), None);
}

#[test]
fn registrations() {
    let timeout = RequestTimeout { secs: 5 };
    let setup = setup(true, None);
    assert_eq!(setup.udp(53).registration, Registration::Udp);
    assert_eq!(
        setup.tcp(53).registration,
        Registration::Tcp { timeout, response_buffer_size: 32 }
    );
    assert_eq!(setup.tls(853).registration, Registration::Tls { timeout, alpn: "dot" });
    assert_eq!(setup.quic(853).registration, Registration::Quic { timeout, alpn: "doq" });
    for hostname in [None, Some("ns.example.com")] {
        let registration =
            Registration::Https { timeout, alpn: "h2", hostname, endpoint: "/q" };
        assert_eq!(setup.https(443, "/q", hostname).registration, registration);
        let listeners = setup.listen(Transport::Https, 443, "/q", hostname);
        assert_eq!(listeners.registration, registration);
    }
}
