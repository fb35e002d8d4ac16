//! Which sockets each transport binds.
use vstd::prelude::*;
use vstd::string::*;

use crate::addr::IpAddr;
use crate::config::{RequestTimeout, TcpSocketConfig, UdpSocketConfig};
use crate::socket::{
    build_tcp_listener, build_udp_socket, tcp_listener_ops, udp_socket_ops, SocketKind, SocketOp,
};

verus! {

/// How DNS messages are carried.
#[derive(Clone, Copy, Debug, PartialEq, Eq, Structural)]
pub enum Transport {
    Udp,
    Tcp,
    Tls,
    Https,
    Quic,
}

impl Transport {
    /// Whether the transport needs a certificate.
    pub open spec fn encrypted(self) -> bool {
        self is Tls || self is Https || self is Quic
    }

    /// The name of the transport.
    pub open spec fn label(self) -> Seq<char> {
        match self {
            Transport::Udp => "UDP"@,
            Transport::Tcp => "TCP"@,
            Transport::Tls => "TLS"@,
            Transport::Https => "HTTPS"@,
            Transport::Quic => "QUIC"@,
        }
    }

    /// The name of the transport.
    pub fn name(&self) -> (res: &'static str)
        ensures
            res@ == self.label(),
    {
        match self {
            Transport::Udp => "UDP",
            Transport::Tcp => "TCP",
            Transport::Tls => "TLS",
            Transport::Https => "HTTPS",
            Transport::Quic => "QUIC",
        }
    }

    /// The name under which the logging of session keys is announced.
    pub fn keylog_name(&self) -> (res: Option<&'static str>)
        ensures
            match *self {
                Transport::Tls => res matches Some(name) && name@ == "DoT"@,
                Transport::Https => res matches Some(name) && name@ == "DoH"@,
                Transport::Quic => res matches Some(name) && name@ == "DoQ"@,
                _ => res is None,
            },
    {
        match self {
            Transport::Tls => Some("DoT"),
            Transport::Https => Some("DoH"),
            Transport::Quic => Some("DoQ"),
            Transport::Udp => None,
            Transport::Tcp => None,
        }
    }
}

/// A socket to bind and register with the server.
#[derive(Clone, Copy, Debug, PartialEq, Eq, Structural)]
pub struct BindRequest {
    pub transport: Transport,
    pub ip: IpAddr,
    pub port: u16,
    /// Whether this is the first socket on its address.
    pub first: bool,
    /// Whether TLS session keys are logged.
    pub key_log: bool,
}

/// The requests for one address, from the one numbered `from` on.
pub open spec fn requests_at(
    proto: BindRequest,
    ip: IpAddr,
    copies: nat,
    from: nat,
) -> Seq<BindRequest> {
    Seq::new(
        (copies - from) as nat,
        |k: int| BindRequest { ip, first: from + k == 0, ..proto },
    )
}

/// The requests for all addresses: `copies` for each, in order.
pub open spec fn requests(proto: BindRequest, addrs: Seq<IpAddr>, copies: nat) -> Seq<BindRequest>
    decreases addrs.len(),
{
    if addrs.len() == 0 {
        Seq::empty()
    } else {
        requests_at(proto, addrs[0], copies, 0) + requests(proto, addrs.drop_first(), copies)
    }
}

/// The requests that are still to be met.
pub struct BindQueue<'a> {
    addrs: &'a Vec<IpAddr>,
    proto: BindRequest,
    copies: usize,
    position: usize,
    copy: usize,
}

impl<'a> View for BindQueue<'a> {
    type V = Seq<BindRequest>;

    closed spec fn view(&self) -> Seq<BindRequest> {
        if self.position < self.addrs@.len() {
            requests_at(
                self.proto,
                self.addrs@[self.position as int],
                self.copies as nat,
                self.copy as nat,
            ) + requests(self.proto, self.addrs@.skip(self.position + 1), self.copies as nat)
        } else {
            Seq::empty()
        }
    }
}

impl<'a> BindQueue<'a> {
    #[verifier::type_invariant]
    spec fn well_formed(self) -> bool {
        &&& self.position <= self.addrs@.len()
        &&& self.copy < self.copies
    }

    fn new(addrs: &'a Vec<IpAddr>, proto: BindRequest, copies: usize) -> (res: BindQueue<'a>)
        requires
            copies >= 1,
        ensures
            res@ == requests(proto, addrs@, copies as nat),
    {
        let res = BindQueue { addrs, proto, copies, position: 0, copy: 0 };
        proof {
            if addrs@.len() > 0 {
                assert(addrs@.skip(1) =~= addrs@.drop_first());
            }
        }
        res
    }

    fn none(addrs: &'a Vec<IpAddr>, proto: BindRequest) -> (res: BindQueue<'a>)
        ensures
            res@ == Seq::<BindRequest>::empty(),
    {
        BindQueue { addrs, proto, copies: 1, position: addrs.len(), copy: 0 }
    }

    /// The next socket to bind, if any is left.
    pub fn next(&mut self) -> (res: Option<BindRequest>)
        ensures
            match res {
                Some(request) => old(self)@.len() > 0 && request == old(self)@[0] && final(self)@
                    == old(self)@.drop_first(),
                None => old(self)@.len() == 0 && final(self)@ == old(self)@,
            },
    {
        proof {
            use_type_invariant(&*self);
        }
        if self.position >= self.addrs.len() {
            return None;
        }
        let ghost before = self@;
        let request = BindRequest {
            ip: self.addrs[self.position],
            first: self.copy == 0,
            ..self.proto
        };
        let ghost rest = requests(
            self.proto,
            self.addrs@.skip(self.position + 1),
            self.copies as nat,
        );
        if self.copies - self.copy > 1 {
            self.copy = self.copy + 1;
            proof {
                assert(self@ =~= before.drop_first());
            }
        } else {
            self.copy = 0;
            self.position = self.position + 1;
            proof {
                assert(before.drop_first() =~= rest);
                if self.position < self.addrs@.len() {
                    let left = self.addrs@.skip(self.position as int);
                    assert(left.drop_first() =~= self.addrs@.skip(self.position + 1));
                    assert(left[0] == self.addrs@[self.position as int]);
                }
                assert(self@ =~= before.drop_first());
            }
        }
        Some(request)
    }
}

/// What the sockets of a transport are registered with at the server. `alpn` is the protocol that
/// a TLS handshake negotiates.
#[derive(Clone, Copy, Debug, PartialEq, Eq)]
pub enum Registration<'a> {
    /// Nothing.
    Udp,
    /// The timeout of requests, and the number of responses that are queued for a connection.
    Tcp { timeout: RequestTimeout, response_buffer_size: usize },
    /// The timeout of requests.
    Tls { timeout: RequestTimeout, alpn: &'static str },
    /// The timeout of requests, the name under which the server is reached, and the path at which
    /// it answers.
    Https {
        timeout: RequestTimeout,
        alpn: &'static str,
        hostname: Option<&'a str>,
        endpoint: &'a str,
    },
    /// The timeout of requests.
    Quic { timeout: RequestTimeout, alpn: &'static str },
}

/// The sockets of a transport, and what each of them is registered with.
pub struct Listeners<'a> {
    pub requests: BindQueue<'a>,
    pub registration: Registration<'a>,
}

/// What an optional text says.
pub open spec fn optional_text(text: Option<&str>) -> Option<Seq<char>> {
    match text {
        Some(text) => Some(text@),
        None => None,
    }
}

/// What every transport needs to know to bind its sockets.
pub struct ServerSetup {
    pub listen_addrs: Vec<IpAddr>,
    pub tcp_request_timeout: RequestTimeout,
    /// Whether there is a certificate. Without one no encrypted transport listens.
    pub has_certificate: bool,
    pub ssl_keylog_enabled: bool,
    pub udp_socket_config: UdpSocketConfig,
    pub tcp_socket_config: TcpSocketConfig,
}

/// The number of UDP sockets on each address: one at least.
pub open spec fn udp_sockets(config: UdpSocketConfig) -> nat {
    match config.sockets {
        Some(sockets) if sockets > 1 => sockets as nat,
        _ => 1,
    }
}

impl ServerSetup {
    /// What the requests of a transport have in common. The address is filled in.
    pub open spec fn proto(self, transport: Transport, port: u16) -> BindRequest {
        BindRequest {
            transport,
            ip: IpAddr::V4(crate::addr::Ipv4Addr { bits: 0 }),
            port,
            first: false,
            key_log: transport.encrypted() && self.ssl_keylog_enabled,
        }
    }

    /// The sockets that a transport binds on the given port.
    pub open spec fn sockets(self, transport: Transport, port: u16) -> Seq<BindRequest> {
        if transport.encrypted() && !self.has_certificate {
            Seq::empty()
        } else {
            requests(
                self.proto(transport, port),
                self.listen_addrs@,
                if transport is Udp {
                    udp_sockets(self.udp_socket_config)
                } else {
                    1
                },
            )
        }
    }

    /// Whether `registration` is what the sockets of a transport are registered with, where HTTPS
    /// answers at `http_endpoint` under the name `dns_hostname`.
    pub open spec fn registers_with(
        self,
        registration: Registration<'_>,
        transport: Transport,
        http_endpoint: Seq<char>,
        dns_hostname: Option<Seq<char>>,
    ) -> bool {
        match (transport, registration) {
            (Transport::Udp, Registration::Udp) => true,
            (Transport::Tcp, Registration::Tcp { timeout, response_buffer_size }) => {
                &&& timeout == self.tcp_request_timeout
                &&& response_buffer_size == self.tcp_socket_config.response_buffer_size
            },
            (Transport::Tls, Registration::Tls { timeout, alpn }) => {
                &&& timeout == self.tcp_request_timeout
                &&& alpn@ == "dot"@
            },
            (Transport::Https, Registration::Https { timeout, alpn, hostname, endpoint }) => {
                &&& timeout == self.tcp_request_timeout
                &&& alpn@ == "h2"@
                &&& optional_text(hostname) == dns_hostname
                &&& endpoint@ == http_endpoint
            },
            (Transport::Quic, Registration::Quic { timeout, alpn }) => {
                &&& timeout == self.tcp_request_timeout
                &&& alpn@ == "doq"@
            },
            _ => false,
        }
    }

    fn queue(&self, transport: Transport, port: u16, key_log: bool, copies: usize) -> (res:
        BindQueue<'_>)
        requires
            copies >= 1,
            key_log == (transport.encrypted() && self.ssl_keylog_enabled),
        ensures
            res@ == requests(self.proto(transport, port), self.listen_addrs@, copies as nat),
    {
        let proto = BindRequest {
            transport,
            ip: IpAddr::V4(crate::addr::Ipv4Addr { bits: 0 }),
            port,
            first: false,
            key_log,
        };
        BindQueue::new(&self.listen_addrs, proto, copies)
    }

    fn encrypted_queue(&self, transport: Transport, port: u16) -> (res: BindQueue<'_>)
        requires
            transport.encrypted(),
        ensures
            res@ == self.sockets(transport, port),
    {
        let res = self.queue(transport, port, self.ssl_keylog_enabled, 1);
        if !self.has_certificate {
            return BindQueue::none(&self.listen_addrs, res.proto);
        }
        res
    }

    /// The UDP sockets: on each address as many as configured, one at least.
    pub fn udp(&self, port: u16) -> (res: Listeners<'_>)
        ensures
            res.requests@ == self.sockets(Transport::Udp, port),
            res.registration is Udp,
    {
        let copies: usize = match self.udp_socket_config.sockets {
            Some(sockets) => if sockets > 1 {
                sockets
            } else {
                1
            },
            None => 1,
        };
        Listeners {
            requests: self.queue(Transport::Udp, port, false, copies),
            registration: Registration::Udp,
        }
    }

    /// The TCP listeners, one on each address, registered with the timeout and the number of
    /// queued responses that are configured.
    pub fn tcp(&self, port: u16) -> (res: Listeners<'_>)
        ensures
            res.requests@ == self.sockets(Transport::Tcp, port),
            res.registration == (Registration::Tcp {
                timeout: self.tcp_request_timeout,
                response_buffer_size: self.tcp_socket_config.response_buffer_size,
            }),
    {
        Listeners {
            requests: self.queue(Transport::Tcp, port, false, 1),
            registration: Registration::Tcp {
                timeout: self.tcp_request_timeout,
                response_buffer_size: self.tcp_socket_config.response_buffer_size,
            },
        }
    }

    /// The TLS listeners, one on each address, registered with the timeout that is configured;
    /// none without a certificate.
    pub fn tls(&self, port: u16) -> (res: Listeners<'_>)
        ensures
            res.requests@ == self.sockets(Transport::Tls, port),
            res.registration matches Registration::Tls { timeout, alpn } && timeout
                == self.tcp_request_timeout && alpn@ == "dot"@,
    {
        Listeners {
            requests: self.encrypted_queue(Transport::Tls, port),
            registration: Registration::Tls { timeout: self.tcp_request_timeout, alpn: "dot" },
        }
    }

    /// The HTTPS listeners, one on each address, registered with the timeout that is configured
    /// and with the given name and path; none without a certificate.
    pub fn https<'a>(
        &'a self,
        port: u16,
        http_endpoint: &'a str,
        dns_hostname: Option<&'a str>,
    ) -> (res: Listeners<'a>)
        ensures
            res.requests@ == self.sockets(Transport::Https, port),
            res.registration matches Registration::Https { timeout, alpn, hostname, endpoint }
                && timeout == self.tcp_request_timeout && alpn@ == "h2"@ && hostname
                == dns_hostname && endpoint == http_endpoint,
    {
        Listeners {
            requests: self.encrypted_queue(Transport::Https, port),
            registration: Registration::Https {
                timeout: self.tcp_request_timeout,
                alpn: "h2",
                hostname: dns_hostname,
                endpoint: http_endpoint,
            },
        }
    }

    /// The QUIC sockets, one on each address, registered with the timeout that is configured;
    /// none without a certificate.
    pub fn quic(&self, port: u16) -> (res: Listeners<'_>)
        ensures
            res.requests@ == self.sockets(Transport::Quic, port),
            res.registration matches Registration::Quic { timeout, alpn } && timeout
                == self.tcp_request_timeout && alpn@ == "doq"@,
    {
        Listeners {
            requests: self.encrypted_queue(Transport::Quic, port),
            registration: Registration::Quic { timeout: self.tcp_request_timeout, alpn: "doq" },
        }
    }

    /// The sockets of any transport.
    pub fn listen<'a>(
        &'a self,
        transport: Transport,
        port: u16,
        http_endpoint: &'a str,
        dns_hostname: Option<&'a str>,
    ) -> (res: Listeners<'a>)
        ensures
            res.requests@ == self.sockets(transport, port),
            self.registers_with(
                res.registration,
                transport,
                http_endpoint@,
                optional_text(dns_hostname),
            ),
    {
        match transport {
            Transport::Udp => self.udp(port),
            Transport::Tcp => self.tcp(port),
            Transport::Tls => self.tls(port),
            Transport::Https => self.https(port, http_endpoint, dns_hostname),
            Transport::Quic => self.quic(port),
        }
    }

    /// How the socket of a request is made.
    pub fn socket_ops(&self, request: BindRequest) -> (res: Vec<SocketOp>)
        ensures
            res@ == match request.transport {
                Transport::Udp | Transport::Quic => udp_socket_ops(
                    request.ip,
                    request.port,
                    self.udp_socket_config,
                ),
                Transport::Tcp | Transport::Tls | Transport::Https => tcp_listener_ops(
                    request.ip,
                    request.port,
                    self.tcp_socket_config,
                ),
            },
    {
        match request.transport {
            Transport::Udp | Transport::Quic => build_udp_socket(
                request.ip,
                request.port,
                self.udp_socket_config,
            ),
            Transport::Tcp | Transport::Tls | Transport::Https => build_tcp_listener(
                request.ip,
                request.port,
                self.tcp_socket_config,
            ),
        }
    }
}

proof fn requests_are_for_addrs(proto: BindRequest, addrs: Seq<IpAddr>, copies: nat)
    ensures
        forall|i: int|
            #![trigger requests(proto, addrs, copies)[i]]
            0 <= i < requests(proto, addrs, copies).len() ==> {
                let request = requests(proto, addrs, copies)[i];
                &&& addrs.contains(request.ip)
                &&& request.transport == proto.transport
                &&& request.port == proto.port
                &&& request.key_log == proto.key_log
            },
    decreases addrs.len(),
{
    let all = requests(proto, addrs, copies);
    if addrs.len() > 0 {
        let here = requests_at(proto, addrs[0], copies, 0);
        let later = requests(proto, addrs.drop_first(), copies);
        requests_are_for_addrs(proto, addrs.drop_first(), copies);
        assert forall|i: int|
            #![trigger requests(proto, addrs, copies)[i]]
            0 <= i < all.len() implies addrs.contains(all[i].ip) && all[i].transport
            == proto.transport && all[i].port == proto.port && all[i].key_log == proto.key_log by {
            if i < here.len() {
                assert(all[i] == here[i]);
                assert(addrs[0] == all[i].ip);
            } else {
                assert(all[i] == later[i - here.len()]);
                let rest = addrs.drop_first();
                let k = choose|k: int| 0 <= k < rest.len() && rest[k] == all[i].ip;
                assert(addrs[k + 1] == all[i].ip);
            }
        }
    }
}

/// A transport binds only the port that it was given, on addresses that the server listens on.
pub proof fn sockets_are_on_listen_addresses(setup: ServerSetup, transport: Transport, port: u16)
    ensures
        forall|i: int|
            #![trigger setup.sockets(transport, port)[i]]
            0 <= i < setup.sockets(transport, port).len() ==> {
                let request = setup.sockets(transport, port)[i];
                &&& setup.listen_addrs@.contains(request.ip)
                &&& request.transport == transport
                &&& request.port == port
            },
{
    let copies = if transport is Udp {
        udp_sockets(setup.udp_socket_config)
    } else {
        1
    };
    requests_are_for_addrs(setup.proto(transport, port), setup.listen_addrs@, copies);
}

proof fn requests_counted(proto: BindRequest, addrs: Seq<IpAddr>, copies: nat)
    ensures
        requests(proto, addrs, copies).len() == addrs.len() * copies,
    decreases addrs.len(),
{
    if addrs.len() > 0 {
        requests_counted(proto, addrs.drop_first(), copies);
        assert((addrs.len() - 1) * copies + copies == addrs.len() * copies) by (nonlinear_arith);
    } else {
        assert(0 * copies == 0) by (nonlinear_arith);
    }
}

/// UDP has as many sockets on each address as configured, one at least; a plain or encrypted
/// stream transport has one on each address, and an encrypted one none without a certificate.
pub proof fn sockets_per_address(setup: ServerSetup, transport: Transport, port: u16)
    ensures
        transport is Udp ==> setup.sockets(transport, port).len() == setup.listen_addrs@.len()
            * udp_sockets(setup.udp_socket_config),
        !(transport is Udp) && (setup.has_certificate || !transport.encrypted())
            ==> setup.sockets(transport, port).len() == setup.listen_addrs@.len(),
        transport.encrypted() && !setup.has_certificate ==> setup.sockets(transport, port).len()
            == 0,
{
    let copies = if transport is Udp {
        udp_sockets(setup.udp_socket_config)
    } else {
        1
    };
    requests_counted(setup.proto(transport, port), setup.listen_addrs@, copies);
}

/// Whether the requests of a transport are one for each address that the server listens on, in
/// order, or over UDP as many for each as are configured, the first of which is marked. All are
/// for the given port, and log session keys just where that is enabled for a transport that has
/// any. Without a certificate a transport that needs one has no requests.
pub open spec fn binds_every_address(
    setup: ServerSetup,
    transport: Transport,
    port: u16,
    requests: Seq<BindRequest>,
) -> bool {
    let needs_certificate = match transport {
        Transport::Udp | Transport::Tcp => false,
        Transport::Tls | Transport::Https | Transport::Quic => true,
    };
    let each: int = match (transport, setup.udp_socket_config.sockets) {
        (Transport::Udp, Some(sockets)) if sockets > 1 => sockets as int,
        _ => 1,
    };
    if needs_certificate && !setup.has_certificate {
        requests.len() == 0
    } else {
        &&& requests.len() == setup.listen_addrs@.len() * each
        &&& forall|i: int|
            0 <= i < requests.len() ==> #[trigger] requests[i] == (BindRequest {
                transport,
                ip: setup.listen_addrs@[i / each],
                port,
                first: i % each == 0,
                key_log: needs_certificate && setup.ssl_keylog_enabled,
            })
    }
}

proof fn request_at(proto: BindRequest, addrs: Seq<IpAddr>, copies: nat, i: int)
    requires
        copies >= 1,
        0 <= i < requests(proto, addrs, copies).len(),
    ensures
        0 <= i / copies as int,
        i / (copies as int) < addrs.len(),
        requests(proto, addrs, copies)[i] == (BindRequest {
            ip: addrs[i / copies as int],
            first: i % copies as int == 0,
            ..proto
        }),
    decreases addrs.len(),
{
    let here = requests_at(proto, addrs[0], copies, 0);
    let later = requests(proto, addrs.drop_first(), copies);
    let d = copies as int;
    if i < d {
        vstd::arithmetic::div_mod::lemma_basic_div(i, d);
        vstd::arithmetic::div_mod::lemma_small_mod(i as nat, copies);
        assert(requests(proto, addrs, copies)[i] == here[i]);
    } else {
        request_at(proto, addrs.drop_first(), copies, i - d);
        vstd::arithmetic::div_mod::lemma_div_minus_one(i, d);
        vstd::arithmetic::div_mod::lemma_mod_sub_multiples_vanish(i, d);
        assert(requests(proto, addrs, copies)[i] == later[i - d]);
        assert(addrs.drop_first()[(i - d) / d] == addrs[i / d]);
    }
}

/// The sockets of every transport are those that its addresses and its configuration ask for.
pub proof fn sockets_are_one_or_more_per_address(
    setup: ServerSetup,
    transport: Transport,
    port: u16,
)
    ensures
        binds_every_address(setup, transport, port, setup.sockets(transport, port)),
{
    if !transport.encrypted() || setup.has_certificate {
        let copies = if transport is Udp {
            udp_sockets(setup.udp_socket_config)
        } else {
            1
        };
        let proto = setup.proto(transport, port);
        let all = setup.sockets(transport, port);
        requests_counted(proto, setup.listen_addrs@, copies);
        assert forall|i: int| 0 <= i < all.len() implies #[trigger] all[i] == (BindRequest {
            ip: setup.listen_addrs@[i / copies as int],
            first: i % copies as int == 0,
            ..proto
        }) by {
            request_at(proto, setup.listen_addrs@, copies, i);
        }
    }
}

/// Every transport binds a socket on each address that the server listens on, and registers each
/// with what the transport takes: nothing for UDP; the timeout and the number of queued responses
/// for TCP; the timeout and its own protocol for TLS and QUIC; and for HTTPS the timeout, its own
/// protocol, and the name and the path that it was given.
pub proof fn transports_bind_and_register<'a>(
    setup: &'a ServerSetup,
    port: u16,
    http_endpoint: &'a str,
    dns_hostname: Option<&'a str>,
    udp: Listeners<'a>,
    tcp: Listeners<'a>,
    tls: Listeners<'a>,
    https: Listeners<'a>,
    quic: Listeners<'a>,
)
    requires
        call_ensures(ServerSetup::udp, (setup, port), udp),
        call_ensures(ServerSetup::tcp, (setup, port), tcp),
        call_ensures(ServerSetup::tls, (setup, port), tls),
        call_ensures(ServerSetup::https, (setup, port, http_endpoint, dns_hostname), https),
        call_ensures(ServerSetup::quic, (setup, port), quic),
    ensures
        binds_every_address(*setup, Transport::Udp, port, udp.requests@),
        binds_every_address(*setup, Transport::Tcp, port, tcp.requests@),
        binds_every_address(*setup, Transport::Tls, port, tls.requests@),
        binds_every_address(*setup, Transport::Https, port, https.requests@),
        binds_every_address(*setup, Transport::Quic, port, quic.requests@),
        udp.registration is Udp,
        tcp.registration matches Registration::Tcp { timeout, response_buffer_size } && timeout
            == setup.tcp_request_timeout && response_buffer_size
            == setup.tcp_socket_config.response_buffer_size,
        tls.registration matches Registration::Tls { timeout, alpn } && timeout
            == setup.tcp_request_timeout && alpn@ == "dot"@,
        https.registration matches Registration::Https { timeout, alpn, hostname, endpoint }
            && timeout == setup.tcp_request_timeout && alpn@ == "h2"@ && hostname == dns_hostname
            && endpoint@ == http_endpoint@,
        quic.registration matches Registration::Quic { timeout, alpn } && timeout
            == setup.tcp_request_timeout && alpn@ == "doq"@,
{
    sockets_are_one_or_more_per_address(*setup, Transport::Udp, port);
    sockets_are_one_or_more_per_address(*setup, Transport::Tcp, port);
    sockets_are_one_or_more_per_address(*setup, Transport::Tls, port);
    sockets_are_one_or_more_per_address(*setup, Transport::Https, port);
    sockets_are_one_or_more_per_address(*setup, Transport::Quic, port);
}

/// The socket of a request is bound to the address and port of the request. UDP and QUIC are
/// carried by datagrams, with the options of UDP sockets, and the others by streams, with the
/// backlog of TCP sockets.
pub proof fn requests_are_met_with_their_own_socket(
    setup: &ServerSetup,
    request: BindRequest,
    res: Vec<SocketOp>,
)
    requires
        call_ensures(ServerSetup::socket_ops, (setup, request), res),
    ensures
        res@.contains(SocketOp::Bind { ip: request.ip, port: request.port }),
        match request.transport {
            Transport::Udp | Transport::Quic => res@ == udp_socket_ops(
                request.ip,
                request.port,
                setup.udp_socket_config,
            ) && (res@[0] == SocketOp::Create(SocketKind::Ipv4Datagram) || res@[0]
                == SocketOp::Create(SocketKind::Ipv6Datagram)),
            Transport::Tcp | Transport::Tls | Transport::Https => res@ == tcp_listener_ops(
                request.ip,
                request.port,
                setup.tcp_socket_config,
            ) && (res@[0] == SocketOp::Create(SocketKind::Ipv4Stream) || res@[0]
                == SocketOp::Create(SocketKind::Ipv6Stream)) && res@[res@.len() - 1]
                == SocketOp::Listen(setup.tcp_socket_config.listen_backlog),
        },
{
    let bind = SocketOp::Bind { ip: request.ip, port: request.port };
    match request.transport {
        Transport::Udp | Transport::Quic => {
            assert(res@[res@.len() - 1] == bind);
        },
        Transport::Tcp | Transport::Tls | Transport::Https => {
            assert(res@[res@.len() - 2] == bind);
        },
    }
}

/// Every transport has its own names.
pub proof fn transports_have_their_own_names(
    transport: &Transport,
    name: &'static str,
    keylog_name: Option<&'static str>,
)
    requires
        call_ensures(Transport::name, (transport,), name),
        call_ensures(Transport::keylog_name, (transport,), keylog_name),
    ensures
        name@ == match *transport {
            Transport::Udp => "UDP"@,
            Transport::Tcp => "TCP"@,
            Transport::Tls => "TLS"@,
            Transport::Https => "HTTPS"@,
            Transport::Quic => "QUIC"@,
        },
        match *transport {
            Transport::Udp | Transport::Tcp => keylog_name is None,
            Transport::Tls => keylog_name is Some && keylog_name->0@ == "DoT"@,
            Transport::Https => keylog_name is Some && keylog_name->0@ == "DoH"@,
            Transport::Quic => keylog_name is Some && keylog_name->0@ == "DoQ"@,
        },
{
}

} // verus!
