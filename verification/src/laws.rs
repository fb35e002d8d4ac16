//! What holds of every start.
use vstd::prelude::*;

use crate::addr::{IpAddr, Ipv4Addr, Ipv6Addr, SocketAddr};
use crate::config::{
    accepted_is_fit_to_start, is_fit_to_start, is_resolver_zone, is_traversal_error,
    listens_publicly, Config, ConfigError, MAX_UDP_SOCKETS,
};
use crate::load::{load_step, LoadStep, StoreAction};
use crate::path::{
    has_parent_dir, joined, joined_paths_stay_below, lone_dots, lossy_text, no_dot_no_parent_dir,
    parent_dir_at, DOT,
};
use crate::setup::{
    binds_every_address, optional_text, sockets_are_on_listen_addresses,
    sockets_are_one_or_more_per_address, sockets_per_address, udp_sockets, Listeners, Registration,
    Transport,
};
use crate::startup::{
    bound_addrs, endpoint_name, missing_tls_cert_verdict, verdict, DnsServer,
    MissingTlsCertVerdict, Notice, Startup, StartupStep,
};

verus! {

/// The check for an open resolver looks at the addresses that are really bound: it takes a server
/// to be public just where one of those is not a loopback address.
pub proof fn public_means_a_bound_address_is_public(v4: Seq<Ipv4Addr>, v6: Seq<Ipv6Addr>)
    ensures
        listens_publicly(v4, v6) <==> exists|i: int|
            0 <= i < bound_addrs(v4, v6).len() && !(#[trigger] bound_addrs(v4, v6)[i]).loopback(),
{
    let all = bound_addrs(v4, v6);
    if v4.len() == 0 && v6.len() == 0 {
        assert(!all[0].loopback());
    } else {
        if exists|i: int| 0 <= i < v4.len() && !(#[trigger] v4[i]).loopback() {
            let i = choose|i: int| 0 <= i < v4.len() && !(#[trigger] v4[i]).loopback();
            assert(all[i] == IpAddr::V4(v4[i]));
        }
        if exists|i: int| 0 <= i < v6.len() && !(#[trigger] v6[i]).loopback() {
            let i = choose|i: int| 0 <= i < v6.len() && !(#[trigger] v6[i]).loopback();
            assert(all[v4.len() + i] == IpAddr::V6(v6[i]));
        }
        if exists|i: int| 0 <= i < all.len() && !(#[trigger] all[i]).loopback() {
            let i = choose|i: int| 0 <= i < all.len() && !(#[trigger] all[i]).loopback();
            if i < v4.len() {
                assert(all[i] == IpAddr::V4(v4[i]));
                assert(!v4[i].loopback());
            } else {
                assert(all[i] == IpAddr::V6(v6[i - v4.len()]));
                assert(!v6[i - v4.len()].loopback());
            }
        }
    }
}

/// A server that starts is no open resolver: where one of its zones resolves names and no client
/// network is listed, every socket that any transport binds is on a loopback address.
pub proof fn resolver_without_clients_binds_loopback_only(
    cli: DnsServer,
    config: Config,
    startup: Startup,
    zone: int,
    transport: Transport,
    port: u16,
    i: int,
)
    requires
        config.accepted(),
        startup.follows(cli, config),
        config.allow_networks@.len() == 0,
        0 <= zone < config.zones@.len(),
        is_resolver_zone(config.zones@[zone]),
        0 <= i < startup.setup.sockets(transport, port).len(),
    ensures
        startup.setup.sockets(transport, port)[i].ip.loopback(),
{
    let v4 = config.listen_addrs_ipv4@;
    let v6 = config.listen_addrs_ipv6@;
    assert(!listens_publicly(v4, v6));
    public_means_a_bound_address_is_public(v4, v6);
    sockets_are_on_listen_addresses(startup.setup, transport, port);
    let ip = startup.setup.sockets(transport, port)[i].ip;
    let k = choose|k: int|
        0 <= k < startup.setup.listen_addrs@.len() && startup.setup.listen_addrs@[k] == ip;
    assert(bound_addrs(v4, v6)[k] == ip);
}

/// A server can start with a file that gives nothing: the configuration passes every check.
pub proof fn file_that_gives_nothing_is_accepted(config: Config)
    requires
        config.gives_nothing(),
    ensures
        config.accepted(),
{
    let text = "/var/named"@;
    reveal_strlit("/var/named");
    vstd::utf8::is_ascii_chars_encode_utf8(text);
    let path = config.directory@;
    assert forall|i: int| 0 <= i < path.len() implies path[i] != DOT by {
        assert(path[i] == text[i] as u8);
    }
    no_dot_no_parent_dir(path);
    assert(config.zones@ =~= Seq::empty());
}

/// A server that starts has at most [`MAX_UDP_SOCKETS`] UDP sockets on each address.
pub proof fn udp_sockets_are_capped(cli: DnsServer, config: Config, startup: Startup)
    requires
        config.accepted(),
        startup.follows(cli, config),
    ensures
        1 <= udp_sockets(startup.setup.udp_socket_config) <= MAX_UDP_SOCKETS,
{
}

/// The directory from which a server that starts takes its paths has no `..` among its parts, and
/// no path without that part leads out of it.
pub proof fn zone_dir_is_not_left(cli: DnsServer, config: Config, startup: Startup, path: Seq<u8>)
    requires
        config.accepted(),
        !cli.zonedir_refused(),
        startup.follows(cli, config),
        !has_parent_dir(path),
    ensures
        !has_parent_dir(startup.zone_dir@),
        !has_parent_dir(joined(startup.zone_dir@, path)),
{
    joined_paths_stay_below(startup.zone_dir@, path);
}

/// Whether a step binds sockets, gives up privileges or answers requests.
pub open spec fn acts_as_server(step: StartupStep) -> bool {
    ||| step is CreateServer
    ||| step is LoadCertificate
    ||| step is Listen
    ||| step is DropPrivileges
    ||| step is Serve
}

/// A start that only validates loads every zone, in order and only to look at it, and then ends:
/// it opens no recursor, binds no socket for DNS, loads no certificate, keeps its privileges and
/// answers nothing.
pub proof fn validation_only_loads_zones(cli: DnsServer, config: Config, startup: Startup)
    requires
        cli.validate,
        startup.follows(cli, config),
    ensures
        startup.validate,
        forall|i: int|
            0 <= i < startup.steps@.len() ==> !acts_as_server(#[trigger] startup.steps@[i]),
        forall|z: int|
            0 <= z < config.zones@.len() ==> #[trigger] startup.steps@.contains(
                StartupStep::LoadZone(z as usize),
            ),
        forall|z: int, position: int|
            #![trigger load_step(startup.zones@[z].zone_type_config, startup.validate, position)]
            0 <= z < startup.zones@.len() ==> !(load_step(
                startup.zones@[z].zone_type_config,
                startup.validate,
                position,
            ) matches LoadStep::Open(StoreAction::Recursor { .. })),
        startup.steps@.last() == StartupStep::Announce(Notice::ConfigurationValidated),
{
    let steps = startup.steps@;
    let opening = cli.opening_steps(config);
    assert forall|z: int| 0 <= z < config.zones@.len() implies #[trigger] steps.contains(
        StartupStep::LoadZone(z as usize),
    ) by {
        assert(steps[opening.len() + z] == StartupStep::LoadZone(z as usize));
    }
}

/// A start that serves loads every zone to serve it.
pub proof fn serving_loads_zones_to_serve_them(cli: DnsServer, config: Config, startup: Startup)
    requires
        !cli.validate,
        startup.follows(cli, config),
    ensures
        !startup.validate,
        forall|z: int|
            0 <= z < config.zones@.len() ==> #[trigger] startup.steps@.contains(
                StartupStep::LoadZone(z as usize),
            ),
{
    let opening = cli.opening_steps(config);
    assert forall|z: int| 0 <= z < config.zones@.len() implies #[trigger] startup.steps@.contains(
        StartupStep::LoadZone(z as usize),
    ) by {
        assert(startup.steps@[opening.len() + z] == StartupStep::LoadZone(z as usize));
    }
}

/// Every listener is registered as configured: with the timeout of the configuration, with its
/// number of queued responses over TCP, and with its endpoint and the name of its certificate over
/// HTTPS.
pub proof fn listeners_are_registered_as_configured(
    cli: DnsServer,
    config: Config,
    startup: Startup,
    transport: Transport,
    registration: Registration<'_>,
)
    requires
        startup.follows(cli, config),
        startup.setup.registers_with(
            registration,
            transport,
            startup.http_endpoint@,
            startup.hostname(),
        ),
    ensures
        match registration {
            Registration::Udp => transport is Udp,
            Registration::Tcp { timeout, response_buffer_size } => transport is Tcp && timeout
                == config.tcp_request_timeout && response_buffer_size
                == config.tcp_socket.response_buffer_size,
            Registration::Tls { timeout, .. } => transport is Tls && timeout
                == config.tcp_request_timeout,
            Registration::Https { timeout, hostname, endpoint, .. } => transport is Https && timeout
                == config.tcp_request_timeout && optional_text(hostname) == endpoint_name(
                config.tls_cert,
            ) && endpoint@ == config.http_endpoint@,
            Registration::Quic { timeout, .. } => transport is Quic && timeout
                == config.tcp_request_timeout,
        },
{
}

/// Privileges are dropped once, after every socket is bound and before any request is answered.
pub proof fn privileges_are_dropped_after_binding(cli: DnsServer, config: Config)
    requires
        !cli.validate,
    ensures
        cli.steps(config).len() >= 2,
        cli.steps(config)[cli.steps(config).len() - 2] == StartupStep::DropPrivileges,
        cli.steps(config)[cli.steps(config).len() - 1] == StartupStep::Serve,
        forall|i: int|
            0 <= i < cli.steps(config).len() - 2 ==> !((#[trigger] cli.steps(config)[i])
                is DropPrivileges) && !(cli.steps(config)[i] is Serve),
{
}

/// Every zone is loaded before the server is made, and so before anything is bound for DNS.
pub proof fn zones_are_loaded_before_binding(cli: DnsServer, config: Config, i: int, k: int)
    requires
        0 <= i < cli.steps(config).len(),
        0 <= k < cli.steps(config).len(),
        cli.steps(config)[i] is LoadZone,
        acts_as_server(cli.steps(config)[k]),
    ensures
        i < k,
{
}

/// A transport that the command line or the configuration disables binds nothing.
#[verifier::rlimit(40)]
pub proof fn disabled_transport_binds_nothing(cli: DnsServer, config: Config, transport: Transport)
    requires
        cli.disables(config, transport),
    ensures
        forall|i: int|
            0 <= i < cli.steps(config).len() ==> !((#[trigger] cli.steps(config)[i]) matches
                StartupStep::Listen { transport: listening, .. } && listening == transport),
{
}

/// A transport that neither disables listens, on the port of the command line where that gives
/// one, and otherwise on the port of the configuration.
#[verifier::rlimit(40)]
pub proof fn enabled_transport_listens(cli: DnsServer, config: Config, transport: Transport)
    requires
        !cli.validate,
        !cli.disables(config, transport),
    ensures
        cli.steps(config).contains(
            StartupStep::Listen { transport, port: cli.port_of(config, transport) },
        ),
        forall|i: int|
            0 <= i < cli.steps(config).len() ==> ((#[trigger] cli.steps(config)[i]) matches
                StartupStep::Listen { transport: listening, port } ==> (listening == transport
                ==> port == cli.port_of(config, transport))),
{
    let steps = cli.steps(config);
    let before = cli.opening_steps(config).len() + config.zones@.len();
    let step = StartupStep::Listen { transport, port: cli.port_of(config, transport) };
    let udp: int = before as int + if config.tls_cert is Some {
        2int
    } else {
        1
    };
    let tls: int = before as int + 4;
    match transport {
        Transport::Udp => {
            assert(steps[udp] == step);
        },
        Transport::Tcp => {
            assert(steps[udp + 1] == step);
        },
        Transport::Tls => {
            assert(steps[tls] == step);
        },
        Transport::Https => {
            assert(steps[tls + 1] == step);
        },
        Transport::Quic => {
            assert(steps[tls + 2] == step);
        },
    }
}

/// Where there is no certificate, the operator of a server that starts is told, with a warning
/// just where an encrypted transport is enabled; and no encrypted transport binds a socket.
#[verifier::rlimit(40)]
pub proof fn missing_certificate_is_told(
    cli: DnsServer,
    config: Config,
    startup: Startup,
    transport: Transport,
    port: u16,
)
    requires
        !cli.validate,
        config.tls_cert is None,
        startup.follows(cli, config),
        transport.encrypted(),
    ensures
        startup.setup.sockets(transport, port).len() == 0,
        startup.steps@.contains(
            StartupStep::Announce(
                Notice::MissingCertificate(MissingTlsCertVerdict::ListenerSilentlySkipped),
            ),
        ) <==> !(cli.disables(config, Transport::Tls) && cli.disables(config, Transport::Https)
            && cli.disables(config, Transport::Quic)),
        startup.steps@.contains(
            StartupStep::Announce(
                Notice::MissingCertificate(MissingTlsCertVerdict::AllTlsDisabledByConfig),
            ),
        ) <==> cli.disables(config, Transport::Tls) && cli.disables(config, Transport::Https)
            && cli.disables(config, Transport::Quic),
{
    sockets_per_address(startup.setup, transport, port);
    let steps = cli.steps(config);
    let at = cli.opening_steps(config).len() + config.zones@.len() + 3;
    let notice = StartupStep::Announce(
        Notice::MissingCertificate(
            verdict(
                cli.disables(config, Transport::Tls),
                cli.disables(config, Transport::Https),
                cli.disables(config, Transport::Quic),
            ),
        ),
    );
    assert(steps[at as int] == notice);
    assert forall|i: int| 0 <= i < steps.len() && i != at implies !((#[trigger] steps[i]) matches
        StartupStep::Announce(Notice::MissingCertificate(_))) by {}
}

/// Nothing is said of a missing certificate where there is one.
pub proof fn certificate_is_not_missed(cli: DnsServer, config: Config)
    requires
        config.tls_cert is Some,
    ensures
        forall|i: int|
            0 <= i < cli.steps(config).len() ==> !((#[trigger] cli.steps(config)[i]) matches
                StartupStep::Announce(Notice::MissingCertificate(_))),
{
}

/// A server starts just where its configuration was read and is fit to start with, and where the
/// directory of the command line, if it gives one, has no two lone dots in it.
pub proof fn fit_configurations_start(
    cli: DnsServer,
    config_path: &str,
    parsed: Result<Config, String>,
    res: Result<Startup, String>,
)
    requires
        call_ensures(DnsServer::run, (cli, config_path, parsed), res),
    ensures
        res is Ok <==> parsed is Ok && is_fit_to_start(parsed->Ok_0) && match cli.zonedir {
            Some(dir) => !(exists|i: int| parent_dir_at(dir@, i)),
            None => true,
        },
        res matches Err(text) ==> match parsed {
            Err(why) => text@ == "failed to read config file from "@ + config_path@ + ": "@ + why@,
            Ok(config) => if is_fit_to_start(config) {
                text@ == "invalid zonedir override: "@ + ("`"@ + "zonedir"@
                    + "` must not contain `..` components: "@ + lossy_text(cli.zonedir->0@)
                    + "; use an absolute path if the zone directory is outside the working directory"@)
            } else {
                exists|err: ConfigError|
                    #[trigger] config.refused_with(err) && text@
                        == "failed to read config file from "@ + config_path@ + ": "@ + err.text()
            },
        },
{
    if let Ok(config) = parsed {
        accepted_is_fit_to_start(config);
    }
    if let Some(dir) = cli.zonedir {
        lone_dots(dir@);
    }
}

/// What a server starts with is what its command line and its configuration give: the directory of
/// the command line before that of the configuration, `nobody` where no account is given, every
/// address of the host where no address is given, and everything else as it stands.
pub proof fn starts_take_what_they_are_given(
    cli: DnsServer,
    config_path: &str,
    config: Config,
    startup: Startup,
)
    requires
        call_ensures(DnsServer::run, (cli, config_path, Ok(config)), Ok(startup)),
    ensures
        startup.validate == cli.validate,
        startup.zone_dir == match cli.zonedir {
            Some(dir) => dir,
            None => config.directory,
        },
        startup.zones == config.zones,
        startup.nsid == cli.nsid,
        startup.tls_cert == config.tls_cert,
        startup.http_endpoint == config.http_endpoint,
        startup.deny_networks == config.deny_networks,
        startup.allow_networks == config.allow_networks,
        startup.user@ == match config.user {
            Some(user) => user@,
            None => "nobody"@,
        },
        startup.group@ == match config.group {
            Some(group) => group@,
            None => "nobody"@,
        },
        startup.setup.tcp_request_timeout == config.tcp_request_timeout,
        startup.setup.has_certificate == (config.tls_cert is Some),
        startup.setup.ssl_keylog_enabled == config.ssl_keylog_enabled,
        startup.setup.udp_socket_config == config.udp_socket,
        startup.setup.tcp_socket_config == config.tcp_socket,
        ({
            let addrs = startup.setup.listen_addrs@;
            let v4 = config.listen_addrs_ipv4@;
            let v6 = config.listen_addrs_ipv6@;
            if v4.len() == 0 && v6.len() == 0 {
                &&& addrs.len() == 2
                &&& addrs[0] == IpAddr::V4(Ipv4Addr { bits: 0 })
                &&& addrs[1] == IpAddr::V6(Ipv6Addr { bits: 0 })
            } else {
                &&& addrs.len() == v4.len() + v6.len()
                &&& forall|i: int| 0 <= i < v4.len() ==> #[trigger] addrs[i] == IpAddr::V4(v4[i])
                &&& forall|i: int|
                    0 <= i < v6.len() ==> addrs[v4.len() + i] == IpAddr::V6(#[trigger] v6[i])
            }
        }),
{
}

/// A transport that is disabled is announced so, and otherwise listens on the given port.
pub open spec fn listens_or_says_not(
    step: StartupStep,
    disabled: bool,
    transport: Transport,
    port: u16,
) -> bool {
    if disabled {
        step == StartupStep::Announce(Notice::Disabled(transport))
    } else {
        step == (StartupStep::Listen { transport, port })
    }
}

/// The steps of a start, one by one: Prometheus, the signal handler, the NSID payload, the zones
/// in order; then, where the start only validates, that the files are validated; and otherwise the
/// server, its certificate where there is one, UDP and TCP, a word on a missing certificate, TLS,
/// HTTPS and QUIC, the privileges, and the requests.
#[verifier::rlimit(40)]
pub proof fn steps_come_in_this_order(
    cli: DnsServer,
    config_path: &str,
    config: Config,
    startup: Startup,
)
    requires
        call_ensures(DnsServer::run, (cli, config_path, Ok(config)), Ok(startup)),
    ensures
        ({
            let steps = startup.steps@;
            let zones = config.zones@.len() as int;
            let first: int = if cli.nsid_hostname {
                4
            } else {
                3
            };
            let then = first + zones;
            &&& steps.len() == then + if cli.validate {
                1int
            } else {
                9
            }
            &&& steps[0] == if cli.disable_prometheus || config.disable_prometheus {
                StartupStep::Announce(Notice::PrometheusDisabled)
            } else {
                StartupStep::ServePrometheus(
                    match (cli.prometheus_listen_addr, config.prometheus_listen_addr) {
                        (Some(addr), _) => addr,
                        (None, Some(addr)) => addr,
                        (None, None) => SocketAddr {
                            ip: IpAddr::V4(Ipv4Addr { bits: 0x7f00_0001 }),
                            port: 9000,
                        },
                    },
                )
            }
            &&& steps[1] == StartupStep::WatchForTermination
            &&& steps[2] == StartupStep::SetNsid
            &&& cli.nsid_hostname ==> steps[3] == StartupStep::SetNsidFromHostname
            &&& forall|k: int|
                first <= k < then ==> #[trigger] steps[k] == StartupStep::LoadZone(
                    (k - first) as usize,
                )
            &&& cli.validate ==> steps[then] == StartupStep::Announce(
                Notice::ConfigurationValidated,
            )
            &&& !cli.validate ==> {
                let udp = then + if config.tls_cert is Some {
                    2int
                } else {
                    1
                };
                let disable_tls = cli.disable_tls || config.disable_tls;
                let disable_https = cli.disable_https || config.disable_https;
                let disable_quic = cli.disable_quic || config.disable_quic;
                let port = match cli.port {
                    Some(port) => port,
                    None => config.listen_port,
                };
                &&& steps[then] == StartupStep::CreateServer
                &&& config.tls_cert is Some ==> steps[then + 1] == StartupStep::LoadCertificate
                &&& listens_or_says_not(
                    steps[udp],
                    cli.disable_udp || config.disable_udp,
                    Transport::Udp,
                    port,
                )
                &&& listens_or_says_not(
                    steps[udp + 1],
                    cli.disable_tcp || config.disable_tcp,
                    Transport::Tcp,
                    port,
                )
                &&& config.tls_cert is None ==> steps[then + 3] == StartupStep::Announce(
                    Notice::MissingCertificate(
                        if disable_tls && disable_https && disable_quic {
                            MissingTlsCertVerdict::AllTlsDisabledByConfig
                        } else {
                            MissingTlsCertVerdict::ListenerSilentlySkipped
                        },
                    ),
                )
                &&& listens_or_says_not(
                    steps[then + 4],
                    disable_tls,
                    Transport::Tls,
                    match cli.tls_port {
                        Some(port) => port,
                        None => config.tls_listen_port,
                    },
                )
                &&& listens_or_says_not(
                    steps[then + 5],
                    disable_https,
                    Transport::Https,
                    match cli.https_port {
                        Some(port) => port,
                        None => config.https_listen_port,
                    },
                )
                &&& listens_or_says_not(
                    steps[then + 6],
                    disable_quic,
                    Transport::Quic,
                    match cli.quic_port {
                        Some(port) => port,
                        None => config.quic_listen_port,
                    },
                )
                &&& steps[then + 7] == StartupStep::DropPrivileges
                &&& steps[then + 8] == StartupStep::Serve
            }
        }),
{
}

/// Whether a transport listens on the given port, and on no other.
pub open spec fn listens_only_on(
    steps: Seq<StartupStep>,
    transport: Transport,
    port: u16,
) -> bool {
    &&& steps.contains(StartupStep::Listen { transport, port })
    &&& forall|i: int|
        0 <= i < steps.len() && (#[trigger] steps[i]) is Listen && steps[i]->transport == transport
            ==> steps[i]->port == port
}

/// Whether a transport listens nowhere.
pub open spec fn listens_nowhere(steps: Seq<StartupStep>, transport: Transport) -> bool {
    forall|i: int|
        0 <= i < steps.len() && (#[trigger] steps[i]) is Listen ==> steps[i]->transport != transport
}

/// A server that does not only validate listens with each transport that neither the command line
/// nor the configuration disables, on the port that the command line gives for it, and on that of
/// the configuration where the command line gives none. A transport that one of them disables
/// listens nowhere.
#[verifier::rlimit(40)]
pub proof fn transports_listen_on_the_ports_they_are_given(
    cli: DnsServer,
    config_path: &str,
    config: Config,
    startup: Startup,
)
    requires
        call_ensures(DnsServer::run, (cli, config_path, Ok(config)), Ok(startup)),
        !cli.validate,
    ensures
        !cli.disable_udp && !config.disable_udp && cli.port is None ==> listens_only_on(
            startup.steps@,
            Transport::Udp,
            config.listen_port,
        ),
        !cli.disable_tcp && !config.disable_tcp && cli.port is None ==> listens_only_on(
            startup.steps@,
            Transport::Tcp,
            config.listen_port,
        ),
        !cli.disable_tls && !config.disable_tls && cli.tls_port is None ==> listens_only_on(
            startup.steps@,
            Transport::Tls,
            config.tls_listen_port,
        ),
        !cli.disable_https && !config.disable_https && cli.https_port is None ==> listens_only_on(
            startup.steps@,
            Transport::Https,
            config.https_listen_port,
        ),
        !cli.disable_quic && !config.disable_quic && cli.quic_port is None ==> listens_only_on(
            startup.steps@,
            Transport::Quic,
            config.quic_listen_port,
        ),
        !cli.disable_udp && !config.disable_udp && cli.port is Some ==> listens_only_on(
            startup.steps@,
            Transport::Udp,
            cli.port->0,
        ),
        !cli.disable_tcp && !config.disable_tcp && cli.port is Some ==> listens_only_on(
            startup.steps@,
            Transport::Tcp,
            cli.port->0,
        ),
        !cli.disable_tls && !config.disable_tls && cli.tls_port is Some ==> listens_only_on(
            startup.steps@,
            Transport::Tls,
            cli.tls_port->0,
        ),
        !cli.disable_https && !config.disable_https && cli.https_port is Some ==> listens_only_on(
            startup.steps@,
            Transport::Https,
            cli.https_port->0,
        ),
        !cli.disable_quic && !config.disable_quic && cli.quic_port is Some ==> listens_only_on(
            startup.steps@,
            Transport::Quic,
            cli.quic_port->0,
        ),
        cli.disable_udp || config.disable_udp ==> listens_nowhere(startup.steps@, Transport::Udp),
        cli.disable_tcp || config.disable_tcp ==> listens_nowhere(startup.steps@, Transport::Tcp),
        cli.disable_tls || config.disable_tls ==> listens_nowhere(startup.steps@, Transport::Tls),
        cli.disable_https || config.disable_https ==> listens_nowhere(
            startup.steps@,
            Transport::Https,
        ),
        cli.disable_quic || config.disable_quic ==> listens_nowhere(
            startup.steps@,
            Transport::Quic,
        ),
{
    ports_of_transport(cli, config, startup, Transport::Udp);
    ports_of_transport(cli, config, startup, Transport::Tcp);
    ports_of_transport(cli, config, startup, Transport::Tls);
    ports_of_transport(cli, config, startup, Transport::Https);
    ports_of_transport(cli, config, startup, Transport::Quic);
}

proof fn ports_of_transport(cli: DnsServer, config: Config, startup: Startup, transport: Transport)
    requires
        startup.follows(cli, config),
        !cli.validate,
    ensures
        !cli.disables(config, transport) ==> listens_only_on(
            startup.steps@,
            transport,
            cli.port_of(config, transport),
        ),
        cli.disables(config, transport) ==> listens_nowhere(startup.steps@, transport),
{
    if cli.disables(config, transport) {
        disabled_transport_binds_nothing(cli, config, transport);
    } else {
        enabled_transport_listens(cli, config, transport);
    }
}

/// The sockets of a start are one or more on each of its addresses. TCP, TLS, HTTPS and QUIC keep
/// its timeout, TCP its number of queued responses, and HTTPS answers at its endpoint, under the
/// name that its certificate is for.
pub proof fn starts_bind_and_register<'a>(
    startup: &'a Startup,
    transport: Transport,
    port: u16,
    res: Listeners<'a>,
)
    requires
        call_ensures(Startup::listen, (startup, transport, port), res),
    ensures
        binds_every_address(startup.setup, transport, port, res.requests@),
        match transport {
            Transport::Udp => res.registration is Udp,
            Transport::Tcp => res.registration matches Registration::Tcp {
                timeout,
                response_buffer_size,
            } && timeout == startup.setup.tcp_request_timeout && response_buffer_size
                == startup.setup.tcp_socket_config.response_buffer_size,
            Transport::Tls => res.registration matches Registration::Tls { timeout, alpn }
                && timeout == startup.setup.tcp_request_timeout && alpn@ == "dot"@,
            Transport::Https => res.registration matches Registration::Https {
                timeout,
                alpn,
                hostname,
                endpoint,
            } && timeout == startup.setup.tcp_request_timeout && alpn@ == "h2"@ && endpoint@
                == startup.http_endpoint@ && match startup.tls_cert {
                Some(config) => match config.endpoint_name {
                    Some(name) => hostname is Some && hostname->0@ == name@,
                    None => hostname is None,
                },
                None => hostname is None,
            },
            Transport::Quic => res.registration matches Registration::Quic { timeout, alpn }
                && timeout == startup.setup.tcp_request_timeout && alpn@ == "doq"@,
        },
{
    sockets_are_one_or_more_per_address(startup.setup, transport, port);
}

/// A missing certificate is warned of just where a transport that needs one is enabled, and that
/// is the only warning; every notice says what it is about.
pub proof fn notices_say_what_they_are_about(
    disable_tls: bool,
    disable_https: bool,
    disable_quic: bool,
    verdict: MissingTlsCertVerdict,
    transport: Transport,
    missing: String,
    is_warning: bool,
    disabled: String,
    disabled_is_warning: bool,
)
    requires
        call_ensures(missing_tls_cert_verdict, (disable_tls, disable_https, disable_quic), verdict),
        call_ensures(Notice::message, (&Notice::MissingCertificate(verdict),), missing),
        call_ensures(Notice::is_warning, (&Notice::MissingCertificate(verdict),), is_warning),
        call_ensures(Notice::message, (&Notice::Disabled(transport),), disabled),
        call_ensures(Notice::is_warning, (&Notice::Disabled(transport),), disabled_is_warning),
    ensures
        is_warning <==> !disable_tls || !disable_https || !disable_quic,
        missing@ == if disable_tls && disable_https && disable_quic {
            "TLS related protocols (TLS, HTTPS and QUIC) are disabled"@
        } else {
            "TLS-family transports (DoT/DoH/DoQ) are compiled in and not all disabled, but no [tls_cert] is configured — those listeners will NOT start. Either set [tls_cert] or set disable_tls/disable_https/disable_quic = true to silence this warning."@
        },
        !disabled_is_warning,
        disabled@ == (match transport {
            Transport::Udp => "UDP"@,
            Transport::Tcp => "TCP"@,
            Transport::Tls => "TLS"@,
            Transport::Https => "HTTPS"@,
            Transport::Quic => "QUIC"@,
        }) + " protocol is disabled"@,
{
}

} // verus!
