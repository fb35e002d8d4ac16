use hickory_dns::addr::{IpAddr, Ipv4Addr, Ipv6Addr, SocketAddr};
use hickory_dns::config::{
    default_directory, default_http_endpoint, default_https_port, default_port,
    default_request_timeout, default_tls_port, Config, RequestTimeout, TcpSocketConfig,
    UdpSocketConfig,
};
use hickory_dns::failure::Failure;
use hickory_dns::nsid::NSIDPayload;
use hickory_dns::path::UnixPath;
use hickory_dns::privilege::{
    check_drop_privs, ids_changed, AccountRequest, IdChange, PrivilegeStep, ProcessIds,
};
use hickory_dns::report::{banner, banner_lines, ended, keylog_for, lines_of};
use hickory_dns::setup::{Registration, Transport};
use hickory_dns::startup::{
    missing_tls_cert_verdict, DnsServer, MissingTlsCertVerdict, Notice, StartupStep,
};
use hickory_dns::tls::TlsCertConfig;
use hickory_dns::zone::{ExternalStoreConfig, ForwardConfig, ZoneConfig, ZoneTypeConfig};

fn cli() -> DnsServer {
    DnsServer {
        validate: false,
        workers: None,
        quiet: false,
        debug: false,
        config: UnixPath::new("/etc/named.toml"),
        zonedir: None,
        port: None,
        tls_port: None,
        https_port: None,
        quic_port: None,
        prometheus_listen_addr: None,
        disable_tcp: false,
        disable_udp: false,
        disable_tls: false,
        disable_https: false,
        disable_quic: false,
        disable_prometheus: false,
        nsid: None,
        nsid_hostname: false,
    }
}

fn config() -> Config {
    Config {
        listen_addrs_ipv4: vec![],
        listen_addrs_ipv6: vec![],
        listen_port: default_port(),
        tls_listen_port: default_tls_port(),
        https_listen_port: default_https_port(),
        quic_listen_port: 8853,
        prometheus_listen_addr: None,
        disable_tcp: false,
        disable_udp: false,
        disable_tls: false,
        disable_https: false,
        disable_quic: false,
        disable_prometheus: false,
        tcp_request_timeout: default_request_timeout(),
        ssl_keylog_enabled: false,
        directory: default_directory(),
        user: None,
        group: None,
        zones: vec![],
        tls_cert: None,
        http_endpoint: default_http_endpoint(),
        deny_networks: vec![],
        allow_networks: vec![],
        udp_socket: UdpSocketConfig::default(),
        tcp_socket: TcpSocketConfig::default(),
    }
}

fn zone() -> ZoneConfig {
    ZoneConfig {
        zone: "example.com".to_string(),
        zone_type_config: ZoneTypeConfig::External { stores: vec![] },
    }
}

fn cert() -> Option<TlsCertConfig> {
    Some(TlsCertConfig {
        path: UnixPath::new("cert.pem"),
        endpoint_name: None,
        private_key: UnixPath::new("key.pem"),
    })
}

fn listen(transport: Transport, port: u16) -> StartupStep {
    StartupStep::Listen { transport, port }
}

#[test]
fn missing_cert_with_dot_enabled_warns() {
    assert_eq!(
        missing_tls_cert_verdict(false, true, true),
        MissingTlsCertVerdict::ListenerSilentlySkipped,
    );
}

#[test]
fn missing_cert_with_doh_enabled_warns() {
    assert_eq!(
        missing_tls_cert_verdict(true, false, true),
        MissingTlsCertVerdict::ListenerSilentlySkipped,
    );
}

#[test]
fn missing_cert_with_doq_enabled_warns() {
    assert_eq!(
        missing_tls_cert_verdict(true, true, false),
        MissingTlsCertVerdict::ListenerSilentlySkipped,
    );
}

#[test]
fn missing_cert_all_disabled_is_quiet() {
    assert_eq!(
        missing_tls_cert_verdict(true, true, true),
        MissingTlsCertVerdict::AllTlsDisabledByConfig,
    );
}

#[test]
fn whole_start_without_certificate() {
    let startup = cli()
        .run("\"/etc/named.toml\"", Ok(Config { zones: vec![zone(), zone()], ..config() }))
        .ok()
        .unwrap();
    assert_eq!(
        startup.steps,
        vec![
            StartupStep::ServePrometheus(SocketAddr {
                ip: IpAddr::V4(Ipv4Addr { bits: 0x7f00_0001 }),
                port: 9000,
            }),
            StartupStep::WatchForTermination,
            StartupStep::SetNsid,
            StartupStep::LoadZone(0),
            StartupStep::LoadZone(1),
            StartupStep::CreateServer,
            listen(Transport::Udp, 53),
            listen(Transport::Tcp, 53),
            StartupStep::Announce(Notice::MissingCertificate(
                MissingTlsCertVerdict::ListenerSilentlySkipped
            )),
            listen(Transport::Tls, 853),
            listen(Transport::Https, 443),
            listen(Transport::Quic, 8853),
            StartupStep::DropPrivileges,
            StartupStep::Serve,
        ]
    );
    assert_eq!(startup.zones.len(), 2);
    assert!(!startup.validate);
    assert!(!startup.setup.has_certificate);
    assert!(startup.setup.tls(853).requests.next().is_none());
}

#[test]
fn missing_certificate_warning_text() {
    let startup = cli().run("", Ok(config())).ok().unwrap();
    let warnings: Vec<String> = startup
        .steps
        .iter()
        .filter_map(|step| match step {
            StartupStep::Announce(notice) if notice.is_warning() => Some(notice.message()),
            _ => None,
        })
        .collect();
    assert_eq!(warnings.len(), 1);
    assert!(warnings[0]
        .contains("TLS-family transports (DoT/DoH/DoQ) are compiled in and not all disabled"));
    assert!(warnings[0].contains("no [tls_cert] is configured"));
}

#[test]
fn certificate_is_loaded_before_anything_is_bound() {
    let startup = cli().run("", Ok(Config { tls_cert: cert(), ..config() })).ok().unwrap();
    assert_eq!(
        startup.steps[3..],
        [
            StartupStep::CreateServer,
            StartupStep::LoadCertificate,
            listen(Transport::Udp, 53),
            listen(Transport::Tcp, 53),
            listen(Transport::Tls, 853),
            listen(Transport::Https, 443),
            listen(Transport::Quic, 8853),
            StartupStep::DropPrivileges,
            StartupStep::Serve,
        ]
    );
    assert!(startup.setup.has_certificate);
    assert_eq!(startup.tls_cert, cert());
}

#[test]
fn https_is_registered_under_the_name_of_the_certificate() {
    let named = || TlsCertConfig {
        endpoint_name: Some("ns.example.com".to_string()),
        ..cert().unwrap()
    };
    for (tls_cert, hostname) in
        [(None, None), (cert(), None), (Some(named()), Some("ns.example.com"))]
    {
        let http_endpoint = "/q".to_string();
        let tcp_request_timeout = RequestTimeout { secs: 9 };
        let config = Config { tls_cert, http_endpoint, tcp_request_timeout, ..config() };
        let startup = cli().run("", Ok(config)).ok().unwrap();
        assert_eq!(
            startup.listen(Transport::Https, 443).registration,
            Registration::Https {
                timeout: RequestTimeout { secs: 9 },
                alpn: "h2",
                hostname,
                endpoint: "/q",
            }
        );
    }
}

#[test]
fn validation_ends_after_the_zones() {
    let cli = DnsServer { validate: true, disable_prometheus: true, ..cli() };
    let startup = cli.run("", Ok(Config { zones: vec![zone()], ..config() })).ok().unwrap();
    assert!(startup.validate);
    assert_eq!(
        startup.steps,
        vec![
            StartupStep::Announce(Notice::PrometheusDisabled),
            StartupStep::WatchForTermination,
            StartupStep::SetNsid,
            StartupStep::LoadZone(0),
            StartupStep::Announce(Notice::ConfigurationValidated),
        ]
    );
}

#[test]
fn either_side_disables_a_transport() {
    let cli = DnsServer { disable_udp: true, disable_tls: true, disable_quic: true, ..cli() };
    let config = Config { disable_tcp: true, disable_https: true, ..config() };
    let steps = cli.plan(&config);
    assert!(!steps.iter().any(|step| matches!(step, StartupStep::Listen { .. })));
    for transport in
        [Transport::Udp, Transport::Tcp, Transport::Tls, Transport::Https, Transport::Quic]
    {
        assert!(steps.contains(&StartupStep::Announce(Notice::Disabled(transport))));
    }
    assert!(steps.contains(&StartupStep::Announce(Notice::MissingCertificate(
        MissingTlsCertVerdict::AllTlsDisabledByConfig
    ))));
}

#[test]
fn command_line_overrides_ports() {
    let addr = SocketAddr { ip: IpAddr::V6(Ipv6Addr { bits: 1 }), port: 9100 };
    let other = SocketAddr { ip: IpAddr::V6(Ipv6Addr { bits: 1 }), port: 9200 };
    let cli = DnsServer {
        port: Some(0),
        tls_port: Some(1),
        https_port: Some(2),
        quic_port: Some(3),
        prometheus_listen_addr: Some(addr),
        ..cli()
    };
    let steps = cli.plan(&Config { prometheus_listen_addr: Some(other), ..config() });
    assert_eq!(steps[0], StartupStep::ServePrometheus(addr));
    assert!(steps.contains(&listen(Transport::Udp, 0)));
    assert!(steps.contains(&listen(Transport::Tcp, 0)));
    assert!(steps.contains(&listen(Transport::Tls, 1)));
    assert!(steps.contains(&listen(Transport::Https, 2)));
    assert!(steps.contains(&listen(Transport::Quic, 3)));
}

#[test]
fn prometheus_address_of_the_configuration() {
    let addr = SocketAddr { ip: IpAddr::V6(Ipv6Addr { bits: 1 }), port: 9200 };
    let steps = cli().plan(&Config { prometheus_listen_addr: Some(addr), ..config() });
    assert_eq!(steps[0], StartupStep::ServePrometheus(addr));
    let steps = cli().plan(&Config {
        prometheus_listen_addr: Some(addr),
        disable_prometheus: true,
        ..config()
    });
    assert_eq!(steps[0], StartupStep::Announce(Notice::PrometheusDisabled));
}

#[test]
fn nsid_of_the_host_comes_after_that_of_the_command_line() {
    let nsid = NSIDPayload::new(vec![1]).unwrap();
    let cli = DnsServer { nsid: Some(nsid), nsid_hostname: true, ..cli() };
    let startup = cli.run("", Ok(config())).ok().unwrap();
    assert_eq!(
        startup.steps[1..4],
        [
            StartupStep::WatchForTermination,
            StartupStep::SetNsid,
            StartupStep::SetNsidFromHostname
        ]
    );
    assert_eq!(startup.nsid.unwrap().as_bytes(), &[1]);
}

#[test]
fn addresses_of_the_configuration_are_bound() {
    let a = Ipv4Addr { bits: 0x0a00_0001 };
    let b = Ipv6Addr { bits: 2 };
    let startup = cli()
        .run("", Ok(Config { listen_addrs_ipv4: vec![a], listen_addrs_ipv6: vec![b], ..config() }))
        .ok()
        .unwrap();
    assert_eq!(startup.setup.listen_addrs, vec![IpAddr::V4(a), IpAddr::V6(b)]);
}

#[test]
fn every_address_is_bound_where_none_is_given() {
    let startup = cli().run("", Ok(config())).ok().unwrap();
    assert_eq!(
        startup.setup.listen_addrs,
        vec![IpAddr::V4(Ipv4Addr { bits: 0 }), IpAddr::V6(Ipv6Addr { bits: 0 })]
    );
    let b = Ipv6Addr { bits: 2 };
    let startup =
        cli().run("", Ok(Config { listen_addrs_ipv6: vec![b], ..config() })).ok().unwrap();
    assert_eq!(startup.setup.listen_addrs, vec![IpAddr::V6(b)]);
}

fn forwarding(config: Config) -> Config {
    let store = ExternalStoreConfig::Forward(ForwardConfig { cache_size: None });
    let zone = ZoneConfig {
        zone: ".".to_string(),
        zone_type_config: ZoneTypeConfig::External { stores: vec![store] },
    };
    Config { zones: vec![zone], ..config }
}

#[test]
fn resolver_for_this_host_binds_loopback_only() {
    let loopback = Ipv4Addr { bits: 0x7f00_0002 };
    let local = Config {
        listen_addrs_ipv4: vec![loopback],
        listen_addrs_ipv6: vec![Ipv6Addr { bits: 1 }],
        tls_cert: cert(),
        ..config()
    };
    let startup = cli().run("", Ok(forwarding(local))).ok().unwrap();
    for transport in
        [Transport::Udp, Transport::Tcp, Transport::Tls, Transport::Https, Transport::Quic]
    {
        let mut queue = startup.listen(transport, 53).requests;
        assert_eq!(queue.next().unwrap().ip, IpAddr::V4(loopback));
        assert_eq!(queue.next().unwrap().ip, IpAddr::V6(Ipv6Addr { bits: 1 }));
        assert!(queue.next().is_none());
    }
}

#[test]
fn resolver_for_everyone_does_not_start() {
    let text = cli().run("\"f\"", Ok(forwarding(config()))).err().unwrap();
    assert!(text.starts_with("failed to read config file from \"f\": refusing to start: recursor"));
}

#[test]
fn udp_sockets_of_a_start() {
    let udp_socket = UdpSocketConfig { sockets: Some(256), ..UdpSocketConfig::default() };
    let startup = cli().run("", Ok(Config { udp_socket, ..config() })).ok().unwrap();
    let mut queue = startup.setup.udp(53).requests;
    let mut bound = 0;
    while queue.next().is_some() {
        bound += 1;
    }
    assert_eq!(bound, 512);
}

#[test]
fn paths_stay_in_the_zone_dir() {
    let startup = cli().run("", Ok(config())).ok().unwrap();
    let path = startup.zone_dir.join(&UnixPath::new("example.com/zone"));
    assert_eq!(path, UnixPath::new("/var/named/example.com/zone"));
    assert!(!path.has_parent_dir());
}

#[test]
fn accounts_and_directories() {
    let startup = cli().run("", Ok(config())).ok().unwrap();
    assert_eq!(startup.user, "nobody");
    assert_eq!(startup.group, "nobody");
    assert_eq!(startup.zone_dir, UnixPath::new("/var/named"));
    let cli = DnsServer { zonedir: Some(UnixPath::new("/zones")), ..cli() };
    let startup = cli
        .run(
            "",
            Ok(Config {
                user: Some("dns".to_string()),
                group: Some("daemon".to_string()),
                deny_networks: vec!["192.0.2.0/24".parse().unwrap()],
                ..config()
            }),
        )
        .ok()
        .unwrap();
    assert_eq!(startup.user, "dns");
    assert_eq!(startup.group, "daemon");
    assert_eq!(startup.zone_dir, UnixPath::new("/zones"));
    assert_eq!(startup.deny_networks, vec!["192.0.2.0/24".parse().unwrap()]);
}

#[test]
fn configuration_that_cannot_be_read() {
    let text = cli().run("\"/etc/named.toml\"", Err("io error: gone".to_string())).err().unwrap();
    assert_eq!(text, "failed to read config file from \"/etc/named.toml\": io error: gone");
}

#[test]
fn configuration_that_is_refused() {
    let udp_socket = UdpSocketConfig { sockets: Some(300), ..UdpSocketConfig::default() };
    let text = cli().run("\"f\"", Ok(Config { udp_socket, ..config() })).err().unwrap();
    assert_eq!(
        text,
        "failed to read config file from \"f\": `udp_socket.sockets` = 300 exceeds the maximum of \
         256; values above this can exhaust file descriptors without improving UDP load \
         distribution"
    );
}

#[test]
fn zonedir_with_parent_dir_is_refused() {
    let cli = DnsServer { zonedir: Some(UnixPath::new("../zones")), ..cli() };
    assert_eq!(
        cli.run("", Ok(config())).err().unwrap(),
        "invalid zonedir override: `zonedir` must not contain `..` components: ../zones; use an \
         absolute path if the zone directory is outside the working directory"
    );
}

#[test]
fn notices() {
    assert_eq!(Notice::PrometheusDisabled.message(), "Prometheus metrics are disabled");
    assert_eq!(Notice::ConfigurationValidated.message(), "configuration files are validated");
    assert_eq!(Notice::Disabled(Transport::Quic).message(), "QUIC protocol is disabled");
    let quiet = Notice::MissingCertificate(MissingTlsCertVerdict::AllTlsDisabledByConfig);
    assert_eq!(quiet.message(), "TLS related protocols (TLS, HTTPS and QUIC) are disabled");
    assert!(!quiet.is_warning());
    assert!(!Notice::Disabled(Transport::Tls).is_warning());
}

#[test]
fn failures() {
    let err = || "why".to_string();
    let cases = [
        (
            Failure::PrometheusBind { addr: "127.0.0.1:9000".to_string(), err: err() },
            "failed to bind to Prometheus TCP socket address 127.0.0.1:9000: why",
        ),
        (Failure::PrometheusAddress { err: err() }, "failed to look up local address: why"),
        (Failure::SignalHandler { err: err() }, "failed to register signal handler: why"),
        (Failure::Hostname { err: err() }, "failed to get system hostname: why"),
        (
            Failure::ZoneName { config_path: "\"c\"".to_string(), err: err() },
            "failed to read zone name from \"c\": why",
        ),
        (
            Failure::ZoneLoad { zone: "example.com.".to_string(), err: err() },
            "could not load zone example.com.: why",
        ),
        (
            Failure::Certificate { path: "\"cert.pem\"".to_string(), err: err() },
            "failed to load TLS certificate from \"cert.pem\": why",
        ),
        (
            Failure::Bind { transport: Transport::Udp, addr: "::1".to_string(), err: err() },
            "failed to bind to UDP socket address ::1: why",
        ),
        (Failure::LocalAddress { err: err() }, "failed to lookup local address: why"),
        (Failure::TlsConfig { err: err() }, "failed to build default TLS config: why"),
        (
            Failure::Register { transport: Transport::Https, err: err() },
            "failed to register HTTPS listener: why",
        ),
        (Failure::Notify { err: err() }, "sd_notify READY=1 failed: why"),
    ];
    for (failure, text) in cases {
        assert_eq!(failure.message(), text);
    }
}

#[test]
fn banner_of_the_server() {
    assert_eq!(banner(), vec!["", " Hickory DNS", ""]);
}

#[test]
fn logo_of_several_lines() {
    assert_eq!(banner_lines("a\r\n\nb\n"), vec!["", " a", " ", " b", ""]);
    assert_eq!(banner_lines(""), vec!["", ""]);
}

#[test]
fn lines_are_those_of_the_standard_library() {
    for text in ["", "\n", "a", "a\n", "a\nb", "a\r\nb\r\n", "a\r", "\r\n", "\n\n", "a\rb\n\r"] {
        let expected: Vec<&str> = text.lines().collect();
        assert_eq!(lines_of(text), expected, "{text:?}");
    }
}

#[test]
fn key_log_warnings() {
    assert_eq!(
        keylog_for("DoT", Some("\"/tmp/keys\"")),
        "DoT TLS session key logging is ENABLED, keys will be written to \"/tmp/keys\" — anything \
         with read access to that file can decrypt captured DoT traffic"
    );
    assert_eq!(
        keylog_for("DoQ", None),
        "DoQ ssl_keylog_enabled is set but SSLKEYLOGFILE env var is unset; no keys will be written"
    );
}

fn ids(uid: u32, euid: u32) -> ProcessIds {
    ProcessIds { uid, gid: 0, euid, egid: 0 }
}

#[test]
fn privileges_are_kept_unless_root() {
    assert_eq!(check_drop_privs(ids(1000, 1000), "a\0", "b\0"), Ok(PrivilegeStep::Keep));
    let request = AccountRequest { user: "nobody", group: "daemon" };
    assert_eq!(
        check_drop_privs(ids(0, 1000), "nobody", "daemon"),
        Ok(PrivilegeStep::LookUp(request))
    );
    assert_eq!(
        check_drop_privs(ids(1000, 0), "nobody", "daemon"),
        Ok(PrivilegeStep::LookUp(request))
    );
}

#[test]
fn names_with_a_zero_byte_are_refused() {
    assert_eq!(
        check_drop_privs(ids(0, 0), "a\0b", "c\0"),
        Err("unable to create CString for user a\0b".to_string())
    );
    assert_eq!(
        check_drop_privs(ids(0, 0), "a", "c\0"),
        Err("unable to create CString for group c\0. Exiting.".to_string())
    );
}

#[test]
fn group_is_changed_before_user() {
    let request = AccountRequest { user: "u", group: "g" };
    assert_eq!(
        request.found(Some(10), Some(20)),
        Ok(vec![IdChange::SetGid(20), IdChange::SetUid(10)])
    );
    assert_eq!(
        request.found(None, None),
        Err("unable to lookup user 'u'. Exiting.".to_string())
    );
    assert_eq!(
        request.found(Some(10), None),
        Err("unable to lookup group 'g'. Exiting.".to_string())
    );
}

#[test]
fn outcome_of_the_change() {
    assert_eq!(ids_changed(0, 0), Ok(()));
    assert_eq!(ids_changed(-1, -1), Err("unable to set gid. Exiting.".to_string()));
    assert_eq!(ids_changed(0, -1), Err("unable to set uid. Exiting.".to_string()));
}

#[test]
fn failed_requests_name_their_transport() {
    let startup = cli().run("", Ok(Config { tls_cert: cert(), ..config() })).ok().unwrap();
    let request = startup.listen(Transport::Quic, 853).requests.next().unwrap();
    assert_eq!(
        request.unbound("::1".to_string(), "in use".to_string()).message(),
        "failed to bind to QUIC socket address ::1: in use"
    );
    assert_eq!(
        request.unregistered("why".to_string()),
        Failure::Register { transport: Transport::Quic, err: "why".to_string() }
    );
}

#[test]
fn end_of_the_server() {
    assert_eq!(ended("1.2", Ok(())), Ok("Hickory DNS 1.2 stopping".to_string()));
    assert_eq!(
        ended("1.2", Err("why".to_string())),
        Err("Hickory DNS 1.2 has encountered an error: why".to_string())
    );
}
