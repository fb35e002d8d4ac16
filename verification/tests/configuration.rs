use hickory_dns::addr::{Ipv4Addr, Ipv6Addr};
use hickory_dns::config::{
    default_directory, default_http_endpoint, default_https_port, default_port,
    default_request_timeout, default_tcp_listen_backlog, default_tcp_response_buffer_size,
    default_tls_port, is_resolver_store, parse_request_timeout, Config, ConfigError,
    TcpSocketConfig, UdpSocketConfig, MAX_RESOLVER_CACHE_ENTRIES, MAX_UDP_SOCKETS,
};
use hickory_dns::path::UnixPath;
use hickory_dns::zone::{
    AxfrPolicy, DnssecPolicyConfig, ExternalStoreConfig, ForwardConfig, RecursiveConfig,
    ServerZoneConfig, ZoneConfig, ZoneTypeConfig,
};

fn v4(octets: [u8; 4]) -> Ipv4Addr {
    Ipv4Addr { bits: u32::from_be_bytes(octets) }
}

fn zone(stores: Vec<ExternalStoreConfig>) -> ZoneConfig {
    ZoneConfig {
        zone: ".".to_string(),
        zone_type_config: ZoneTypeConfig::External { stores },
    }
}

fn server_zone() -> ZoneConfig {
    ZoneConfig {
        zone: "example.com".to_string(),
        zone_type_config: ZoneTypeConfig::Primary(ServerZoneConfig {
            axfr_policy: AxfrPolicy::Deny,
            keys: 0,
            stores: vec![],
        }),
    }
}

fn forward(cache_size: Option<u64>) -> ExternalStoreConfig {
    ExternalStoreConfig::Forward(ForwardConfig { cache_size })
}

fn recursor(ns: usize, response: u64, policy: DnssecPolicyConfig) -> ExternalStoreConfig {
    ExternalStoreConfig::Recursor(RecursiveConfig {
        ns_cache_size: ns,
        response_cache_size: response,
        dnssec_policy: policy,
    })
}

fn config() -> Config {
    Config {
        listen_addrs_ipv4: vec![],
        listen_addrs_ipv6: vec![],
        listen_port: default_port(),
        tls_listen_port: default_tls_port(),
        https_listen_port: default_https_port(),
        quic_listen_port: default_tls_port(),
        prometheus_listen_addr: None,
        disable_tcp: false,
        disable_udp: false,
        disable_tls: false,
        disable_https: false,
        disable_quic: false,
        disable_prometheus: false,
        tcp_request_timeout: default_request_timeout(),
        ssl_keylog_enabled: false,
        directory: default_directory(),
        user: None,
        group: None,
        zones: vec![],
        tls_cert: None,
        http_endpoint: default_http_endpoint(),
        deny_networks: vec![],
        allow_networks: vec![],
        udp_socket: UdpSocketConfig::default(),
        tcp_socket: TcpSocketConfig::default(),
    }
}

fn refused(config: Config) -> ConfigError {
    Config::read_config(config).err().unwrap()
}

#[test]
fn defaults() {
    assert_eq!(default_port(), 53);
    assert_eq!(default_tls_port(), 853);
    assert_eq!(default_https_port(), 443);
    assert_eq!(default_request_timeout().secs, 5);
    assert_eq!(parse_request_timeout(30).secs, 30);
    assert_eq!(default_http_endpoint(), "/dns-query");
    assert_eq!(default_directory(), UnixPath::new("/var/named"));
    assert_eq!(default_tcp_listen_backlog(), 128);
    assert_eq!(default_tcp_response_buffer_size(), 32);
    assert_eq!(
        TcpSocketConfig::default(),
        TcpSocketConfig { listen_backlog: 128, response_buffer_size: 32 }
    );
    assert_eq!(
        UdpSocketConfig::default(),
        UdpSocketConfig { recv_buffer_size: None, send_buffer_size: None, sockets: None }
    );
}

#[test]
fn plain_configuration_is_accepted() {
    assert!(Config::read_config(config()).is_ok());
    assert!(Config::read_config(Config { zones: vec![server_zone()], ..config() }).is_ok());
}

#[test]
fn directory_traversal_is_refused() {
    let err = refused(Config { directory: UnixPath::new("zones/../etc"), ..config() });
    assert_eq!(
        err,
        ConfigError::DirectoryTraversal { field: "directory", path: "zones/../etc".to_string() }
    );
    assert_eq!(
        err.message(),
        "`directory` must not contain `..` components: zones/../etc; use an absolute path if the \
         zone directory is outside the working directory"
    );
    assert_eq!(
        Config::check_directory_path(&UnixPath::new(".."), "zonedir"),
        Err(ConfigError::DirectoryTraversal { field: "zonedir", path: "..".to_string() })
    );
    assert_eq!(Config::check_directory_path(&UnixPath::new("/var/named"), "zonedir"), Ok(()));
}

#[test]
fn open_recursor_is_refused() {
    let err = refused(Config {
        zones: vec![server_zone(), zone(vec![ExternalStoreConfig::Blocklist, forward(None)])],
        ..config()
    });
    assert_eq!(err, ConfigError::OpenRecursor);
    assert_eq!(
        err.message(),
        "refusing to start: recursor or forwarder listens on non-loopback addresses with no \
         `allow_networks` set — this would create an open public resolver. Set `allow_networks` \
         to the prefixes you intend to serve, or bind only to loopback."
    );
}

#[test]
fn resolver_on_loopback_is_accepted() {
    let res = Config::read_config(Config {
        zones: vec![zone(vec![forward(None)])],
        listen_addrs_ipv4: vec![v4([127, 0, 0, 1]), v4([127, 255, 255, 255])],
        listen_addrs_ipv6: vec![Ipv6Addr { bits: 1 }],
        ..config()
    });
    assert!(res.is_ok());
}

#[test]
fn one_public_address_is_enough() {
    for addr in [[128, 0, 0, 0], [126, 255, 255, 255], [0, 0, 0, 0], [192, 0, 2, 1]] {
        let err = refused(Config {
            zones: vec![zone(vec![forward(None)])],
            listen_addrs_ipv4: vec![v4([127, 0, 0, 1]), v4(addr)],
            ..config()
        });
        assert_eq!(err, ConfigError::OpenRecursor);
    }
    for bits in [0, 2, 0xffff_7f00_0001] {
        let err = refused(Config {
            zones: vec![zone(vec![forward(None)])],
            listen_addrs_ipv4: vec![v4([127, 0, 0, 1])],
            listen_addrs_ipv6: vec![Ipv6Addr { bits }],
            ..config()
        });
        assert_eq!(err, ConfigError::OpenRecursor);
    }
}

#[test]
fn listed_clients_may_use_a_public_resolver() {
    let res = Config::read_config(Config {
        zones: vec![zone(vec![forward(None)])],
        allow_networks: vec!["10.0.0.0/8".parse().unwrap()],
        ..config()
    });
    assert_eq!(res.ok().unwrap().allow_networks, vec!["10.0.0.0/8".parse().unwrap()]);
}

#[test]
fn resolver_stores() {
    assert!(is_resolver_store(&forward(Some(1))));
    assert!(is_resolver_store(&recursor(1, 1, DnssecPolicyConfig::ValidationDisabled)));
    assert!(!is_resolver_store(&ExternalStoreConfig::Blocklist));
    assert!(!is_resolver_store(&ExternalStoreConfig::Default));
}

fn with_stores(stores: Vec<ExternalStoreConfig>) -> Config {
    Config { zones: vec![zone(stores)], listen_addrs_ipv4: vec![v4([127, 0, 0, 1])], ..config() }
}

fn large(field: &'static str, value: u64) -> ConfigError {
    ConfigError::CacheSizeTooLarge { field, value, max: 16777216 }
}

#[test]
fn caches_are_capped() {
    let cap = MAX_RESOLVER_CACHE_ENTRIES;
    let none = DnssecPolicyConfig::SecurityUnaware;
    let full = DnssecPolicyConfig::ValidateWithStaticKey {
        validation_cache_size: Some(cap as usize),
    };
    let over = DnssecPolicyConfig::ValidateWithStaticKey {
        validation_cache_size: Some(cap as usize + 1),
    };
    let unset = DnssecPolicyConfig::ValidateWithStaticKey { validation_cache_size: None };
    assert!(Config::read_config(with_stores(vec![recursor(cap as usize, cap, full)])).is_ok());
    assert!(Config::read_config(with_stores(vec![recursor(1, 1, unset)])).is_ok());
    assert!(Config::read_config(with_stores(vec![forward(Some(cap)), forward(None)])).is_ok());
    assert_eq!(
        refused(with_stores(vec![recursor(cap as usize + 1, cap + 2, over)])),
        large("ns_cache_size", cap + 1)
    );
    assert_eq!(
        refused(with_stores(vec![recursor(1, cap + 2, none)])),
        large("response_cache_size", cap + 2)
    );
    assert_eq!(
        refused(with_stores(vec![recursor(1, 1, over)])),
        large("validation_cache_size", cap + 1)
    );
    assert_eq!(
        refused(with_stores(vec![forward(None), forward(Some(u64::MAX))])),
        large("forward.cache_size", u64::MAX)
    );
}

#[test]
fn first_large_cache_is_named() {
    let mut config = with_stores(vec![forward(Some(1))]);
    config.zones.push(server_zone());
    config.zones.push(zone(vec![
        recursor(1, 1048576000000, DnssecPolicyConfig::SecurityUnaware),
        forward(Some(u64::MAX)),
    ]));
    let err = refused(config);
    assert_eq!(err, large("response_cache_size", 1048576000000));
    assert_eq!(
        err.message(),
        "response_cache_size = 1048576000000 exceeds the maximum of 16777216 entries; a value \
         this large is almost certainly a typo and would cause large up-front allocations"
    );
}

#[test]
fn cache_sizes_are_listed_in_order() {
    let config = with_stores(vec![
        ExternalStoreConfig::Blocklist,
        recursor(
            1,
            2,
            DnssecPolicyConfig::ValidateWithStaticKey { validation_cache_size: Some(3) },
        ),
        forward(Some(4)),
    ]);
    let sizes: Vec<(&str, u64)> =
        config.cache_sizes().iter().map(|size| (size.field, size.value)).collect();
    assert_eq!(
        sizes,
        vec![
            ("ns_cache_size", 1),
            ("response_cache_size", 2),
            ("validation_cache_size", 3),
            ("forward.cache_size", 4),
        ]
    );
}

#[test]
fn udp_socket_count_is_capped() {
    let with = |sockets: usize| Config {
        udp_socket: UdpSocketConfig { sockets: Some(sockets), ..UdpSocketConfig::default() },
        ..config()
    };
    assert!(Config::read_config(with(MAX_UDP_SOCKETS)).is_ok());
    assert!(Config::read_config(with(0)).is_ok());
    let err = refused(with(257));
    assert_eq!(err, ConfigError::UdpSocketCountTooLarge { value: 257, max: 256 });
    assert_eq!(
        err.message(),
        "`udp_socket.sockets` = 257 exceeds the maximum of 256; values above this can exhaust \
         file descriptors without improving UDP load distribution"
    );
}

#[test]
fn checks_come_in_order() {
    let all_wrong = || Config {
        directory: UnixPath::new(".."),
        zones: vec![zone(vec![forward(Some(u64::MAX))])],
        udp_socket: UdpSocketConfig { sockets: Some(1000), ..UdpSocketConfig::default() },
        ..config()
    };
    assert!(matches!(refused(all_wrong()), ConfigError::DirectoryTraversal { .. }));
    let next = || Config { directory: UnixPath::new("."), ..all_wrong() };
    assert_eq!(refused(next()), ConfigError::OpenRecursor);
    let next = || Config { listen_addrs_ipv4: vec![v4([127, 0, 0, 1])], ..next() };
    assert_eq!(refused(next()), large("forward.cache_size", u64::MAX));
    let next = || Config { zones: vec![zone(vec![forward(Some(1))])], ..next() };
    assert!(matches!(refused(next()), ConfigError::UdpSocketCountTooLarge { .. }));
}

#[test]
fn file_that_gives_nothing() {
    let config = Config::read_config(Config::default()).ok().unwrap();
    assert!(config.listen_addrs_ipv4.is_empty() && config.listen_addrs_ipv6.is_empty());
    assert_eq!(config.listen_port, 53);
    assert_eq!(config.tls_listen_port, 853);
    assert_eq!(config.https_listen_port, 443);
    assert_eq!(config.quic_listen_port, 853);
    assert_eq!(config.prometheus_listen_addr, None);
    assert!(!config.disable_tcp && !config.disable_udp && !config.disable_tls);
    assert!(!config.disable_https && !config.disable_quic && !config.disable_prometheus);
    assert_eq!(config.tcp_request_timeout.secs, 5);
    assert!(!config.ssl_keylog_enabled);
    assert_eq!(config.directory, UnixPath::new("/var/named"));
    assert!(config.user.is_none() && config.group.is_none());
    assert!(config.zones.is_empty() && config.tls_cert.is_none());
    assert_eq!(config.http_endpoint, "/dns-query");
    assert!(config.deny_networks.is_empty() && config.allow_networks.is_empty());
    assert_eq!(config.udp_socket, UdpSocketConfig::default());
    assert_eq!(config.tcp_socket, TcpSocketConfig::default());
}
