//! The configuration of the server, and the checks that it passes before anything is bound.
use ipnet::IpNet;
use vstd::prelude::*;
use vstd::string::*;

use crate::addr::{Ipv4Addr, Ipv6Addr, SocketAddr};
use crate::path::{has_parent_dir, lossy_text, parent_dir_at, UnixPath};
use crate::text::{append_decimal, decimal};
use crate::tls::TlsCertConfig;
use crate::zone::{DnssecPolicyConfig, ExternalStoreConfig, ZoneConfig, ZoneTypeConfig};

verus! {

/// `ipnet::IpNet`, a network in CIDR notation. The configuration carries networks to the server
/// and does not look into them.
#[verifier::external_type_specification]
#[verifier::external_body]
pub struct ExIpNet(ipnet::IpNet);

/// How long a request may take.
#[derive(Clone, Copy, Debug, PartialEq, Eq, Structural)]
pub struct RequestTimeout {
    pub secs: u64,
}

/// Configuration options for UDP sockets.
#[derive(Clone, Copy, Debug, PartialEq, Eq, Structural)]
pub struct UdpSocketConfig {
    /// The size of the receive buffer in bytes; the system's own where there is none.
    pub recv_buffer_size: Option<usize>,
    /// The size of the send buffer in bytes; the system's own where there is none.
    pub send_buffer_size: Option<usize>,
    /// The number of sockets for each address, 1 where there is none.
    pub sockets: Option<usize>,
}

impl Default for UdpSocketConfig {
    /// What the system does by itself.
    fn default() -> (res: Self)
        ensures
            res.recv_buffer_size is None,
            res.send_buffer_size is None,
            res.sockets is None,
    {
        UdpSocketConfig { recv_buffer_size: None, send_buffer_size: None, sockets: None }
    }
}

/// Configuration options for TCP sockets.
#[derive(Clone, Copy, Debug, PartialEq, Eq, Structural)]
pub struct TcpSocketConfig {
    /// The number of connections that the system queues before it refuses more.
    pub listen_backlog: i32,
    /// The number of responses that are queued for one connection.
    pub response_buffer_size: usize,
}

/// The options of a TCP socket that gives none.
pub open spec fn tcp_socket_defaults() -> TcpSocketConfig {
    TcpSocketConfig { listen_backlog: 128, response_buffer_size: 32 }
}

impl Default for TcpSocketConfig {
    /// A backlog of 128, and 32 queued responses.
    fn default() -> (res: Self)
        ensures
            res == tcp_socket_defaults(),
    {
        TcpSocketConfig {
            listen_backlog: default_tcp_listen_backlog(),
            response_buffer_size: default_tcp_response_buffer_size(),
        }
    }
}

/// The backlog of a TCP socket that gives none.
pub fn default_tcp_listen_backlog() -> (res: i32)
    ensures
        res == tcp_socket_defaults().listen_backlog,
        res == 128,
{
    128
}

/// The number of queued responses of a TCP socket that gives none.
pub fn default_tcp_response_buffer_size() -> (res: usize)
    ensures
        res == tcp_socket_defaults().response_buffer_size,
        res == 32,
{
    32
}

/// The timeout that a number of seconds stands for.
pub fn parse_request_timeout(secs: u64) -> (res: RequestTimeout)
    ensures
        res.secs == secs,
{
    RequestTimeout { secs }
}

/// The timeout of a configuration that gives none: five seconds.
pub fn default_request_timeout() -> (res: RequestTimeout)
    ensures
        res.secs == 5,
{
    RequestTimeout { secs: 5 }
}

/// The HTTP endpoint of a configuration that gives none.
pub fn default_http_endpoint() -> (res: String)
    ensures
        res@ == "/dns-query"@,
{
    "/dns-query".to_string()
}

/// The directory of a configuration that gives none.
pub fn default_directory() -> (res: UnixPath)
    ensures
        res@ == vstd::utf8::encode_utf8("/var/named"@),
{
    UnixPath::new("/var/named")
}

/// The port of DNS.
pub fn default_port() -> (res: u16)
    ensures
        res == 53,
{
    53
}

/// The port of DNS over TLS and of DNS over QUIC.
pub fn default_tls_port() -> (res: u16)
    ensures
        res == 853,
{
    853
}

/// The port of DNS over HTTPS.
pub fn default_https_port() -> (res: u16)
    ensures
        res == 443,
{
    443
}

/// Server configuration.
pub struct Config {
    /// The IPv4 addresses to listen on.
    pub listen_addrs_ipv4: Vec<Ipv4Addr>,
    /// The IPv6 addresses to listen on.
    pub listen_addrs_ipv6: Vec<Ipv6Addr>,
    /// Port on which to listen (associated to all IPs).
    pub listen_port: u16,
    /// Secure port to listen on.
    pub tls_listen_port: u16,
    /// HTTPS port to listen on.
    pub https_listen_port: u16,
    /// QUIC port to listen on.
    pub quic_listen_port: u16,
    /// Prometheus listen address.
    pub prometheus_listen_addr: Option<SocketAddr>,
    /// Disable TCP protocol.
    pub disable_tcp: bool,
    /// Disable UDP protocol.
    pub disable_udp: bool,
    /// Disable TLS protocol.
    pub disable_tls: bool,
    /// Disable HTTPS protocol.
    pub disable_https: bool,
    /// Disable QUIC protocol.
    pub disable_quic: bool,
    /// Disable Prometheus metrics.
    pub disable_prometheus: bool,
    /// Timeout associated to a request before it is closed.
    pub tcp_request_timeout: RequestTimeout,
    /// Whether TLS session keys are logged where the environment asks for it.
    pub ssl_keylog_enabled: bool,
    /// Base configuration directory, i.e. root path for zones.
    pub directory: UnixPath,
    /// User to run the server as.
    pub user: Option<String>,
    /// Group to run the server as.
    pub group: Option<String>,
    /// The zones.
    pub zones: Vec<ZoneConfig>,
    /// Certificate of the TLS, HTTPS and QUIC listeners.
    pub tls_cert: Option<TlsCertConfig>,
    /// The HTTP endpoint where the DNS-over-HTTPS server provides service.
    pub http_endpoint: String,
    /// Networks denied access to the server.
    pub deny_networks: Vec<IpNet>,
    /// Networks allowed to access the server.
    pub allow_networks: Vec<IpNet>,
    /// UDP socket configuration options.
    pub udp_socket: UdpSocketConfig,
    /// TCP socket configuration options.
    pub tcp_socket: TcpSocketConfig,
}

impl Config {
    /// Whether this is the configuration of a file that gives nothing.
    pub open spec fn gives_nothing(self) -> bool {
        &&& self.listen_addrs_ipv4@.len() == 0
        &&& self.listen_addrs_ipv6@.len() == 0
        &&& self.listen_port == 53
        &&& self.tls_listen_port == 853
        &&& self.https_listen_port == 443
        &&& self.quic_listen_port == 853
        &&& self.prometheus_listen_addr is None
        &&& !self.disable_tcp
        &&& !self.disable_udp
        &&& !self.disable_tls
        &&& !self.disable_https
        &&& !self.disable_quic
        &&& !self.disable_prometheus
        &&& self.tcp_request_timeout.secs == 5
        &&& !self.ssl_keylog_enabled
        &&& self.directory@ == vstd::utf8::encode_utf8("/var/named"@)
        &&& self.user is None
        &&& self.group is None
        &&& self.zones@.len() == 0
        &&& self.tls_cert is None
        &&& self.http_endpoint@ == "/dns-query"@
        &&& self.deny_networks@.len() == 0
        &&& self.allow_networks@.len() == 0
        &&& self.udp_socket == (UdpSocketConfig {
            recv_buffer_size: None,
            send_buffer_size: None,
            sockets: None,
        })
        &&& self.tcp_socket == tcp_socket_defaults()
    }
}

impl Default for Config {
    /// What is taken for each field that a file does not give.
    fn default() -> (res: Self)
        ensures
            res.gives_nothing(),
    {
        Config {
            listen_addrs_ipv4: Vec::new(),
            listen_addrs_ipv6: Vec::new(),
            listen_port: default_port(),
            tls_listen_port: default_tls_port(),
            https_listen_port: default_https_port(),
            quic_listen_port: default_tls_port(),
            prometheus_listen_addr: None,
            disable_tcp: false,
            disable_udp: false,
            disable_tls: false,
            disable_https: false,
            disable_quic: false,
            disable_prometheus: false,
            tcp_request_timeout: default_request_timeout(),
            ssl_keylog_enabled: false,
            directory: default_directory(),
            user: None,
            group: None,
            zones: Vec::new(),
            tls_cert: None,
            http_endpoint: default_http_endpoint(),
            deny_networks: Vec::new(),
            allow_networks: Vec::new(),
            udp_socket: UdpSocketConfig::default(),
            tcp_socket: TcpSocketConfig::default(),
        }
    }
}

/// The largest number of entries that any single resolver cache may have.
pub const MAX_RESOLVER_CACHE_ENTRIES: u64 = 0x100_0000;

/// The largest number of UDP sockets for one address.
pub const MAX_UDP_SOCKETS: usize = 256;

/// Why a configuration was refused.
#[allow(inconsistent_fields)]
#[derive(Debug, PartialEq, Eq)]
pub enum ConfigError {
    /// A recursor or forwarder would be exposed to arbitrary clients.
    OpenRecursor,
    /// The size of a cache is larger than is plausibly intentional.
    CacheSizeTooLarge { field: &'static str, value: u64, max: u64 },
    /// A directory has `..` among its parts.
    DirectoryTraversal { field: &'static str, path: String },
    /// There would be too many UDP sockets.
    UdpSocketCountTooLarge { value: usize, max: usize },
}

impl ConfigError {
    /// The text of the error.
    pub open spec fn text(self) -> Seq<char> {
        match self {
            ConfigError::OpenRecursor =>
                "refusing to start: recursor or forwarder listens on non-loopback addresses with no `allow_networks` set — this would create an open public resolver. Set `allow_networks` to the prefixes you intend to serve, or bind only to loopback."@,
            ConfigError::CacheSizeTooLarge { field, value, max } => field@ + " = "@ + decimal(
                value as nat,
            ) + " exceeds the maximum of "@ + decimal(max as nat)
                + " entries; a value this large is almost certainly a typo and would cause large up-front allocations"@,
            ConfigError::DirectoryTraversal { field, path } => "`"@ + field@
                + "` must not contain `..` components: "@ + path@
                + "; use an absolute path if the zone directory is outside the working directory"@,
            ConfigError::UdpSocketCountTooLarge { value, max } => "`udp_socket.sockets` = "@
                + decimal(value as nat) + " exceeds the maximum of "@ + decimal(max as nat)
                + "; values above this can exhaust file descriptors without improving UDP load distribution"@,
        }
    }

    /// The text of the error.
    pub fn message(&self) -> (res: String)
        ensures
            res@ == self.text(),
    {
        match self {
            ConfigError::OpenRecursor =>
                "refusing to start: recursor or forwarder listens on non-loopback addresses with no `allow_networks` set — this would create an open public resolver. Set `allow_networks` to the prefixes you intend to serve, or bind only to loopback.".to_string(),
            ConfigError::CacheSizeTooLarge { field, value, max } => {
                let mut res = (*field).to_string();
                res.append(" = ");
                append_decimal(&mut res, *value);
                res.append(" exceeds the maximum of ");
                append_decimal(&mut res, *max);
                res.append(
                    " entries; a value this large is almost certainly a typo and would cause large up-front allocations",
                );
                res
            },
            ConfigError::DirectoryTraversal { field, path } => {
                let mut res = "`".to_string();
                res.append(*field);
                res.append("` must not contain `..` components: ");
                res.append(path.as_str());
                res.append(
                    "; use an absolute path if the zone directory is outside the working directory",
                );
                res
            },
            ConfigError::UdpSocketCountTooLarge { value, max } => {
                let mut res = "`udp_socket.sockets` = ".to_string();
                append_decimal(&mut res, *value as u64);
                res.append(" exceeds the maximum of ");
                append_decimal(&mut res, *max as u64);
                res.append(
                    "; values above this can exhaust file descriptors without improving UDP load distribution",
                );
                res
            },
        }
    }
}

/// Whether a store resolves names for its clients, by recursion or by forwarding.
pub open spec fn resolves(store: ExternalStoreConfig) -> bool {
    store is Recursor || store is Forward
}

/// Whether one of the stores of a zone resolves names for its clients.
pub open spec fn is_resolver_zone(zone: ZoneConfig) -> bool {
    zone.zone_type_config matches ZoneTypeConfig::External { stores } && exists|i: int|
        0 <= i < stores@.len() && resolves(#[trigger] stores@[i])
}

/// Whether the given store represents recursive or forwarding resolution.
pub fn is_resolver_store(store: &ExternalStoreConfig) -> (res: bool)
    ensures
        res == resolves(*store),
{
    match store {
        ExternalStoreConfig::Recursor(_) => true,
        ExternalStoreConfig::Forward(_) => true,
        ExternalStoreConfig::Blocklist => false,
        ExternalStoreConfig::Default => false,
    }
}

fn zone_resolves(zone: &ZoneConfig) -> (res: bool)
    ensures
        res == is_resolver_zone(*zone),
{
    let stores = match &zone.zone_type_config {
        ZoneTypeConfig::External { stores } => stores,
        _ => {
            return false;
        },
    };
    let mut j: usize = 0;
    while j < stores.len()
        invariant
            j <= stores@.len(),
            zone.zone_type_config matches ZoneTypeConfig::External { stores: all } && all@
                == stores@,
            forall|k: int| 0 <= k < j ==> !resolves(#[trigger] stores@[k]),
        decreases stores@.len() - j,
    {
        if is_resolver_store(&stores[j]) {
            assert(resolves(stores@[j as int]));
            return true;
        }
        j = j + 1;
    }
    false
}

/// The size of a cache, under the name of its field.
#[derive(Clone, Copy, Debug)]
pub struct CacheSize {
    pub field: &'static str,
    pub value: u64,
}

/// The caches of a store, in the order in which they are looked at.
pub open spec fn store_caches(store: ExternalStoreConfig) -> Seq<(Seq<char>, int)> {
    match store {
        ExternalStoreConfig::Recursor(config) => {
            let always = seq![
                ("ns_cache_size"@, config.ns_cache_size as int),
                ("response_cache_size"@, config.response_cache_size as int),
            ];
            match config.dnssec_policy {
                DnssecPolicyConfig::ValidateWithStaticKey {
                    validation_cache_size: Some(size),
                } => always.push(("validation_cache_size"@, size as int)),
                _ => always,
            }
        },
        ExternalStoreConfig::Forward(config) => match config.cache_size {
            Some(size) => seq![("forward.cache_size"@, size as int)],
            None => Seq::empty(),
        },
        ExternalStoreConfig::Blocklist => Seq::empty(),
        ExternalStoreConfig::Default => Seq::empty(),
    }
}

/// The caches of the given stores.
pub open spec fn stores_caches(stores: Seq<ExternalStoreConfig>) -> Seq<(Seq<char>, int)>
    decreases stores.len(),
{
    if stores.len() == 0 {
        Seq::empty()
    } else {
        stores_caches(stores.drop_last()) + store_caches(stores.last())
    }
}

/// The caches of a zone.
pub open spec fn zone_caches(zone: ZoneConfig) -> Seq<(Seq<char>, int)> {
    match zone.zone_type_config {
        ZoneTypeConfig::External { stores } => stores_caches(stores@),
        _ => Seq::empty(),
    }
}

/// The caches of all zones, in order.
pub open spec fn zones_caches(zones: Seq<ZoneConfig>) -> Seq<(Seq<char>, int)>
    decreases zones.len(),
{
    if zones.len() == 0 {
        Seq::empty()
    } else {
        zones_caches(zones.drop_last()) + zone_caches(zones.last())
    }
}

/// The caches that a list of sizes names.
pub open spec fn named_sizes(sizes: Seq<CacheSize>) -> Seq<(Seq<char>, int)> {
    sizes.map_values(|size: CacheSize| (size.field@, size.value as int))
}

proof fn named_sizes_push(sizes: Seq<CacheSize>, size: CacheSize)
    ensures
        named_sizes(sizes.push(size)) == named_sizes(sizes).push((size.field@, size.value as int)),
{
    assert(named_sizes(sizes.push(size)) =~= named_sizes(sizes).push(
        (size.field@, size.value as int),
    ));
}

/// Appends the caches of a store to `sizes`.
fn append_store_caches(sizes: &mut Vec<CacheSize>, store: &ExternalStoreConfig)
    ensures
        named_sizes(final(sizes)@) == named_sizes(old(sizes)@) + store_caches(*store),
{
    let ghost before = named_sizes(sizes@);
    match store {
        ExternalStoreConfig::Recursor(config) => {
            proof {
                named_sizes_push(
                    sizes@,
                    CacheSize { field: "ns_cache_size", value: config.ns_cache_size as u64 },
                );
            }
            sizes.push(CacheSize { field: "ns_cache_size", value: config.ns_cache_size as u64 });
            proof {
                named_sizes_push(
                    sizes@,
                    CacheSize {
                        field: "response_cache_size",
                        value: config.response_cache_size,
                    },
                );
            }
            sizes.push(
                CacheSize { field: "response_cache_size", value: config.response_cache_size },
            );
            if let DnssecPolicyConfig::ValidateWithStaticKey { validation_cache_size: Some(size) } =
                config.dnssec_policy {
                proof {
                    named_sizes_push(
                        sizes@,
                        CacheSize { field: "validation_cache_size", value: size as u64 },
                    );
                }
                sizes.push(CacheSize { field: "validation_cache_size", value: size as u64 });
            }
        },
        ExternalStoreConfig::Forward(config) => {
            if let Some(size) = config.cache_size {
                proof {
                    named_sizes_push(sizes@, CacheSize { field: "forward.cache_size", value: size });
                }
                sizes.push(CacheSize { field: "forward.cache_size", value: size });
            }
        },
        ExternalStoreConfig::Blocklist => {},
        ExternalStoreConfig::Default => {},
    }
    proof {
        assert(named_sizes(sizes@) =~= before + store_caches(*store));
    }
}

/// Whether one of the addresses can be reached from other hosts. With no address at all, the
/// server listens on every one.
pub open spec fn listens_publicly(v4: Seq<Ipv4Addr>, v6: Seq<Ipv6Addr>) -> bool {
    ||| v4.len() == 0 && v6.len() == 0
    ||| exists|i: int| 0 <= i < v4.len() && !(#[trigger] v4[i]).loopback()
    ||| exists|i: int| 0 <= i < v6.len() && !(#[trigger] v6[i]).loopback()
}

impl Config {
    /// Whether the server would resolve names for anyone.
    pub open spec fn is_open_recursor(self) -> bool {
        &&& self.allow_networks@.len() == 0
        &&& exists|i: int| 0 <= i < self.zones@.len() && is_resolver_zone(#[trigger] self.zones@[i])
        &&& listens_publicly(self.listen_addrs_ipv4@, self.listen_addrs_ipv6@)
    }

    /// The caches of the configuration, in order.
    pub open spec fn caches(self) -> Seq<(Seq<char>, int)> {
        zones_caches(self.zones@)
    }

    /// Whether no cache is too large.
    pub open spec fn caches_fit(self) -> bool {
        forall|i: int|
            0 <= i < self.caches().len() ==> (#[trigger] self.caches()[i]).1
                <= MAX_RESOLVER_CACHE_ENTRIES
    }

    /// Whether the cache at position `i` is the first that is too large.
    pub open spec fn first_large_cache(self, i: int) -> bool {
        &&& 0 <= i < self.caches().len()
        &&& self.caches()[i].1 > MAX_RESOLVER_CACHE_ENTRIES
        &&& forall|k: int|
            0 <= k < i ==> (#[trigger] self.caches()[k]).1 <= MAX_RESOLVER_CACHE_ENTRIES
    }

    /// Whether the number of UDP sockets is supported.
    pub open spec fn sockets_fit(self) -> bool {
        self.udp_socket.sockets matches Some(sockets) ==> sockets <= MAX_UDP_SOCKETS
    }

    /// Whether `err` says of the first cache that is too large how large it is.
    pub open spec fn is_cache_error(self, err: ConfigError) -> bool {
        err matches ConfigError::CacheSizeTooLarge { field, value, max } && max
            == MAX_RESOLVER_CACHE_ENTRIES && exists|i: int|
            #[trigger] self.first_large_cache(i) && self.caches()[i] == (field@, value as int)
    }

    /// Whether `err` says that the number of UDP sockets is not supported.
    pub open spec fn is_socket_error(self, err: ConfigError) -> bool {
        self.udp_socket.sockets matches Some(sockets) && err
            == (ConfigError::UdpSocketCountTooLarge { value: sockets, max: MAX_UDP_SOCKETS })
    }

    /// Whether the configuration passes every check.
    pub open spec fn accepted(self) -> bool {
        &&& !has_parent_dir(self.directory@)
        &&& !self.is_open_recursor()
        &&& self.caches_fit()
        &&& self.sockets_fit()
    }

    /// Whether `err` is the error that the first failing check decides.
    pub open spec fn refused_with(self, err: ConfigError) -> bool {
        if has_parent_dir(self.directory@) {
            is_traversal_error(err, self.directory@, "directory"@)
        } else if self.is_open_recursor() {
            err == ConfigError::OpenRecursor
        } else if !self.caches_fit() {
            self.is_cache_error(err)
        } else {
            !self.sockets_fit() && self.is_socket_error(err)
        }
    }

    /// Checks a configuration that was read. The checks come in a fixed order: the directory,
    /// the exposure of a resolver, the sizes of caches, the number of UDP sockets. The first that
    /// fails decides the error.
    pub fn read_config(parsed: Config) -> (res: Result<Config, ConfigError>)
        ensures
            match res {
                Ok(config) => config == parsed && parsed.accepted(),
                Err(err) => !parsed.accepted() && parsed.refused_with(err),
            },
    {
        match parsed.check_directory_traversal() {
            Ok(_) => {},
            Err(err) => {
                return Err(err);
            },
        }
        match parsed.check_open_recursor() {
            Ok(_) => {},
            Err(err) => {
                return Err(err);
            },
        }
        match parsed.check_cache_caps() {
            Ok(_) => {},
            Err(err) => {
                return Err(err);
            },
        }
        match parsed.check_udp_socket_caps() {
            Ok(_) => {},
            Err(err) => {
                return Err(err);
            },
        }
        Ok(parsed)
    }

    /// Rejects `..` in the `directory` field, which is the base for every other relative path.
    /// Absolute paths are allowed.
    pub fn check_directory_traversal(&self) -> (res: Result<(), ConfigError>)
        ensures
            match res {
                Ok(_) => !has_parent_dir(self.directory@),
                Err(err) => has_parent_dir(self.directory@) && is_traversal_error(
                    err,
                    self.directory@,
                    "directory"@,
                ),
            },
    {
        Self::check_directory_path(&self.directory, "directory")
    }

    /// Rejects a directory that has `..` among its parts.
    pub fn check_directory_path(path: &UnixPath, field: &'static str) -> (res: Result<
        (),
        ConfigError,
    >)
        ensures
            match res {
                Ok(_) => !has_parent_dir(path@),
                Err(err) => has_parent_dir(path@) && is_traversal_error(err, path@, field@),
            },
    {
        if path.has_parent_dir() {
            return Err(ConfigError::DirectoryTraversal { field, path: path.display() });
        }
        Ok(())
    }

    /// Rejects a number of UDP sockets that is not supported.
    pub fn check_udp_socket_caps(&self) -> (res: Result<(), ConfigError>)
        ensures
            match res {
                Ok(_) => self.sockets_fit(),
                Err(err) => !self.sockets_fit() && self.is_socket_error(err),
            },
    {
        if let Some(sockets) = self.udp_socket.sockets {
            if sockets > MAX_UDP_SOCKETS {
                return Err(
                    ConfigError::UdpSocketCountTooLarge { value: sockets, max: MAX_UDP_SOCKETS },
                );
            }
        }
        Ok(())
    }

    /// Rejects a configuration that would expose a recursive or forwarding resolver to everyone:
    /// a zone resolves names, no client network is listed, and an address that is listened on is
    /// not a loopback one.
    pub fn check_open_recursor(&self) -> (res: Result<(), ConfigError>)
        ensures
            match res {
                Ok(_) => !self.is_open_recursor(),
                Err(err) => self.is_open_recursor() && err == ConfigError::OpenRecursor,
            },
    {
        if !self.allow_networks.is_empty() {
            return Ok(());
        }
        if !self.has_resolver_zone() {
            return Ok(());
        }
        if self.listens_anywhere_non_loopback() {
            return Err(ConfigError::OpenRecursor);
        }
        Ok(())
    }

    fn has_resolver_zone(&self) -> (res: bool)
        ensures
            res == exists|i: int|
                0 <= i < self.zones@.len() && is_resolver_zone(#[trigger] self.zones@[i]),
    {
        let mut i: usize = 0;
        while i < self.zones.len()
            invariant
                i <= self.zones@.len(),
                forall|k: int| 0 <= k < i ==> !is_resolver_zone(#[trigger] self.zones@[k]),
            decreases self.zones@.len() - i,
        {
            if zone_resolves(&self.zones[i]) {
                return true;
            }
            i = i + 1;
        }
        false
    }

    fn listens_anywhere_non_loopback(&self) -> (res: bool)
        ensures
            res == listens_publicly(self.listen_addrs_ipv4@, self.listen_addrs_ipv6@),
    {
        let v4 = &self.listen_addrs_ipv4;
        let v6 = &self.listen_addrs_ipv6;
        if v4.is_empty() && v6.is_empty() {
            return true;
        }
        let mut i: usize = 0;
        while i < v4.len()
            invariant
                i <= v4@.len(),
                v4@ == self.listen_addrs_ipv4@,
                forall|k: int| 0 <= k < i ==> (#[trigger] v4@[k]).loopback(),
            decreases v4@.len() - i,
        {
            if !v4[i].is_loopback() {
                assert(!v4@[i as int].loopback());
                return true;
            }
            i = i + 1;
        }
        let mut j: usize = 0;
        while j < v6.len()
            invariant
                j <= v6@.len(),
                v6@ == self.listen_addrs_ipv6@,
                forall|k: int| 0 <= k < j ==> (#[trigger] v6@[k]).loopback(),
            decreases v6@.len() - j,
        {
            if !v6[j].is_loopback() {
                assert(!v6@[j as int].loopback());
                return true;
            }
            j = j + 1;
        }
        false
    }

    /// The sizes of all caches, in order.
    pub fn cache_sizes(&self) -> (res: Vec<CacheSize>)
        ensures
            named_sizes(res@) == self.caches(),
    {
        let mut sizes: Vec<CacheSize> = Vec::new();
        let mut i: usize = 0;
        proof {
            assert(named_sizes(sizes@) =~= Seq::empty());
        }
        while i < self.zones.len()
            invariant
                i <= self.zones@.len(),
                named_sizes(sizes@) == zones_caches(self.zones@.take(i as int)),
            decreases self.zones@.len() - i,
        {
            let ghost before = named_sizes(sizes@);
            if let ZoneTypeConfig::External { stores } = &self.zones[i].zone_type_config {
                let mut j: usize = 0;
                proof {
                    assert(before + stores_caches(stores@.take(0)) =~= before);
                }
                while j < stores.len()
                    invariant
                        j <= stores@.len(),
                        named_sizes(sizes@) == before + stores_caches(stores@.take(j as int)),
                    decreases stores@.len() - j,
                {
                    append_store_caches(&mut sizes, &stores[j]);
                    proof {
                        assert(stores@.take(j + 1).drop_last() =~= stores@.take(j as int));
                        assert(named_sizes(sizes@) =~= before + stores_caches(stores@.take(j + 1)));
                    }
                    j = j + 1;
                }
                proof {
                    assert(stores@.take(stores@.len() as int) =~= stores@);
                }
            }
            proof {
                assert(self.zones@.take(i + 1).drop_last() =~= self.zones@.take(i as int));
                assert(named_sizes(sizes@) =~= zones_caches(self.zones@.take(i + 1)));
            }
            i = i + 1;
        }
        proof {
            assert(self.zones@.take(self.zones@.len() as int) =~= self.zones@);
        }
        sizes
    }

    /// Rejects sizes of resolver caches that are obvious mistakes.
    pub fn check_cache_caps(&self) -> (res: Result<(), ConfigError>)
        ensures
            match res {
                Ok(_) => self.caches_fit(),
                Err(err) => !self.caches_fit() && self.is_cache_error(err),
            },
    {
        let sizes = self.cache_sizes();
        let mut i: usize = 0;
        while i < sizes.len()
            invariant
                i <= sizes@.len(),
                named_sizes(sizes@) == self.caches(),
                forall|k: int|
                    0 <= k < i ==> (#[trigger] self.caches()[k]).1 <= MAX_RESOLVER_CACHE_ENTRIES,
            decreases sizes@.len() - i,
        {
            let CacheSize { field, value } = sizes[i];
            assert(self.caches()[i as int] == (field@, value as int));
            if value > MAX_RESOLVER_CACHE_ENTRIES {
                assert(self.first_large_cache(i as int));
                return Err(
                    ConfigError::CacheSizeTooLarge {
                        field,
                        value,
                        max: MAX_RESOLVER_CACHE_ENTRIES,
                    },
                );
            }
            i = i + 1;
        }
        assert(self.caches().len() == sizes@.len());
        Ok(())
    }
}

/// Whether `err` says that `..` is a part of the path in the given field.
pub open spec fn is_traversal_error(err: ConfigError, path: Seq<u8>, field: Seq<char>) -> bool {
    err matches ConfigError::DirectoryTraversal { field: named, path: shown } && named@ == field
        && shown@ == lossy_text(path)
}

proof fn store_cache_is_listed(stores: Seq<ExternalStoreConfig>, j: int, k: int)
    requires
        0 <= j < stores.len(),
        0 <= k < store_caches(stores[j]).len(),
    ensures
        stores_caches(stores).contains(store_caches(stores[j])[k]),
    decreases stores.len(),
{
    let head = stores_caches(stores.drop_last());
    let tail = store_caches(stores.last());
    if j == stores.len() - 1 {
        assert((head + tail)[head.len() + k] == tail[k]);
    } else {
        store_cache_is_listed(stores.drop_last(), j, k);
        assert(stores.drop_last()[j] == stores[j]);
        let at = choose|at: int| 0 <= at < head.len() && head[at] == store_caches(stores[j])[k];
        assert((head + tail)[at] == head[at]);
    }
}

proof fn zone_cache_is_listed(zones: Seq<ZoneConfig>, i: int, k: int)
    requires
        0 <= i < zones.len(),
        0 <= k < zone_caches(zones[i]).len(),
    ensures
        zones_caches(zones).contains(zone_caches(zones[i])[k]),
    decreases zones.len(),
{
    let head = zones_caches(zones.drop_last());
    let tail = zone_caches(zones.last());
    if i == zones.len() - 1 {
        assert((head + tail)[head.len() + k] == tail[k]);
    } else {
        zone_cache_is_listed(zones.drop_last(), i, k);
        assert(zones.drop_last()[i] == zones[i]);
        let at = choose|at: int| 0 <= at < head.len() && head[at] == zone_caches(zones[i])[k];
        assert((head + tail)[at] == head[at]);
    }
}

/// In a configuration that is accepted no cache of any store of any zone is larger than the cap.
pub proof fn accepted_caches_are_capped(config: Config, i: int, j: int, k: int)
    requires
        config.accepted(),
        0 <= i < config.zones@.len(),
        config.zones@[i].zone_type_config is External,
        0 <= j < config.zones@[i].zone_type_config->stores@.len(),
        0 <= k < store_caches(config.zones@[i].zone_type_config->stores@[j]).len(),
    ensures
        store_caches(config.zones@[i].zone_type_config->stores@[j])[k].1
            <= MAX_RESOLVER_CACHE_ENTRIES,
{
    let stores = config.zones@[i].zone_type_config->stores@;
    let cache = store_caches(stores[j])[k];
    store_cache_is_listed(stores, j, k);
    let inner = stores_caches(stores);
    let at = choose|at: int| 0 <= at < inner.len() && inner[at] == cache;
    assert(zone_caches(config.zones@[i]) == inner);
    zone_cache_is_listed(config.zones@, i, at);
    let outer = config.caches();
    let place = choose|place: int| 0 <= place < outer.len() && outer[place] == cache;
    assert(config.caches()[place].1 <= MAX_RESOLVER_CACHE_ENTRIES);
}

/// The store `s` of the external zone `z`, if there is one.
pub open spec fn store_at(zones: Seq<ZoneConfig>, z: int, s: int) -> Option<ExternalStoreConfig> {
    if 0 <= z < zones.len() {
        match zones[z].zone_type_config {
            ZoneTypeConfig::External { stores } => if 0 <= s < stores@.len() {
                Some(stores@[s])
            } else {
                None
            },
            _ => None,
        }
    } else {
        None
    }
}

/// Whether a store is a recursor or a forwarder.
pub open spec fn recurses_or_forwards(store: Option<ExternalStoreConfig>) -> bool {
    match store {
        Some(ExternalStoreConfig::Recursor(_)) => true,
        Some(ExternalStoreConfig::Forward(_)) => true,
        _ => false,
    }
}

/// Whether no cache of a store has more than `most` entries.
pub open spec fn caches_within(store: Option<ExternalStoreConfig>, most: int) -> bool {
    match store {
        Some(ExternalStoreConfig::Recursor(config)) => {
            &&& config.ns_cache_size <= most
            &&& config.response_cache_size <= most
            &&& match config.dnssec_policy {
                DnssecPolicyConfig::ValidateWithStaticKey {
                    validation_cache_size: Some(size),
                } => size <= most,
                _ => true,
            }
        },
        Some(ExternalStoreConfig::Forward(config)) => match config.cache_size {
            Some(size) => size <= most,
            None => true,
        },
        _ => true,
    }
}

/// Whether other hosts could use a recursor or forwarder of the configuration at will: no client
/// network is listed, and an address that is listened on is neither in `127.0.0.0/8` nor `::1`, or
/// none is given.
pub open spec fn exposes_a_resolver(config: Config) -> bool {
    &&& config.allow_networks@.len() == 0
    &&& exists|z: int, s: int| recurses_or_forwards(#[trigger] store_at(config.zones@, z, s))
    &&& {
        ||| config.listen_addrs_ipv4@.len() == 0 && config.listen_addrs_ipv6@.len() == 0
        ||| exists|i: int|
            0 <= i < config.listen_addrs_ipv4@.len() && (
            #[trigger] config.listen_addrs_ipv4@[i]).bits as int / 0x100_0000 != 127
        ||| exists|i: int|
            0 <= i < config.listen_addrs_ipv6@.len() && (
            #[trigger] config.listen_addrs_ipv6@[i]).bits != 1
    }
}

proof fn open_recursor_is_exposed(config: Config)
    ensures
        config.is_open_recursor() <==> exposes_a_resolver(config),
{
    let zones = config.zones@;
    if exists|i: int| 0 <= i < zones.len() && is_resolver_zone(#[trigger] zones[i]) {
        let z = choose|i: int| 0 <= i < zones.len() && is_resolver_zone(#[trigger] zones[i]);
        let stores = zones[z].zone_type_config->stores@;
        let s = choose|i: int| 0 <= i < stores.len() && resolves(#[trigger] stores[i]);
        assert(recurses_or_forwards(store_at(zones, z, s)));
    }
    if exists|z: int, s: int| recurses_or_forwards(#[trigger] store_at(zones, z, s)) {
        let (z, s) = choose|z: int, s: int|
            recurses_or_forwards(#[trigger] store_at(zones, z, s));
        let stores = zones[z].zone_type_config->stores@;
        assert(resolves(stores[s]));
        assert(is_resolver_zone(zones[z]));
    }
    let v4 = config.listen_addrs_ipv4@;
    let v6 = config.listen_addrs_ipv6@;
    assert forall|i: int| 0 <= i < v4.len() implies ((#[trigger] v4[i]).loopback()
        <==> v4[i].bits as int / 0x100_0000 == 127) by {}
    assert forall|i: int| 0 <= i < v6.len() implies ((#[trigger] v6[i]).loopback() <==> v6[i].bits
        == 1) by {}
    if exists|i: int| 0 <= i < v4.len() && (#[trigger] v4[i]).bits as int / 0x100_0000 != 127 {
        let i = choose|i: int|
            0 <= i < v4.len() && (#[trigger] v4[i]).bits as int / 0x100_0000 != 127;
        assert(!v4[i].loopback());
    }
    if exists|i: int| 0 <= i < v4.len() && !(#[trigger] v4[i]).loopback() {
        let i = choose|i: int| 0 <= i < v4.len() && !(#[trigger] v4[i]).loopback();
        assert(v4[i].bits as int / 0x100_0000 != 127);
    }
    if exists|i: int| 0 <= i < v6.len() && (#[trigger] v6[i]).bits != 1 {
        let i = choose|i: int| 0 <= i < v6.len() && (#[trigger] v6[i]).bits != 1;
        assert(!v6[i].loopback());
    }
    if exists|i: int| 0 <= i < v6.len() && !(#[trigger] v6[i]).loopback() {
        let i = choose|i: int| 0 <= i < v6.len() && !(#[trigger] v6[i]).loopback();
        assert(v6[i].bits != 1);
    }
}

spec fn all_within(caches: Seq<(Seq<char>, int)>, most: int) -> bool {
    forall|i: int| 0 <= i < caches.len() ==> (#[trigger] caches[i]).1 <= most
}

proof fn all_within_both(a: Seq<(Seq<char>, int)>, b: Seq<(Seq<char>, int)>, most: int)
    ensures
        all_within(a + b, most) <==> all_within(a, most) && all_within(b, most),
{
    let both = a + b;
    if all_within(both, most) {
        assert forall|i: int| 0 <= i < a.len() implies (#[trigger] a[i]).1 <= most by {
            assert(both[i] == a[i]);
        }
        assert forall|i: int| 0 <= i < b.len() implies (#[trigger] b[i]).1 <= most by {
            assert(both[a.len() + i] == b[i]);
        }
    }
}

proof fn store_caches_within(store: ExternalStoreConfig, most: int)
    ensures
        all_within(store_caches(store), most) <==> caches_within(Some(store), most),
{
    let caches = store_caches(store);
    match store {
        ExternalStoreConfig::Recursor(config) => {
            assert(caches[0].1 == config.ns_cache_size);
            assert(caches[1].1 == config.response_cache_size);
            if let DnssecPolicyConfig::ValidateWithStaticKey { validation_cache_size: Some(size) } =
                config.dnssec_policy {
                assert(caches[2].1 == size);
            }
        },
        ExternalStoreConfig::Forward(config) => {
            if let Some(size) = config.cache_size {
                assert(caches[0].1 == size);
            }
        },
        _ => {},
    }
}

proof fn stores_caches_within(stores: Seq<ExternalStoreConfig>, most: int)
    ensures
        all_within(stores_caches(stores), most) <==> forall|s: int|
            0 <= s < stores.len() ==> caches_within(Some(#[trigger] stores[s]), most),
    decreases stores.len(),
{
    if stores.len() > 0 {
        let init = stores.drop_last();
        let last = stores.len() - 1;
        stores_caches_within(init, most);
        store_caches_within(stores[last], most);
        all_within_both(stores_caches(init), store_caches(stores[last]), most);
        if all_within(stores_caches(stores), most) {
            assert forall|s: int| 0 <= s < stores.len() implies caches_within(
                Some(#[trigger] stores[s]),
                most,
            ) by {
                if s < last {
                    assert(init[s] == stores[s]);
                }
            }
        }
        if forall|s: int| 0 <= s < stores.len() ==> caches_within(Some(#[trigger] stores[s]), most) {
            assert forall|s: int| 0 <= s < init.len() implies caches_within(
                Some(#[trigger] init[s]),
                most,
            ) by {
                assert(init[s] == stores[s]);
            }
            assert(caches_within(Some(stores[last]), most));
        }
    }
}

proof fn zone_caches_within(zones: Seq<ZoneConfig>, z: int, most: int)
    requires
        0 <= z < zones.len(),
    ensures
        all_within(zone_caches(zones[z]), most) <==> forall|s: int|
            caches_within(#[trigger] store_at(zones, z, s), most),
{
    if let ZoneTypeConfig::External { stores } = zones[z].zone_type_config {
        stores_caches_within(stores@, most);
        assert forall|s: int| 0 <= s < stores@.len() implies store_at(zones, z, s) == Some(
            #[trigger] stores@[s],
        ) by {}
        if forall|s: int| caches_within(#[trigger] store_at(zones, z, s), most) {
            assert forall|s: int| 0 <= s < stores@.len() implies caches_within(
                Some(#[trigger] stores@[s]),
                most,
            ) by {
                assert(caches_within(store_at(zones, z, s), most));
            }
        }
        if all_within(zone_caches(zones[z]), most) {
            assert forall|s: int| caches_within(#[trigger] store_at(zones, z, s), most) by {
                if 0 <= s < stores@.len() {
                    assert(caches_within(Some(stores@[s]), most));
                }
            }
        }
    }
}

proof fn zones_caches_within(zones: Seq<ZoneConfig>, most: int)
    ensures
        all_within(zones_caches(zones), most) <==> forall|z: int, s: int|
            caches_within(#[trigger] store_at(zones, z, s), most),
    decreases zones.len(),
{
    if zones.len() > 0 {
        let init = zones.drop_last();
        let last = zones.len() - 1;
        zones_caches_within(init, most);
        zone_caches_within(zones, last, most);
        all_within_both(zones_caches(init), zone_caches(zones[last]), most);
        assert forall|z: int, s: int| z != last implies #[trigger] store_at(zones, z, s) == store_at(
            init,
            z,
            s,
        ) by {
            if 0 <= z < last {
                assert(init[z] == zones[z]);
            }
        }
        if all_within(zones_caches(zones), most) {
            assert forall|z: int, s: int| caches_within(#[trigger] store_at(zones, z, s), most) by {
                if z != last {
                    assert(caches_within(store_at(init, z, s), most));
                }
            }
        }
        if forall|z: int, s: int| caches_within(#[trigger] store_at(zones, z, s), most) {
            assert forall|z: int, s: int| caches_within(#[trigger] store_at(init, z, s), most) by {
                if 0 <= z < last {
                    assert(caches_within(store_at(zones, z, s), most));
                }
            }
        }
    }
}

/// A configuration is accepted just where its directory has no two lone dots in it, where it
/// exposes no recursor or forwarder, where no cache of any store of any zone has more than 16777216
/// entries, and where it asks for at most 256 UDP sockets on an address. It is then taken as it is.
pub proof fn configurations_are_accepted_for_what_they_hold(
    parsed: Config,
    res: Result<Config, ConfigError>,
)
    requires
        call_ensures(Config::read_config, (parsed,), res),
    ensures
        res is Ok <==> is_fit_to_start(parsed),
        res matches Ok(config) ==> config == parsed,
{
    accepted_is_fit_to_start(parsed);
}

/// Whether a server may start with a configuration: its directory has no two lone dots in it, it
/// exposes no recursor or forwarder, no cache has more than 16777216 entries, and no address more
/// than 256 UDP sockets.
pub open spec fn is_fit_to_start(config: Config) -> bool {
    &&& !(exists|i: int| parent_dir_at(config.directory@, i))
    &&& !exposes_a_resolver(config)
    &&& forall|z: int, s: int| caches_within(#[trigger] store_at(config.zones@, z, s), 16777216)
    &&& match config.udp_socket.sockets {
        Some(sockets) => sockets <= 256,
        None => true,
    }
}

/// The checks accept just the configurations that a server may start with.
pub proof fn accepted_is_fit_to_start(parsed: Config)
    ensures
        parsed.accepted() <==> is_fit_to_start(parsed),
{
    crate::path::lone_dots(parsed.directory@);
    open_recursor_is_exposed(parsed);
    zones_caches_within(parsed.zones@, 16777216);
    assert(parsed.caches_fit() <==> all_within(parsed.caches(), 16777216));
}

/// What a refused configuration is told is what is wrong with it: first of its directory, then of
/// a recursor or forwarder that it exposes, then of its caches, then of its UDP sockets.
pub proof fn refusals_say_what_is_wrong(parsed: Config, res: Result<Config, ConfigError>)
    requires
        call_ensures(Config::read_config, (parsed,), res),
    ensures
        res matches Err(err) ==> if exists|i: int| parent_dir_at(parsed.directory@, i) {
            err matches ConfigError::DirectoryTraversal { field, path } && field@ == "directory"@
                && path@ == lossy_text(parsed.directory@)
        } else if exposes_a_resolver(parsed) {
            err is OpenRecursor
        } else if exists|z: int, s: int|
            !caches_within(#[trigger] store_at(parsed.zones@, z, s), 16777216) {
            err is CacheSizeTooLarge
        } else {
            err matches ConfigError::UdpSocketCountTooLarge { value, max }
                && parsed.udp_socket.sockets == Some(value) && value > 256 && max == 256
        },
{
    crate::path::lone_dots(parsed.directory@);
    open_recursor_is_exposed(parsed);
    zones_caches_within(parsed.zones@, 16777216);
    assert(parsed.caches_fit() <==> all_within(parsed.caches(), 16777216));
}

/// Whether a store has a cache of `value` entries under the name `field`, and those of its caches
/// that are looked at before have at most `most`.
pub open spec fn has_cache_after_others(
    store: Option<ExternalStoreConfig>,
    field: Seq<char>,
    value: int,
    most: int,
) -> bool {
    match store {
        Some(ExternalStoreConfig::Recursor(config)) => {
            ||| field == "ns_cache_size"@ && value == config.ns_cache_size
            ||| field == "response_cache_size"@ && value == config.response_cache_size
                && config.ns_cache_size <= most
            ||| field == "validation_cache_size"@ && config.ns_cache_size <= most
                && config.response_cache_size <= most && match config.dnssec_policy {
                DnssecPolicyConfig::ValidateWithStaticKey {
                    validation_cache_size: Some(size),
                } => value == size,
                _ => false,
            }
        },
        Some(ExternalStoreConfig::Forward(config)) => match config.cache_size {
            Some(size) => field == "forward.cache_size"@ && value == size,
            None => false,
        },
        _ => false,
    }
}

proof fn large_cache_of_store(store: ExternalStoreConfig, i: int, most: int)
    requires
        0 <= i < store_caches(store).len(),
        all_within(store_caches(store).take(i), most),
    ensures
        has_cache_after_others(
            Some(store),
            store_caches(store)[i].0,
            store_caches(store)[i].1,
            most,
        ),
{
    let before = store_caches(store).take(i);
    if i > 0 {
        assert(before[0].1 <= most);
    }
    if i > 1 {
        assert(before[1].1 <= most);
    }
}

proof fn large_cache_of_stores(stores: Seq<ExternalStoreConfig>, i: int, most: int) -> (s: int)
    requires
        0 <= i < stores_caches(stores).len(),
        all_within(stores_caches(stores).take(i), most),
    ensures
        0 <= s < stores.len(),
        has_cache_after_others(
            Some(stores[s]),
            stores_caches(stores)[i].0,
            stores_caches(stores)[i].1,
            most,
        ),
        forall|k: int| 0 <= k < s ==> caches_within(Some(#[trigger] stores[k]), most),
    decreases stores.len(),
{
    let init = stores.drop_last();
    let head = stores_caches(init);
    let tail = store_caches(stores.last());
    if i < head.len() {
        assert(stores_caches(stores).take(i) =~= head.take(i));
        let s = large_cache_of_stores(init, i, most);
        assert forall|k: int| 0 <= k < s implies caches_within(Some(#[trigger] stores[k]), most) by {
            assert(init[k] == stores[k]);
        }
        s
    } else {
        let at = i - head.len();
        assert(stores_caches(stores).take(i) =~= head + tail.take(at));
        all_within_both(head, tail.take(at), most);
        large_cache_of_store(stores.last(), at, most);
        stores_caches_within(init, most);
        assert forall|k: int| 0 <= k < stores.len() - 1 implies caches_within(
            Some(#[trigger] stores[k]),
            most,
        ) by {
            assert(init[k] == stores[k]);
        }
        stores.len() - 1
    }
}

proof fn large_cache_of_zones(zones: Seq<ZoneConfig>, i: int, most: int) -> (at: (int, int))
    requires
        0 <= i < zones_caches(zones).len(),
        all_within(zones_caches(zones).take(i), most),
    ensures
        has_cache_after_others(
            store_at(zones, at.0, at.1),
            zones_caches(zones)[i].0,
            zones_caches(zones)[i].1,
            most,
        ),
        forall|z: int, s: int|
            z < at.0 || z == at.0 && s < at.1 ==> caches_within(
                #[trigger] store_at(zones, z, s),
                most,
            ),
    decreases zones.len(),
{
    let init = zones.drop_last();
    let last = zones.len() - 1;
    let head = zones_caches(init);
    let tail = zone_caches(zones[last]);
    assert forall|z: int, s: int| z < last implies #[trigger] store_at(zones, z, s) == store_at(
        init,
        z,
        s,
    ) by {
        if 0 <= z < last {
            assert(init[z] == zones[z]);
        }
    }
    if i < head.len() {
        assert(zones_caches(zones).take(i) =~= head.take(i));
        let at = large_cache_of_zones(init, i, most);
        assert forall|z: int, s: int| z < at.0 || z == at.0 && s < at.1 implies caches_within(
            #[trigger] store_at(zones, z, s),
            most,
        ) by {
            assert(caches_within(store_at(init, z, s), most));
        }
        at
    } else {
        let k = i - head.len();
        assert(zones_caches(zones).take(i) =~= head + tail.take(k));
        all_within_both(head, tail.take(k), most);
        zones_caches_within(init, most);
        let stores = zones[last].zone_type_config->stores@;
        let s = large_cache_of_stores(stores, k, most);
        assert forall|z: int, t: int| z < last || z == last && t < s implies caches_within(
            #[trigger] store_at(zones, z, t),
            most,
        ) by {
            if z < last {
                assert(caches_within(store_at(init, z, t), most));
            } else if 0 <= t {
                assert(caches_within(Some(stores[t]), most));
            }
        }
        (last, s)
    }
}

/// A configuration with a cache that is too large is told of the first one: zone by zone, store by
/// store, and in a recursor that of name servers, of responses and of validations, in this order.
pub proof fn first_large_cache_is_told_of(config: &Config, res: Result<(), ConfigError>)
    requires
        call_ensures(Config::check_cache_caps, (config,), res),
    ensures
        res is Ok <==> forall|z: int, s: int|
            caches_within(#[trigger] store_at(config.zones@, z, s), 16777216),
        res matches Err(err) ==> {
            &&& err matches ConfigError::CacheSizeTooLarge { field, value, max }
            &&& max == 16777216
            &&& value > 16777216
            &&& exists|z: int, s: int|
                has_cache_after_others(
                    #[trigger] store_at(config.zones@, z, s),
                    field@,
                    value as int,
                    16777216,
                ) && first_large_store(config.zones@, z, s, 16777216)
        },
{
    zones_caches_within(config.zones@, 16777216);
    assert(config.caches_fit() <==> all_within(config.caches(), 16777216));
    if let Err(err) = res {
        let i = choose|i: int| #[trigger]
            config.first_large_cache(i) && config.caches()[i] == (
                err->CacheSizeTooLarge_field@,
                err->CacheSizeTooLarge_value as int,
            );
        let before = config.caches().take(i);
        assert forall|k: int| 0 <= k < before.len() implies (#[trigger] before[k]).1 <= 16777216 by {
            assert(config.caches()[k].1 <= MAX_RESOLVER_CACHE_ENTRIES);
        }
        let at = large_cache_of_zones(config.zones@, i, 16777216);
        assert(first_large_store(config.zones@, at.0, at.1, 16777216));
    }
}

/// Whether every store before the store `s` of the zone `z` has its caches within bounds.
pub open spec fn first_large_store(zones: Seq<ZoneConfig>, z: int, s: int, most: int) -> bool {
    forall|y: int, t: int|
        y < z || y == z && t < s ==> caches_within(#[trigger] store_at(zones, y, t), most)
}

/// Recursors and forwarders are the stores that resolve names for their clients.
pub proof fn recursors_and_forwarders_resolve(store: &ExternalStoreConfig, res: bool)
    requires
        call_ensures(is_resolver_store, (store,), res),
    ensures
        res <==> *store is Recursor || *store is Forward,
{
}

/// The text of an error says what it is about: the field, the path, and the numbers.
pub proof fn errors_say_what_they_are_about(err: &ConfigError, res: String)
    requires
        call_ensures(ConfigError::message, (err,), res),
    ensures
        res@ == match *err {
            ConfigError::OpenRecursor =>
                "refusing to start: recursor or forwarder listens on non-loopback addresses with no `allow_networks` set — this would create an open public resolver. Set `allow_networks` to the prefixes you intend to serve, or bind only to loopback."@,
            ConfigError::CacheSizeTooLarge { field, value, max } => field@ + " = "@ + decimal(
                value as nat,
            ) + " exceeds the maximum of "@ + decimal(max as nat)
                + " entries; a value this large is almost certainly a typo and would cause large up-front allocations"@,
            ConfigError::DirectoryTraversal { field, path } => "`"@ + field@
                + "` must not contain `..` components: "@ + path@
                + "; use an absolute path if the zone directory is outside the working directory"@,
            ConfigError::UdpSocketCountTooLarge { value, max } => "`udp_socket.sockets` = "@
                + decimal(value as nat) + " exceeds the maximum of "@ + decimal(max as nat)
                + "; values above this can exhaust file descriptors without improving UDP load distribution"@,
        },
{
}

/// A timeout is the number of seconds that is given for it.
pub proof fn timeouts_are_in_seconds(secs: u64, res: RequestTimeout)
    requires
        call_ensures(parse_request_timeout, (secs,), res),
    ensures
        res.secs == secs,
{
}

/// A file that gives nothing asks for every transport on every address and on its own port, with
/// nothing else set up: no zone, no certificate, no client network and no account.
pub proof fn nothing_given_is_nothing_set_up(config: Config)
    requires
        call_ensures(<Config as Default>::default, (), config),
    ensures
        config.listen_addrs_ipv4@.len() == 0 && config.listen_addrs_ipv6@.len() == 0,
        config.listen_port == 53,
        config.tls_listen_port == 853 && config.quic_listen_port == 853,
        config.https_listen_port == 443,
        config.prometheus_listen_addr is None,
        !config.disable_tcp && !config.disable_udp && !config.disable_tls && !config.disable_https
            && !config.disable_quic && !config.disable_prometheus,
        config.tcp_request_timeout.secs == 5,
        !config.ssl_keylog_enabled,
        config.directory@ == vstd::utf8::encode_utf8("/var/named"@),
        config.user is None && config.group is None,
        config.zones@.len() == 0,
        config.tls_cert is None,
        config.http_endpoint@ == "/dns-query"@,
        config.deny_networks@.len() == 0 && config.allow_networks@.len() == 0,
        config.udp_socket.recv_buffer_size is None && config.udp_socket.send_buffer_size is None
            && config.udp_socket.sockets is None,
        config.tcp_socket.listen_backlog == 128,
        config.tcp_socket.response_buffer_size == 32,
{
}

} // verus!
