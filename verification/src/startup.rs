//! The start of the server: what the command line and the configuration together ask for.
use ipnet::IpNet;
use vstd::prelude::*;
use vstd::string::*;

use crate::addr::{
    IpAddr, Ipv4Addr, Ipv6Addr, SocketAddr, IPV4_LOCALHOST, IPV4_UNSPECIFIED, IPV6_UNSPECIFIED,
};
use crate::config::{is_traversal_error, Config, ConfigError};
use crate::nsid::NSIDPayload;
use crate::path::{has_parent_dir, UnixPath};
use crate::privilege::{DEFAULT_GROUP, DEFAULT_USER};
use crate::setup::{Listeners, ServerSetup, Transport};
use crate::tls::TlsCertConfig;
use crate::zone::ZoneConfig;

verus! {

/// What is to be said where there is no certificate.
#[derive(Clone, Copy, Debug, PartialEq, Eq, Structural)]
pub enum MissingTlsCertVerdict {
    /// An encrypted transport is still enabled, and its listener will not start. The operator
    /// should see a warning.
    ListenerSilentlySkipped,
    /// Every encrypted transport is disabled, as the operator asked for.
    AllTlsDisabledByConfig,
}

/// The verdict on a missing certificate: a warning just where an encrypted transport is enabled.
pub open spec fn verdict(
    disable_tls: bool,
    disable_https: bool,
    disable_quic: bool,
) -> MissingTlsCertVerdict {
    if disable_tls && disable_https && disable_quic {
        MissingTlsCertVerdict::AllTlsDisabledByConfig
    } else {
        MissingTlsCertVerdict::ListenerSilentlySkipped
    }
}

/// Decides whether to warn about a missing certificate.
pub fn missing_tls_cert_verdict(disable_tls: bool, disable_https: bool, disable_quic: bool) -> (res:
    MissingTlsCertVerdict)
    ensures
        res == verdict(disable_tls, disable_https, disable_quic),
{
    let any_tls_enabled = !disable_tls || !disable_https || !disable_quic;
    if any_tls_enabled {
        MissingTlsCertVerdict::ListenerSilentlySkipped
    } else {
        MissingTlsCertVerdict::AllTlsDisabledByConfig
    }
}

/// Something that the operator is told.
#[derive(Clone, Copy, Debug, PartialEq, Eq, Structural)]
pub enum Notice {
    PrometheusDisabled,
    ConfigurationValidated,
    Disabled(Transport),
    MissingCertificate(MissingTlsCertVerdict),
}

impl Notice {
    /// The text of the notice.
    pub open spec fn text(self) -> Seq<char> {
        match self {
            Notice::PrometheusDisabled => "Prometheus metrics are disabled"@,
            Notice::ConfigurationValidated => "configuration files are validated"@,
            Notice::Disabled(transport) => transport.label() + " protocol is disabled"@,
            Notice::MissingCertificate(MissingTlsCertVerdict::ListenerSilentlySkipped) =>
                "TLS-family transports (DoT/DoH/DoQ) are compiled in and not all disabled, but no [tls_cert] is configured — those listeners will NOT start. Either set [tls_cert] or set disable_tls/disable_https/disable_quic = true to silence this warning."@,
            Notice::MissingCertificate(MissingTlsCertVerdict::AllTlsDisabledByConfig) =>
                "TLS related protocols (TLS, HTTPS and QUIC) are disabled"@,
        }
    }

    /// Whether the notice is a warning.
    pub fn is_warning(&self) -> (res: bool)
        ensures
            res == (*self == Notice::MissingCertificate(
                MissingTlsCertVerdict::ListenerSilentlySkipped,
            )),
    {
        match self {
            Notice::MissingCertificate(MissingTlsCertVerdict::ListenerSilentlySkipped) => true,
            _ => false,
        }
    }

    /// The text of the notice.
    pub fn message(&self) -> (res: String)
        ensures
            res@ == self.text(),
    {
        match self {
            Notice::PrometheusDisabled => "Prometheus metrics are disabled".to_string(),
            Notice::ConfigurationValidated => "configuration files are validated".to_string(),
            Notice::Disabled(transport) => {
                let mut res = transport.name().to_string();
                res.append(" protocol is disabled");
                res
            },
            Notice::MissingCertificate(MissingTlsCertVerdict::ListenerSilentlySkipped) =>
                "TLS-family transports (DoT/DoH/DoQ) are compiled in and not all disabled, but no [tls_cert] is configured — those listeners will NOT start. Either set [tls_cert] or set disable_tls/disable_https/disable_quic = true to silence this warning.".to_string(),
            Notice::MissingCertificate(MissingTlsCertVerdict::AllTlsDisabledByConfig) =>
                "TLS related protocols (TLS, HTTPS and QUIC) are disabled".to_string(),
        }
    }
}

/// One step of the start. The first that fails ends it.
#[derive(Clone, Copy, Debug, PartialEq, Eq, Structural)]
pub enum StartupStep {
    /// Tell the operator something.
    Announce(Notice),
    /// Serve Prometheus metrics on this address.
    ServePrometheus(SocketAddr),
    /// Stop when the system asks for it.
    WatchForTermination,
    /// Set the NSID payload of the command line, or none.
    SetNsid,
    /// Set the name of the host as NSID payload.
    SetNsidFromHostname,
    /// Load the zone at this position, in the mode of the start.
    LoadZone(usize),
    /// Make the server, with the networks that may and may not use it.
    CreateServer,
    /// Load the certificate.
    LoadCertificate,
    /// Bind the sockets of a transport.
    Listen { transport: Transport, port: u16 },
    /// Change to the user and group that the server runs as.
    DropPrivileges,
    /// Answer requests until told to stop.
    Serve,
}

/// The command line.
#[derive(Debug)]
pub struct DnsServer {
    /// Only look at the configuration files.
    pub validate: bool,
    /// Number of runtime workers, defaults to the number of CPU cores.
    pub workers: Option<usize>,
    /// Disable INFO messages, WARN and ERROR will remain.
    pub quiet: bool,
    /// Turn on `DEBUG` messages (default is only `INFO`).
    pub debug: bool,
    /// Path to the configuration file.
    pub config: UnixPath,
    /// Path to the root directory for all zone files.
    pub zonedir: Option<UnixPath>,
    /// Listening port for DNS queries, overrides any value in config file.
    pub port: Option<u16>,
    /// Listening port for DNS over TLS queries, overrides any value in config file.
    pub tls_port: Option<u16>,
    /// Listening port for DNS over HTTPS queries, overrides any value in config file.
    pub https_port: Option<u16>,
    /// Listening port for DNS over QUIC queries, overrides any value in config file.
    pub quic_port: Option<u16>,
    /// Listening socket for Prometheus metrics, overrides any value in config file.
    pub prometheus_listen_addr: Option<SocketAddr>,
    /// Disable TCP protocol, overrides any value in config file.
    pub disable_tcp: bool,
    /// Disable UDP protocol, overrides any value in config file.
    pub disable_udp: bool,
    /// Disable TLS protocol, overrides any value in config file.
    pub disable_tls: bool,
    /// Disable HTTPS protocol, overrides any value in config file.
    pub disable_https: bool,
    /// Disable QUIC protocol, overrides any value in config file.
    pub disable_quic: bool,
    /// Disable Prometheus metrics, overrides any value in config file.
    pub disable_prometheus: bool,
    /// Name server identifier payload for EDNS responses.
    pub nsid: Option<NSIDPayload>,
    /// Use the name of the host as name server identifier.
    pub nsid_hostname: bool,
}

/// A start that is decided on.
pub struct Startup {
    /// What is to be done, in order.
    pub steps: Vec<StartupStep>,
    /// Whether zones are loaded only to look at them.
    pub validate: bool,
    /// The directory from which paths are taken.
    pub zone_dir: UnixPath,
    /// The zones to load.
    pub zones: Vec<ZoneConfig>,
    /// The NSID payload of the command line.
    pub nsid: Option<NSIDPayload>,
    /// How the sockets are bound.
    pub setup: ServerSetup,
    /// The certificate to load.
    pub tls_cert: Option<TlsCertConfig>,
    /// The HTTP endpoint of DNS over HTTPS.
    pub http_endpoint: String,
    /// The user to run as.
    pub user: String,
    /// The group to run as.
    pub group: String,
    /// Networks denied access to the server.
    pub deny_networks: Vec<IpNet>,
    /// Networks allowed to access the server.
    pub allow_networks: Vec<IpNet>,
}

/// The value of the command line where it gives one, and that of the configuration otherwise.
pub open spec fn preferring<T>(from_cli: Option<T>, from_config: T) -> T {
    match from_cli {
        Some(value) => value,
        None => from_config,
    }
}

/// The addresses that the server listens on: those of the configuration, IPv4 first, or every
/// address of the host where there are none.
pub open spec fn bound_addrs(v4: Seq<Ipv4Addr>, v6: Seq<Ipv6Addr>) -> Seq<IpAddr> {
    if v4.len() == 0 && v6.len() == 0 {
        seq![IpAddr::V4(Ipv4Addr { bits: 0 }), IpAddr::V6(Ipv6Addr { bits: 0 })]
    } else {
        v4.map_values(|ip: Ipv4Addr| IpAddr::V4(ip)) + v6.map_values(|ip: Ipv6Addr| IpAddr::V6(ip))
    }
}

/// The address on which Prometheus metrics are served: `127.0.0.1:9000` where none is given.
pub open spec fn prometheus_addr(
    from_cli: Option<SocketAddr>,
    from_config: Option<SocketAddr>,
) -> SocketAddr {
    preferring(
        from_cli,
        preferring(
            from_config,
            SocketAddr { ip: IpAddr::V4(Ipv4Addr { bits: 0x7f00_0001 }), port: 9000 },
        ),
    )
}

/// A transport listens unless it is disabled.
pub open spec fn listen_step(disabled: bool, transport: Transport, port: u16) -> StartupStep {
    if disabled {
        StartupStep::Announce(Notice::Disabled(transport))
    } else {
        StartupStep::Listen { transport, port }
    }
}

/// `step` if it is asked for, and nothing otherwise.
pub open spec fn step_if(wanted: bool, step: StartupStep) -> Seq<StartupStep> {
    if wanted {
        seq![step]
    } else {
        Seq::empty()
    }
}

impl DnsServer {
    /// Whether a transport is disabled, by the command line or by the configuration.
    pub open spec fn disables(self, config: Config, transport: Transport) -> bool {
        match transport {
            Transport::Udp => self.disable_udp || config.disable_udp,
            Transport::Tcp => self.disable_tcp || config.disable_tcp,
            Transport::Tls => self.disable_tls || config.disable_tls,
            Transport::Https => self.disable_https || config.disable_https,
            Transport::Quic => self.disable_quic || config.disable_quic,
        }
    }

    /// The port of a transport.
    pub open spec fn port_of(self, config: Config, transport: Transport) -> u16 {
        match transport {
            Transport::Udp | Transport::Tcp => preferring(self.port, config.listen_port),
            Transport::Tls => preferring(self.tls_port, config.tls_listen_port),
            Transport::Https => preferring(self.https_port, config.https_listen_port),
            Transport::Quic => preferring(self.quic_port, config.quic_listen_port),
        }
    }

    /// What a transport does.
    pub open spec fn transport_step(self, config: Config, transport: Transport) -> StartupStep {
        listen_step(
            self.disables(config, transport),
            transport,
            self.port_of(config, transport),
        )
    }

    /// What comes before the zones.
    pub open spec fn opening_steps(self, config: Config) -> Seq<StartupStep> {
        seq![
            if self.disable_prometheus || config.disable_prometheus {
                StartupStep::Announce(Notice::PrometheusDisabled)
            } else {
                StartupStep::ServePrometheus(
                    prometheus_addr(self.prometheus_listen_addr, config.prometheus_listen_addr),
                )
            },
            StartupStep::WatchForTermination,
            StartupStep::SetNsid,
        ] + step_if(self.nsid_hostname, StartupStep::SetNsidFromHostname)
    }

    /// The transports, one after the other. Where there is no certificate the operator is told
    /// before the encrypted ones.
    pub open spec fn listening_steps(self, config: Config) -> Seq<StartupStep> {
        seq![StartupStep::CreateServer] + step_if(
            config.tls_cert is Some,
            StartupStep::LoadCertificate,
        ) + seq![
            self.transport_step(config, Transport::Udp),
            self.transport_step(config, Transport::Tcp),
        ] + step_if(
            config.tls_cert is None,
            StartupStep::Announce(
                Notice::MissingCertificate(
                    verdict(
                        self.disables(config, Transport::Tls),
                        self.disables(config, Transport::Https),
                        self.disables(config, Transport::Quic),
                    ),
                ),
            ),
        ) + seq![
            self.transport_step(config, Transport::Tls),
            self.transport_step(config, Transport::Https),
            self.transport_step(config, Transport::Quic),
        ]
    }

    /// What comes after the zones.
    pub open spec fn closing_steps(self, config: Config) -> Seq<StartupStep> {
        if self.validate {
            seq![StartupStep::Announce(Notice::ConfigurationValidated)]
        } else {
            self.listening_steps(config) + seq![StartupStep::DropPrivileges, StartupStep::Serve]
        }
    }

    /// The whole start, in order.
    pub open spec fn steps(self, config: Config) -> Seq<StartupStep> {
        self.opening_steps(config) + zone_steps(config.zones@.len()) + self.closing_steps(config)
    }

    /// Whether the directory of the command line is refused.
    pub open spec fn zonedir_refused(self) -> bool {
        self.zonedir matches Some(dir) && has_parent_dir(dir@)
    }
}

/// The zones are loaded in order.
pub open spec fn zone_steps(zones: nat) -> Seq<StartupStep> {
    Seq::new(zones, |i: int| StartupStep::LoadZone(i as usize))
}

impl Startup {
    /// Whether this is the start that the command line and the configuration ask for.
    pub open spec fn follows(self, cli: DnsServer, config: Config) -> bool {
        &&& self.steps@ == cli.steps(config)
        &&& self.validate == cli.validate
        &&& self.zone_dir == preferring(cli.zonedir, config.directory)
        &&& self.zones == config.zones
        &&& self.nsid == cli.nsid
        &&& self.setup.listen_addrs@ == bound_addrs(
            config.listen_addrs_ipv4@,
            config.listen_addrs_ipv6@,
        )
        &&& self.setup.tcp_request_timeout == config.tcp_request_timeout
        &&& self.setup.has_certificate == (config.tls_cert is Some)
        &&& self.setup.ssl_keylog_enabled == config.ssl_keylog_enabled
        &&& self.setup.udp_socket_config == config.udp_socket
        &&& self.setup.tcp_socket_config == config.tcp_socket
        &&& self.tls_cert == config.tls_cert
        &&& self.http_endpoint == config.http_endpoint
        &&& self.user@ == match config.user {
            Some(user) => user@,
            None => "nobody"@,
        }
        &&& self.group@ == match config.group {
            Some(group) => group@,
            None => "nobody"@,
        }
        &&& self.deny_networks == config.deny_networks
        &&& self.allow_networks == config.allow_networks
    }

    /// The name under which the server is reached over HTTPS: that of the certificate.
    pub open spec fn hostname(self) -> Option<Seq<char>> {
        endpoint_name(self.tls_cert)
    }

    /// The sockets of a transport. HTTPS answers at the endpoint of the configuration, under the
    /// name of the certificate.
    pub fn listen(&self, transport: Transport, port: u16) -> (res: Listeners<'_>)
        ensures
            res.requests@ == self.setup.sockets(transport, port),
            self.setup.registers_with(
                res.registration,
                transport,
                self.http_endpoint@,
                self.hostname(),
            ),
    {
        let dns_hostname = match &self.tls_cert {
            Some(config) => match &config.endpoint_name {
                Some(name) => Some(name.as_str()),
                None => None,
            },
            None => None,
        };
        self.setup.listen(transport, port, self.http_endpoint.as_str(), dns_hostname)
    }
}

/// The name that a certificate is for, if there is one and it is given.
pub open spec fn endpoint_name(tls_cert: Option<TlsCertConfig>) -> Option<Seq<char>> {
    match tls_cert {
        Some(config) => match config.endpoint_name {
            Some(name) => Some(name@),
            None => None,
        },
        None => None,
    }
}

/// What is said of a configuration file that cannot be used.
pub open spec fn unread_config_text(config_path: Seq<char>, why: Seq<char>) -> Seq<char> {
    "failed to read config file from "@ + config_path + ": "@ + why
}

fn unread_config(config_path: &str, why: &str) -> (res: String)
    ensures
        res@ == unread_config_text(config_path@, why@),
{
    let mut text = "failed to read config file from ".to_string();
    text.append(config_path);
    text.append(": ");
    text.append(why);
    text
}

fn listen_addrs(v4: &Vec<Ipv4Addr>, v6: &Vec<Ipv6Addr>) -> (res: Vec<IpAddr>)
    ensures
        res@ == bound_addrs(v4@, v6@),
{
    let mut res: Vec<IpAddr> = Vec::new();
    let mut i: usize = 0;
    while i < v4.len()
        invariant
            i <= v4@.len(),
            res@ == v4@.take(i as int).map_values(|ip: Ipv4Addr| IpAddr::V4(ip)),
        decreases v4@.len() - i,
    {
        res.push(IpAddr::V4(v4[i]));
        i = i + 1;
        proof {
            assert(res@ =~= v4@.take(i as int).map_values(|ip: Ipv4Addr| IpAddr::V4(ip)));
        }
    }
    let ghost first = res@;
    let mut j: usize = 0;
    proof {
        assert(v4@.take(v4@.len() as int) =~= v4@);
        assert(first =~= first + v6@.take(0).map_values(|ip: Ipv6Addr| IpAddr::V6(ip)));
    }
    while j < v6.len()
        invariant
            j <= v6@.len(),
            res@ == first + v6@.take(j as int).map_values(|ip: Ipv6Addr| IpAddr::V6(ip)),
        decreases v6@.len() - j,
    {
        res.push(IpAddr::V6(v6[j]));
        j = j + 1;
        proof {
            assert(res@ =~= first + v6@.take(j as int).map_values(|ip: Ipv6Addr| IpAddr::V6(ip)));
        }
    }
    proof {
        assert(v6@.take(v6@.len() as int) =~= v6@);
    }
    if res.is_empty() {
        res.push(IpAddr::V4(Ipv4Addr { bits: IPV4_UNSPECIFIED }));
        res.push(IpAddr::V6(Ipv6Addr { bits: IPV6_UNSPECIFIED }));
    }
    proof {
        assert(res@ =~= bound_addrs(v4@, v6@));
    }
    res
}

fn transport_start(disabled: bool, transport: Transport, port: u16) -> (res: StartupStep)
    ensures
        res == listen_step(disabled, transport, port),
{
    if disabled {
        StartupStep::Announce(Notice::Disabled(transport))
    } else {
        StartupStep::Listen { transport, port }
    }
}

fn push_if(steps: &mut Vec<StartupStep>, wanted: bool, step: StartupStep)
    ensures
        final(steps)@ == old(steps)@ + step_if(wanted, step),
{
    if wanted {
        steps.push(step);
    }
    proof {
        assert(steps@ =~= old(steps)@ + step_if(wanted, step));
    }
}

impl DnsServer {
    fn append_opening(&self, config: &Config, steps: &mut Vec<StartupStep>)
        ensures
            final(steps)@ == old(steps)@ + self.opening_steps(*config),
    {
        let disable_prometheus = self.disable_prometheus || config.disable_prometheus;
        if disable_prometheus {
            steps.push(StartupStep::Announce(Notice::PrometheusDisabled));
        } else {
            let addr = match self.prometheus_listen_addr {
                Some(addr) => addr,
                None => match config.prometheus_listen_addr {
                    Some(addr) => addr,
                    None => SocketAddr {
                        ip: IpAddr::V4(Ipv4Addr { bits: IPV4_LOCALHOST }),
                        port: 9000,
                    },
                },
            };
            steps.push(StartupStep::ServePrometheus(addr));
        }
        steps.push(StartupStep::WatchForTermination);
        steps.push(StartupStep::SetNsid);
        if self.nsid_hostname {
            steps.push(StartupStep::SetNsidFromHostname);
        }
        proof {
            assert(steps@ =~= old(steps)@ + self.opening_steps(*config));
        }
    }

    fn append_zones(zones: usize, steps: &mut Vec<StartupStep>)
        ensures
            final(steps)@ == old(steps)@ + zone_steps(zones as nat),
    {
        let mut i: usize = 0;
        proof {
            assert(steps@ =~= old(steps)@ + zone_steps(0));
        }
        while i < zones
            invariant
                i <= zones,
                steps@ == old(steps)@ + zone_steps(i as nat),
            decreases zones - i,
        {
            steps.push(StartupStep::LoadZone(i));
            i = i + 1;
            proof {
                assert(steps@ =~= old(steps)@ + zone_steps(i as nat));
            }
        }
    }

    #[verifier::rlimit(40)]
    fn append_listening(&self, config: &Config, steps: &mut Vec<StartupStep>)
        ensures
            final(steps)@ == old(steps)@ + self.listening_steps(*config),
    {
        let disable_udp = self.disable_udp || config.disable_udp;
        let disable_tcp = self.disable_tcp || config.disable_tcp;
        let disable_tls = self.disable_tls || config.disable_tls;
        let disable_https = self.disable_https || config.disable_https;
        let disable_quic = self.disable_quic || config.disable_quic;
        let listen_port: u16 = self.port.unwrap_or(config.listen_port);
        let tls_port: u16 = self.tls_port.unwrap_or(config.tls_listen_port);
        let https_port: u16 = self.https_port.unwrap_or(config.https_listen_port);
        let quic_port: u16 = self.quic_port.unwrap_or(config.quic_listen_port);

        let udp = transport_start(disable_udp, Transport::Udp, listen_port);
        let tcp = transport_start(disable_tcp, Transport::Tcp, listen_port);
        let tls = transport_start(disable_tls, Transport::Tls, tls_port);
        let https = transport_start(disable_https, Transport::Https, https_port);
        let quic = transport_start(disable_quic, Transport::Quic, quic_port);
        let missing = StartupStep::Announce(
            Notice::MissingCertificate(
                missing_tls_cert_verdict(disable_tls, disable_https, disable_quic),
            ),
        );
        assert(self.listening_steps(*config) == seq![StartupStep::CreateServer] + step_if(
            config.tls_cert is Some,
            StartupStep::LoadCertificate,
        ) + seq![udp, tcp] + step_if(config.tls_cert is None, missing) + seq![tls, https, quic]);

        steps.push(StartupStep::CreateServer);
        push_if(steps, config.tls_cert.is_some(), StartupStep::LoadCertificate);
        steps.push(udp);
        steps.push(tcp);
        push_if(steps, config.tls_cert.is_none(), missing);
        steps.push(tls);
        steps.push(https);
        steps.push(quic);
        proof {
            let loaded = step_if(config.tls_cert is Some, StartupStep::LoadCertificate);
            let told = step_if(config.tls_cert is None, missing);
            assert(steps@ =~= old(steps)@ + (seq![StartupStep::CreateServer] + loaded + seq![
                udp,
                tcp,
            ] + told + seq![tls, https, quic]));
        }
    }

    /// The steps of the start.
    pub fn plan(&self, config: &Config) -> (res: Vec<StartupStep>)
        ensures
            res@ == self.steps(*config),
    {
        let mut steps: Vec<StartupStep> = Vec::new();
        self.append_opening(config, &mut steps);
        Self::append_zones(config.zones.len(), &mut steps);
        if self.validate {
            steps.push(StartupStep::Announce(Notice::ConfigurationValidated));
        } else {
            self.append_listening(config, &mut steps);
            steps.push(StartupStep::DropPrivileges);
            steps.push(StartupStep::Serve);
        }
        proof {
            assert(steps@ =~= self.steps(*config));
        }
        steps
    }

    /// Decides on the start, from the configuration that was read or from why it was not.
    /// `config_path` is what is shown of the path of the configuration file.
    pub fn run(self, config_path: &str, parsed: Result<Config, String>) -> (res: Result<
        Startup,
        String,
    >)
        ensures
            match parsed {
                Err(why) => res matches Err(text) && text@ == unread_config_text(
                    config_path@,
                    why@,
                ),
                Ok(config) => match res {
                    Ok(startup) => {
                        &&& config.accepted()
                        &&& !self.zonedir_refused()
                        &&& startup.follows(self, config)
                    },
                    Err(text) => if !config.accepted() {
                        exists|err: ConfigError|
                            #[trigger] config.refused_with(err) && text@ == unread_config_text(
                                config_path@,
                                err.text(),
                            )
                    } else {
                        &&& self.zonedir_refused()
                        &&& exists|err: ConfigError|
                            #[trigger] is_traversal_error(err, self.zonedir->0@, "zonedir"@)
                                && text@ == "invalid zonedir override: "@ + err.text()
                    },
                },
            },
    {
        let parsed = match parsed {
            Ok(parsed) => parsed,
            Err(why) => {
                return Err(unread_config(config_path, why.as_str()));
            },
        };
        let config = match Config::read_config(parsed) {
            Ok(config) => config,
            Err(err) => {
                assert(parsed.refused_with(err));
                return Err(unread_config(config_path, err.message().as_str()));
            },
        };
        if let Some(zonedir) = &self.zonedir {
            match Config::check_directory_path(zonedir, "zonedir") {
                Ok(_) => {},
                Err(err) => {
                    let mut text = "invalid zonedir override: ".to_string();
                    text.append(err.message().as_str());
                    assert(is_traversal_error(err, self.zonedir->0@, "zonedir"@));
                    return Err(text);
                },
            }
        }
        let steps = self.plan(&config);
        let setup = ServerSetup {
            listen_addrs: listen_addrs(&config.listen_addrs_ipv4, &config.listen_addrs_ipv6),
            tcp_request_timeout: config.tcp_request_timeout,
            has_certificate: config.tls_cert.is_some(),
            ssl_keylog_enabled: config.ssl_keylog_enabled,
            udp_socket_config: config.udp_socket,
            tcp_socket_config: config.tcp_socket,
        };
        let zone_dir = match self.zonedir {
            Some(zonedir) => zonedir,
            None => config.directory,
        };
        let user = match config.user {
            Some(user) => user,
            None => DEFAULT_USER.to_string(),
        };
        let group = match config.group {
            Some(group) => group,
            None => DEFAULT_GROUP.to_string(),
        };
        Ok(
            Startup {
                steps,
                validate: self.validate,
                zone_dir,
                zones: config.zones,
                nsid: self.nsid,
                setup,
                tls_cert: config.tls_cert,
                http_endpoint: config.http_endpoint,
                user,
                group,
                deny_networks: config.deny_networks,
                allow_networks: config.allow_networks,
            },
        )
    }
}

} // verus!
