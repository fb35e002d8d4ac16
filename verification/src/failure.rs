//! What is reported of a start that fails after its configuration was accepted.
use vstd::prelude::*;
use vstd::string::*;

use crate::nsid::{fitting, is_payload, NSIDPayload, NsidError};
use crate::setup::{BindRequest, Transport};

verus! {

/// A step of the start that failed. Texts of the system, and what it shows of addresses and
/// paths, are given as texts.
#[derive(Debug, PartialEq, Eq)]
pub enum Failure {
    /// The Prometheus listener could not be bound.
    PrometheusBind { addr: String, err: String },
    /// The address of the Prometheus listener could not be had.
    PrometheusAddress { err: String },
    /// The signal handler could not be registered.
    SignalHandler { err: String },
    /// The name of the host could not be had.
    Hostname { err: String },
    /// The name of the host is no NSID payload.
    HostnamePayload(NsidError),
    /// The name of a zone could not be read.
    ZoneName { config_path: String, err: String },
    /// A zone could not be loaded.
    ZoneLoad { zone: String, err: String },
    /// The certificate could not be loaded.
    Certificate { path: String, err: String },
    /// A socket could not be bound.
    Bind { transport: Transport, addr: String, err: String },
    /// The address of a socket could not be had.
    LocalAddress { err: String },
    /// No TLS configuration could be made.
    TlsConfig { err: String },
    /// The server did not take a listener.
    Register { transport: Transport, err: String },
    /// The service manager could not be told that the server is ready.
    Notify { err: String },
}

/// `lead`, what it is about, and why.
pub open spec fn because(lead: Seq<char>, subject: Seq<char>, err: Seq<char>) -> Seq<char> {
    lead + subject + ": "@ + err
}

fn text_because(lead: &str, subject: &str, err: &str) -> (res: String)
    ensures
        res@ == because(lead@, subject@, err@),
{
    let mut res = lead.to_string();
    res.append(subject);
    res.append(": ");
    res.append(err);
    res
}

fn text_of(lead: &str, err: &str) -> (res: String)
    ensures
        res@ == lead@ + err@,
{
    let mut res = lead.to_string();
    res.append(err);
    res
}

impl Failure {
    /// The text of the failure.
    pub open spec fn text(self) -> Seq<char> {
        match self {
            Failure::PrometheusBind { addr, err } => because(
                "failed to bind to Prometheus TCP socket address "@,
                addr@,
                err@,
            ),
            Failure::PrometheusAddress { err } => "failed to look up local address: "@ + err@,
            Failure::SignalHandler { err } => "failed to register signal handler: "@ + err@,
            Failure::Hostname { err } => "failed to get system hostname: "@ + err@,
            Failure::HostnamePayload(err) => "invalid NSID payload: "@ + err.text(),
            Failure::ZoneName { config_path, err } => because(
                "failed to read zone name from "@,
                config_path@,
                err@,
            ),
            Failure::ZoneLoad { zone, err } => because("could not load zone "@, zone@, err@),
            Failure::Certificate { path, err } => because(
                "failed to load TLS certificate from "@,
                path@,
                err@,
            ),
            Failure::Bind { transport, addr, err } => because(
                "failed to bind to "@ + transport.label() + " socket address "@,
                addr@,
                err@,
            ),
            Failure::LocalAddress { err } => "failed to lookup local address: "@ + err@,
            Failure::TlsConfig { err } => "failed to build default TLS config: "@ + err@,
            Failure::Register { transport, err } => because(
                "failed to register "@,
                transport.label() + " listener"@,
                err@,
            ),
            Failure::Notify { err } => "sd_notify READY=1 failed: "@ + err@,
        }
    }

    /// The text of the failure.
    pub fn message(&self) -> (res: String)
        ensures
            res@ == self.text(),
    {
        match self {
            Failure::PrometheusBind { addr, err } => text_because(
                "failed to bind to Prometheus TCP socket address ",
                addr.as_str(),
                err.as_str(),
            ),
            Failure::PrometheusAddress { err } => text_of(
                "failed to look up local address: ",
                err.as_str(),
            ),
            Failure::SignalHandler { err } => text_of(
                "failed to register signal handler: ",
                err.as_str(),
            ),
            Failure::Hostname { err } => text_of("failed to get system hostname: ", err.as_str()),
            Failure::HostnamePayload(err) => text_of(
                "invalid NSID payload: ",
                err.message().as_str(),
            ),
            Failure::ZoneName { config_path, err } => text_because(
                "failed to read zone name from ",
                config_path.as_str(),
                err.as_str(),
            ),
            Failure::ZoneLoad { zone, err } => text_because(
                "could not load zone ",
                zone.as_str(),
                err.as_str(),
            ),
            Failure::Certificate { path, err } => text_because(
                "failed to load TLS certificate from ",
                path.as_str(),
                err.as_str(),
            ),
            Failure::Bind { transport, addr, err } => {
                let mut lead = text_of("failed to bind to ", transport.name());
                lead.append(" socket address ");
                text_because(lead.as_str(), addr.as_str(), err.as_str())
            },
            Failure::LocalAddress { err } => text_of(
                "failed to lookup local address: ",
                err.as_str(),
            ),
            Failure::TlsConfig { err } => text_of(
                "failed to build default TLS config: ",
                err.as_str(),
            ),
            Failure::Register { transport, err } => text_because(
                "failed to register ",
                text_of(transport.name(), " listener").as_str(),
                err.as_str(),
            ),
            Failure::Notify { err } => text_of("sd_notify READY=1 failed: ", err.as_str()),
        }
    }
}

impl BindRequest {
    /// The failure to bind the socket of this request. `addr` is what is shown of its address.
    pub fn unbound(&self, addr: String, err: String) -> (res: Failure)
        ensures
            res == (Failure::Bind { transport: self.transport, addr, err }),
    {
        Failure::Bind { transport: self.transport, addr, err }
    }

    /// The failure to register the socket of this request.
    pub fn unregistered(&self, err: String) -> (res: Failure)
        ensures
            res == (Failure::Register { transport: self.transport, err }),
    {
        Failure::Register { transport: self.transport, err }
    }
}

/// The NSID payload that is the name of the host.
pub fn hostname_payload(hostname: Vec<u8>) -> (res: Result<NSIDPayload, Failure>)
    ensures
        match res {
            Ok(payload) => is_payload(Ok(payload), fitting(hostname@)),
            Err(failure) => failure matches Failure::HostnamePayload(err) && is_payload(
                Err(err),
                fitting(hostname@),
            ),
        },
{
    match NSIDPayload::new(hostname) {
        Ok(payload) => Ok(payload),
        Err(err) => Err(Failure::HostnamePayload(err)),
    }
}

/// The name of the host becomes the payload as it is, where it has at most 65535 bytes, and is
/// refused otherwise.
pub proof fn hostname_is_the_payload(hostname: Vec<u8>, res: Result<NSIDPayload, Failure>)
    requires
        call_ensures(hostname_payload, (hostname,), res),
    ensures
        match res {
            Ok(payload) => hostname@.len() <= 65535 && payload@ == hostname@,
            Err(failure) => hostname@.len() > 65535 && failure == Failure::HostnamePayload(
                NsidError::TooLarge,
            ),
        },
{
}

/// A socket that cannot be bound or registered is reported with its own transport, with its
/// address where it is about that, and with the error.
pub proof fn failed_sockets_are_reported(
    request: &BindRequest,
    addr: String,
    err: String,
    unbound: Failure,
    unregistered: Failure,
)
    requires
        call_ensures(BindRequest::unbound, (request, addr, err), unbound),
        call_ensures(BindRequest::unregistered, (request, err), unregistered),
    ensures
        unbound.text() == "failed to bind to "@ + (match request.transport {
            Transport::Udp => "UDP"@,
            Transport::Tcp => "TCP"@,
            Transport::Tls => "TLS"@,
            Transport::Https => "HTTPS"@,
            Transport::Quic => "QUIC"@,
        }) + " socket address "@ + addr@ + ": "@ + err@,
        unregistered.text() == "failed to register "@ + ((match request.transport {
            Transport::Udp => "UDP"@,
            Transport::Tcp => "TCP"@,
            Transport::Tls => "TLS"@,
            Transport::Https => "HTTPS"@,
            Transport::Quic => "QUIC"@,
        }) + " listener"@) + ": "@ + err@,
{
}

/// Every failure names the error that it comes from, at its end.
pub proof fn failures_end_with_their_error(failure: &Failure, res: String)
    requires
        call_ensures(Failure::message, (failure,), res),
    ensures
        ({
            let err = match *failure {
                Failure::PrometheusBind { err, .. } => err@,
                Failure::PrometheusAddress { err } => err@,
                Failure::SignalHandler { err } => err@,
                Failure::Hostname { err } => err@,
                Failure::HostnamePayload(err) => err.text(),
                Failure::ZoneName { err, .. } => err@,
                Failure::ZoneLoad { err, .. } => err@,
                Failure::Certificate { err, .. } => err@,
                Failure::Bind { err, .. } => err@,
                Failure::LocalAddress { err } => err@,
                Failure::TlsConfig { err } => err@,
                Failure::Register { err, .. } => err@,
                Failure::Notify { err } => err@,
            };
            &&& res@.len() >= err.len()
            &&& res@.skip(res@.len() - err.len()) == err
        }),
{
    let err = match *failure {
        Failure::PrometheusBind { err, .. } => err@,
        Failure::PrometheusAddress { err } => err@,
        Failure::SignalHandler { err } => err@,
        Failure::Hostname { err } => err@,
        Failure::HostnamePayload(err) => err.text(),
        Failure::ZoneName { err, .. } => err@,
        Failure::ZoneLoad { err, .. } => err@,
        Failure::Certificate { err, .. } => err@,
        Failure::Bind { err, .. } => err@,
        Failure::LocalAddress { err } => err@,
        Failure::TlsConfig { err } => err@,
        Failure::Register { err, .. } => err@,
        Failure::Notify { err } => err@,
    };
    assert(res@.skip(res@.len() - err.len()) =~= err);
}

} // verus!
