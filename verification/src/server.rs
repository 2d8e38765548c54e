use vstd::prelude::*;

pub mod data;
pub mod event;

verus! {

use vstd::string::StringExecFns;

use crate::backend;
use crate::error::AppError;
use crate::settings::ServerSettings;
use crate::ui;
use crate::util;
use crate::util::ThreadChannel;

/// The server worker's connection status; each failure carries a
/// description of what went wrong.
#[derive(PartialEq, Eq, Debug)]
pub enum ServerStatus {
    /// All good.
    Good,
    /// Unable to obtain an internal port.
    InternalPortError(String),
    /// Unable to obtain an external port.
    ExternalPortError(String),
    /// Unable to get the local IP.
    LocalIpError(String),
    /// Unable to get the external IP.
    PublicIpError(String),
    /// Unable to bind the listener.
    TcpBindError(String),
}

impl ServerStatus {
    /// A short human-readable description of the status.
    pub fn message(&self) -> (r: &'static str)
        ensures
            self is Good ==> r@ == "All good"@,
            self is InternalPortError ==> r@ == "Unable to obtain internal port"@,
            self is ExternalPortError ==> r@ == "Unable to obtain external port"@,
            self is LocalIpError ==> r@ == "Unable to get local IP"@,
            self is PublicIpError ==> r@ == "Unable to get external IP"@,
            self is TcpBindError ==> r@ == "Unable to create TCPListener"@,
    {
        match self {
            ServerStatus::Good => "All good",
            ServerStatus::InternalPortError(_) => "Unable to obtain internal port",
            ServerStatus::ExternalPortError(_) => "Unable to obtain external port",
            ServerStatus::LocalIpError(_) => "Unable to get local IP",
            ServerStatus::PublicIpError(_) => "Unable to get external IP",
            ServerStatus::TcpBindError(_) => "Unable to create TCPListener",
        }
    }
}

/// An IP address in plain values: the four octets of a version-4 address or
/// the eight segments of a version-6 address.
#[derive(Clone, Copy, PartialEq, Eq, Structural, Debug)]
pub enum IpAddress {
    V4(u8, u8, u8, u8),
    V6(u16, u16, u16, u16, u16, u16, u16, u16),
}

pub trait Data {

}

pub trait Event {

}

/// What the server worker exchanges with a peer worker: payload data or an
/// event.
#[derive(Debug)]
pub enum Message<D: Data, E: Event> {
    Data(D),
    Event(E),
}

/// What the outside network calls reported during one connection refresh, in
/// the order the refresh consults them. Entries past the first failure are
/// never consulted.
#[derive(Debug)]
pub struct RefreshProbe {
    /// Whether a listener could be bound.
    pub bind: Result<(), String>,
    /// The local address, or why it could not be discovered.
    pub local_ip: Result<IpAddress, String>,
    /// The public address, or why it could not be discovered.
    pub public_ip: Result<IpAddress, String>,
    /// The freshly bound listener's local port.
    pub internal_port: Result<u16, String>,
    /// The external port granted by the gateway's port mapping.
    pub mapping: Result<u16, String>,
}

/// One port-mapping request, ready for the gateway: the local version-4
/// address and port to map, and the lease to ask for.
#[derive(Debug)]
pub struct MappingRequest {
    pub local_ip: (u8, u8, u8, u8),
    pub internal_port: u16,
    pub lease_seconds: u32,
}

/// The server worker's own state: connection knowledge, status, pacing, and
/// its channels. The listener and peer sockets themselves live outside the
/// core and are driven by it.
pub struct Server {
    pub local_ip: Option<IpAddress>,
    pub public_ip: Option<IpAddress>,
    pub internal_port: Option<u16>,
    pub external_port: Option<u16>,
    pub upnp_lease_seconds: u64,
    pub status: ServerStatus,
    pub application: ThreadChannel<
        backend::Message<backend::data::Server, backend::event::Server>,
        Message<data::Backend, event::Backend>,
    >,
    pub ui: ThreadChannel<ui::Message<ui::data::Server, ui::event::Server>, Message<
        data::Ui,
        event::Ui,
    >>,
    pub secret_key: String,
    pub clock: std::time::Instant,
    pub upnp_lease_clock: std::time::Instant,
    pub frame_count: u128,
    pub settings: ServerSettings,
}

impl Server {
    /// A fresh server worker: no connection knowledge, a clean status, and
    /// the default lease and pacing.
    pub fn new(
        application: ThreadChannel<
            backend::Message<backend::data::Server, backend::event::Server>,
            Message<data::Backend, event::Backend>,
        >,
        ui: ThreadChannel<ui::Message<ui::data::Server, ui::event::Server>, Message<
            data::Ui,
            event::Ui,
        >>,
    ) -> (r: Server)
        ensures
            r.local_ip is None,
            r.public_ip is None,
            r.internal_port is None,
            r.external_port is None,
            r.upnp_lease_seconds == 60 * 15,
            r.status == ServerStatus::Good,
            r.secret_key@ == "Swordfish"@,
            r.frame_count == 0,
            r.settings.logic_refresh_rate == 60,
            r.application == application,
            r.ui == ui,
    {
        Server {
            local_ip: None,
            public_ip: None,
            internal_port: None,
            external_port: None,
            upnp_lease_seconds: 60 * 15,
            status: ServerStatus::Good,
            application,
            ui,
            secret_key: String::from_str("Swordfish"),
            clock: util::monotonic_now(),
            upnp_lease_clock: util::monotonic_now(),
            frame_count: 0,
            settings: ServerSettings::default(),
        }
    }

    /// Records the outcome of one connection refresh: each step's result is
    /// taken in order, the first failure sets the status and stops the
    /// refresh, and a full pass leaves every connection field filled and the
    /// status clean.
    pub fn refresh_connection(&mut self, probe: RefreshProbe)
        ensures
            final(self).application == old(self).application,
            final(self).ui == old(self).ui,
            final(self).secret_key == old(self).secret_key,
            final(self).settings == old(self).settings,
            final(self).frame_count == old(self).frame_count,
            final(self).clock == old(self).clock,
            final(self).external_port == match probe.mapping {
                Ok(port) => if probe.bind is Ok && probe.local_ip is Ok && probe.public_ip is Ok
                    && probe.internal_port is Ok {
                    Some(port)
                } else {
                    old(self).external_port
                },
                Err(_) => old(self).external_port,
            },
            probe.bind matches Err(m) ==> ({
                &&& final(self).status == ServerStatus::TcpBindError(m)
                &&& final(self).local_ip == old(self).local_ip
                &&& final(self).public_ip == old(self).public_ip
                &&& final(self).internal_port == old(self).internal_port
            }),
            probe.bind is Ok ==> (probe.local_ip matches Err(m) ==> ({
                &&& final(self).status == ServerStatus::LocalIpError(m)
                &&& final(self).local_ip == old(self).local_ip
                &&& final(self).public_ip == old(self).public_ip
                &&& final(self).internal_port == old(self).internal_port
            })),
            probe.bind is Ok ==> (probe.local_ip matches Ok(lip) ==> final(self).local_ip
                == Some(lip)),
            probe.bind is Ok && probe.local_ip is Ok ==> (probe.public_ip matches Err(m) ==> ({
                &&& final(self).status == ServerStatus::PublicIpError(m)
                &&& final(self).public_ip == old(self).public_ip
                &&& final(self).internal_port == old(self).internal_port
            })),
            probe.bind is Ok && probe.local_ip is Ok ==> (probe.public_ip matches Ok(pip)
                ==> final(self).public_ip == Some(pip)),
            probe.bind is Ok && probe.local_ip is Ok && probe.public_ip is Ok ==> (
            probe.internal_port matches Err(m) ==> ({
                &&& final(self).status == ServerStatus::InternalPortError(m)
                &&& final(self).internal_port == old(self).internal_port
            })),
            probe.bind is Ok && probe.local_ip is Ok && probe.public_ip is Ok ==> (
            probe.internal_port matches Ok(port) ==> final(self).internal_port == Some(port)),
            probe.bind is Ok && probe.local_ip is Ok && probe.public_ip is Ok
                && probe.internal_port is Ok ==> (probe.mapping matches Err(m)
                ==> final(self).status == ServerStatus::ExternalPortError(m)),
            probe.bind is Ok && probe.local_ip is Ok && probe.public_ip is Ok
                && probe.internal_port is Ok && probe.mapping is Ok ==> final(self).status
                == ServerStatus::Good,
    {
        self.status = ServerStatus::Good;
        match probe.bind {
            Ok(_) => (),
            Err(error) => {
                self.status = ServerStatus::TcpBindError(error);
                return ;
            },
        }
        match probe.local_ip {
            Ok(ip) => {
                self.local_ip = Some(ip);
            },
            Err(error) => {
                self.status = ServerStatus::LocalIpError(error);
                return ;
            },
        }
        match probe.public_ip {
            Ok(ip) => {
                self.public_ip = Some(ip);
            },
            Err(error) => {
                self.status = ServerStatus::PublicIpError(error);
                return ;
            },
        }
        match probe.internal_port {
            Ok(port) => {
                self.internal_port = Some(port);
            },
            Err(error) => {
                self.status = ServerStatus::InternalPortError(error);
                return ;
            },
        }
        match probe.mapping {
            Ok(port) => {
                self.external_port = Some(port);
            },
            Err(error) => {
                self.status = ServerStatus::ExternalPortError(error);
            },
        }
    }

    /// What to ask the gateway for, or why no port mapping can be requested:
    /// a mapping needs a known internal port and a known version-4 local
    /// address.
    pub fn mapping_request(&self) -> (r: Result<MappingRequest, String>)
        ensures
            self.internal_port is None ==> (r matches Err(m) && m@ == "No internal port."@),
            self.internal_port is Some && self.local_ip is None ==> (r matches Err(m) && m@
                == "No local IP address."@),
            self.internal_port is Some && (self.local_ip matches Some(ip) && ip is V6) ==> (r
                matches Err(m) && m@ == "Local IP is IPv6, but only IPv4 is supported."@),
            self.internal_port matches Some(port) ==> (self.local_ip matches Some(
                IpAddress::V4(a, b, c, d),
            ) ==> r == Ok::<MappingRequest, String>(
                MappingRequest {
                    local_ip: (a, b, c, d),
                    internal_port: port,
                    lease_seconds: self.upnp_lease_seconds as u32,
                },
            )),
    {
        let internal_port = match self.internal_port {
            Some(port) => port,
            None => {
                return Err(String::from_str("No internal port."));
            },
        };
        let local_ip = match self.local_ip {
            Some(ip) => ip,
            None => {
                return Err(String::from_str("No local IP address."));
            },
        };
        match local_ip {
            IpAddress::V4(a, b, c, d) => Ok(
                MappingRequest {
                    local_ip: (a, b, c, d),
                    internal_port,
                    lease_seconds: self.upnp_lease_seconds as u32,
                },
            ),
            IpAddress::V6(_, _, _, _, _, _, _, _) => Err(
                String::from_str("Local IP is IPv6, but only IPv4 is supported."),
            ),
        }
    }

    /// Records what the gateway answered to a port-mapping request: a granted
    /// mapping stores the external port and restarts the lease clock.
    pub fn record_mapping(&mut self, outcome: Result<u16, String>) -> (r: Result<u16, AppError>)
        ensures
            outcome matches Ok(port) ==> ({
                &&& r == Ok::<u16, AppError>(port)
                &&& final(self).external_port == Some(port)
                &&& final(self).status == old(self).status
            }),
            outcome is Err ==> ({
                &&& r == Err::<u16, AppError>(AppError::IPError)
                &&& final(self).external_port == old(self).external_port
                &&& final(self).upnp_lease_clock == old(self).upnp_lease_clock
            }),
            final(self).local_ip == old(self).local_ip,
            final(self).public_ip == old(self).public_ip,
            final(self).internal_port == old(self).internal_port,
    {
        match outcome {
            Ok(port) => {
                self.upnp_lease_clock = util::monotonic_now();
                self.external_port = Some(port);
                Ok(port)
            },
            Err(_) => Err(AppError::IPError),
        }
    }

    /// Records freshly discovered addresses; the first discovery failure
    /// leaves the rest untouched and surfaces as an error.
    pub fn refresh_ips(&mut self, local: Result<IpAddress, String>, public: Result<
        IpAddress,
        String,
    >) -> (r: Result<(), AppError>)
        ensures
            final(self).internal_port == old(self).internal_port,
            final(self).external_port == old(self).external_port,
            final(self).status == old(self).status,
            local matches Err(m) ==> ({
                &&& r == Err::<(), AppError>(AppError::IPError)
                &&& final(self).local_ip == old(self).local_ip
                &&& final(self).public_ip == old(self).public_ip
            }),
            local matches Ok(lip) ==> (final(self).local_ip == Some(lip)),
            local is Ok ==> (public matches Err(m) ==> ({
                &&& r == Err::<(), AppError>(AppError::IPError)
                &&& final(self).public_ip == old(self).public_ip
            })),
            local is Ok ==> (public matches Ok(pip) ==> ({
                &&& r == Ok::<(), AppError>(())
                &&& final(self).public_ip == Some(pip)
            })),
    {
        match local {
            Ok(ip) => {
                self.local_ip = Some(ip);
            },
            Err(_) => {
                return Err(AppError::IPError);
            },
        }
        match public {
            Ok(ip) => {
                self.public_ip = Some(ip);
            },
            Err(_) => {
                return Err(AppError::IPError);
            },
        }
        Ok(())
    }

    /// Accepting an incoming peer connection is a placeholder with no
    /// implemented behavior yet.
    pub fn accept_connection(&mut self) -> (r: Result<(), AppError>)
        ensures
            r == Err::<(), AppError>(AppError::Unimplemented),
            *final(self) == *old(self),
    {
        Err(AppError::Unimplemented)
    }

    /// Opening an outgoing peer connection is a placeholder with no
    /// implemented behavior yet.
    pub fn establish_connection() -> (r: Result<(), AppError>)
        ensures
            r == Err::<(), AppError>(AppError::Unimplemented),
    {
        Err(AppError::Unimplemented)
    }

    /// Announcing the connection details to the interface is a placeholder
    /// with no implemented behavior yet.
    pub fn display_connection(&self) -> (r: Result<(), AppError>)
        ensures
            r == Err::<(), AppError>(AppError::Unimplemented),
    {
        Err(AppError::Unimplemented)
    }
}

} // verus!
