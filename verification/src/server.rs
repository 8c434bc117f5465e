//! The per-protocol server handle.
//!
//! A `Server` bundles a protocol identity, the validated bind
//! configuration, and its own broadcast bus on which it publishes connect
//! and disconnect messages to the daemon task and to the daemon's shutdown
//! waiter.

use vstd::prelude::*;
use vstd::string::*;

use crate::errors::QuickServeError;
use crate::messages::Message;
use crate::protocol::Protocol;
use crate::validation::addr_ok;
use crate::validation::path_ok;
use crate::validation::port_allowed;
use crate::validation::valid_ip_literal;
use crate::validation::validate_ip_port;
use crate::validation::validate_path;
use crate::validation::ensure_trailing_slash;
use crate::validation::with_trailing_slash;
use crate::validation::PathStat;

verus! {

/// The capacity of a server handle's own bus: the daemon task and its
/// shutdown waiter never lag this far behind.
pub const SERVER_BACKLOG: usize = 10;

/// Represents a server instance with its configuration.
pub struct Server {
    /// Broadcast sender for control messages.
    pub sender: tokio::sync::broadcast::Sender<Message>,
    /// The protocol this server handles.
    pub protocol: Protocol,
    /// Path to serve files from.
    pub path: String,
    /// IP literal to bind to.
    pub bind_address: String,
    /// Port to listen on.
    pub port: u16,
}

impl Server {
    /// A handle whose bind configuration passed validation.
    pub open spec fn wf(self) -> bool {
        &&& valid_ip_literal(self.bind_address@)
        &&& self.port != 0
        &&& port_allowed(self.port)
    }

    /// The connect message this handle publishes on a start: it carries the
    /// whole bind configuration to the daemon task.
    pub fn start_message(&self) -> (m: Message)
        ensures
            m.connect,
            !m.terminate,
            m.path@ == self.path@,
            m.bind_address@ == self.bind_address@,
            m.port == self.port,
    {
        Message {
            connect: true,
            terminate: false,
            path: self.path.clone(),
            bind_address: self.bind_address.clone(),
            port: self.port,
        }
    }

    /// The disconnect message this handle publishes on a stop: the daemon
    /// tears down but the runner keeps listening.
    pub fn stop_message(&self) -> (m: Message)
        ensures
            !m.connect,
            !m.terminate,
    {
        Message { connect: false, terminate: false, ..Message::default() }
    }

    /// The disconnect message this handle publishes on a terminate: the
    /// daemon tears down and the serving loop ends for good.
    pub fn terminate_message(&self) -> (m: Message)
        ensures
            !m.connect,
            m.terminate,
    {
        Message { connect: false, terminate: true, ..Message::default() }
    }

    /// Starts the server by publishing one connect message carrying the
    /// bind configuration; fails with a lifecycle error only when nobody
    /// subscribes to this handle's bus.
    pub fn start(&self) -> (r: Result<(), QuickServeError>)
        ensures
            r matches Err(e) ==> e matches QuickServeError::ServerLifecycle(m) && m@
                == "Error sending start message"@,
    {
        let m = self.start_message();
        match self.sender.send(m) {
            Ok(_) => Ok(()),
            Err(_) => Err(QuickServeError::server_lifecycle("Error sending start message")),
        }
    }

    /// Stops the server by publishing one disconnect message; the runner
    /// stays subscribed and keeps accepting future starts.
    pub fn stop(&self) -> (r: Result<(), QuickServeError>)
        ensures
            r matches Err(e) ==> e matches QuickServeError::ServerLifecycle(m) && m@
                == "Error sending stop message"@,
    {
        let m = self.stop_message();
        match self.sender.send(m) {
            Ok(_) => Ok(()),
            Err(_) => Err(QuickServeError::server_lifecycle("Error sending stop message")),
        }
    }

    /// Terminates the server by publishing the terminating disconnect
    /// twice: the daemon's own shutdown waiter and the serving loop are
    /// independent subscribers racing for the same bus, and each must see
    /// one message.
    pub fn terminate(&self) -> (r: Result<(), QuickServeError>)
        ensures
            r matches Err(e) ==> e matches QuickServeError::ServerLifecycle(m) && (m@
                == "Error sending first terminate message"@ || m@
                == "Error sending second terminate message"@),
    {
        let m = self.terminate_message();
        let m2 = self.terminate_message();
        if self.sender.send(m).is_err() {
            return Err(QuickServeError::server_lifecycle("Error sending first terminate message"));
        }
        match self.sender.send(m2) {
            Ok(_) => Ok(()),
            Err(_) => Err(
                QuickServeError::server_lifecycle("Error sending second terminate message"),
            ),
        }
    }

    /// Builds a handle for one protocol from a start request that passed
    /// validation.  The path check may be skipped for a daemon
    /// that serves no files; the address check never is.
    fn build(
        protocol: Protocol,
        stat: &PathStat,
        bind_ip: &str,
        port: u16,
        check_path: bool,
        add_slash: bool,
    ) -> (r: Result<Server, QuickServeError>)
        ensures
            r is Ok <==> (addr_ok(bind_ip@, port) && (check_path ==> path_ok(*stat))),
            r matches Ok(s) ==> s.wf() && s.protocol == protocol && s.bind_address@ == bind_ip@
                && s.port == port && s.path@ == (if add_slash {
                with_trailing_slash(stat.path@)
            } else {
                stat.path@
            }),
            r matches Err(e) ==> e matches QuickServeError::Validation(_),
    {
        if check_path {
            if let Err(e) = validate_path(stat) {
                return Err(e);
            }
        }
        if let Err(e) = validate_ip_port(bind_ip, port) {
            return Err(e);
        }
        let path = if add_slash {
            ensure_trailing_slash(stat.path.as_str())
        } else {
            stat.path.clone()
        };
        let (sender, _receiver) = tokio::sync::broadcast::channel(SERVER_BACKLOG);
        Ok(Server { sender, protocol, path, bind_address: String::from_str(bind_ip), port })
    }
}

impl Default for Server {
    /// A placeholder handle bound to nothing: loopback address, port zero,
    /// empty path, a fresh bus.
    fn default() -> (r: Self)
        ensures
            r.protocol == Protocol::Http,
            r.path@ == Seq::<char>::empty(),
            r.bind_address@ == "127.0.0.1"@,
            r.port == 0,
    {
        let (sender, _receiver) = tokio::sync::broadcast::channel(SERVER_BACKLOG);
        Server {
            sender,
            protocol: Protocol::Http,
            path: String::new(),
            bind_address: String::from_str("127.0.0.1"),
            port: 0,
        }
    }
}

/// The constructor capability of the HTTP runner.
pub trait HTTPRunner {
    /// Validates the request and builds the HTTP server handle: path and
    /// address are both checked; the path is stored as given.
    fn new(stat: &PathStat, bind_ip: &str, port: u16) -> (r: Result<Server, QuickServeError>)
        ensures
            r is Ok <==> (addr_ok(bind_ip@, port) && path_ok(*stat)),
            r matches Ok(s) ==> s.wf() && s.protocol == Protocol::Http && s.bind_address@
                == bind_ip@ && s.port == port && s.path@ == stat.path@,
            r matches Err(e) ==> e matches QuickServeError::Validation(_),
    ;
}

impl HTTPRunner for Server {
    fn new(stat: &PathStat, bind_ip: &str, port: u16) -> (r: Result<Server, QuickServeError>) {
        Server::build(Protocol::Http, stat, bind_ip, port, true, false)
    }
}

/// The constructor capability of the FTP runner.
pub trait FTPRunner {
    /// Validates the request and builds the FTP server handle: path and
    /// address are both checked; the path gets a trailing separator.
    fn new(stat: &PathStat, bind_ip: &str, port: u16) -> (r: Result<Server, QuickServeError>)
        ensures
            r is Ok <==> (addr_ok(bind_ip@, port) && path_ok(*stat)),
            r matches Ok(s) ==> s.wf() && s.protocol == Protocol::Ftp && s.bind_address@
                == bind_ip@ && s.port == port && s.path@ == with_trailing_slash(stat.path@),
            r matches Err(e) ==> e matches QuickServeError::Validation(_),
    ;
}

impl FTPRunner for Server {
    fn new(stat: &PathStat, bind_ip: &str, port: u16) -> (r: Result<Server, QuickServeError>) {
        Server::build(Protocol::Ftp, stat, bind_ip, port, true, true)
    }
}

/// The constructor capability of the TFTP runner.
pub trait TFTPRunner {
    /// Validates the request and builds the TFTP server handle: path and
    /// address are both checked; the path gets a trailing separator.
    fn new(stat: &PathStat, bind_ip: &str, port: u16) -> (r: Result<Server, QuickServeError>)
        ensures
            r is Ok <==> (addr_ok(bind_ip@, port) && path_ok(*stat)),
            r matches Ok(s) ==> s.wf() && s.protocol == Protocol::Tftp && s.bind_address@
                == bind_ip@ && s.port == port && s.path@ == with_trailing_slash(stat.path@),
            r matches Err(e) ==> e matches QuickServeError::Validation(_),
    ;
}

impl TFTPRunner for Server {
    fn new(stat: &PathStat, bind_ip: &str, port: u16) -> (r: Result<Server, QuickServeError>) {
        Server::build(Protocol::Tftp, stat, bind_ip, port, true, true)
    }
}

/// The constructor capability of the DHCP runner.
pub trait DHCPRunner {
    /// Validates the request and builds the DHCP server handle: the daemon
    /// serves no files, so only the address is checked; the path gets a
    /// trailing separator.
    fn new(stat: &PathStat, bind_ip: &str, port: u16) -> (r: Result<Server, QuickServeError>)
        ensures
            r is Ok <==> addr_ok(bind_ip@, port),
            r matches Ok(s) ==> s.wf() && s.protocol == Protocol::Dhcp && s.bind_address@
                == bind_ip@ && s.port == port && s.path@ == with_trailing_slash(stat.path@),
            r matches Err(e) ==> e matches QuickServeError::Validation(_),
    ;
}

impl DHCPRunner for Server {
    fn new(stat: &PathStat, bind_ip: &str, port: u16) -> (r: Result<Server, QuickServeError>) {
        Server::build(Protocol::Dhcp, stat, bind_ip, port, false, true)
    }
}

} // verus!
