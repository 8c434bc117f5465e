//! The command and message vocabulary of the control plane.
//!
//! A `CommandMsg` travels on the process-wide bus and names a protocol, an
//! intent and the bind configuration; a `Message` travels on a server
//! handle's own bus between the handle and its daemon task.

use vstd::prelude::*;
use vstd::string::*;

use crate::protocol::Protocol;
use crate::protocol::spec_default_port;

verus! {

/// What a command asks of the runner it addresses.
#[derive(Clone, Copy, Debug, PartialEq, Eq, Structural)]
pub enum Intent {
    /// Validate the configuration and launch the daemon.
    Start,
    /// Tear the daemon down and keep accepting future starts.
    Stop,
    /// Tear the daemon down and end the runner for good.
    Terminate,
}

/// A control instruction, immutable once published: the addressed protocol,
/// the intent, and the bind address, port and served path for a start.
#[derive(Clone, Debug)]
pub struct CommandMsg {
    /// What the addressed runner should do.
    pub intent: Intent,
    /// The port to bind on a start.
    pub port: u16,
    /// The protocol this command is addressed to.
    pub protocol: Protocol,
    /// The IP literal to bind on a start.
    pub bind_ip: String,
    /// The directory to serve on a start.
    pub path: String,
}

impl CommandMsg {
    /// A stop command for one protocol, carrying its default port and no
    /// bind configuration.
    pub fn new(prot: &Protocol) -> (r: Self)
        ensures
            r.intent == Intent::Stop,
            r.port == spec_default_port(*prot),
            r.protocol == *prot,
            r.bind_ip@ == Seq::<char>::empty(),
            r.path@ == Seq::<char>::empty(),
    {
        CommandMsg {
            intent: Intent::Stop,
            port: prot.get_default_port(),
            protocol: *prot,
            bind_ip: String::new(),
            path: String::new(),
        }
    }
}

impl Default for CommandMsg {
    /// The empty stop command, the recognized stop-all convention.
    fn default() -> (r: Self)
        ensures
            r.intent == Intent::Stop,
            r.port == 0,
            r.protocol == Protocol::Http,
            r.bind_ip@ == Seq::<char>::empty(),
            r.path@ == Seq::<char>::empty(),
    {
        CommandMsg {
            intent: Intent::Stop,
            port: 0,
            protocol: Protocol::Http,
            bind_ip: String::new(),
            path: String::new(),
        }
    }
}

/// A message on a server handle's own bus, read by the daemon task and by
/// its shutdown waiter.
#[derive(Clone, Debug)]
pub struct Message {
    /// Whether to connect (serve) or to disconnect.
    pub connect: bool,
    /// Whether a disconnect also ends the serving loop for good.
    pub terminate: bool,
    /// The directory being served.
    pub path: String,
    /// The IP literal the daemon binds.
    pub bind_address: String,
    /// The port the daemon binds.
    pub port: u16,
}

impl Default for Message {
    /// The empty disconnect message.
    fn default() -> (r: Self)
        ensures
            !r.connect,
            !r.terminate,
            r.path@ == Seq::<char>::empty(),
            r.bind_address@ == Seq::<char>::empty(),
            r.port == 0,
    {
        Message {
            connect: false,
            terminate: false,
            path: String::new(),
            bind_address: String::new(),
            port: 0,
        }
    }
}

} // verus!
