//! The protocol catalog: which daemons exist, their names and default ports.

use vstd::prelude::*;

verus! {

/// One of the supported file-serving mechanisms.  Equality on this enum
/// drives the routing of commands to the runner that owns the protocol.
#[derive(Clone, Copy, Debug, PartialEq, Eq, Hash, Structural)]
pub enum Protocol {
    Http,
    Tftp,
    Dhcp,
    Ftp,
}

/// The short lower-case name of a protocol, used on the wire of the
/// command-line interface and in log lines.
pub open spec fn spec_name(p: Protocol) -> Seq<char> {
    match p {
        Protocol::Http => "http"@,
        Protocol::Ftp => "ftp"@,
        Protocol::Tftp => "tftp"@,
        Protocol::Dhcp => "dhcp"@,
    }
}

/// The port a protocol binds to when the caller names none.
pub open spec fn spec_default_port(p: Protocol) -> u16 {
    match p {
        Protocol::Http => 8080,
        Protocol::Ftp => 2121,
        Protocol::Tftp => 6969,
        Protocol::Dhcp => 6767,
    }
}

impl Protocol {
    /// Returns the protocol name as a string.
    pub fn to_string(&self) -> (r: &'static str)
        ensures
            r@ == spec_name(*self),
    {
        match self {
            Protocol::Http => "http",
            Protocol::Ftp => "ftp",
            Protocol::Tftp => "tftp",
            Protocol::Dhcp => "dhcp",
        }
    }

    /// Returns the default port for the protocol.
    pub fn get_default_port(&self) -> (r: u16)
        ensures
            r == spec_default_port(*self),
    {
        match self {
            Protocol::Http => 8080,
            Protocol::Ftp => 2121,
            Protocol::Tftp => 6969,
            Protocol::Dhcp => 6767,
        }
    }
}

impl Default for Protocol {
    /// The protocol assumed when a command names none.
    fn default() -> (r: Self)
        ensures
            r == Protocol::Http,
    {
        Protocol::Http
    }
}

/// Every protocol of the catalog, in the order the orchestrator spawns a
/// runner for each.
pub fn protocol_list() -> (r: Vec<Protocol>)
    ensures
        r@ == seq![Protocol::Http, Protocol::Tftp, Protocol::Ftp, Protocol::Dhcp],
{
    let r: Vec<Protocol> = vec![Protocol::Http, Protocol::Tftp, Protocol::Ftp, Protocol::Dhcp];
    assert(r@ =~= seq![Protocol::Http, Protocol::Tftp, Protocol::Ftp, Protocol::Dhcp]);
    r
}

} // verus!
