//! Turning one external invocation into start commands, and shutdown into
//! stop commands.
//!
//! The surrounding process parses its command line, publishes what is
//! planned here, and blocks until a shutdown trigger fires; the planning
//! itself is pure and verified.

use vstd::prelude::*;
use vstd::string::*;

use crate::messages::CommandMsg;
use crate::messages::Intent;
use crate::protocol::Protocol;

verus! {

/// Exit code of a normal shutdown.
pub const EXIT_OK: i32 = 0;

/// Exit code of a signal-triggered shutdown.
pub const EXIT_SIGNAL: i32 = 1;

/// Exit code of an invocation that requested no protocol.
pub const EXIT_NO_PROTOCOL: i32 = 2;

/// One external invocation: the bind address, the served directory, and an
/// optional port for every protocol that should start.
#[derive(Clone, Debug)]
pub struct Invocation {
    /// The IP literal every requested daemon binds.
    pub bind_ip: String,
    /// The directory every requested daemon serves.
    pub serve_dir: String,
    /// The HTTP port, when HTTP was requested.
    pub http: Option<u16>,
    /// The FTP port, when FTP was requested.
    pub ftp: Option<u16>,
    /// The TFTP port, when TFTP was requested.
    pub tftp: Option<u16>,
    /// The DHCP port, when DHCP was requested.
    pub dhcp: Option<u16>,
}

/// The protocols an invocation requests, with their ports, in the order the
/// commands are published.
pub open spec fn spec_requests(inv: Invocation) -> Seq<(Protocol, u16)> {
    (match inv.http {
        Option::Some(pt) => seq![(Protocol::Http, pt)],
        Option::None => seq![],
    }) + (match inv.ftp {
        Option::Some(pt) => seq![(Protocol::Ftp, pt)],
        Option::None => seq![],
    }) + (match inv.tftp {
        Option::Some(pt) => seq![(Protocol::Tftp, pt)],
        Option::None => seq![],
    }) + (match inv.dhcp {
        Option::Some(pt) => seq![(Protocol::Dhcp, pt)],
        Option::None => seq![],
    })
}

/// Is `c` the start command that invocation `inv` owes protocol `p` on
/// port `port`?
pub open spec fn is_start_command_for(c: CommandMsg, inv: Invocation, p: Protocol, port: u16) -> bool {
    &&& c.intent == Intent::Start
    &&& c.protocol == p
    &&& c.port == port
    &&& c.bind_ip@ == inv.bind_ip@
    &&& c.path@ == inv.serve_dir@
}

/// Translates one invocation into its start commands: one per requested
/// protocol, in the order HTTP, FTP, TFTP, DHCP, each carrying the
/// invocation's bind address and served directory.  An empty result is the
/// usage error that exits with `EXIT_NO_PROTOCOL`.
pub fn plan_start_commands(inv: &Invocation) -> (r: Vec<CommandMsg>)
    ensures
        r@.len() == spec_requests(*inv).len(),
        forall|i: int| 0 <= i < r@.len() ==> is_start_command_for(
            r@[i],
            *inv,
            spec_requests(*inv)[i].0,
            spec_requests(*inv)[i].1,
        ),
        r@.len() == 0 <==> (inv.http is None && inv.ftp is None && inv.tftp is None && inv.dhcp
            is None),
{
    let mut cmds: Vec<CommandMsg> = Vec::new();
    let ghost mut exp: Seq<(Protocol, u16)> = Seq::empty();
    if let Some(pt) = inv.http {
        cmds.push(
            CommandMsg {
                intent: Intent::Start,
                port: pt,
                protocol: Protocol::Http,
                bind_ip: inv.bind_ip.clone(),
                path: inv.serve_dir.clone(),
            },
        );
        proof {
            exp = exp.push((Protocol::Http, pt));
        }
    }
    if let Some(pt) = inv.ftp {
        cmds.push(
            CommandMsg {
                intent: Intent::Start,
                port: pt,
                protocol: Protocol::Ftp,
                bind_ip: inv.bind_ip.clone(),
                path: inv.serve_dir.clone(),
            },
        );
        proof {
            exp = exp.push((Protocol::Ftp, pt));
        }
    }
    if let Some(pt) = inv.tftp {
        cmds.push(
            CommandMsg {
                intent: Intent::Start,
                port: pt,
                protocol: Protocol::Tftp,
                bind_ip: inv.bind_ip.clone(),
                path: inv.serve_dir.clone(),
            },
        );
        proof {
            exp = exp.push((Protocol::Tftp, pt));
        }
    }
    if let Some(pt) = inv.dhcp {
        cmds.push(
            CommandMsg {
                intent: Intent::Start,
                port: pt,
                protocol: Protocol::Dhcp,
                bind_ip: inv.bind_ip.clone(),
                path: inv.serve_dir.clone(),
            },
        );
        proof {
            exp = exp.push((Protocol::Dhcp, pt));
        }
    }
    proof {
        assert(exp =~= spec_requests(*inv));
        assert(forall|i: int| 0 <= i < cmds@.len() ==> is_start_command_for(
            cmds@[i],
            *inv,
            exp[i].0,
            exp[i].1,
        ));
    }
    cmds
}

/// The protocol addressed by the `i`-th shutdown command: two per protocol,
/// in catalog order.
pub open spec fn stop_protocol_at(i: int) -> Protocol {
    if i < 2 {
        Protocol::Http
    } else if i < 4 {
        Protocol::Tftp
    } else if i < 6 {
        Protocol::Ftp
    } else {
        Protocol::Dhcp
    }
}

/// The commands a shutdown publishes: one default stop command per catalog
/// protocol, each sent twice so that both the daemon task and the runner
/// loop, independent subscribers racing for the same bus, see one.
pub fn stop_all_commands() -> (r: Vec<CommandMsg>)
    ensures
        r@.len() == 8,
        forall|i: int| 0 <= i < 8 ==> (#[trigger] r@[i]).intent == Intent::Stop && r@[i].port == 0
            && r@[i].bind_ip@ == Seq::<char>::empty() && r@[i].path@ == Seq::<char>::empty()
            && r@[i].protocol == stop_protocol_at(i),
{
    let protocols = crate::protocol::protocol_list();
    let mut cmds: Vec<CommandMsg> = Vec::new();
    let mut idx: usize = 0;
    while idx < protocols.len()
        invariant
            idx <= protocols.len(),
            protocols@ == seq![Protocol::Http, Protocol::Tftp, Protocol::Ftp, Protocol::Dhcp],
            cmds@.len() == 2 * idx,
            forall|i: int| 0 <= i < cmds@.len() ==> (#[trigger] cmds@[i]).intent == Intent::Stop
                && cmds@[i].port == 0 && cmds@[i].bind_ip@ == Seq::<char>::empty()
                && cmds@[i].path@ == Seq::<char>::empty() && cmds@[i].protocol == protocols@[i / 2],
        decreases protocols.len() - idx,
    {
        let p = protocols[idx];
        let stop = CommandMsg {
            intent: Intent::Stop,
            port: 0,
            protocol: p,
            bind_ip: String::new(),
            path: String::new(),
        };
        let stop2 = CommandMsg {
            intent: Intent::Stop,
            port: 0,
            protocol: p,
            bind_ip: String::new(),
            path: String::new(),
        };
        let ghost pre = cmds@;
        cmds.push(stop);
        cmds.push(stop2);
        proof {
            assert(forall|i: int| 0 <= i < pre.len() ==> cmds@[i] == pre[i]);
            assert(cmds@[pre.len() as int] == stop);
            assert(cmds@[pre.len() as int + 1] == stop2);
        }
        idx = idx + 1;
    }
    proof {
        assert(forall|i: int| 0 <= i < 8 ==> stop_protocol_at(i) == seq![
            Protocol::Http,
            Protocol::Tftp,
            Protocol::Ftp,
            Protocol::Dhcp,
        ][i / 2]);
    }
    cmds
}

} // verus!
