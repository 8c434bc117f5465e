//! The DHCP lease table and its decision logic.
//!
//! The daemon at the boundary decodes each DHCP packet into a plain
//! request, asks this machine what to answer, and encodes the reply.  The
//! machine owns the lease pool: one hundred addresses starting at
//! 172.12.1.100, each leased to one client hardware address for a fixed
//! duration.  Time enters as a plain tick count, so every decision is a
//! function of the request, the table and the clock value alone.

use vstd::prelude::*;

use std::collections::HashMap;

verus! {

broadcast use vstd::std_specs::hash::group_hash_axioms;

/// How long one lease lasts, in seconds.
pub const LEASE_DURATION_SECS: u64 = 7200;

/// The first address of the lease pool, 172.12.1.100 as one number.
pub const IP_START_NUM: u32 = 2886467940;

/// How many addresses the pool holds.
pub const LEASE_NUM: u32 = 100;

/// Does the address lie in the lease pool?
pub open spec fn in_pool(ip: u32) -> bool {
    IP_START_NUM <= ip && (ip as int) < IP_START_NUM + LEASE_NUM
}

/// One granted lease: the client's hardware address, packed into one
/// number, and the second at which the lease lapses.
#[derive(Clone, Copy, Debug, PartialEq, Eq, Structural)]
pub struct LeaseEntry {
    /// The client hardware address the lease belongs to.
    pub chaddr: u64,
    /// The clock value after which the lease no longer binds.
    pub expires_at: u64,
}

/// The kind of an incoming DHCP message.
#[derive(Clone, Copy, Debug, PartialEq, Eq, Structural)]
pub enum DhcpMessageType {
    Discover,
    Request,
    Release,
    Decline,
    Other,
}

/// One decoded DHCP request: the message kind, the address the client asks
/// for (when the packet names one), the client's current address field, the
/// client hardware address, and whether the packet addresses this server.
#[derive(Clone, Copy, Debug)]
pub struct DhcpRequest {
    /// The kind of message.
    pub message_type: DhcpMessageType,
    /// The address the packet's requested-address option names, if any.
    pub requested_ip: Option<u32>,
    /// The client's own address field.
    pub ciaddr: u32,
    /// The client hardware address, packed into one number.
    pub chaddr: u64,
    /// Whether the packet is addressed to this server rather than another.
    pub for_this_server: bool,
}

/// What the daemon must send back for one request.
#[derive(Clone, Copy, Debug, PartialEq, Eq, Structural)]
pub enum DhcpAction {
    /// Offer this address to the client.
    Offer(u32),
    /// Acknowledge the lease of this address.
    Ack(u32),
    /// Refuse the requested address.
    Nak,
    /// Send nothing.
    Ignore,
}

/// The lease table: addresses of the pool mapped to their leases, plus the
/// rotating cursor from which fresh offers are drawn.
pub struct DhcpServer {
    /// The granted leases, keyed by address.
    pub leases: HashMap<u32, LeaseEntry>,
    /// The pool offset after which the next fresh offer is sought.
    pub last_lease: u32,
}

/// May `addr` be offered to or kept by `chaddr` at clock value `now`?  It
/// must lie in the pool and be unleased, leased to the same client, or
/// lapsed.
pub open spec fn spec_available(m: Map<u32, LeaseEntry>, chaddr: u64, addr: u32, now: u64) -> bool {
    &&& in_pool(addr)
    &&& (m.contains_key(addr) ==> (m[addr].chaddr == chaddr || now > m[addr].expires_at))
}

/// The first pool address, scanning from the pool start, whose lease
/// belongs to `chaddr`; the client's current lease.
pub open spec fn spec_current_lease(m: Map<u32, LeaseEntry>, chaddr: u64, j: int) -> Option<u32>
    decreases LEASE_NUM - j,
{
    if j < 0 || j >= LEASE_NUM {
        None
    } else {
        let ip = (IP_START_NUM + j) as u32;
        if m.contains_key(ip) && m[ip].chaddr == chaddr {
            Some(ip)
        } else {
            spec_current_lease(m, chaddr, j + 1)
        }
    }
}

/// The pool offset probed at step `j` of an offer scan that starts after
/// cursor `last`.
pub open spec fn slot_at(last: u32, j: int) -> int {
    (last + 1 + j) % (LEASE_NUM as int)
}

/// The first address available to `chaddr`, probing the pool in rotation
/// order from the cursor; the address a fresh offer picks.
pub open spec fn spec_scan_offer(
    m: Map<u32, LeaseEntry>,
    chaddr: u64,
    now: u64,
    last: u32,
    j: int,
) -> Option<u32>
    decreases LEASE_NUM - j,
{
    if j < 0 || j >= LEASE_NUM {
        None
    } else {
        let ip = (IP_START_NUM + slot_at(last, j)) as u32;
        if spec_available(m, chaddr, ip, now) {
            Some(ip)
        } else {
            spec_scan_offer(m, chaddr, now, last, j + 1)
        }
    }
}

/// The discover decision once the address the packet asked for is out: the
/// client's current lease, else the next free pool address in rotation
/// order, else nothing; paired with the cursor that remains.
pub open spec fn spec_discover_fallback(
    m: Map<u32, LeaseEntry>,
    req: DhcpRequest,
    now: u64,
    last: u32,
) -> (DhcpAction, u32) {
    match spec_current_lease(m, req.chaddr, 0) {
        Some(ip) => (DhcpAction::Offer(ip), last),
        None => match spec_scan_offer(m, req.chaddr, now, last, 0) {
            Some(ip) => (DhcpAction::Offer(ip), (ip - IP_START_NUM) as u32),
            None => (DhcpAction::Ignore, last),
        },
    }
}

/// The whole discover decision: the address the packet asked for when
/// available, else the fallback; paired with the cursor that remains.
pub open spec fn spec_discover(m: Map<u32, LeaseEntry>, req: DhcpRequest, now: u64, last: u32) -> (
    DhcpAction,
    u32,
) {
    match req.requested_ip {
        Some(a) => if spec_available(m, req.chaddr, a, now) {
            (DhcpAction::Offer(a), last)
        } else {
            spec_discover_fallback(m, req, now, last)
        },
        None => spec_discover_fallback(m, req, now, last),
    }
}

/// The address a request message asks to keep: the requested-address
/// option when present, else the client's own address field.
pub open spec fn spec_requested_ip(req: DhcpRequest) -> u32 {
    match req.requested_ip {
        Some(a) => a,
        None => req.ciaddr,
    }
}

impl DhcpServer {
    /// A well-formed table: the cursor stays inside the pool and every
    /// leased address lies in the pool.
    pub open spec fn wf(self) -> bool {
        &&& self.last_lease < LEASE_NUM
        &&& forall|ip: u32| self.leases@.contains_key(ip) ==> in_pool(ip)
    }

    /// Decides `spec_available` for one address.
    pub fn available(&self, chaddr: u64, addr: u32, now: u64) -> (r: bool)
        ensures
            r == spec_available(self.leases@, chaddr, addr, now),
    {
        if addr < IP_START_NUM {
            return false;
        }
        if addr - IP_START_NUM >= LEASE_NUM {
            return false;
        }
        match self.leases.get(&addr) {
            None => true,
            Some(e) => e.chaddr == chaddr || now > e.expires_at,
        }
    }

    /// Finds the client's current lease, scanning the pool from its start.
    #[verifier::loop_isolation(false)]
    pub fn current_lease(&self, chaddr: u64) -> (r: Option<u32>)
        ensures
            r == spec_current_lease(self.leases@, chaddr, 0),
    {
        let ghost m = self.leases@;
        let mut k: u32 = 0;
        while k < LEASE_NUM
            invariant
                k <= LEASE_NUM,
                spec_current_lease(m, chaddr, 0) == spec_current_lease(m, chaddr, k as int),
                m == self.leases@,
            decreases LEASE_NUM - k,
        {
            let ip = IP_START_NUM + k;
            let hit = match self.leases.get(&ip) {
                Some(e) => e.chaddr == chaddr,
                None => false,
            };
            if hit {
                return Some(ip);
            }
            k = k + 1;
        }
        None
    }

    /// Finds the next address to offer, probing the pool in rotation order
    /// after the cursor, and leaves the cursor on the offered slot; with
    /// the pool exhausted the cursor comes back around unchanged.
    #[verifier::loop_isolation(false)]
    fn scan_offer(&mut self, chaddr: u64, now: u64) -> (r: Option<u32>)
        requires
            old(self).wf(),
        ensures
            final(self).wf(),
            final(self).leases@ == old(self).leases@,
            r == spec_scan_offer(old(self).leases@, chaddr, now, old(self).last_lease, 0),
            r matches Some(ip) ==> final(self).last_lease == ip - IP_START_NUM,
            r is None ==> final(self).last_lease == old(self).last_lease,
    {
        let ghost m = self.leases@;
        let ghost last0 = self.last_lease;
        let mut j: u32 = 0;
        while j < LEASE_NUM
            invariant
                j <= LEASE_NUM,
                self.leases@ == m,
                self.last_lease == (if j == 0 {
                    last0
                } else {
                    ((last0 + j) % (LEASE_NUM as int)) as u32
                }),
                last0 < LEASE_NUM,
                spec_scan_offer(m, chaddr, now, last0, 0) == spec_scan_offer(
                    m,
                    chaddr,
                    now,
                    last0,
                    j as int,
                ),
            decreases LEASE_NUM - j,
        {
            self.last_lease = (self.last_lease + 1) % LEASE_NUM;
            proof {
                assert(self.last_lease as int == slot_at(last0, j as int));
            }
            let candidate = IP_START_NUM + self.last_lease;
            if self.available(chaddr, candidate, now) {
                proof {
                    assert((IP_START_NUM + slot_at(last0, j as int)) as u32 == candidate);
                    assert(spec_scan_offer(m, chaddr, now, last0, j as int) == Some(candidate));
                }
                return Some(candidate);
            }
            j = j + 1;
        }
        proof {
            assert((last0 + LEASE_NUM) % (LEASE_NUM as int) == last0);
        }
        None
    }

    /// Answers one decoded request at clock value `now`, updating the
    /// lease table as the original protocol rules say:
    ///
    /// - a discover is offered the address it asked for when available,
    ///   else the client's current lease, else the next free pool address
    ///   in rotation order, else nothing, and grants no lease yet;
    /// - a request addressed to this server is acknowledged and granted a
    ///   lease for the fixed duration when the address is available, and
    ///   refused otherwise;
    /// - a release or decline addressed to this server drops the client's
    ///   current lease;
    /// - anything else changes nothing and is not answered.
    pub fn handle_request(&mut self, req: &DhcpRequest, now: u64) -> (r: DhcpAction)
        requires
            old(self).wf(),
            now + LEASE_DURATION_SECS <= u64::MAX,
        ensures
            final(self).wf(),
            ({
                let m = old(self).leases@;
                match req.message_type {
                    DhcpMessageType::Discover => {
                        &&& final(self).leases@ == m
                        &&& r == spec_discover(m, *req, now, old(self).last_lease).0
                        &&& final(self).last_lease == spec_discover(
                            m,
                            *req,
                            now,
                            old(self).last_lease,
                        ).1
                    },
                    DhcpMessageType::Request => {
                        if !req.for_this_server {
                            r == DhcpAction::Ignore && *final(self) == *old(self)
                        } else {
                            let req_ip = spec_requested_ip(*req);
                            if spec_available(m, req.chaddr, req_ip, now) {
                                &&& r == DhcpAction::Ack(req_ip)
                                &&& final(self).leases@ == m.insert(
                                    req_ip,
                                    LeaseEntry {
                                        chaddr: req.chaddr,
                                        expires_at: (now + LEASE_DURATION_SECS) as u64,
                                    },
                                )
                                &&& final(self).last_lease == old(self).last_lease
                            } else {
                                r == DhcpAction::Nak && *final(self) == *old(self)
                            }
                        }
                    },
                    DhcpMessageType::Release | DhcpMessageType::Decline => {
                        if !req.for_this_server {
                            r == DhcpAction::Ignore && *final(self) == *old(self)
                        } else {
                            r == DhcpAction::Ignore && final(self).last_lease == old(
                                self,
                            ).last_lease && (match spec_current_lease(m, req.chaddr, 0) {
                                Some(ip) => final(self).leases@ == m.remove(ip),
                                None => final(self).leases@ == m,
                            })
                        }
                    },
                    DhcpMessageType::Other => r == DhcpAction::Ignore && *final(self) == *old(self),
                }
            }),
    {
        match req.message_type {
            DhcpMessageType::Discover => {
                if let Some(addr) = req.requested_ip {
                    if self.available(req.chaddr, addr, now) {
                        return DhcpAction::Offer(addr);
                    }
                }
                if let Some(ip) = self.current_lease(req.chaddr) {
                    return DhcpAction::Offer(ip);
                }
                match self.scan_offer(req.chaddr, now) {
                    Some(ip) => DhcpAction::Offer(ip),
                    None => DhcpAction::Ignore,
                }
            },
            DhcpMessageType::Request => {
                if !req.for_this_server {
                    return DhcpAction::Ignore;
                }
                let req_ip = match req.requested_ip {
                    Some(a) => a,
                    None => req.ciaddr,
                };
                if !self.available(req.chaddr, req_ip, now) {
                    return DhcpAction::Nak;
                }
                self.leases.insert(
                    req_ip,
                    LeaseEntry { chaddr: req.chaddr, expires_at: now + LEASE_DURATION_SECS },
                );
                DhcpAction::Ack(req_ip)
            },
            DhcpMessageType::Release | DhcpMessageType::Decline => {
                if !req.for_this_server {
                    return DhcpAction::Ignore;
                }
                if let Some(ip) = self.current_lease(req.chaddr) {
                    self.leases.remove(&ip);
                }
                DhcpAction::Ignore
            },
            DhcpMessageType::Other => DhcpAction::Ignore,
        }
    }
}

impl Default for DhcpServer {
    /// An empty lease table with the cursor at the pool start.
    fn default() -> (r: Self)
        ensures
            r.leases@ == Map::<u32, LeaseEntry>::empty(),
            r.last_lease == 0,
            r.wf(),
    {
        DhcpServer { leases: HashMap::new(), last_lease: 0 }
    }
}

} // verus!
