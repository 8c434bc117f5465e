use quick_serve::dhcp::IP_START_NUM;
use quick_serve::dhcp::LEASE_DURATION_SECS;
use quick_serve::DhcpAction;
use quick_serve::DhcpMessageType;
use quick_serve::DhcpRequest;
use quick_serve::DhcpServer;

fn discover(chaddr: u64) -> DhcpRequest {
    DhcpRequest {
        message_type: DhcpMessageType::Discover,
        requested_ip: None,
        ciaddr: 0,
        chaddr,
        for_this_server: true,
    }
}

fn request(chaddr: u64, ip: u32) -> DhcpRequest {
    DhcpRequest {
        message_type: DhcpMessageType::Request,
        requested_ip: Some(ip),
        ciaddr: 0,
        chaddr,
        for_this_server: true,
    }
}

#[test]
fn test_dhcp_discover_offers_first_free_address() {
    let mut server = DhcpServer::default();
    let action = server.handle_request(&discover(0x0a0b0c0d0e0f), 1000);
    assert_eq!(action, DhcpAction::Offer(IP_START_NUM + 1));
    // nothing is leased by a discover alone
    assert!(server.leases.is_empty());
}

#[test]
fn test_dhcp_request_grants_lease() {
    let mut server = DhcpServer::default();
    let chaddr = 0x111122223333u64;
    let ip = IP_START_NUM + 5;

    let action = server.handle_request(&request(chaddr, ip), 1000);
    assert_eq!(action, DhcpAction::Ack(ip));
    let lease = server.leases.get(&ip).expect("lease should be granted");
    assert_eq!(lease.chaddr, chaddr);
    assert_eq!(lease.expires_at, 1000 + LEASE_DURATION_SECS);

    // a discover from the same client is offered its current lease
    let action = server.handle_request(&discover(chaddr), 2000);
    assert_eq!(action, DhcpAction::Offer(ip));
}

#[test]
fn test_dhcp_taken_address_is_refused_until_expiry() {
    let mut server = DhcpServer::default();
    let ip = IP_START_NUM + 7;

    assert_eq!(server.handle_request(&request(1, ip), 1000), DhcpAction::Ack(ip));
    // another client asking for the same address within the lease is refused
    assert_eq!(server.handle_request(&request(2, ip), 2000), DhcpAction::Nak);
    // after the lease lapses the address can be taken over
    let after = 1000 + LEASE_DURATION_SECS + 1;
    assert_eq!(server.handle_request(&request(2, ip), after), DhcpAction::Ack(ip));
    assert_eq!(server.leases.get(&ip).unwrap().chaddr, 2);
}

#[test]
fn test_dhcp_release_frees_the_lease() {
    let mut server = DhcpServer::default();
    let chaddr = 42u64;
    let ip = IP_START_NUM;

    assert_eq!(server.handle_request(&request(chaddr, ip), 1000), DhcpAction::Ack(ip));
    let release = DhcpRequest {
        message_type: DhcpMessageType::Release,
        requested_ip: None,
        ciaddr: 0,
        chaddr,
        for_this_server: true,
    };
    assert_eq!(server.handle_request(&release, 1100), DhcpAction::Ignore);
    assert!(server.leases.get(&ip).is_none());
}

#[test]
fn test_dhcp_outside_pool_is_refused() {
    let mut server = DhcpServer::default();
    assert_eq!(server.handle_request(&request(1, IP_START_NUM - 1), 1000), DhcpAction::Nak);
    assert_eq!(
        server.handle_request(&request(1, IP_START_NUM + 100), 1000),
        DhcpAction::Nak
    );
}

#[test]
fn test_dhcp_foreign_server_requests_are_ignored() {
    let mut server = DhcpServer::default();
    let mut req = request(1, IP_START_NUM);
    req.for_this_server = false;
    assert_eq!(server.handle_request(&req, 1000), DhcpAction::Ignore);
    assert!(server.leases.is_empty());
}

#[test]
fn test_dhcp_offers_rotate_past_taken_addresses() {
    let mut server = DhcpServer::default();
    // lease the first two pool addresses to other clients
    assert_eq!(
        server.handle_request(&request(1, IP_START_NUM + 1), 1000),
        DhcpAction::Ack(IP_START_NUM + 1)
    );
    assert_eq!(
        server.handle_request(&request(2, IP_START_NUM + 2), 1000),
        DhcpAction::Ack(IP_START_NUM + 2)
    );
    // a fresh discover is offered the next free address after them
    let action = server.handle_request(&discover(3), 1000);
    assert_eq!(action, DhcpAction::Offer(IP_START_NUM + 3));
}
