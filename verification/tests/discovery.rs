use reflection::client::Client;
use reflection::discovery::hostname;
use reflection::discovery::resolve;
use reflection::discovery::select_ipv4;
use reflection::discovery::select_lan_ip;
use reflection::discovery::Address;
use reflection::discovery::DiscoveryEvent;
use reflection::discovery::Interface;
use reflection::discovery::ServiceRecord;
use reflection::discovery::INSTANCE_NAME;
use reflection::discovery::PORT;
use reflection::discovery::SERVICE_TYPE;
use reflection::discovery::VERSION;
use reflection::discovery::VERSION_KEY;
use reflection::error::ApplicationError;
use reflection::error::LinkError;
use reflection::server::Server;

const V6_LINK_LOCAL: Address = Address::V6([0xfe, 0x80, 0, 0, 0, 0, 0, 0, 0, 0, 0, 0, 0, 0, 0, 1]);
const V6_LOOPBACK: Address = Address::V6([0, 0, 0, 0, 0, 0, 0, 0, 0, 0, 0, 0, 0, 0, 0, 1]);

fn no_endpoint() -> LinkError {
    LinkError::ApplicationError(ApplicationError::NoEndpoint)
}

#[test]
fn discover_takes_the_ipv4_address_of_a_resolved_service() {
    let ipv4 = [192, 168, 1, 20];
    let events = vec![DiscoveryEvent::Resolved(vec![V6_LINK_LOCAL, Address::V4(ipv4)])];
    assert_eq!(Client::discover(&events), Ok(ipv4));
    let events = vec![DiscoveryEvent::Resolved(vec![Address::V4(ipv4), V6_LINK_LOCAL])];
    assert_eq!(Client::discover(&events), Ok(ipv4));
}

#[test]
fn discover_skips_events_that_resolve_nothing() {
    let events = vec![
        DiscoveryEvent::Other,
        DiscoveryEvent::Other,
        DiscoveryEvent::Resolved(vec![Address::V4([10, 0, 0, 2])]),
        DiscoveryEvent::Resolved(vec![Address::V4([10, 0, 0, 3])]),
    ];
    assert_eq!(Client::discover(&events), Ok([10, 0, 0, 2]));
}

#[test]
fn discover_fails_when_the_stream_ends_unresolved() {
    assert_eq!(resolve(&DiscoveryEvent::Ended), Some(Err(no_endpoint())));
    assert_eq!(
        Client::discover(&vec![DiscoveryEvent::Ended, DiscoveryEvent::Resolved(vec![Address::V4([10, 0, 0, 2])])]),
        Err(no_endpoint())
    );
    assert_eq!(Client::discover(&vec![]), Err(no_endpoint()));
    assert_eq!(
        Client::discover(&vec![DiscoveryEvent::Other, DiscoveryEvent::Other]),
        Err(no_endpoint())
    );
}

#[test]
fn discover_lets_the_first_resolved_service_decide() {
    let events = vec![
        DiscoveryEvent::Resolved(vec![V6_LINK_LOCAL]),
        DiscoveryEvent::Resolved(vec![Address::V4([10, 0, 0, 2])]),
    ];
    assert_eq!(Client::discover(&events), Err(no_endpoint()));
    let events = vec![DiscoveryEvent::Resolved(vec![])];
    assert_eq!(Client::discover(&events), Err(no_endpoint()));
}

#[test]
fn resolve_decides_on_resolved_services_only() {
    assert_eq!(resolve(&DiscoveryEvent::Other), None);
    assert_eq!(
        resolve(&DiscoveryEvent::Resolved(vec![V6_LINK_LOCAL, Address::V4([1, 2, 3, 4])])),
        Some(Ok([1, 2, 3, 4]))
    );
    assert_eq!(resolve(&DiscoveryEvent::Resolved(vec![V6_LINK_LOCAL])), Some(Err(no_endpoint())));
}

#[test]
fn select_ipv4_takes_the_first_ipv4_address() {
    assert_eq!(select_ipv4(&vec![]), None);
    assert_eq!(select_ipv4(&vec![V6_LINK_LOCAL, V6_LOOPBACK]), None);
    assert_eq!(
        select_ipv4(&vec![
            V6_LINK_LOCAL,
            Address::V4([10, 0, 0, 1]),
            V6_LOOPBACK,
            Address::V4([10, 0, 0, 2])
        ]),
        Some([10, 0, 0, 1])
    );
    assert_eq!(select_ipv4(&vec![Address::V4([127, 0, 0, 1])]), Some([127, 0, 0, 1]));
}

#[test]
fn select_lan_ip_takes_the_first_ipv4_interface_that_is_not_loopback() {
    let interfaces = vec![
        Interface { loopback: true, address: Address::V4([127, 0, 0, 1]) },
        Interface { loopback: true, address: V6_LOOPBACK },
        Interface { loopback: false, address: V6_LINK_LOCAL },
        Interface { loopback: false, address: Address::V4([192, 168, 0, 9]) },
        Interface { loopback: false, address: Address::V4([10, 1, 1, 1]) },
    ];
    assert_eq!(select_lan_ip(&interfaces), Some([192, 168, 0, 9]));
}

#[test]
fn select_lan_ip_finds_nothing_usable() {
    assert_eq!(select_lan_ip(&vec![]), None);
    let interfaces = vec![
        Interface { loopback: true, address: Address::V4([127, 0, 0, 1]) },
        Interface { loopback: false, address: V6_LINK_LOCAL },
    ];
    assert_eq!(select_lan_ip(&interfaces), None);
}

#[test]
fn lan_ip_among_interfaces_found_or_not() {
    let found = vec![
        Interface { loopback: true, address: Address::V4([127, 0, 0, 1]) },
        Interface { loopback: false, address: Address::V4([172, 16, 0, 5]) },
    ];
    assert_eq!(Server::lan_ip_among(Ok(found)), Ok([172, 16, 0, 5]));
    assert_eq!(Server::lan_ip_among(Ok(vec![])), Err(no_endpoint()));
    let failure = std::io::Error::new(std::io::ErrorKind::Other, "no interfaces");
    assert_eq!(Server::lan_ip_among(Err(failure)), Err(LinkError::IoError));
}

#[test]
fn get_lan_ip_answers_with_an_address_or_one_of_its_two_failures() {
    match Server::get_lan_ip() {
        Ok(ip) => assert_ne!(ip[0], 127),
        Err(e) => assert!(e == no_endpoint() || e == LinkError::IoError),
    }
}

#[test]
fn hostname_is_dotted_decimal_then_local() {
    assert_eq!(hostname([192, 168, 1, 20]), "192.168.1.20.local");
    assert_eq!(hostname([0, 0, 0, 0]), "0.0.0.0.local");
    assert_eq!(hostname([255, 255, 255, 255]), "255.255.255.255.local");
    assert_eq!(hostname([10, 9, 100, 99]), "10.9.100.99.local");
    assert_eq!(hostname([1, 101, 110, 200]), "1.101.110.200.local");
}

#[test]
fn hostname_writes_every_octet_as_std_does() {
    for n in 0..=255u8 {
        assert_eq!(hostname([n, 0, n, 7]), format!("{n}.0.{n}.7.local"));
    }
}

#[test]
fn service_record_of_the_display() {
    let record = ServiceRecord::new([192, 168, 1, 20]);
    assert_eq!(record.service_type, "_reflection._tcp.local.");
    assert_eq!(record.instance_name, "reflection");
    assert_eq!(record.hostname, "192.168.1.20.local");
    assert_eq!(record.address, [192, 168, 1, 20]);
    assert_eq!(record.port, 7878);
    assert_eq!(record.properties, vec![("version".to_string(), "1.0".to_string())]);
}

#[test]
fn discovery_constants() {
    assert_eq!(PORT, 7878);
    assert_eq!(SERVICE_TYPE, "_reflection._tcp.local.");
    assert_eq!(INSTANCE_NAME, "reflection");
    assert_eq!(VERSION_KEY, "version");
    assert_eq!(VERSION, "1.0");
}
