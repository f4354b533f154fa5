//! Service discovery on the local network: what is advertised, which local
//! address it is advertised on, and which resolved address a seeker takes.

use crate::error::ApplicationError;
use crate::error::LinkError;
use crate::error::Res;
use vstd::prelude::*;
use vstd::string::StringExecFns;

verus! {

/// The port on which the display listens.
pub const PORT: u16 = 7878;

/// The service type under which the display is advertised and sought.
pub const SERVICE_TYPE: &'static str = "_reflection._tcp.local.";

/// The instance name of the advertised service.
pub const INSTANCE_NAME: &'static str = "reflection";

/// Key of the one advertised property.
pub const VERSION_KEY: &'static str = "version";

/// Value of the one advertised property.
pub const VERSION: &'static str = "1.0";

/// An IP address by its octets.
#[derive(Clone, Copy, Debug, PartialEq, Eq)]
pub enum Address {
    V4([u8; 4]),
    V6([u8; 16]),
}

/// One address of one local network interface.
#[derive(Clone, Copy, Debug, PartialEq, Eq)]
pub struct Interface {
    pub loopback: bool,
    pub address: Address,
}

/// An interface that a service can be advertised on: IPv4 and not loopback.
pub open spec fn usable(interface: Interface) -> bool {
    !interface.loopback && interface.address is V4
}

/// A loopback address: one of 127.0.0.0/8 for IPv4, `::1` for IPv6.
pub open spec fn is_loopback_address(address: Address) -> bool {
    match address {
        Address::V4(ip) => ip[0] == 127,
        Address::V6(ip) => ip@ == seq![0u8, 0, 0, 0, 0, 0, 0, 0, 0, 0, 0, 0, 0, 0, 0, 1],
    }
}

/// The interface is marked loopback exactly if its address is a loopback
/// address.
pub open spec fn faithful(interface: Interface) -> bool {
    interface.loopback == is_loopback_address(interface.address)
}

/// Every interface of the list is marked as its address says.
pub open spec fn all_faithful(interfaces: Seq<Interface>) -> bool {
    forall|i: int| 0 <= i < interfaces.len() ==> faithful(#[trigger] interfaces[i])
}

/// The address of the first usable interface, if there is one.
pub open spec fn lan_ip(interfaces: Seq<Interface>) -> Option<[u8; 4]>
    decreases interfaces.len(),
{
    if interfaces.len() == 0 {
        None
    } else if usable(interfaces[0]) {
        Some(interfaces[0].address->V4_0)
    } else {
        lan_ip(interfaces.drop_first())
    }
}

/// The first IPv4 address among `addresses`, if there is one.
pub open spec fn first_ipv4(addresses: Seq<Address>) -> Option<[u8; 4]>
    decreases addresses.len(),
{
    if addresses.len() == 0 {
        None
    } else if addresses[0] is V4 {
        Some(addresses[0]->V4_0)
    } else {
        first_ipv4(addresses.drop_first())
    }
}

/// `first_ipv4` skips what is not IPv4 and takes the first that is: it answers
/// `Some(ip)` exactly when some position holds `ip` as IPv4 and no position
/// before it holds an IPv4 address, and `None` exactly when there is no IPv4
/// address at all.
pub proof fn lemma_first_ipv4(addresses: Seq<Address>)
    ensures
        match first_ipv4(addresses) {
            Some(ip) => exists|i: int|
                0 <= i < addresses.len() && #[trigger] addresses[i] == Address::V4(ip) && forall|
                    j: int,
                | 0 <= j < i ==> !(#[trigger] addresses[j] is V4),
            None => forall|i: int| 0 <= i < addresses.len() ==> !(#[trigger] addresses[i] is V4),
        },
    decreases addresses.len(),
{
    if addresses.len() == 0 {
    } else if addresses[0] is V4 {
        assert(addresses[0] == Address::V4(addresses[0]->V4_0));
    } else {
        let rest = addresses.drop_first();
        lemma_first_ipv4(rest);
        match first_ipv4(rest) {
            Some(ip) => {
                let i = choose|i: int|
                    0 <= i < rest.len() && #[trigger] rest[i] == Address::V4(ip) && forall|j: int|
                        0 <= j < i ==> !(#[trigger] rest[j] is V4);
                assert(addresses[i + 1] == rest[i]);
                assert forall|j: int| 0 <= j < i + 1 implies !(#[trigger] addresses[j] is V4) by {
                    if j > 0 {
                        assert(addresses[j] == rest[j - 1]);
                    }
                }
            },
            None => {
                assert forall|i: int| 0 <= i < addresses.len() implies !(
                #[trigger] addresses[i] is V4) by {
                    if i > 0 {
                        assert(addresses[i] == rest[i - 1]);
                    }
                }
            },
        }
    }
}

/// `lan_ip` takes the first usable interface: it answers `Some(ip)` exactly
/// when some interface is usable with the address `ip` and none before it is
/// usable, and `None` exactly when no interface is usable.
pub proof fn lemma_lan_ip(interfaces: Seq<Interface>)
    ensures
        match lan_ip(interfaces) {
            Some(ip) => exists|i: int|
                0 <= i < interfaces.len() && usable(#[trigger] interfaces[i])
                    && interfaces[i].address == Address::V4(ip) && forall|j: int|
                    0 <= j < i ==> !usable(#[trigger] interfaces[j]),
            None => forall|i: int| 0 <= i < interfaces.len() ==> !usable(#[trigger] interfaces[i]),
        },
    decreases interfaces.len(),
{
    if interfaces.len() == 0 {
    } else if usable(interfaces[0]) {
        assert(interfaces[0].address == Address::V4(interfaces[0].address->V4_0));
    } else {
        let rest = interfaces.drop_first();
        lemma_lan_ip(rest);
        match lan_ip(rest) {
            Some(ip) => {
                let i = choose|i: int|
                    0 <= i < rest.len() && usable(#[trigger] rest[i]) && rest[i].address
                        == Address::V4(ip) && forall|j: int|
                        0 <= j < i ==> !usable(#[trigger] rest[j]);
                assert(interfaces[i + 1] == rest[i]);
                assert forall|j: int| 0 <= j < i + 1 implies !usable(#[trigger] interfaces[j]) by {
                    if j > 0 {
                        assert(interfaces[j] == rest[j - 1]);
                    }
                }
            },
            None => {
                assert forall|i: int| 0 <= i < interfaces.len() implies !usable(
                    #[trigger] interfaces[i],
                ) by {
                    if i > 0 {
                        assert(interfaces[i] == rest[i - 1]);
                    }
                }
            },
        }
    }
}

/// Among interfaces that are marked as their addresses say, the address
/// picked for advertising is not a loopback address.
pub proof fn lemma_lan_ip_is_not_loopback(interfaces: Seq<Interface>)
    requires
        all_faithful(interfaces),
    ensures
        lan_ip(interfaces) matches Some(ip) ==> !is_loopback_address(Address::V4(ip)),
{
    lemma_lan_ip(interfaces);
}

/// Picks the address to advertise on: that of the first interface that is
/// IPv4 and not loopback.
pub fn select_lan_ip(interfaces: &Vec<Interface>) -> (r: Option<[u8; 4]>)
    ensures
        r == lan_ip(interfaces@),
{
    let mut i: usize = 0;
    assert(interfaces@.subrange(0, interfaces@.len() as int) =~= interfaces@);
    while i < interfaces.len()
        invariant
            i <= interfaces@.len(),
            lan_ip(interfaces@) == lan_ip(interfaces@.subrange(i as int, interfaces@.len() as int)),
        decreases interfaces@.len() - i,
    {
        let ghost rest = interfaces@.subrange(i as int, interfaces@.len() as int);
        assert(rest[0] == interfaces@[i as int]);
        assert(rest.drop_first() =~= interfaces@.subrange(i + 1, interfaces@.len() as int));
        let interface = &interfaces[i];
        if !interface.loopback {
            match interface.address {
                Address::V4(ip) => {
                    return Some(ip);
                },
                Address::V6(_) => {},
            }
        }
        i = i + 1;
    }
    None
}

/// Picks the address to connect to: the first IPv4 one. Others are skipped.
pub fn select_ipv4(addresses: &Vec<Address>) -> (r: Option<[u8; 4]>)
    ensures
        r == first_ipv4(addresses@),
{
    let mut i: usize = 0;
    assert(addresses@.subrange(0, addresses@.len() as int) =~= addresses@);
    while i < addresses.len()
        invariant
            i <= addresses@.len(),
            first_ipv4(addresses@) == first_ipv4(
                addresses@.subrange(i as int, addresses@.len() as int),
            ),
        decreases addresses@.len() - i,
    {
        let ghost rest = addresses@.subrange(i as int, addresses@.len() as int);
        assert(rest[0] == addresses@[i as int]);
        assert(rest.drop_first() =~= addresses@.subrange(i + 1, addresses@.len() as int));
        match addresses[i] {
            Address::V4(ip) => {
                return Some(ip);
            },
            Address::V6(_) => {},
        }
        i = i + 1;
    }
    None
}

/// What a browse session reports, as far as a seeker cares.
#[derive(Clone, Debug, PartialEq, Eq)]
pub enum DiscoveryEvent {
    /// A service of the sought type was resolved to these addresses.
    Resolved(Vec<Address>),
    /// Anything else: a search started or stopped, a service was found or
    /// removed.
    Other,
    /// The browse session is over: no event will follow.
    Ended,
}

pub enum DiscoveryEventView {
    Resolved(Seq<Address>),
    Other,
    Ended,
}

impl View for DiscoveryEvent {
    type V = DiscoveryEventView;

    open spec fn view(&self) -> DiscoveryEventView {
        match self {
            DiscoveryEvent::Resolved(addresses) => DiscoveryEventView::Resolved(addresses@),
            DiscoveryEvent::Other => DiscoveryEventView::Other,
            DiscoveryEvent::Ended => DiscoveryEventView::Ended,
        }
    }
}

/// What a seeker makes of one event: nothing yet (`None`), or its answer. The
/// first resolved service decides, with its first IPv4 address or, if it has
/// none, with `NoEndpoint`. The end of the session decides with `NoEndpoint`.
pub open spec fn resolution(event: DiscoveryEventView) -> Option<Res<[u8; 4]>> {
    match event {
        DiscoveryEventView::Resolved(addresses) => Some(
            match first_ipv4(addresses) {
                Some(ip) => Ok(ip),
                None => Err(LinkError::ApplicationError(ApplicationError::NoEndpoint)),
            },
        ),
        DiscoveryEventView::Other => None,
        DiscoveryEventView::Ended => Some(
            Err(LinkError::ApplicationError(ApplicationError::NoEndpoint)),
        ),
    }
}

/// What a seeker answers to a whole stream of events that then ends: what the
/// first deciding event gives, and `NoEndpoint` if none decides.
pub open spec fn discovery_outcome(events: Seq<DiscoveryEventView>) -> Res<[u8; 4]>
    decreases events.len(),
{
    if events.len() == 0 {
        Err(LinkError::ApplicationError(ApplicationError::NoEndpoint))
    } else {
        match resolution(events[0]) {
            Some(answer) => answer,
            None => discovery_outcome(events.drop_first()),
        }
    }
}

/// The views of the events in `events`, in order.
pub open spec fn event_views(events: Seq<DiscoveryEvent>) -> Seq<DiscoveryEventView> {
    Seq::new(events.len(), |i: int| events[i]@)
}

/// Decides on one event of a browse session.
pub fn resolve(event: &DiscoveryEvent) -> (r: Option<Res<[u8; 4]>>)
    ensures
        r == resolution(event@),
{
    match event {
        DiscoveryEvent::Resolved(addresses) => Some(
            match select_ipv4(addresses) {
                Some(ip) => Ok(ip),
                None => Err(LinkError::ApplicationError(ApplicationError::NoEndpoint)),
            },
        ),
        DiscoveryEvent::Other => None,
        DiscoveryEvent::Ended => Some(
            Err(LinkError::ApplicationError(ApplicationError::NoEndpoint)),
        ),
    }
}

pub open spec fn digit(d: int) -> char {
    if d == 0 {
        '0'
    } else if d == 1 {
        '1'
    } else if d == 2 {
        '2'
    } else if d == 3 {
        '3'
    } else if d == 4 {
        '4'
    } else if d == 5 {
        '5'
    } else if d == 6 {
        '6'
    } else if d == 7 {
        '7'
    } else if d == 8 {
        '8'
    } else {
        '9'
    }
}

/// An octet in decimal, without leading zeros.
pub open spec fn decimal(n: u8) -> Seq<char> {
    if n >= 100 {
        seq![digit(n as int / 100), digit(n as int / 10 % 10), digit(n as int % 10)]
    } else if n >= 10 {
        seq![digit(n as int / 10), digit(n as int % 10)]
    } else {
        seq![digit(n as int)]
    }
}

/// An IPv4 address in dotted decimal.
pub open spec fn dotted(ip: [u8; 4]) -> Seq<char> {
    decimal(ip[0]) + seq!['.'] + decimal(ip[1]) + seq!['.'] + decimal(ip[2]) + seq!['.']
        + decimal(ip[3])
}

/// The host name advertised for an address: the address in dotted decimal,
/// then `.local`.
pub open spec fn hostname_of(ip: [u8; 4]) -> Seq<char> {
    dotted(ip) + seq!['.', 'l', 'o', 'c', 'a', 'l']
}

fn digit_text(d: u8) -> (r: &'static str)
    requires
        d < 10,
    ensures
        r@ == seq![digit(d as int)],
{
    proof {
        reveal_strlit("0");
        reveal_strlit("1");
        reveal_strlit("2");
        reveal_strlit("3");
        reveal_strlit("4");
        reveal_strlit("5");
        reveal_strlit("6");
        reveal_strlit("7");
        reveal_strlit("8");
        reveal_strlit("9");
    }
    let r = if d == 0 {
        "0"
    } else if d == 1 {
        "1"
    } else if d == 2 {
        "2"
    } else if d == 3 {
        "3"
    } else if d == 4 {
        "4"
    } else if d == 5 {
        "5"
    } else if d == 6 {
        "6"
    } else if d == 7 {
        "7"
    } else if d == 8 {
        "8"
    } else {
        "9"
    };
    assert(r@ =~= seq![digit(d as int)]);
    r
}

fn push_decimal(text: &mut String, n: u8)
    ensures
        final(text)@ == old(text)@ + decimal(n),
{
    if n >= 100 {
        text.append(digit_text(n / 100));
        text.append(digit_text(n / 10 % 10));
        text.append(digit_text(n % 10));
    } else if n >= 10 {
        text.append(digit_text(n / 10));
        text.append(digit_text(n % 10));
    } else {
        text.append(digit_text(n));
    }
    assert(text@ =~= old(text)@ + decimal(n));
}

/// The host name advertised for an address.
pub fn hostname(ip: [u8; 4]) -> (r: String)
    ensures
        r@ == hostname_of(ip),
{
    proof {
        reveal_strlit(".");
        reveal_strlit(".local");
    }
    let mut text = String::new();
    push_decimal(&mut text, ip[0]);
    text.append(".");
    push_decimal(&mut text, ip[1]);
    text.append(".");
    push_decimal(&mut text, ip[2]);
    text.append(".");
    push_decimal(&mut text, ip[3]);
    text.append(".local");
    assert("."@ =~= seq!['.']);
    assert(".local"@ =~= seq!['.', 'l', 'o', 'c', 'a', 'l']);
    assert(text@ =~= hostname_of(ip));
    text
}

/// What a responder advertises.
#[derive(Clone, Debug, PartialEq, Eq)]
pub struct ServiceRecord {
    pub service_type: String,
    pub instance_name: String,
    pub hostname: String,
    pub address: [u8; 4],
    pub port: u16,
    pub properties: Vec<(String, String)>,
}

impl ServiceRecord {
    /// This is the record of the display service at `ip`.
    pub open spec fn advertises(&self, ip: [u8; 4]) -> bool {
        &&& self.service_type@ == SERVICE_TYPE@
        &&& self.instance_name@ == INSTANCE_NAME@
        &&& self.hostname@ == hostname_of(ip)
        &&& self.address == ip
        &&& self.port == PORT
        &&& self.properties@.len() == 1
        &&& self.properties@[0].0@ == VERSION_KEY@
        &&& self.properties@[0].1@ == VERSION@
    }

    /// The record of the display service at `ip`.
    pub fn new(ip: [u8; 4]) -> (record: ServiceRecord)
        ensures
            record.advertises(ip),
    {
        let mut properties: Vec<(String, String)> = Vec::new();
        properties.push((String::from_str(VERSION_KEY), String::from_str(VERSION)));
        ServiceRecord {
            service_type: String::from_str(SERVICE_TYPE),
            instance_name: String::from_str(INSTANCE_NAME),
            hostname: hostname(ip),
            address: ip,
            port: PORT,
            properties,
        }
    }
}

} // verus!
