//! Addresses, and the choice of the host's public address.

use vstd::prelude::*;
use vstd::string::*;
use crate::text::{decimal, push_decimal};

verus! {

/// An IPv4 address as its four octets, first to last.
#[derive(Clone, Copy, Debug, PartialEq, Eq, Structural)]
pub struct Ipv4Address {
    pub a: u8,
    pub b: u8,
    pub c: u8,
    pub d: u8,
}

/// An address that a resolver returned.
#[derive(Clone, Copy, Debug, PartialEq, Eq, Structural)]
pub enum IpAddress {
    V4(Ipv4Address),
    /// An IPv6 address as one 128-bit number.
    V6(u128),
}

impl Ipv4Address {
    pub fn new(a: u8, b: u8, c: u8, d: u8) -> (ip: Ipv4Address)
        ensures
            ip == (Ipv4Address { a, b, c, d }),
    {
        Ipv4Address { a, b, c, d }
    }

    /// The dotted-decimal form: the four octets in decimal, with a dot
    /// between each two.
    pub open spec fn text(self) -> Seq<char> {
        decimal(self.a as nat) + seq!['.'] + decimal(self.b as nat) + seq!['.'] + decimal(
            self.c as nat,
        ) + seq!['.'] + decimal(self.d as nat)
    }

    /// The address in dotted-decimal form.
    pub fn to_text(&self) -> (text: String)
        ensures
            text@ == self.text(),
    {
        proof {
            reveal_strlit(".");
        }
        let mut text = String::new();
        push_decimal(&mut text, self.a as u32);
        text.append(".");
        push_decimal(&mut text, self.b as u32);
        text.append(".");
        push_decimal(&mut text, self.c as u32);
        text.append(".");
        push_decimal(&mut text, self.d as u32);
        assert(text@ =~= self.text());
        text
    }
}

/// The query that finds the host's public address: the name to ask for, and
/// the resolver to ask.
#[derive(Clone, Debug, PartialEq, Eq)]
pub struct PublicIpQuery {
    pub server: Ipv4Address,
    pub port: u16,
    pub hostname: String,
}

/// The query for the name that OpenDNS answers with the asker's own address,
/// put to OpenDNS's resolver at 208.67.222.222, port 53.
pub fn public_ip_query() -> (query: PublicIpQuery)
    ensures
        query.server == (Ipv4Address { a: 208, b: 67, c: 222, d: 222 }),
        query.port == 53,
        query.hostname@ == "myip.opendns.com."@,
{
    PublicIpQuery {
        server: Ipv4Address::new(208, 67, 222, 222),
        port: 53,
        hostname: String::from_str("myip.opendns.com."),
    }
}

/// What became of the query.
#[derive(Debug, PartialEq, Eq)]
pub enum LookupReply {
    /// The resolver could not be set up.
    InitFailed { detail: String },
    /// The name could not be resolved.
    QueryFailed { detail: String },
    /// The addresses of the answer, in the order in which it gives them.
    Answered { addresses: Vec<IpAddress> },
}

/// Why no public address was found.
#[derive(Debug, PartialEq, Eq)]
pub enum ResolveError {
    Init { detail: String },
    Query { detail: String },
    /// The answer holds no IPv4 address.
    NoIpv4,
}

/// The model of `ResolveError`: each string is the sequence of its characters.
pub enum ResolveErrorModel {
    Init { detail: Seq<char> },
    Query { detail: Seq<char> },
    NoIpv4,
}

impl DeepView for ResolveError {
    type V = ResolveErrorModel;

    open spec fn deep_view(&self) -> ResolveErrorModel {
        match self {
            ResolveError::Init { detail } => ResolveErrorModel::Init { detail: detail@ },
            ResolveError::Query { detail } => ResolveErrorModel::Query { detail: detail@ },
            ResolveError::NoIpv4 => ResolveErrorModel::NoIpv4,
        }
    }
}

impl ResolveErrorModel {
    /// The error in one line: what failed and, where it is known, why.
    pub open spec fn message(self) -> Seq<char> {
        match self {
            ResolveErrorModel::Init { detail } => "Failed to initialize resolver: "@ + detail,
            ResolveErrorModel::Query { detail } => "Failed to resolve IP address: "@ + detail,
            ResolveErrorModel::NoIpv4 => "No IPv4 addresses returned"@,
        }
    }
}

impl ResolveError {
    /// The error in one line.
    pub fn message(&self) -> (text: String)
        ensures
            text@ == self.deep_view().message(),
    {
        match self {
            ResolveError::Init { detail } => {
                let mut text = String::from_str("Failed to initialize resolver: ");
                text.append(detail.as_str());
                text
            },
            ResolveError::Query { detail } => {
                let mut text = String::from_str("Failed to resolve IP address: ");
                text.append(detail.as_str());
                text
            },
            ResolveError::NoIpv4 => String::from_str("No IPv4 addresses returned"),
        }
    }
}

/// The IPv4 addresses among `addresses`, in their order.
pub open spec fn ipv4_only(addresses: Seq<IpAddress>) -> Seq<Ipv4Address>
    decreases addresses.len(),
{
    if addresses.len() == 0 {
        Seq::empty()
    } else {
        match addresses[0] {
            IpAddress::V4(ip) => seq![ip] + ipv4_only(addresses.skip(1)),
            IpAddress::V6(_) => ipv4_only(addresses.skip(1)),
        }
    }
}

/// The address that is chosen among `addresses`: the first of the IPv4
/// addresses, if there is one.
pub open spec fn chosen_ipv4(addresses: Seq<IpAddress>) -> Option<Ipv4Address> {
    if ipv4_only(addresses).len() >= 1 {
        Some(ipv4_only(addresses)[0])
    } else {
        None
    }
}

/// The address that an answer stands for, or the error that the reply
/// stands for.
pub open spec fn public_ip_of(reply: LookupReply) -> Result<Ipv4Address, ResolveErrorModel> {
    match reply {
        LookupReply::InitFailed { detail } => Err(ResolveErrorModel::Init { detail: detail@ }),
        LookupReply::QueryFailed { detail } => Err(ResolveErrorModel::Query { detail: detail@ }),
        LookupReply::Answered { addresses } => match chosen_ipv4(addresses@) {
            Some(ip) => Ok(ip),
            None => Err(ResolveErrorModel::NoIpv4),
        },
    }
}

/// Chooses the first IPv4 address among `addresses`.
pub fn select_ipv4(addresses: &Vec<IpAddress>) -> (chosen: Option<Ipv4Address>)
    ensures
        chosen == chosen_ipv4(addresses@),
{
    let mut i: usize = 0;
    assert(addresses@.skip(0) =~= addresses@);
    while i < addresses.len()
        invariant
            i <= addresses.len(),
            ipv4_only(addresses@) == ipv4_only(addresses@.skip(i as int)),
        decreases addresses.len() - i,
    {
        let ghost rest = addresses@.skip(i as int);
        assert(rest[0] == addresses@[i as int]);
        assert(rest.skip(1) =~= addresses@.skip(i + 1));
        match addresses[i] {
            IpAddress::V4(ip) => {
                return Some(ip);
            },
            IpAddress::V6(_) => {},
        }
        i += 1;
    }
    assert(addresses@.skip(i as int).len() == 0);
    None
}

/// Gives the host's public address as the reply to the query shows it.
pub fn resolve_public_ip(reply: LookupReply) -> (resolved: Result<Ipv4Address, ResolveError>)
    ensures
        match resolved {
            Ok(ip) => public_ip_of(reply) == Ok::<Ipv4Address, ResolveErrorModel>(ip),
            Err(error) => public_ip_of(reply) == Err::<Ipv4Address, ResolveErrorModel>(
                error.deep_view(),
            ),
        },
{
    match reply {
        LookupReply::InitFailed { detail } => Err(ResolveError::Init { detail }),
        LookupReply::QueryFailed { detail } => Err(ResolveError::Query { detail }),
        LookupReply::Answered { addresses } => match select_ipv4(&addresses) {
            Some(ip) => Ok(ip),
            None => Err(ResolveError::NoIpv4),
        },
    }
}

/// Only IPv4 addresses are chosen from: what is chosen from a list is what
/// is chosen from its IPv4 addresses alone, and that is their first. A list
/// without one, empty or not, gives nothing.
pub proof fn law_first_ipv4_is_chosen(addresses: Seq<IpAddress>)
    ensures
        ipv4_only(addresses).len() >= 1 ==> chosen_ipv4(addresses) == Some(
            ipv4_only(addresses)[0],
        ),
        ipv4_only(addresses).len() == 0 ==> chosen_ipv4(addresses).is_none(),
        chosen_ipv4(addresses).is_none() <==> forall|i: int|
            0 <= i < addresses.len() ==> !(#[trigger] addresses[i] is V4),
        forall|ip: Ipv4Address|
            chosen_ipv4(addresses) == Some(ip) ==> exists|i: int|
                0 <= i < addresses.len() && #[trigger] addresses[i] == IpAddress::V4(ip) && forall|
                    j: int,
                |
                    0 <= j < i ==> !(#[trigger] addresses[j] is V4),
    decreases addresses.len(),
{
    if addresses.len() > 0 {
        let rest = addresses.skip(1);
        law_first_ipv4_is_chosen(rest);
        assert(forall|i: int| 0 <= i < rest.len() ==> rest[i] == addresses[i + 1]);
        match addresses[0] {
            IpAddress::V4(ip) => {
                assert(addresses[0] is V4);
                assert(addresses[0] == IpAddress::V4(ip));
            },
            IpAddress::V6(_) => {
                if chosen_ipv4(rest).is_none() {
                    assert forall|i: int| 0 <= i < addresses.len() implies !(
                    #[trigger] addresses[i] is V4) by {
                        if i > 0 {
                            assert(rest[i - 1] == addresses[i]);
                        }
                    }
                } else {
                    let ip = chosen_ipv4(rest).unwrap();
                    let k = choose|k: int|
                        0 <= k < rest.len() && #[trigger] rest[k] == IpAddress::V4(ip) && forall|
                            j: int,
                        |
                            0 <= j < k ==> !(#[trigger] rest[j] is V4);
                    assert(addresses[k + 1] == IpAddress::V4(ip));
                    assert(addresses[k + 1] is V4);
                    assert forall|j: int| 0 <= j < k + 1 implies !(
                    #[trigger] addresses[j] is V4) by {
                        if j > 0 {
                            assert(rest[j - 1] == addresses[j]);
                        }
                    }
                }
            },
        }
    }
}

} // verus!
