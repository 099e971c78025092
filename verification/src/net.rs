//! IP addresses and networks as held in SMF `net_address*` values, with their
//! text forms.

use vstd::prelude::*;

use crate::text::dec_nat;
use crate::text::push_char;
use crate::text::push_dec_u64;
use crate::text::push_str;

verus! {

/// An IPv4 address, by its four octets in network order.
#[derive(Debug, Clone, Copy, PartialEq, Eq, PartialOrd, Ord, Hash)]
pub struct Ipv4Address {
    pub octets: [u8; 4],
}

/// An IPv6 address, by its eight 16-bit segments in network order.
#[derive(Debug, Clone, Copy, PartialEq, Eq, PartialOrd, Ord, Hash)]
pub struct Ipv6Address {
    pub segments: [u16; 8],
}

/// An IPv4 or IPv6 address.
#[derive(Debug, Clone, Copy, PartialEq, Eq, PartialOrd, Ord, Hash)]
pub enum IpAddress {
    V4(Ipv4Address),
    V6(Ipv6Address),
}

/// An IPv4 network: a base address and a prefix width of at most 32.
#[derive(Debug, Clone, Copy, PartialEq, Eq, PartialOrd, Ord, Hash)]
pub struct Ipv4Network {
    addr: Ipv4Address,
    width: u8,
}

/// An IPv6 network: a base address and a prefix width of at most 128.
#[derive(Debug, Clone, Copy, PartialEq, Eq, PartialOrd, Ord, Hash)]
pub struct Ipv6Network {
    addr: Ipv6Address,
    width: u8,
}

/// An IPv4 or IPv6 network.
#[derive(Debug, Clone, Copy, PartialEq, Eq, PartialOrd, Ord, Hash)]
pub enum IpNetwork {
    V4(Ipv4Network),
    V6(Ipv6Network),
}

/// Widest prefix of an IPv4 network.
pub const IPV4_NET_WIDTH_MAX: u8 = 32;

/// Widest prefix of an IPv6 network.
pub const IPV6_NET_WIDTH_MAX: u8 = 128;

impl Ipv4Network {
    #[verifier::type_invariant]
    spec fn width_in_range(self) -> bool {
        self.width <= IPV4_NET_WIDTH_MAX
    }

    /// The base address of this network.
    pub closed spec fn spec_addr(self) -> Ipv4Address {
        self.addr
    }

    /// The prefix width of this network.
    pub closed spec fn spec_width(self) -> u8 {
        self.width
    }

    /// A network from its base address and prefix width; `None` when the
    /// width is above 32.
    pub fn new(addr: Ipv4Address, width: u8) -> (res: Option<Self>)
        ensures
            res is Some <==> width <= IPV4_NET_WIDTH_MAX,
            res matches Some(n) ==> n.spec_addr() == addr && n.spec_width() == width,
    {
        if width > IPV4_NET_WIDTH_MAX {
            None
        } else {
            Some(Ipv4Network { addr, width })
        }
    }

    /// The base address of this network.
    pub fn addr(&self) -> (a: Ipv4Address)
        ensures
            a == self.spec_addr(),
    {
        self.addr
    }

    /// The prefix width of this network.
    pub fn width(&self) -> (w: u8)
        ensures
            w == self.spec_width(),
            w <= IPV4_NET_WIDTH_MAX,
    {
        proof {
            use_type_invariant(self);
        }
        self.width
    }
}

impl Ipv6Network {
    #[verifier::type_invariant]
    spec fn width_in_range(self) -> bool {
        self.width <= IPV6_NET_WIDTH_MAX
    }

    /// The base address of this network.
    pub closed spec fn spec_addr(self) -> Ipv6Address {
        self.addr
    }

    /// The prefix width of this network.
    pub closed spec fn spec_width(self) -> u8 {
        self.width
    }

    /// A network from its base address and prefix width; `None` when the
    /// width is above 128.
    pub fn new(addr: Ipv6Address, width: u8) -> (res: Option<Self>)
        ensures
            res is Some <==> width <= IPV6_NET_WIDTH_MAX,
            res matches Some(n) ==> n.spec_addr() == addr && n.spec_width() == width,
    {
        if width > IPV6_NET_WIDTH_MAX {
            None
        } else {
            Some(Ipv6Network { addr, width })
        }
    }

    /// The base address of this network.
    pub fn addr(&self) -> (a: Ipv6Address)
        ensures
            a == self.spec_addr(),
    {
        self.addr
    }

    /// The prefix width of this network.
    pub fn width(&self) -> (w: u8)
        ensures
            w == self.spec_width(),
            w <= IPV6_NET_WIDTH_MAX,
    {
        proof {
            use_type_invariant(self);
        }
        self.width
    }
}

// ---------------------------------------------------------------------------
// Text forms.

/// Dotted-decimal text of an IPv4 address, as the standard library displays
/// `Ipv4Addr`: the four octets in decimal joined by `.`.
pub open spec fn ipv4_text(a: Ipv4Address) -> Seq<char> {
    dec_nat(a.octets@[0] as nat) + seq!['.'] + dec_nat(a.octets@[1] as nat) + seq!['.']
        + dec_nat(a.octets@[2] as nat) + seq!['.'] + dec_nat(a.octets@[3] as nat)
}

/// What the standard library's `Display` of `Ipv6Addr` writes for the address
/// with these segments.
pub uninterp spec fn ipv6_text(segments: Seq<u16>) -> Seq<char>;

/// Text of an IP address: that of its IPv4 or IPv6 form.
pub open spec fn ip_text(a: IpAddress) -> Seq<char> {
    match a {
        IpAddress::V4(a) => ipv4_text(a),
        IpAddress::V6(a) => ipv6_text(a.segments@),
    }
}

/// Text of an IPv4 network, as `oxnet` displays `Ipv4Net`: `{addr}/{width}`.
pub open spec fn ipv4_net_text(n: Ipv4Network) -> Seq<char> {
    ipv4_text(n.spec_addr()) + seq!['/'] + dec_nat(n.spec_width() as nat)
}

/// Text of an IPv6 network, as `oxnet` displays `Ipv6Net`: `{addr}/{width}`.
pub open spec fn ipv6_net_text(n: Ipv6Network) -> Seq<char> {
    ipv6_text(n.spec_addr().segments@) + seq!['/'] + dec_nat(n.spec_width() as nat)
}

/// Text of an IP network: that of its IPv4 or IPv6 form.
pub open spec fn ip_net_text(n: IpNetwork) -> Seq<char> {
    match n {
        IpNetwork::V4(n) => ipv4_net_text(n),
        IpNetwork::V6(n) => ipv6_net_text(n),
    }
}

/// Calls the standard library's `Display` of `Ipv6Addr` (RFC 5952 text with
/// the longest run of zero segments compressed). The contract only names
/// the result.
#[verifier::external_body]
fn ipv6_display(segments: [u16; 8]) -> (s: String)
    ensures
        s@ == ipv6_text(segments@),
{
    core::net::Ipv6Addr::from(segments).to_string()
}

impl Ipv4Address {
    /// Appends the dotted-decimal text of this address to `s`.
    pub fn push_text(&self, s: &mut String)
        ensures
            final(s)@ == old(s)@ + ipv4_text(*self),
    {
        push_dec_u64(s, self.octets[0] as u64);
        push_char(s, '.');
        push_dec_u64(s, self.octets[1] as u64);
        push_char(s, '.');
        push_dec_u64(s, self.octets[2] as u64);
        push_char(s, '.');
        push_dec_u64(s, self.octets[3] as u64);
        assert(final(s)@ =~= old(s)@ + ipv4_text(*self));
    }

    /// The dotted-decimal text of this address.
    pub fn to_text(&self) -> (s: String)
        ensures
            s@ == ipv4_text(*self),
    {
        let mut s = String::new();
        self.push_text(&mut s);
        assert(s@ =~= ipv4_text(*self));
        s
    }
}

impl Ipv6Address {
    /// Appends the standard text of this address to `s`.
    pub fn push_text(&self, s: &mut String)
        ensures
            final(s)@ == old(s)@ + ipv6_text(self.segments@),
    {
        let t = ipv6_display(self.segments);
        push_str(s, t.as_str());
    }

    /// The standard text of this address.
    pub fn to_text(&self) -> (s: String)
        ensures
            s@ == ipv6_text(self.segments@),
    {
        ipv6_display(self.segments)
    }
}

impl IpAddress {
    /// Appends the text of this address to `s`.
    pub fn push_text(&self, s: &mut String)
        ensures
            final(s)@ == old(s)@ + ip_text(*self),
    {
        match self {
            IpAddress::V4(a) => a.push_text(s),
            IpAddress::V6(a) => a.push_text(s),
        }
    }

    /// The text of this address.
    pub fn to_text(&self) -> (s: String)
        ensures
            s@ == ip_text(*self),
    {
        let mut s = String::new();
        self.push_text(&mut s);
        assert(s@ =~= ip_text(*self));
        s
    }
}

impl Ipv4Network {
    /// Appends `{addr}/{width}` to `s`.
    pub fn push_text(&self, s: &mut String)
        ensures
            final(s)@ == old(s)@ + ipv4_net_text(*self),
    {
        self.addr().push_text(s);
        push_char(s, '/');
        push_dec_u64(s, self.width() as u64);
        assert(final(s)@ =~= old(s)@ + ipv4_net_text(*self));
    }
}

impl Ipv6Network {
    /// Appends `{addr}/{width}` to `s`.
    pub fn push_text(&self, s: &mut String)
        ensures
            final(s)@ == old(s)@ + ipv6_net_text(*self),
    {
        self.addr().push_text(s);
        push_char(s, '/');
        push_dec_u64(s, self.width() as u64);
        assert(final(s)@ =~= old(s)@ + ipv6_net_text(*self));
    }
}

impl IpNetwork {
    /// Appends `{addr}/{width}` to `s`.
    pub fn push_text(&self, s: &mut String)
        ensures
            final(s)@ == old(s)@ + ip_net_text(*self),
    {
        match self {
            IpNetwork::V4(n) => n.push_text(s),
            IpNetwork::V6(n) => n.push_text(s),
        }
    }
}

// ---------------------------------------------------------------------------
// Parsing.

/// The IPv4 address whose dotted-decimal text is `s`, if there is one: the
/// standard library's `FromStr` of `Ipv4Addr` accepts exactly four decimal
/// octets of at most 255, each without leading zeros, joined by `.`.
pub open spec fn ipv4_parse(s: Seq<char>) -> Option<Ipv4Address> {
    if exists|a: Ipv4Address| ipv4_text(a) == s {
        Some(choose|a: Ipv4Address| ipv4_text(a) == s)
    } else {
        None
    }
}

/// What the standard library's `FromStr` of `Ipv6Addr` gives for this text.
pub uninterp spec fn ipv6_parse(s: Seq<char>) -> Option<Ipv6Address>;

/// What the standard library's `FromStr` of `IpAddr` gives for this text.
pub uninterp spec fn ip_parse(s: Seq<char>) -> Option<IpAddress>;

/// The prefix width of `n` is one its address family allows.
pub open spec fn ip_net_width_ok(n: IpNetwork) -> bool {
    match n {
        IpNetwork::V4(n) => n.spec_width() <= IPV4_NET_WIDTH_MAX,
        IpNetwork::V6(n) => n.spec_width() <= IPV6_NET_WIDTH_MAX,
    }
}

/// What `oxnet`'s `FromStr` of `Ipv4Net` gives for this text.
pub uninterp spec fn ipv4_net_parse(s: Seq<char>) -> Option<Ipv4Network>;

/// What `oxnet`'s `FromStr` of `Ipv6Net` gives for this text.
pub uninterp spec fn ipv6_net_parse(s: Seq<char>) -> Option<Ipv6Network>;

/// What `oxnet`'s `FromStr` of `IpNet` gives for this text.
pub uninterp spec fn ip_net_parse(s: Seq<char>) -> Option<IpNetwork>;

/// Calls the standard library's `FromStr` of `Ipv4Addr`, which reads exactly
/// the dotted-decimal texts (four octets in decimal, no leading zeros, joined
/// by `.`): the contract states the result as that reading, and states that
/// the text of an address reads back as that address and that a text holding
/// a `/` is not an address.
#[verifier::external_body]
pub(crate) fn parse_ipv4(s: &str) -> (res: Option<Ipv4Address>)
    ensures
        res == ipv4_parse(s@),
        forall|a: Ipv4Address| s@ == #[trigger] ipv4_text(a) ==> res == Some(a),
        s@.contains('/') ==> res is None,
{
    s.parse::<core::net::Ipv4Addr>().ok().map(|a| Ipv4Address { octets: a.octets() })
}

/// Calls the standard library's `FromStr` of `Ipv6Addr`. The contract names
/// the result and states two facts that the standard library documents: the
/// text its `Display` writes for an address (RFC 5952) reads back as that
/// address, and a text holding a `/` is not an address.
#[verifier::external_body]
pub(crate) fn parse_ipv6(s: &str) -> (res: Option<Ipv6Address>)
    ensures
        res == ipv6_parse(s@),
        forall|a: Ipv6Address| s@ == #[trigger] ipv6_text(a.segments@) ==> res == Some(a),
        s@.contains('/') ==> res is None,
{
    s.parse::<core::net::Ipv6Addr>().ok().map(|a| Ipv6Address { segments: a.segments() })
}

/// Calls the standard library's `FromStr` of `IpAddr`, which reads an IPv4
/// or an IPv6 address. The contract names the result and states the same two
/// facts as for each form: the text of an address reads back as that
/// address, and a text holding a `/` is not an address.
#[verifier::external_body]
pub(crate) fn parse_ip(s: &str) -> (res: Option<IpAddress>)
    ensures
        res == ip_parse(s@),
        forall|a: IpAddress| s@ == #[trigger] ip_text(a) ==> res == Some(a),
        s@.contains('/') ==> res is None,
{
    match s.parse::<core::net::IpAddr>() {
        Ok(core::net::IpAddr::V4(a)) => Some(IpAddress::V4(Ipv4Address { octets: a.octets() })),
        Ok(core::net::IpAddr::V6(a)) => Some(IpAddress::V6(Ipv6Address { segments: a.segments() })),
        Err(_) => None,
    }
}

/// Calls `oxnet`'s `FromStr` of `Ipv4Net`, which splits the text at its first
/// `/`, reads the prefix width as a `u8` and the address with the standard
/// library, and accepts a width of at most 32 without changing the address.
/// The contract names the result and states that the `{addr}/{width}` text of
/// a network of width at most 32 reads back as that network.
#[verifier::external_body]
pub(crate) fn parse_ipv4_net(s: &str) -> (res: Option<Ipv4Network>)
    ensures
        res == ipv4_net_parse(s@),
        forall|n: Ipv4Network|
            n.spec_width() <= IPV4_NET_WIDTH_MAX && s@ == #[trigger] ipv4_net_text(n) ==> res
                == Some(n),
{
    s.parse::<oxnet::Ipv4Net>()
        .ok()
        .map(|n| Ipv4Network { addr: Ipv4Address { octets: n.addr().octets() }, width: n.width() })
}

/// Calls `oxnet`'s `FromStr` of `Ipv6Net`, which reads `{addr}/{width}` as
/// for IPv4, accepting a width of at most 128. The contract names the result
/// and states that the text of a network of width at most 128 reads back as
/// that network.
#[verifier::external_body]
pub(crate) fn parse_ipv6_net(s: &str) -> (res: Option<Ipv6Network>)
    ensures
        res == ipv6_net_parse(s@),
        forall|n: Ipv6Network|
            n.spec_width() <= IPV6_NET_WIDTH_MAX && s@ == #[trigger] ipv6_net_text(n) ==> res
                == Some(n),
{
    s.parse::<oxnet::Ipv6Net>()
        .ok()
        .map(|n| Ipv6Network { addr: Ipv6Address { segments: n.addr().segments() }, width: n.width() })
}

/// Calls `oxnet`'s `FromStr` of `IpNet`, which reads `{addr}/{width}` with
/// an address of either form. The contract names the result and states that
/// the text of a network whose width its family allows reads back as that
/// network.
#[verifier::external_body]
pub(crate) fn parse_ip_net(s: &str) -> (res: Option<IpNetwork>)
    ensures
        res == ip_net_parse(s@),
        forall|n: IpNetwork| ip_net_width_ok(n) && s@ == #[trigger] ip_net_text(n) ==> res == Some(n),
{
    match s.parse::<oxnet::IpNet>() {
        Ok(oxnet::IpNet::V4(n)) => Some(IpNetwork::V4(Ipv4Network {
            addr: Ipv4Address { octets: n.addr().octets() },
            width: n.width(),
        })),
        Ok(oxnet::IpNet::V6(n)) => Some(IpNetwork::V6(Ipv6Network {
            addr: Ipv6Address { segments: n.addr().segments() },
            width: n.width(),
        })),
        Err(_) => None,
    }
}

} // verus!
