//! SMF property values: their kinds, owned and borrowed forms, and the text
//! SMF shows for them.

use vstd::prelude::*;

use crate::net::ip_net_text;
use crate::net::ip_text;
use crate::net::ipv4_net_text;
use crate::net::ipv4_text;
use crate::net::ipv6_net_text;
use crate::net::ipv6_text;
use crate::net::IpAddress;
use crate::net::IpNetwork;
use crate::net::Ipv4Address;
use crate::net::Ipv4Network;
use crate::net::Ipv6Address;
use crate::net::Ipv6Network;
use crate::text::dec_int;
use crate::text::dec_nat;
use crate::text::hex_bytes;
use crate::text::pad_left;
use crate::text::push_char;
use crate::text::push_dec_i64;
use crate::text::push_dec_padded;
use crate::text::push_dec_u64;
use crate::text::push_hex_bytes;
use crate::text::push_str;

verus! {

// ---------------------------------------------------------------------------
// Timestamps.

/// Whether `chrono::DateTime::<Utc>::from_timestamp(secs, nanos)` gives a
/// date-time (and not `None`).
pub uninterp spec fn utc_timestamp_representable(secs: i64, nanos: u32) -> bool;

/// Calls `chrono::DateTime::<chrono::Utc>::from_timestamp` and reports whether
/// it gave a date-time. The source accepts a nanosecond value of one billion
/// or more (a leap second) only below two billion and on the last second of a
/// minute, and accepts every second count within about 262 000 years of the
/// epoch; those facts are stated, the exact date range is not.
#[verifier::external_body]
fn chrono_utc_from_timestamp_is_some(secs: i64, nanos: u32) -> (ok: bool)
    ensures
        ok == utc_timestamp_representable(secs, nanos),
        ok ==> nanos < 2_000_000_000,
        ok ==> (nanos < 1_000_000_000 || secs % 60 == 59),
        (nanos < 2_000_000_000 && (nanos < 1_000_000_000 || secs % 60 == 59)
            && -8_000_000_000_000 <= secs <= 8_000_000_000_000) ==> ok,
{
    chrono::DateTime::<chrono::Utc>::from_timestamp(secs, nanos).is_some()
}

/// A UTC point in time, as seconds and nanoseconds since the Unix epoch, that
/// `chrono` can represent as a `DateTime<Utc>`. A nanosecond count of one
/// billion or more marks a leap second.
#[derive(Debug, Clone, Copy, PartialEq, Eq, PartialOrd, Ord, Hash)]
pub struct Timestamp {
    secs: i64,
    nanos: u32,
}

impl Timestamp {
    #[verifier::type_invariant]
    spec fn representable(self) -> bool {
        utc_timestamp_representable(self.secs, self.nanos) && self.nanos < 2_000_000_000
    }

    /// Seconds since the Unix epoch.
    pub closed spec fn spec_secs(self) -> i64 {
        self.secs
    }

    /// Nanoseconds past `spec_secs`.
    pub closed spec fn spec_nanos(self) -> u32 {
        self.nanos
    }

    /// A timestamp from seconds and nanoseconds since the epoch; `None`
    /// exactly when `chrono` cannot represent it.
    pub fn new(secs: i64, nanos: u32) -> (res: Option<Self>)
        ensures
            res is Some <==> utc_timestamp_representable(secs, nanos),
            res matches Some(t) ==> t.spec_secs() == secs && t.spec_nanos() == nanos,
            res is Some ==> (nanos < 1_000_000_000 || secs % 60 == 59),
            (nanos < 2_000_000_000 && (nanos < 1_000_000_000 || secs % 60 == 59)
                && -8_000_000_000_000 <= secs <= 8_000_000_000_000) ==> res is Some,
    {
        if chrono_utc_from_timestamp_is_some(secs, nanos) {
            Some(Timestamp { secs, nanos })
        } else {
            None
        }
    }

    /// The timestamp with these parts (meaningful when `chrono` can represent
    /// them).
    pub closed spec fn spec_of(secs: i64, nanos: u32) -> Timestamp {
        Timestamp { secs, nanos }
    }

    /// A timestamp is determined by its parts.
    pub proof fn lemma_parts(a: Timestamp, secs: i64, nanos: u32)
        ensures
            Self::spec_of(secs, nanos).spec_secs() == secs,
            Self::spec_of(secs, nanos).spec_nanos() == nanos,
            (a.spec_secs() == secs && a.spec_nanos() == nanos) ==> a == Self::spec_of(secs, nanos),
    {
    }

    /// Seconds since the Unix epoch (`DateTime::timestamp`).
    pub fn timestamp(&self) -> (s: i64)
        ensures
            s == self.spec_secs(),
    {
        self.secs
    }

    /// Nanoseconds past the second (`DateTime::timestamp_subsec_nanos`).
    pub fn timestamp_subsec_nanos(&self) -> (n: u32)
        ensures
            n == self.spec_nanos(),
            n < 2_000_000_000,
            utc_timestamp_representable(self.spec_secs(), n),
    {
        proof {
            use_type_invariant(self);
        }
        self.nanos
    }
}

// ---------------------------------------------------------------------------
// Kinds.

/// SMF value types. Network values share a kind with bare addresses.
#[derive(Debug, Clone, Copy, PartialEq, Eq, PartialOrd, Ord, Hash, Structural)]
pub enum ValueKind {
    Bool,
    Count,
    Integer,
    Time,
    AString,
    Opaque,
    UString,
    Uri,
    Fmri,
    Host,
    Hostname,
    NetAddrV4,
    NetAddrV6,
    NetAddr,
}

/// The SMF name of a value kind.
pub open spec fn value_kind_text(k: ValueKind) -> Seq<char> {
    match k {
        ValueKind::Bool => "boolean"@,
        ValueKind::Count => "count"@,
        ValueKind::Integer => "integer"@,
        ValueKind::Time => "time"@,
        ValueKind::AString => "astring"@,
        ValueKind::Opaque => "opaque"@,
        ValueKind::UString => "ustring"@,
        ValueKind::Uri => "uri"@,
        ValueKind::Fmri => "fmri"@,
        ValueKind::Host => "host"@,
        ValueKind::Hostname => "hostname"@,
        ValueKind::NetAddrV4 => "net_address_v4"@,
        ValueKind::NetAddrV6 => "net_address_v6"@,
        ValueKind::NetAddr => "net_address"@,
    }
}

impl ValueKind {
    /// The SMF name of this kind (its `Display` text).
    pub fn as_str(&self) -> (s: &'static str)
        ensures
            s@ == value_kind_text(*self),
    {
        match self {
            ValueKind::Bool => "boolean",
            ValueKind::Count => "count",
            ValueKind::Integer => "integer",
            ValueKind::Time => "time",
            ValueKind::AString => "astring",
            ValueKind::Opaque => "opaque",
            ValueKind::UString => "ustring",
            ValueKind::Uri => "uri",
            ValueKind::Fmri => "fmri",
            ValueKind::Host => "host",
            ValueKind::Hostname => "hostname",
            ValueKind::NetAddrV4 => "net_address_v4",
            ValueKind::NetAddrV6 => "net_address_v6",
            ValueKind::NetAddr => "net_address",
        }
    }

    /// The SMF name of this kind as an owned string.
    pub fn to_string(&self) -> (s: String)
        ensures
            s@ == value_kind_text(*self),
    {
        self.as_str().to_owned()
    }
}

// ---------------------------------------------------------------------------
// Values.

/// The mathematical content of a value: strings by their characters and
/// opaque data by its bytes.
pub enum ValueView {
    Bool(bool),
    Count(u64),
    Integer(i64),
    Time(Timestamp),
    AString(Seq<char>),
    Opaque(Seq<u8>),
    UString(Seq<char>),
    Uri(Seq<char>),
    Fmri(Seq<char>),
    Host(Seq<char>),
    Hostname(Seq<char>),
    NetAddrV4(Ipv4Address),
    NetV4(Ipv4Network),
    NetAddrV6(Ipv6Address),
    NetV6(Ipv6Network),
    NetAddr(IpAddress),
    Net(IpNetwork),
}

/// The kind of a value; network values have the kind of their address family.
pub open spec fn view_kind(v: ValueView) -> ValueKind {
    match v {
        ValueView::Bool(_) => ValueKind::Bool,
        ValueView::Count(_) => ValueKind::Count,
        ValueView::Integer(_) => ValueKind::Integer,
        ValueView::Time(_) => ValueKind::Time,
        ValueView::AString(_) => ValueKind::AString,
        ValueView::Opaque(_) => ValueKind::Opaque,
        ValueView::UString(_) => ValueKind::UString,
        ValueView::Uri(_) => ValueKind::Uri,
        ValueView::Fmri(_) => ValueKind::Fmri,
        ValueView::Host(_) => ValueKind::Host,
        ValueView::Hostname(_) => ValueKind::Hostname,
        ValueView::NetAddrV4(_) | ValueView::NetV4(_) => ValueKind::NetAddrV4,
        ValueView::NetAddrV6(_) | ValueView::NetV6(_) => ValueKind::NetAddrV6,
        ValueView::NetAddr(_) | ValueView::Net(_) => ValueKind::NetAddr,
    }
}

/// Text of a time value as SMF shows it: the seconds, and if the nanosecond
/// part is not zero, a `.` and the nanoseconds padded to nine digits.
pub open spec fn time_text(t: Timestamp) -> Seq<char> {
    if t.spec_nanos() == 0 {
        dec_int(t.spec_secs() as int)
    } else {
        dec_int(t.spec_secs() as int) + seq!['.'] + pad_left(
            dec_nat(t.spec_nanos() as nat),
            9,
            '0',
        )
    }
}

/// Text of a value as SMF shows it: booleans as `true`/`false`, numbers in
/// decimal, opaque data in lowercase hex, strings as they are, and addresses
/// and networks in their usual notation.
pub open spec fn smf_text(v: ValueView) -> Seq<char> {
    match v {
        ValueView::Bool(b) => if b { "true"@ } else { "false"@ },
        ValueView::Count(n) => dec_nat(n as nat),
        ValueView::Integer(i) => dec_int(i as int),
        ValueView::Time(t) => time_text(t),
        ValueView::Opaque(data) => hex_bytes(data),
        ValueView::AString(s) => s,
        ValueView::UString(s) => s,
        ValueView::Uri(s) => s,
        ValueView::Fmri(s) => s,
        ValueView::Host(s) => s,
        ValueView::Hostname(s) => s,
        ValueView::NetAddrV4(a) => ipv4_text(a),
        ValueView::NetV4(n) => ipv4_net_text(n),
        ValueView::NetAddrV6(a) => ipv6_text(a.segments@),
        ValueView::NetV6(n) => ipv6_net_text(n),
        ValueView::NetAddr(a) => ip_text(a),
        ValueView::Net(n) => ip_net_text(n),
    }
}

/// An owned SMF property value.
#[derive(Debug, Clone, PartialEq, Eq, PartialOrd, Ord, Hash)]
pub enum Value {
    Bool(bool),
    Count(u64),
    Integer(i64),
    Time(Timestamp),
    AString(String),
    Opaque(Vec<u8>),
    UString(String),
    Uri(String),
    Fmri(String),
    Host(String),
    Hostname(String),
    NetAddrV4(Ipv4Address),
    NetV4(Ipv4Network),
    NetAddrV6(Ipv6Address),
    NetV6(Ipv6Network),
    NetAddr(IpAddress),
    Net(IpNetwork),
}

impl View for Value {
    type V = ValueView;

    open spec fn view(&self) -> ValueView {
        match self {
            Value::Bool(b) => ValueView::Bool(*b),
            Value::Count(n) => ValueView::Count(*n),
            Value::Integer(i) => ValueView::Integer(*i),
            Value::Time(t) => ValueView::Time(*t),
            Value::AString(s) => ValueView::AString(s@),
            Value::Opaque(d) => ValueView::Opaque(d@),
            Value::UString(s) => ValueView::UString(s@),
            Value::Uri(s) => ValueView::Uri(s@),
            Value::Fmri(s) => ValueView::Fmri(s@),
            Value::Host(s) => ValueView::Host(s@),
            Value::Hostname(s) => ValueView::Hostname(s@),
            Value::NetAddrV4(a) => ValueView::NetAddrV4(*a),
            Value::NetV4(n) => ValueView::NetV4(*n),
            Value::NetAddrV6(a) => ValueView::NetAddrV6(*a),
            Value::NetV6(n) => ValueView::NetV6(*n),
            Value::NetAddr(a) => ValueView::NetAddr(*a),
            Value::Net(n) => ValueView::Net(*n),
        }
    }
}

/// A borrowed SMF property value.
#[derive(Debug, Clone, Copy, PartialEq, Eq, PartialOrd, Ord, Hash)]
pub enum ValueRef<'a> {
    Bool(bool),
    Count(u64),
    Integer(i64),
    Time(Timestamp),
    AString(&'a str),
    Opaque(&'a [u8]),
    UString(&'a str),
    Uri(&'a str),
    Fmri(&'a str),
    Host(&'a str),
    Hostname(&'a str),
    NetAddrV4(Ipv4Address),
    NetV4(Ipv4Network),
    NetAddrV6(Ipv6Address),
    NetV6(Ipv6Network),
    NetAddr(IpAddress),
    Net(IpNetwork),
}

impl<'a> View for ValueRef<'a> {
    type V = ValueView;

    open spec fn view(&self) -> ValueView {
        match self {
            ValueRef::Bool(b) => ValueView::Bool(*b),
            ValueRef::Count(n) => ValueView::Count(*n),
            ValueRef::Integer(i) => ValueView::Integer(*i),
            ValueRef::Time(t) => ValueView::Time(*t),
            ValueRef::AString(s) => ValueView::AString(s@),
            ValueRef::Opaque(d) => ValueView::Opaque(d@),
            ValueRef::UString(s) => ValueView::UString(s@),
            ValueRef::Uri(s) => ValueView::Uri(s@),
            ValueRef::Fmri(s) => ValueView::Fmri(s@),
            ValueRef::Host(s) => ValueView::Host(s@),
            ValueRef::Hostname(s) => ValueView::Hostname(s@),
            ValueRef::NetAddrV4(a) => ValueView::NetAddrV4(*a),
            ValueRef::NetV4(n) => ValueView::NetV4(*n),
            ValueRef::NetAddrV6(a) => ValueView::NetAddrV6(*a),
            ValueRef::NetV6(n) => ValueView::NetV6(*n),
            ValueRef::NetAddr(a) => ValueView::NetAddr(*a),
            ValueRef::Net(n) => ValueView::Net(*n),
        }
    }
}

/// A copy of a byte slice.
fn bytes_to_vec(data: &[u8]) -> (v: Vec<u8>)
    ensures
        v@ == data@,
{
    let mut v: Vec<u8> = Vec::new();
    let mut i: usize = 0;
    while i < data.len()
        invariant
            i <= data@.len(),
            v@ == data@.subrange(0, i as int),
        decreases data@.len() - i,
    {
        v.push(data[i]);
        i = i + 1;
        assert(v@ =~= data@.subrange(0, i as int));
    }
    assert(data@.subrange(0, data@.len() as int) =~= data@);
    v
}

impl Value {
    /// The kind of this value.
    pub fn kind(&self) -> (k: ValueKind)
        ensures
            k == view_kind(self@),
    {
        match self {
            Value::Bool(_) => ValueKind::Bool,
            Value::Count(_) => ValueKind::Count,
            Value::Integer(_) => ValueKind::Integer,
            Value::Time(_) => ValueKind::Time,
            Value::AString(_) => ValueKind::AString,
            Value::Opaque(_) => ValueKind::Opaque,
            Value::UString(_) => ValueKind::UString,
            Value::Uri(_) => ValueKind::Uri,
            Value::Fmri(_) => ValueKind::Fmri,
            Value::Host(_) => ValueKind::Host,
            Value::Hostname(_) => ValueKind::Hostname,
            Value::NetAddrV4(_) | Value::NetV4(_) => ValueKind::NetAddrV4,
            Value::NetAddrV6(_) | Value::NetV6(_) => ValueKind::NetAddrV6,
            Value::NetAddr(_) | Value::Net(_) => ValueKind::NetAddr,
        }
    }

    /// A borrowed form of this value with the same content.
    pub fn as_value_ref(&self) -> (r: ValueRef<'_>)
        ensures
            r@ == self@,
    {
        match self {
            Value::Bool(b) => ValueRef::Bool(*b),
            Value::Count(c) => ValueRef::Count(*c),
            Value::Integer(i) => ValueRef::Integer(*i),
            Value::Time(ts) => ValueRef::Time(*ts),
            Value::AString(s) => ValueRef::AString(s.as_str()),
            Value::Opaque(data) => ValueRef::Opaque(data.as_slice()),
            Value::UString(s) => ValueRef::UString(s.as_str()),
            Value::Uri(s) => ValueRef::Uri(s.as_str()),
            Value::Fmri(s) => ValueRef::Fmri(s.as_str()),
            Value::Host(s) => ValueRef::Host(s.as_str()),
            Value::Hostname(s) => ValueRef::Hostname(s.as_str()),
            Value::NetAddrV4(ip) => ValueRef::NetAddrV4(*ip),
            Value::NetV4(ip) => ValueRef::NetV4(*ip),
            Value::NetAddrV6(ip) => ValueRef::NetAddrV6(*ip),
            Value::NetV6(ip) => ValueRef::NetV6(*ip),
            Value::NetAddr(ip) => ValueRef::NetAddr(*ip),
            Value::Net(ip) => ValueRef::Net(*ip),
        }
    }

    /// A displayable form of this value that formats it as SMF would show it
    /// as a string.
    pub fn display_smf(&self) -> (d: ValueDisplaySmf<'_>)
        ensures
            d.value()@ == self@,
    {
        ValueDisplaySmf(self.as_value_ref())
    }
}

impl<'a> ValueRef<'a> {
    /// The kind of this value.
    pub fn kind(&self) -> (k: ValueKind)
        ensures
            k == view_kind(self@),
    {
        match self {
            ValueRef::Bool(_) => ValueKind::Bool,
            ValueRef::Count(_) => ValueKind::Count,
            ValueRef::Integer(_) => ValueKind::Integer,
            ValueRef::Time(_) => ValueKind::Time,
            ValueRef::AString(_) => ValueKind::AString,
            ValueRef::Opaque(_) => ValueKind::Opaque,
            ValueRef::UString(_) => ValueKind::UString,
            ValueRef::Uri(_) => ValueKind::Uri,
            ValueRef::Fmri(_) => ValueKind::Fmri,
            ValueRef::Host(_) => ValueKind::Host,
            ValueRef::Hostname(_) => ValueKind::Hostname,
            ValueRef::NetAddrV4(_) | ValueRef::NetV4(_) => ValueKind::NetAddrV4,
            ValueRef::NetAddrV6(_) | ValueRef::NetV6(_) => ValueKind::NetAddrV6,
            ValueRef::NetAddr(_) | ValueRef::Net(_) => ValueKind::NetAddr,
        }
    }

    /// An owned copy of this value.
    pub fn to_value(&self) -> (v: Value)
        ensures
            v@ == self@,
    {
        match *self {
            ValueRef::Bool(b) => Value::Bool(b),
            ValueRef::Count(c) => Value::Count(c),
            ValueRef::Integer(i) => Value::Integer(i),
            ValueRef::Time(ts) => Value::Time(ts),
            ValueRef::AString(s) => Value::AString(s.to_owned()),
            ValueRef::Opaque(v) => Value::Opaque(bytes_to_vec(v)),
            ValueRef::UString(s) => Value::UString(s.to_owned()),
            ValueRef::Uri(u) => Value::Uri(u.to_owned()),
            ValueRef::Fmri(f) => Value::Fmri(f.to_owned()),
            ValueRef::Host(h) => Value::Host(h.to_owned()),
            ValueRef::Hostname(h) => Value::Hostname(h.to_owned()),
            ValueRef::NetAddrV4(ip) => Value::NetAddrV4(ip),
            ValueRef::NetV4(n) => Value::NetV4(n),
            ValueRef::NetAddrV6(ip) => Value::NetAddrV6(ip),
            ValueRef::NetV6(n) => Value::NetV6(n),
            ValueRef::NetAddr(ip) => Value::NetAddr(ip),
            ValueRef::Net(n) => Value::Net(n),
        }
    }

    /// A displayable form of this value that formats it as SMF would show it
    /// as a string.
    pub fn display_smf(&self) -> (d: ValueDisplaySmf<'a>)
        ensures
            d.value() == *self,
    {
        ValueDisplaySmf(*self)
    }
}

/// A value formatted as SMF would show it as a string (e.g., opaque values
/// hex-encoded, times as `{seconds}.{nanoseconds}`).
pub struct ValueDisplaySmf<'a>(ValueRef<'a>);

impl<'a> ValueDisplaySmf<'a> {
    /// The value being displayed.
    pub closed spec fn value(self) -> ValueRef<'a> {
        self.0
    }

    /// The SMF text of the value.
    pub fn to_string(&self) -> (s: String)
        ensures
            s@ == smf_text(self.value()@),
    {
        let mut s = String::new();
        match self.0 {
            ValueRef::Bool(b) => {
                if b {
                    push_str(&mut s, "true");
                } else {
                    push_str(&mut s, "false");
                }
            },
            ValueRef::Count(n) => push_dec_u64(&mut s, n),
            ValueRef::Integer(i) => push_dec_i64(&mut s, i),
            ValueRef::Time(ts) => {
                let secs = ts.timestamp();
                let nanos = ts.timestamp_subsec_nanos();
                push_dec_i64(&mut s, secs);
                if nanos != 0 {
                    push_char(&mut s, '.');
                    push_dec_padded(&mut s, nanos as u64, 9);
                }
            },
            ValueRef::Opaque(data) => push_hex_bytes(&mut s, data),
            ValueRef::AString(t)
            | ValueRef::UString(t)
            | ValueRef::Uri(t)
            | ValueRef::Fmri(t)
            | ValueRef::Host(t)
            | ValueRef::Hostname(t) => push_str(&mut s, t),
            ValueRef::NetAddrV4(ip) => ip.push_text(&mut s),
            ValueRef::NetV4(n) => n.push_text(&mut s),
            ValueRef::NetAddrV6(ip) => ip.push_text(&mut s),
            ValueRef::NetV6(n) => n.push_text(&mut s),
            ValueRef::NetAddr(ip) => ip.push_text(&mut s),
            ValueRef::Net(n) => n.push_text(&mut s),
        }
        assert(s@ =~= smf_text(self.value()@));
        s
    }
}

} // verus!
