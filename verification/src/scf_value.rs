//! Moving values in and out of `libscf` value handles: the `libscf` type of
//! each value kind, how a value is handed to `libscf`, and how what `libscf`
//! gives back becomes a value again.

use vstd::prelude::*;
use vstd::utf8::*;

use libscf_sys::scf_type_t;
use num_traits::FromPrimitive;

use crate::buf::scf_get_string;
use crate::buf::scf_string_error;
use crate::buf::scf_string_text;
use crate::error::libscf_error_of_code;
use crate::error::LibscfError;
use crate::error::ScfEntity;
use crate::error::ValueGetError;
use crate::error::ValueSetError;
use crate::net::ip_net_parse;
use crate::net::ip_parse;
use crate::net::ip_text;
use crate::net::ip_net_text;
use crate::net::IpNetwork;
use crate::net::ip_net_width_ok;
use crate::net::IPV4_NET_WIDTH_MAX;
use crate::net::IPV6_NET_WIDTH_MAX;
use crate::text::dec_nat;
use crate::net::ipv4_net_parse;
use crate::net::ipv4_net_text;
use crate::net::ipv4_parse;
use crate::net::ipv4_text;
use crate::net::ipv6_net_parse;
use crate::net::ipv6_net_text;
use crate::net::ipv6_parse;
use crate::net::ipv6_text;
use crate::net::parse_ip;
use crate::net::parse_ip_net;
use crate::net::parse_ipv4;
use crate::net::parse_ipv4_net;
use crate::net::parse_ipv6;
use crate::net::parse_ipv6_net;
use crate::utf8cstring::is_first_nul;
use crate::utf8cstring::lemma_encode_utf8_nul;
use crate::utf8cstring::no_nul_char;
use crate::utf8cstring::NulError;
use crate::utf8cstring::Utf8CString;
use crate::value::smf_text;
use crate::value::utc_timestamp_representable;
use crate::value::view_kind;
use crate::value::value_kind_text;
use crate::value::Timestamp;
use crate::value::Value;
use crate::value::ValueKind;
use crate::value::ValueRef;
use crate::value::ValueView;

verus! {

// ---------------------------------------------------------------------------
// libscf value types.

/// The value types of `libscf`, one for each variant of
/// `libscf_sys::scf_type_t`.
#[derive(Debug, Clone, Copy, PartialEq, Eq, Structural)]
pub enum ScfType {
    Invalid,
    Boolean,
    Count,
    Integer,
    Time,
    AString,
    Opaque,
    UString,
    Uri,
    Fmri,
    Host,
    Hostname,
    NetAddrV4,
    NetAddrV6,
    NetAddr,
}

/// The type with a given `scf_type_t` code (the discriminants that
/// `libscf_sys` gives its variants), or `None` for any other code.
pub open spec fn known_scf_type(code: i32) -> Option<ScfType> {
    if code == 0 { Some(ScfType::Invalid) }
    else if code == 1 { Some(ScfType::Boolean) }
    else if code == 2 { Some(ScfType::Count) }
    else if code == 3 { Some(ScfType::Integer) }
    else if code == 4 { Some(ScfType::Time) }
    else if code == 5 { Some(ScfType::AString) }
    else if code == 6 { Some(ScfType::Opaque) }
    else if code == 100 { Some(ScfType::UString) }
    else if code == 200 { Some(ScfType::Uri) }
    else if code == 201 { Some(ScfType::Fmri) }
    else if code == 300 { Some(ScfType::Host) }
    else if code == 301 { Some(ScfType::Hostname) }
    else if code == 302 { Some(ScfType::NetAddrV4) }
    else if code == 303 { Some(ScfType::NetAddrV6) }
    else if code == 304 { Some(ScfType::NetAddr) }
    else { None }
}

/// Calls `FromPrimitive::from_i32` on `libscf_sys::scf_type_t`, whose derived
/// impl gives the variant whose discriminant is `code` (0 through 6, 100, 200,
/// 201 and 300 through 304 in `libscf_sys`), and hands back that variant's
/// discriminant.
#[verifier::external_body]
fn scf_type_t_from_i32(code: i32) -> (res: Option<i32>)
    ensures
        res == (if known_scf_type(code) is Some { Some(code) } else { None::<i32> }),
{
    scf_type_t::from_i32(code).map(|t| t as i32)
}

/// The `libscf` type that stores values of a kind.
pub open spec fn kind_scf_type(k: ValueKind) -> ScfType {
    match k {
        ValueKind::Bool => ScfType::Boolean,
        ValueKind::Count => ScfType::Count,
        ValueKind::Integer => ScfType::Integer,
        ValueKind::Time => ScfType::Time,
        ValueKind::AString => ScfType::AString,
        ValueKind::Opaque => ScfType::Opaque,
        ValueKind::UString => ScfType::UString,
        ValueKind::Uri => ScfType::Uri,
        ValueKind::Fmri => ScfType::Fmri,
        ValueKind::Host => ScfType::Host,
        ValueKind::Hostname => ScfType::Hostname,
        ValueKind::NetAddrV4 => ScfType::NetAddrV4,
        ValueKind::NetAddrV6 => ScfType::NetAddrV6,
        ValueKind::NetAddr => ScfType::NetAddr,
    }
}

/// The value kind a `libscf` type holds; `None` for the invalid type.
pub open spec fn scf_type_kind(t: ScfType) -> Option<ValueKind> {
    match t {
        ScfType::Invalid => None,
        ScfType::Boolean => Some(ValueKind::Bool),
        ScfType::Count => Some(ValueKind::Count),
        ScfType::Integer => Some(ValueKind::Integer),
        ScfType::Time => Some(ValueKind::Time),
        ScfType::AString => Some(ValueKind::AString),
        ScfType::Opaque => Some(ValueKind::Opaque),
        ScfType::UString => Some(ValueKind::UString),
        ScfType::Uri => Some(ValueKind::Uri),
        ScfType::Fmri => Some(ValueKind::Fmri),
        ScfType::Host => Some(ValueKind::Host),
        ScfType::Hostname => Some(ValueKind::Hostname),
        ScfType::NetAddrV4 => Some(ValueKind::NetAddrV4),
        ScfType::NetAddrV6 => Some(ValueKind::NetAddrV6),
        ScfType::NetAddr => Some(ValueKind::NetAddr),
    }
}

/// The `scf_type_t` code of a type.
pub open spec fn scf_type_code(t: ScfType) -> i32 {
    match t {
        ScfType::Invalid => 0,
        ScfType::Boolean => 1,
        ScfType::Count => 2,
        ScfType::Integer => 3,
        ScfType::Time => 4,
        ScfType::AString => 5,
        ScfType::Opaque => 6,
        ScfType::UString => 100,
        ScfType::Uri => 200,
        ScfType::Fmri => 201,
        ScfType::Host => 300,
        ScfType::Hostname => 301,
        ScfType::NetAddrV4 => 302,
        ScfType::NetAddrV6 => 303,
        ScfType::NetAddr => 304,
    }
}

impl ScfType {
    /// The `scf_type_t` code of this type, as `libscf` expects it.
    pub fn code(self) -> (c: i32)
        ensures
            c == scf_type_code(self),
            known_scf_type(c) == Some(self),
    {
        match self {
            ScfType::Invalid => 0,
            ScfType::Boolean => 1,
            ScfType::Count => 2,
            ScfType::Integer => 3,
            ScfType::Time => 4,
            ScfType::AString => 5,
            ScfType::Opaque => 6,
            ScfType::UString => 100,
            ScfType::Uri => 200,
            ScfType::Fmri => 201,
            ScfType::Host => 300,
            ScfType::Hostname => 301,
            ScfType::NetAddrV4 => 302,
            ScfType::NetAddrV6 => 303,
            ScfType::NetAddr => 304,
        }
    }

    /// The type with an `scf_type_t` code, if the code is one.
    pub fn from_code(code: i32) -> (t: Option<ScfType>)
        ensures
            t == known_scf_type(code),
    {
        match scf_type_t_from_i32(code) {
            None => None,
            Some(c) => Some(
                match c {
                    0 => ScfType::Invalid,
                    1 => ScfType::Boolean,
                    2 => ScfType::Count,
                    3 => ScfType::Integer,
                    4 => ScfType::Time,
                    5 => ScfType::AString,
                    6 => ScfType::Opaque,
                    100 => ScfType::UString,
                    200 => ScfType::Uri,
                    201 => ScfType::Fmri,
                    300 => ScfType::Host,
                    301 => ScfType::Hostname,
                    302 => ScfType::NetAddrV4,
                    303 => ScfType::NetAddrV6,
                    _ => ScfType::NetAddr,
                },
            ),
        }
    }
}

impl ValueKind {
    /// The `libscf` type that stores values of this kind.
    pub fn to_scf_type(self) -> (t: ScfType)
        ensures
            t == kind_scf_type(self),
    {
        match self {
            ValueKind::Bool => ScfType::Boolean,
            ValueKind::Count => ScfType::Count,
            ValueKind::Integer => ScfType::Integer,
            ValueKind::Time => ScfType::Time,
            ValueKind::AString => ScfType::AString,
            ValueKind::Opaque => ScfType::Opaque,
            ValueKind::UString => ScfType::UString,
            ValueKind::Uri => ScfType::Uri,
            ValueKind::Fmri => ScfType::Fmri,
            ValueKind::Host => ScfType::Host,
            ValueKind::Hostname => ScfType::Hostname,
            ValueKind::NetAddrV4 => ScfType::NetAddrV4,
            ValueKind::NetAddrV6 => ScfType::NetAddrV6,
            ValueKind::NetAddr => ScfType::NetAddr,
        }
    }
}

/// Every kind is stored under a type with its own code, and that code reads
/// back as the same kind.
pub proof fn lemma_kind_type_code_round_trip(k: ValueKind)
    ensures
        known_scf_type(scf_type_code(kind_scf_type(k))) == Some(kind_scf_type(k)),
        scf_type_kind(kind_scf_type(k)) == Some(k),
{
}

/// The `libscf` numbering of value types: each type's code is the
/// discriminant `libscf_sys` gives the `SCF_TYPE_*` constant of the same
/// name, and a code reads as a type exactly when it is one of those
/// discriminants, and then as the type it numbers.
pub proof fn lemma_scf_type_numbering(c: i32)
    ensures
        scf_type_code(ScfType::Invalid) == 0,
        scf_type_code(ScfType::Boolean) == 1,
        scf_type_code(ScfType::Count) == 2,
        scf_type_code(ScfType::Integer) == 3,
        scf_type_code(ScfType::Time) == 4,
        scf_type_code(ScfType::AString) == 5,
        scf_type_code(ScfType::Opaque) == 6,
        scf_type_code(ScfType::UString) == 100,
        scf_type_code(ScfType::Uri) == 200,
        scf_type_code(ScfType::Fmri) == 201,
        scf_type_code(ScfType::Host) == 300,
        scf_type_code(ScfType::Hostname) == 301,
        scf_type_code(ScfType::NetAddrV4) == 302,
        scf_type_code(ScfType::NetAddrV6) == 303,
        scf_type_code(ScfType::NetAddr) == 304,
        known_scf_type(c) is Some <==> (0 <= c <= 6 || c == 100 || c == 200 || c == 201 || (300
            <= c <= 304)),
        known_scf_type(c) matches Some(t) ==> scf_type_code(t) == c,
{
}

/// Each value kind is stored under the `libscf` type of the same name
/// (`count` values as `SCF_TYPE_COUNT`, `integer` values as
/// `SCF_TYPE_INTEGER`, and so on), and the code `libscf` reports for a value
/// reads as the kind of that name: code 2 as `count`, code 3 as `integer`.
pub proof fn lemma_kind_of_type(k: ValueKind)
    ensures
        kind_scf_type(ValueKind::Bool) == ScfType::Boolean,
        kind_scf_type(ValueKind::Count) == ScfType::Count,
        kind_scf_type(ValueKind::Integer) == ScfType::Integer,
        kind_scf_type(ValueKind::Time) == ScfType::Time,
        kind_scf_type(ValueKind::AString) == ScfType::AString,
        kind_scf_type(ValueKind::Opaque) == ScfType::Opaque,
        kind_scf_type(ValueKind::UString) == ScfType::UString,
        kind_scf_type(ValueKind::Uri) == ScfType::Uri,
        kind_scf_type(ValueKind::Fmri) == ScfType::Fmri,
        kind_scf_type(ValueKind::Host) == ScfType::Host,
        kind_scf_type(ValueKind::Hostname) == ScfType::Hostname,
        kind_scf_type(ValueKind::NetAddrV4) == ScfType::NetAddrV4,
        kind_scf_type(ValueKind::NetAddrV6) == ScfType::NetAddrV6,
        kind_scf_type(ValueKind::NetAddr) == ScfType::NetAddr,
        scf_type_kind(kind_scf_type(k)) == Some(k),
        scf_type_kind(ScfType::Invalid) is None,
        value_kind_text(scf_type_kind(known_scf_type(1)->Some_0)->Some_0) == "boolean"@,
        value_kind_text(scf_type_kind(known_scf_type(2)->Some_0)->Some_0) == "count"@,
        value_kind_text(scf_type_kind(known_scf_type(3)->Some_0)->Some_0) == "integer"@,
        value_kind_text(scf_type_kind(known_scf_type(4)->Some_0)->Some_0) == "time"@,
        value_kind_text(scf_type_kind(known_scf_type(5)->Some_0)->Some_0) == "astring"@,
        value_kind_text(scf_type_kind(known_scf_type(6)->Some_0)->Some_0) == "opaque"@,
        value_kind_text(scf_type_kind(known_scf_type(100)->Some_0)->Some_0) == "ustring"@,
        value_kind_text(scf_type_kind(known_scf_type(200)->Some_0)->Some_0) == "uri"@,
        value_kind_text(scf_type_kind(known_scf_type(201)->Some_0)->Some_0) == "fmri"@,
        value_kind_text(scf_type_kind(known_scf_type(300)->Some_0)->Some_0) == "host"@,
        value_kind_text(scf_type_kind(known_scf_type(301)->Some_0)->Some_0) == "hostname"@,
        value_kind_text(scf_type_kind(known_scf_type(302)->Some_0)->Some_0) == "net_address_v4"@,
        value_kind_text(scf_type_kind(known_scf_type(303)->Some_0)->Some_0) == "net_address_v6"@,
        value_kind_text(scf_type_kind(known_scf_type(304)->Some_0)->Some_0) == "net_address"@,
{
}

/// The kind of a value whose handle reports the type code `ret` (the
/// return of `scf_value_type()`), given the error code `libscf` reported.
pub fn value_kind_from_type_code(ret: i32, last_error: u32) -> (res: Result<
    ValueKind,
    ValueGetError,
>)
    ensures
        match known_scf_type(ret) {
            None => res == Err::<ValueKind, ValueGetError>(ValueGetError::UnexpectedTypeValue(ret)),
            Some(ScfType::Invalid) => res == Err::<ValueKind, ValueGetError>(
                ValueGetError::Invalid(libscf_error_of_code(last_error)),
            ),
            Some(t) => res == Ok::<ValueKind, ValueGetError>(scf_type_kind(t)->Some_0),
        },
{
    match ScfType::from_code(ret) {
        None => Err(ValueGetError::UnexpectedTypeValue(ret)),
        Some(t) => match t {
            ScfType::Invalid => Err(ValueGetError::Invalid(LibscfError::from_code(last_error))),
            ScfType::Boolean => Ok(ValueKind::Bool),
            ScfType::Count => Ok(ValueKind::Count),
            ScfType::Integer => Ok(ValueKind::Integer),
            ScfType::Time => Ok(ValueKind::Time),
            ScfType::AString => Ok(ValueKind::AString),
            ScfType::Opaque => Ok(ValueKind::Opaque),
            ScfType::UString => Ok(ValueKind::UString),
            ScfType::Uri => Ok(ValueKind::Uri),
            ScfType::Fmri => Ok(ValueKind::Fmri),
            ScfType::Host => Ok(ValueKind::Host),
            ScfType::Hostname => Ok(ValueKind::Hostname),
            ScfType::NetAddrV4 => Ok(ValueKind::NetAddrV4),
            ScfType::NetAddrV6 => Ok(ValueKind::NetAddrV6),
            ScfType::NetAddr => Ok(ValueKind::NetAddr),
        },
    }
}

// ---------------------------------------------------------------------------
// Reading values.

/// What a `libscf` getter call gave back: its return value, the error code
/// `libscf` reported, and what it wrote.
///
/// * `Bool`, `Count`, `Integer`: `scf_value_get_boolean`/`_count`/`_integer`
///   (return `0` on success) and the value written.
/// * `Time`: `scf_value_get_time` and the seconds and nanoseconds written.
/// * `Opaque`: `scf_value_get_opaque` (returns the data length or a negative
///   value) and the buffer it wrote into.
/// * `Text`: `scf_value_get_as_string` (returns the string length or a
///   negative value) and the buffer it wrote into.
#[derive(Debug, Clone, PartialEq, Eq)]
pub enum RawValue {
    Bool { ret: i32, last_error: u32, value: u8 },
    Count { ret: i32, last_error: u32, value: u64 },
    Integer { ret: i32, last_error: u32, value: i64 },
    Time { ret: i32, last_error: u32, secs: i64, nanos: i32 },
    Opaque { ret: isize, last_error: u32, buf: Vec<u8> },
    Text { ret: isize, last_error: u32, buf: Vec<u8> },
}

/// The content of a [`RawValue`], buffers by their bytes.
pub enum RawView {
    Bool { ret: i32, last_error: u32, value: u8 },
    Count { ret: i32, last_error: u32, value: u64 },
    Integer { ret: i32, last_error: u32, value: i64 },
    Time { ret: i32, last_error: u32, secs: i64, nanos: i32 },
    Opaque { ret: int, last_error: u32, buf: Seq<u8> },
    Text { ret: int, last_error: u32, buf: Seq<u8> },
}

impl View for RawValue {
    type V = RawView;

    open spec fn view(&self) -> RawView {
        match self {
            RawValue::Bool { ret, last_error, value } => RawView::Bool {
                ret: *ret,
                last_error: *last_error,
                value: *value,
            },
            RawValue::Count { ret, last_error, value } => RawView::Count {
                ret: *ret,
                last_error: *last_error,
                value: *value,
            },
            RawValue::Integer { ret, last_error, value } => RawView::Integer {
                ret: *ret,
                last_error: *last_error,
                value: *value,
            },
            RawValue::Time { ret, last_error, secs, nanos } => RawView::Time {
                ret: *ret,
                last_error: *last_error,
                secs: *secs,
                nanos: *nanos,
            },
            RawValue::Opaque { ret, last_error, buf } => RawView::Opaque {
                ret: *ret as int,
                last_error: *last_error,
                buf: buf@,
            },
            RawValue::Text { ret, last_error, buf } => RawView::Text {
                ret: *ret as int,
                last_error: *last_error,
                buf: buf@,
            },
        }
    }
}

/// Whether a kind is read through the string getter.
pub open spec fn is_text_kind(k: ValueKind) -> bool {
    !(k == ValueKind::Bool || k == ValueKind::Count || k == ValueKind::Integer || k
        == ValueKind::Time || k == ValueKind::Opaque)
}

/// Whether `raw` comes from the getter that reads values of kind `k`.
pub open spec fn raw_fits_kind(k: ValueKind, raw: RawView) -> bool {
    match raw {
        RawView::Bool { .. } => k == ValueKind::Bool,
        RawView::Count { .. } => k == ValueKind::Count,
        RawView::Integer { .. } => k == ValueKind::Integer,
        RawView::Time { .. } => k == ValueKind::Time,
        RawView::Opaque { .. } => k == ValueKind::Opaque,
        RawView::Text { .. } => is_text_kind(k),
    }
}

/// The value of kind `k` that the text `t` stands for: strings as they are;
/// addresses first as a bare address and else as a network (`libscf` allows
/// both under one type); `None` when neither reads.
pub open spec fn text_value(k: ValueKind, t: Seq<char>) -> Option<ValueView> {
    match k {
        ValueKind::AString => Some(ValueView::AString(t)),
        ValueKind::UString => Some(ValueView::UString(t)),
        ValueKind::Uri => Some(ValueView::Uri(t)),
        ValueKind::Fmri => Some(ValueView::Fmri(t)),
        ValueKind::Host => Some(ValueView::Host(t)),
        ValueKind::Hostname => Some(ValueView::Hostname(t)),
        ValueKind::NetAddrV4 => match ipv4_parse(t) {
            Some(a) => Some(ValueView::NetAddrV4(a)),
            None => match ipv4_net_parse(t) {
                Some(n) => Some(ValueView::NetV4(n)),
                None => None,
            },
        },
        ValueKind::NetAddrV6 => match ipv6_parse(t) {
            Some(a) => Some(ValueView::NetAddrV6(a)),
            None => match ipv6_net_parse(t) {
                Some(n) => Some(ValueView::NetV6(n)),
                None => None,
            },
        },
        ValueKind::NetAddr => match ip_parse(t) {
            Some(a) => Some(ValueView::NetAddr(a)),
            None => match ip_net_parse(t) {
                Some(n) => Some(ValueView::Net(n)),
                None => None,
            },
        },
        _ => None,
    }
}

/// The getters that return a status return `0` on success and `-1` on
/// failure; `raw` holds no other status.
pub open spec fn getter_status_ok(raw: RawView) -> bool {
    match raw {
        RawView::Bool { ret, .. } => ret <= 0,
        RawView::Count { ret, .. } => ret <= 0,
        RawView::Integer { ret, .. } => ret <= 0,
        RawView::Time { ret, .. } => ret <= 0,
        _ => true,
    }
}

/// The value a getter's output stands for, or `None` when reading failed.
pub open spec fn decoded_value(k: ValueKind, raw: RawView) -> Option<ValueView> {
    match raw {
        RawView::Bool { ret, value, .. } => if ret == 0 {
            Some(ValueView::Bool(value != 0))
        } else {
            None
        },
        RawView::Count { ret, value, .. } => if ret == 0 {
            Some(ValueView::Count(value))
        } else {
            None
        },
        RawView::Integer { ret, value, .. } => if ret == 0 {
            Some(ValueView::Integer(value))
        } else {
            None
        },
        RawView::Time { ret, secs, nanos, .. } => if ret == 0 && nanos >= 0
            && utc_timestamp_representable(secs, nanos as u32) {
            Some(ValueView::Time(Timestamp::spec_of(secs, nanos as u32)))
        } else {
            None
        },
        RawView::Opaque { ret, buf, .. } => if 0 <= ret <= buf.len() {
            Some(ValueView::Opaque(buf.subrange(0, ret)))
        } else {
            None
        },
        RawView::Text { ret, buf, .. } => match scf_string_text(buf, ret) {
            Some(t) => text_value(k, t),
            None => None,
        },
    }
}

/// `e` is the error for failing to read a value of kind `k` from `raw`.
pub open spec fn decode_error(k: ValueKind, raw: RawView, e: ValueGetError) -> bool {
    match raw {
        RawView::Bool { last_error, .. } => e == ValueGetError::GetBool(
            libscf_error_of_code(last_error),
        ),
        RawView::Count { last_error, .. } => e == ValueGetError::GetCount(
            libscf_error_of_code(last_error),
        ),
        RawView::Integer { last_error, .. } => e == ValueGetError::GetInteger(
            libscf_error_of_code(last_error),
        ),
        RawView::Time { ret, last_error, secs, nanos } => if ret != 0 {
            e == ValueGetError::GetTime(libscf_error_of_code(last_error))
        } else {
            e == ValueGetError::InvalidTime { secs, nanos }
        },
        RawView::Opaque { ret, last_error, .. } => if ret < 0 {
            e == ValueGetError::GetOpaque(libscf_error_of_code(last_error))
        } else {
            e == ValueGetError::GetOpaqueOutOfBounds(ret as usize)
        },
        RawView::Text { ret, last_error, buf } => match scf_string_text(buf, ret) {
            None => e matches ValueGetError::GetAsString(se) && scf_string_error(
                ScfEntity::Value,
                buf,
                ret,
                last_error,
                se,
            ),
            Some(t) => match k {
                ValueKind::NetAddrV4 => e matches ValueGetError::InvalidNetAddrV4(s) && s@ == t,
                ValueKind::NetAddrV6 => e matches ValueGetError::InvalidNetAddrV6(s) && s@ == t,
                _ => e matches ValueGetError::InvalidNetAddr(s) && s@ == t,
            },
        },
    }
}

/// A `/` stands in `p + "/" + q`.
proof fn lemma_has_slash(p: Seq<char>, q: Seq<char>)
    ensures
        (p + seq!['/'] + q).contains('/'),
{
    assert((p + seq!['/'] + q)[p.len() as int] == '/');
}

/// The text of a network holds a `/`.
proof fn lemma_net_text_has_slash(v: ValueView)
    requires
        v is NetV4 || v is NetV6 || v is Net,
    ensures
        setting_text(v).contains('/'),
{
    match v {
        ValueView::NetV4(n) => lemma_has_slash(ipv4_text(n.spec_addr()), dec_nat(n.spec_width() as nat)),
        ValueView::NetV6(n) => lemma_has_slash(
            ipv6_text(n.spec_addr().segments@),
            dec_nat(n.spec_width() as nat),
        ),
        ValueView::Net(IpNetwork::V4(n)) => lemma_has_slash(
            ipv4_text(n.spec_addr()),
            dec_nat(n.spec_width() as nat),
        ),
        ValueView::Net(IpNetwork::V6(n)) => lemma_has_slash(
            ipv6_text(n.spec_addr().segments@),
            dec_nat(n.spec_width() as nat),
        ),
        _ => {},
    }
}

/// The value of kind `k` that the text `s` stands for; the text of an
/// address or network of kind `k` reads back as that address or network.
fn value_from_text(k: ValueKind, s: String) -> (res: Result<Value, ValueGetError>)
    requires
        is_text_kind(k),
    ensures
        res is Ok <==> text_value(k, s@) is Some,
        res matches Ok(v) ==> text_value(k, s@) == Some(v@),
        res matches Err(e) ==> match k {
            ValueKind::NetAddrV4 => e matches ValueGetError::InvalidNetAddrV4(t) && t@ == s@,
            ValueKind::NetAddrV6 => e matches ValueGetError::InvalidNetAddrV6(t) && t@ == s@,
            _ => e matches ValueGetError::InvalidNetAddr(t) && t@ == s@,
        },
        forall|v: ValueView|
            is_net_value(v) && net_widths_ok(v) && view_kind(v) == k && s@ == #[trigger] setting_text(
                v,
            ) ==> (res matches Ok(w) && w@ == v),
{
    match k {
        ValueKind::AString => Ok(Value::AString(s)),
        ValueKind::UString => Ok(Value::UString(s)),
        ValueKind::Uri => Ok(Value::Uri(s)),
        ValueKind::Fmri => Ok(Value::Fmri(s)),
        ValueKind::Host => Ok(Value::Host(s)),
        ValueKind::Hostname => Ok(Value::Hostname(s)),
        ValueKind::NetAddrV4 => {
            let addr = parse_ipv4(s.as_str());
            assert forall|v: ValueView| v is NetV4 && s@ == #[trigger] setting_text(v) implies addr is None by {
                lemma_net_text_has_slash(v);
            }
            if let Some(ip) = addr {
                Ok(Value::NetAddrV4(ip))
            } else if let Some(net) = parse_ipv4_net(s.as_str()) {
                Ok(Value::NetV4(net))
            } else {
                Err(ValueGetError::InvalidNetAddrV4(s))
            }
        },
        ValueKind::NetAddrV6 => {
            let addr = parse_ipv6(s.as_str());
            assert forall|v: ValueView| v is NetV6 && s@ == #[trigger] setting_text(v) implies addr is None by {
                lemma_net_text_has_slash(v);
            }
            if let Some(ip) = addr {
                Ok(Value::NetAddrV6(ip))
            } else if let Some(net) = parse_ipv6_net(s.as_str()) {
                Ok(Value::NetV6(net))
            } else {
                Err(ValueGetError::InvalidNetAddrV6(s))
            }
        },
        _ => {
            let addr = parse_ip(s.as_str());
            assert forall|v: ValueView| v is Net && s@ == #[trigger] setting_text(v) implies addr is None by {
                lemma_net_text_has_slash(v);
            }
            if let Some(ip) = addr {
                Ok(Value::NetAddr(ip))
            } else if let Some(net) = parse_ip_net(s.as_str()) {
                Ok(Value::Net(net))
            } else {
                Err(ValueGetError::InvalidNetAddr(s))
            }
        },
    }
}

/// The first `n` bytes of `buf`.
fn prefix_to_vec(buf: &[u8], n: usize) -> (v: Vec<u8>)
    requires
        n <= buf@.len(),
    ensures
        v@ == buf@.subrange(0, n as int),
{
    let mut v: Vec<u8> = Vec::new();
    let mut i: usize = 0;
    while i < n
        invariant
            i <= n <= buf@.len(),
            v@ == buf@.subrange(0, i as int),
        decreases n - i,
    {
        v.push(buf[i]);
        i = i + 1;
        assert(v@ =~= buf@.subrange(0, i as int));
    }
    v
}

/// `raw` is what the getter for kind `k` gives back from a faithful handle
/// in which the value `v` was stored (see [`stored_raw`]).
pub open spec fn is_stored_raw(k: ValueKind, raw: RawView, v: ValueView) -> bool {
    &&& value_setting(v) is Some
    &&& view_kind(v) == k
    &&& raw == stored_raw(value_setting(v)->Some_0)
}

/// A NUL-free text, stored NUL-terminated with its length, reads back as
/// itself.
proof fn lemma_stored_text(t: Seq<char>)
    requires
        no_nul_char(t),
    ensures
        scf_string_text(encode_utf8(t).push(0u8), encode_utf8(t).len() as int) == Some(t),
{
    let bytes = encode_utf8(t);
    let buf = bytes.push(0u8);
    lemma_encode_utf8_nul(t);
    encode_utf8_valid_utf8(t);
    encode_utf8_decode_utf8(t);
    assert(buf.subrange(0, bytes.len() as int) =~= bytes);
    assert(buf.subrange(0, bytes.len() as int + 1) =~= buf);
    assert(buf.subrange(0, bytes.len() as int + 1).subrange(0, bytes.len() as int) =~= bytes);
    assert(is_first_nul(buf, buf.len() - 1));
}

/// The value of kind `kind` that `scf_value_get_as_string` gave (it returned
/// `ret`, reported `last_error` and wrote `buf`).
fn decode_text(kind: ValueKind, ret: isize, last_error: u32, buf: &[u8]) -> (res: Result<
    Value,
    ValueGetError,
>)
    requires
        is_text_kind(kind),
    ensures
        res is Ok <==> decoded_value(kind, RawView::Text { ret: ret as int, last_error, buf: buf@ })
            is Some,
        res matches Ok(v) ==> decoded_value(
            kind,
            RawView::Text { ret: ret as int, last_error, buf: buf@ },
        ) == Some(v@),
        res matches Err(e) ==> decode_error(
            kind,
            RawView::Text { ret: ret as int, last_error, buf: buf@ },
            e,
        ),
        forall|v: ValueView|
            is_net_value(v) && net_widths_ok(v) && #[trigger] is_stored_raw(
                kind,
                RawView::Text { ret: ret as int, last_error, buf: buf@ },
                v,
            ) ==> (res matches Ok(w) && w@ == v),
{
    let res = match scf_get_string(ScfEntity::Value, buf, ret, last_error) {
        Ok(s) => value_from_text(kind, s.into_string()),
        Err(e) => Err(ValueGetError::GetAsString(e)),
    };
    proof {
        assert forall|v: ValueView|
            is_net_value(v) && net_widths_ok(v) && #[trigger] is_stored_raw(
                kind,
                RawView::Text { ret: ret as int, last_error, buf: buf@ },
                v,
            ) implies (res matches Ok(w) && w@ == v) by {
            lemma_stored_text(setting_text(v));
        }
    }
    res
}

/// The value of kind `kind` that a getter's output stands for (the decisions
/// of `ScfValue::get` once the getter for the kind has run). What a faithful
/// handle gives back for a stored value reads as that value.
pub fn decode_value(kind: ValueKind, raw: RawValue) -> (res: Result<Value, ValueGetError>)
    requires
        raw_fits_kind(kind, raw@),
        getter_status_ok(raw@),
    ensures
        res is Ok <==> decoded_value(kind, raw@) is Some,
        res matches Ok(v) ==> decoded_value(kind, raw@) == Some(v@),
        res matches Err(e) ==> decode_error(kind, raw@, e),
        forall|v: ValueView|
            #[trigger] is_stored_raw(kind, raw@, v) && net_widths_ok(v) && (v matches ValueView::Time(
                ts,
            ) ==> utc_timestamp_representable(ts.spec_secs(), ts.spec_nanos())) ==> (res matches Ok(
                w,
            ) && w@ == v),
{
    let ghost rv = raw@;
    let res = match raw {
        RawValue::Bool { ret, last_error, value } => match LibscfError::from_ret(ret, last_error) {
            Ok(()) => Ok(Value::Bool(value != 0)),
            Err(err) => Err(ValueGetError::GetBool(err)),
        },
        RawValue::Count { ret, last_error, value } => match LibscfError::from_ret(ret, last_error) {
            Ok(()) => Ok(Value::Count(value)),
            Err(err) => Err(ValueGetError::GetCount(err)),
        },
        RawValue::Integer { ret, last_error, value } => match LibscfError::from_ret(
            ret,
            last_error,
        ) {
            Ok(()) => Ok(Value::Integer(value)),
            Err(err) => Err(ValueGetError::GetInteger(err)),
        },
        RawValue::Time { ret, last_error, secs, nanos } => match LibscfError::from_ret(
            ret,
            last_error,
        ) {
            Err(err) => Err(ValueGetError::GetTime(err)),
            Ok(()) => if nanos < 0 {
                Err(ValueGetError::InvalidTime { secs, nanos })
            } else {
                let nanos_u32 = nanos as u32;
                match Timestamp::new(secs, nanos_u32) {
                    Some(ts) => {
                        proof {
                            Timestamp::lemma_parts(ts, secs, nanos_u32);
                        }
                        Ok(Value::Time(ts))
                    },
                    None => Err(ValueGetError::InvalidTime { secs, nanos }),
                }
            },
        },
        RawValue::Opaque { ret, last_error, buf } => match LibscfError::from_ssize(
            ret,
            last_error,
        ) {
            Err(err) => Err(ValueGetError::GetOpaque(err)),
            Ok(sz) => if sz > buf.len() {
                Err(ValueGetError::GetOpaqueOutOfBounds(sz))
            } else {
                Ok(Value::Opaque(prefix_to_vec(buf.as_slice(), sz)))
            },
        },
        RawValue::Text { ret, last_error, buf } => decode_text(
            kind,
            ret,
            last_error,
            buf.as_slice(),
        ),
    };
    proof {
        assert forall|v: ValueView|
            #[trigger] is_stored_raw(kind, rv, v) && net_widths_ok(v) && (v matches ValueView::Time(
                ts,
            ) ==> utc_timestamp_representable(ts.spec_secs(), ts.spec_nanos())) implies (
        res matches Ok(w) && w@ == v) by {
            if !is_net_value(v) {
                lemma_set_get_round_trip(v);
            }
        }
    }
    res
}

// ---------------------------------------------------------------------------
// Writing values.

/// How a value is handed to `libscf`: through the setter for its type, or as
/// text through `scf_value_set_from_string` with the value's type.
#[derive(Debug)]
pub enum ValueSetting<'a> {
    Bool(u8),
    Count(u64),
    Integer(i64),
    Time { seconds: i64, nanos: i32 },
    Opaque(&'a [u8]),
    FromString { scf_type: ScfType, text: Utf8CString },
}

/// The content of a [`ValueSetting`].
pub enum SettingView {
    Bool(u8),
    Count(u64),
    Integer(i64),
    Time { seconds: i64, nanos: i32 },
    Opaque(Seq<u8>),
    FromString { scf_type: ScfType, text: Seq<char> },
}

impl<'a> View for ValueSetting<'a> {
    type V = SettingView;

    open spec fn view(&self) -> SettingView {
        match self {
            ValueSetting::Bool(b) => SettingView::Bool(*b),
            ValueSetting::Count(n) => SettingView::Count(*n),
            ValueSetting::Integer(i) => SettingView::Integer(*i),
            ValueSetting::Time { seconds, nanos } => SettingView::Time {
                seconds: *seconds,
                nanos: *nanos,
            },
            ValueSetting::Opaque(d) => SettingView::Opaque(d@),
            ValueSetting::FromString { scf_type, text } => SettingView::FromString {
                scf_type: *scf_type,
                text: text@,
            },
        }
    }
}

/// Handing text of type `t` to `libscf`: possible when the text holds no NUL.
pub open spec fn text_setting(t: ScfType, s: Seq<char>) -> Option<SettingView> {
    if no_nul_char(s) {
        Some(SettingView::FromString { scf_type: t, text: s })
    } else {
        None
    }
}

/// How a value is handed to `libscf`, or `None` when it cannot be: text
/// with a NUL, or a time whose nanoseconds do not fit `libscf`'s `int`.
pub open spec fn value_setting(v: ValueView) -> Option<SettingView> {
    match v {
        ValueView::Bool(b) => Some(SettingView::Bool(if b { 1u8 } else { 0u8 })),
        ValueView::Count(n) => Some(SettingView::Count(n)),
        ValueView::Integer(i) => Some(SettingView::Integer(i)),
        ValueView::Time(ts) => if ts.spec_nanos() <= i32::MAX {
            Some(SettingView::Time { seconds: ts.spec_secs(), nanos: ts.spec_nanos() as i32 })
        } else {
            None
        },
        ValueView::Opaque(d) => Some(SettingView::Opaque(d)),
        ValueView::AString(s) => text_setting(ScfType::AString, s),
        ValueView::UString(s) => text_setting(ScfType::UString, s),
        ValueView::Uri(s) => text_setting(ScfType::Uri, s),
        ValueView::Fmri(s) => text_setting(ScfType::Fmri, s),
        ValueView::Host(s) => text_setting(ScfType::Host, s),
        ValueView::Hostname(s) => text_setting(ScfType::Hostname, s),
        ValueView::NetAddrV4(a) => text_setting(ScfType::NetAddrV4, ipv4_text(a)),
        ValueView::NetV4(n) => text_setting(ScfType::NetAddrV4, ipv4_net_text(n)),
        ValueView::NetAddrV6(a) => text_setting(ScfType::NetAddrV6, ipv6_text(a.segments@)),
        ValueView::NetV6(n) => text_setting(ScfType::NetAddrV6, ipv6_net_text(n)),
        ValueView::NetAddr(a) => text_setting(ScfType::NetAddr, ip_text(a)),
        ValueView::Net(n) => text_setting(ScfType::NetAddr, ip_net_text(n)),
    }
}

/// The text a value is handed over as, for values handed over as text.
pub open spec fn setting_text(v: ValueView) -> Seq<char> {
    match v {
        ValueView::AString(s) => s,
        ValueView::UString(s) => s,
        ValueView::Uri(s) => s,
        ValueView::Fmri(s) => s,
        ValueView::Host(s) => s,
        ValueView::Hostname(s) => s,
        ValueView::NetAddrV4(a) => ipv4_text(a),
        ValueView::NetV4(n) => ipv4_net_text(n),
        ValueView::NetAddrV6(a) => ipv6_text(a.segments@),
        ValueView::NetV6(n) => ipv6_net_text(n),
        ValueView::NetAddr(a) => ip_text(a),
        ValueView::Net(n) => ip_net_text(n),
        _ => Seq::empty(),
    }
}

/// Whether a value is handed to `libscf` as text.
pub open spec fn is_text_value(v: ValueView) -> bool {
    is_text_kind(view_kind(v))
}

/// `e` is the error for a value that cannot be handed to `libscf`.
pub open spec fn setting_error(v: ValueView, e: ValueSetError) -> bool {
    match v {
        ValueView::Time(ts) => e == ValueSetError::InvalidTimestampNanos {
            timestamp: ts,
            seconds: ts.spec_secs(),
            nanos: ts.spec_nanos(),
        },
        _ => e matches ValueSetError::InvalidString { value, err } && value@ == setting_text(v)
            && is_first_nul(encode_utf8(setting_text(v)), err.nul_position as int),
    }
}

/// Text of type `t` as a C string for `libscf`.
fn text_to_setting<'a>(t: ScfType, s: &str) -> (res: Result<ValueSetting<'a>, ValueSetError>)
    ensures
        res is Ok <==> text_setting(t, s@) is Some,
        res matches Ok(st) ==> text_setting(t, s@) == Some(st@),
        res matches Err(e) ==> (e matches ValueSetError::InvalidString { value, err } && value@
            == s@ && is_first_nul(encode_utf8(s@), err.nul_position as int)),
{
    match Utf8CString::from_str(s) {
        Ok(text) => Ok(ValueSetting::FromString { scf_type: t, text }),
        Err(err) => Err(ValueSetError::InvalidString { value: s.to_owned(), err }),
    }
}

/// How `value` is handed to `libscf` (the decisions of `ScfValue::set`
/// before the setter runs).
pub fn plan_value_set<'a>(value: ValueRef<'a>) -> (res: Result<ValueSetting<'a>, ValueSetError>)
    ensures
        res is Ok <==> value_setting(value@) is Some,
        res matches Ok(st) ==> value_setting(value@) == Some(st@),
        res matches Err(e) ==> setting_error(value@, e),
{
    match value {
        ValueRef::Bool(b) => Ok(ValueSetting::Bool(if b { 1u8 } else { 0u8 })),
        ValueRef::Count(n) => Ok(ValueSetting::Count(n)),
        ValueRef::Integer(i) => Ok(ValueSetting::Integer(i)),
        ValueRef::Time(timestamp) => {
            let seconds = timestamp.timestamp();
            let nanos = timestamp.timestamp_subsec_nanos();
            if nanos > 2147483647u32 {
                Err(ValueSetError::InvalidTimestampNanos { timestamp, seconds, nanos })
            } else {
                Ok(ValueSetting::Time { seconds, nanos: nanos as i32 })
            }
        },
        ValueRef::Opaque(data) => Ok(ValueSetting::Opaque(data)),
        ValueRef::AString(s) => text_to_setting(ScfType::AString, s),
        ValueRef::UString(s) => text_to_setting(ScfType::UString, s),
        ValueRef::Uri(s) => text_to_setting(ScfType::Uri, s),
        ValueRef::Fmri(s) => text_to_setting(ScfType::Fmri, s),
        ValueRef::Host(s) => text_to_setting(ScfType::Host, s),
        ValueRef::Hostname(s) => text_to_setting(ScfType::Hostname, s),
        ValueRef::NetAddrV4(ip) => text_to_setting(ScfType::NetAddrV4, ip.to_text().as_str()),
        ValueRef::NetV4(ip) => {
            let mut t = String::new();
            ip.push_text(&mut t);
            assert(t@ =~= ipv4_net_text(ip));
            text_to_setting(ScfType::NetAddrV4, t.as_str())
        },
        ValueRef::NetAddrV6(ip) => text_to_setting(ScfType::NetAddrV6, ip.to_text().as_str()),
        ValueRef::NetV6(ip) => {
            let mut t = String::new();
            ip.push_text(&mut t);
            assert(t@ =~= ipv6_net_text(ip));
            text_to_setting(ScfType::NetAddrV6, t.as_str())
        },
        ValueRef::NetAddr(ip) => text_to_setting(ScfType::NetAddr, ip.to_text().as_str()),
        ValueRef::Net(ipnet) => {
            let mut t = String::new();
            ipnet.push_text(&mut t);
            assert(t@ =~= ip_net_text(ipnet));
            text_to_setting(ScfType::NetAddr, t.as_str())
        },
    }
}

/// The result of setting `value` once the setter ran: it returned `ret`
/// (`0` on success; setters that cannot fail count as returning `0`) and
/// `libscf` reported `last_error`.
pub fn finish_value_set(value: ValueRef<'_>, ret: i32, last_error: u32) -> (res: Result<
    (),
    ValueSetError,
>)
    requires
        ret <= 0,
    ensures
        ret == 0 <==> res is Ok,
        res matches Err(e) ==> (e matches ValueSetError::SetFailed { value: v, err } && v@
            == value@ && err == libscf_error_of_code(last_error)),
{
    match LibscfError::from_ret(ret, last_error) {
        Ok(()) => Ok(()),
        Err(err) => Err(ValueSetError::SetFailed { value: value.to_value(), err }),
    }
}

// ---------------------------------------------------------------------------
// Laws.

/// What a faithful value handle gives back through the getter for a value's
/// kind once a setting was stored in it: numbers as they were stored, opaque
/// data in a buffer of its own length, and text NUL-terminated.
pub open spec fn stored_raw(s: SettingView) -> RawView {
    match s {
        SettingView::Bool(b) => RawView::Bool { ret: 0, last_error: 0, value: b },
        SettingView::Count(n) => RawView::Count { ret: 0, last_error: 0, value: n },
        SettingView::Integer(i) => RawView::Integer { ret: 0, last_error: 0, value: i },
        SettingView::Time { seconds, nanos } => RawView::Time {
            ret: 0,
            last_error: 0,
            secs: seconds,
            nanos,
        },
        SettingView::Opaque(d) => RawView::Opaque { ret: d.len() as int, last_error: 0, buf: d },
        SettingView::FromString { text, .. } => RawView::Text {
            ret: encode_utf8(text).len() as int,
            last_error: 0,
            buf: encode_utf8(text).push(0u8),
        },
    }
}

/// The networks in `v` have prefix widths their address family allows, as
/// the network types guarantee of every value they hold.
pub open spec fn net_widths_ok(v: ValueView) -> bool {
    match v {
        ValueView::NetV4(n) => n.spec_width() <= IPV4_NET_WIDTH_MAX,
        ValueView::NetV6(n) => n.spec_width() <= IPV6_NET_WIDTH_MAX,
        ValueView::Net(n) => ip_net_width_ok(n),
        _ => true,
    }
}

/// Whether a value is an address or network (read back through the standard
/// library's and `oxnet`'s parsers).
pub open spec fn is_net_value(v: ValueView) -> bool {
    v is NetAddrV4 || v is NetV4 || v is NetAddrV6 || v is NetV6 || v is NetAddr || v is Net
}

/// A value that can be handed to `libscf` reads back as the same value from
/// a faithful handle: the getter for its kind, run on what was stored, gives
/// the value back. Addresses and networks read back through outside parsers,
/// whose facts come with each call: `decode_value` states the round trip for
/// them.
pub proof fn lemma_set_get_round_trip(v: ValueView)
    requires
        value_setting(v) is Some,
        !is_net_value(v),
        v matches ValueView::Time(ts) ==> utc_timestamp_representable(
            ts.spec_secs(),
            ts.spec_nanos(),
        ),
    ensures
        raw_fits_kind(view_kind(v), stored_raw(value_setting(v)->Some_0)),
        decoded_value(view_kind(v), stored_raw(value_setting(v)->Some_0)) == Some(v),
{
    let s = value_setting(v)->Some_0;
    match v {
        ValueView::Time(ts) => {
            Timestamp::lemma_parts(ts, ts.spec_secs(), ts.spec_nanos());
        },
        ValueView::Opaque(d) => {
            assert(d.subrange(0, d.len() as int) =~= d);
        },
        ValueView::Bool(_) | ValueView::Count(_) | ValueView::Integer(_) => {},
        _ => {
            lemma_stored_text(setting_text(v));
        },
    }
}

/// The text a value is handed to `libscf` as is the text SMF shows for it.
pub proof fn lemma_setting_text_is_smf_text(v: ValueView)
    requires
        is_text_value(v),
        value_setting(v) is Some,
    ensures
        value_setting(v) == Some(SettingView::FromString {
            scf_type: kind_scf_type(view_kind(v)),
            text: smf_text(v),
        }),
{
}

/// A value's kind is the kind its variant names (networks take the kind of
/// their address family), and that is the SMF type it is declared and handed
/// to `libscf` under; text read under a string kind is a value of that kind.
pub proof fn lemma_value_variant_kind(v: ValueView, t: Seq<char>)
    ensures
        v is Bool ==> view_kind(v) == ValueKind::Bool,
        v is Count ==> view_kind(v) == ValueKind::Count,
        v is Integer ==> view_kind(v) == ValueKind::Integer,
        v is Time ==> view_kind(v) == ValueKind::Time,
        v is AString ==> view_kind(v) == ValueKind::AString,
        v is Opaque ==> view_kind(v) == ValueKind::Opaque,
        v is UString ==> view_kind(v) == ValueKind::UString,
        v is Uri ==> view_kind(v) == ValueKind::Uri,
        v is Fmri ==> view_kind(v) == ValueKind::Fmri,
        v is Host ==> view_kind(v) == ValueKind::Host,
        v is Hostname ==> view_kind(v) == ValueKind::Hostname,
        (v is NetAddrV4 || v is NetV4) ==> view_kind(v) == ValueKind::NetAddrV4,
        (v is NetAddrV6 || v is NetV6) ==> view_kind(v) == ValueKind::NetAddrV6,
        (v is NetAddr || v is Net) ==> view_kind(v) == ValueKind::NetAddr,
        v is Bool ==> value_setting(v) == Some(SettingView::Bool(if v->Bool_0 { 1u8 } else { 0u8 })),
        v is Time && v->Time_0.spec_nanos() <= i32::MAX ==> value_setting(v) == Some(
            SettingView::Time { seconds: v->Time_0.spec_secs(), nanos: v->Time_0.spec_nanos() as i32 },
        ),
        v is Count ==> value_setting(v) == Some(SettingView::Count(v->Count_0)),
        v is Integer ==> value_setting(v) == Some(SettingView::Integer(v->Integer_0)),
        v is Opaque ==> value_setting(v) == Some(SettingView::Opaque(v->Opaque_0)),
        v is Host && no_nul_char(v->Host_0) ==> value_setting(v) == Some(
            SettingView::FromString { scf_type: ScfType::Host, text: v->Host_0 },
        ),
        v is Hostname && no_nul_char(v->Hostname_0) ==> value_setting(v) == Some(
            SettingView::FromString { scf_type: ScfType::Hostname, text: v->Hostname_0 },
        ),
        is_text_value(v) && no_nul_char(setting_text(v)) ==> value_setting(v) == Some(
            SettingView::FromString { scf_type: kind_scf_type(view_kind(v)), text: setting_text(v) },
        ),
        text_value(ValueKind::AString, t) == Some(ValueView::AString(t)),
        text_value(ValueKind::UString, t) == Some(ValueView::UString(t)),
        text_value(ValueKind::Uri, t) == Some(ValueView::Uri(t)),
        text_value(ValueKind::Fmri, t) == Some(ValueView::Fmri(t)),
        text_value(ValueKind::Host, t) == Some(ValueView::Host(t)),
        text_value(ValueKind::Hostname, t) == Some(ValueView::Hostname(t)),
        forall|k: ValueKind| #[trigger] text_value(k, t) matches Some(w) ==> view_kind(w) == k,
{
}

} // verus!
