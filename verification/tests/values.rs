use scuffle::net::IpAddress;
use scuffle::net::IpNetwork;
use scuffle::net::Ipv4Address;
use scuffle::net::Ipv4Network;
use scuffle::net::Ipv6Address;
use scuffle::net::Ipv6Network;
use scuffle::scf_value::decode_value;
use scuffle::scf_value::finish_value_set;
use scuffle::scf_value::plan_value_set;
use scuffle::scf_value::value_kind_from_type_code;
use scuffle::scf_value::RawValue;
use scuffle::scf_value::ScfType;
use scuffle::scf_value::ValueSetting;
use scuffle::error::LibscfError;
use scuffle::error::ValueGetError;
use scuffle::error::ValueSetError;
use scuffle::Timestamp;
use scuffle::Value;
use scuffle::ValueKind;

/// What a faithful `libscf` value handle gives back for a stored setting.
fn stored(kind: ValueKind, setting: &ValueSetting<'_>) -> RawValue {
    match setting {
        ValueSetting::Bool(b) => RawValue::Bool { ret: 0, last_error: 0, value: *b },
        ValueSetting::Count(n) => RawValue::Count { ret: 0, last_error: 0, value: *n },
        ValueSetting::Integer(i) => RawValue::Integer { ret: 0, last_error: 0, value: *i },
        ValueSetting::Time { seconds, nanos } => {
            RawValue::Time { ret: 0, last_error: 0, secs: *seconds, nanos: *nanos }
        }
        ValueSetting::Opaque(d) => {
            let mut buf = d.to_vec();
            buf.resize(4096, 0xAA);
            RawValue::Opaque { ret: d.len() as isize, last_error: 0, buf }
        }
        ValueSetting::FromString { scf_type, text } => {
            assert_eq!(scf_type.code(), kind.to_scf_type().code());
            let mut buf = text.as_str().as_bytes().to_vec();
            let len = buf.len();
            buf.push(0);
            buf.resize(4096, 0);
            RawValue::Text { ret: len as isize, last_error: 0, buf }
        }
    }
}

fn sample_values() -> Vec<Value> {
    vec![
        Value::Bool(true),
        Value::Bool(false),
        Value::Count(0),
        Value::Count(u64::MAX),
        Value::Integer(i64::MIN),
        Value::Integer(-42),
        Value::Time(Timestamp::new(1_700_000_000, 0).unwrap()),
        Value::Time(Timestamp::new(-5, 123).unwrap()),
        Value::AString("hello world".to_string()),
        Value::Opaque(vec![0, 1, 0xfe, 0xff]),
        Value::Opaque(vec![]),
        Value::UString("héllo ☃".to_string()),
        Value::Uri("abc123".to_string()),
        Value::Fmri("svc".to_string()),
        Value::Host("example.com".to_string()),
        Value::Hostname("host".to_string()),
        Value::NetAddrV4(Ipv4Address { octets: [192, 168, 1, 10] }),
        Value::NetV4(Ipv4Network::new(Ipv4Address { octets: [10, 0, 0, 0] }, 8).unwrap()),
        Value::NetAddrV6(Ipv6Address { segments: [0xfe80, 0, 0, 0, 0, 0, 0, 1] }),
        Value::NetV6(
            Ipv6Network::new(Ipv6Address { segments: [0x2001, 0xdb8, 0, 0, 0, 0, 0, 0] }, 32)
                .unwrap(),
        ),
        Value::NetAddr(IpAddress::V4(Ipv4Address { octets: [127, 0, 0, 1] })),
        Value::Net(IpNetwork::V6(
            Ipv6Network::new(Ipv6Address { segments: [0xfd00, 0, 0, 0, 0, 0, 0, 0] }, 8).unwrap(),
        )),
    ]
}

#[test]
fn value_get_set_roundtrip() {
    for val in sample_values() {
        let setting = plan_value_set(val.as_value_ref()).expect("set value");
        let kind = val.kind();
        let raw = stored(kind, &setting);
        let code = kind.to_scf_type().code();
        assert_eq!(value_kind_from_type_code(code, 0).unwrap(), kind);
        let roundtrip = decode_value(kind, raw).expect("got value");
        assert_eq!(roundtrip, val);
    }
}

/// The text SMF shows for a value (what `scf_value_get_as_string` gives),
/// written with the standard library's and `oxnet`'s formatting.
fn smf_reference(val: &Value) -> String {
    let v4 = |a: &Ipv4Address| core::net::Ipv4Addr::from(a.octets);
    let v6 = |a: &Ipv6Address| core::net::Ipv6Addr::from(a.segments);
    let net4 = |n: &Ipv4Network| oxnet::Ipv4Net::new(v4(&n.addr()), n.width()).unwrap().to_string();
    let net6 = |n: &Ipv6Network| oxnet::Ipv6Net::new(v6(&n.addr()), n.width()).unwrap().to_string();
    match val {
        Value::Bool(b) => b.to_string(),
        Value::Count(n) => n.to_string(),
        Value::Integer(i) => i.to_string(),
        Value::Time(t) => {
            let (secs, nanos) = (t.timestamp(), t.timestamp_subsec_nanos());
            if nanos == 0 { secs.to_string() } else { format!("{secs}.{nanos:09}") }
        }
        Value::Opaque(data) => data.iter().map(|b| format!("{b:02x}")).collect(),
        Value::AString(s)
        | Value::UString(s)
        | Value::Uri(s)
        | Value::Fmri(s)
        | Value::Host(s)
        | Value::Hostname(s) => s.clone(),
        Value::NetAddrV4(a) => v4(a).to_string(),
        Value::NetV4(n) => net4(n),
        Value::NetAddrV6(a) => v6(a).to_string(),
        Value::NetV6(n) => net6(n),
        Value::NetAddr(IpAddress::V4(a)) => v4(a).to_string(),
        Value::NetAddr(IpAddress::V6(a)) => v6(a).to_string(),
        Value::Net(IpNetwork::V4(n)) => net4(n),
        Value::Net(IpNetwork::V6(n)) => net6(n),
    }
}

#[test]
fn value_display_smf_matches() {
    for val in sample_values() {
        let displayed = val.display_smf().to_string();
        assert_eq!(displayed, smf_reference(&val), "display of {val:?}");
        if let Ok(ValueSetting::FromString { text, .. }) = plan_value_set(val.as_value_ref()) {
            assert_eq!(displayed, text.as_str());
        }
    }
}

#[test]
fn display_smf_examples() {
    assert_eq!(Value::Bool(true).display_smf().to_string(), "true");
    assert_eq!(Value::Bool(false).display_smf().to_string(), "false");
    assert_eq!(Value::Count(18446744073709551615).display_smf().to_string(), "18446744073709551615");
    assert_eq!(Value::Integer(i64::MIN).display_smf().to_string(), "-9223372036854775808");
    assert_eq!(Value::Integer(0).display_smf().to_string(), "0");
    let t = Timestamp::new(1_700_000_000, 5).unwrap();
    assert_eq!(Value::Time(t).display_smf().to_string(), "1700000000.000000005");
    let t = Timestamp::new(-3, 0).unwrap();
    assert_eq!(Value::Time(t).display_smf().to_string(), "-3");
    let leap = Timestamp::new(59, 1_500_000_000).unwrap();
    assert_eq!(Value::Time(leap).display_smf().to_string(), "59.1500000000");
    assert_eq!(Value::Opaque(vec![0x00, 0x0f, 0xab, 0xff]).display_smf().to_string(), "000fabff");
    assert_eq!(Value::Opaque(vec![]).display_smf().to_string(), "");
    assert_eq!(
        Value::NetAddrV4(Ipv4Address { octets: [1, 22, 133, 0] }).display_smf().to_string(),
        "1.22.133.0"
    );
    assert_eq!(
        Value::NetV4(Ipv4Network::new(Ipv4Address { octets: [10, 1, 0, 0] }, 16).unwrap())
            .display_smf()
            .to_string(),
        "10.1.0.0/16"
    );
    assert_eq!(
        Value::NetAddrV6(Ipv6Address { segments: [0x2001, 0xdb8, 0, 0, 0, 0, 0, 1] })
            .display_smf()
            .to_string(),
        "2001:db8::1"
    );
    assert_eq!(Value::Hostname("h".to_string()).display_smf().to_string(), "h");
}

#[test]
fn value_kinds_and_names() {
    assert_eq!(Value::NetV4(Ipv4Network::new(Ipv4Address { octets: [0; 4] }, 0).unwrap()).kind(), ValueKind::NetAddrV4);
    assert_eq!(ValueKind::NetAddrV4.to_string(), "net_address_v4");
    assert_eq!(ValueKind::Bool.to_string(), "boolean");
    assert_eq!(ValueKind::NetAddr.as_str(), "net_address");
    assert_eq!(ValueKind::Opaque.to_scf_type(), ScfType::Opaque);
    assert_eq!(ScfType::UString.code(), 100);
    assert_eq!(ScfType::from_code(303), Some(ScfType::NetAddrV6));
    assert_eq!(ScfType::from_code(7), None);
    for val in sample_values() {
        assert_eq!(val.as_value_ref().to_value(), val);
        assert_eq!(val.as_value_ref().kind(), val.kind());
    }
}

#[test]
fn value_type_code_errors() {
    assert_eq!(value_kind_from_type_code(42, 0), Err(ValueGetError::UnexpectedTypeValue(42)));
    assert_eq!(
        value_kind_from_type_code(0, 1019),
        Err(ValueGetError::Invalid(LibscfError::Deleted))
    );
    assert_eq!(value_kind_from_type_code(4, 0), Ok(ValueKind::Time));
}

#[test]
fn value_decode_errors() {
    assert_eq!(
        decode_value(ValueKind::Bool, RawValue::Bool { ret: -1, last_error: 1003, value: 0 }),
        Err(ValueGetError::GetBool(LibscfError::NotFound))
    );
    assert_eq!(
        decode_value(ValueKind::Count, RawValue::Count { ret: -1, last_error: 1007, value: 0 }),
        Err(ValueGetError::GetCount(LibscfError::InvalidArgument))
    );
    assert_eq!(
        decode_value(ValueKind::Integer, RawValue::Integer { ret: -1, last_error: 1, value: 0 }),
        Err(ValueGetError::GetInteger(LibscfError::Unknown(1)))
    );
    assert_eq!(
        decode_value(ValueKind::Time, RawValue::Time { ret: -1, last_error: 1006, secs: 0, nanos: 0 }),
        Err(ValueGetError::GetTime(LibscfError::ConnectionBroken))
    );
    assert_eq!(
        decode_value(ValueKind::Time, RawValue::Time { ret: 0, last_error: 0, secs: 1, nanos: -1 }),
        Err(ValueGetError::InvalidTime { secs: 1, nanos: -1 })
    );
    assert_eq!(
        decode_value(ValueKind::Time, RawValue::Time { ret: 0, last_error: 0, secs: i64::MAX, nanos: 0 }),
        Err(ValueGetError::InvalidTime { secs: i64::MAX, nanos: 0 })
    );
    assert_eq!(
        decode_value(ValueKind::Opaque, RawValue::Opaque { ret: -1, last_error: 1008, buf: vec![0; 4] }),
        Err(ValueGetError::GetOpaque(LibscfError::NoMemory))
    );
    assert_eq!(
        decode_value(ValueKind::Opaque, RawValue::Opaque { ret: 5, last_error: 0, buf: vec![0; 4] }),
        Err(ValueGetError::GetOpaqueOutOfBounds(5))
    );
    assert_eq!(
        decode_value(ValueKind::Opaque, RawValue::Opaque { ret: 2, last_error: 0, buf: vec![7, 8, 9, 10] }),
        Ok(Value::Opaque(vec![7, 8]))
    );
    let mut buf = b"not-an-ip".to_vec();
    buf.push(0);
    assert_eq!(
        decode_value(ValueKind::NetAddrV4, RawValue::Text { ret: 9, last_error: 0, buf: buf.clone() }),
        Err(ValueGetError::InvalidNetAddrV4("not-an-ip".to_string()))
    );
    assert_eq!(
        decode_value(ValueKind::NetAddrV6, RawValue::Text { ret: 9, last_error: 0, buf: buf.clone() }),
        Err(ValueGetError::InvalidNetAddrV6("not-an-ip".to_string()))
    );
    assert_eq!(
        decode_value(ValueKind::NetAddr, RawValue::Text { ret: 9, last_error: 0, buf }),
        Err(ValueGetError::InvalidNetAddr("not-an-ip".to_string()))
    );
    let buf = b"10.0.0.0/33\0".to_vec();
    assert!(matches!(
        decode_value(ValueKind::NetAddrV4, RawValue::Text { ret: 11, last_error: 0, buf }),
        Err(ValueGetError::InvalidNetAddrV4(_))
    ));
    let buf = b"10.0.0.0/24\0".to_vec();
    assert_eq!(
        decode_value(ValueKind::NetAddr, RawValue::Text { ret: 11, last_error: 0, buf }),
        Ok(Value::Net(IpNetwork::V4(Ipv4Network::new(Ipv4Address { octets: [10, 0, 0, 0] }, 24).unwrap())))
    );
    let buf = b"10.0.0.1\0".to_vec();
    assert_eq!(
        decode_value(ValueKind::NetAddrV4, RawValue::Text { ret: 8, last_error: 0, buf }),
        Ok(Value::NetAddrV4(Ipv4Address { octets: [10, 0, 0, 1] }))
    );
}

#[test]
fn value_set_errors() {
    let err = plan_value_set(Value::AString("a\0b".to_string()).as_value_ref()).unwrap_err();
    match err {
        ValueSetError::InvalidString { value, err } => {
            assert_eq!(value, "a\0b");
            assert_eq!(err.nul_position(), 1);
        }
        other => panic!("unexpected {other:?}"),
    }
    let err = finish_value_set(Value::Count(3).as_value_ref(), -1, 1009).unwrap_err();
    assert_eq!(
        err,
        ValueSetError::SetFailed { value: Value::Count(3), err: LibscfError::ConstraintViolated }
    );
    assert_eq!(finish_value_set(Value::Count(3).as_value_ref(), 0, 1009), Ok(()));
    match plan_value_set(Value::Bool(true).as_value_ref()).unwrap() {
        ValueSetting::Bool(1) => {}
        other => panic!("unexpected {other:?}"),
    }
    match plan_value_set(Value::Time(Timestamp::new(7, 1_000_000_001 - 1).unwrap_or(Timestamp::new(7, 9).unwrap())).as_value_ref()).unwrap() {
        ValueSetting::Time { seconds: 7, .. } => {}
        other => panic!("unexpected {other:?}"),
    }
}

#[test]
fn timestamp_bounds() {
    assert!(Timestamp::new(0, 2_000_000_000).is_none());
    assert!(Timestamp::new(0, 1_000_000_000).is_none());
    assert!(Timestamp::new(59, 1_000_000_000).is_some());
    assert!(Timestamp::new(i64::MIN, 0).is_none());
    let t = Timestamp::new(12, 34).unwrap();
    assert_eq!(t.timestamp(), 12);
    assert_eq!(t.timestamp_subsec_nanos(), 34);
}
