use scuffle::error::HandleCreateError;
use scuffle::error::InstanceFromFmriError;
use scuffle::error::InstanceRefreshError;
use scuffle::error::IterError;
use scuffle::error::IterErrorKind;
use scuffle::error::LibscfError;
use scuffle::error::LookupError;
use scuffle::error::PropertyGroupAddError;
use scuffle::error::PropertyGroupDeleteError;
use scuffle::error::PropertyGroupKind;
use scuffle::error::PropertyGroupTypeError;
use scuffle::error::PropertyGroupUpdateError;
use scuffle::error::ScfEntity;
use scuffle::error::ScfEntityDescription;
use scuffle::error::ScfError;
use scuffle::error::ScfStringError;
use scuffle::error::ScopeError;
use scuffle::error::SingleValueError;
use scuffle::error::TransactionBuildError;
use scuffle::error::TransactionCommitError;
use scuffle::error::TransactionOp;
use scuffle::error::TransactionPropertyError;
use scuffle::error::ValueGetError;
use scuffle::error::ValueSetError;
use scuffle::utf8cstring::FromBytesWithNulError;
use scuffle::utf8cstring::Utf8CString;
use scuffle::Timestamp;
use scuffle::Value;
use scuffle::ValueKind;

fn instance_desc() -> ScfEntityDescription {
    ScfEntityDescription::Instance { fmri: "svc:/test-svc:default".to_string() }
}

fn pg_desc() -> ScfEntityDescription {
    ScfEntityDescription::PropertyGroup {
        fmri: "svc:/test-svc:default/:properties/pg".to_string(),
        kind: PropertyGroupKind::InstanceComposed,
    }
}

fn nul_error(text: &str) -> scuffle::utf8cstring::NulError {
    Utf8CString::from_str(text).unwrap_err()
}

fn handle_err() -> HandleCreateError {
    HandleCreateError { entity: ScfEntity::PropertyGroup, err: LibscfError::NoMemory }
}

#[test]
fn handle_and_lookup_messages() {
    assert_eq!(handle_err().to_string(), "failed to create property group handle");
    assert_eq!(
        LookupError::HandleCreate(handle_err()).to_string(),
        "failed to create property group handle"
    );
    let name = "svc\0bad\"x";
    let err = LookupError::InvalidName {
        entity: ScfEntity::Service,
        name: name.to_string(),
        err: nul_error(name),
    };
    assert_eq!(err.to_string(), format!("invalid service name {name:?}"));
    let err = LookupError::Get {
        entity: ScfEntity::PropertyGroup,
        parent: instance_desc(),
        name: "pg".to_string(),
        err: LibscfError::ConnectionBroken,
    };
    assert_eq!(
        err.to_string(),
        "failed to get property group `pg` within `svc:/test-svc:default`"
    );
}

#[test]
fn instance_messages() {
    let fmri = "svc:/a\0b";
    assert_eq!(
        InstanceFromFmriError::InvalidFmri { fmri: fmri.to_string(), err: nul_error(fmri) }
            .to_string(),
        format!("invalid FMRI {fmri:?}")
    );
    assert_eq!(
        InstanceFromFmriError::Get { fmri: "svc:/x:y".to_string(), err: LibscfError::NotFound }
            .to_string(),
        "failed to get instance `svc:/x:y`"
    );
    assert_eq!(
        InstanceFromFmriError::GetName {
            fmri: "svc:/x:y".to_string(),
            err: ScfStringError::Get { entity: ScfEntity::Name, err: LibscfError::NotFound },
        }
        .to_string(),
        "failed to get name of instance `svc:/x:y` from libscf"
    );
    assert_eq!(
        InstanceRefreshError::InvalidFmri { fmri: fmri.to_string(), err: nul_error(fmri) }
            .to_string(),
        format!("invalid instance FMRI {fmri:?}")
    );
    assert_eq!(
        InstanceRefreshError::Failed { fmri: "svc:/x:y".to_string(), err: LibscfError::Deleted }
            .to_string(),
        "failed to refresh instance `svc:/x:y`"
    );
}

#[test]
fn iteration_and_string_messages() {
    assert_eq!(IterErrorKind::Init(LibscfError::NoMemory).to_string(), "failed to initialize iterator");
    assert_eq!(IterErrorKind::GetNext(LibscfError::NoMemory).to_string(), "failed to get next item");
    let err = IterError::Iter {
        entity: ScfEntity::Snapshot,
        parent: instance_desc(),
        kind: IterErrorKind::GetNext(LibscfError::Deleted),
    };
    assert_eq!(err.to_string(), "failed to iterate snapshot over `svc:/test-svc:default`");
    assert_eq!(
        ScfStringError::OutOfBounds { entity: ScfEntity::Value, scf_len: 300, max_len: 256 }
            .to_string(),
        "libscf returned value of length 300 (expected at most 256)"
    );
    assert_eq!(
        ScfStringError::Get { entity: ScfEntity::Name, err: LibscfError::NotFound }.to_string(),
        "failed to get name as string"
    );
    assert_eq!(
        ScfStringError::InvalidCString(FromBytesWithNulError::NotNulTerminated).to_string(),
        "received invalid C string from libscf"
    );
}

#[test]
fn connection_messages() {
    assert_eq!(ScopeError::GetLocalScope(LibscfError::NotFound).to_string(), "failed to get local scope");
    assert_eq!(ScfError::HandleBind(LibscfError::NoServer).to_string(), "failed to bind scf handle");
    assert_eq!(
        ScfError::SetDecorationZoneName {
            zonename: "myzone".to_string(),
            err: LibscfError::InvalidArgument,
        }
        .to_string(),
        "failed to set decoration to attach to zone myzone"
    );
    let zonename = "my\0zone";
    assert_eq!(
        ScfError::SetZoneName {
            zonename: zonename.to_string(),
            err: ValueSetError::InvalidString {
                value: zonename.to_string(),
                err: nul_error(zonename),
            },
        }
        .to_string(),
        format!("failed to set zone name to {zonename} during connect")
    );
}

#[test]
fn value_messages() {
    assert_eq!(
        ValueSetError::SetFailed { value: Value::Count(42), err: LibscfError::NoMemory }.to_string(),
        "failed to set value `42` on internal libscf value"
    );
    let text = "a\0\tb";
    assert_eq!(
        ValueSetError::InvalidString { value: text.to_string(), err: nul_error(text) }.to_string(),
        format!("invalid string value {text:?}")
    );
    let ts = Timestamp::new(1_700_000_099, 1_500_000_000).unwrap();
    let shown = chrono::DateTime::<chrono::Utc>::from_timestamp(1_700_000_099, 1_500_000_000)
        .unwrap()
        .to_string();
    assert_eq!(
        ValueSetError::InvalidTimestampNanos {
            timestamp: ts,
            seconds: 1_700_000_099,
            nanos: 1_500_000_000,
        }
        .to_string(),
        format!("invalid subsecond nanos in timestamp {shown} (1700000099.1500000000)")
    );
    assert_eq!(ValueGetError::UnexpectedTypeValue(-7).to_string(), "unexpected scf type value: -7");
    assert_eq!(ValueGetError::GetBool(LibscfError::NotSet).to_string(), "failed to get value as boolean");
    for (secs, nanos) in [(5i64, 42i32), (-3, -5), (0, -123_456_789), (9, 0)] {
        assert_eq!(
            ValueGetError::InvalidTime { secs, nanos }.to_string(),
            format!("timestamp value from scf is invalid: {secs}.{nanos:09}")
        );
    }
    assert_eq!(
        ValueGetError::GetOpaqueOutOfBounds(5000).to_string(),
        "failed to get value as opaque: got out of bounds length 5000"
    );
    assert_eq!(
        ValueGetError::InvalidNetAddrV6("zz".to_string()).to_string(),
        "invalid net address v6 value: zz"
    );
}

#[test]
fn property_and_group_messages() {
    let prop = ScfEntityDescription::Property {
        fmri: "svc:/s:i/:properties/pg/p".to_string(),
        from_pg_kind: PropertyGroupKind::DirectAttached,
    };
    assert_eq!(
        SingleValueError::NoValues { description: prop.clone() }.to_string(),
        "property `svc:/s:i/:properties/pg/p` has no values"
    );
    assert_eq!(
        SingleValueError::MultipleValues { description: prop }.to_string(),
        "property `svc:/s:i/:properties/pg/p` has more than one value"
    );
    assert_eq!(
        PropertyGroupUpdateError::Failed { description: pg_desc(), err: LibscfError::Deleted }
            .to_string(),
        "failed to update property group `svc:/test-svc:default/:properties/pg` (composed view)"
    );
    assert_eq!(
        PropertyGroupTypeError::UnknownType { description: pg_desc(), type_: "weird_type".to_string() }
            .to_string(),
        "unknown type for property group `svc:/test-svc:default/:properties/pg` (composed view): `weird_type`"
    );
    let name = "bad\0name";
    assert_eq!(
        PropertyGroupAddError::InvalidName {
            parent: instance_desc(),
            name: name.to_string(),
            err: nul_error(name),
        }
        .to_string(),
        format!("invalid property group name {name:?} in `svc:/test-svc:default`")
    );
    assert_eq!(
        PropertyGroupAddError::DeletedDuringEnsure { parent: instance_desc(), name: "pg".to_string() }
            .to_string(),
        "property group `pg` on `svc:/test-svc:default` was deleted concurrently with ensure attempt"
    );
    assert_eq!(
        PropertyGroupDeleteError::Delete { description: pg_desc(), err: LibscfError::PermissionDenied }
            .to_string(),
        "failed to delete property group `svc:/test-svc:default/:properties/pg` (composed view)"
    );
}

#[test]
fn transaction_messages() {
    let prop_err = TransactionPropertyError {
        property_group: instance_desc(),
        name: "prop".to_string(),
        op: TransactionOp::ChangeType,
        err: LibscfError::Exists,
    };
    assert_eq!(
        prop_err.to_string(),
        "failed to change type of property `prop` in transaction on `svc:/test-svc:default`"
    );
    assert_eq!(TransactionBuildError::Property(prop_err.clone()).to_string(), prop_err.to_string());
    assert_eq!(
        TransactionBuildError::TypeMismatch {
            property_group: instance_desc(),
            name: "prop".to_string(),
            property_type: ValueKind::Count,
            value_type: ValueKind::Bool,
        }
        .to_string(),
        format!(
            "type mismatch on property `prop` in transaction on `svc:/test-svc:default`: \
             property has type {} but value has type {}",
            ValueKind::Count.as_str(),
            ValueKind::Bool.as_str()
        )
    );
    assert_eq!(
        TransactionCommitError { property_group: instance_desc(), err: LibscfError::Deleted }
            .to_string(),
        "failed to commit transaction on `svc:/test-svc:default`"
    );
}
