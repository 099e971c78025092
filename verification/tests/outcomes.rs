use scuffle::buf::check_c_str;
use scuffle::buf::scf_get_string;
use scuffle::buf::scf_limit_from_ret;
use scuffle::buf::with_buf;
use scuffle::buf::with_scf_fmri_buf;
use scuffle::buf::with_scf_name_buf;
use scuffle::buf::with_scf_value_buf;
use scuffle::edit_property_groups::add_outcome;
use scuffle::edit_property_groups::delete_after_lookup;
use scuffle::edit_property_groups::ensure_after_add;
use scuffle::edit_property_groups::ensure_after_lookup;
use scuffle::error::format_transaction_op;
use scuffle::error::HandleCreateError;
use scuffle::error::IterError;
use scuffle::error::IterErrorKind;
use scuffle::error::LibscfError;
use scuffle::error::LookupError;
use scuffle::error::PropertyGroupAddError;
use scuffle::error::PropertyGroupDeleteError;
use scuffle::error::PropertyGroupKind;
use scuffle::error::PropertyGroupTypeError;
use scuffle::error::PropertyGroupUpdateError;
use scuffle::error::ScfEntity;
use scuffle::error::ScfEntityDescription;
use scuffle::error::ScfError;
use scuffle::error::ScfStringError;
use scuffle::error::ScopeError;
use scuffle::error::SingleValueError;
use scuffle::error::TransactionBuildError;
use scuffle::error::TransactionCommitError;
use scuffle::error::TransactionOp;
use scuffle::instance::comment_arg;
use scuffle::instance::degrade_flag_bits;
use scuffle::instance::enable_disable_flag_bits;
use scuffle::instance::maintain_flag_bits;
use scuffle::instance::op_outcome;
use scuffle::instance::smf_state_outcome;
use scuffle::instance::InstanceOp;
use scuffle::instance::InstanceOpError;
use scuffle::instance::InstanceSmfStateError;
use scuffle::instance::SCF_COMMENT_MAX_LENGTH;
use scuffle::iter::iter_init_outcome;
use scuffle::iter::iter_item_name;
use scuffle::iter::iter_next_outcome;
use scuffle::iter::iter_step;
use scuffle::property::single_value_outcome;
use scuffle::property_group::delete_outcome;
use scuffle::property_group::pg_type_from_read;
use scuffle::property_group::update_outcome;
use scuffle::property_group::PropertyGroupParentKind;
use scuffle::scf::bind_outcome;
use scuffle::scf::handle_create_outcome;
use scuffle::scf::instance_name_read;
use scuffle::scf::scope_outcome;
use scuffle::scf::zone_decoration_outcome;
use scuffle::scf::zone_decoration_value;
use scuffle::scf_value::ScfType;
use scuffle::scf_value::ValueSetting;
use scuffle::transaction::check_value_kind;
use scuffle::transaction::commit_outcome;
use scuffle::transaction::entry_outcome;
use scuffle::transaction::start_outcome;
use scuffle::transaction::CommitOutcome;
use scuffle::utf8cstring::FromBytesWithNulError;
use scuffle::utf8cstring::Utf8CString;
use scuffle::AddPropertyGroupFlags;
use scuffle::DeletePropertyGroupResult;
use scuffle::PropertyGroupType;
use scuffle::PropertyGroupUpdateResult;
use scuffle::SmfDegradeFlags;
use scuffle::SmfEnableDisableFlags;
use scuffle::SmfMaintainFlags;
use scuffle::Value;
use scuffle::ValueKind;
use scuffle::ValueRef;

const NOT_FOUND: u32 = 1003;
const INVALID_ARGUMENT: u32 = 1007;
const NO_MEMORY: u32 = 1008;
const EXISTS: u32 = 1010;
const PERMISSION_DENIED: u32 = 1013;
const DELETED: u32 = 1019;

const ALL_PG_TYPES: [PropertyGroupType; 7] = [
    PropertyGroupType::Application,
    PropertyGroupType::Framework,
    PropertyGroupType::Dependency,
    PropertyGroupType::Method,
    PropertyGroupType::Template,
    PropertyGroupType::TemplatePgPattern,
    PropertyGroupType::TemplatePropPattern,
];

fn instance_desc() -> ScfEntityDescription {
    ScfEntityDescription::Instance { fmri: "svc:/test-svc:default".to_string() }
}

fn pg_desc() -> ScfEntityDescription {
    ScfEntityDescription::PropertyGroup {
        fmri: "svc:/test-svc:default/:properties/pg".to_string(),
        kind: PropertyGroupKind::DirectAttached,
    }
}

fn prop_desc() -> ScfEntityDescription {
    ScfEntityDescription::Property {
        fmri: "svc:/test-svc:default/:properties/pg/prop".to_string(),
        from_pg_kind: PropertyGroupKind::DirectAttached,
    }
}

/// A buffer as `libscf` fills it: the text, its NUL, then zeros.
fn filled(text: &[u8], len: usize) -> Vec<u8> {
    let mut buf = text.to_vec();
    buf.push(0);
    buf.resize(len, 0);
    buf
}

#[test]
fn property_group_type_roundtrip() {
    for pg_type in ALL_PG_TYPES {
        let name = pg_type.as_str();
        assert_eq!(PropertyGroupType::new(name), Some(pg_type));
        assert_eq!(pg_type.to_string(), name);
        // What `libscf` writes back for the group's type reads as that type.
        let buf = filled(name.as_bytes(), 64);
        let readback = pg_type_from_read(pg_desc(), &buf, name.len() as isize, 0);
        assert_eq!(readback, Ok(pg_type));
    }
    assert_eq!(PropertyGroupType::Application.as_str(), "application");
    assert_eq!(PropertyGroupType::TemplatePropPattern.as_str(), "template_prop_pattern");
}

#[test]
fn property_group_type_unknown() {
    let buf = filled(b"weird_type", 64);
    let err = pg_type_from_read(pg_desc(), &buf, 10, 0)
        .expect_err("type_() should fail for unknown type");
    match err {
        PropertyGroupTypeError::UnknownType { description, type_ } => {
            assert_eq!(description, pg_desc());
            assert_eq!(type_, "weird_type");
        }
        other => panic!("unexpected error {other:?}"),
    }
    assert_eq!(PropertyGroupType::new("Application"), None);
    assert_eq!(PropertyGroupType::new(""), None);

    let err = pg_type_from_read(pg_desc(), &buf, -1, NO_MEMORY).unwrap_err();
    assert_eq!(
        err,
        PropertyGroupTypeError::GetType {
            description: pg_desc(),
            err: ScfStringError::Get {
                entity: ScfEntity::PropertyGroupType,
                err: LibscfError::NoMemory,
            },
        }
    );
}

#[test]
fn transaction_type_mismatch() {
    let name = Utf8CString::from_str("prop").unwrap();
    // property_new_multiple("prop", Count, [Bool(true)])
    let err = check_value_kind(&pg_desc(), &name, ValueKind::Count, ValueRef::Bool(true))
        .expect_err("should fail with TypeMismatch");
    match err {
        TransactionBuildError::TypeMismatch { property_group, name, property_type, value_type } => {
            assert_eq!(property_group, pg_desc());
            assert_eq!(name, "prop");
            assert_eq!(property_type, ValueKind::Count);
            assert_eq!(value_type, ValueKind::Bool);
        }
        other => panic!("unexpected error {other:?}"),
    }
    assert_eq!(check_value_kind(&pg_desc(), &name, ValueKind::Count, ValueRef::Count(7)), Ok(()));
    assert_eq!(check_value_kind(&pg_desc(), &name, ValueKind::AString, ValueRef::AString("x")), Ok(()));
    // Networks have the kind of their address family.
    let net = scuffle::net::Ipv4Network::new(scuffle::net::Ipv4Address { octets: [10, 0, 0, 0] }, 8)
        .unwrap();
    assert_eq!(
        check_value_kind(&pg_desc(), &name, ValueKind::NetAddrV4, ValueRef::NetV4(net)),
        Ok(())
    );
}

#[test]
fn single_value_and_errors() {
    assert_eq!(
        single_value_outcome(prop_desc(), Some(Ok(Value::Count(42))), None),
        Ok(Value::Count(42))
    );
    assert_eq!(
        single_value_outcome(
            prop_desc(),
            Some(Ok(Value::Bool(true))),
            Some(Ok(Value::Bool(false)))
        ),
        Err(SingleValueError::MultipleValues { description: prop_desc() })
    );
    assert_eq!(
        single_value_outcome(prop_desc(), None, None),
        Err(SingleValueError::NoValues { description: prop_desc() })
    );
    let iter_err = || IterError::Iter {
        entity: ScfEntity::Value,
        parent: prop_desc(),
        kind: IterErrorKind::GetNext(LibscfError::ConnectionBroken),
    };
    assert_eq!(
        single_value_outcome(prop_desc(), Some(Err(iter_err())), None),
        Err(SingleValueError::IterError(iter_err()))
    );
    assert_eq!(
        single_value_outcome(prop_desc(), Some(Ok(Value::Count(1))), Some(Err(iter_err()))),
        Err(SingleValueError::IterError(iter_err()))
    );
}

#[test]
fn property_group_update_already_up_to_date() {
    assert_eq!(update_outcome(pg_desc(), 0, 0), Ok(PropertyGroupUpdateResult::AlreadyUpToDate));
    assert_eq!(update_outcome(pg_desc(), 1, 0), Ok(PropertyGroupUpdateResult::Updated));
    assert_eq!(
        update_outcome(pg_desc(), -1, DELETED),
        Err(PropertyGroupUpdateError::Failed { description: pg_desc(), err: LibscfError::Deleted })
    );
}

#[test]
fn transaction_commit_out_of_date() {
    assert_eq!(commit_outcome(pg_desc(), 1, 0), Ok(CommitOutcome::Success));
    assert_eq!(commit_outcome(pg_desc(), 0, 0), Ok(CommitOutcome::OutOfDate));
    assert_eq!(
        commit_outcome(pg_desc(), -1, PERMISSION_DENIED),
        Err(TransactionCommitError { property_group: pg_desc(), err: LibscfError::PermissionDenied })
    );
}

#[test]
fn transaction_start_and_entries() {
    assert_eq!(start_outcome(pg_desc(), 0, 0), Ok(()));
    assert_eq!(
        start_outcome(pg_desc(), -1, DELETED),
        Err(TransactionBuildError::Start { property_group: pg_desc(), err: LibscfError::Deleted })
    );
    let name = Utf8CString::from_str("prop").unwrap();
    assert_eq!(entry_outcome(&pg_desc(), &name, TransactionOp::New, 0, 0), Ok(()));
    let err = entry_outcome(&pg_desc(), &name, TransactionOp::Change, -1, EXISTS).unwrap_err();
    assert_eq!(err.property_group, pg_desc());
    assert_eq!(err.name, "prop");
    assert_eq!(err.op, TransactionOp::Change);
    assert_eq!(err.err, LibscfError::Exists);

    assert_eq!(format_transaction_op(&TransactionOp::Delete), "delete");
    assert_eq!(format_transaction_op(&TransactionOp::New), "create new");
    assert_eq!(format_transaction_op(&TransactionOp::Change), "change");
    assert_eq!(format_transaction_op(&TransactionOp::ChangeType), "change type of");
    assert_eq!(format_transaction_op(&TransactionOp::AddValue), "add value to");
}

#[test]
fn delete_property_group() {
    assert_eq!(
        delete_after_lookup(instance_desc(), "pg", Ok(true)),
        Ok(None)
    );
    assert_eq!(
        delete_after_lookup(instance_desc(), "pg", Ok(false)),
        Ok(Some(DeletePropertyGroupResult::DoesNotExist))
    );
    let lookup_err = LookupError::HandleCreate(HandleCreateError {
        entity: ScfEntity::PropertyGroup,
        err: LibscfError::NoMemory,
    });
    assert_eq!(
        delete_after_lookup(instance_desc(), "pg", Err(lookup_err.clone())),
        Err(PropertyGroupDeleteError::Lookup {
            parent: instance_desc(),
            name: "pg".to_string(),
            err: lookup_err,
        })
    );
    assert_eq!(delete_outcome(pg_desc(), 0, 0), Ok(DeletePropertyGroupResult::Deleted));
    // Deleted concurrently by someone else.
    assert_eq!(
        delete_outcome(pg_desc(), -1, DELETED),
        Ok(DeletePropertyGroupResult::DoesNotExist)
    );
    assert_eq!(
        delete_outcome(pg_desc(), -1, PERMISSION_DENIED),
        Err(PropertyGroupDeleteError::Delete {
            description: pg_desc(),
            err: LibscfError::PermissionDenied,
        })
    );
}

#[test]
fn add_and_ensure_property_group() {
    let name = Utf8CString::from_str("pg").unwrap();
    assert_eq!(add_outcome(instance_desc(), &name, 0, 0), Ok(()));
    let exists = add_outcome(instance_desc(), &name, -1, EXISTS);
    assert_eq!(
        exists,
        Err(PropertyGroupAddError::Add {
            parent: instance_desc(),
            name: "pg".to_string(),
            err: LibscfError::Exists,
        })
    );
    // An existing group is fine when ensuring it; other errors are not.
    assert_eq!(ensure_after_add(exists), Ok(()));
    assert_eq!(ensure_after_add(Ok(())), Ok(()));
    let denied = add_outcome(instance_desc(), &name, -1, PERMISSION_DENIED);
    assert_eq!(ensure_after_add(denied.clone()), denied);

    assert_eq!(ensure_after_lookup(instance_desc(), "pg", Ok(true)), Ok(()));
    assert_eq!(
        ensure_after_lookup(instance_desc(), "pg", Ok(false)),
        Err(PropertyGroupAddError::DeletedDuringEnsure {
            parent: instance_desc(),
            name: "pg".to_string(),
        })
    );
    let lookup_err = LookupError::Get {
        entity: ScfEntity::PropertyGroup,
        parent: instance_desc(),
        name: "pg".to_string(),
        err: LibscfError::ConnectionBroken,
    };
    assert_eq!(
        ensure_after_lookup(instance_desc(), "pg", Err(lookup_err.clone())),
        Err(PropertyGroupAddError::ExistenceLookup {
            parent: instance_desc(),
            name: "pg".to_string(),
            err: lookup_err,
        })
    );

    assert_eq!(AddPropertyGroupFlags::Persistent.bits(), 0);
    assert_eq!(AddPropertyGroupFlags::NonPersistent.bits(), 1);
}

#[test]
fn iteration_steps() {
    assert_eq!(iter_step(0, 0), None);
    assert_eq!(iter_step(1, 0), Some(Ok(())));
    assert_eq!(iter_step(-1, NOT_FOUND), Some(Err(LibscfError::NotFound)));

    let parent = instance_desc();
    assert_eq!(iter_init_outcome(ScfEntity::Snapshot, &parent, 0, 0), Ok(()));
    assert_eq!(
        iter_init_outcome(ScfEntity::Snapshot, &parent, -1, NO_MEMORY),
        Err(IterError::Iter {
            entity: ScfEntity::Snapshot,
            parent: instance_desc(),
            kind: IterErrorKind::Init(LibscfError::NoMemory),
        })
    );
    assert_eq!(iter_next_outcome(ScfEntity::Snapshot, &parent, 0, 0), None);
    assert_eq!(iter_next_outcome(ScfEntity::Snapshot, &parent, 1, 0), Some(Ok(())));
    assert_eq!(
        iter_next_outcome(ScfEntity::Snapshot, &parent, -1, DELETED),
        Some(Err(IterError::Iter {
            entity: ScfEntity::Snapshot,
            parent: instance_desc(),
            kind: IterErrorKind::GetNext(LibscfError::Deleted),
        }))
    );

    let buf = filled(b"running", 32);
    let name = iter_item_name(ScfEntity::Snapshot, &parent, &buf, 7, 0).unwrap();
    assert_eq!(name.as_str(), "running");
    match iter_item_name(ScfEntity::Snapshot, &parent, &buf, 40, 0) {
        Err(IterError::Iter { kind: IterErrorKind::GetName(err), .. }) => assert_eq!(
            err,
            ScfStringError::OutOfBounds { entity: ScfEntity::Name, scf_len: 40, max_len: 32 }
        ),
        other => panic!("unexpected result {other:?}"),
    }
}

#[test]
fn reading_scf_strings() {
    let buf = filled(b"default", 16);
    assert_eq!(scf_get_string(ScfEntity::Name, &buf, 7, 0).unwrap().as_str(), "default");
    // The string fills the buffer exactly, NUL included.
    let exact = filled(b"abc", 4);
    assert_eq!(scf_get_string(ScfEntity::Name, &exact, 3, 0).unwrap().as_str(), "abc");
    // Truncated: the length `libscf` reports does not fit.
    assert_eq!(
        scf_get_string(ScfEntity::Name, &exact, 4, 0),
        Err(ScfStringError::OutOfBounds { entity: ScfEntity::Name, scf_len: 4, max_len: 4 })
    );
    assert_eq!(
        scf_get_string(ScfEntity::Value, &buf, -1, NOT_FOUND),
        Err(ScfStringError::Get { entity: ScfEntity::Value, err: LibscfError::NotFound })
    );
    // A NUL inside the reported length.
    let inner = filled(b"de\0ault", 16);
    assert_eq!(
        scf_get_string(ScfEntity::Name, &inner, 7, 0),
        Err(ScfStringError::InvalidCString(FromBytesWithNulError::InteriorNul { position: 2 }))
    );
    // No NUL where the reported length says one stands.
    let unterminated = b"abcdef".to_vec();
    assert_eq!(
        scf_get_string(ScfEntity::Name, &unterminated, 3, 0),
        Err(ScfStringError::InvalidCString(FromBytesWithNulError::NotNulTerminated))
    );
    let bad = filled(b"\xff\xfe", 8);
    assert!(matches!(
        scf_get_string(ScfEntity::Name, &bad, 2, 0),
        Err(ScfStringError::NonUtf8String(_))
    ));

    assert_eq!(check_c_str(b"ok\0"), Ok(()));
    assert_eq!(check_c_str(b"o\0k\0"), Err(FromBytesWithNulError::InteriorNul { position: 1 }));
    assert_eq!(check_c_str(b"ok"), Err(FromBytesWithNulError::NotNulTerminated));
    assert_eq!(check_c_str(b""), Err(FromBytesWithNulError::NotNulTerminated));
}

#[test]
fn buffers_for_libscf() {
    let len = with_buf(|b: Vec<u8>| (b.len(), b.iter().all(|&x| x == 0)), 5);
    assert_eq!(len, (5, true));
    assert_eq!(with_scf_value_buf(|b: Vec<u8>| b.len(), 4096), 4097);
    assert_eq!(with_scf_name_buf(|b: Vec<u8>| b.len(), 255), 256);
    assert_eq!(with_scf_fmri_buf(|b: Vec<u8>| b.len(), 628), 629);
    assert_eq!(with_buf(|b: Vec<u8>| b.len(), 0), 0);
    assert_eq!(scf_limit_from_ret(4096), 4096);
}

#[test]
fn connecting() {
    assert_eq!(handle_create_outcome(ScfEntity::Scf, false, 0), Ok(()));
    assert_eq!(
        handle_create_outcome(ScfEntity::Scf, true, NO_MEMORY),
        Err(HandleCreateError { entity: ScfEntity::Scf, err: LibscfError::NoMemory })
    );
    assert_eq!(bind_outcome(0, 0), Ok(()));
    assert_eq!(bind_outcome(-1, 1011), Err(ScfError::HandleBind(LibscfError::NoServer)));
    assert_eq!(scope_outcome(0, 0), Ok(()));
    assert_eq!(
        scope_outcome(-1, NOT_FOUND),
        Err(ScopeError::GetLocalScope(LibscfError::NotFound))
    );

    match zone_decoration_value("myzone") {
        Ok(ValueSetting::FromString { scf_type, text }) => {
            assert_eq!(scf_type, ScfType::AString);
            assert_eq!(text.as_str(), "myzone");
        }
        other => panic!("unexpected result {other:?}"),
    }
    match zone_decoration_value("my\0zone") {
        Err(ScfError::SetZoneName { zonename, .. }) => assert_eq!(zonename, "my\0zone"),
        other => panic!("unexpected result {other:?}"),
    }
    assert_eq!(zone_decoration_outcome("myzone", 0, 0), Ok(()));
    assert_eq!(
        zone_decoration_outcome("myzone", -1, INVALID_ARGUMENT),
        Err(ScfError::SetDecorationZoneName {
            zonename: "myzone".to_string(),
            err: LibscfError::InvalidArgument,
        })
    );

    let fmri = Utf8CString::from_str("svc:/test-svc:default").unwrap();
    let buf = filled(b"default", 16);
    assert_eq!(instance_name_read(&fmri, &buf, 7, 0).unwrap().as_str(), "default");
    match instance_name_read(&fmri, &buf, -1, NOT_FOUND) {
        Err(scuffle::error::InstanceFromFmriError::GetName { fmri, err }) => {
            assert_eq!(fmri, "svc:/test-svc:default");
            assert_eq!(err, ScfStringError::Get { entity: ScfEntity::Name, err: LibscfError::NotFound });
        }
        other => panic!("unexpected result {other:?}"),
    }
}

#[test]
fn property_group_parents() {
    let snap = PropertyGroupParentKind::Snapshot {
        instance_fmri: "svc:/test-svc:default".to_string(),
        name: "running".to_string(),
    };
    assert_eq!(
        snap.pg_kind(),
        PropertyGroupKind::SnapshotComposed { snapshot_name: "running".to_string() }
    );
    assert_eq!(
        snap.to_entity_description(),
        ScfEntityDescription::Snapshot {
            instance_fmri: "svc:/test-svc:default".to_string(),
            name: "running".to_string(),
        }
    );
    let fmri = "svc:/test-svc:default/:properties/pg";
    assert_eq!(
        snap.property_group_description(fmri),
        ScfEntityDescription::PropertyGroup {
            fmri: fmri.to_string(),
            kind: PropertyGroupKind::SnapshotComposed { snapshot_name: "running".to_string() },
        }
    );
    let composed = PropertyGroupParentKind::InstanceComposed { fmri: "svc:/s:i".to_string() };
    assert_eq!(composed.pg_kind(), PropertyGroupKind::InstanceComposed);
    assert_eq!(
        composed.property_description("svc:/s:i/:properties/pg/p"),
        ScfEntityDescription::Property {
            fmri: "svc:/s:i/:properties/pg/p".to_string(),
            from_pg_kind: PropertyGroupKind::InstanceComposed,
        }
    );
    let service = PropertyGroupParentKind::Service { fmri: "svc:/s".to_string() };
    assert_eq!(service.pg_kind(), PropertyGroupKind::DirectAttached);
    assert_eq!(
        service.to_entity_description(),
        ScfEntityDescription::Service { fmri: "svc:/s".to_string() }
    );
}

#[test]
fn entity_descriptions_in_errors() {
    assert_eq!(ScfEntityDescription::LocalScope.error_display().to_string(), "local scope");
    assert_eq!(instance_desc().error_display().to_string(), "`svc:/test-svc:default`");
    assert_eq!(
        ScfEntityDescription::InstanceComposed { fmri: "svc:/s:i".to_string() }
            .error_display()
            .to_string(),
        "`svc:/s:i` (composed view)"
    );
    assert_eq!(
        ScfEntityDescription::Snapshot {
            instance_fmri: "svc:/s:i".to_string(),
            name: "running".to_string(),
        }
        .error_display()
        .to_string(),
        "`svc:/s:i` (`running` snapshot)"
    );
    assert_eq!(
        ScfEntityDescription::PropertyGroup {
            fmri: "svc:/s:i/:properties/pg".to_string(),
            kind: PropertyGroupKind::SnapshotComposed { snapshot_name: "running".to_string() },
        }
        .error_display()
        .to_string(),
        "`svc:/s:i/:properties/pg` (`running` snapshot)"
    );
    assert_eq!(prop_desc().error_display().to_string(), "`svc:/test-svc:default/:properties/pg/prop`");
    assert_eq!(ScfEntity::PropertyGroupType.as_str(), "property group type");
    assert_eq!(ScfEntity::Iter.to_string(), "iterator");
    assert_eq!(ScfEntity::TransactionEntry.as_str(), "transaction entry");
}

#[test]
fn libscf_error_codes() {
    assert_eq!(LibscfError::from_code(1000), LibscfError::NoError);
    assert_eq!(LibscfError::from_code(1003), LibscfError::NotFound);
    assert_eq!(LibscfError::from_code(1020), LibscfError::TemplateInvalid);
    assert_eq!(LibscfError::from_code(1080), LibscfError::CallbackFailed);
    assert_eq!(LibscfError::from_code(1101), LibscfError::Internal);
    assert_eq!(LibscfError::from_code(1021), LibscfError::Unknown(1021));
    assert_eq!(LibscfError::from_code(0), LibscfError::Unknown(0));
    assert_eq!(LibscfError::from_ret(0, 1003), Ok(()));
    assert_eq!(LibscfError::from_ret(-1, 1003), Err(LibscfError::NotFound));
    assert_eq!(LibscfError::from_ssize(12, 1003), Ok(12));
    assert_eq!(LibscfError::from_ssize(-1, 1019), Err(LibscfError::Deleted));
    assert_eq!(LibscfError::from_ptr(false, 1008), Ok(()));
    assert_eq!(LibscfError::from_ptr(true, 1008), Err(LibscfError::NoMemory));
    assert_eq!(LibscfError::NotFound.to_string(), "nothing of that name found");
    assert_eq!(LibscfError::Internal.to_string(), "internal error");
    assert_eq!(LibscfError::Unknown(77).to_string(), "unknown error (77)");
}

#[test]
fn instance_operations() {
    assert_eq!(enable_disable_flag_bits(None), 0);
    assert_eq!(enable_disable_flag_bits(Some(SmfEnableDisableFlags::Temporary)), 2);
    assert_eq!(enable_disable_flag_bits(Some(SmfEnableDisableFlags::AtNextBoot)), 4);
    assert_eq!(degrade_flag_bits(None), 0);
    assert_eq!(degrade_flag_bits(Some(SmfDegradeFlags::Immediate)), 1);
    assert_eq!(SmfDegradeFlags::Immediate.bits(), 1);

    let both = SmfMaintainFlags::immediate().union(SmfMaintainFlags::temporary());
    assert_eq!(both.bits(), 3);
    assert!(both.contains(SmfMaintainFlags::temporary()));
    assert!(!SmfMaintainFlags::immediate().contains(both));
    assert_eq!(SmfMaintainFlags::empty().bits(), 0);
    assert_eq!(SmfMaintainFlags::from_bits(2), Some(SmfMaintainFlags::temporary()));
    assert_eq!(SmfMaintainFlags::from_bits(3), Some(both));
    assert_eq!(SmfMaintainFlags::from_bits(4), None);
    assert_eq!(SmfMaintainFlags::from_bits(-1), None);
    assert_eq!(maintain_flag_bits(None), 0);
    assert_eq!(maintain_flag_bits(Some(SmfMaintainFlags::immediate())), 1);

    assert_eq!(comment_arg(None), Ok(None));
    assert_eq!(comment_arg(Some("maintenance window")).unwrap().unwrap().as_str(), "maintenance window");
    match comment_arg(Some("bad\0comment")) {
        Err(InstanceOpError::InvalidComment { comment, err }) => {
            assert_eq!(comment, "bad\0comment");
            assert_eq!(err.nul_position(), 3);
        }
        other => panic!("unexpected result {other:?}"),
    }
    let longest = "x".repeat(SCF_COMMENT_MAX_LENGTH - 1);
    assert!(comment_arg(Some(&longest)).unwrap().is_some());
    let too_long = "x".repeat(SCF_COMMENT_MAX_LENGTH);
    assert_eq!(
        comment_arg(Some(&too_long)),
        Err(InstanceOpError::CommentTooLong {
            c_str_len: SCF_COMMENT_MAX_LENGTH + 1,
            max_len: SCF_COMMENT_MAX_LENGTH,
            comment: too_long.clone(),
        })
    );

    assert_eq!(op_outcome(InstanceOp::Restart, "svc:/s:i", 0, 0), Ok(()));
    assert_eq!(
        op_outcome(InstanceOp::Enable, "svc:/s:i", -1, PERMISSION_DENIED),
        Err(InstanceOpError::Failed {
            op: InstanceOp::Enable,
            fmri: "svc:/s:i".to_string(),
            err: LibscfError::PermissionDenied,
        })
    );

    assert_eq!(smf_state_outcome("svc:/s:i", Some(b"online"), 0), Ok("online".to_string()));
    assert_eq!(
        smf_state_outcome("svc:/s:i", None, NOT_FOUND),
        Err(InstanceSmfStateError::GetState {
            fmri: "svc:/s:i".to_string(),
            err: LibscfError::NotFound,
        })
    );
    match smf_state_outcome("svc:/s:i", Some(b"on\xffline"), 0) {
        Err(InstanceSmfStateError::NonUtf8State { fmri, state, .. }) => {
            assert_eq!(fmri, "svc:/s:i");
            assert_eq!(state, b"on\xffline".to_vec());
        }
        other => panic!("unexpected result {other:?}"),
    }
}
