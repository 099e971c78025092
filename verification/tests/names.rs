use scuffle::edit_property_groups::add_pg_name;
use scuffle::error::InstanceFromFmriError;
use scuffle::error::InstanceRefreshError;
use scuffle::error::LibscfError;
use scuffle::error::LookupError;
use scuffle::error::PropertyGroupAddError;
use scuffle::error::PropertyGroupKind;
use scuffle::error::ScfEntity;
use scuffle::error::ScfEntityDescription;
use scuffle::error::TransactionBuildError;
use scuffle::iter::iter_item_name;
use scuffle::iter::iter_next_outcome;
use scuffle::lookup::lookup_name;
use scuffle::lookup::lookup_outcome;
use scuffle::scf::instance_decode_outcome;
use scuffle::scf::instance_fmri_arg;
use scuffle::scf::instance_name_read;
use scuffle::scf::refresh_fmri_arg;
use scuffle::scf::refresh_outcome;
use scuffle::transaction::check_property_name;
use scuffle::transaction::ensure_action;
use scuffle::transaction::EnsureAction;
use scuffle::utf8cstring::first_nul;
use scuffle::utf8cstring::InstanceFmri;
use scuffle::utf8cstring::ServiceFmri;
use scuffle::utf8cstring::Utf8CString;

const NOT_FOUND: u32 = 1003;
const INVALID_ARGUMENT: u32 = 1007;
const CONSTRAINT_VIOLATED: u32 = 1009;

fn instance_desc() -> ScfEntityDescription {
    ScfEntityDescription::Instance { fmri: "svc:/test-svc:default".to_string() }
}

fn pg_desc() -> ScfEntityDescription {
    ScfEntityDescription::PropertyGroup {
        fmri: "svc:/test-svc:default/:properties/pg".to_string(),
        kind: PropertyGroupKind::DirectAttached,
    }
}

/// What `libscf` answers when decoding `fmri` as exactly an instance in a
/// repository that holds the single instance `svc:/test-svc:default`: the
/// return value and the error code it reports.
fn decode_in_test_repository(fmri: &str) -> (i32, u32) {
    match fmri {
        "svc:/test-svc:default" => (0, 0),
        "svc:/test-svc" => (-1, CONSTRAINT_VIOLATED),
        "" => (-1, INVALID_ARGUMENT),
        _ => (-1, NOT_FOUND),
    }
}

/// Looks up an instance by FMRI as `Scf::instance_from_fmri` does, against
/// the test repository; gives the instance's name and FMRI.
fn instance_from_fmri(fmri: &str) -> Result<(String, String), InstanceFromFmriError> {
    let fmri = instance_fmri_arg(fmri)?;
    let (ret, err) = decode_in_test_repository(fmri.as_str());
    instance_decode_outcome(&fmri, ret, err)?;
    // `libscf` writes the instance's name into the name buffer.
    let mut buf = b"default".to_vec();
    buf.push(0);
    buf.resize(256, 0);
    let name = instance_name_read(&fmri, &buf, 7, 0)?;
    let fmri = InstanceFmri::new_unvalidated(fmri);
    Ok((name.into_string(), fmri.as_str().to_string()))
}

#[test]
fn instance_from_fmri_success() {
    let (name, fmri) = instance_from_fmri("svc:/test-svc:default").expect("instance_from_fmri");
    assert_eq!(name, "default");
    assert_eq!(fmri, "svc:/test-svc:default");
}

#[test]
fn instance_from_fmri_nonexistent_service() {
    let err = instance_from_fmri("svc:/no-such-service:default")
        .expect_err("should fail for nonexistent service");
    assert_eq!(
        err,
        InstanceFromFmriError::Get {
            fmri: "svc:/no-such-service:default".to_string(),
            err: LibscfError::NotFound,
        }
    );
}

#[test]
fn instance_from_fmri_nonexistent_instance() {
    let err = instance_from_fmri("svc:/test-svc:nonexistent")
        .expect_err("should fail for nonexistent instance");
    assert_eq!(
        err,
        InstanceFromFmriError::Get {
            fmri: "svc:/test-svc:nonexistent".to_string(),
            err: LibscfError::NotFound,
        }
    );
}

#[test]
fn instance_from_fmri_service_only() {
    let err = instance_from_fmri("svc:/test-svc").expect_err("should fail for service-only FMRI");
    match err {
        InstanceFromFmriError::Get { fmri, .. } => assert_eq!(fmri, "svc:/test-svc"),
        other => panic!("unexpected error {other:?}"),
    }
}

#[test]
fn instance_from_fmri_invalid_nul() {
    let err = instance_fmri_arg("svc:/test\0-svc:default")
        .expect_err("should fail for FMRI with embedded NUL");
    match err {
        InstanceFromFmriError::InvalidFmri { fmri, err } => {
            assert_eq!(fmri, "svc:/test\0-svc:default");
            assert_eq!(err.nul_position(), 9);
        }
        other => panic!("unexpected error {other:?}"),
    }
}

#[test]
fn instance_from_fmri_empty() {
    let err = instance_from_fmri("").expect_err("should fail for empty FMRI");
    match err {
        InstanceFromFmriError::Get { fmri, err } => {
            assert_eq!(fmri, "");
            assert_eq!(err, LibscfError::InvalidArgument);
        }
        other => panic!("unexpected error {other:?}"),
    }
}

#[test]
fn add_property_group_invalid_name() {
    let err = add_pg_name(&instance_desc(), "bad\0name")
        .expect_err("should fail with InvalidName");
    match err {
        PropertyGroupAddError::InvalidName { parent, name, err } => {
            assert_eq!(parent, instance_desc());
            assert_eq!(name, "bad\0name");
            assert_eq!(err.nul_position(), 3);
        }
        other => panic!("unexpected error {other:?}"),
    }
    let ok = add_pg_name(&instance_desc(), "good_name").unwrap();
    assert_eq!(ok.as_str(), "good_name");
}

#[test]
fn lookup_invalid_name() {
    let cases = [
        (ScfEntity::Service, "svc\0bad", 3),
        (ScfEntity::Instance, "inst\0bad", 4),
        (ScfEntity::Snapshot, "snap\0bad", 4),
        (ScfEntity::PropertyGroup, "pg\0bad", 2),
        (ScfEntity::Property, "prop\0bad", 4),
    ];
    for (entity, name, pos) in cases {
        let err = lookup_name(entity, name).expect_err("should fail with InvalidName");
        match err {
            LookupError::InvalidName { entity: e, name: n, err } => {
                assert_eq!(e, entity);
                assert_eq!(n, name);
                assert_eq!(err.nul_position(), pos);
            }
            other => panic!("unexpected error {other:?}"),
        }
    }
}

#[test]
fn lookup_found_missing_and_failed() {
    let name = lookup_name(ScfEntity::PropertyGroup, "pg").unwrap();
    assert_eq!(name.as_str(), "pg");
    assert_eq!(
        lookup_outcome(ScfEntity::PropertyGroup, instance_desc(), &name, 0, 0),
        Ok(true)
    );
    assert_eq!(
        lookup_outcome(ScfEntity::PropertyGroup, instance_desc(), &name, -1, NOT_FOUND),
        Ok(false)
    );
    assert_eq!(
        lookup_outcome(ScfEntity::PropertyGroup, instance_desc(), &name, -1, INVALID_ARGUMENT),
        Err(LookupError::Get {
            entity: ScfEntity::PropertyGroup,
            parent: instance_desc(),
            name: "pg".to_string(),
            err: LibscfError::InvalidArgument,
        })
    );
}

#[test]
fn transaction_invalid_property_name() {
    // property_new, property_delete, property_change and
    // property_change_type all check the name first.
    for (name, pos) in [("prop\0bad", 4), ("del\0bad", 3), ("chg\0bad", 3), ("ct\0bad", 2)] {
        let err = check_property_name(&pg_desc(), name).expect_err("should fail with InvalidName");
        match err {
            TransactionBuildError::InvalidName { property_group, err } => {
                assert_eq!(property_group, pg_desc());
                assert_eq!(err.nul_position(), pos);
            }
            other => panic!("unexpected error {other:?}"),
        }
    }

    // property_ensure looks the property up first, so the invalid name
    // comes from that lookup.
    let found = lookup_name(ScfEntity::Property, "ens\0bad").map(|_| true);
    let err = ensure_action(&pg_desc(), "ens\0bad", found).expect_err("should fail with InvalidName");
    match err {
        TransactionBuildError::ExistenceLookup { property_group, name, err } => {
            assert_eq!(property_group, pg_desc());
            assert_eq!(name, "ens\0bad");
            assert!(matches!(err, LookupError::InvalidName { entity: ScfEntity::Property, .. }));
        }
        other => panic!("unexpected error {other:?}"),
    }

    assert_eq!(check_property_name(&pg_desc(), "prop").unwrap().as_str(), "prop");
}

#[test]
fn ensure_picks_change_type_or_new() {
    assert_eq!(ensure_action(&pg_desc(), "prop", Ok(true)), Ok(EnsureAction::ChangeType));
    assert_eq!(ensure_action(&pg_desc(), "prop", Ok(false)), Ok(EnsureAction::New));
}

#[test]
fn refresh_name_and_outcome() {
    match refresh_fmri_arg("svc:/a\0b") {
        Err(InstanceRefreshError::InvalidFmri { fmri, err }) => {
            assert_eq!(fmri, "svc:/a\0b");
            assert_eq!(err.nul_position(), 6);
        }
        other => panic!("unexpected result {other:?}"),
    }
    let fmri = refresh_fmri_arg("svc:/test-svc:default").unwrap();
    assert_eq!(refresh_outcome(&fmri, 0, 0), Ok(()));
    assert_eq!(
        refresh_outcome(&fmri, -1, 1013),
        Err(InstanceRefreshError::Failed {
            fmri: "svc:/test-svc:default".to_string(),
            err: LibscfError::PermissionDenied,
        })
    );
}

#[test]
fn utf8_cstring_rejects_nul() {
    assert_eq!(Utf8CString::from_str("abc").unwrap().as_str(), "abc");
    assert_eq!(Utf8CString::from_str("").unwrap().into_string(), "");
    assert_eq!(Utf8CString::from_str("a\0b\0").unwrap_err().nul_position(), 1);
    // Byte offsets, not character offsets.
    assert_eq!(Utf8CString::from_str("é\0").unwrap_err().nul_position(), 2);
    assert_eq!(Utf8CString::from_string("x\0".to_string()).unwrap_err().nul_position, 1);
    assert_eq!(first_nul(b"ab\0c\0"), Some(2));
    assert_eq!(first_nul(b"abc"), None);
}

#[test]
fn utf8_cstring_from_c_str() {
    assert_eq!(Utf8CString::from_c_str(b"running\0").unwrap().as_str(), "running");
    assert_eq!(Utf8CString::from_c_str("☃\0".as_bytes()).unwrap().as_str(), "☃");
    assert!(Utf8CString::from_c_str(b"\xff\xfe\0").is_err());
}

#[test]
fn property_iterator() {
    let svc = Utf8CString::from_str("test-svc").unwrap();
    let service = ServiceFmri::new(&svc);
    assert_eq!(service.as_str(), "svc:/test-svc");
    let inst = Utf8CString::from_str("default").unwrap();
    let instance = service.append_instance(&inst);
    assert_eq!(instance.as_str(), "svc:/test-svc:default");
    let pg_name = Utf8CString::from_str("propiterpg").unwrap();
    let pg = instance.append_pg(&pg_name);
    assert_eq!(pg.as_str(), "svc:/test-svc:default/:properties/propiterpg");

    // `libscf` steps through p1, p2 and p3, then reports the end.
    let parent = ScfEntityDescription::PropertyGroup {
        fmri: pg.as_str().to_string(),
        kind: PropertyGroupKind::DirectAttached,
    };
    let mut names = Vec::new();
    for (ret, item) in [(1, "p1"), (1, "p2"), (1, "p3"), (0, "")] {
        match iter_next_outcome(ScfEntity::Property, &parent, ret, 0) {
            None => break,
            Some(step) => step.expect("collect properties"),
        }
        let mut buf = item.as_bytes().to_vec();
        buf.push(0);
        buf.resize(64, 0);
        let name = iter_item_name(ScfEntity::Property, &parent, &buf, item.len() as isize, 0)
            .expect("iterate properties");
        let prop = pg.append_property(&name);
        names.push((name.into_string(), prop.as_str().to_string()));
    }
    assert_eq!(names.len(), 3, "unexpected property names: {names:?}");
    for (name, fmri) in names {
        let expected = match name.as_str() {
            "p1" => "svc:/test-svc:default/:properties/propiterpg/p1",
            "p2" => "svc:/test-svc:default/:properties/propiterpg/p2",
            "p3" => "svc:/test-svc:default/:properties/propiterpg/p3",
            other => panic!("unexpected property name {other}"),
        };
        assert_eq!(fmri, expected);
    }

    let service_pg = service.append_pg(&pg_name);
    assert_eq!(service_pg.as_str(), "svc:/test-svc/:properties/propiterpg");
    let decoded = Utf8CString::from_str("svc:/other:inst").unwrap();
    let unvalidated = InstanceFmri::new_unvalidated(decoded);
    assert_eq!(unvalidated.as_utf8_cstring().as_str(), "svc:/other:inst");
    let p = Utf8CString::from_str("p1").unwrap();
    assert_eq!(
        pg.append_property(&p).as_utf8_cstring().as_str(),
        "svc:/test-svc:default/:properties/propiterpg/p1"
    );
}
