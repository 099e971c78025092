//! Property groups: their types, where they come from, and the decisions made
//! when looking them up, updating, reading their type and deleting them.

use vstd::prelude::*;

use crate::buf::scf_get_string;
use crate::buf::scf_string_error;
use crate::buf::scf_string_text;
use crate::edit_property_groups::DeletePropertyGroupResult;
use crate::error::libscf_error_of_code;
use crate::error::LibscfError;
use crate::error::PropertyGroupDeleteError;
use crate::error::PropertyGroupKind;
use crate::error::PropertyGroupTypeError;
use crate::error::PropertyGroupUpdateError;
use crate::error::ScfEntity;
use crate::error::ScfEntityDescription;
use crate::text::str_equal;

verus! {

/// Property group types; each maps to one of the `SCF_GROUP_*` names of
/// `libscf.h`.
#[derive(Debug, Clone, Copy, PartialEq, Eq, PartialOrd, Ord, Hash, Structural)]
pub enum PropertyGroupType {
    Application,
    Framework,
    Dependency,
    Method,
    Template,
    TemplatePgPattern,
    TemplatePropPattern,
}

/// The `libscf` name of a property group type.
pub open spec fn pg_type_text(t: PropertyGroupType) -> Seq<char> {
    match t {
        PropertyGroupType::Application => "application"@,
        PropertyGroupType::Framework => "framework"@,
        PropertyGroupType::Dependency => "dependency"@,
        PropertyGroupType::Method => "method"@,
        PropertyGroupType::Template => "template"@,
        PropertyGroupType::TemplatePgPattern => "template_pg_pattern"@,
        PropertyGroupType::TemplatePropPattern => "template_prop_pattern"@,
    }
}

/// The property group type with a `libscf` name, if any.
pub open spec fn pg_type_of_text(s: Seq<char>) -> Option<PropertyGroupType> {
    if s == "application"@ {
        Some(PropertyGroupType::Application)
    } else if s == "framework"@ {
        Some(PropertyGroupType::Framework)
    } else if s == "dependency"@ {
        Some(PropertyGroupType::Dependency)
    } else if s == "method"@ {
        Some(PropertyGroupType::Method)
    } else if s == "template"@ {
        Some(PropertyGroupType::Template)
    } else if s == "template_pg_pattern"@ {
        Some(PropertyGroupType::TemplatePgPattern)
    } else if s == "template_prop_pattern"@ {
        Some(PropertyGroupType::TemplatePropPattern)
    } else {
        None
    }
}

impl PropertyGroupType {
    /// The property group type named `name`, if `name` is one of the
    /// `libscf` type names.
    pub fn new(name: &str) -> (res: Option<Self>)
        ensures
            res == pg_type_of_text(name@),
    {
        if str_equal(name, "application") {
            Some(PropertyGroupType::Application)
        } else if str_equal(name, "framework") {
            Some(PropertyGroupType::Framework)
        } else if str_equal(name, "dependency") {
            Some(PropertyGroupType::Dependency)
        } else if str_equal(name, "method") {
            Some(PropertyGroupType::Method)
        } else if str_equal(name, "template") {
            Some(PropertyGroupType::Template)
        } else if str_equal(name, "template_pg_pattern") {
            Some(PropertyGroupType::TemplatePgPattern)
        } else if str_equal(name, "template_prop_pattern") {
            Some(PropertyGroupType::TemplatePropPattern)
        } else {
            None
        }
    }

    /// The `libscf` name of this type (its `Display` text, and the string
    /// handed to `libscf` when adding a property group).
    pub fn as_str(&self) -> (s: &'static str)
        ensures
            s@ == pg_type_text(*self),
    {
        match self {
            PropertyGroupType::Application => "application",
            PropertyGroupType::Framework => "framework",
            PropertyGroupType::Dependency => "dependency",
            PropertyGroupType::Method => "method",
            PropertyGroupType::Template => "template",
            PropertyGroupType::TemplatePgPattern => "template_pg_pattern",
            PropertyGroupType::TemplatePropPattern => "template_prop_pattern",
        }
    }

    /// The `libscf` name of this type as an owned string.
    pub fn to_string(&self) -> (s: String)
        ensures
            s@ == pg_type_text(*self),
    {
        self.as_str().to_owned()
    }
}

/// Every property group type is read back from its name, and a name reads
/// as a type only if it is that type's name.
pub proof fn lemma_pg_type_text_round_trip(t: PropertyGroupType, s: Seq<char>)
    ensures
        pg_type_of_text(pg_type_text(t)) == Some(t),
        pg_type_of_text(s) == Some(t) ==> s == pg_type_text(t),
{
    reveal_strlit("application");
    reveal_strlit("framework");
    reveal_strlit("dependency");
    reveal_strlit("method");
    reveal_strlit("template");
    reveal_strlit("template_pg_pattern");
    reveal_strlit("template_prop_pattern");
    assert("application"@.len() == 11);
    assert("framework"@.len() == 9);
    assert("dependency"@.len() == 10);
    assert("method"@.len() == 6);
    assert("template"@.len() == 8);
    assert("template_pg_pattern"@.len() == 19);
    assert("template_prop_pattern"@.len() == 21);
}

/// Each property group type is named by its own `SCF_GROUP_*` string of
/// `libscf.h`, and that string reads back as that type and no other.
pub proof fn lemma_pg_type_names(t: PropertyGroupType)
    ensures
        (pg_type_text(t) == "application"@) == (t == PropertyGroupType::Application),
        (pg_type_text(t) == "framework"@) == (t == PropertyGroupType::Framework),
        (pg_type_text(t) == "dependency"@) == (t == PropertyGroupType::Dependency),
        (pg_type_text(t) == "method"@) == (t == PropertyGroupType::Method),
        (pg_type_text(t) == "template"@) == (t == PropertyGroupType::Template),
        (pg_type_text(t) == "template_pg_pattern"@) == (t == PropertyGroupType::TemplatePgPattern),
        (pg_type_text(t) == "template_prop_pattern"@) == (t
            == PropertyGroupType::TemplatePropPattern),
        pg_type_of_text("application"@) == Some(PropertyGroupType::Application),
        pg_type_of_text("framework"@) == Some(PropertyGroupType::Framework),
        pg_type_of_text("dependency"@) == Some(PropertyGroupType::Dependency),
        pg_type_of_text("method"@) == Some(PropertyGroupType::Method),
        pg_type_of_text("template"@) == Some(PropertyGroupType::Template),
        pg_type_of_text("template_pg_pattern"@) == Some(PropertyGroupType::TemplatePgPattern),
        pg_type_of_text("template_prop_pattern"@) == Some(PropertyGroupType::TemplatePropPattern),
{
    reveal_strlit("application");
    reveal_strlit("framework");
    reveal_strlit("dependency");
    reveal_strlit("method");
    reveal_strlit("template");
    reveal_strlit("template_pg_pattern");
    reveal_strlit("template_prop_pattern");
    assert("application"@.len() == 11);
    assert("framework"@.len() == 9);
    assert("dependency"@.len() == 10);
    assert("method"@.len() == 6);
    assert("template"@.len() == 8);
    assert("template_pg_pattern"@.len() == 19);
    assert("template_prop_pattern"@.len() == 21);
}

/// Marker for the entities that hold property groups (services, instances
/// and snapshots).
pub trait PropertyGroupsSealed {}

/// Type-state marker for a property group directly attached to an instance
/// or service; such groups may be modified through transactions.
#[derive(Debug)]
pub struct PropertyGroupDirect;

/// Type-state marker for a property group from a composed view (of an
/// instance, or of a snapshot); such groups may not be modified.
#[derive(Debug)]
pub struct PropertyGroupComposed;

/// Result of updating a property group against its latest version.
#[derive(Debug, Clone, Copy, PartialEq, Eq, PartialOrd, Ord, Structural)]
pub enum PropertyGroupUpdateResult {
    /// The property group was updated.
    Updated,
    /// The property group was not updated.
    AlreadyUpToDate,
}

/// The result of `PropertyGroup::update` once `scf_pg_update()` returned
/// `ret` (`0`: already the latest version, `1`: updated, anything else: an
/// error, with `last_error` reported).
pub fn update_outcome(description: ScfEntityDescription, ret: i32, last_error: u32) -> (res: Result<
    PropertyGroupUpdateResult,
    PropertyGroupUpdateError,
>)
    ensures
        ret == 0 ==> res == Ok::<_, PropertyGroupUpdateError>(
            PropertyGroupUpdateResult::AlreadyUpToDate,
        ),
        ret == 1 ==> res == Ok::<_, PropertyGroupUpdateError>(PropertyGroupUpdateResult::Updated),
        ret != 0 && ret != 1 ==> res == Err::<PropertyGroupUpdateResult, _>(
            PropertyGroupUpdateError::Failed { description, err: libscf_error_of_code(last_error) },
        ),
{
    if ret == 0 {
        Ok(PropertyGroupUpdateResult::AlreadyUpToDate)
    } else if ret == 1 {
        Ok(PropertyGroupUpdateResult::Updated)
    } else {
        Err(PropertyGroupUpdateError::Failed { description, err: LibscfError::from_code(last_error) })
    }
}

/// Where a property group handle was obtained.
#[derive(Debug, Clone, PartialEq, Eq)]
pub enum PropertyGroupParentKind {
    /// Directly attached to the service with this FMRI.
    Service { fmri: String },
    /// Directly attached to the instance with this FMRI.
    Instance { fmri: String },
    /// The composed view of the instance with this FMRI.
    InstanceComposed { fmri: String },
    /// The composed view of the snapshot `name` of the instance with this FMRI.
    Snapshot { instance_fmri: String, name: String },
}

/// The kind of property group a parent gives.
pub open spec fn parent_pg_kind(p: PropertyGroupParentKind) -> PropertyGroupKind {
    match p {
        PropertyGroupParentKind::Service { .. } => PropertyGroupKind::DirectAttached,
        PropertyGroupParentKind::Instance { .. } => PropertyGroupKind::DirectAttached,
        PropertyGroupParentKind::InstanceComposed { .. } => PropertyGroupKind::InstanceComposed,
        PropertyGroupParentKind::Snapshot { name, .. } => PropertyGroupKind::SnapshotComposed {
            snapshot_name: name,
        },
    }
}

/// The description of a parent itself.
pub open spec fn parent_description(p: PropertyGroupParentKind) -> ScfEntityDescription {
    match p {
        PropertyGroupParentKind::Service { fmri } => ScfEntityDescription::Service { fmri },
        PropertyGroupParentKind::Instance { fmri } => ScfEntityDescription::Instance { fmri },
        PropertyGroupParentKind::InstanceComposed { fmri } => ScfEntityDescription::InstanceComposed {
            fmri,
        },
        PropertyGroupParentKind::Snapshot { instance_fmri, name } => ScfEntityDescription::Snapshot {
            instance_fmri,
            name,
        },
    }
}


impl PropertyGroupParentKind {
    /// The kind of property group this parent gives.
    pub fn pg_kind(&self) -> (k: PropertyGroupKind)
        ensures
            k == parent_pg_kind(*self),
    {
        match self {
            PropertyGroupParentKind::Service { .. } => PropertyGroupKind::DirectAttached,
            PropertyGroupParentKind::Instance { .. } => PropertyGroupKind::DirectAttached,
            PropertyGroupParentKind::InstanceComposed { .. } => PropertyGroupKind::InstanceComposed,
            PropertyGroupParentKind::Snapshot { name, .. } => PropertyGroupKind::SnapshotComposed {
                snapshot_name: crate::error::copy_string(name),
            },
        }
    }

    /// The description of this parent, for errors.
    pub fn to_entity_description(&self) -> (d: ScfEntityDescription)
        ensures
            d == parent_description(*self),
    {
        match self {
            PropertyGroupParentKind::Service { fmri } => ScfEntityDescription::Service {
                fmri: crate::error::copy_string(fmri),
            },
            PropertyGroupParentKind::Instance { fmri } => ScfEntityDescription::Instance {
                fmri: crate::error::copy_string(fmri),
            },
            PropertyGroupParentKind::InstanceComposed { fmri } => {
                ScfEntityDescription::InstanceComposed { fmri: crate::error::copy_string(fmri) }
            },
            PropertyGroupParentKind::Snapshot { instance_fmri, name } => {
                ScfEntityDescription::Snapshot {
                    instance_fmri: crate::error::copy_string(instance_fmri),
                    name: crate::error::copy_string(name),
                }
            },
        }
    }

    /// The description of the property group with FMRI `fmri` from this
    /// parent.
    pub fn property_group_description(&self, fmri: &str) -> (d: ScfEntityDescription)
        ensures
            d matches ScfEntityDescription::PropertyGroup { fmri: f, kind } && f@ == fmri@ && kind
                == parent_pg_kind(*self),
    {
        ScfEntityDescription::PropertyGroup { fmri: fmri.to_owned(), kind: self.pg_kind() }
    }

    /// The description of the property with FMRI `fmri` in a property group
    /// from this parent.
    pub fn property_description(&self, fmri: &str) -> (d: ScfEntityDescription)
        ensures
            d matches ScfEntityDescription::Property { fmri: f, from_pg_kind } && f@ == fmri@
                && from_pg_kind == parent_pg_kind(*self),
    {
        ScfEntityDescription::Property { fmri: fmri.to_owned(), from_pg_kind: self.pg_kind() }
    }
}

/// The type of a property group once `scf_pg_get_type()` wrote its name
/// into `buf` and returned `ret` (reporting `last_error`): the read fails as
/// reading any string does, and a name that is not one of the known types is
/// an error.
pub fn pg_type_from_read(
    description: ScfEntityDescription,
    buf: &[u8],
    ret: isize,
    last_error: u32,
) -> (res: Result<PropertyGroupType, PropertyGroupTypeError>)
    ensures
        match scf_string_text(buf@, ret as int) {
            None => res matches Err(PropertyGroupTypeError::GetType { description: d, err }) && d
                == description && scf_string_error(
                ScfEntity::PropertyGroupType,
                buf@,
                ret as int,
                last_error,
                err,
            ),
            Some(t) => match pg_type_of_text(t) {
                Some(pg) => res == Ok::<_, PropertyGroupTypeError>(pg),
                None => res matches Err(PropertyGroupTypeError::UnknownType { description: d, type_ })
                    && d == description && type_@ == t,
            },
        },
{
    match scf_get_string(ScfEntity::PropertyGroupType, buf, ret, last_error) {
        Err(err) => Err(PropertyGroupTypeError::GetType { description, err }),
        Ok(type_string) => match PropertyGroupType::new(type_string.as_str()) {
            Some(pg) => Ok(pg),
            None => Err(
                PropertyGroupTypeError::UnknownType { description, type_: type_string.into_string() },
            ),
        },
    }
}

/// The result of deleting a property group once `scf_pg_delete()` returned
/// `ret` (reporting `last_error`): a group already deleted by someone else
/// counts as not existing.
pub fn delete_outcome(description: ScfEntityDescription, ret: i32, last_error: u32) -> (res: Result<
    DeletePropertyGroupResult,
    PropertyGroupDeleteError,
>)
    requires
        ret <= 0,
    ensures
        ret == 0 ==> res == Ok::<_, PropertyGroupDeleteError>(DeletePropertyGroupResult::Deleted),
        ret != 0 && libscf_error_of_code(last_error) == LibscfError::Deleted ==> res == Ok::<
            _,
            PropertyGroupDeleteError,
        >(DeletePropertyGroupResult::DoesNotExist),
        ret != 0 && libscf_error_of_code(last_error) != LibscfError::Deleted ==> res == Err::<
            DeletePropertyGroupResult,
            _,
        >(PropertyGroupDeleteError::Delete { description, err: libscf_error_of_code(last_error) }),
{
    match LibscfError::from_ret(ret, last_error) {
        Ok(()) => Ok(DeletePropertyGroupResult::Deleted),
        Err(LibscfError::Deleted) => Ok(DeletePropertyGroupResult::DoesNotExist),
        Err(err) => Err(PropertyGroupDeleteError::Delete { description, err }),
    }
}

} // verus!
