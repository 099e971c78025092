//! Error types and error-code handling.

use vstd::prelude::*;

use libscf_sys::scf_error_t;
use num_traits::FromPrimitive;

use crate::text::push_char;
use crate::text::push_str;
use crate::utf8cstring::FromBytesWithNulError;
use crate::utf8cstring::NulError;
use crate::value::Timestamp;
use crate::value::Value;
use crate::value::ValueKind;

verus! {

/// Name of a `libscf` entity, used in errors that may be emitted for several
/// entity types.
#[derive(Debug, Clone, Copy, PartialEq, Eq, Structural)]
pub enum ScfEntity {
    Instance,
    Iter,
    Name,
    Scf,
    Service,
    Snapshot,
    PropertyGroup,
    PropertyGroupType,
    Property,
    Scope,
    Transaction,
    TransactionEntry,
    Value,
}

/// The text used for an entity in error messages.
pub open spec fn scf_entity_text(e: ScfEntity) -> Seq<char> {
    match e {
        ScfEntity::Instance => "instance"@,
        ScfEntity::Iter => "iterator"@,
        ScfEntity::Name => "name"@,
        ScfEntity::Scf => "scf"@,
        ScfEntity::Service => "service"@,
        ScfEntity::Snapshot => "snapshot"@,
        ScfEntity::PropertyGroup => "property group"@,
        ScfEntity::PropertyGroupType => "property group type"@,
        ScfEntity::Property => "property"@,
        ScfEntity::Scope => "scope"@,
        ScfEntity::Transaction => "transaction"@,
        ScfEntity::TransactionEntry => "transaction entry"@,
        ScfEntity::Value => "value"@,
    }
}

impl ScfEntity {
    /// The text of this entity as it appears in error messages.
    pub fn as_str(&self) -> (s: &'static str)
        ensures
            s@ == scf_entity_text(*self),
    {
        match self {
            ScfEntity::Instance => "instance",
            ScfEntity::Iter => "iterator",
            ScfEntity::Name => "name",
            ScfEntity::Scf => "scf",
            ScfEntity::Service => "service",
            ScfEntity::Snapshot => "snapshot",
            ScfEntity::PropertyGroup => "property group",
            ScfEntity::PropertyGroupType => "property group type",
            ScfEntity::Property => "property",
            ScfEntity::Scope => "scope",
            ScfEntity::Transaction => "transaction",
            ScfEntity::TransactionEntry => "transaction entry",
            ScfEntity::Value => "value",
        }
    }
}

impl ScfEntity {
    /// The text of this entity as an owned string (its `Display` text).
    pub fn to_string(&self) -> (s: String)
        ensures
            s@ == scf_entity_text(*self),
    {
        self.as_str().to_owned()
    }
}

/// Whether a property group is direct-attached or from a composed view.
#[derive(Debug, Clone, PartialEq, Eq)]
pub enum PropertyGroupKind {
    /// The property group is directly attached to a service or instance.
    DirectAttached,
    /// The property group is from the composed view of an instance.
    InstanceComposed,
    /// The property group is from the composed view of a snapshot.
    SnapshotComposed { snapshot_name: String },
}

/// Marker for the entity types that can describe themselves in errors.
pub trait EntityDescriptionSealed {}

/// Conversion of an SCF entity into its description, for detailed errors.
pub trait ToEntityDescription: EntityDescriptionSealed {
    /// The description of this entity.
    fn to_entity_description(&self) -> ScfEntityDescription;
}

/// Description of a `libscf` entity: its FMRI, and what an FMRI does not
/// tell (e.g., whether a property group comes from a composed view).
#[derive(Debug, Clone, PartialEq, Eq)]
pub enum ScfEntityDescription {
    /// The local (only) scope.
    LocalScope,
    /// A service.
    Service { fmri: String },
    /// An instance.
    Instance { fmri: String },
    /// A composed view of an instance's property groups.
    InstanceComposed { fmri: String },
    /// A snapshot of an instance.
    Snapshot { instance_fmri: String, name: String },
    /// A property group.
    PropertyGroup { fmri: String, kind: PropertyGroupKind },
    /// A property obtained from a particular kind of property group.
    Property { fmri: String, from_pg_kind: PropertyGroupKind },
}

/// A copy of a string.
pub fn copy_string(s: &String) -> (c: String)
    ensures
        c == *s,
{
    s.clone()
}

impl PropertyGroupKind {
    /// A copy of this kind.
    pub fn copy(&self) -> (c: Self)
        ensures
            c == *self,
    {
        match self {
            PropertyGroupKind::DirectAttached => PropertyGroupKind::DirectAttached,
            PropertyGroupKind::InstanceComposed => PropertyGroupKind::InstanceComposed,
            PropertyGroupKind::SnapshotComposed { snapshot_name } => {
                PropertyGroupKind::SnapshotComposed { snapshot_name: copy_string(snapshot_name) }
            },
        }
    }
}

impl ScfEntityDescription {
    /// A copy of this description.
    pub fn copy(&self) -> (c: Self)
        ensures
            c == *self,
    {
        match self {
            ScfEntityDescription::LocalScope => ScfEntityDescription::LocalScope,
            ScfEntityDescription::Service { fmri } => ScfEntityDescription::Service {
                fmri: copy_string(fmri),
            },
            ScfEntityDescription::Instance { fmri } => ScfEntityDescription::Instance {
                fmri: copy_string(fmri),
            },
            ScfEntityDescription::InstanceComposed { fmri } => {
                ScfEntityDescription::InstanceComposed { fmri: copy_string(fmri) }
            },
            ScfEntityDescription::Snapshot { instance_fmri, name } => {
                ScfEntityDescription::Snapshot {
                    instance_fmri: copy_string(instance_fmri),
                    name: copy_string(name),
                }
            },
            ScfEntityDescription::PropertyGroup { fmri, kind } => {
                ScfEntityDescription::PropertyGroup { fmri: copy_string(fmri), kind: kind.copy() }
            },
            ScfEntityDescription::Property { fmri, from_pg_kind } => {
                ScfEntityDescription::Property {
                    fmri: copy_string(fmri),
                    from_pg_kind: from_pg_kind.copy(),
                }
            },
        }
    }
}

/// `` `{s}` ``: text between backquotes.
pub open spec fn quoted(s: Seq<char>) -> Seq<char> {
    seq!['`'] + s + seq!['`']
}

/// Text of an FMRI followed by a note on the kind of property group it came
/// from.
pub open spec fn fmri_with_kind_text(fmri: Seq<char>, kind: PropertyGroupKind) -> Seq<char> {
    match kind {
        PropertyGroupKind::DirectAttached => quoted(fmri),
        PropertyGroupKind::InstanceComposed => quoted(fmri) + " (composed view)"@,
        PropertyGroupKind::SnapshotComposed { snapshot_name } => quoted(fmri) + " ("@ + quoted(
            snapshot_name@,
        ) + " snapshot)"@,
    }
}

/// How an entity description reads in error messages.
pub open spec fn description_text(d: ScfEntityDescription) -> Seq<char> {
    match d {
        ScfEntityDescription::LocalScope => "local scope"@,
        ScfEntityDescription::Service { fmri } => quoted(fmri@),
        ScfEntityDescription::Instance { fmri } => quoted(fmri@),
        ScfEntityDescription::InstanceComposed { fmri } => quoted(fmri@) + " (composed view)"@,
        ScfEntityDescription::Snapshot { instance_fmri, name } => quoted(instance_fmri@) + " ("@
            + quoted(name@) + " snapshot)"@,
        ScfEntityDescription::PropertyGroup { fmri, kind } => fmri_with_kind_text(fmri@, kind),
        ScfEntityDescription::Property { fmri, from_pg_kind } => fmri_with_kind_text(
            fmri@,
            from_pg_kind,
        ),
    }
}

/// Appends `` `{t}` `` to `s`.
fn push_quoted(s: &mut String, t: &str)
    ensures
        final(s)@ == old(s)@ + quoted(t@),
{
    push_char(s, '`');
    push_str(s, t);
    push_char(s, '`');
    assert(final(s)@ =~= old(s)@ + quoted(t@));
}

/// Appends the text of an FMRI with a note on its property group kind.
fn push_fmri_with_kind(s: &mut String, fmri: &str, kind: &PropertyGroupKind)
    ensures
        final(s)@ == old(s)@ + fmri_with_kind_text(fmri@, *kind),
{
    push_quoted(s, fmri);
    match kind {
        PropertyGroupKind::DirectAttached => {},
        PropertyGroupKind::InstanceComposed => push_str(s, " (composed view)"),
        PropertyGroupKind::SnapshotComposed { snapshot_name } => {
            push_str(s, " (");
            push_quoted(s, snapshot_name.as_str());
            push_str(s, " snapshot)");
        },
    }
    assert(final(s)@ =~= old(s)@ + fmri_with_kind_text(fmri@, *kind));
}

impl ScfEntityDescription {
    /// Display `self` as `scuffle` displays it in errors.
    pub fn error_display(&self) -> (d: ScfEntityDescriptionErrorDisplay<'_>)
        ensures
            d.description() == *self,
    {
        ScfEntityDescriptionErrorDisplay(self)
    }

    /// Appends the error-message text of this description to `s`.
    pub fn push_error_text(&self, s: &mut String)
        ensures
            final(s)@ == old(s)@ + description_text(*self),
    {
        match self {
            ScfEntityDescription::LocalScope => push_str(s, "local scope"),
            ScfEntityDescription::Service { fmri } | ScfEntityDescription::Instance { fmri } => {
                push_quoted(s, fmri.as_str())
            },
            ScfEntityDescription::InstanceComposed { fmri } => {
                push_quoted(s, fmri.as_str());
                push_str(s, " (composed view)");
            },
            ScfEntityDescription::Snapshot { instance_fmri, name } => {
                push_quoted(s, instance_fmri.as_str());
                push_str(s, " (");
                push_quoted(s, name.as_str());
                push_str(s, " snapshot)");
            },
            ScfEntityDescription::PropertyGroup { fmri, kind } => {
                push_fmri_with_kind(s, fmri.as_str(), kind)
            },
            ScfEntityDescription::Property { fmri, from_pg_kind } => {
                push_fmri_with_kind(s, fmri.as_str(), from_pg_kind)
            },
        }
        assert(final(s)@ =~= old(s)@ + description_text(*self));
    }
}

/// An [`ScfEntityDescription`] displayed as in `scuffle`'s errors.
pub struct ScfEntityDescriptionErrorDisplay<'a>(&'a ScfEntityDescription);

impl<'a> ScfEntityDescriptionErrorDisplay<'a> {
    /// The description being displayed.
    pub closed spec fn description(self) -> ScfEntityDescription {
        *self.0
    }

    /// The displayed text.
    pub fn to_string(&self) -> (s: String)
        ensures
            s@ == description_text(self.description()),
    {
        let mut s = String::new();
        self.0.push_error_text(&mut s);
        assert(s@ =~= description_text(self.description()));
        s
    }
}

// ---------------------------------------------------------------------------
// libscf error codes.

/// Mapping of `libscf` error codes; the variants correspond to the values of
/// `libscf_sys::scf_error_t`.
#[derive(Debug, Clone, Copy, PartialEq, Eq, Structural)]
pub enum LibscfError {
    NoError,
    NotBound,
    NotSet,
    NotFound,
    TypeMismatch,
    InUse,
    ConnectionBroken,
    InvalidArgument,
    NoMemory,
    ConstraintViolated,
    Exists,
    NoServer,
    NoResources,
    PermissionDenied,
    BackendAccess,
    HandleMismatch,
    HandleDestroyed,
    VersionMismatch,
    BackendReadonly,
    Deleted,
    TemplateInvalid,
    CallbackFailed,
    Internal,
    Unknown(u32),
}

/// The error of a known `scf_error_t` code (the discriminants that
/// `libscf_sys` gives its variants), or `None` for any other code.
pub open spec fn known_libscf_error(code: u32) -> Option<LibscfError> {
    if code == 1000 { Some(LibscfError::NoError) }
    else if code == 1001 { Some(LibscfError::NotBound) }
    else if code == 1002 { Some(LibscfError::NotSet) }
    else if code == 1003 { Some(LibscfError::NotFound) }
    else if code == 1004 { Some(LibscfError::TypeMismatch) }
    else if code == 1005 { Some(LibscfError::InUse) }
    else if code == 1006 { Some(LibscfError::ConnectionBroken) }
    else if code == 1007 { Some(LibscfError::InvalidArgument) }
    else if code == 1008 { Some(LibscfError::NoMemory) }
    else if code == 1009 { Some(LibscfError::ConstraintViolated) }
    else if code == 1010 { Some(LibscfError::Exists) }
    else if code == 1011 { Some(LibscfError::NoServer) }
    else if code == 1012 { Some(LibscfError::NoResources) }
    else if code == 1013 { Some(LibscfError::PermissionDenied) }
    else if code == 1014 { Some(LibscfError::BackendAccess) }
    else if code == 1015 { Some(LibscfError::HandleMismatch) }
    else if code == 1016 { Some(LibscfError::HandleDestroyed) }
    else if code == 1017 { Some(LibscfError::VersionMismatch) }
    else if code == 1018 { Some(LibscfError::BackendReadonly) }
    else if code == 1019 { Some(LibscfError::Deleted) }
    else if code == 1020 { Some(LibscfError::TemplateInvalid) }
    else if code == 1080 { Some(LibscfError::CallbackFailed) }
    else if code == 1101 { Some(LibscfError::Internal) }
    else { None }
}

/// The error for any `libscf` error code: the known one, or `Unknown(code)`.
pub open spec fn libscf_error_of_code(code: u32) -> LibscfError {
    match known_libscf_error(code) {
        Some(e) => e,
        None => LibscfError::Unknown(code),
    }
}

/// Whether `code` is the discriminant of a variant of
/// `libscf_sys::scf_error_t` (1000 through 1020, 1080 and 1101).
pub open spec fn is_scf_error_code(code: u32) -> bool {
    known_libscf_error(code) is Some
}

/// Calls `FromPrimitive::from_u32` on `libscf_sys::scf_error_t`, whose derived
/// impl gives the variant whose discriminant is `code`, and hands back that
/// variant's discriminant.
#[verifier::external_body]
fn scf_error_t_from_u32(code: u32) -> (res: Option<u32>)
    ensures
        res == (if is_scf_error_code(code) { Some(code) } else { None::<u32> }),
{
    scf_error_t::from_u32(code).map(|e| e as u32)
}

/// The error of a known `scf_error_t` code.
fn known_error(code: u32) -> (e: LibscfError)
    requires
        is_scf_error_code(code),
    ensures
        Some(e) == known_libscf_error(code),
{
    match code {
        1000 => LibscfError::NoError,
        1001 => LibscfError::NotBound,
        1002 => LibscfError::NotSet,
        1003 => LibscfError::NotFound,
        1004 => LibscfError::TypeMismatch,
        1005 => LibscfError::InUse,
        1006 => LibscfError::ConnectionBroken,
        1007 => LibscfError::InvalidArgument,
        1008 => LibscfError::NoMemory,
        1009 => LibscfError::ConstraintViolated,
        1010 => LibscfError::Exists,
        1011 => LibscfError::NoServer,
        1012 => LibscfError::NoResources,
        1013 => LibscfError::PermissionDenied,
        1014 => LibscfError::BackendAccess,
        1015 => LibscfError::HandleMismatch,
        1016 => LibscfError::HandleDestroyed,
        1017 => LibscfError::VersionMismatch,
        1018 => LibscfError::BackendReadonly,
        1019 => LibscfError::Deleted,
        1020 => LibscfError::TemplateInvalid,
        1080 => LibscfError::CallbackFailed,
        _ => LibscfError::Internal,
    }
}

/// The `scf_error_t` code that stands for an error (for `Unknown`, the code
/// it carries).
pub open spec fn libscf_error_code(e: LibscfError) -> u32 {
    match e {
        LibscfError::NoError => 1000,
        LibscfError::NotBound => 1001,
        LibscfError::NotSet => 1002,
        LibscfError::NotFound => 1003,
        LibscfError::TypeMismatch => 1004,
        LibscfError::InUse => 1005,
        LibscfError::ConnectionBroken => 1006,
        LibscfError::InvalidArgument => 1007,
        LibscfError::NoMemory => 1008,
        LibscfError::ConstraintViolated => 1009,
        LibscfError::Exists => 1010,
        LibscfError::NoServer => 1011,
        LibscfError::NoResources => 1012,
        LibscfError::PermissionDenied => 1013,
        LibscfError::BackendAccess => 1014,
        LibscfError::HandleMismatch => 1015,
        LibscfError::HandleDestroyed => 1016,
        LibscfError::VersionMismatch => 1017,
        LibscfError::BackendReadonly => 1018,
        LibscfError::Deleted => 1019,
        LibscfError::TemplateInvalid => 1020,
        LibscfError::CallbackFailed => 1080,
        LibscfError::Internal => 1101,
        LibscfError::Unknown(n) => n,
    }
}

/// Every error is the one its code maps to (an `Unknown` error carries a
/// code that is not a known one), and distinct codes map to distinct
/// errors.
pub proof fn lemma_libscf_error_code_round_trip(e: LibscfError, c1: u32, c2: u32)
    requires
        e matches LibscfError::Unknown(n) ==> !is_scf_error_code(n),
    ensures
        libscf_error_of_code(libscf_error_code(e)) == e,
        libscf_error_code(libscf_error_of_code(c1)) == c1,
        c1 != c2 ==> libscf_error_of_code(c1) != libscf_error_of_code(c2),
{
}

/// Each `libscf` error is read from its own `scf_error_t` code and from no
/// other, and shows the message of that code; any other code is kept as an
/// unknown error.
pub proof fn lemma_libscf_error_codes(c: u32)
    ensures
        (libscf_error_of_code(c) == LibscfError::NoError) == (c == 1000),
        (libscf_error_of_code(c) == LibscfError::NotBound) == (c == 1001),
        (libscf_error_of_code(c) == LibscfError::NotSet) == (c == 1002),
        (libscf_error_of_code(c) == LibscfError::NotFound) == (c == 1003),
        (libscf_error_of_code(c) == LibscfError::TypeMismatch) == (c == 1004),
        (libscf_error_of_code(c) == LibscfError::InUse) == (c == 1005),
        (libscf_error_of_code(c) == LibscfError::ConnectionBroken) == (c == 1006),
        (libscf_error_of_code(c) == LibscfError::InvalidArgument) == (c == 1007),
        (libscf_error_of_code(c) == LibscfError::NoMemory) == (c == 1008),
        (libscf_error_of_code(c) == LibscfError::ConstraintViolated) == (c == 1009),
        (libscf_error_of_code(c) == LibscfError::Exists) == (c == 1010),
        (libscf_error_of_code(c) == LibscfError::NoServer) == (c == 1011),
        (libscf_error_of_code(c) == LibscfError::NoResources) == (c == 1012),
        (libscf_error_of_code(c) == LibscfError::PermissionDenied) == (c == 1013),
        (libscf_error_of_code(c) == LibscfError::BackendAccess) == (c == 1014),
        (libscf_error_of_code(c) == LibscfError::HandleMismatch) == (c == 1015),
        (libscf_error_of_code(c) == LibscfError::HandleDestroyed) == (c == 1016),
        (libscf_error_of_code(c) == LibscfError::VersionMismatch) == (c == 1017),
        (libscf_error_of_code(c) == LibscfError::BackendReadonly) == (c == 1018),
        (libscf_error_of_code(c) == LibscfError::Deleted) == (c == 1019),
        (libscf_error_of_code(c) == LibscfError::TemplateInvalid) == (c == 1020),
        (libscf_error_of_code(c) == LibscfError::CallbackFailed) == (c == 1080),
        (libscf_error_of_code(c) == LibscfError::Internal) == (c == 1101),
        (libscf_error_of_code(c) is Unknown) == !is_scf_error_code(c),
        !is_scf_error_code(c) ==> libscf_error_of_code(c) == LibscfError::Unknown(c),
        libscf_error_text(libscf_error_of_code(1000)) == "no error"@,
        libscf_error_text(libscf_error_of_code(1001)) == "handle not bound"@,
        libscf_error_text(libscf_error_of_code(1002)) == "cannot use unset argument"@,
        libscf_error_text(libscf_error_of_code(1003)) == "nothing of that name found"@,
        libscf_error_text(libscf_error_of_code(1004)) == "type does not match value"@,
        libscf_error_text(libscf_error_of_code(1005)) == "cannot modify while in-use"@,
        libscf_error_text(libscf_error_of_code(1006)) == "repository connection gone"@,
        libscf_error_text(libscf_error_of_code(1007)) == "bad argument"@,
        libscf_error_text(libscf_error_of_code(1008)) == "no memory available"@,
        libscf_error_text(libscf_error_of_code(1009)) == "required constraint not met"@,
        libscf_error_text(libscf_error_of_code(1010)) == "object already exists"@,
        libscf_error_text(libscf_error_of_code(1011)) == "repository server unavailable"@,
        libscf_error_text(libscf_error_of_code(1012)) == "server has insufficient resources"@,
        libscf_error_text(libscf_error_of_code(1013)) == "insufficient privileges for action"@,
        libscf_error_text(libscf_error_of_code(1014)) == "backend refused access"@,
        libscf_error_text(libscf_error_of_code(1015)) == "mismatched SCF handles"@,
        libscf_error_text(libscf_error_of_code(1016)) == "object bound to destroyed handle"@,
        libscf_error_text(libscf_error_of_code(1017)) == "incompatible SCF version"@,
        libscf_error_text(libscf_error_of_code(1018)) == "backend is read-only"@,
        libscf_error_text(libscf_error_of_code(1019)) == "object has been deleted"@,
        libscf_error_text(libscf_error_of_code(1020)) == "template data is invalid"@,
        libscf_error_text(libscf_error_of_code(1080)) == "user callback function failed"@,
        libscf_error_text(libscf_error_of_code(1101)) == "internal error"@,
{
}

/// The message of a `libscf` error.
pub open spec fn libscf_error_text(e: LibscfError) -> Seq<char> {
    match e {
        LibscfError::NoError => "no error"@,
        LibscfError::NotBound => "handle not bound"@,
        LibscfError::NotSet => "cannot use unset argument"@,
        LibscfError::NotFound => "nothing of that name found"@,
        LibscfError::TypeMismatch => "type does not match value"@,
        LibscfError::InUse => "cannot modify while in-use"@,
        LibscfError::ConnectionBroken => "repository connection gone"@,
        LibscfError::InvalidArgument => "bad argument"@,
        LibscfError::NoMemory => "no memory available"@,
        LibscfError::ConstraintViolated => "required constraint not met"@,
        LibscfError::Exists => "object already exists"@,
        LibscfError::NoServer => "repository server unavailable"@,
        LibscfError::NoResources => "server has insufficient resources"@,
        LibscfError::PermissionDenied => "insufficient privileges for action"@,
        LibscfError::BackendAccess => "backend refused access"@,
        LibscfError::HandleMismatch => "mismatched SCF handles"@,
        LibscfError::HandleDestroyed => "object bound to destroyed handle"@,
        LibscfError::VersionMismatch => "incompatible SCF version"@,
        LibscfError::BackendReadonly => "backend is read-only"@,
        LibscfError::Deleted => "object has been deleted"@,
        LibscfError::TemplateInvalid => "template data is invalid"@,
        LibscfError::CallbackFailed => "user callback function failed"@,
        LibscfError::Internal => "internal error"@,
        LibscfError::Unknown(n) => "unknown error ("@ + crate::text::dec_nat(n as nat) + ")"@,
    }
}

impl LibscfError {
    /// The error for a `libscf` error code (as returned by `scf_error()`).
    pub fn from_code(code: u32) -> (e: LibscfError)
        ensures
            e == libscf_error_of_code(code),
    {
        match scf_error_t_from_u32(code) {
            Some(c) => known_error(c),
            None => LibscfError::Unknown(code),
        }
    }

    /// The result of a `libscf` call that returns `0` on success and `-1` on
    /// failure, given the call's return value and the error code `libscf`
    /// reported for it. Calls with other special returns (such as the `1` of
    /// the iterators) are decided elsewhere.
    pub fn from_ret(ret: i32, last_error: u32) -> (res: Result<(), LibscfError>)
        requires
            ret <= 0,
        ensures
            ret == 0 ==> res is Ok,
            ret != 0 ==> res == Err::<(), LibscfError>(libscf_error_of_code(last_error)),
    {
        if ret == 0 {
            Ok(())
        } else {
            Err(Self::from_code(last_error))
        }
    }

    /// The result of a `libscf` call that returns a length, or a negative
    /// value on failure.
    pub fn from_ssize(ret: isize, last_error: u32) -> (res: Result<usize, LibscfError>)
        ensures
            ret >= 0 ==> res == Ok::<usize, LibscfError>(ret as usize),
            ret < 0 ==> res == Err::<usize, LibscfError>(libscf_error_of_code(last_error)),
    {
        if ret >= 0 {
            Ok(ret as usize)
        } else {
            Err(Self::from_code(last_error))
        }
    }

    /// The result of a `libscf` call that returns a handle, or null on
    /// failure; `is_null` tells which.
    pub fn from_ptr(is_null: bool, last_error: u32) -> (res: Result<(), LibscfError>)
        ensures
            !is_null ==> res is Ok,
            is_null ==> res == Err::<(), LibscfError>(libscf_error_of_code(last_error)),
    {
        if is_null {
            Err(Self::from_code(last_error))
        } else {
            Ok(())
        }
    }

    /// The message of this error (its `Display` text).
    pub fn to_string(&self) -> (s: String)
        ensures
            s@ == libscf_error_text(*self),
    {
        let mut s = String::new();
        match self {
            LibscfError::NoError => push_str(&mut s, "no error"),
            LibscfError::NotBound => push_str(&mut s, "handle not bound"),
            LibscfError::NotSet => push_str(&mut s, "cannot use unset argument"),
            LibscfError::NotFound => push_str(&mut s, "nothing of that name found"),
            LibscfError::TypeMismatch => push_str(&mut s, "type does not match value"),
            LibscfError::InUse => push_str(&mut s, "cannot modify while in-use"),
            LibscfError::ConnectionBroken => push_str(&mut s, "repository connection gone"),
            LibscfError::InvalidArgument => push_str(&mut s, "bad argument"),
            LibscfError::NoMemory => push_str(&mut s, "no memory available"),
            LibscfError::ConstraintViolated => push_str(&mut s, "required constraint not met"),
            LibscfError::Exists => push_str(&mut s, "object already exists"),
            LibscfError::NoServer => push_str(&mut s, "repository server unavailable"),
            LibscfError::NoResources => push_str(&mut s, "server has insufficient resources"),
            LibscfError::PermissionDenied => push_str(&mut s, "insufficient privileges for action"),
            LibscfError::BackendAccess => push_str(&mut s, "backend refused access"),
            LibscfError::HandleMismatch => push_str(&mut s, "mismatched SCF handles"),
            LibscfError::HandleDestroyed => push_str(&mut s, "object bound to destroyed handle"),
            LibscfError::VersionMismatch => push_str(&mut s, "incompatible SCF version"),
            LibscfError::BackendReadonly => push_str(&mut s, "backend is read-only"),
            LibscfError::Deleted => push_str(&mut s, "object has been deleted"),
            LibscfError::TemplateInvalid => push_str(&mut s, "template data is invalid"),
            LibscfError::CallbackFailed => push_str(&mut s, "user callback function failed"),
            LibscfError::Internal => push_str(&mut s, "internal error"),
            LibscfError::Unknown(n) => {
                push_str(&mut s, "unknown error (");
                crate::text::push_dec_u64(&mut s, *n as u64);
                push_str(&mut s, ")");
            },
        }
        assert(s@ =~= libscf_error_text(*self));
        s
    }
}

// ---------------------------------------------------------------------------
// Error types.

/// Error creating a new entity handle.
#[derive(Debug, Clone, PartialEq, Eq)]
pub struct HandleCreateError {
    pub entity: ScfEntity,
    pub err: LibscfError,
}

/// Error looking up an entity within a parent.
#[derive(Debug, Clone, PartialEq, Eq)]
pub enum LookupError {
    HandleCreate(HandleCreateError),
    InvalidName { entity: ScfEntity, name: String, err: NulError },
    Get { entity: ScfEntity, parent: ScfEntityDescription, name: String, err: LibscfError },
}

/// Error getting an instance handle via its FMRI.
#[derive(Debug, PartialEq, Eq)]
pub enum InstanceFromFmriError {
    HandleCreate(HandleCreateError),
    InvalidFmri { fmri: String, err: NulError },
    Get { fmri: String, err: LibscfError },
    GetName { fmri: String, err: ScfStringError },
}

/// Specific ways `libscf` iteration can fail.
#[derive(Debug, PartialEq, Eq)]
pub enum IterErrorKind {
    Init(LibscfError),
    GetNext(LibscfError),
    GetName(ScfStringError),
    GetValue(ValueGetError),
}

/// Error iterating entities.
#[derive(Debug, PartialEq, Eq)]
pub enum IterError {
    HandleCreate(HandleCreateError),
    Iter { entity: ScfEntity, parent: ScfEntityDescription, kind: IterErrorKind },
}

/// Error getting string values from `libscf`.
#[derive(Debug, PartialEq, Eq)]
pub enum ScfStringError {
    OutOfBounds { entity: ScfEntity, scf_len: usize, max_len: usize },
    Get { entity: ScfEntity, err: LibscfError },
    InvalidCString(FromBytesWithNulError),
    NonUtf8String(std::str::Utf8Error),
}

/// Error looking up the local scope.
#[derive(Debug, Clone, PartialEq, Eq)]
pub enum ScopeError {
    HandleCreate(HandleCreateError),
    GetLocalScope(LibscfError),
}

/// Error constructing the top-level `libscf` handle.
#[derive(Debug, Clone, PartialEq, Eq)]
pub enum ScfError {
    HandleCreate(HandleCreateError),
    HandleBind(LibscfError),
    SetZoneName { zonename: String, err: ValueSetError },
    SetDecorationZoneName { zonename: String, err: LibscfError },
}

/// Error refreshing an instance.
#[derive(Debug, Clone, PartialEq, Eq)]
pub enum InstanceRefreshError {
    InvalidFmri { fmri: String, err: NulError },
    Failed { fmri: String, err: LibscfError },
}

/// Error setting a `libscf` value.
#[derive(Debug, Clone, PartialEq, Eq)]
pub enum ValueSetError {
    SetFailed { value: Value, err: LibscfError },
    InvalidString { value: String, err: NulError },
    InvalidTimestampNanos { timestamp: Timestamp, seconds: i64, nanos: u32 },
}

/// Error getting a `libscf` value.
#[derive(Debug, PartialEq, Eq)]
pub enum ValueGetError {
    UnexpectedTypeValue(i32),
    Invalid(LibscfError),
    GetBool(LibscfError),
    GetCount(LibscfError),
    GetInteger(LibscfError),
    GetTime(LibscfError),
    InvalidTime { secs: i64, nanos: i32 },
    GetOpaque(LibscfError),
    GetOpaqueOutOfBounds(usize),
    GetAsString(ScfStringError),
    InvalidNetAddrV4(String),
    InvalidNetAddrV6(String),
    InvalidNetAddr(String),
}

/// Error getting the sole value of a property.
#[derive(Debug, PartialEq, Eq)]
pub enum SingleValueError {
    NoValues { description: ScfEntityDescription },
    MultipleValues { description: ScfEntityDescription },
    IterError(IterError),
}

/// Error from updating a property group to its latest version.
#[derive(Debug, Clone, PartialEq, Eq)]
pub enum PropertyGroupUpdateError {
    Failed { description: ScfEntityDescription, err: LibscfError },
}

/// Error getting a property group's type from `libscf`.
#[derive(Debug, PartialEq, Eq)]
pub enum PropertyGroupTypeError {
    GetType { description: ScfEntityDescription, err: ScfStringError },
    UnknownType { description: ScfEntityDescription, type_: String },
}

/// Error adding a property group to a service or instance.
#[derive(Debug, Clone, PartialEq, Eq)]
pub enum PropertyGroupAddError {
    HandleCreate(HandleCreateError),
    InvalidName { parent: ScfEntityDescription, name: String, err: NulError },
    Add { parent: ScfEntityDescription, name: String, err: LibscfError },
    ExistenceLookup { parent: ScfEntityDescription, name: String, err: LookupError },
    DeletedDuringEnsure { parent: ScfEntityDescription, name: String },
}

/// Error deleting a property group from a service or instance.
#[derive(Debug, Clone, PartialEq, Eq)]
pub enum PropertyGroupDeleteError {
    Lookup { parent: ScfEntityDescription, name: String, err: LookupError },
    Delete { description: ScfEntityDescription, err: LibscfError },
}

/// Kind of transaction operation to modify a property group.
#[derive(Debug, Clone, Copy, PartialEq, Eq, Structural)]
pub enum TransactionOp {
    Delete,
    New,
    Change,
    ChangeType,
    AddValue,
}

/// How an operation reads in a transaction error message.
pub open spec fn transaction_op_text(op: TransactionOp) -> Seq<char> {
    match op {
        TransactionOp::Delete => "delete"@,
        TransactionOp::New => "create new"@,
        TransactionOp::Change => "change"@,
        TransactionOp::ChangeType => "change type of"@,
        TransactionOp::AddValue => "add value to"@,
    }
}

/// How an operation reads in a transaction error message.
pub fn format_transaction_op(op: &TransactionOp) -> (s: &'static str)
    ensures
        s@ == transaction_op_text(*op),
{
    match op {
        TransactionOp::Delete => "delete",
        TransactionOp::New => "create new",
        TransactionOp::Change => "change",
        TransactionOp::ChangeType => "change type of",
        TransactionOp::AddValue => "add value to",
    }
}

/// Error performing an operation on a property within a property group
/// transaction.
#[derive(Debug, Clone, PartialEq, Eq)]
pub struct TransactionPropertyError {
    pub property_group: ScfEntityDescription,
    pub name: String,
    pub op: TransactionOp,
    pub err: LibscfError,
}

/// Error building a property group transaction.
#[derive(Debug, Clone, PartialEq, Eq)]
pub enum TransactionBuildError {
    HandleCreate(HandleCreateError),
    Start { property_group: ScfEntityDescription, err: LibscfError },
    InvalidName { property_group: ScfEntityDescription, err: NulError },
    ExistenceLookup { property_group: ScfEntityDescription, name: String, err: LookupError },
    Property(TransactionPropertyError),
    TypeMismatch {
        property_group: ScfEntityDescription,
        name: String,
        property_type: ValueKind,
        value_type: ValueKind,
    },
    SetValue { property_group: ScfEntityDescription, name: String, err: ValueSetError },
}

/// Error committing a property group transaction.
#[derive(Debug, Clone, PartialEq, Eq)]
pub struct TransactionCommitError {
    pub property_group: ScfEntityDescription,
    pub err: LibscfError,
}

} // verus!
