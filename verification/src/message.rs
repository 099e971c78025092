//! The messages of the error types: each error's `to_string` gives the text
//! that describes it (its source error, where it has one, is held in a field
//! and described by that field's own message).

use vstd::prelude::*;

use crate::error::description_text;
use crate::error::scf_entity_text;
use crate::error::transaction_op_text;
use crate::error::format_transaction_op;
use crate::error::HandleCreateError;
use crate::error::InstanceFromFmriError;
use crate::error::InstanceRefreshError;
use crate::error::IterError;
use crate::error::IterErrorKind;
use crate::error::LookupError;
use crate::error::PropertyGroupAddError;
use crate::error::PropertyGroupDeleteError;
use crate::error::PropertyGroupTypeError;
use crate::error::PropertyGroupUpdateError;
use crate::error::ScfError;
use crate::error::ScfStringError;
use crate::error::ScopeError;
use crate::error::SingleValueError;
use crate::error::TransactionBuildError;
use crate::error::TransactionCommitError;
use crate::error::TransactionPropertyError;
use crate::error::ValueGetError;
use crate::error::ValueSetError;
use crate::text::dec_int;
use crate::text::dec_nat;
use crate::text::pad_left;
use crate::text::push_char;
use crate::text::push_dec_i64;
use crate::text::push_dec_padded;
use crate::text::push_dec_u64;
use crate::text::push_str;
use crate::value::smf_text;
use crate::value::utc_timestamp_representable;
use crate::value::value_kind_text;

verus! {

// ---------------------------------------------------------------------------
// Text of the standard library's and `chrono`'s formatting.

/// What the standard library's `Debug` of a `str` writes for this text (the
/// text in double quotes, with quotes, backslashes and unprintable characters
/// escaped).
pub uninterp spec fn str_debug_text(s: Seq<char>) -> Seq<char>;

/// Calls the standard library's `Debug` of `str` (`{:?}`); the contract
/// names the result.
#[verifier::external_body]
fn str_debug(s: &str) -> (d: String)
    ensures
        d@ == str_debug_text(s@),
{
    format!("{s:?}")
}

/// What `chrono`'s `Display` of `DateTime<Utc>` writes for the date-time with
/// these seconds and nanoseconds since the epoch.
pub uninterp spec fn utc_time_text(secs: i64, nanos: u32) -> Seq<char>;

/// Calls `chrono`'s `Display` of the `DateTime<Utc>` that
/// `DateTime::from_timestamp(secs, nanos)` gives; the contract names the
/// result. `from_timestamp` gives a date-time for the arguments `requires`
/// admits.
#[verifier::external_body]
fn utc_time_display(secs: i64, nanos: u32) -> (d: String)
    requires
        utc_timestamp_representable(secs, nanos),
    ensures
        d@ == utc_time_text(secs, nanos),
{
    chrono::DateTime::<chrono::Utc>::from_timestamp(secs, nanos).unwrap_or_default().to_string()
}

/// `{n:09}` of a signed number: its sign, then its digits zero-padded so that
/// sign and digits take at least nine characters.
pub open spec fn signed_pad9(n: int) -> Seq<char> {
    if n < 0 {
        seq!['-'] + pad_left(dec_nat((-n) as nat), 8, '0')
    } else {
        pad_left(dec_nat(n as nat), 9, '0')
    }
}

fn push_signed_pad9(s: &mut String, n: i32)
    ensures
        final(s)@ == old(s)@ + signed_pad9(n as int),
{
    if n < 0 {
        push_char(s, '-');
        let m: u64 = (-(n as i64)) as u64;
        push_dec_padded(s, m, 8);
        assert(final(s)@ =~= old(s)@ + signed_pad9(n as int));
    } else {
        push_dec_padded(s, n as u64, 9);
    }
}

/// `` `{t}` ``: text between backquotes.
pub open spec fn ticked(t: Seq<char>) -> Seq<char> {
    seq!['`'] + t + seq!['`']
}

fn push_ticked(s: &mut String, t: &str)
    ensures
        final(s)@ == old(s)@ + ticked(t@),
{
    push_char(s, '`');
    push_str(s, t);
    push_char(s, '`');
    assert(final(s)@ =~= old(s)@ + ticked(t@));
}

fn push_debug(s: &mut String, t: &str)
    ensures
        final(s)@ == old(s)@ + str_debug_text(t@),
{
    let d = str_debug(t);
    push_str(s, d.as_str());
}

// ---------------------------------------------------------------------------
// Messages.

/// Message of a [`HandleCreateError`].
pub open spec fn handle_create_text(e: HandleCreateError) -> Seq<char> {
    "failed to create "@ + scf_entity_text(e.entity) + " handle"@
}

/// Message of a [`LookupError`].
pub open spec fn lookup_error_text(e: LookupError) -> Seq<char> {
    match e {
        LookupError::HandleCreate(h) => handle_create_text(h),
        LookupError::InvalidName { entity, name, .. } => "invalid "@ + scf_entity_text(entity)
            + " name "@ + str_debug_text(name@),
        LookupError::Get { entity, parent, name, .. } => "failed to get "@ + scf_entity_text(entity)
            + " "@ + ticked(name@) + " within "@ + description_text(parent),
    }
}

/// Message of an [`InstanceFromFmriError`].
pub open spec fn instance_from_fmri_text(e: InstanceFromFmriError) -> Seq<char> {
    match e {
        InstanceFromFmriError::HandleCreate(h) => handle_create_text(h),
        InstanceFromFmriError::InvalidFmri { fmri, .. } => "invalid FMRI "@ + str_debug_text(
            fmri@,
        ),
        InstanceFromFmriError::Get { fmri, .. } => "failed to get instance "@ + ticked(fmri@),
        InstanceFromFmriError::GetName { fmri, .. } => "failed to get name of instance "@ + ticked(
            fmri@,
        ) + " from libscf"@,
    }
}

/// Message of an [`IterErrorKind`].
pub open spec fn iter_error_kind_text(k: IterErrorKind) -> Seq<char> {
    match k {
        IterErrorKind::Init(_) => "failed to initialize iterator"@,
        IterErrorKind::GetNext(_) => "failed to get next item"@,
        IterErrorKind::GetName(_) => "failed to get item name"@,
        IterErrorKind::GetValue(_) => "failed to get item value"@,
    }
}

/// Message of an [`IterError`].
pub open spec fn iter_error_text(e: IterError) -> Seq<char> {
    match e {
        IterError::HandleCreate(h) => handle_create_text(h),
        IterError::Iter { entity, parent, .. } => "failed to iterate "@ + scf_entity_text(entity)
            + " over "@ + description_text(parent),
    }
}

/// Message of an [`ScfStringError`].
pub open spec fn scf_string_error_text(e: ScfStringError) -> Seq<char> {
    match e {
        ScfStringError::OutOfBounds { entity, scf_len, max_len } => "libscf returned "@
            + scf_entity_text(entity) + " of length "@ + dec_nat(scf_len as nat)
            + " (expected at most "@ + dec_nat(max_len as nat) + ")"@,
        ScfStringError::Get { entity, .. } => "failed to get "@ + scf_entity_text(entity)
            + " as string"@,
        ScfStringError::InvalidCString(_) => "received invalid C string from libscf"@,
        ScfStringError::NonUtf8String(_) => "received non-UTF8 string from libscf"@,
    }
}

/// Message of an [`ScopeError`].
pub open spec fn scope_error_text(e: ScopeError) -> Seq<char> {
    match e {
        ScopeError::HandleCreate(h) => handle_create_text(h),
        ScopeError::GetLocalScope(_) => "failed to get local scope"@,
    }
}

/// Message of an [`ScfError`].
pub open spec fn scf_error_text(e: ScfError) -> Seq<char> {
    match e {
        ScfError::HandleCreate(h) => handle_create_text(h),
        ScfError::HandleBind(_) => "failed to bind scf handle"@,
        ScfError::SetZoneName { zonename, .. } => "failed to set zone name to "@ + zonename@
            + " during connect"@,
        ScfError::SetDecorationZoneName { zonename, .. } =>
            "failed to set decoration to attach to zone "@ + zonename@,
    }
}

/// Message of an [`InstanceRefreshError`].
pub open spec fn instance_refresh_text(e: InstanceRefreshError) -> Seq<char> {
    match e {
        InstanceRefreshError::InvalidFmri { fmri, .. } => "invalid instance FMRI "@
            + str_debug_text(fmri@),
        InstanceRefreshError::Failed { fmri, .. } => "failed to refresh instance "@ + ticked(
            fmri@,
        ),
    }
}

/// Message of a [`ValueSetError`].
pub open spec fn value_set_text(e: ValueSetError) -> Seq<char> {
    match e {
        ValueSetError::SetFailed { value, .. } => "failed to set value "@ + ticked(
            smf_text(value@),
        ) + " on internal libscf value"@,
        ValueSetError::InvalidString { value, .. } => "invalid string value "@ + str_debug_text(
            value@,
        ),
        ValueSetError::InvalidTimestampNanos { timestamp, seconds, nanos } =>
            "invalid subsecond nanos in timestamp "@ + utc_time_text(
            timestamp.spec_secs(),
            timestamp.spec_nanos(),
        ) + " ("@ + dec_int(seconds as int) + "."@ + pad_left(dec_nat(nanos as nat), 9, '0')
            + ")"@,
    }
}

/// Message of a [`ValueGetError`].
pub open spec fn value_get_text(e: ValueGetError) -> Seq<char> {
    match e {
        ValueGetError::UnexpectedTypeValue(t) => "unexpected scf type value: "@ + dec_int(t as int),
        ValueGetError::Invalid(_) => "value is invalid"@,
        ValueGetError::GetBool(_) => "failed to get value as boolean"@,
        ValueGetError::GetCount(_) => "failed to get value as count"@,
        ValueGetError::GetInteger(_) => "failed to get value as integer"@,
        ValueGetError::GetTime(_) => "failed to get value as time"@,
        ValueGetError::InvalidTime { secs, nanos } => "timestamp value from scf is invalid: "@
            + dec_int(secs as int) + "."@ + signed_pad9(nanos as int),
        ValueGetError::GetOpaque(_) => "failed to get value as opaque"@,
        ValueGetError::GetOpaqueOutOfBounds(n) =>
            "failed to get value as opaque: got out of bounds length "@ + dec_nat(n as nat),
        ValueGetError::GetAsString(_) => "failed to get value from libscf"@,
        ValueGetError::InvalidNetAddrV4(s) => "invalid net address v4 value: "@ + s@,
        ValueGetError::InvalidNetAddrV6(s) => "invalid net address v6 value: "@ + s@,
        ValueGetError::InvalidNetAddr(s) => "invalid net address value: "@ + s@,
    }
}

/// Message of a [`SingleValueError`].
pub open spec fn single_value_text(e: SingleValueError) -> Seq<char> {
    match e {
        SingleValueError::NoValues { description } => "property "@ + description_text(description)
            + " has no values"@,
        SingleValueError::MultipleValues { description } => "property "@ + description_text(
            description,
        ) + " has more than one value"@,
        SingleValueError::IterError(_) => "failed to get single value"@,
    }
}

/// Message of a [`PropertyGroupUpdateError`].
pub open spec fn pg_update_text(e: PropertyGroupUpdateError) -> Seq<char> {
    match e {
        PropertyGroupUpdateError::Failed { description, .. } => "failed to update property group "@
            + description_text(description),
    }
}

/// Message of a [`PropertyGroupTypeError`].
pub open spec fn pg_type_error_text(e: PropertyGroupTypeError) -> Seq<char> {
    match e {
        PropertyGroupTypeError::GetType { description, .. } =>
            "failed to get type of property group "@ + description_text(description)
            + " from libscf"@,
        PropertyGroupTypeError::UnknownType { description, type_ } =>
            "unknown type for property group "@ + description_text(description) + ": "@ + ticked(
            type_@,
        ),
    }
}

/// Message of a [`PropertyGroupAddError`].
pub open spec fn pg_add_text(e: PropertyGroupAddError) -> Seq<char> {
    match e {
        PropertyGroupAddError::HandleCreate(h) => handle_create_text(h),
        PropertyGroupAddError::InvalidName { parent, name, .. } => "invalid property group name "@
            + str_debug_text(name@) + " in "@ + description_text(parent),
        PropertyGroupAddError::Add { parent, name, .. } => "failed to add property group "@
            + ticked(name@) + " to "@ + description_text(parent),
        PropertyGroupAddError::ExistenceLookup { parent, name, .. } =>
            "failed to look up existence of property group "@ + ticked(name@) + " on "@
            + description_text(parent),
        PropertyGroupAddError::DeletedDuringEnsure { parent, name } => "property group "@ + ticked(
            name@,
        ) + " on "@ + description_text(parent) + " was deleted concurrently with ensure attempt"@,
    }
}

/// Message of a [`PropertyGroupDeleteError`].
pub open spec fn pg_delete_text(e: PropertyGroupDeleteError) -> Seq<char> {
    match e {
        PropertyGroupDeleteError::Lookup { parent, name, .. } => "failed to look up property group "@
            + ticked(name@) + " for deletion on "@ + description_text(parent),
        PropertyGroupDeleteError::Delete { description, .. } => "failed to delete property group "@
            + description_text(description),
    }
}

/// Message of a [`TransactionPropertyError`].
pub open spec fn transaction_property_text(e: TransactionPropertyError) -> Seq<char> {
    "failed to "@ + transaction_op_text(e.op) + " property "@ + ticked(e.name@)
        + " in transaction on "@ + description_text(e.property_group)
}

/// Message of a [`TransactionBuildError`].
pub open spec fn transaction_build_text(e: TransactionBuildError) -> Seq<char> {
    match e {
        TransactionBuildError::HandleCreate(h) => handle_create_text(h),
        TransactionBuildError::Start { property_group, .. } => "failed to start transaction on "@
            + description_text(property_group),
        TransactionBuildError::InvalidName { property_group, .. } =>
            "invalid property name in transaction on "@ + description_text(property_group),
        TransactionBuildError::ExistenceLookup { property_group, name, .. } =>
            "failed to look up existence of property "@ + ticked(name@) + " in transaction on "@
            + description_text(property_group),
        TransactionBuildError::Property(p) => transaction_property_text(p),
        TransactionBuildError::TypeMismatch { property_group, name, property_type, value_type } =>
            "type mismatch on property "@ + ticked(name@) + " in transaction on "@
            + description_text(property_group) + ": property has type "@ + value_kind_text(
            property_type,
        ) + " but value has type "@ + value_kind_text(value_type),
        TransactionBuildError::SetValue { property_group, name, .. } =>
            "failed to set value for property "@ + ticked(name@) + " in transaction on "@
            + description_text(property_group),
    }
}

/// Message of a [`TransactionCommitError`].
pub open spec fn transaction_commit_text(e: TransactionCommitError) -> Seq<char> {
    "failed to commit transaction on "@ + description_text(e.property_group)
}

impl HandleCreateError {
    fn push_text(&self, s: &mut String)
        ensures
            final(s)@ == old(s)@ + handle_create_text(*self),
    {
        push_str(s, "failed to create ");
        push_str(s, self.entity.as_str());
        push_str(s, " handle");
        assert(final(s)@ =~= old(s)@ + handle_create_text(*self));
    }

    /// The message of this error.
    pub fn to_string(&self) -> (s: String)
        ensures
            s@ == handle_create_text(*self),
    {
        let mut s = String::new();
        self.push_text(&mut s);
        assert(s@ =~= handle_create_text(*self));
        s
    }
}

impl LookupError {
    /// The message of this error.
    pub fn to_string(&self) -> (s: String)
        ensures
            s@ == lookup_error_text(*self),
    {
        let mut s = String::new();
        match self {
            LookupError::HandleCreate(h) => h.push_text(&mut s),
            LookupError::InvalidName { entity, name, .. } => {
                push_str(&mut s, "invalid ");
                push_str(&mut s, entity.as_str());
                push_str(&mut s, " name ");
                push_debug(&mut s, name.as_str());
            },
            LookupError::Get { entity, parent, name, .. } => {
                push_str(&mut s, "failed to get ");
                push_str(&mut s, entity.as_str());
                push_str(&mut s, " ");
                push_ticked(&mut s, name.as_str());
                push_str(&mut s, " within ");
                parent.push_error_text(&mut s);
            },
        }
        assert(s@ =~= lookup_error_text(*self));
        s
    }
}

impl InstanceFromFmriError {
    /// The message of this error.
    pub fn to_string(&self) -> (s: String)
        ensures
            s@ == instance_from_fmri_text(*self),
    {
        let mut s = String::new();
        match self {
            InstanceFromFmriError::HandleCreate(h) => h.push_text(&mut s),
            InstanceFromFmriError::InvalidFmri { fmri, .. } => {
                push_str(&mut s, "invalid FMRI ");
                push_debug(&mut s, fmri.as_str());
            },
            InstanceFromFmriError::Get { fmri, .. } => {
                push_str(&mut s, "failed to get instance ");
                push_ticked(&mut s, fmri.as_str());
            },
            InstanceFromFmriError::GetName { fmri, .. } => {
                push_str(&mut s, "failed to get name of instance ");
                push_ticked(&mut s, fmri.as_str());
                push_str(&mut s, " from libscf");
            },
        }
        assert(s@ =~= instance_from_fmri_text(*self));
        s
    }
}

impl IterErrorKind {
    /// The message of this error.
    pub fn to_string(&self) -> (s: String)
        ensures
            s@ == iter_error_kind_text(*self),
    {
        let t = match self {
            IterErrorKind::Init(_) => "failed to initialize iterator",
            IterErrorKind::GetNext(_) => "failed to get next item",
            IterErrorKind::GetName(_) => "failed to get item name",
            IterErrorKind::GetValue(_) => "failed to get item value",
        };
        t.to_owned()
    }
}

impl IterError {
    /// The message of this error.
    pub fn to_string(&self) -> (s: String)
        ensures
            s@ == iter_error_text(*self),
    {
        let mut s = String::new();
        match self {
            IterError::HandleCreate(h) => h.push_text(&mut s),
            IterError::Iter { entity, parent, .. } => {
                push_str(&mut s, "failed to iterate ");
                push_str(&mut s, entity.as_str());
                push_str(&mut s, " over ");
                parent.push_error_text(&mut s);
            },
        }
        assert(s@ =~= iter_error_text(*self));
        s
    }
}

impl ScfStringError {
    /// The message of this error.
    pub fn to_string(&self) -> (s: String)
        ensures
            s@ == scf_string_error_text(*self),
    {
        let mut s = String::new();
        match self {
            ScfStringError::OutOfBounds { entity, scf_len, max_len } => {
                push_str(&mut s, "libscf returned ");
                push_str(&mut s, entity.as_str());
                push_str(&mut s, " of length ");
                push_dec_u64(&mut s, *scf_len as u64);
                push_str(&mut s, " (expected at most ");
                push_dec_u64(&mut s, *max_len as u64);
                push_str(&mut s, ")");
            },
            ScfStringError::Get { entity, .. } => {
                push_str(&mut s, "failed to get ");
                push_str(&mut s, entity.as_str());
                push_str(&mut s, " as string");
            },
            ScfStringError::InvalidCString(_) => {
                push_str(&mut s, "received invalid C string from libscf")
            },
            ScfStringError::NonUtf8String(_) => {
                push_str(&mut s, "received non-UTF8 string from libscf")
            },
        }
        assert(s@ =~= scf_string_error_text(*self));
        s
    }
}

impl ScopeError {
    /// The message of this error.
    pub fn to_string(&self) -> (s: String)
        ensures
            s@ == scope_error_text(*self),
    {
        let mut s = String::new();
        match self {
            ScopeError::HandleCreate(h) => h.push_text(&mut s),
            ScopeError::GetLocalScope(_) => push_str(&mut s, "failed to get local scope"),
        }
        assert(s@ =~= scope_error_text(*self));
        s
    }
}

impl ScfError {
    /// The message of this error.
    pub fn to_string(&self) -> (s: String)
        ensures
            s@ == scf_error_text(*self),
    {
        let mut s = String::new();
        match self {
            ScfError::HandleCreate(h) => h.push_text(&mut s),
            ScfError::HandleBind(_) => push_str(&mut s, "failed to bind scf handle"),
            ScfError::SetZoneName { zonename, .. } => {
                push_str(&mut s, "failed to set zone name to ");
                push_str(&mut s, zonename.as_str());
                push_str(&mut s, " during connect");
            },
            ScfError::SetDecorationZoneName { zonename, .. } => {
                push_str(&mut s, "failed to set decoration to attach to zone ");
                push_str(&mut s, zonename.as_str());
            },
        }
        assert(s@ =~= scf_error_text(*self));
        s
    }
}

impl InstanceRefreshError {
    /// The message of this error.
    pub fn to_string(&self) -> (s: String)
        ensures
            s@ == instance_refresh_text(*self),
    {
        let mut s = String::new();
        match self {
            InstanceRefreshError::InvalidFmri { fmri, .. } => {
                push_str(&mut s, "invalid instance FMRI ");
                push_debug(&mut s, fmri.as_str());
            },
            InstanceRefreshError::Failed { fmri, .. } => {
                push_str(&mut s, "failed to refresh instance ");
                push_ticked(&mut s, fmri.as_str());
            },
        }
        assert(s@ =~= instance_refresh_text(*self));
        s
    }
}

impl ValueSetError {
    /// The message of this error.
    pub fn to_string(&self) -> (s: String)
        ensures
            s@ == value_set_text(*self),
    {
        let mut s = String::new();
        match self {
            ValueSetError::SetFailed { value, .. } => {
                push_str(&mut s, "failed to set value ");
                let shown = value.display_smf().to_string();
                push_ticked(&mut s, shown.as_str());
                push_str(&mut s, " on internal libscf value");
            },
            ValueSetError::InvalidString { value, .. } => {
                push_str(&mut s, "invalid string value ");
                push_debug(&mut s, value.as_str());
            },
            ValueSetError::InvalidTimestampNanos { timestamp, seconds, nanos } => {
                push_str(&mut s, "invalid subsecond nanos in timestamp ");
                let secs = timestamp.timestamp();
                let subsec = timestamp.timestamp_subsec_nanos();
                let shown = utc_time_display(secs, subsec);
                push_str(&mut s, shown.as_str());
                push_str(&mut s, " (");
                push_dec_i64(&mut s, *seconds);
                push_str(&mut s, ".");
                push_dec_padded(&mut s, *nanos as u64, 9);
                push_str(&mut s, ")");
            },
        }
        assert(s@ =~= value_set_text(*self));
        s
    }
}

impl ValueGetError {
    /// The message of this error.
    pub fn to_string(&self) -> (s: String)
        ensures
            s@ == value_get_text(*self),
    {
        let mut s = String::new();
        match self {
            ValueGetError::UnexpectedTypeValue(t) => {
                push_str(&mut s, "unexpected scf type value: ");
                push_dec_i64(&mut s, *t as i64);
            },
            ValueGetError::Invalid(_) => push_str(&mut s, "value is invalid"),
            ValueGetError::GetBool(_) => push_str(&mut s, "failed to get value as boolean"),
            ValueGetError::GetCount(_) => push_str(&mut s, "failed to get value as count"),
            ValueGetError::GetInteger(_) => push_str(&mut s, "failed to get value as integer"),
            ValueGetError::GetTime(_) => push_str(&mut s, "failed to get value as time"),
            ValueGetError::InvalidTime { secs, nanos } => {
                push_str(&mut s, "timestamp value from scf is invalid: ");
                push_dec_i64(&mut s, *secs);
                push_str(&mut s, ".");
                push_signed_pad9(&mut s, *nanos);
            },
            ValueGetError::GetOpaque(_) => push_str(&mut s, "failed to get value as opaque"),
            ValueGetError::GetOpaqueOutOfBounds(n) => {
                push_str(&mut s, "failed to get value as opaque: got out of bounds length ");
                push_dec_u64(&mut s, *n as u64);
            },
            ValueGetError::GetAsString(_) => push_str(&mut s, "failed to get value from libscf"),
            ValueGetError::InvalidNetAddrV4(t) => {
                push_str(&mut s, "invalid net address v4 value: ");
                push_str(&mut s, t.as_str());
            },
            ValueGetError::InvalidNetAddrV6(t) => {
                push_str(&mut s, "invalid net address v6 value: ");
                push_str(&mut s, t.as_str());
            },
            ValueGetError::InvalidNetAddr(t) => {
                push_str(&mut s, "invalid net address value: ");
                push_str(&mut s, t.as_str());
            },
        }
        assert(s@ =~= value_get_text(*self));
        s
    }
}

impl SingleValueError {
    /// The message of this error.
    pub fn to_string(&self) -> (s: String)
        ensures
            s@ == single_value_text(*self),
    {
        let mut s = String::new();
        match self {
            SingleValueError::NoValues { description } => {
                push_str(&mut s, "property ");
                description.push_error_text(&mut s);
                push_str(&mut s, " has no values");
            },
            SingleValueError::MultipleValues { description } => {
                push_str(&mut s, "property ");
                description.push_error_text(&mut s);
                push_str(&mut s, " has more than one value");
            },
            SingleValueError::IterError(_) => push_str(&mut s, "failed to get single value"),
        }
        assert(s@ =~= single_value_text(*self));
        s
    }
}

impl PropertyGroupUpdateError {
    /// The message of this error.
    pub fn to_string(&self) -> (s: String)
        ensures
            s@ == pg_update_text(*self),
    {
        let mut s = String::new();
        match self {
            PropertyGroupUpdateError::Failed { description, .. } => {
                push_str(&mut s, "failed to update property group ");
                description.push_error_text(&mut s);
            },
        }
        assert(s@ =~= pg_update_text(*self));
        s
    }
}

impl PropertyGroupTypeError {
    /// The message of this error.
    pub fn to_string(&self) -> (s: String)
        ensures
            s@ == pg_type_error_text(*self),
    {
        let mut s = String::new();
        match self {
            PropertyGroupTypeError::GetType { description, .. } => {
                push_str(&mut s, "failed to get type of property group ");
                description.push_error_text(&mut s);
                push_str(&mut s, " from libscf");
            },
            PropertyGroupTypeError::UnknownType { description, type_ } => {
                push_str(&mut s, "unknown type for property group ");
                description.push_error_text(&mut s);
                push_str(&mut s, ": ");
                push_ticked(&mut s, type_.as_str());
            },
        }
        assert(s@ =~= pg_type_error_text(*self));
        s
    }
}

impl PropertyGroupAddError {
    /// The message of this error.
    pub fn to_string(&self) -> (s: String)
        ensures
            s@ == pg_add_text(*self),
    {
        let mut s = String::new();
        match self {
            PropertyGroupAddError::HandleCreate(h) => h.push_text(&mut s),
            PropertyGroupAddError::InvalidName { parent, name, .. } => {
                push_str(&mut s, "invalid property group name ");
                push_debug(&mut s, name.as_str());
                push_str(&mut s, " in ");
                parent.push_error_text(&mut s);
            },
            PropertyGroupAddError::Add { parent, name, .. } => {
                push_str(&mut s, "failed to add property group ");
                push_ticked(&mut s, name.as_str());
                push_str(&mut s, " to ");
                parent.push_error_text(&mut s);
            },
            PropertyGroupAddError::ExistenceLookup { parent, name, .. } => {
                push_str(&mut s, "failed to look up existence of property group ");
                push_ticked(&mut s, name.as_str());
                push_str(&mut s, " on ");
                parent.push_error_text(&mut s);
            },
            PropertyGroupAddError::DeletedDuringEnsure { parent, name } => {
                push_str(&mut s, "property group ");
                push_ticked(&mut s, name.as_str());
                push_str(&mut s, " on ");
                parent.push_error_text(&mut s);
                push_str(&mut s, " was deleted concurrently with ensure attempt");
            },
        }
        assert(s@ =~= pg_add_text(*self));
        s
    }
}

impl PropertyGroupDeleteError {
    /// The message of this error.
    pub fn to_string(&self) -> (s: String)
        ensures
            s@ == pg_delete_text(*self),
    {
        let mut s = String::new();
        match self {
            PropertyGroupDeleteError::Lookup { parent, name, .. } => {
                push_str(&mut s, "failed to look up property group ");
                push_ticked(&mut s, name.as_str());
                push_str(&mut s, " for deletion on ");
                parent.push_error_text(&mut s);
            },
            PropertyGroupDeleteError::Delete { description, .. } => {
                push_str(&mut s, "failed to delete property group ");
                description.push_error_text(&mut s);
            },
        }
        assert(s@ =~= pg_delete_text(*self));
        s
    }
}

impl TransactionPropertyError {
    fn push_text(&self, s: &mut String)
        ensures
            final(s)@ == old(s)@ + transaction_property_text(*self),
    {
        push_str(s, "failed to ");
        push_str(s, format_transaction_op(&self.op));
        push_str(s, " property ");
        push_ticked(s, self.name.as_str());
        push_str(s, " in transaction on ");
        self.property_group.push_error_text(s);
        assert(final(s)@ =~= old(s)@ + transaction_property_text(*self));
    }

    /// The message of this error.
    pub fn to_string(&self) -> (s: String)
        ensures
            s@ == transaction_property_text(*self),
    {
        let mut s = String::new();
        self.push_text(&mut s);
        assert(s@ =~= transaction_property_text(*self));
        s
    }
}

impl TransactionBuildError {
    /// The message of this error.
    pub fn to_string(&self) -> (s: String)
        ensures
            s@ == transaction_build_text(*self),
    {
        let mut s = String::new();
        match self {
            TransactionBuildError::HandleCreate(h) => h.push_text(&mut s),
            TransactionBuildError::Start { property_group, .. } => {
                push_str(&mut s, "failed to start transaction on ");
                property_group.push_error_text(&mut s);
            },
            TransactionBuildError::InvalidName { property_group, .. } => {
                push_str(&mut s, "invalid property name in transaction on ");
                property_group.push_error_text(&mut s);
            },
            TransactionBuildError::ExistenceLookup { property_group, name, .. } => {
                push_str(&mut s, "failed to look up existence of property ");
                push_ticked(&mut s, name.as_str());
                push_str(&mut s, " in transaction on ");
                property_group.push_error_text(&mut s);
            },
            TransactionBuildError::Property(p) => p.push_text(&mut s),
            TransactionBuildError::TypeMismatch {
                property_group,
                name,
                property_type,
                value_type,
            } => {
                push_str(&mut s, "type mismatch on property ");
                push_ticked(&mut s, name.as_str());
                push_str(&mut s, " in transaction on ");
                property_group.push_error_text(&mut s);
                push_str(&mut s, ": property has type ");
                push_str(&mut s, property_type.as_str());
                push_str(&mut s, " but value has type ");
                push_str(&mut s, value_type.as_str());
            },
            TransactionBuildError::SetValue { property_group, name, .. } => {
                push_str(&mut s, "failed to set value for property ");
                push_ticked(&mut s, name.as_str());
                push_str(&mut s, " in transaction on ");
                property_group.push_error_text(&mut s);
            },
        }
        assert(s@ =~= transaction_build_text(*self));
        s
    }
}

impl TransactionCommitError {
    /// The message of this error.
    pub fn to_string(&self) -> (s: String)
        ensures
            s@ == transaction_commit_text(*self),
    {
        let mut s = String::new();
        push_str(&mut s, "failed to commit transaction on ");
        self.property_group.push_error_text(&mut s);
        assert(s@ =~= transaction_commit_text(*self));
        s
    }
}

} // verus!
