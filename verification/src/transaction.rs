//! Transactions on the properties of a directly attached property group:
//! the checks made while entries are added, and the outcomes of starting and
//! committing.

use vstd::prelude::*;

use crate::error::libscf_error_of_code;
use crate::error::LibscfError;
use crate::error::LookupError;
use crate::error::ScfEntityDescription;
use crate::error::TransactionBuildError;
use crate::error::TransactionCommitError;
use crate::error::TransactionOp;
use crate::error::TransactionPropertyError;
use crate::utf8cstring::is_first_nul;
use crate::utf8cstring::no_nul_char;
use crate::utf8cstring::Utf8CString;
use crate::value::view_kind;
use crate::value::ValueKind;
use crate::value::ValueRef;
use vstd::utf8::encode_utf8;

verus! {

/// Type-state marker for a transaction in the reset (initial) state; it must
/// be started before entries are added.
#[derive(Debug)]
pub struct TransactionReset;

/// Type-state marker for a started transaction: entries may be added, and it
/// may be reset or committed.
#[derive(Debug)]
pub struct TransactionStarted;

/// Type-state marker for a committed transaction, which can only be dropped
/// or reset.
#[derive(Debug)]
pub struct TransactionCommitted;

/// The outcome of starting a transaction once `scf_transaction_start()`
/// returned `ret` (reporting `last_error`).
pub fn start_outcome(property_group: ScfEntityDescription, ret: i32, last_error: u32) -> (res: Result<
    (),
    TransactionBuildError,
>)
    requires
        ret <= 0,
    ensures
        ret == 0 ==> res is Ok,
        ret != 0 ==> res == Err::<(), TransactionBuildError>(
            TransactionBuildError::Start { property_group, err: libscf_error_of_code(last_error) },
        ),
{
    match LibscfError::from_ret(ret, last_error) {
        Ok(()) => Ok(()),
        Err(err) => Err(TransactionBuildError::Start { property_group, err }),
    }
}

/// The name of a property in a transaction entry, as a C string; fails when
/// `name` holds a NUL.
pub fn check_property_name(property_group: &ScfEntityDescription, name: &str) -> (res: Result<
    Utf8CString,
    TransactionBuildError,
>)
    ensures
        res is Ok <==> no_nul_char(name@),
        res matches Ok(n) ==> n@ == name@,
        res matches Err(e) ==> (e matches TransactionBuildError::InvalidName {
            property_group: pg,
            err,
        } && pg == *property_group && is_first_nul(encode_utf8(name@), err.nul_position as int)),
{
    match Utf8CString::from_str(name) {
        Ok(n) => Ok(n),
        Err(err) => Err(
            TransactionBuildError::InvalidName { property_group: property_group.copy(), err },
        ),
    }
}

/// Every value of an entry must have the entry's kind.
pub fn check_value_kind(
    property_group: &ScfEntityDescription,
    name: &Utf8CString,
    expected_kind: ValueKind,
    value: ValueRef<'_>,
) -> (res: Result<(), TransactionBuildError>)
    ensures
        res is Ok <==> view_kind(value@) == expected_kind,
        res matches Err(e) ==> (e matches TransactionBuildError::TypeMismatch {
            property_group: pg,
            name: nm,
            property_type,
            value_type,
        } && pg == *property_group && nm@ == name@ && property_type == expected_kind && value_type
            == view_kind(value@)),
{
    let kind = value.kind();
    if kind != expected_kind {
        Err(
            TransactionBuildError::TypeMismatch {
                property_group: property_group.copy(),
                name: name.as_str().to_owned(),
                property_type: expected_kind,
                value_type: kind,
            },
        )
    } else {
        Ok(())
    }
}

/// The outcome of creating a transaction entry, or of adding a value to
/// one, once the `libscf` call returned `ret` (reporting `last_error`).
pub fn entry_outcome(
    property_group: &ScfEntityDescription,
    name: &Utf8CString,
    op: TransactionOp,
    ret: i32,
    last_error: u32,
) -> (res: Result<(), TransactionPropertyError>)
    requires
        ret <= 0,
    ensures
        ret == 0 <==> res is Ok,
        res matches Err(e) ==> e.property_group == *property_group && e.name@ == name@ && e.op
            == op && e.err == libscf_error_of_code(last_error),
{
    match LibscfError::from_ret(ret, last_error) {
        Ok(()) => Ok(()),
        Err(err) => Err(
            TransactionPropertyError {
                property_group: property_group.copy(),
                name: name.as_str().to_owned(),
                op,
                err,
            },
        ),
    }
}

/// The entry that ensures a property exists with given values.
#[derive(Debug, Clone, Copy, PartialEq, Eq, Structural)]
pub enum EnsureAction {
    /// The property exists: change its values, and its type if needed.
    ChangeType,
    /// The property does not exist: create it.
    New,
}

/// Which entry ensures property `name`, given whether looking it up found
/// it.
pub fn ensure_action(
    property_group: &ScfEntityDescription,
    name: &str,
    found: Result<bool, LookupError>,
) -> (res: Result<EnsureAction, TransactionBuildError>)
    ensures
        found == Ok::<bool, LookupError>(true) ==> res == Ok::<_, TransactionBuildError>(
            EnsureAction::ChangeType,
        ),
        found == Ok::<bool, LookupError>(false) ==> res == Ok::<_, TransactionBuildError>(
            EnsureAction::New,
        ),
        found is Err ==> (res matches Err(TransactionBuildError::ExistenceLookup {
            property_group: pg,
            name: nm,
            err,
        }) && pg == *property_group && nm@ == name@ && Err::<bool, LookupError>(err) == found),
{
    match found {
        Ok(true) => Ok(EnsureAction::ChangeType),
        Ok(false) => Ok(EnsureAction::New),
        Err(err) => Err(
            TransactionBuildError::ExistenceLookup {
                property_group: property_group.copy(),
                name: name.to_owned(),
                err,
            },
        ),
    }
}

/// Outcome of committing a transaction.
#[derive(Debug, Clone, Copy, PartialEq, Eq, Structural)]
pub enum CommitOutcome {
    /// The commit succeeded; the transaction is committed.
    Success,
    /// The property group changed since the transaction started; the
    /// transaction is reset and may be started again.
    OutOfDate,
}

/// The outcome of committing once `scf_transaction_commit()` returned `ret`
/// (`1`: committed, `0`: out of date, anything else: an error, with
/// `last_error` reported).
pub fn commit_outcome(property_group: ScfEntityDescription, ret: i32, last_error: u32) -> (res: Result<
    CommitOutcome,
    TransactionCommitError,
>)
    ensures
        ret == 1 ==> res == Ok::<_, TransactionCommitError>(CommitOutcome::Success),
        ret == 0 ==> res == Ok::<_, TransactionCommitError>(CommitOutcome::OutOfDate),
        ret != 0 && ret != 1 ==> res == Err::<CommitOutcome, _>(
            TransactionCommitError { property_group, err: libscf_error_of_code(last_error) },
        ),
{
    if ret == 0 {
        Ok(CommitOutcome::OutOfDate)
    } else if ret == 1 {
        Ok(CommitOutcome::Success)
    } else {
        Err(TransactionCommitError { property_group, err: LibscfError::from_code(last_error) })
    }
}

} // verus!
