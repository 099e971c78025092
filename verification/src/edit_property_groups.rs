//! Adding, ensuring and deleting the property groups of a service or
//! instance.

use vstd::prelude::*;

use crate::error::libscf_error_of_code;
use crate::error::LibscfError;
use crate::error::LookupError;
use crate::error::PropertyGroupAddError;
use crate::error::PropertyGroupDeleteError;
use crate::error::ScfEntityDescription;
use crate::utf8cstring::is_first_nul;
use crate::utf8cstring::no_nul_char;
use crate::utf8cstring::Utf8CString;
use vstd::utf8::encode_utf8;

verus! {

/// Flags controlling creation of new property groups.
#[derive(Debug, Clone, Copy, PartialEq, Eq, PartialOrd, Ord, Structural)]
#[non_exhaustive]
pub enum AddPropertyGroupFlags {
    /// Persistent property group (the default and typical value).
    Persistent,
    /// Non-persistent property group: not included in snapshots, and its
    /// contents are lost on shutdown or reboot.
    NonPersistent,
}

/// Reads `libscf_sys::SCF_PG_FLAG_NONPERSISTENT`, which `libscf_sys` defines
/// as `0x1`.
#[verifier::external_body]
fn scf_pg_flag_nonpersistent() -> (f: u32)
    ensures
        f == 1,
{
    libscf_sys::SCF_PG_FLAG_NONPERSISTENT
}

impl AddPropertyGroupFlags {
    /// The `libscf` flag bits for these flags.
    pub fn bits(self) -> (b: u32)
        ensures
            b == (match self {
                AddPropertyGroupFlags::Persistent => 0u32,
                AddPropertyGroupFlags::NonPersistent => 1u32,
            }),
    {
        match self {
            AddPropertyGroupFlags::Persistent => 0,
            AddPropertyGroupFlags::NonPersistent => scf_pg_flag_nonpersistent(),
        }
    }
}

/// Result of deleting a property group.
#[derive(Debug, Clone, Copy, PartialEq, Eq, PartialOrd, Ord, Structural)]
pub enum DeletePropertyGroupResult {
    /// The property group was deleted.
    Deleted,
    /// The property group was not deleted because it already didn't exist.
    DoesNotExist,
}

/// The name of a property group to add to `parent`, as a C string; fails
/// when `name` holds a NUL.
pub fn add_pg_name(parent: &ScfEntityDescription, name: &str) -> (res: Result<
    Utf8CString,
    PropertyGroupAddError,
>)
    ensures
        res is Ok <==> no_nul_char(name@),
        res matches Ok(n) ==> n@ == name@,
        res matches Err(e) ==> (e matches PropertyGroupAddError::InvalidName { parent: p, name: nm, err }
            && p == *parent && nm@ == name@ && is_first_nul(
            encode_utf8(name@),
            err.nul_position as int,
        )),
{
    match Utf8CString::from_str(name) {
        Ok(n) => Ok(n),
        Err(err) => Err(
            PropertyGroupAddError::InvalidName { parent: parent.copy(), name: name.to_owned(), err },
        ),
    }
}

/// The outcome of adding property group `name` to `parent` once the `libscf`
/// call returned `ret` (reporting `last_error`).
pub fn add_outcome(parent: ScfEntityDescription, name: &Utf8CString, ret: i32, last_error: u32) -> (res: Result<
    (),
    PropertyGroupAddError,
>)
    requires
        ret <= 0,
    ensures
        ret == 0 <==> res is Ok,
        res matches Err(e) ==> (e matches PropertyGroupAddError::Add { parent: p, name: nm, err }
            && p == parent && nm@ == name@ && err == libscf_error_of_code(last_error)),
{
    match LibscfError::from_ret(ret, last_error) {
        Ok(()) => Ok(()),
        Err(err) => Err(PropertyGroupAddError::Add { parent, name: name.as_str().to_owned(), err }),
    }
}

/// First step of ensuring a property group: after trying to add it, go on
/// (to look it up) when it was added or already existed; stop with any
/// other error.
pub fn ensure_after_add(added: Result<(), PropertyGroupAddError>) -> (res: Result<
    (),
    PropertyGroupAddError,
>)
    ensures
        res is Ok <==> (added is Ok || (added matches Err(PropertyGroupAddError::Add { err, .. })
            && err == LibscfError::Exists)),
        res is Err ==> res == added,
{
    match added {
        Ok(()) => Ok(()),
        Err(PropertyGroupAddError::Add { err: LibscfError::Exists, .. }) => Ok(()),
        Err(err) => Err(err),
    }
}

/// Second step of ensuring a property group: the lookup after adding it must
/// find it; a group gone by then was deleted concurrently.
pub fn ensure_after_lookup(
    parent: ScfEntityDescription,
    name: &str,
    found: Result<bool, LookupError>,
) -> (res: Result<(), PropertyGroupAddError>)
    ensures
        found == Ok::<bool, LookupError>(true) <==> res is Ok,
        found == Ok::<bool, LookupError>(false) ==> (res matches Err(
            PropertyGroupAddError::DeletedDuringEnsure { parent: p, name: nm },
        ) && p == parent && nm@ == name@),
        found is Err ==> (res matches Err(
            PropertyGroupAddError::ExistenceLookup { parent: p, name: nm, err },
        ) && p == parent && nm@ == name@ && Err::<bool, LookupError>(err) == found),
{
    match found {
        Ok(true) => Ok(()),
        Ok(false) => Err(PropertyGroupAddError::DeletedDuringEnsure { parent, name: name.to_owned() }),
        Err(err) => Err(PropertyGroupAddError::ExistenceLookup { parent, name: name.to_owned(), err }),
    }
}

/// First step of deleting a property group by name: after looking it up,
/// `Ok(None)` means it was found and is to be deleted; a group that is not
/// there does not exist.
pub fn delete_after_lookup(
    parent: ScfEntityDescription,
    name: &str,
    found: Result<bool, LookupError>,
) -> (res: Result<Option<DeletePropertyGroupResult>, PropertyGroupDeleteError>)
    ensures
        found == Ok::<bool, LookupError>(true) ==> res == Ok::<_, PropertyGroupDeleteError>(
            None::<DeletePropertyGroupResult>,
        ),
        found == Ok::<bool, LookupError>(false) ==> res == Ok::<_, PropertyGroupDeleteError>(
            Some(DeletePropertyGroupResult::DoesNotExist),
        ),
        found is Err ==> (res matches Err(PropertyGroupDeleteError::Lookup { parent: p, name: nm, err })
            && p == parent && nm@ == name@ && Err::<bool, LookupError>(err) == found),
{
    match found {
        Ok(true) => Ok(None),
        Ok(false) => Ok(Some(DeletePropertyGroupResult::DoesNotExist)),
        Err(err) => Err(PropertyGroupDeleteError::Lookup { parent, name: name.to_owned(), err }),
    }
}

} // verus!
