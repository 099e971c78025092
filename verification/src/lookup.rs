//! Looking up a named entity (service, instance, snapshot, property group,
//! property) within its parent.

use vstd::prelude::*;

use crate::error::libscf_error_of_code;
use crate::error::LibscfError;
use crate::error::LookupError;
use crate::error::ScfEntity;
use crate::error::ScfEntityDescription;
use crate::utf8cstring::is_first_nul;
use crate::utf8cstring::no_nul_char;
use crate::utf8cstring::Utf8CString;
use vstd::utf8::encode_utf8;

verus! {

/// The name of an entity to look up, as a C string; fails when `name`
/// holds a NUL.
pub fn lookup_name(entity: ScfEntity, name: &str) -> (res: Result<Utf8CString, LookupError>)
    ensures
        res is Ok <==> no_nul_char(name@),
        res matches Ok(n) ==> n@ == name@,
        res matches Err(e) ==> (e matches LookupError::InvalidName { entity: en, name: nm, err }
            && en == entity && nm@ == name@ && is_first_nul(
            encode_utf8(name@),
            err.nul_position as int,
        )),
{
    match Utf8CString::from_str(name) {
        Ok(n) => Ok(n),
        Err(err) => Err(LookupError::InvalidName { entity, name: name.to_owned(), err }),
    }
}

/// The outcome of looking up `name` in `parent` once the `libscf` getter
/// returned `ret` (reporting `last_error`): found, not found (`Ok(false)`),
/// or an error.
pub fn lookup_outcome(
    entity: ScfEntity,
    parent: ScfEntityDescription,
    name: &Utf8CString,
    ret: i32,
    last_error: u32,
) -> (res: Result<bool, LookupError>)
    requires
        ret <= 0,
    ensures
        ret == 0 ==> res == Ok::<bool, LookupError>(true),
        ret != 0 && libscf_error_of_code(last_error) == LibscfError::NotFound ==> res == Ok::<
            bool,
            LookupError,
        >(false),
        ret != 0 && libscf_error_of_code(last_error) != LibscfError::NotFound ==> (res matches Err(
            LookupError::Get { entity: en, parent: p, name: nm, err },
        ) && en == entity && p == parent && nm@ == name@ && err == libscf_error_of_code(last_error)),
{
    match LibscfError::from_ret(ret, last_error) {
        Ok(()) => Ok(true),
        Err(LibscfError::NotFound) => Ok(false),
        Err(err) => Err(
            LookupError::Get { entity, parent, name: name.as_str().to_owned(), err },
        ),
    }
}

} // verus!
