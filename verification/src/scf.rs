//! The top-level `libscf` handle: connecting, the local scope, looking up
//! instances by FMRI, and refreshing instances.

use vstd::prelude::*;

use crate::buf::scf_get_string;
use crate::buf::scf_string_error;
use crate::buf::scf_string_text;
use crate::error::libscf_error_of_code;
use crate::error::HandleCreateError;
use crate::error::InstanceFromFmriError;
use crate::error::InstanceRefreshError;
use crate::error::LibscfError;
use crate::error::ScfEntity;
use crate::error::ScfError;
use crate::error::ScopeError;
use crate::scf_value::plan_value_set;
use crate::scf_value::ValueSetting;
use crate::scf_value::setting_error;
use crate::scf_value::value_setting;
use crate::utf8cstring::is_first_nul;
use crate::utf8cstring::no_nul_char;
use crate::utf8cstring::Utf8CString;
use crate::value::ValueRef;
use crate::value::ValueView;
use vstd::utf8::encode_utf8;

verus! {

/// The outcome of creating a handle for `entity` once the `scf_*_create()`
/// call returned null or not (reporting `last_error`).
pub fn handle_create_outcome(entity: ScfEntity, is_null: bool, last_error: u32) -> (res: Result<
    (),
    HandleCreateError,
>)
    ensures
        !is_null ==> res is Ok,
        is_null ==> res == Err::<(), _>(
            HandleCreateError { entity, err: libscf_error_of_code(last_error) },
        ),
{
    match LibscfError::from_ptr(is_null, last_error) {
        Ok(()) => Ok(()),
        Err(err) => Err(HandleCreateError { entity, err }),
    }
}

/// How the zone name is handed to `libscf` when connecting to a zone's
/// repository: as an `astring` value decorating the handle.
pub fn zone_decoration_value<'a>(zonename: &'a str) -> (res: Result<ValueSetting<'a>, ScfError>)
    ensures
        res is Ok <==> value_setting(ValueView::AString(zonename@)) is Some,
        res matches Ok(st) ==> value_setting(ValueView::AString(zonename@)) == Some(st@),
        res matches Err(e) ==> (e matches ScfError::SetZoneName { zonename: z, err } && z@
            == zonename@ && setting_error(ValueView::AString(zonename@), err)),
{
    match plan_value_set(ValueRef::AString(zonename)) {
        Ok(st) => Ok(st),
        Err(err) => Err(ScfError::SetZoneName { zonename: zonename.to_owned(), err }),
    }
}

/// The outcome of decorating the handle with the zone name once
/// `scf_handle_decorate()` returned `ret` (reporting `last_error`).
pub fn zone_decoration_outcome(zonename: &str, ret: i32, last_error: u32) -> (res: Result<
    (),
    ScfError,
>)
    requires
        ret <= 0,
    ensures
        ret == 0 <==> res is Ok,
        res matches Err(e) ==> (e matches ScfError::SetDecorationZoneName { zonename: z, err }
            && z@ == zonename@ && err == libscf_error_of_code(last_error)),
{
    match LibscfError::from_ret(ret, last_error) {
        Ok(()) => Ok(()),
        Err(err) => Err(ScfError::SetDecorationZoneName { zonename: zonename.to_owned(), err }),
    }
}

/// The outcome of binding the handle once `scf_handle_bind()` returned `ret`
/// (reporting `last_error`).
pub fn bind_outcome(ret: i32, last_error: u32) -> (res: Result<(), ScfError>)
    requires
        ret <= 0,
    ensures
        ret == 0 ==> res is Ok,
        ret != 0 ==> res == Err::<(), ScfError>(ScfError::HandleBind(libscf_error_of_code(last_error))),
{
    match LibscfError::from_ret(ret, last_error) {
        Ok(()) => Ok(()),
        Err(err) => Err(ScfError::HandleBind(err)),
    }
}

/// The outcome of getting the local scope once `scf_handle_get_scope()`
/// returned `ret` (reporting `last_error`).
pub fn scope_outcome(ret: i32, last_error: u32) -> (res: Result<(), ScopeError>)
    requires
        ret <= 0,
    ensures
        ret == 0 ==> res is Ok,
        ret != 0 ==> res == Err::<(), ScopeError>(
            ScopeError::GetLocalScope(libscf_error_of_code(last_error)),
        ),
{
    match LibscfError::from_ret(ret, last_error) {
        Ok(()) => Ok(()),
        Err(err) => Err(ScopeError::GetLocalScope(err)),
    }
}

/// The FMRI of an instance to look up, as a C string; fails when it holds
/// a NUL.
pub fn instance_fmri_arg(fmri: &str) -> (res: Result<Utf8CString, InstanceFromFmriError>)
    ensures
        res is Ok <==> no_nul_char(fmri@),
        res matches Ok(f) ==> f@ == fmri@,
        res matches Err(e) ==> (e matches InstanceFromFmriError::InvalidFmri { fmri: f, err }
            && f@ == fmri@ && is_first_nul(encode_utf8(fmri@), err.nul_position as int)),
{
    match Utf8CString::from_str(fmri) {
        Ok(f) => Ok(f),
        Err(err) => Err(InstanceFromFmriError::InvalidFmri { fmri: fmri.to_owned(), err }),
    }
}

/// The outcome of decoding an instance FMRI once
/// `scf_handle_decode_fmri()` returned `ret` (reporting `last_error`).
pub fn instance_decode_outcome(fmri: &Utf8CString, ret: i32, last_error: u32) -> (res: Result<
    (),
    InstanceFromFmriError,
>)
    requires
        ret <= 0,
    ensures
        ret == 0 <==> res is Ok,
        res matches Err(e) ==> (e matches InstanceFromFmriError::Get { fmri: f, err } && f@
            == fmri@ && err == libscf_error_of_code(last_error)),
{
    match LibscfError::from_ret(ret, last_error) {
        Ok(()) => Ok(()),
        Err(err) => Err(InstanceFromFmriError::Get { fmri: fmri.as_str().to_owned(), err }),
    }
}

/// The name of an instance looked up by FMRI, once `scf_instance_get_name()`
/// wrote it into `buf` and returned `ret` (reporting `last_error`).
pub fn instance_name_read(fmri: &Utf8CString, buf: &[u8], ret: isize, last_error: u32) -> (res: Result<
    Utf8CString,
    InstanceFromFmriError,
>)
    ensures
        res is Ok <==> scf_string_text(buf@, ret as int) is Some,
        res matches Ok(n) ==> Some(n@) == scf_string_text(buf@, ret as int),
        res matches Err(e) ==> (e matches InstanceFromFmriError::GetName { fmri: f, err } && f@
            == fmri@ && scf_string_error(ScfEntity::Name, buf@, ret as int, last_error, err)),
{
    match scf_get_string(ScfEntity::Name, buf, ret, last_error) {
        Ok(name) => Ok(name),
        Err(err) => Err(InstanceFromFmriError::GetName { fmri: fmri.as_str().to_owned(), err }),
    }
}

/// The FMRI of an instance to refresh, as a C string; fails when it holds a
/// NUL.
pub fn refresh_fmri_arg(fmri: &str) -> (res: Result<Utf8CString, InstanceRefreshError>)
    ensures
        res is Ok <==> no_nul_char(fmri@),
        res matches Ok(f) ==> f@ == fmri@,
        res matches Err(e) ==> (e matches InstanceRefreshError::InvalidFmri { fmri: f, err }
            && f@ == fmri@ && is_first_nul(encode_utf8(fmri@), err.nul_position as int)),
{
    match Utf8CString::from_str(fmri) {
        Ok(f) => Ok(f),
        Err(err) => Err(InstanceRefreshError::InvalidFmri { fmri: fmri.to_owned(), err }),
    }
}

/// The outcome of refreshing an instance once `smf_refresh_instance()`
/// returned `ret` (reporting `last_error`).
pub fn refresh_outcome(fmri: &Utf8CString, ret: i32, last_error: u32) -> (res: Result<
    (),
    InstanceRefreshError,
>)
    requires
        ret <= 0,
    ensures
        ret == 0 <==> res is Ok,
        res matches Err(e) ==> (e matches InstanceRefreshError::Failed { fmri: f, err } && f@
            == fmri@ && err == libscf_error_of_code(last_error)),
{
    match LibscfError::from_ret(ret, last_error) {
        Ok(()) => Ok(()),
        Err(err) => Err(InstanceRefreshError::Failed { fmri: fmri.as_str().to_owned(), err }),
    }
}

} // verus!
