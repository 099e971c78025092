//! Iterating the children of an entity (instances, snapshots, property
//! groups, properties, values) through `libscf` iterators.

use vstd::prelude::*;

use crate::buf::scf_get_string;
use crate::buf::scf_string_error;
use crate::buf::scf_string_text;
use crate::error::libscf_error_of_code;
use crate::error::IterError;
use crate::error::IterErrorKind;
use crate::error::LibscfError;
use crate::error::ScfEntity;
use crate::error::ScfEntityDescription;
use crate::utf8cstring::Utf8CString;

verus! {

/// One step of a `libscf` iterator once `scf_iter_next_*()` returned `ret`
/// (`0`: no items left, `1`: got the next item, anything else: an error,
/// with `last_error` reported).
pub fn iter_step(ret: i32, last_error: u32) -> (res: Option<Result<(), LibscfError>>)
    ensures
        ret == 0 ==> res is None,
        ret == 1 ==> res == Some(Ok::<(), LibscfError>(())),
        ret != 0 && ret != 1 ==> res == Some(Err::<(), LibscfError>(libscf_error_of_code(last_error))),
{
    if ret == 0 {
        None
    } else if ret == 1 {
        Some(Ok(()))
    } else {
        Some(Err(LibscfError::from_code(last_error)))
    }
}

/// The outcome of initializing an iterator over the `entity` children of
/// `parent` once the `libscf` call returned `ret` (reporting `last_error`).
pub fn iter_init_outcome(
    entity: ScfEntity,
    parent: &ScfEntityDescription,
    ret: i32,
    last_error: u32,
) -> (res: Result<(), IterError>)
    requires
        ret <= 0,
    ensures
        ret == 0 ==> res is Ok,
        ret != 0 ==> res == Err::<(), IterError>(
            IterError::Iter {
                entity,
                parent: *parent,
                kind: IterErrorKind::Init(libscf_error_of_code(last_error)),
            },
        ),
{
    match LibscfError::from_ret(ret, last_error) {
        Ok(()) => Ok(()),
        Err(err) => Err(
            IterError::Iter { entity, parent: parent.copy(), kind: IterErrorKind::Init(err) },
        ),
    }
}

/// One step of iterating the `entity` children of `parent`: `None` at the
/// end, else whether the next item was obtained.
pub fn iter_next_outcome(
    entity: ScfEntity,
    parent: &ScfEntityDescription,
    ret: i32,
    last_error: u32,
) -> (res: Option<Result<(), IterError>>)
    ensures
        ret == 0 ==> res is None,
        ret == 1 ==> res == Some(Ok::<(), IterError>(())),
        ret != 0 && ret != 1 ==> res == Some(
            Err::<(), IterError>(
                IterError::Iter {
                    entity,
                    parent: *parent,
                    kind: IterErrorKind::GetNext(libscf_error_of_code(last_error)),
                },
            ),
        ),
{
    match iter_step(ret, last_error) {
        None => None,
        Some(Ok(())) => Some(Ok(())),
        Some(Err(err)) => Some(
            Err(IterError::Iter { entity, parent: parent.copy(), kind: IterErrorKind::GetNext(err) }),
        ),
    }
}

/// The name of the item an iterator step obtained, once the `libscf` name
/// getter wrote it into `buf` and returned `ret` (reporting `last_error`).
pub fn iter_item_name(
    entity: ScfEntity,
    parent: &ScfEntityDescription,
    buf: &[u8],
    ret: isize,
    last_error: u32,
) -> (res: Result<Utf8CString, IterError>)
    ensures
        res is Ok <==> scf_string_text(buf@, ret as int) is Some,
        res matches Ok(n) ==> Some(n@) == scf_string_text(buf@, ret as int),
        res matches Err(e) ==> (e matches IterError::Iter {
            entity: en,
            parent: p,
            kind: IterErrorKind::GetName(se),
        } && en == entity && p == *parent && scf_string_error(
            ScfEntity::Name,
            buf@,
            ret as int,
            last_error,
            se,
        )),
{
    match scf_get_string(ScfEntity::Name, buf, ret, last_error) {
        Ok(name) => Ok(name),
        Err(err) => Err(
            IterError::Iter { entity, parent: parent.copy(), kind: IterErrorKind::GetName(err) },
        ),
    }
}

} // verus!
