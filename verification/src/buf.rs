//! Buffers that `libscf` writes strings into, and reading those strings back.

use vstd::prelude::*;
use vstd::utf8::*;

use crate::error::libscf_error_of_code;
use crate::error::LibscfError;
use crate::error::ScfEntity;
use crate::error::ScfStringError;
use crate::utf8cstring::first_nul;
use crate::utf8cstring::is_first_nul;
use crate::utf8cstring::no_nul_byte;
use crate::utf8cstring::FromBytesWithNulError;
use crate::utf8cstring::Utf8CString;

verus! {

/// Outcome of reading `bytes` as one NUL-terminated string, as the standard
/// library's `CStr::from_bytes_with_nul` decides it: the first NUL must be
/// the last byte.
pub open spec fn c_str_check(bytes: Seq<u8>) -> Result<(), FromBytesWithNulError> {
    if is_first_nul(bytes, bytes.len() - 1) {
        Ok(())
    } else if no_nul_byte(bytes) {
        Err(FromBytesWithNulError::NotNulTerminated)
    } else {
        Err(FromBytesWithNulError::InteriorNul {
            position: (choose|i: int| is_first_nul(bytes, i)) as usize,
        })
    }
}

/// There is at most one first NUL.
proof fn lemma_first_nul_unique(b: Seq<u8>, i: int, j: int)
    requires
        is_first_nul(b, i),
        is_first_nul(b, j),
    ensures
        i == j,
{
    if i < j {
        assert(b.subrange(0, j)[i] == 0u8);
    }
    if j < i {
        assert(b.subrange(0, i)[j] == 0u8);
    }
}

/// Checks that `bytes` is one NUL-terminated string.
pub fn check_c_str(bytes: &[u8]) -> (res: Result<(), FromBytesWithNulError>)
    ensures
        res == c_str_check(bytes@),
{
    match first_nul(bytes) {
        Some(i) => {
            if i == bytes.len() - 1 {
                Ok(())
            } else {
                proof {
                    if is_first_nul(bytes@, bytes@.len() - 1) {
                        lemma_first_nul_unique(bytes@, i as int, bytes@.len() - 1);
                    }
                    let k = choose|k: int| is_first_nul(bytes@, k);
                    lemma_first_nul_unique(bytes@, i as int, k);
                }
                Err(FromBytesWithNulError::InteriorNul { position: i })
            }
        },
        None => {
            proof {
                if bytes@.len() > 0 {
                    assert(!is_first_nul(bytes@, bytes@.len() - 1));
                }
            }
            Err(FromBytesWithNulError::NotNulTerminated)
        },
    }
}

/// The text `libscf` wrote into `buf` when it reported the length `ret`:
/// present when `ret` is a length whose NUL terminator fits in `buf`, the
/// bytes up to it hold no other NUL, and they are valid UTF-8.
pub open spec fn scf_string_text(buf: Seq<u8>, ret: int) -> Option<Seq<char>> {
    if 0 <= ret && ret + 1 <= buf.len() && c_str_check(buf.subrange(0, ret + 1)) is Ok
        && valid_utf8(buf.subrange(0, ret)) {
        Some(decode_utf8(buf.subrange(0, ret)))
    } else {
        None
    }
}

/// `err` is the error for reading a string of `entity` from `buf` when
/// `libscf` returned `ret` and reported `last_error`.
pub open spec fn scf_string_error(
    entity: ScfEntity,
    buf: Seq<u8>,
    ret: int,
    last_error: u32,
    err: ScfStringError,
) -> bool {
    if ret < 0 {
        err == ScfStringError::Get { entity, err: libscf_error_of_code(last_error) }
    } else if ret + 1 > buf.len() {
        err == ScfStringError::OutOfBounds {
            entity,
            scf_len: ret as usize,
            max_len: buf.len() as usize,
        }
    } else if c_str_check(buf.subrange(0, ret + 1)) is Err {
        err == ScfStringError::InvalidCString(c_str_check(buf.subrange(0, ret + 1))->Err_0)
    } else {
        err is NonUtf8String
    }
}

/// Reads the string that a `libscf` call wrote into `buf`, given the length
/// the call returned (`libscf` returns the length of its internal string,
/// not counting the NUL, or a negative value on failure) and the error code
/// it reported.
pub fn scf_get_string(entity: ScfEntity, buf: &[u8], ret: isize, last_error: u32) -> (res: Result<
    Utf8CString,
    ScfStringError,
>)
    ensures
        res is Ok <==> scf_string_text(buf@, ret as int) is Some,
        res matches Ok(s) ==> Some(s@) == scf_string_text(buf@, ret as int),
        res matches Err(e) ==> scf_string_error(entity, buf@, ret as int, last_error, e),
{
    let scf_len = match LibscfError::from_ssize(ret, last_error) {
        Ok(n) => n,
        Err(err) => {
            return Err(ScfStringError::Get { entity, err });
        },
    };
    if scf_len >= buf.len() {
        return Err(ScfStringError::OutOfBounds { entity, scf_len, max_len: buf.len() });
    }
    let with_nul = buf.split_at(scf_len + 1).0;
    assert(with_nul@ =~= buf@.subrange(0, scf_len + 1));
    match check_c_str(with_nul) {
        Ok(()) => {},
        Err(e) => {
            return Err(ScfStringError::InvalidCString(e));
        },
    }
    assert(with_nul@.drop_last() =~= buf@.subrange(0, scf_len as int));
    assert(with_nul@.subrange(0, with_nul@.len() - 1) =~= with_nul@.drop_last());
    match Utf8CString::from_c_str(with_nul) {
        Ok(s) => {
            proof {
                encode_utf8_decode_utf8(s@);
            }
            Ok(s)
        },
        Err(e) => Err(ScfStringError::NonUtf8String(e)),
    }
}

/// A buffer of `max_len` zero bytes.
pub open spec fn zeroed(max_len: nat) -> Seq<u8> {
    Seq::new(max_len, |_i: int| 0u8)
}

/// Runs `f` on a buffer of `max_len` zero bytes and gives back its result.
pub fn with_buf<F, T>(f: F, max_len: usize) -> (res: T) where F: FnOnce(Vec<u8>) -> T
    requires
        forall|b: Vec<u8>| b@ == zeroed(max_len as nat) ==> f.requires((b,)),
    ensures
        exists|b: Vec<u8>| b@ == zeroed(max_len as nat) && f.ensures((b,), res),
{
    let mut buf: Vec<u8> = Vec::new();
    let mut i: usize = 0;
    while i < max_len
        invariant
            i <= max_len,
            buf@ == zeroed(i as nat),
        decreases max_len - i,
    {
        buf.push(0u8);
        i = i + 1;
        assert(buf@ =~= zeroed(i as nat));
    }
    let ghost b = buf;
    let res = f(buf);
    assert(b@ == zeroed(max_len as nat) && f.ensures((b,), res));
    res
}

/// Runs `f` on a buffer sized for a value string: the value-length limit
/// that `libscf` reports, plus one byte for the NUL.
pub fn with_scf_value_buf<F, T>(f: F, max_value_length: usize) -> (res: T) where
    F: FnOnce(Vec<u8>) -> T,

    requires
        max_value_length < usize::MAX,
        forall|b: Vec<u8>| b@ == zeroed(max_value_length as nat + 1) ==> f.requires((b,)),
    ensures
        exists|b: Vec<u8>| b@ == zeroed(max_value_length as nat + 1) && f.ensures((b,), res),
{
    with_buf(f, max_value_length + 1)
}

/// Runs `f` on a buffer sized for a name: the name-length limit that `libscf`
/// reports, plus one byte for the NUL.
pub fn with_scf_name_buf<F, T>(f: F, max_name_length: usize) -> (res: T) where
    F: FnOnce(Vec<u8>) -> T,

    requires
        max_name_length < usize::MAX,
        forall|b: Vec<u8>| b@ == zeroed(max_name_length as nat + 1) ==> f.requires((b,)),
    ensures
        exists|b: Vec<u8>| b@ == zeroed(max_name_length as nat + 1) && f.ensures((b,), res),
{
    with_buf(f, max_name_length + 1)
}

/// Runs `f` on a buffer sized for an FMRI: the FMRI-length limit that
/// `libscf` reports, plus one byte for the NUL.
pub fn with_scf_fmri_buf<F, T>(f: F, max_fmri_length: usize) -> (res: T) where
    F: FnOnce(Vec<u8>) -> T,

    requires
        max_fmri_length < usize::MAX,
        forall|b: Vec<u8>| b@ == zeroed(max_fmri_length as nat + 1) ==> f.requires((b,)),
    ensures
        exists|b: Vec<u8>| b@ == zeroed(max_fmri_length as nat + 1) && f.ensures((b,), res),
{
    with_buf(f, max_fmri_length + 1)
}

/// The limit that `scf_limit()` returned; `scf_limit()` only fails on an
/// unknown limit identifier, so a successful return is positive.
pub fn scf_limit_from_ret(ret: isize) -> (n: usize)
    requires
        ret > 0,
    ensures
        n == ret,
{
    ret as usize
}

} // verus!
