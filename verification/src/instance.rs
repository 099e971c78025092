//! The operations that change an instance's SMF state (enable, disable,
//! degrade, maintain, restart, restore): their flags, the optional comment,
//! and the outcome of each call; and reading an instance's current state.

use vstd::prelude::*;

use crate::error::libscf_error_of_code;
use crate::error::LibscfError;
use crate::utf8cstring::is_first_nul;
use crate::utf8cstring::no_nul_char;
use crate::utf8cstring::string_from_utf8;
use crate::utf8cstring::NulError;
use crate::utf8cstring::Utf8CString;
use vstd::utf8::decode_utf8;
use vstd::utf8::encode_utf8;
use vstd::utf8::valid_utf8;

verus! {

/// Reads `libscf_sys::SMF_IMMEDIATE`, which `libscf_sys` defines as `0x1`.
#[verifier::external_body]
fn smf_immediate() -> (f: i32)
    ensures
        f == 1,
{
    libscf_sys::SMF_IMMEDIATE
}

/// Reads `libscf_sys::SMF_TEMPORARY`, which `libscf_sys` defines as `0x2`.
#[verifier::external_body]
fn smf_temporary() -> (f: i32)
    ensures
        f == 2,
{
    libscf_sys::SMF_TEMPORARY
}

/// Reads `libscf_sys::SMF_AT_NEXT_BOOT`, which `libscf_sys` defines as `0x4`.
#[verifier::external_body]
fn smf_at_next_boot() -> (f: i32)
    ensures
        f == 4,
{
    libscf_sys::SMF_AT_NEXT_BOOT
}

/// Optional flags for enabling or disabling SMF instances; they are
/// mutually exclusive.
#[derive(Debug, Clone, Copy, PartialEq, Eq, PartialOrd, Ord, Structural)]
#[non_exhaustive]
pub enum SmfEnableDisableFlags {
    Temporary,
    AtNextBoot,
}

impl SmfEnableDisableFlags {
    /// The `libscf` flag value.
    pub fn bits(self) -> (b: i32)
        ensures
            b == (match self {
                SmfEnableDisableFlags::Temporary => 2i32,
                SmfEnableDisableFlags::AtNextBoot => 4i32,
            }),
    {
        match self {
            SmfEnableDisableFlags::Temporary => smf_temporary(),
            SmfEnableDisableFlags::AtNextBoot => smf_at_next_boot(),
        }
    }
}

/// Optional flags for putting an SMF instance into the degraded state.
#[derive(Debug, Clone, Copy, PartialEq, Eq, PartialOrd, Ord, Structural)]
#[non_exhaustive]
pub enum SmfDegradeFlags {
    Immediate,
}

impl SmfDegradeFlags {
    /// The `libscf` flag value.
    pub fn bits(self) -> (b: i32)
        ensures
            b == 1,
    {
        match self {
            SmfDegradeFlags::Immediate => smf_immediate(),
        }
    }
}

/// The flag value handed to `libscf` for optional flags: `0` when absent.
pub fn enable_disable_flag_bits(flags: Option<SmfEnableDisableFlags>) -> (b: i32)
    ensures
        b == (match flags {
            None => 0i32,
            Some(SmfEnableDisableFlags::Temporary) => 2i32,
            Some(SmfEnableDisableFlags::AtNextBoot) => 4i32,
        }),
{
    match flags {
        None => 0,
        Some(f) => f.bits(),
    }
}

/// Flags for putting an SMF instance into maintenance; unlike the other
/// flags they may be combined.
#[derive(Debug, Clone, Copy, PartialEq, Eq, PartialOrd, Ord, Structural)]
pub struct SmfMaintainFlags {
    immediate: bool,
    temporary: bool,
}

impl SmfMaintainFlags {
    /// Whether `Immediate` is set.
    pub closed spec fn spec_immediate(self) -> bool {
        self.immediate
    }

    /// Whether `Temporary` is set.
    pub closed spec fn spec_temporary(self) -> bool {
        self.temporary
    }

    /// The `libscf` flag value of these flags.
    pub open spec fn spec_bits(self) -> int {
        (if self.spec_immediate() { 1int } else { 0int }) + (if self.spec_temporary() {
            2int
        } else {
            0int
        })
    }

    /// No flags.
    pub fn empty() -> (f: Self)
        ensures
            !f.spec_immediate() && !f.spec_temporary(),
    {
        SmfMaintainFlags { immediate: false, temporary: false }
    }

    /// The `Immediate` flag alone.
    pub fn immediate() -> (f: Self)
        ensures
            f.spec_immediate() && !f.spec_temporary(),
    {
        SmfMaintainFlags { immediate: true, temporary: false }
    }

    /// The `Temporary` flag alone.
    pub fn temporary() -> (f: Self)
        ensures
            !f.spec_immediate() && f.spec_temporary(),
    {
        SmfMaintainFlags { immediate: false, temporary: true }
    }

    /// The flags set in either `self` or `other`.
    pub fn union(self, other: Self) -> (f: Self)
        ensures
            f.spec_immediate() == (self.spec_immediate() || other.spec_immediate()),
            f.spec_temporary() == (self.spec_temporary() || other.spec_temporary()),
    {
        SmfMaintainFlags {
            immediate: self.immediate || other.immediate,
            temporary: self.temporary || other.temporary,
        }
    }

    /// Whether every flag of `other` is set in `self`.
    pub fn contains(self, other: Self) -> (b: bool)
        ensures
            b == ((other.spec_immediate() ==> self.spec_immediate()) && (other.spec_temporary()
                ==> self.spec_temporary())),
    {
        (!other.immediate || self.immediate) && (!other.temporary || self.temporary)
    }

    /// The flags whose `libscf` value is `bits`, if `bits` holds no other
    /// bit.
    pub fn from_bits(bits: i32) -> (f: Option<Self>)
        ensures
            f is Some <==> 0 <= bits <= 3,
            f matches Some(g) ==> g.spec_bits() == bits,
    {
        if bits < 0 || bits > 3 {
            None
        } else {
            Some(SmfMaintainFlags { immediate: bits == 1 || bits == 3, temporary: bits >= 2 })
        }
    }

    /// The `libscf` flag value.
    pub fn bits(self) -> (b: i32)
        ensures
            b == self.spec_bits(),
    {
        let i: i32 = if self.immediate {
            smf_immediate()
        } else {
            0
        };
        let t: i32 = if self.temporary {
            smf_temporary()
        } else {
            0
        };
        i + t
    }
}

/// The flag value handed to `libscf` for optional maintenance flags: `0`
/// when absent.
pub fn maintain_flag_bits(flags: Option<SmfMaintainFlags>) -> (b: i32)
    ensures
        b == (match flags {
            None => 0int,
            Some(f) => f.spec_bits(),
        }),
{
    match flags {
        None => 0,
        Some(f) => f.bits(),
    }
}

/// The flag value handed to `libscf` for optional degrade flags: `0` when
/// absent.
pub fn degrade_flag_bits(flags: Option<SmfDegradeFlags>) -> (b: i32)
    ensures
        b == (if flags is None { 0i32 } else { 1i32 }),
{
    match flags {
        None => 0,
        Some(f) => f.bits(),
    }
}

/// Longest comment, counting its terminating NUL, that `libscf` records
/// with an enable or disable.
pub const SCF_COMMENT_MAX_LENGTH: usize = 1024;

/// An operation on an instance's SMF state.
#[derive(Debug, Clone, Copy, PartialEq, Eq, Structural)]
pub enum InstanceOp {
    Degrade,
    Disable,
    Enable,
    Maintain,
    Restart,
    Restore,
}

/// Error performing an operation on an instance's SMF state.
#[derive(Debug, Clone, PartialEq, Eq)]
pub enum InstanceOpError {
    /// The comment holds a NUL.
    InvalidComment { comment: String, err: NulError },
    /// The comment, with its NUL, is longer than `libscf` accepts.
    CommentTooLong { c_str_len: usize, max_len: usize, comment: String },
    /// The `libscf` call failed.
    Failed { op: InstanceOp, fmri: String, err: LibscfError },
}

/// The comment to hand to `libscf` with an enable or disable, as a C string:
/// none when there is none; an error when it holds a NUL or, with its NUL,
/// is longer than `SCF_COMMENT_MAX_LENGTH` bytes.
pub fn comment_arg(comment: Option<&str>) -> (res: Result<Option<Utf8CString>, InstanceOpError>)
    requires
        comment matches Some(c) ==> encode_utf8(c@).len() < usize::MAX,
    ensures
        comment is None ==> res == Ok::<Option<Utf8CString>, InstanceOpError>(None),
        comment matches Some(c) ==> {
            &&& !no_nul_char(c@) ==> (res matches Err(InstanceOpError::InvalidComment {
                comment: cm,
                err,
            }) && cm@ == c@ && is_first_nul(encode_utf8(c@), err.nul_position as int))
            &&& no_nul_char(c@) && encode_utf8(c@).len() + 1 > SCF_COMMENT_MAX_LENGTH ==> (
            res matches Err(InstanceOpError::CommentTooLong { c_str_len, max_len, comment: cm })
                && c_str_len == encode_utf8(c@).len() + 1 && max_len == SCF_COMMENT_MAX_LENGTH
                && cm@ == c@)
            &&& no_nul_char(c@) && encode_utf8(c@).len() + 1 <= SCF_COMMENT_MAX_LENGTH ==> (
            res matches Ok(Some(u)) && u@ == c@)
        },
{
    match comment {
        None => Ok(None),
        Some(c) => match Utf8CString::from_str(c) {
            Err(err) => Err(InstanceOpError::InvalidComment { comment: c.to_owned(), err }),
            Ok(u) => {
                let c_str_len = c.len() + 1;
                if c_str_len > SCF_COMMENT_MAX_LENGTH {
                    Err(
                        InstanceOpError::CommentTooLong {
                            c_str_len,
                            max_len: SCF_COMMENT_MAX_LENGTH,
                            comment: u.into_string(),
                        },
                    )
                } else {
                    Ok(Some(u))
                }
            },
        },
    }
}

/// The outcome of operation `op` on the instance with FMRI `fmri` once the
/// `libscf` call returned `ret` (reporting `last_error`).
pub fn op_outcome(op: InstanceOp, fmri: &str, ret: i32, last_error: u32) -> (res: Result<
    (),
    InstanceOpError,
>)
    requires
        ret <= 0,
    ensures
        ret == 0 <==> res is Ok,
        res matches Err(e) ==> (e matches InstanceOpError::Failed { op: o, fmri: f, err } && o == op
            && f@ == fmri@ && err == libscf_error_of_code(last_error)),
{
    match LibscfError::from_ret(ret, last_error) {
        Ok(()) => Ok(()),
        Err(err) => Err(InstanceOpError::Failed { op, fmri: fmri.to_owned(), err }),
    }
}

/// Error reading an instance's current SMF state.
#[derive(Debug, PartialEq, Eq)]
pub enum InstanceSmfStateError {
    /// `libscf` gave no state.
    GetState { fmri: String, err: LibscfError },
    /// The state `libscf` gave is not UTF-8; `state` holds its bytes.
    NonUtf8State { fmri: String, state: Vec<u8>, err: std::str::Utf8Error },
}

/// The state of the instance with FMRI `fmri` once
/// `smf_get_state_by_instance()` gave the bytes of its C string (`None` for a
/// null pointer, reporting `last_error`).
pub fn smf_state_outcome(fmri: &str, state: Option<&[u8]>, last_error: u32) -> (res: Result<
    String,
    InstanceSmfStateError,
>)
    ensures
        state is None ==> (res matches Err(InstanceSmfStateError::GetState { fmri: f, err }) && f@
            == fmri@ && err == libscf_error_of_code(last_error)),
        state matches Some(b) ==> {
            &&& res is Ok <==> valid_utf8(b@)
            &&& res matches Ok(s) ==> s@ == decode_utf8(b@)
            &&& res matches Err(e) ==> (e matches InstanceSmfStateError::NonUtf8State {
                fmri: f,
                state: st,
                ..
            } && f@ == fmri@ && st@ == b@)
        },
{
    match state {
        None => Err(
            InstanceSmfStateError::GetState {
                fmri: fmri.to_owned(),
                err: LibscfError::from_code(last_error),
            },
        ),
        Some(b) => match string_from_utf8(b) {
            Ok(s) => Ok(s),
            Err(err) => Err(
                InstanceSmfStateError::NonUtf8State {
                    fmri: fmri.to_owned(),
                    state: vstd::slice::slice_to_vec(b),
                    err,
                },
            ),
        },
    }
}

} // verus!
