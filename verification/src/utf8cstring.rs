//! UTF-8 strings that can be handed to `libscf` as C strings (no interior
//! NUL), and the FMRIs built from them.

use vstd::prelude::*;
use vstd::utf8::*;

use crate::text::push_str;

verus! {

broadcast use vstd::utf8::char_is_scalar;

/// No character of `s` is NUL.
pub open spec fn no_nul_char(s: Seq<char>) -> bool {
    forall|i: int| 0 <= i < s.len() ==> s[i] != '\0'
}

/// No byte of `b` is zero.
pub open spec fn no_nul_byte(b: Seq<u8>) -> bool {
    forall|i: int| 0 <= i < b.len() ==> b[i] != 0u8
}

/// `i` is the index of the first zero byte of `b`.
pub open spec fn is_first_nul(b: Seq<u8>, i: int) -> bool {
    0 <= i < b.len() && b[i] == 0u8 && no_nul_byte(b.subrange(0, i))
}

/// Index of the first zero byte of `bytes`, if there is one.
pub fn first_nul(bytes: &[u8]) -> (res: Option<usize>)
    ensures
        match res {
            Some(i) => is_first_nul(bytes@, i as int),
            None => no_nul_byte(bytes@),
        },
{
    let mut i: usize = 0;
    while i < bytes.len()
        invariant
            i <= bytes@.len(),
            no_nul_byte(bytes@.subrange(0, i as int)),
        decreases bytes@.len() - i,
    {
        if bytes[i] == 0 {
            return Some(i);
        }
        assert forall|j: int| 0 <= j < i + 1 implies #[trigger] bytes@.subrange(0, i + 1)[j]
            != 0u8 by {
            if j < i {
                assert(bytes@.subrange(0, i as int)[j] == bytes@[j]);
            }
        }
        i = i + 1;
    }
    assert(bytes@.subrange(0, bytes@.len() as int) =~= bytes@);
    None
}

/// The UTF-8 encoding of one character holds a zero byte exactly when the
/// character is NUL.
proof fn lemma_encode_scalar_nul(c: char)
    ensures
        no_nul_byte(encode_scalar(c as u32)) <==> c != '\0',
{
    let v = c as u32;
    assert(is_scalar(v));
    if has_width_1_encoding(v) {
        assert((v & 0x7F) as u8 == 0 <==> v == 0) by (bit_vector)
            requires
                v <= 0x7F,
        ;
        if c == '\0' {
            assert(encode_scalar(v)[0] == 0u8);
        }
    } else {
        let x = v;
        assert(x != 0);
        assert(c != '\0');
        assert forall|b: u8| (0x80u8 | b) != 0u8 by {
            assert((0x80u8 | b) != 0u8) by (bit_vector);
        }
        assert(0xC0u8 | ((x >> 6) & 0x1F) as u8 != 0u8) by (bit_vector);
        assert(0xE0u8 | ((x >> 12) & 0x0F) as u8 != 0u8) by (bit_vector);
        assert(0xF0u8 | ((x >> 18) & 0x7) as u8 != 0u8) by (bit_vector);
        assert(0x80u8 | (x & 0x3F) as u8 != 0u8) by (bit_vector);
        assert(0x80u8 | ((x >> 6) & 0x3F) as u8 != 0u8) by (bit_vector);
        assert(0x80u8 | ((x >> 12) & 0x3F) as u8 != 0u8) by (bit_vector);
    }
}

/// The UTF-8 encoding of a text holds a zero byte exactly when the text holds
/// a NUL character.
pub proof fn lemma_encode_utf8_nul(s: Seq<char>)
    ensures
        no_nul_byte(encode_utf8(s)) <==> no_nul_char(s),
    decreases s.len(),
{
    if s.len() > 0 {
        lemma_encode_utf8_nul(s.drop_first());
        lemma_encode_scalar_nul(s[0]);
        let a = encode_scalar(s[0] as u32);
        let b = encode_utf8(s.drop_first());
        assert(encode_utf8(s) == a + b);
        if no_nul_char(s) {
            assert(no_nul_char(s.drop_first()));
            assert forall|i: int| 0 <= i < (a + b).len() implies (a + b)[i] != 0u8 by {
                if i >= a.len() {
                    assert((a + b)[i] == b[i - a.len()]);
                }
            }
        } else {
            let k = choose|k: int| 0 <= k < s.len() && s[k] == '\0';
            if k == 0 {
                let j = choose|j: int| 0 <= j < a.len() && a[j] == 0u8;
                assert((a + b)[j] == 0u8);
            } else {
                assert(s.drop_first()[k - 1] == '\0');
                let j = choose|j: int| 0 <= j < b.len() && b[j] == 0u8;
                assert((a + b)[a.len() + j] == 0u8);
            }
        }
    } else {
        assert(encode_utf8(s) =~= Seq::<u8>::empty());
    }
}

/// Error from a text that holds a NUL byte where a C string is needed; like
/// the standard library's `NulError`, it records the byte offset of the
/// first NUL.
#[derive(Debug, Clone, PartialEq, Eq)]
pub struct NulError {
    pub nul_position: usize,
}

impl NulError {
    /// Byte offset of the first NUL in the text.
    pub fn nul_position(&self) -> (p: usize)
        ensures
            p == self.nul_position,
    {
        self.nul_position
    }
}

/// Error reading a NUL-terminated byte string, as the standard library's
/// `FromBytesWithNulError` reports it.
#[derive(Debug, Clone, PartialEq, Eq)]
pub enum FromBytesWithNulError {
    /// A NUL byte stands before the last byte.
    InteriorNul { position: usize },
    /// The bytes hold no NUL at all.
    NotNulTerminated,
}

#[verifier::external_type_specification]
#[verifier::external_body]
pub struct ExUtf8Error(std::str::Utf8Error);

/// Calls `std::str::from_utf8`, which the standard library documents as
/// giving the text when the bytes are valid UTF-8 and an error otherwise;
/// the text is copied into a `String`.
#[verifier::external_body]
pub(crate) fn string_from_utf8(bytes: &[u8]) -> (res: Result<String, std::str::Utf8Error>)
    ensures
        res is Ok <==> valid_utf8(bytes@),
        res matches Ok(s) ==> s@ == decode_utf8(bytes@),
{
    std::str::from_utf8(bytes).map(|s| s.to_owned())
}

/// A UTF-8 string that holds no NUL character, and so can be handed to
/// `libscf` as a C string.
#[derive(Debug, PartialEq, Eq)]
pub struct Utf8CString {
    s: String,
}

impl View for Utf8CString {
    type V = Seq<char>;

    closed spec fn view(&self) -> Seq<char> {
        self.s@
    }
}

impl Utf8CString {
    #[verifier::type_invariant]
    spec fn no_interior_nul(self) -> bool {
        no_nul_char(self.s@)
    }

    /// A C-string-compatible copy of `s`; fails with the byte offset of the
    /// first NUL in `s` if there is one.
    pub fn from_str(s: &str) -> (res: Result<Self, NulError>)
        ensures
            res is Ok <==> no_nul_char(s@),
            res matches Ok(c) ==> c@ == s@,
            res matches Err(e) ==> is_first_nul(encode_utf8(s@), e.nul_position as int),
    {
        let bytes = s.as_bytes();
        proof {
            lemma_encode_utf8_nul(s@);
        }
        match first_nul(bytes) {
            Some(i) => Err(NulError { nul_position: i }),
            None => Ok(Utf8CString { s: s.to_owned() }),
        }
    }

    /// A C-string-compatible copy of `s`, taking ownership.
    pub fn from_string(s: String) -> (res: Result<Self, NulError>)
        ensures
            res is Ok <==> no_nul_char(s@),
            res matches Ok(c) ==> c@ == s@,
    {
        Self::from_str(s.as_str())
    }

    /// Reads the C string `bytes` (whose last byte is its only NUL) as
    /// UTF-8; fails if the bytes before the NUL are not valid UTF-8.
    pub fn from_c_str(bytes: &[u8]) -> (res: Result<Self, std::str::Utf8Error>)
        requires
            bytes@.len() >= 1,
            bytes@.last() == 0u8,
            no_nul_byte(bytes@.drop_last()),
        ensures
            res is Ok <==> valid_utf8(bytes@.drop_last()),
            res matches Ok(c) ==> encode_utf8(c@) == bytes@.drop_last(),
    {
        let body = bytes.split_at(bytes.len() - 1).0;
        assert(body@ =~= bytes@.drop_last());
        match string_from_utf8(body) {
            Ok(s) => {
                proof {
                    decode_utf8_encode_utf8(body@);
                    lemma_encode_utf8_nul(s@);
                }
                Ok(Utf8CString { s })
            },
            Err(e) => Err(e),
        }
    }

    /// This string as a `&str`.
    pub fn as_str(&self) -> (s: &str)
        ensures
            s@ == self@,
            no_nul_char(s@),
    {
        proof {
            use_type_invariant(self);
        }
        self.s.as_str()
    }

    /// This string as an owned `String`.
    pub fn into_string(self) -> (s: String)
        ensures
            s@ == self@,
    {
        self.s
    }

    /// The string of `prefix` followed by this string; a NUL-free `prefix`
    /// keeps the result NUL-free.
    fn prepend(&self, prefix: &Utf8CString, sep: &str) -> (res: Utf8CString)
        requires
            no_nul_char(sep@),
        ensures
            res@ == prefix@ + sep@ + self@,
    {
        proof {
            use_type_invariant(self);
            use_type_invariant(prefix);
        }
        let mut s = String::new();
        push_str(&mut s, prefix.as_str());
        push_str(&mut s, sep);
        push_str(&mut s, self.as_str());
        assert(s@ =~= prefix@ + sep@ + self@);
        assert forall|i: int| 0 <= i < s@.len() implies s@[i] != '\0' by {
            if i < prefix@.len() {
            } else if i < prefix@.len() + sep@.len() {
                assert(s@[i] == sep@[i - prefix@.len()]);
            } else {
                assert(s@[i] == self@[i - prefix@.len() - sep@.len()]);
            }
        }
        Utf8CString { s }
    }
}

// ---------------------------------------------------------------------------
// FMRIs.

/// Prefix of a service FMRI in the local scope.
pub open spec fn svc_prefix() -> Seq<char> {
    "svc:/"@
}

/// Separator between a service FMRI and an instance name.
pub open spec fn instance_sep() -> Seq<char> {
    ":"@
}

/// Separator between a service or instance FMRI and a property group name.
pub open spec fn pg_sep() -> Seq<char> {
    "/:properties/"@
}

/// Separator between a property group FMRI and a property name.
pub open spec fn prop_sep() -> Seq<char> {
    "/"@
}

proof fn lemma_separators_have_no_nul()
    ensures
        no_nul_char(svc_prefix()),
        no_nul_char(instance_sep()),
        no_nul_char(pg_sep()),
        no_nul_char(prop_sep()),
{
    reveal_strlit("svc:/");
    reveal_strlit(":");
    reveal_strlit("/:properties/");
    reveal_strlit("/");
}

/// FMRI of a service: `svc:/{name}`.
#[derive(Debug, PartialEq, Eq)]
pub struct ServiceFmri(Utf8CString);

/// FMRI of an instance: `svc:/{service}:{instance}`.
#[derive(Debug, PartialEq, Eq)]
pub struct InstanceFmri(Utf8CString);

/// FMRI of a property group:
/// `{service or instance FMRI}/:properties/{name}`.
#[derive(Debug, PartialEq, Eq)]
pub struct PropertyGroupFmri(Utf8CString);

/// FMRI of a property: `{property group FMRI}/{name}`.
#[derive(Debug, PartialEq, Eq)]
pub struct PropertyFmri(Utf8CString);

impl View for ServiceFmri {
    type V = Seq<char>;

    closed spec fn view(&self) -> Seq<char> {
        self.0@
    }
}

impl View for InstanceFmri {
    type V = Seq<char>;

    closed spec fn view(&self) -> Seq<char> {
        self.0@
    }
}

impl View for PropertyGroupFmri {
    type V = Seq<char>;

    closed spec fn view(&self) -> Seq<char> {
        self.0@
    }
}

impl View for PropertyFmri {
    type V = Seq<char>;

    closed spec fn view(&self) -> Seq<char> {
        self.0@
    }
}

/// A NUL-free literal as a C-string-compatible string.
fn literal(s: &str) -> (res: Utf8CString)
    requires
        no_nul_char(s@),
    ensures
        res@ == s@,
{
    Utf8CString { s: s.to_owned() }
}

impl ServiceFmri {
    /// The FMRI of the service named `name`.
    pub fn new(name: &Utf8CString) -> (f: ServiceFmri)
        ensures
            f@ == svc_prefix() + name@,
    {
        proof {
            lemma_separators_have_no_nul();
            reveal_strlit("");
        }
        let empty = literal("");
        let f = name.prepend(&empty, "svc:/");
        assert(f@ =~= svc_prefix() + name@);
        ServiceFmri(f)
    }

    /// The FMRI of this service's instance named `name`.
    pub fn append_instance(&self, name: &Utf8CString) -> (f: InstanceFmri)
        ensures
            f@ == self@ + instance_sep() + name@,
    {
        proof {
            lemma_separators_have_no_nul();
        }
        InstanceFmri(name.prepend(&self.0, ":"))
    }

    /// The FMRI of this service's property group named `name`.
    pub fn append_pg(&self, name: &Utf8CString) -> (f: PropertyGroupFmri)
        ensures
            f@ == self@ + pg_sep() + name@,
    {
        proof {
            lemma_separators_have_no_nul();
        }
        PropertyGroupFmri(name.prepend(&self.0, "/:properties/"))
    }

    /// This FMRI as text.
    pub fn as_str(&self) -> (s: &str)
        ensures
            s@ == self@,
    {
        self.0.as_str()
    }

    /// This FMRI as a C-string-compatible string.
    pub fn as_utf8_cstring(&self) -> (s: &Utf8CString)
        ensures
            s@ == self@,
    {
        &self.0
    }
}

impl InstanceFmri {
    /// An instance FMRI from text that `libscf` has already accepted as one.
    pub fn new_unvalidated(fmri: Utf8CString) -> (f: InstanceFmri)
        ensures
            f@ == fmri@,
    {
        InstanceFmri(fmri)
    }

    /// The FMRI of this instance's property group named `name`.
    pub fn append_pg(&self, name: &Utf8CString) -> (f: PropertyGroupFmri)
        ensures
            f@ == self@ + pg_sep() + name@,
    {
        proof {
            lemma_separators_have_no_nul();
        }
        PropertyGroupFmri(name.prepend(&self.0, "/:properties/"))
    }

    /// This FMRI as text.
    pub fn as_str(&self) -> (s: &str)
        ensures
            s@ == self@,
    {
        self.0.as_str()
    }

    /// This FMRI as a C-string-compatible string.
    pub fn as_utf8_cstring(&self) -> (s: &Utf8CString)
        ensures
            s@ == self@,
    {
        &self.0
    }
}

impl PropertyGroupFmri {
    /// The FMRI of this property group's property named `name`.
    pub fn append_property(&self, name: &Utf8CString) -> (f: PropertyFmri)
        ensures
            f@ == self@ + prop_sep() + name@,
    {
        proof {
            lemma_separators_have_no_nul();
        }
        PropertyFmri(name.prepend(&self.0, "/"))
    }

    /// This FMRI as text.
    pub fn as_str(&self) -> (s: &str)
        ensures
            s@ == self@,
    {
        self.0.as_str()
    }

    /// This FMRI as a C-string-compatible string.
    pub fn as_utf8_cstring(&self) -> (s: &Utf8CString)
        ensures
            s@ == self@,
    {
        &self.0
    }
}

impl PropertyFmri {
    /// This FMRI as text.
    pub fn as_str(&self) -> (s: &str)
        ensures
            s@ == self@,
    {
        self.0.as_str()
    }

    /// This FMRI as a C-string-compatible string.
    pub fn as_utf8_cstring(&self) -> (s: &Utf8CString)
        ensures
            s@ == self@,
    {
        &self.0
    }
}

} // verus!
