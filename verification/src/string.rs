//! Defines custom string types used by this library.
//!
//! Strings on the wire are C strings: bytes without a nul byte, followed by one. All three types
//! of this module keep the bytes together with that terminator.

use vstd::prelude::*;
use vstd::slice::slice_subrange;
use vstd::slice::slice_to_vec;
use vstd::string::StringSliceAdditionalSpecFns;
use vstd::utf8::encode_utf8;
use vstd::utf8::valid_utf8;

verus! {

/// Whether no byte of `s` is nul.
pub open spec fn no_nul(s: Seq<u8>) -> bool {
    forall|i: int| 0 <= i < s.len() ==> s[i] != 0
}

/// Whether `s` is a C string with its terminator: it ends in a nul byte and holds no other.
pub open spec fn is_c_string(s: Seq<u8>) -> bool {
    s.len() > 0 && s.last() == 0 && no_nul(s.drop_last())
}

/// Whether every byte of `s` is an ASCII character.
pub open spec fn is_ascii_bytes(s: Seq<u8>) -> bool {
    forall|i: int| 0 <= i < s.len() ==> s[i] < 0x80
}

/// Why bytes could not be taken as a string.
#[derive(Clone, Copy, Debug, PartialEq, Eq, Structural)]
pub enum StringError {
    /// A nul byte stands before the end. Holds the position of the first one.
    InteriorNul(usize),
    /// The bytes do not end in a nul byte.
    NotNulTerminated,
    /// The bytes are not valid UTF-8.
    InvalidUtf8,
}

/// Finds the first occurrence of `needle` in `bytes`, starting at `from`.
pub fn find_byte(bytes: &[u8], from: usize, needle: u8) -> (pos: Option<usize>)
    requires
        from <= bytes@.len(),
    ensures
        match pos {
            Some(p) => from <= p < bytes@.len() && bytes@[p as int] == needle && forall|i: int|
                from <= i < p ==> bytes@[i] != needle,
            None => forall|i: int| from <= i < bytes@.len() ==> bytes@[i] != needle,
        },
{
    let mut i = from;
    while i < bytes.len()
        invariant
            from <= i <= bytes@.len(),
            forall|j: int| from <= j < i ==> bytes@[j] != needle,
        decreases bytes@.len() - i,
    {
        if bytes[i] == needle {
            return Some(i);
        }
        i = i + 1;
    }
    None
}

/// Tells whether every byte is an ASCII character.
pub fn all_ascii(bytes: &[u8]) -> (r: bool)
    ensures
        r == is_ascii_bytes(bytes@),
{
    let mut i: usize = 0;
    while i < bytes.len()
        invariant
            0 <= i <= bytes@.len(),
            forall|j: int| 0 <= j < i ==> bytes@[j] < 0x80,
        decreases bytes@.len() - i,
    {
        if bytes[i] >= 0x80 {
            return false;
        }
        i = i + 1;
    }
    true
}

/// ASCII bytes are valid UTF-8.
pub proof fn lemma_ascii_is_utf8(s: Seq<u8>)
    requires
        is_ascii_bytes(s),
    ensures
        valid_utf8(s),
    decreases s.len(),
{
    if s.len() > 0 {
        let b = s[0];
        assert(b & 0x80 == 0) by (bit_vector)
            requires
                b < 0x80,
        ;
        assert((b & 0x7F) as u32 == b as u32) by (bit_vector)
            requires
                b < 0x80,
        ;
        assert(vstd::utf8::pop_first_scalar(s) =~= s.skip(1));
        lemma_ascii_is_utf8(s.skip(1));
    }
}

/// Whether the characters are ASCII characters other than nul.
pub open spec fn is_plain_text(chars: Seq<char>) -> bool {
    forall|i: int| 0 <= i < chars.len() ==> '\0' < #[trigger] chars[i] <= '\u{7f}'
}

/// The bytes of a text of ASCII characters other than nul are the characters themselves.
pub proof fn lemma_plain_text_bytes(text: &str)
    requires
        is_plain_text(text@),
    ensures
        text.spec_bytes().len() == text@.len(),
        is_ascii_bytes(text.spec_bytes()),
        no_nul(text.spec_bytes()),
        forall|i: int| 0 <= i < text@.len() ==> text.spec_bytes()[i] == text@[i] as u8,
{
    assert(vstd::string::is_ascii(text));
    vstd::utf8::is_ascii_chars_encode_utf8(text@);
    let bytes = text.spec_bytes();
    assert forall|i: int| 0 <= i < bytes.len() implies bytes[i] < 0x80 && bytes[i] != 0 by {
        let c = text@[i];
        assert('\0' < c <= '\u{7f}');
        assert(bytes[i] == c as u8);
    }
}

/// `core::str::from_utf8`: the string slice over `bytes` where they are valid UTF-8, nothing
/// where they are not.
#[verifier::external_body]
pub(crate) fn str_from_utf8(bytes: &[u8]) -> (r: Option<&str>)
    ensures
        r is Some <==> valid_utf8(bytes@),
        r matches Some(s) ==> s.spec_bytes() == bytes@,
{
    core::str::from_utf8(bytes).ok()
}

/// A borrowed C string that need not be valid UTF-8.
#[derive(Clone, Copy, Debug)]
pub struct PaStr<'a> {
    bytes: &'a [u8],
}

impl<'a> PaStr<'a> {
    #[verifier::type_invariant]
    spec fn well_formed(&self) -> bool {
        is_c_string(self.bytes@)
    }

    /// The bytes of the string, without the nul terminator.
    pub closed spec fn view(&self) -> Seq<u8> {
        self.bytes@.drop_last()
    }

    /// Creates a `PaStr` from a raw byte slice that must end with a nul byte and contain no other
    /// nul bytes.
    pub fn from_bytes_with_nul(bytes: &'a [u8]) -> (r: Result<PaStr<'a>, StringError>)
        ensures
            r is Ok <==> is_c_string(bytes@),
            match r {
                Ok(s) => s@ == bytes@.drop_last(),
                Err(StringError::InteriorNul(p)) => p + 1 < bytes@.len() && bytes@[p as int] == 0
                    && no_nul(bytes@.take(p as int)),
                Err(StringError::NotNulTerminated) => no_nul(bytes@),
                Err(StringError::InvalidUtf8) => false,
            },
    {
        match find_byte(bytes, 0, 0) {
            None => Err(StringError::NotNulTerminated),
            Some(p) => {
                if p == bytes.len() - 1 {
                    Ok(PaStr { bytes })
                } else {
                    proof {
                        assert(bytes@.drop_last()[p as int] == 0);
                    }
                    Err(StringError::InteriorNul(p))
                }
            },
        }
    }

    /// The empty string.
    pub fn empty() -> (r: PaStr<'static>)
        ensures
            r@ == Seq::<u8>::empty(),
    {
        let nul: &'static [u8; 1] = &[0u8];
        let bytes = nul.as_slice();
        assert(bytes@.drop_last() =~= Seq::<u8>::empty());
        PaStr { bytes }
    }

    /// Returns the underlying byte slice without the nul terminator.
    pub fn to_bytes(&self) -> (r: &'a [u8])
        ensures
            r@ == self@,
            no_nul(r@),
    {
        proof {
            use_type_invariant(self);
        }
        slice_subrange(self.bytes, 0, self.bytes.len() - 1)
    }

    /// Returns the underlying byte slice including the nul terminator.
    pub fn to_bytes_with_nul(&self) -> (r: &'a [u8])
        ensures
            r@ == self@.push(0),
            is_c_string(r@),
    {
        proof {
            use_type_invariant(self);
            assert(self.bytes@ =~= self.bytes@.drop_last().push(0));
        }
        self.bytes
    }

    /// Tries to convert this `PaStr` to a Rust `&str` slice. Gives nothing where the bytes are
    /// not valid UTF-8.
    pub fn to_str(&self) -> (r: Option<&'a str>)
        ensures
            r is Some <==> valid_utf8(self@),
            r matches Some(s) ==> s.spec_bytes() == self@,
    {
        str_from_utf8(self.to_bytes())
    }

    /// Copies the string into one that owns its bytes.
    pub fn to_owned(&self) -> (r: PaString)
        ensures
            r@ == self@,
    {
        proof {
            use_type_invariant(self);
        }
        PaString { bytes: slice_to_vec(self.bytes) }
    }
}

/// An owned C string that need not be valid UTF-8.
///
/// Contains no interior nul bytes, but a nul terminator.
#[derive(Debug)]
pub struct PaString {
    bytes: Vec<u8>,
}

impl PaString {
    #[verifier::type_invariant]
    spec fn well_formed(&self) -> bool {
        is_c_string(self.bytes@)
    }

    /// The bytes of the string, without the nul terminator.
    pub closed spec fn view(&self) -> Seq<u8> {
        self.bytes@.drop_last()
    }

    /// Try to create a `PaString` from a byte vector, to which the terminator is added.
    ///
    /// Fails where the bytes hold a nul byte, with the position of the first one.
    pub fn new(bytes: Vec<u8>) -> (r: Result<PaString, StringError>)
        ensures
            r is Ok <==> no_nul(bytes@),
            match r {
                Ok(s) => s@ == bytes@,
                Err(StringError::InteriorNul(p)) => p < bytes@.len() && bytes@[p as int] == 0
                    && no_nul(bytes@.take(p as int)),
                Err(_) => false,
            },
    {
        match find_byte(bytes.as_slice(), 0, 0) {
            Some(p) => Err(StringError::InteriorNul(p)),
            None => {
                let mut bytes = bytes;
                let ghost before = bytes@;
                bytes.push(0);
                proof {
                    assert(bytes@.drop_last() =~= before);
                }
                Ok(PaString { bytes })
            },
        }
    }

    /// Try to create a `PaString` from the bytes of a string slice.
    ///
    /// Fails where the bytes hold a nul byte, with the position of the first one.
    pub fn from_str(s: &str) -> (r: Result<PaString, StringError>)
        ensures
            r is Ok <==> no_nul(s.spec_bytes()),
            match r {
                Ok(p) => p@ == s.spec_bytes(),
                Err(StringError::InteriorNul(p)) => p < s.spec_bytes().len() && s.spec_bytes()[p as int]
                    == 0 && no_nul(s.spec_bytes().take(p as int)),
                Err(_) => false,
            },
    {
        PaString::new(slice_to_vec(s.as_bytes()))
    }

    /// Creates a `PaString` from a text of ASCII characters other than nul.
    pub fn from_plain_text(text: &str) -> (r: PaString)
        requires
            is_plain_text(text@),
        ensures
            r@ == text.spec_bytes(),
    {
        proof {
            lemma_plain_text_bytes(text);
        }
        PaString::from_str(text).unwrap()
    }

    /// Borrows the string.
    pub fn as_pastr(&self) -> (r: PaStr<'_>)
        ensures
            r@ == self@,
    {
        proof {
            use_type_invariant(self);
        }
        PaStr { bytes: self.bytes.as_slice() }
    }
}

impl Clone for PaString {
    fn clone(&self) -> (r: Self)
        ensures
            r@ == self@,
    {
        proof {
            use_type_invariant(self);
        }
        PaString { bytes: self.bytes.clone() }
    }
}

/// A nul-terminated UTF-8 encoded string without interior nul bytes.
///
/// This type can be freely converted to `&str` and `PaStr`. It can be seen as the intersection of
/// `String` and a C string (everything valid as both is valid as a `UnicodeCString`).
#[derive(Debug)]
pub struct UnicodeCString {
    bytes: Vec<u8>,
}

impl UnicodeCString {
    #[verifier::type_invariant]
    spec fn well_formed(&self) -> bool {
        is_c_string(self.bytes@) && valid_utf8(self.bytes@.drop_last())
    }

    /// The UTF-8 bytes of the string, without the nul terminator.
    pub closed spec fn view(&self) -> Seq<u8> {
        self.bytes@.drop_last()
    }

    /// Creates a `UnicodeCString` from a Rust `String`.
    ///
    /// Fails where the string contains nul bytes, with the position of the first one.
    pub fn from_string(s: String) -> (r: Result<UnicodeCString, StringError>)
        ensures
            r is Ok <==> no_nul(encode_utf8(s@)),
            match r {
                Ok(u) => u@ == encode_utf8(s@),
                Err(StringError::InteriorNul(p)) => p < encode_utf8(s@).len() && encode_utf8(
                    s@,
                )[p as int] == 0 && no_nul(encode_utf8(s@).take(p as int)),
                Err(_) => false,
            },
    {
        UnicodeCString::from_str(s.as_str())
    }

    /// Creates a `UnicodeCString` from a `&str` slice.
    ///
    /// Fails where the string contains nul bytes, with the position of the first one.
    pub fn from_str(s: &str) -> (r: Result<UnicodeCString, StringError>)
        ensures
            r is Ok <==> no_nul(s.spec_bytes()),
            match r {
                Ok(u) => u@ == s.spec_bytes(),
                Err(StringError::InteriorNul(p)) => p < s.spec_bytes().len() && s.spec_bytes()[p as int]
                    == 0 && no_nul(s.spec_bytes().take(p as int)),
                Err(_) => false,
            },
    {
        let raw = s.as_bytes();
        match find_byte(raw, 0, 0) {
            Some(p) => Err(StringError::InteriorNul(p)),
            None => {
                let mut bytes = slice_to_vec(raw);
                bytes.push(0);
                proof {
                    assert(bytes@.drop_last() =~= raw@);
                    vstd::utf8::encode_utf8_valid_utf8(s@);
                }
                Ok(UnicodeCString { bytes })
            },
        }
    }

    /// Creates a `UnicodeCString` from a C string.
    ///
    /// Fails where the string isn't valid UTF-8.
    pub fn from_cstr(cs: PaStr<'_>) -> (r: Result<UnicodeCString, StringError>)
        ensures
            r is Ok <==> valid_utf8(cs@),
            r matches Ok(u) ==> u@ == cs@,
            r matches Err(e) ==> e == StringError::InvalidUtf8,
    {
        match cs.to_str() {
            None => Err(StringError::InvalidUtf8),
            Some(_) => {
                let with_nul = cs.to_bytes_with_nul();
                proof {
                    assert(with_nul@.drop_last() =~= cs@);
                }
                Ok(UnicodeCString { bytes: slice_to_vec(with_nul) })
            },
        }
    }

    /// Creates a `UnicodeCString` from ASCII bytes without a nul byte among them.
    pub fn from_ascii(bytes: &[u8]) -> (r: Option<UnicodeCString>)
        ensures
            r is Some <==> is_ascii_bytes(bytes@) && no_nul(bytes@),
            r matches Some(u) ==> u@ == bytes@,
    {
        if !all_ascii(bytes) {
            return None;
        }
        match find_byte(bytes, 0, 0) {
            Some(_) => None,
            None => {
                let mut owned = slice_to_vec(bytes);
                owned.push(0);
                proof {
                    assert(owned@.drop_last() =~= bytes@);
                    lemma_ascii_is_utf8(bytes@);
                }
                Some(UnicodeCString { bytes: owned })
            },
        }
    }

    /// Get this string as a `&str` slice.
    ///
    /// This cannot fail, as a `UnicodeCString` is always valid unicode.
    pub fn as_str(&self) -> (r: &str)
        ensures
            r.spec_bytes() == self@,
    {
        proof {
            use_type_invariant(self);
        }
        let without_nul = slice_subrange(self.bytes.as_slice(), 0, self.bytes.len() - 1);
        str_from_utf8(without_nul).unwrap()
    }

    /// The UTF-8 bytes of this string, without the nul terminator.
    pub fn as_bytes(&self) -> (r: &[u8])
        ensures
            r@ == self@,
            no_nul(r@),
            valid_utf8(r@),
    {
        proof {
            use_type_invariant(self);
        }
        slice_subrange(self.bytes.as_slice(), 0, self.bytes.len() - 1)
    }

    /// Get this string as a `PaStr`.
    ///
    /// This cannot fail, as a `UnicodeCString` never contains interior nul bytes (and contains a
    /// nul terminator).
    pub fn as_pastr(&self) -> (r: PaStr<'_>)
        ensures
            r@ == self@,
    {
        proof {
            use_type_invariant(self);
        }
        PaStr { bytes: self.bytes.as_slice() }
    }
}

impl Clone for UnicodeCString {
    fn clone(&self) -> (r: Self)
        ensures
            r@ == self@,
    {
        proof {
            use_type_invariant(self);
        }
        UnicodeCString { bytes: self.bytes.clone() }
    }
}

} // verus!
