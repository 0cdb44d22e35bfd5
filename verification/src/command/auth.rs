//! Authentication / Handshake command and reply.

use vstd::prelude::*;
use crate::error::Error;
use crate::error::ErrorKind;
use crate::types::tagstruct::grammar::Parsed;
use crate::types::tagstruct::grammar::spec_encode_arbitrary;
use crate::types::tagstruct::grammar::spec_encode_u32;
use crate::types::tagstruct::grammar::spec_read_arbitrary;
use crate::types::tagstruct::grammar::spec_read_u32;
use crate::types::tagstruct::laws::lemma_arbitrary_roundtrip;
use crate::types::tagstruct::laws::lemma_u32_roundtrip;
use crate::types::tagstruct::reader::FromTagStruct;
use crate::types::tagstruct::reader::TagStructReader;
use crate::types::tagstruct::writer::TagStructWriter;
use crate::types::tagstruct::writer::ToTagStruct;

verus! {

/// The bits of the first word of the handshake that hold the protocol version.
pub const VERSION_MASK: u32 = 0x0000ffff;

/// The bit of the first word of the handshake that stands for POSIX shared memory.
pub const FLAG_SHM: u32 = 0x80000000;

/// The bit of the first word of the handshake that stands for `memfd` shared memory.
pub const FLAG_MEMFD: u32 = 0x40000000;

/// What an `Auth` command holds.
pub struct AuthView {
    pub version: u16,
    pub supports_shm: bool,
    pub supports_memfd: bool,
    /// The bytes of the cookie.
    pub cookie: Seq<u8>,
}

/// The word that holds a protocol version and the two flags for shared memory.
pub open spec fn spec_handshake_word(version: u16, shm: bool, memfd: bool) -> u32 {
    (version as u32) | (if shm {
        FLAG_SHM
    } else {
        0
    }) | (if memfd {
        FLAG_MEMFD
    } else {
        0
    })
}

/// The command that a word and a cookie stand for.
pub open spec fn spec_auth_from_word(word: u32, cookie: Seq<u8>) -> AuthView {
    AuthView {
        version: (word & VERSION_MASK) as u16,
        supports_shm: word & FLAG_SHM != 0,
        supports_memfd: word & FLAG_MEMFD != 0,
        cookie,
    }
}

/// The version and the flags are read back from the word that was made of them.
pub proof fn lemma_handshake_word(version: u16, shm: bool, memfd: bool)
    ensures
        (spec_handshake_word(version, shm, memfd) & VERSION_MASK) as u16 == version,
        (spec_handshake_word(version, shm, memfd) & FLAG_SHM != 0) == shm,
        (spec_handshake_word(version, shm, memfd) & FLAG_MEMFD != 0) == memfd,
{
    let v = version as u32;
    let a: u32 = if shm {
        FLAG_SHM
    } else {
        0
    };
    let b: u32 = if memfd {
        FLAG_MEMFD
    } else {
        0
    };
    assert((v | a | b) & 0x0000ffff == v && ((v | a | b) & 0x80000000 != 0) == (a != 0) && ((v
        | a | b) & 0x40000000 != 0) == (b != 0)) by (bit_vector)
        requires
            v < 0x10000,
            a == 0 || a == 0x80000000,
            b == 0 || b == 0x40000000,
    ;
}

/// Establish connection and authenticate client.
#[derive(Clone, Copy, Debug)]
pub struct Auth<'a> {
    version: u16,
    supports_shm: bool,
    supports_memfd: bool,
    cookie: &'a [u8],
}

impl<'a> View for Auth<'a> {
    type V = AuthView;

    closed spec fn view(&self) -> AuthView {
        AuthView {
            version: self.version,
            supports_shm: self.supports_shm,
            supports_memfd: self.supports_memfd,
            cookie: self.cookie@,
        }
    }
}

impl<'a> Auth<'a> {
    /// Creates the command that a client with the given protocol version, support for shared
    /// memory and cookie sends.
    pub fn new(version: u16, supports_shm: bool, supports_memfd: bool, cookie: &'a [u8]) -> (auth:
        Auth<'a>)
        ensures
            auth@ == (AuthView { version, supports_shm, supports_memfd, cookie: cookie@ }),
    {
        Auth { version, supports_shm, supports_memfd, cookie }
    }

    /// Client's protocol version.
    ///
    /// Protocol versions are backwards-compatible, so a client with a higher version than the
    /// server still works. Current PulseAudio no longer supports client versions `< 8`. We
    /// don't support any version `< 13`, so make sure to reject clients/servers accordingly.
    pub fn protocol_version(&self) -> (r: u16)
        ensures
            r == self@.version,
    {
        self.version
    }

    /// Whether the client supports POSIX shared memory.
    pub fn supports_shm(&self) -> (r: bool)
        ensures
            r == self@.supports_shm,
    {
        self.supports_shm
    }

    /// Whether the client supports the `memfd` mechanism for shared memory.
    pub fn supports_memfd(&self) -> (r: bool)
        ensures
            r == self@.supports_memfd,
    {
        self.supports_memfd
    }

    /// The authentication cookie.
    pub fn auth_cookie(&self) -> (r: &'a [u8])
        ensures
            r@ == self@.cookie,
    {
        self.cookie
    }
}

/// Reads an `Auth` command: a word with version and flags, then the cookie as a blob.
pub open spec fn spec_read_auth(s: Seq<u8>) -> Parsed<AuthView> {
    match spec_read_u32(s) {
        Err(e) => Err(e),
        Ok((word, n)) => match spec_read_arbitrary(s.skip(n)) {
            Err(e) => Err(e),
            Ok((cookie, m)) => Ok((spec_auth_from_word(word, cookie), n + m)),
        },
    }
}

/// The bytes of an `Auth` command.
pub open spec fn spec_encode_auth(v: AuthView) -> Seq<u8> {
    spec_encode_u32(spec_handshake_word(v.version, v.supports_shm, v.supports_memfd))
        + spec_encode_arbitrary(v.cookie)
}

impl<'a> FromTagStruct<'a> for Auth<'a> {
    open spec fn spec_from_tag_struct(s: Seq<u8>, protocol_version: u16) -> Parsed<AuthView> {
        spec_read_auth(s)
    }

    fn from_tag_struct(ts: &mut TagStructReader<'a>, protocol_version: u16) -> (r: Result<
        Self,
        Error,
    >) {
        let ghost before = *ts;
        let flags_and_version = match ts.read_u32() {
            Ok(word) => word,
            Err(e) => {
                return Err(e);
            },
        };
        let ghost behind_word = *ts;
        let cookie = match ts.read_arbitrary() {
            Ok(cookie) => cookie,
            Err(e) => {
                return Err(e);
            },
        };
        proof {
            ts.lemma_advanced_chain(&before, &behind_word);
            assert(flags_and_version & VERSION_MASK <= 0xffff) by (bit_vector);
        }
        Ok(
            Auth {
                version: (flags_and_version & VERSION_MASK) as u16,
                supports_shm: flags_and_version & FLAG_SHM != 0,
                supports_memfd: flags_and_version & FLAG_MEMFD != 0,
                cookie,
            },
        )
    }
}

/// Puts a protocol version and the two flags for shared memory into one word.
fn handshake_word(version: u16, shm: bool, memfd: bool) -> (word: u32)
    ensures
        word == spec_handshake_word(version, shm, memfd),
{
    let a: u32 = if shm {
        FLAG_SHM
    } else {
        0
    };
    let b: u32 = if memfd {
        FLAG_MEMFD
    } else {
        0
    };
    (version as u32) | a | b
}

impl<'a> ToTagStruct for Auth<'a> {
    open spec fn spec_encoding(&self, protocol_version: u16) -> Seq<u8> {
        spec_encode_auth(self@)
    }

    open spec fn spec_encodable(&self) -> bool {
        self@.cookie.len() <= u32::MAX
    }

    /// Writes the command. A cookie whose length does not fit in 32 bits cannot be written.
    fn to_tag_struct(&self, w: &mut TagStructWriter, protocol_version: u16) -> (r: Result<
        (),
        Error,
    >) {
        if self.cookie.len() > u32::MAX as usize {
            return Err(Error::new(ErrorKind::BlobTooLarge));
        }
        let word = handshake_word(self.version, self.supports_shm, self.supports_memfd);
        w.write(word);
        w.write(self.cookie);
        proof {
            assert(final(w)@ =~= old(w)@ + spec_encode_auth(self@));
        }
        Ok(())
    }
}

/// An `Auth` command whose cookie can be written is read back from its bytes, whatever follows
/// them.
pub proof fn lemma_auth_roundtrip(v: AuthView, rest: Seq<u8>)
    requires
        v.cookie.len() <= u32::MAX,
    ensures
        spec_read_auth(spec_encode_auth(v) + rest) == Ok::<(AuthView, int), ErrorKind>(
            (v, spec_encode_auth(v).len() as int),
        ),
        (spec_encode_auth(v) + rest).skip(spec_encode_auth(v).len() as int) == rest,
{
    let word = spec_handshake_word(v.version, v.supports_shm, v.supports_memfd);
    let tail = spec_encode_arbitrary(v.cookie) + rest;
    let bytes = spec_encode_auth(v) + rest;
    assert(bytes =~= spec_encode_u32(word) + tail);
    lemma_u32_roundtrip(word, tail);
    assert(bytes.skip(5) =~= tail);
    lemma_arbitrary_roundtrip(v.cookie, rest);
    lemma_handshake_word(v.version, v.supports_shm, v.supports_memfd);
    assert(bytes.skip(spec_encode_auth(v).len() as int) =~= rest);
}

/// What a reply to an `Auth` command holds.
pub struct AuthReplyView {
    pub version: u16,
    pub use_memfd: bool,
    pub use_shm: bool,
}

/// Server reply to `Auth` command.
#[derive(Clone, Copy, Debug)]
pub struct AuthReply {
    version: u16,
    use_memfd: bool,
    use_shm: bool,
}

impl View for AuthReply {
    type V = AuthReplyView;

    closed spec fn view(&self) -> AuthReplyView {
        AuthReplyView { version: self.version, use_memfd: self.use_memfd, use_shm: self.use_shm }
    }
}

impl AuthReply {
    /// Creates a reply that announces the server's protocol version and enables no shared
    /// memory.
    pub fn new(server_protocol_version: u16) -> (reply: AuthReply)
        ensures
            reply@ == (AuthReplyView {
                version: server_protocol_version,
                use_memfd: false,
                use_shm: false,
            }),
    {
        AuthReply { version: server_protocol_version, use_memfd: false, use_shm: false }
    }

    /// Gets the server's implemented protocol version.
    pub fn server_protocol_version(&self) -> (r: u16)
        ensures
            r == self@.version,
    {
        self.version
    }

    /// Whether Linux' `memfd` will be used to transfer samples.
    pub fn use_memfd(&self) -> (r: bool)
        ensures
            r == self@.use_memfd,
    {
        self.use_memfd
    }

    /// Sets the flag indicating whether Linux' `memfd` mechanism will be used.
    pub fn set_use_memfd(&mut self, use_memfd: bool)
        ensures
            final(self)@ == (AuthReplyView { use_memfd, ..old(self)@ }),
    {
        self.use_memfd = use_memfd;
    }

    /// Whether POSIX shm will be used to transfer samples.
    pub fn use_shm(&self) -> (r: bool)
        ensures
            r == self@.use_shm,
    {
        self.use_shm
    }

    /// Sets the flag indicating whether POSIX shared memory will be used.
    pub fn set_use_shm(&mut self, use_shm: bool)
        ensures
            final(self)@ == (AuthReplyView { use_shm, ..old(self)@ }),
    {
        self.use_shm = use_shm;
    }
}

impl ToTagStruct for AuthReply {
    /// Auth reply is a tagstruct with just a u32 that looks similar to the "version" field in the
    /// auth request. It contains the server's protocol version and the result of the shm and
    /// memfd negotiation.
    open spec fn spec_encoding(&self, protocol_version: u16) -> Seq<u8> {
        spec_encode_u32(spec_handshake_word(self@.version, self@.use_shm, self@.use_memfd))
    }

    open spec fn spec_encodable(&self) -> bool {
        true
    }

    fn to_tag_struct(&self, w: &mut TagStructWriter, protocol_version: u16) -> (r: Result<
        (),
        Error,
    >) {
        let reply = handshake_word(self.version, self.use_shm, self.use_memfd);
        w.write(reply);
        Ok(())
    }
}

} // verus!
