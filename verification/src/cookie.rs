//! Authentication token.

use vstd::prelude::*;
use vstd::slice::slice_to_vec;
use rand::Rng;

verus! {

/// The number of bytes of a cookie.
pub const COOKIE_LENGTH: usize = 256;

/// The access mode of a cookie file: readable and writable by its owner, and by nobody else.
pub const COOKIE_FILE_MODE: u32 = 0o600;

/// `rand::thread_rng` and `rand::Rng::fill` on a byte slice: overwrites the bytes of `buf` with
/// random bytes from the generator of the thread. Nothing is said of the bytes but their
/// number.
#[verifier::external_body]
fn fill_random(buf: &mut Vec<u8>)
    ensures
        final(buf)@.len() == old(buf)@.len(),
{
    rand::thread_rng().fill(&mut buf[..]);
}

/// A randomly generated blob that is made accessible only to the user running the server.
pub struct AuthCookie {
    data: Vec<u8>,
}

impl View for AuthCookie {
    type V = Seq<u8>;

    closed spec fn view(&self) -> Seq<u8> {
        self.data@
    }
}

impl AuthCookie {
    #[verifier::type_invariant]
    spec fn well_formed(&self) -> bool {
        self.data@.len() == COOKIE_LENGTH
    }

    /// Generates a new cookie of random bytes.
    pub fn generate() -> (cookie: AuthCookie)
        ensures
            cookie@.len() == COOKIE_LENGTH,
    {
        let mut data: Vec<u8> = Vec::new();
        data.resize(COOKIE_LENGTH, 0);
        fill_random(&mut data);
        AuthCookie { data }
    }

    /// Takes the bytes of a cookie file as a cookie. Gives nothing where they are not exactly
    /// `COOKIE_LENGTH` bytes.
    pub fn from_bytes(bytes: &[u8]) -> (cookie: Option<AuthCookie>)
        ensures
            cookie is Some <==> bytes@.len() == COOKIE_LENGTH,
            cookie matches Some(c) ==> c@ == bytes@,
    {
        if bytes.len() != COOKIE_LENGTH {
            return None;
        }
        Some(AuthCookie { data: slice_to_vec(bytes) })
    }

    /// The bytes of the cookie.
    pub fn as_bytes(&self) -> (bytes: &[u8])
        ensures
            bytes@ == self@,
            bytes@.len() == COOKIE_LENGTH,
    {
        proof {
            use_type_invariant(self);
        }
        self.data.as_slice()
    }

    /// Tells whether `other` holds the bytes of this cookie.
    ///
    /// Where the lengths agree, every byte is looked at, whether a difference was found before
    /// it or not, so that the time taken tells nothing of the place of a difference.
    pub fn matches(&self, other: &[u8]) -> (r: bool)
        ensures
            r == (self@ == other@),
    {
        proof {
            use_type_invariant(self);
        }
        if other.len() != COOKIE_LENGTH {
            return false;
        }
        let mut difference: u8 = 0;
        let mut i: usize = 0;
        proof {
            assert(self.data@.take(0) =~= other@.take(0));
        }
        while i < COOKIE_LENGTH
            invariant
                0 <= i <= COOKIE_LENGTH,
                self.data@.len() == COOKIE_LENGTH,
                other@.len() == COOKIE_LENGTH,
                difference == 0 <==> self.data@.take(i as int) == other@.take(i as int),
            decreases COOKIE_LENGTH - i,
        {
            let a = self.data[i];
            let b = other[i];
            let ghost before = difference;
            difference = difference | (a ^ b);
            proof {
                assert((before | (a ^ b)) == 0 <==> before == 0 && a == b) by (bit_vector);
                let p = self.data@.take(i as int);
                let q = other@.take(i as int);
                assert(self.data@.take(i + 1) =~= p.push(a));
                assert(other@.take(i + 1) =~= q.push(b));
                if p.push(a) == q.push(b) {
                    assert(p.push(a).drop_last() =~= p);
                    assert(q.push(b).drop_last() =~= q);
                    assert(p.push(a).last() == a);
                    assert(q.push(b).last() == b);
                }
            }
            i = i + 1;
        }
        proof {
            assert(self.data@.take(COOKIE_LENGTH as int) =~= self.data@);
            assert(other@.take(COOKIE_LENGTH as int) =~= other@);
        }
        difference == 0
    }

    /// Tells whether a cookie file with the given mode is accessible to its owner only: the
    /// access bits of the mode are exactly `COOKIE_FILE_MODE`.
    pub fn file_mode_ok(mode: u32) -> (r: bool)
        ensures
            r == (mode & 0o777 == COOKIE_FILE_MODE),
    {
        mode & 0o777 == COOKIE_FILE_MODE
    }
}

} // verus!
