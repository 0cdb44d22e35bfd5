//! Defines the `PropList` type, a key-value map that is used to associate arbitrary properties with
//! objects.

use vstd::prelude::*;
use crate::error::Error;
use crate::error::ErrorKind;
use crate::lex::lemma_lex_asymmetric;
use crate::lex::lemma_lex_irreflexive;
use crate::lex::lemma_lex_total;
use crate::lex::lemma_lex_transitive;
use crate::lex::lex_compare;
use crate::lex::lex_lt;
use crate::lex::Order;
use crate::string::all_ascii;
use crate::string::is_ascii_bytes;
use crate::string::is_c_string;
use crate::string::is_plain_text;
use crate::string::lemma_plain_text_bytes;
use crate::string::no_nul;
use crate::string::PaStr;
use crate::string::UnicodeCString;
use vstd::slice::slice_to_vec;
use vstd::utf8::valid_utf8;
use vstd::string::StringSliceAdditionalSpecFns;

verus! {

/// Max. size of a proplist value in Bytes.
pub const MAX_PROP_SIZE: u32 = 64 * 1024;

/// The entries of a property list: keys and values as bytes, in the order of the keys.
pub type PropSeq = Seq<(Seq<u8>, Seq<u8>)>;

/// Whether `k` can be the key of a property: not empty, ASCII only, no nul byte.
pub open spec fn valid_prop_key(k: Seq<u8>) -> bool {
    k.len() > 0 && is_ascii_bytes(k) && no_nul(k)
}

/// Whether the keys stand in strictly increasing order, so that no key occurs twice.
pub open spec fn keys_sorted(s: PropSeq) -> bool {
    forall|i: int, j: int| #![trigger s[i], s[j]] 0 <= i < j < s.len() ==> lex_lt(s[i].0, s[j].0)
}

/// Whether `s` can be the content of a property list.
pub open spec fn valid_proplist(s: PropSeq) -> bool {
    &&& keys_sorted(s)
    &&& forall|i: int| #![trigger s[i]] 0 <= i < s.len() ==> valid_prop_key(s[i].0)
    &&& forall|i: int| #![trigger s[i]] 0 <= i < s.len() ==> s[i].1.len() <= MAX_PROP_SIZE
}

/// The place of key `k` among sorted entries: the number of entries whose key comes before `k`.
pub open spec fn spec_position(s: PropSeq, k: Seq<u8>) -> int
    decreases s.len(),
{
    if s.len() == 0 {
        0
    } else if lex_lt(s.last().0, k) {
        s.len() as int
    } else {
        spec_position(s.drop_last(), k)
    }
}

/// The value that the entries hold for key `k`, if they hold one.
pub open spec fn spec_lookup(s: PropSeq, k: Seq<u8>) -> Option<Seq<u8>> {
    let p = spec_position(s, k);
    if p < s.len() && s[p].0 == k {
        Some(s[p].1)
    } else {
        None
    }
}

/// The entries after `k` was given the value `v`: the value of an entry with that key is
/// replaced, else a new entry takes its place in the order of the keys.
pub open spec fn spec_insert(s: PropSeq, k: Seq<u8>, v: Seq<u8>) -> PropSeq {
    let p = spec_position(s, k);
    if p < s.len() && s[p].0 == k {
        s.update(p, (k, v))
    } else {
        s.insert(p, (k, v))
    }
}

/// The entries of `s` after every entry of `other` was inserted, in the order of `other`.
pub open spec fn spec_extend(s: PropSeq, other: PropSeq) -> PropSeq
    decreases other.len(),
{
    if other.len() == 0 {
        s
    } else {
        spec_insert(spec_extend(s, other.drop_last()), other.last().0, other.last().1)
    }
}

/// Among sorted entries the place of `k` parts the keys before `k` from the others.
pub proof fn lemma_position_parts(s: PropSeq, k: Seq<u8>)
    requires
        keys_sorted(s),
    ensures
        0 <= spec_position(s, k) <= s.len(),
        forall|j: int| #![trigger s[j]] 0 <= j < spec_position(s, k) ==> lex_lt(s[j].0, k),
        forall|j: int| #![trigger s[j]] spec_position(s, k) <= j < s.len() ==> !lex_lt(s[j].0, k),
    decreases s.len(),
{
    if s.len() > 0 {
        let t = s.drop_last();
        assert forall|i: int, j: int| #![trigger t[i], t[j]] 0 <= i < j < t.len() implies lex_lt(
            t[i].0,
            t[j].0,
        ) by {
            assert(t[i] == s[i] && t[j] == s[j]);
        }
        if lex_lt(s.last().0, k) {
            assert forall|j: int| #![trigger s[j]] 0 <= j < s.len() implies lex_lt(s[j].0, k) by {
                if j < s.len() - 1 {
                    assert(lex_lt(s[j].0, s[s.len() - 1].0));
                    lemma_lex_transitive(s[j].0, s.last().0, k);
                }
            }
        } else {
            lemma_position_parts(t, k);
            assert forall|j: int| #![trigger s[j]] 0 <= j < spec_position(s, k) implies lex_lt(
                s[j].0,
                k,
            ) by {
                assert(t[j] == s[j]);
            }
            assert forall|j: int| #![trigger s[j]] spec_position(s, k) <= j < s.len() implies !lex_lt(
                s[j].0,
                k,
            ) by {
                if j < s.len() - 1 {
                    assert(t[j] == s[j]);
                }
            }
        }
    }
}

/// The place of `k` is the only index that parts the keys before `k` from the others.
pub proof fn lemma_position_unique(s: PropSeq, k: Seq<u8>, p: int)
    requires
        0 <= p <= s.len(),
        forall|j: int| #![trigger s[j]] 0 <= j < p ==> lex_lt(s[j].0, k),
        forall|j: int| #![trigger s[j]] p <= j < s.len() ==> !lex_lt(s[j].0, k),
    ensures
        spec_position(s, k) == p,
    decreases s.len(),
{
    if s.len() > 0 {
        let t = s.drop_last();
        if lex_lt(s.last().0, k) {
            if p < s.len() {
                assert(!lex_lt(s[s.len() - 1].0, k));
            }
        } else {
            if p == s.len() {
                assert(lex_lt(s[s.len() - 1].0, k));
            }
            assert forall|j: int| #![trigger t[j]] 0 <= j < p implies lex_lt(t[j].0, k) by {
                assert(t[j] == s[j]);
            }
            assert forall|j: int| #![trigger t[j]] p <= j < t.len() implies !lex_lt(t[j].0, k) by {
                assert(t[j] == s[j]);
            }
            lemma_position_unique(t, k, p);
        }
    }
}

/// A key that comes after every key of the entries is put at their end.
pub proof fn lemma_insert_after_all(s: PropSeq, k: Seq<u8>, v: Seq<u8>)
    requires
        forall|j: int| #![trigger s[j]] 0 <= j < s.len() ==> lex_lt(s[j].0, k),
    ensures
        spec_insert(s, k, v) == s.push((k, v)),
{
    lemma_position_unique(s, k, s.len() as int);
    assert(s.insert(s.len() as int, (k, v)) =~= s.push((k, v)));
}

/// Inserting a valid key with a value within the limit keeps the entries valid.
#[verifier::rlimit(40)]
pub proof fn lemma_insert_valid(s: PropSeq, k: Seq<u8>, v: Seq<u8>)
    requires
        valid_proplist(s),
        valid_prop_key(k),
        v.len() <= MAX_PROP_SIZE,
    ensures
        valid_proplist(spec_insert(s, k, v)),
{
    lemma_position_parts(s, k);
    let p = spec_position(s, k);
    let r = spec_insert(s, k, v);
    if p < s.len() && s[p].0 == k {
        assert forall|i: int, j: int| #![trigger r[i], r[j]] 0 <= i < j < r.len() implies lex_lt(
            r[i].0,
            r[j].0,
        ) by {
            assert(r[i].0 == s[i].0 && r[j].0 == s[j].0);
        }
        assert forall|i: int| #![trigger r[i]] 0 <= i < r.len() implies valid_prop_key(r[i].0)
            && r[i].1.len() <= MAX_PROP_SIZE by {
            if i != p {
                assert(r[i] == s[i]);
            }
        }
    } else {
        assert forall|j: int| #![trigger s[j]] p <= j < s.len() implies lex_lt(k, s[j].0) by {
            assert(!lex_lt(s[p].0, k));
            lemma_lex_total(s[p].0, k);
            if j > p {
                assert(lex_lt(s[p].0, s[j].0));
                lemma_lex_transitive(k, s[p].0, s[j].0);
            }
        }
        assert forall|i: int, j: int| #![trigger r[i], r[j]] 0 <= i < j < r.len() implies lex_lt(
            r[i].0,
            r[j].0,
        ) by {
            if i < p {
                assert(r[i] == s[i]);
                if j == p {
                } else if j > p {
                    assert(r[j] == s[j - 1]);
                    if j - 1 >= p {
                        lemma_lex_transitive(s[i].0, k, s[j - 1].0);
                    }
                } else {
                    assert(r[j] == s[j]);
                }
            } else if i == p {
                assert(r[j] == s[j - 1]);
            } else {
                assert(r[i] == s[i - 1]);
                assert(r[j] == s[j - 1]);
            }
        }
        assert forall|i: int| #![trigger r[i]] 0 <= i < r.len() implies valid_prop_key(r[i].0)
            && r[i].1.len() <= MAX_PROP_SIZE by {
            if i < p {
                assert(r[i] == s[i]);
            } else if i > p {
                assert(r[i] == s[i - 1]);
            }
        }
    }
}

/// Inserting all entries of one valid list into another keeps it valid.
pub proof fn lemma_extend_valid(s: PropSeq, other: PropSeq)
    requires
        valid_proplist(s),
        valid_proplist(other),
    ensures
        valid_proplist(spec_extend(s, other)),
    decreases other.len(),
{
    if other.len() > 0 {
        let t = other.drop_last();
        assert(valid_proplist(t)) by {
            assert forall|i: int, j: int| #![trigger t[i], t[j]] 0 <= i < j < t.len() implies lex_lt(
                t[i].0,
                t[j].0,
            ) by {
                assert(t[i] == other[i] && t[j] == other[j]);
            }
            assert forall|i: int| #![trigger t[i]] 0 <= i < t.len() implies valid_prop_key(t[i].0)
                && t[i].1.len() <= MAX_PROP_SIZE by {
                assert(t[i] == other[i]);
            }
        }
        lemma_extend_valid(s, t);
        assert(valid_prop_key(other[other.len() - 1].0));
        assert(other[other.len() - 1].1.len() <= MAX_PROP_SIZE);
        lemma_insert_valid(spec_extend(s, t), other.last().0, other.last().1);
    }
}

/// After an insertion the key holds the new value and every other key what it held before.
#[verifier::rlimit(40)]
pub proof fn lemma_lookup_insert(s: PropSeq, k: Seq<u8>, v: Seq<u8>, other: Seq<u8>)
    requires
        keys_sorted(s),
    ensures
        spec_lookup(spec_insert(s, k, v), k) == Some(v),
        other != k ==> spec_lookup(spec_insert(s, k, v), other) == spec_lookup(s, other),
{
    lemma_position_parts(s, k);
    lemma_position_parts(s, other);
    let p = spec_position(s, k);
    let q = spec_position(s, other);
    let r = spec_insert(s, k, v);
    lemma_lex_irreflexive(k);
    if p < s.len() && s[p].0 == k {
        assert forall|j: int| #![trigger r[j]] 0 <= j < p implies lex_lt(r[j].0, k) by {
            assert(r[j] == s[j]);
        }
        assert forall|j: int| #![trigger r[j]] p <= j < r.len() implies !lex_lt(r[j].0, k) by {
            assert(r[j].0 == s[j].0);
        }
        lemma_position_unique(r, k, p);
        if other != k {
            assert forall|j: int| #![trigger r[j]] 0 <= j < q implies lex_lt(r[j].0, other) by {
                assert(r[j].0 == s[j].0);
            }
            assert forall|j: int| #![trigger r[j]] q <= j < r.len() implies !lex_lt(
                r[j].0,
                other,
            ) by {
                assert(r[j].0 == s[j].0);
            }
            lemma_position_unique(r, other, q);
            if q < s.len() && q != p {
                assert(r[q] == s[q]);
            }
        }
    } else {
        assert forall|j: int| #![trigger s[j]] p <= j < s.len() implies lex_lt(k, s[j].0) by {
            assert(!lex_lt(s[p].0, k));
            lemma_lex_total(s[p].0, k);
            if j > p {
                assert(lex_lt(s[p].0, s[j].0));
                lemma_lex_transitive(k, s[p].0, s[j].0);
            }
        }
        assert forall|j: int| #![trigger r[j]] 0 <= j < p implies lex_lt(r[j].0, k) by {
            assert(r[j] == s[j]);
        }
        assert forall|j: int| #![trigger r[j]] p <= j < r.len() implies !lex_lt(r[j].0, k) by {
            if j > p {
                assert(r[j] == s[j - 1]);
                lemma_lex_asymmetric(k, s[j - 1].0);
            }
        }
        lemma_position_unique(r, k, p);
        if other != k {
            lemma_lex_total(k, other);
            if lex_lt(k, other) {
                // `other` stands behind the new entry
                assert(q >= p) by {
                    if q < p {
                        assert(lex_lt(s[q].0, k));
                        lemma_lex_transitive(s[q].0, k, other);
                    }
                }
                assert forall|j: int| #![trigger r[j]] 0 <= j < q + 1 implies lex_lt(
                    r[j].0,
                    other,
                ) by {
                    if j < p {
                        assert(r[j] == s[j]);
                    } else if j > p {
                        assert(r[j] == s[j - 1]);
                    }
                }
                assert forall|j: int| #![trigger r[j]] q + 1 <= j < r.len() implies !lex_lt(
                    r[j].0,
                    other,
                ) by {
                    assert(r[j] == s[j - 1]);
                }
                lemma_position_unique(r, other, q + 1);
                if q < s.len() {
                    assert(r[q + 1] == s[q]);
                }
            } else {
                // `other` stands before the new entry
                assert(q <= p) by {
                    if q > p {
                        assert(lex_lt(s[p].0, other));
                        assert(lex_lt(k, s[p].0));
                        lemma_lex_transitive(other, k, s[p].0);
                        lemma_lex_asymmetric(other, s[p].0);
                    }
                }
                assert forall|j: int| #![trigger r[j]] 0 <= j < q implies lex_lt(r[j].0, other) by {
                    assert(r[j] == s[j]);
                }
                assert forall|j: int| #![trigger r[j]] q <= j < r.len() implies !lex_lt(
                    r[j].0,
                    other,
                ) by {
                    if j < p {
                        assert(r[j] == s[j]);
                    } else if j == p {
                        lemma_lex_asymmetric(k, other);
                    } else {
                        assert(r[j] == s[j - 1]);
                    }
                }
                lemma_position_unique(r, other, q);
                if q < p {
                    assert(r[q] == s[q]);
                } else if q < s.len() {
                    assert(lex_lt(k, s[q].0));
                    lemma_lex_irreflexive(other);
                }
            }
        }
    }
}

/// A list of key-value pairs that associate arbitrary properties with an object.
///
/// This is a key-value mapping using ASCII strings as keys. PulseAudio will not accept keys that
/// contain non-ASCII data or that are empty. Values, however, can be arbitrary bytes of up to
/// `MAX_PROP_SIZE`, but also are mostly UTF-8 strings, so `PropList` provides a few helper methods
/// for dealing with human-accessible UTF-8 strings.
///
/// The entries are kept in the order of their keys, and no key occurs twice.
#[derive(Debug)]
pub struct PropList {
    entries: Vec<(UnicodeCString, Vec<u8>)>,
}

impl View for PropList {
    type V = PropSeq;

    closed spec fn view(&self) -> PropSeq {
        Seq::new(self.entries@.len(), |i: int| (self.entries@[i].0@, self.entries@[i].1@))
    }
}

/// Creates the error for a key or a value that a property list does not take.
fn check_entry(key: &[u8], value_len: usize) -> (r: Result<(), Error>)
    requires
        no_nul(key@),
    ensures
        match r {
            Ok(()) => valid_prop_key(key@) && value_len <= MAX_PROP_SIZE,
            Err(e) => e.kind == spec_entry_error(key@, value_len as nat)->Some_0,
        },
        r is Ok <==> spec_entry_error(key@, value_len as nat) is None,
        r is Ok <==> valid_prop_key(key@) && value_len <= MAX_PROP_SIZE,
{
    if key.len() == 0 {
        return Err(Error::new(ErrorKind::EmptyPropKey));
    }
    if !all_ascii(key) {
        return Err(Error::new(ErrorKind::NonAsciiPropKey));
    }
    if value_len > MAX_PROP_SIZE as usize {
        return Err(Error::new(ErrorKind::PropTooLarge));
    }
    Ok(())
}

/// Why a property list does not take a key without nul bytes and a value of `value_len` bytes, if
/// it does not: the key is empty, or not ASCII, or the value is above the limit, in this order.
pub open spec fn spec_entry_error(key: Seq<u8>, value_len: nat) -> Option<ErrorKind> {
    if key.len() == 0 {
        Some(ErrorKind::EmptyPropKey)
    } else if !is_ascii_bytes(key) {
        Some(ErrorKind::NonAsciiPropKey)
    } else if value_len > MAX_PROP_SIZE {
        Some(ErrorKind::PropTooLarge)
    } else {
        None
    }
}

impl PropList {
    #[verifier::type_invariant]
    spec fn well_formed(&self) -> bool {
        valid_proplist(self@)
    }

    /// Creates a new, empty property list.
    pub fn new() -> (list: PropList)
        ensures
            list@ == PropSeq::empty(),
    {
        let list = PropList { entries: Vec::new() };
        assert(list@ =~= PropSeq::empty());
        list
    }

    /// Finds the place of `key` among the entries, and tells whether an entry with it is there.
    #[verifier::rlimit(40)]
    fn search(&self, key: &[u8]) -> (r: (usize, bool))
        ensures
            r.0 == spec_position(self@, key@),
            r.0 <= self@.len(),
            r.1 <==> r.0 < self@.len() && self@[r.0 as int].0 == key@,
            r.1 <==> spec_lookup(self@, key@) is Some,
            self@.len() == self.entries@.len(),
            valid_proplist(self@),
    {
        proof {
            use_type_invariant(self);
        }
        let mut lo: usize = 0;
        let mut hi: usize = self.entries.len();
        while lo < hi
            invariant
                0 <= lo <= hi <= self.entries@.len(),
                self@.len() == self.entries@.len(),
                forall|j: int| #![trigger self@[j]] 0 <= j < lo ==> lex_lt(self@[j].0, key@),
                forall|j: int|
                    #![trigger self@[j]]
                    hi <= j < self@.len() ==> !lex_lt(self@[j].0, key@),
                valid_proplist(self@),
            decreases hi - lo,
        {
            let mid = lo + (hi - lo) / 2;
            let entry = &self.entries[mid];
            proof {
                assert(self@[mid as int].0 == entry.0@);
            }
            match lex_compare(entry.0.as_bytes(), key) {
                Order::Less => {
                    proof {
                        assert forall|j: int| #![trigger self@[j]] 0 <= j < mid + 1 implies lex_lt(
                            self@[j].0,
                            key@,
                        ) by {
                            if j < mid {
                                assert(lex_lt(self@[j].0, self@[mid as int].0));
                                lemma_lex_transitive(self@[j].0, self@[mid as int].0, key@);
                            }
                        }
                    }
                    lo = mid + 1;
                },
                _ => {
                    proof {
                        assert(!lex_lt(self@[mid as int].0, key@)) by {
                            lemma_lex_irreflexive(key@);
                            lemma_lex_asymmetric(self@[mid as int].0, key@);
                        }
                        assert forall|j: int| #![trigger self@[j]] mid <= j < self@.len() implies !lex_lt(
                            self@[j].0,
                            key@,
                        ) by {
                            if j > mid && lex_lt(self@[j].0, key@) {
                                assert(lex_lt(self@[mid as int].0, self@[j].0));
                                lemma_lex_transitive(self@[mid as int].0, self@[j].0, key@);
                            }
                        }
                    }
                    hi = mid;
                },
            }
        }
        proof {
            lemma_position_unique(self@, key@, lo as int);
        }
        if lo < self.entries.len() {
            let entry = &self.entries[lo];
            proof {
                assert(self@[lo as int].0 == entry.0@);
            }
            let found = match lex_compare(entry.0.as_bytes(), key) {
                Order::Equal => true,
                _ => false,
            };
            (lo, found)
        } else {
            (lo, false)
        }
    }

    /// Sets a well-known property.
    ///
    /// If the property already has a value, it will be overwritten with the new one. A value of
    /// more than `MAX_PROP_SIZE` bytes is refused, and the list stays as it is.
    pub fn set(&mut self, prop: Prop, value: &[u8]) -> (r: Result<(), Error>)
        ensures
            r is Ok <==> value@.len() <= MAX_PROP_SIZE,
            r is Ok ==> final(self)@ == spec_insert(old(self)@, prop.spec_key(), value@),
            r matches Err(e) ==> e.kind == ErrorKind::PropTooLarge && final(self)@ == old(self)@,
            valid_proplist(final(self)@),
    {
        let key = prop.to_unicode_cstring();
        match self.insert(key, slice_to_vec(value)) {
            Ok(_) => Ok(()),
            Err(e) => Err(e),
        }
    }

    /// Insert raw data into the property list.
    ///
    /// Returns the key's previous value, if any. An empty key, a key with a byte outside of
    /// ASCII and a value of more than `MAX_PROP_SIZE` bytes are refused, and the list stays as it
    /// is.
    #[verifier::rlimit(40)]
    pub fn insert(&mut self, key: UnicodeCString, value: Vec<u8>) -> (r: Result<
        Option<Vec<u8>>,
        Error,
    >)
        ensures
            r is Ok <==> valid_prop_key(key@) && value@.len() <= MAX_PROP_SIZE,
            match r {
                Ok(previous) => {
                    &&& final(self)@ == spec_insert(old(self)@, key@, value@)
                    &&& match previous {
                        Some(p) => spec_lookup(old(self)@, key@) == Some(p@),
                        None => spec_lookup(old(self)@, key@) is None,
                    }
                },
                Err(e) => {
                    &&& final(self)@ == old(self)@
                    &&& Some(e.kind) == spec_entry_error(key@, value@.len())
                },
            },
            valid_proplist(final(self)@),
    {
        proof {
            use_type_invariant(&*self);
        }
        match check_entry(key.as_bytes(), value.len()) {
            Err(e) => {
                return Err(e);
            },
            Ok(()) => {},
        }
        let (pos, found) = self.search(key.as_bytes());
        let ghost before = self@;
        let ghost k = key@;
        let ghost v = value@;
        proof {
            lemma_insert_valid(before, k, v);
        }
        let mut entries: Vec<(UnicodeCString, Vec<u8>)> = Vec::new();
        core::mem::swap(&mut entries, &mut self.entries);
        proof {
            assert(self@ =~= PropSeq::empty());
        }
        let previous = if found {
            let old_entry = entries.remove(pos);
            proof {
                assert(before[pos as int] == (old_entry.0@, old_entry.1@));
            }
            Some(old_entry.1)
        } else {
            None
        };
        entries.insert(pos, (key, value));
        proof {
            let after = Seq::new(entries@.len(), |i: int| (entries@[i].0@, entries@[i].1@));
            assert(after =~= spec_insert(before, k, v));
        }
        self.entries = entries;
        Ok(previous)
    }

    /// Get the value of a well-known property.
    ///
    /// If `prop` is not in the map, returns `None`.
    pub fn get(&self, prop: Prop) -> (r: Option<&[u8]>)
        ensures
            match r {
                Some(value) => spec_lookup(self@, prop.spec_key()) == Some(value@),
                None => spec_lookup(self@, prop.spec_key()) is None,
            },
    {
        self.get_raw(prop.as_str().as_bytes())
    }

    /// Get the value that the list holds for a key given as bytes.
    ///
    /// If the key is not in the map, returns `None`.
    pub fn get_raw(&self, key: &[u8]) -> (r: Option<&[u8]>)
        ensures
            match r {
                Some(value) => spec_lookup(self@, key@) == Some(value@),
                None => spec_lookup(self@, key@) is None,
            },
    {
        let (pos, found) = self.search(key);
        if found {
            let entry = &self.entries[pos];
            proof {
                assert(self@[pos as int].1 == entry.1@);
            }
            Some(entry.1.as_slice())
        } else {
            None
        }
    }

    /// Get the string value associated to a well-known property.
    ///
    /// If `prop` is not in the map, or its associated blob is not a valid C string (ie. it
    /// contains interior nul bytes or is missing a terminating nul byte), or it is not valid UTF-8,
    /// returns `None`.
    ///
    /// Note that while this guarantees that the returned value is valid UTF-8, it does not return a
    /// `&str`.
    pub fn get_string(&self, prop: Prop) -> (r: Option<PaStr<'_>>)
        ensures
            match r {
                Some(s) => spec_lookup(self@, prop.spec_key()) == Some(s@.push(0)) && valid_utf8(
                    s@,
                ) && no_nul(s@),
                None => match spec_lookup(self@, prop.spec_key()) {
                    Some(blob) => !(is_c_string(blob) && valid_utf8(blob.drop_last())),
                    None => true,
                },
            },
    {
        match self.get(prop) {
            None => None,
            Some(blob) => match PaStr::from_bytes_with_nul(blob) {
                Err(_) => None,
                Ok(s) => match s.to_str() {
                    None => None,
                    Some(_) => {
                        proof {
                            assert(blob@ =~= blob@.drop_last().push(0));
                        }
                        let bytes = s.to_bytes();
                        Some(s)
                    },
                },
            },
        }
    }

    /// Inserts every entry of `other`, overwriting the values of keys that `self` already holds.
    pub fn extend(&mut self, other: &PropList)
        ensures
            final(self)@ == spec_extend(old(self)@, other@),
            valid_proplist(final(self)@),
    {
        proof {
            use_type_invariant(&*self);
            use_type_invariant(other);
        }
        let n = other.len();
        let mut i: usize = 0;
        while i < n
            invariant
                0 <= i <= n,
                n == other@.len(),
                valid_proplist(other@),
                valid_proplist(self@),
                self@ == spec_extend(old(self)@, other@.take(i as int)),
            decreases n - i,
        {
            let key = other.key_at(i).clone();
            let value = slice_to_vec(other.value_at(i));
            proof {
                assert(other@.take(i as int + 1).drop_last() =~= other@.take(i as int));
                assert(other@.take(i as int + 1).last() == other@[i as int]);
                assert(valid_prop_key(other@[i as int].0));
                assert(other@[i as int].1.len() <= MAX_PROP_SIZE);
            }
            self.insert(key, value).unwrap();
            i = i + 1;
        }
        proof {
            assert(other@.take(n as int) =~= other@);
        }
    }

    /// The number of entries. The entries of every list are valid.
    pub fn len(&self) -> (n: usize)
        ensures
            n == self@.len(),
            valid_proplist(self@),
    {
        proof {
            use_type_invariant(self);
        }
        self.entries.len()
    }

    /// The key of the entry at `index`, counted in the order of the keys.
    pub fn key_at(&self, index: usize) -> (key: &UnicodeCString)
        requires
            index < self@.len(),
        ensures
            key@ == self@[index as int].0,
            valid_prop_key(key@),
    {
        proof {
            use_type_invariant(self);
            assert(valid_prop_key(self@[index as int].0));
        }
        &self.entries[index].0
    }

    /// The value of the entry at `index`, counted in the order of the keys.
    pub fn value_at(&self, index: usize) -> (value: &[u8])
        requires
            index < self@.len(),
        ensures
            value@ == self@[index as int].1,
            value@.len() <= MAX_PROP_SIZE,
    {
        proof {
            use_type_invariant(self);
            assert(self@[index as int].1.len() <= MAX_PROP_SIZE);
        }
        self.entries[index].1.as_slice()
    }

    /// The text of a value that holds a string and one more byte, most often the terminator.
    ///
    /// Gives nothing where the value is empty or the bytes before its last one are not valid
    /// UTF-8. Many values are strings, and are best shown as such.
    pub fn value_text(value: &[u8]) -> (text: Option<&str>)
        ensures
            text is Some <==> value@.len() > 0 && valid_utf8(value@.drop_last()),
            text matches Some(t) ==> t.spec_bytes() == value@.drop_last(),
    {
        if value.len() == 0 {
            return None;
        }
        crate::string::str_from_utf8(vstd::slice::slice_subrange(value, 0, value.len() - 1))
    }
}

impl Clone for PropList {
    fn clone(&self) -> (r: Self)
        ensures
            r@ == self@,
    {
        proof {
            use_type_invariant(self);
        }
        let mut copy = PropList::new();
        proof {
            lemma_extend_sorted(self@);
        }
        copy.extend(self);
        copy
    }
}

/// Inserting the entries of a valid list into an empty one, in their order, gives the list
/// again.
pub proof fn lemma_extend_sorted(s: PropSeq)
    requires
        valid_proplist(s),
    ensures
        spec_extend(PropSeq::empty(), s) == s,
{
    lemma_extend_prefix(s, s.len() as int);
    assert(s.take(s.len() as int) =~= s);
}

/// Inserting the first `n` entries of a valid list into an empty one, in their order, gives
/// those entries.
pub proof fn lemma_extend_prefix(s: PropSeq, n: int)
    requires
        valid_proplist(s),
        0 <= n <= s.len(),
    ensures
        spec_extend(PropSeq::empty(), s.take(n)) == s.take(n),
    decreases n,
{
    if n > 0 {
        lemma_extend_prefix(s, n - 1);
        let t = s.take(n);
        assert(t.drop_last() =~= s.take(n - 1));
        assert(t.last() == s[n - 1]);
        let before = s.take(n - 1);
        assert forall|j: int| #![trigger before[j]] 0 <= j < before.len() implies lex_lt(
            before[j].0,
            s[n - 1].0,
        ) by {
            assert(before[j] == s[j]);
        }
        lemma_insert_after_all(before, s[n - 1].0, s[n - 1].1);
        assert(before.push(s[n - 1]) =~= t);
    } else {
        assert(s.take(0) =~= PropSeq::empty());
    }
}

} // verus!

verus! {

/// Well-known property list keys.
#[derive(Clone, Copy, Debug, PartialEq, Eq, Structural)]
pub enum Prop {
    /// For streams: localized media name, formatted as UTF-8. E.g. "Guns'N'Roses: Civil War".
    MediaName,
    /// For streams: localized media title if applicable, formatted as UTF-8. E.g. "Civil War"
    MediaTitle,
    /// For streams: localized media artist if applicable, formatted as UTF-8. E.g. "Guns'N'Roses"
    MediaArtist,
    /// For streams: localized media copyright string if applicable, formatted as UTF-8. E.g. "Evil
    /// Record Corp."
    MediaCopyright,
    /// For streams: localized media generator software string if applicable, formatted as UTF-8.
    /// E.g. "Foocrop AudioFrobnicator"
    MediaSoftware,
    /// For streams: media language if applicable, in standard POSIX format. E.g. "de_DE"
    MediaLanguage,
    /// For streams: source filename if applicable, in URI format or local path. E.g.
    /// "/home/lennart/music/foobar.ogg"
    MediaFilename,
    /// For streams: icon for the media. A binary blob containing PNG image data
    MediaIcon,
    /// For streams: an XDG icon name for the media. E.g. "audio-x-mp3"
    MediaIconName,
    /// For streams: logic role of this media. One of the strings "video", "music", "game", "event",
    /// "phone", "animation", "production", "a11y", "test"
    MediaRole,
    /// For streams: the name of a filter that is desired, e.g. "echo-cancel" or "equalizer-sink".
    /// PulseAudio may choose to not apply the filter if it does not make sense (for example,
    /// applying echo-cancellation on a Bluetooth headset probably does not make sense. since 1.0
    FilterWant,
    /// For streams: the name of a filter that is desired, e.g. "echo-cancel" or "equalizer-sink".
    /// Differs from PA_PROP_FILTER_WANT in that it forces PulseAudio to apply the filter,
    /// regardless of whether PulseAudio thinks it makes sense to do so or not. If this is set,
    /// PA_PROP_FILTER_WANT is ignored. In other words, you almost certainly do not want to use
    /// this. since 1.0
    FilterApply,
    /// For streams: the name of a filter that should specifically suppressed (i.e. overrides
    /// PA_PROP_FILTER_WANT). Useful for the times that PA_PROP_FILTER_WANT is automatically added
    /// (e.g. echo-cancellation for phone streams when $VOIP_APP does its own, internal AEC) since
    /// 1.0
    FilterSuppress,
    /// For event sound streams: XDG event sound name. e.g. "message-new-email" (Event sound streams
    /// are those with media.role set to "event")
    EventId,
    /// For event sound streams: localized human readable one-line description of the event,
    /// formatted as UTF-8. E.g. "Email from lennart@example.com received."
    EventDescription,
    /// For event sound streams: absolute horizontal mouse position on the screen if the event sound
    /// was triggered by a mouse click, integer formatted as text string. E.g. "865"
    EventMouseX,
    /// For event sound streams: absolute vertical mouse position on the screen if the event sound
    /// was triggered by a mouse click, integer formatted as text string. E.g. "432"
    EventMouseY,
    /// For event sound streams: relative horizontal mouse position on the screen if the event sound
    /// was triggered by a mouse click, float formatted as text string, ranging from 0.0 (left side
    /// of the screen) to 1.0 (right side of the screen). E.g. "0.65"
    EventMouseHPos,
    /// For event sound streams: relative vertical mouse position on the screen if the event sound
    /// was triggered by a mouse click, float formatted as text string, ranging from 0.0 (top of the
    /// screen) to 1.0 (bottom of the screen). E.g. "0.43"
    EventMouseVPos,
    /// For event sound streams: mouse button that triggered the event if applicable, integer
    /// formatted as string with 0=left, 1=middle, 2=right. E.g. "0"
    EventMouseButton,
    /// For streams that belong to a window on the screen: localized window title. E.g. "Totem Music
    /// Player"
    WindowName,
    /// For streams that belong to a window on the screen: a textual id for identifying a window
    /// logically. E.g. "org.gnome.Totem.MainWindow"
    WindowId,
    /// For streams that belong to a window on the screen: window icon. A binary blob containing PNG
    /// image data
    WindowIcon,
    /// For streams that belong to a window on the screen: an XDG icon name for the window. E.g.
    /// "totem"
    WindowIconName,
    /// For streams that belong to a window on the screen: absolute horizontal window position on
    /// the screen, integer formatted as text string. E.g. "865". since 0.9.17
    WindowX,
    /// For streams that belong to a window on the screen: absolute vertical window position on the
    /// screen, integer formatted as text string. E.g. "343". since 0.9.17
    WindowY,
    /// For streams that belong to a window on the screen: window width on the screen, integer
    /// formatted as text string. e.g. "365". since 0.9.17
    WindowWidth,
    /// For streams that belong to a window on the screen: window height on the screen, integer
    /// formatted as text string. E.g. "643". since 0.9.17
    WindowHeight,
    /// For streams that belong to a window on the screen: relative position of the window center on
    /// the screen, float formatted as text string, ranging from 0.0 (left side of the screen) to
    /// 1.0 (right side of the screen). E.g. "0.65". since 0.9.17
    WindowHPos,
    /// For streams that belong to a window on the screen: relative position of the window center on
    /// the screen, float formatted as text string, ranging from 0.0 (top of the screen) to 1.0
    /// (bottom of the screen). E.g. "0.43". since 0.9.17
    WindowVPos,
    /// For streams that belong to a window on the screen: if the windowing system supports multiple
    /// desktops, a comma separated list of indexes of the desktops this window is visible on. If
    /// this property is an empty string, it is visible on all desktops (i.e. 'sticky'). The first
    /// desktop is 0. E.g. "0,2,3" since 0.9.18
    WindowDesktop,
    /// For streams that belong to an X11 window on the screen: the X11 display string. E.g. ":0.0"
    WindowX11Display,
    /// For streams that belong to an X11 window on the screen: the X11 screen the window is on, an
    /// integer formatted as string. E.g. "0"
    WindowX11Screen,
    /// For streams that belong to an X11 window on the screen: the X11 monitor the window is on, an
    /// integer formatted as string. E.g. "0"
    WindowX11Monitor,
    /// For streams that belong to an X11 window on the screen: the window XID, an integer formatted
    /// as string. E.g. "25632"
    WindowX11Xid,
    /// For clients/streams: localized human readable application name. E.g. "Totem Music Player"
    ApplicationName,
    /// For clients/streams: a textual id for identifying an application logically. E.g.
    /// "org.gnome.Totem"
    ApplicationId,
    /// For clients/streams: a version string, e.g. "0.6.88"
    ApplicationVersion,
    /// For clients/streams: application icon. A binary blob containing PNG image data
    ApplicationIcon,
    /// For clients/streams: an XDG icon name for the application. E.g. "totem"
    ApplicationIconName,
    /// For clients/streams: application language if applicable, in standard POSIX format. E.g.
    /// "de_DE"
    ApplicationLanguage,
    /// For clients/streams on UNIX: application process PID, an integer formatted as string. E.g.
    /// "4711"
    ApplicationProcessId,
    /// For clients/streams: application process name. E.g. "totem"
    ApplicationProcessBinary,
    /// For clients/streams: application user name. E.g. "jonas"
    ApplicationProcessUser,
    /// For clients/streams: host name the application runs on. E.g. "omega"
    ApplicationProcessHost,
    /// For clients/streams: the D-Bus host id the application runs on. E.g.
    /// "543679e7b01393ed3e3e650047d78f6e"
    ApplicationProcessMachineId,
    /// For clients/streams: an id for the login session the application runs in. On Unix the value
    /// of $XDG_SESSION_ID. E.g. "5"
    ApplicationProcessSessionId,
    /// For devices: device string in the underlying audio layer's format. E.g. "surround51:0"
    DeviceString,
    /// For devices: API this device is access with. E.g. "alsa"
    DeviceApi,
    /// For devices: localized human readable device one-line description. E.g. "Foobar Industries
    /// USB Headset 2000+ Ultra"
    DeviceDescription,
    /// For devices: bus path to the device in the OS' format. E.g.
    /// "/sys/bus/pci/devices/0000:00:1f.2"
    DeviceBusPath,
    /// For devices: serial number if applicable. E.g. "4711-0815-1234"
    DeviceSerial,
    /// For devices: vendor ID if applicable. E.g. 1274
    DeviceVendorId,
    /// For devices: vendor name if applicable. E.g. "Foocorp Heavy Industries"
    DeviceVendorName,
    /// For devices: product ID if applicable. E.g. 4565
    DeviceProductId,
    /// For devices: product name if applicable. E.g. "SuperSpeakers 2000 Pro"
    DeviceProductName,
    /// For devices: device class. One of "sound", "modem", "monitor", "filter"
    DeviceClass,
    /// For devices: form factor if applicable. One of "internal", "speaker", "handset", "tv",
    /// "webcam", "microphone", "headset", "headphone", "hands-free", "car", "hifi", "computer",
    /// "portable"
    DeviceFormFactor,
    /// For devices: bus of the device if applicable. One of "isa", "pci", "usb", "firewire",
    /// "bluetooth"
    DeviceBus,
    /// For devices: icon for the device. A binary blob containing PNG image data
    DeviceIcon,
    /// For devices: an XDG icon name for the device. E.g. "sound-card-speakers-usb"
    DeviceIconName,
    /// For devices: access mode of the device if applicable. One of "mmap", "mmap_rewrite",
    /// "serial"
    DeviceAccessMode,
    /// For filter devices: master device id if applicable.
    DeviceMasterDevice,
    /// For devices: buffer size in bytes, integer formatted as string.
    DeviceBufferingBufferSize,
    /// For devices: fragment size in bytes, integer formatted as string.
    DeviceBufferingFragmentSize,
    /// For devices: profile identifier for the profile this devices is in. E.g. "analog-stereo",
    /// "analog-surround-40", "iec958-stereo", ...
    DeviceProfileName,
    /// For devices: intended use. A space separated list of roles (see PA_PROP_MEDIA_ROLE) this
    /// device is particularly well suited for, due to latency, quality or form factor. since 0.9.16
    DeviceIntendedRoles,
    /// For devices: human readable one-line description of the profile this device is in. E.g.
    /// "Analog Stereo", ...
    DeviceProfileDescription,
    /// For modules: the author's name, formatted as UTF-8 string. E.g. "Lennart Poettering"
    ModuleAuthor,
    /// For modules: a human readable one-line description of the module's purpose formatted as
    /// UTF-8. E.g. "Frobnicate sounds with a flux compensator"
    ModuleDescription,
    /// For modules: a human readable usage description of the module's arguments formatted as
    /// UTF-8.
    ModuleUsage,
    /// For modules: a version string for the module. E.g. "0.9.15"
    ModuleVersion,
    /// For PCM formats: the sample format used as returned by pa_sample_format_to_string() since
    /// 1.0
    FormatSampleFormat,
    /// For all formats: the sample rate (unsigned integer) since 1.0
    FormatRate,
    /// For all formats: the number of channels (unsigned integer) since 1.0
    FormatChannels,
    /// For PCM formats: the channel map of the stream as returned by pa_channel_map_snprint() since
    /// 1.0
    FormatChannelMap,
}

impl Prop {
    /// The property name to use in a property list.
    pub open spec fn spec_name(self) -> &'static str {
        match self {
            Prop::MediaName => "media.name",
            Prop::MediaTitle => "media.title",
            Prop::MediaArtist => "media.artist",
            Prop::MediaCopyright => "media.copyright",
            Prop::MediaSoftware => "media.software",
            Prop::MediaLanguage => "media.language",
            Prop::MediaFilename => "media.filename",
            Prop::MediaIcon => "media.icon",
            Prop::MediaIconName => "media.icon_name",
            Prop::MediaRole => "media.role",
            Prop::FilterWant => "filter.want",
            Prop::FilterApply => "filter.apply",
            Prop::FilterSuppress => "filter.suppress",
            Prop::EventId => "event.id",
            Prop::EventDescription => "event.description",
            Prop::EventMouseX => "event.mouse.x",
            Prop::EventMouseY => "event.mouse.y",
            Prop::EventMouseHPos => "event.mouse.hpos",
            Prop::EventMouseVPos => "event.mouse.vpos",
            Prop::EventMouseButton => "event.mouse.button",
            Prop::WindowName => "window.name",
            Prop::WindowId => "window.id",
            Prop::WindowIcon => "window.icon",
            Prop::WindowIconName => "window.icon_name",
            Prop::WindowX => "window.x",
            Prop::WindowY => "window.y",
            Prop::WindowWidth => "window.width",
            Prop::WindowHeight => "window.height",
            Prop::WindowHPos => "window.hpos",
            Prop::WindowVPos => "window.vpos",
            Prop::WindowDesktop => "window.desktop",
            Prop::WindowX11Display => "window.x11.display",
            Prop::WindowX11Screen => "window.x11.screen",
            Prop::WindowX11Monitor => "window.x11.monitor",
            Prop::WindowX11Xid => "window.x11.xid",
            Prop::ApplicationName => "application.name",
            Prop::ApplicationId => "application.id",
            Prop::ApplicationVersion => "application.version",
            Prop::ApplicationIcon => "application.icon",
            Prop::ApplicationIconName => "application.icon_name",
            Prop::ApplicationLanguage => "application.language",
            Prop::ApplicationProcessId => "application.process.id",
            Prop::ApplicationProcessBinary => "application.process.binary",
            Prop::ApplicationProcessUser => "application.process.user",
            Prop::ApplicationProcessHost => "application.process.host",
            Prop::ApplicationProcessMachineId => "application.process.machine_id",
            Prop::ApplicationProcessSessionId => "application.process.session_id",
            Prop::DeviceString => "device.string",
            Prop::DeviceApi => "device.api",
            Prop::DeviceDescription => "device.description",
            Prop::DeviceBusPath => "device.bus_path",
            Prop::DeviceSerial => "device.serial",
            Prop::DeviceVendorId => "device.vendor.id",
            Prop::DeviceVendorName => "device.vendor.name",
            Prop::DeviceProductId => "device.product.id",
            Prop::DeviceProductName => "device.product.name",
            Prop::DeviceClass => "device.class",
            Prop::DeviceFormFactor => "device.form_factor",
            Prop::DeviceBus => "device.bus",
            Prop::DeviceIcon => "device.icon",
            Prop::DeviceIconName => "device.icon_name",
            Prop::DeviceAccessMode => "device.access_mode",
            Prop::DeviceMasterDevice => "device.master_device",
            Prop::DeviceBufferingBufferSize => "device.buffering.buffer_size",
            Prop::DeviceBufferingFragmentSize => "device.buffering.fragment_size",
            Prop::DeviceProfileName => "device.profile.name",
            Prop::DeviceIntendedRoles => "device.intended_roles",
            Prop::DeviceProfileDescription => "device.profile.description",
            Prop::ModuleAuthor => "module.author",
            Prop::ModuleDescription => "module.description",
            Prop::ModuleUsage => "module.usage",
            Prop::ModuleVersion => "module.version",
            Prop::FormatSampleFormat => "format.sample_format",
            Prop::FormatRate => "format.rate",
            Prop::FormatChannels => "format.channels",
            Prop::FormatChannelMap => "format.channel_map",
        }
    }

    /// The key of the property in a property list: the bytes of its name.
    pub open spec fn spec_key(self) -> Seq<u8> {
        self.spec_name().spec_bytes()
    }

    /// Returns the property name to use in a property list.
    pub fn as_str(&self) -> (name: &'static str)
        ensures
            name@ == self.spec_name()@,
            name.spec_bytes() == self.spec_key(),
    {
        match *self {
            Prop::MediaName => "media.name",
            Prop::MediaTitle => "media.title",
            Prop::MediaArtist => "media.artist",
            Prop::MediaCopyright => "media.copyright",
            Prop::MediaSoftware => "media.software",
            Prop::MediaLanguage => "media.language",
            Prop::MediaFilename => "media.filename",
            Prop::MediaIcon => "media.icon",
            Prop::MediaIconName => "media.icon_name",
            Prop::MediaRole => "media.role",
            Prop::FilterWant => "filter.want",
            Prop::FilterApply => "filter.apply",
            Prop::FilterSuppress => "filter.suppress",
            Prop::EventId => "event.id",
            Prop::EventDescription => "event.description",
            Prop::EventMouseX => "event.mouse.x",
            Prop::EventMouseY => "event.mouse.y",
            Prop::EventMouseHPos => "event.mouse.hpos",
            Prop::EventMouseVPos => "event.mouse.vpos",
            Prop::EventMouseButton => "event.mouse.button",
            Prop::WindowName => "window.name",
            Prop::WindowId => "window.id",
            Prop::WindowIcon => "window.icon",
            Prop::WindowIconName => "window.icon_name",
            Prop::WindowX => "window.x",
            Prop::WindowY => "window.y",
            Prop::WindowWidth => "window.width",
            Prop::WindowHeight => "window.height",
            Prop::WindowHPos => "window.hpos",
            Prop::WindowVPos => "window.vpos",
            Prop::WindowDesktop => "window.desktop",
            Prop::WindowX11Display => "window.x11.display",
            Prop::WindowX11Screen => "window.x11.screen",
            Prop::WindowX11Monitor => "window.x11.monitor",
            Prop::WindowX11Xid => "window.x11.xid",
            Prop::ApplicationName => "application.name",
            Prop::ApplicationId => "application.id",
            Prop::ApplicationVersion => "application.version",
            Prop::ApplicationIcon => "application.icon",
            Prop::ApplicationIconName => "application.icon_name",
            Prop::ApplicationLanguage => "application.language",
            Prop::ApplicationProcessId => "application.process.id",
            Prop::ApplicationProcessBinary => "application.process.binary",
            Prop::ApplicationProcessUser => "application.process.user",
            Prop::ApplicationProcessHost => "application.process.host",
            Prop::ApplicationProcessMachineId => "application.process.machine_id",
            Prop::ApplicationProcessSessionId => "application.process.session_id",
            Prop::DeviceString => "device.string",
            Prop::DeviceApi => "device.api",
            Prop::DeviceDescription => "device.description",
            Prop::DeviceBusPath => "device.bus_path",
            Prop::DeviceSerial => "device.serial",
            Prop::DeviceVendorId => "device.vendor.id",
            Prop::DeviceVendorName => "device.vendor.name",
            Prop::DeviceProductId => "device.product.id",
            Prop::DeviceProductName => "device.product.name",
            Prop::DeviceClass => "device.class",
            Prop::DeviceFormFactor => "device.form_factor",
            Prop::DeviceBus => "device.bus",
            Prop::DeviceIcon => "device.icon",
            Prop::DeviceIconName => "device.icon_name",
            Prop::DeviceAccessMode => "device.access_mode",
            Prop::DeviceMasterDevice => "device.master_device",
            Prop::DeviceBufferingBufferSize => "device.buffering.buffer_size",
            Prop::DeviceBufferingFragmentSize => "device.buffering.fragment_size",
            Prop::DeviceProfileName => "device.profile.name",
            Prop::DeviceIntendedRoles => "device.intended_roles",
            Prop::DeviceProfileDescription => "device.profile.description",
            Prop::ModuleAuthor => "module.author",
            Prop::ModuleDescription => "module.description",
            Prop::ModuleUsage => "module.usage",
            Prop::ModuleVersion => "module.version",
            Prop::FormatSampleFormat => "format.sample_format",
            Prop::FormatRate => "format.rate",
            Prop::FormatChannels => "format.channels",
            Prop::FormatChannelMap => "format.channel_map",
        }
    }

    /// Returns the key of the property as an owned string.
    pub fn to_unicode_cstring(&self) -> (key: UnicodeCString)
        ensures
            key@ == self.spec_key(),
            valid_prop_key(key@),
    {
        proof {
            lemma_prop_key_valid(*self);
        }
        UnicodeCString::from_ascii(self.as_str().as_bytes()).unwrap()
    }
}

/// A name of ASCII characters other than nul, with at least one of them, is a valid key.
pub proof fn lemma_name_chars_key(name: &str)
    requires
        name@.len() > 0,
        is_plain_text(name@),
    ensures
        valid_prop_key(name.spec_bytes()),
{
    lemma_plain_text_bytes(name);
}

/// The name of every well-known property is a valid key.
pub proof fn lemma_prop_key_valid(prop: Prop)
    ensures
        valid_prop_key(prop.spec_key()),
{
    match prop {
        Prop::MediaName => {
            reveal_strlit("media.name");
            lemma_name_chars_key("media.name");
        },
        Prop::MediaTitle => {
            reveal_strlit("media.title");
            lemma_name_chars_key("media.title");
        },
        Prop::MediaArtist => {
            reveal_strlit("media.artist");
            lemma_name_chars_key("media.artist");
        },
        Prop::MediaCopyright => {
            reveal_strlit("media.copyright");
            lemma_name_chars_key("media.copyright");
        },
        Prop::MediaSoftware => {
            reveal_strlit("media.software");
            lemma_name_chars_key("media.software");
        },
        Prop::MediaLanguage => {
            reveal_strlit("media.language");
            lemma_name_chars_key("media.language");
        },
        Prop::MediaFilename => {
            reveal_strlit("media.filename");
            lemma_name_chars_key("media.filename");
        },
        Prop::MediaIcon => {
            reveal_strlit("media.icon");
            lemma_name_chars_key("media.icon");
        },
        Prop::MediaIconName => {
            reveal_strlit("media.icon_name");
            lemma_name_chars_key("media.icon_name");
        },
        Prop::MediaRole => {
            reveal_strlit("media.role");
            lemma_name_chars_key("media.role");
        },
        Prop::FilterWant => {
            reveal_strlit("filter.want");
            lemma_name_chars_key("filter.want");
        },
        Prop::FilterApply => {
            reveal_strlit("filter.apply");
            lemma_name_chars_key("filter.apply");
        },
        Prop::FilterSuppress => {
            reveal_strlit("filter.suppress");
            lemma_name_chars_key("filter.suppress");
        },
        Prop::EventId => {
            reveal_strlit("event.id");
            lemma_name_chars_key("event.id");
        },
        Prop::EventDescription => {
            reveal_strlit("event.description");
            lemma_name_chars_key("event.description");
        },
        Prop::EventMouseX => {
            reveal_strlit("event.mouse.x");
            lemma_name_chars_key("event.mouse.x");
        },
        Prop::EventMouseY => {
            reveal_strlit("event.mouse.y");
            lemma_name_chars_key("event.mouse.y");
        },
        Prop::EventMouseHPos => {
            reveal_strlit("event.mouse.hpos");
            lemma_name_chars_key("event.mouse.hpos");
        },
        Prop::EventMouseVPos => {
            reveal_strlit("event.mouse.vpos");
            lemma_name_chars_key("event.mouse.vpos");
        },
        Prop::EventMouseButton => {
            reveal_strlit("event.mouse.button");
            lemma_name_chars_key("event.mouse.button");
        },
        Prop::WindowName => {
            reveal_strlit("window.name");
            lemma_name_chars_key("window.name");
        },
        Prop::WindowId => {
            reveal_strlit("window.id");
            lemma_name_chars_key("window.id");
        },
        Prop::WindowIcon => {
            reveal_strlit("window.icon");
            lemma_name_chars_key("window.icon");
        },
        Prop::WindowIconName => {
            reveal_strlit("window.icon_name");
            lemma_name_chars_key("window.icon_name");
        },
        Prop::WindowX => {
            reveal_strlit("window.x");
            lemma_name_chars_key("window.x");
        },
        Prop::WindowY => {
            reveal_strlit("window.y");
            lemma_name_chars_key("window.y");
        },
        Prop::WindowWidth => {
            reveal_strlit("window.width");
            lemma_name_chars_key("window.width");
        },
        Prop::WindowHeight => {
            reveal_strlit("window.height");
            lemma_name_chars_key("window.height");
        },
        Prop::WindowHPos => {
            reveal_strlit("window.hpos");
            lemma_name_chars_key("window.hpos");
        },
        Prop::WindowVPos => {
            reveal_strlit("window.vpos");
            lemma_name_chars_key("window.vpos");
        },
        Prop::WindowDesktop => {
            reveal_strlit("window.desktop");
            lemma_name_chars_key("window.desktop");
        },
        Prop::WindowX11Display => {
            reveal_strlit("window.x11.display");
            lemma_name_chars_key("window.x11.display");
        },
        Prop::WindowX11Screen => {
            reveal_strlit("window.x11.screen");
            lemma_name_chars_key("window.x11.screen");
        },
        Prop::WindowX11Monitor => {
            reveal_strlit("window.x11.monitor");
            lemma_name_chars_key("window.x11.monitor");
        },
        Prop::WindowX11Xid => {
            reveal_strlit("window.x11.xid");
            lemma_name_chars_key("window.x11.xid");
        },
        Prop::ApplicationName => {
            reveal_strlit("application.name");
            lemma_name_chars_key("application.name");
        },
        Prop::ApplicationId => {
            reveal_strlit("application.id");
            lemma_name_chars_key("application.id");
        },
        Prop::ApplicationVersion => {
            reveal_strlit("application.version");
            lemma_name_chars_key("application.version");
        },
        Prop::ApplicationIcon => {
            reveal_strlit("application.icon");
            lemma_name_chars_key("application.icon");
        },
        Prop::ApplicationIconName => {
            reveal_strlit("application.icon_name");
            lemma_name_chars_key("application.icon_name");
        },
        Prop::ApplicationLanguage => {
            reveal_strlit("application.language");
            lemma_name_chars_key("application.language");
        },
        Prop::ApplicationProcessId => {
            reveal_strlit("application.process.id");
            lemma_name_chars_key("application.process.id");
        },
        Prop::ApplicationProcessBinary => {
            reveal_strlit("application.process.binary");
            lemma_name_chars_key("application.process.binary");
        },
        Prop::ApplicationProcessUser => {
            reveal_strlit("application.process.user");
            lemma_name_chars_key("application.process.user");
        },
        Prop::ApplicationProcessHost => {
            reveal_strlit("application.process.host");
            lemma_name_chars_key("application.process.host");
        },
        Prop::ApplicationProcessMachineId => {
            reveal_strlit("application.process.machine_id");
            lemma_name_chars_key("application.process.machine_id");
        },
        Prop::ApplicationProcessSessionId => {
            reveal_strlit("application.process.session_id");
            lemma_name_chars_key("application.process.session_id");
        },
        Prop::DeviceString => {
            reveal_strlit("device.string");
            lemma_name_chars_key("device.string");
        },
        Prop::DeviceApi => {
            reveal_strlit("device.api");
            lemma_name_chars_key("device.api");
        },
        Prop::DeviceDescription => {
            reveal_strlit("device.description");
            lemma_name_chars_key("device.description");
        },
        Prop::DeviceBusPath => {
            reveal_strlit("device.bus_path");
            lemma_name_chars_key("device.bus_path");
        },
        Prop::DeviceSerial => {
            reveal_strlit("device.serial");
            lemma_name_chars_key("device.serial");
        },
        Prop::DeviceVendorId => {
            reveal_strlit("device.vendor.id");
            lemma_name_chars_key("device.vendor.id");
        },
        Prop::DeviceVendorName => {
            reveal_strlit("device.vendor.name");
            lemma_name_chars_key("device.vendor.name");
        },
        Prop::DeviceProductId => {
            reveal_strlit("device.product.id");
            lemma_name_chars_key("device.product.id");
        },
        Prop::DeviceProductName => {
            reveal_strlit("device.product.name");
            lemma_name_chars_key("device.product.name");
        },
        Prop::DeviceClass => {
            reveal_strlit("device.class");
            lemma_name_chars_key("device.class");
        },
        Prop::DeviceFormFactor => {
            reveal_strlit("device.form_factor");
            lemma_name_chars_key("device.form_factor");
        },
        Prop::DeviceBus => {
            reveal_strlit("device.bus");
            lemma_name_chars_key("device.bus");
        },
        Prop::DeviceIcon => {
            reveal_strlit("device.icon");
            lemma_name_chars_key("device.icon");
        },
        Prop::DeviceIconName => {
            reveal_strlit("device.icon_name");
            lemma_name_chars_key("device.icon_name");
        },
        Prop::DeviceAccessMode => {
            reveal_strlit("device.access_mode");
            lemma_name_chars_key("device.access_mode");
        },
        Prop::DeviceMasterDevice => {
            reveal_strlit("device.master_device");
            lemma_name_chars_key("device.master_device");
        },
        Prop::DeviceBufferingBufferSize => {
            reveal_strlit("device.buffering.buffer_size");
            lemma_name_chars_key("device.buffering.buffer_size");
        },
        Prop::DeviceBufferingFragmentSize => {
            reveal_strlit("device.buffering.fragment_size");
            lemma_name_chars_key("device.buffering.fragment_size");
        },
        Prop::DeviceProfileName => {
            reveal_strlit("device.profile.name");
            lemma_name_chars_key("device.profile.name");
        },
        Prop::DeviceIntendedRoles => {
            reveal_strlit("device.intended_roles");
            lemma_name_chars_key("device.intended_roles");
        },
        Prop::DeviceProfileDescription => {
            reveal_strlit("device.profile.description");
            lemma_name_chars_key("device.profile.description");
        },
        Prop::ModuleAuthor => {
            reveal_strlit("module.author");
            lemma_name_chars_key("module.author");
        },
        Prop::ModuleDescription => {
            reveal_strlit("module.description");
            lemma_name_chars_key("module.description");
        },
        Prop::ModuleUsage => {
            reveal_strlit("module.usage");
            lemma_name_chars_key("module.usage");
        },
        Prop::ModuleVersion => {
            reveal_strlit("module.version");
            lemma_name_chars_key("module.version");
        },
        Prop::FormatSampleFormat => {
            reveal_strlit("format.sample_format");
            lemma_name_chars_key("format.sample_format");
        },
        Prop::FormatRate => {
            reveal_strlit("format.rate");
            lemma_name_chars_key("format.rate");
        },
        Prop::FormatChannels => {
            reveal_strlit("format.channels");
            lemma_name_chars_key("format.channels");
        },
        Prop::FormatChannelMap => {
            reveal_strlit("format.channel_map");
            lemma_name_chars_key("format.channel_map");
        },
    }
}

} // verus!
