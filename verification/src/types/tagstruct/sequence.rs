//! Whole tagstructs: all values from a position up to the end of the data.

use vstd::prelude::*;
use crate::types::tagstruct::grammar::ValueView;
use crate::types::tagstruct::grammar::spec_encode_value;
use crate::types::tagstruct::grammar::spec_read;
use crate::types::tagstruct::grammar::valid_value;
use crate::error::Error;
use crate::error::ErrorKind;
use crate::types::tagstruct::laws::lemma_read_valid;
use crate::types::tagstruct::laws::lemma_value_roundtrip;
use crate::types::tagstruct::reader::TagStructReader;
use crate::types::tagstruct::reader::Value;
use crate::types::tagstruct::writer::spec_value_encodable;
use crate::types::tagstruct::writer::TagStructWriter;

verus! {

/// Reads values up to the end of `s`, and refuses `s` with the first value that is refused.
pub open spec fn spec_read_all(s: Seq<u8>) -> Result<Seq<ValueView>, ErrorKind>
    decreases s.len(),
    via spec_read_all_decreases
{
    match spec_read(s) {
        None => Ok(Seq::empty()),
        Some(Err(e)) => Err(e),
        Some(Ok((v, n))) => match spec_read_all(s.skip(n)) {
            Ok(rest) => Ok(seq![v] + rest),
            Err(e) => Err(e),
        },
    }
}

#[via_fn]
proof fn spec_read_all_decreases(s: Seq<u8>) {
    lemma_read_valid(s);
}

/// The bytes of values, one after the other.
pub open spec fn spec_encode_values(values: Seq<ValueView>) -> Seq<u8>
    decreases values.len(),
{
    if values.len() == 0 {
        Seq::empty()
    } else {
        spec_encode_values(values.drop_last()) + spec_encode_value(values.last())
    }
}

/// What values hold, one for one.
pub open spec fn spec_views(values: Seq<Value<'_>>) -> Seq<ValueView> {
    Seq::new(values.len(), |i: int| values[i]@)
}

/// Whether every one of the values is valid.
pub open spec fn all_valid(values: Seq<ValueView>) -> bool {
    forall|i: int| 0 <= i < values.len() ==> valid_value(#[trigger] values[i])
}

/// The bytes of values are those of the first one and those of the others.
pub proof fn lemma_encode_values_front(values: Seq<ValueView>)
    requires
        values.len() > 0,
    ensures
        spec_encode_values(values) == spec_encode_value(values[0]) + spec_encode_values(
            values.skip(1),
        ),
    decreases values.len(),
{
    if values.len() == 1 {
        assert(values.drop_last() =~= Seq::<ValueView>::empty());
        assert(values.skip(1) =~= Seq::<ValueView>::empty());
        assert(spec_encode_values(values) =~= spec_encode_value(values[0]) + spec_encode_values(
            values.skip(1),
        ));
    } else {
        lemma_encode_values_front(values.drop_last());
        assert(values.drop_last().skip(1) =~= values.skip(1).drop_last());
        assert(values.skip(1).last() == values.last());
        assert(values.drop_last()[0] == values[0]);
        assert(spec_encode_values(values) =~= spec_encode_value(values[0]) + spec_encode_values(
            values.skip(1),
        ));
    }
}

/// Reading what was written for valid values gives the values back.
pub proof fn lemma_values_roundtrip(values: Seq<ValueView>)
    requires
        all_valid(values),
    ensures
        spec_read_all(spec_encode_values(values)) == Ok::<Seq<ValueView>, ErrorKind>(values),
    decreases values.len(),
{
    if values.len() == 0 {
        assert(values =~= Seq::<ValueView>::empty());
    } else {
        let first = values[0];
        let others = values.skip(1);
        let rest = spec_encode_values(others);
        lemma_encode_values_front(values);
        lemma_value_roundtrip(first, rest);
        assert((spec_encode_value(first) + rest).skip(spec_encode_value(first).len() as int)
            =~= rest);
        assert(all_valid(others)) by {
            assert forall|i: int| 0 <= i < others.len() implies valid_value(
                #[trigger] others[i],
            ) by {
                assert(others[i] == values[i + 1]);
            }
        }
        lemma_values_roundtrip(others);
        assert(seq![first] + others =~= values);
    }
}

/// All values that were read are valid.
pub proof fn lemma_read_all_valid(s: Seq<u8>)
    ensures
        spec_read_all(s) matches Ok(values) ==> all_valid(values),
    decreases s.len(),
{
    lemma_read_valid(s);
    if let Some(Ok((v, n))) = spec_read(s) {
        lemma_read_all_valid(s.skip(n));
        if let Ok(rest) = spec_read_all(s.skip(n)) {
            let values = seq![v] + rest;
            assert forall|i: int| 0 <= i < values.len() implies valid_value(
                #[trigger] values[i],
            ) by {
                if i > 0 {
                    assert(values[i] == rest[i - 1]);
                }
            }
        }
    }
}

/// Values that were read, written again, are read as the same values: writing them once more
/// changes nothing.
pub proof fn lemma_read_write_read(s: Seq<u8>)
    ensures
        spec_read_all(s) matches Ok(values) ==> spec_read_all(spec_encode_values(values)) == Ok::<
            Seq<ValueView>,
            ErrorKind,
        >(values),
{
    lemma_read_all_valid(s);
    if let Ok(values) = spec_read_all(s) {
        lemma_values_roundtrip(values);
    }
}

impl<'a> TagStructReader<'a> {
    /// Tries to read the rest of `self`, checking if the tagstruct is encoded correctly. Then
    /// returns the contained values. The reader itself does not move.
    #[verifier::loop_isolation(false)]
    pub fn checked_iter(&self) -> (r: Result<Vec<Value<'a>>, Error>)
        ensures
            match spec_read_all(self.remaining()) {
                Ok(values) => r matches Ok(v) && spec_views(v@) == values,
                Err(k) => r matches Err(e) && e.kind == k,
            },
    {
        let mut reader = *self;
        let mut values: Vec<Value<'a>> = Vec::new();
        proof {
            if let Ok(rest) = spec_read_all(reader.remaining()) {
                assert(spec_views(values@) + rest =~= rest);
            }
        }
        loop
            invariant
                spec_read_all(self.remaining()) == match spec_read_all(reader.remaining()) {
                    Ok(rest) => Ok::<Seq<ValueView>, ErrorKind>(spec_views(values@) + rest),
                    Err(e) => Err(e),
                },
            decreases reader.remaining().len(),
        {
            let ghost before = reader.remaining();
            let ghost read_before = spec_views(values@);
            proof {
                lemma_read_valid(before);
            }
            match reader.read() {
                Err(e) => {
                    return Err(e);
                },
                Ok(None) => {
                    proof {
                        assert(spec_views(values@) + Seq::<ValueView>::empty() =~= spec_views(
                            values@,
                        ));
                    }
                    return Ok(values);
                },
                Ok(Some(value)) => {
                    let ghost v = value@;
                    values.push(value);
                    proof {
                        assert(spec_views(values@) =~= read_before.push(v));
                        if let Ok(rest) = spec_read_all(reader.remaining()) {
                            assert(read_before + (seq![v] + rest) =~= spec_views(values@) + rest);
                        }
                    }
                },
            }
        }
    }
}

impl TagStructWriter {
    /// Appends values exactly as they are, one after the other.
    #[verifier::loop_isolation(false)]
    pub fn extend(&mut self, values: &[Value<'_>])
        requires
            forall|i: int| 0 <= i < values@.len() ==> spec_value_encodable(#[trigger] values@[i]@),
        ensures
            final(self)@ == old(self)@ + spec_encode_values(spec_views(values@)),
    {
        let mut i: usize = 0;
        let ghost views = spec_views(values@);
        while i < values.len()
            invariant
                0 <= i <= values@.len(),
                self@ == old(self)@ + spec_encode_values(views.take(i as int)),
            decreases values@.len() - i,
        {
            self.write_value(&values[i]);
            proof {
                assert(views.take(i + 1).drop_last() =~= views.take(i as int));
                assert(views.take(i + 1).last() == values@[i as int]@);
                assert(self@ =~= old(self)@ + spec_encode_values(views.take(i + 1)));
            }
            i = i + 1;
        }
        proof {
            assert(views.take(values@.len() as int) =~= views);
        }
    }
}

} // verus!
