//! Writing values as the bytes of a tagstruct.

use vstd::prelude::*;
use crate::types::tagstruct::grammar::TAG_ARBITRARY;
use crate::types::tagstruct::grammar::TAG_BOOLEAN_FALSE;
use crate::types::tagstruct::grammar::TAG_BOOLEAN_TRUE;
use crate::types::tagstruct::grammar::TAG_CHANNEL_MAP;
use crate::types::tagstruct::grammar::TAG_CVOLUME;
use crate::types::tagstruct::grammar::TAG_FORMAT_INFO;
use crate::types::tagstruct::grammar::TAG_PROPLIST;
use crate::types::tagstruct::grammar::TAG_S64;
use crate::types::tagstruct::grammar::TAG_SAMPLE_SPEC;
use crate::types::tagstruct::grammar::TAG_STRING;
use crate::types::tagstruct::grammar::TAG_STRING_NULL;
use crate::types::tagstruct::grammar::TAG_U32;
use crate::types::tagstruct::grammar::TAG_U64;
use crate::types::tagstruct::grammar::TAG_U8;
use crate::types::tagstruct::grammar::TAG_USEC;
use crate::types::tagstruct::grammar::TAG_VOLUME;
use crate::types::tagstruct::grammar::ValueView;
use crate::types::tagstruct::grammar::spec_encode_arbitrary;
use crate::types::tagstruct::grammar::spec_encode_positions;
use crate::types::tagstruct::grammar::spec_encode_prop;
use crate::types::tagstruct::grammar::spec_encode_proplist;
use crate::types::tagstruct::grammar::spec_encode_props;
use crate::types::tagstruct::grammar::spec_encode_sample_spec;
use crate::types::tagstruct::grammar::spec_encode_string;
use crate::types::tagstruct::grammar::spec_encode_u32;
use crate::types::tagstruct::grammar::spec_encode_value;
use crate::types::tagstruct::grammar::spec_encode_volumes;
use crate::error::Error;
use crate::error::ErrorKind;
use crate::string::PaStr;
use crate::string::PaString;
use crate::string::UnicodeCString;
use crate::time::Microseconds;
use crate::types::channel_map::ChannelMap;
use crate::types::cvolume::CVolume;
use crate::types::cvolume::Volume;
use crate::types::format_info::FormatInfo;
use crate::types::proplist::PropList;
use crate::types::sample_spec::spec_downgrade;
use crate::types::sample_spec::SampleSpec;
use crate::types::tagstruct::reader::TagStructReader;
use crate::types::tagstruct::reader::Value;
use crate::wire::be_bytes_u32;
use crate::wire::write_be_i64;
use crate::wire::write_be_u32;
use crate::wire::write_be_u64;

verus! {

/// What a value is written as for a peer that speaks `protocol_version`: a sample specification
/// is downgraded for it, every other value is written as it is.
pub open spec fn spec_downgrade_value(v: ValueView, protocol_version: u16) -> ValueView {
    match v {
        ValueView::SampleSpec(s) => ValueView::SampleSpec(spec_downgrade(s, protocol_version)),
        _ => v,
    }
}

/// Whether the bytes of a value can be written. Only a blob whose length does not fit in 32 bits
/// cannot.
pub open spec fn spec_value_encodable(v: ValueView) -> bool {
    match v {
        ValueView::Arbitrary(b) => b.len() <= u32::MAX,
        _ => true,
    }
}

/// Appending to what was appended is appending both at once.
pub proof fn lemma_append_assoc(a: Seq<u8>, b: Seq<u8>, c: Seq<u8>)
    ensures
        (a + b) + c == a + (b + c),
{
    assert((a + b) + c =~= a + (b + c));
}

/// Trait implemented by types that can be serialized into a tagstruct.
pub trait ToTagStruct {
    /// The bytes that are written for `self` at a protocol version.
    spec fn spec_encoding(&self, protocol_version: u16) -> Seq<u8>;

    /// Whether `self` can be written.
    spec fn spec_encodable(&self) -> bool;

    /// Write `self` into a tagstruct. Where that fails, nothing is written.
    fn to_tag_struct(&self, w: &mut TagStructWriter, protocol_version: u16) -> (r: Result<
        (),
        Error,
    >)
        ensures
            r is Ok <==> self.spec_encodable(),
            r is Ok ==> final(w)@ == old(w)@ + self.spec_encoding(protocol_version),
            r is Err ==> final(w)@ == old(w)@,
    ;
}

/// Marker trait for tagstruct-serializable types that do not depend on the protocol version.
///
/// Implemented mostly by the primitive types used in tagstructs.
pub trait VersionIndependent {

}

/// Appends values to a byte buffer as a tagstruct.
///
/// The writer takes a buffer, whose content it drops and whose memory it reuses, and gives it
/// back from `into_inner`.
#[derive(Debug)]
pub struct TagStructWriter {
    buf: Vec<u8>,
}

impl View for TagStructWriter {
    type V = Seq<u8>;

    closed spec fn view(&self) -> Seq<u8> {
        self.buf@
    }
}

impl TagStructWriter {
    /// Creates a tagstruct writer that writes to a reusable buffer.
    pub fn new(buf: Vec<u8>) -> (w: TagStructWriter)
        ensures
            w@ == Seq::<u8>::empty(),
    {
        let mut buf = buf;
        buf.clear();
        TagStructWriter { buf }
    }

    /// Gives back the buffer with the bytes that were written.
    pub fn into_inner(self) -> (buf: Vec<u8>)
        ensures
            buf@ == self@,
    {
        self.buf
    }

    /// The bytes that were written.
    pub fn as_bytes(&self) -> (bytes: &[u8])
        ensures
            bytes@ == self@,
    {
        self.buf.as_slice()
    }

    /// Cheaply convert this writer to a tagstruct reader that will read back the data written by
    /// this writer.
    pub fn to_reader(&self) -> (reader: TagStructReader<'_>)
        ensures
            reader.data() == self@,
            reader.position() == 0,
            reader.remaining() == self@,
    {
        TagStructReader::from_raw(self.buf.as_slice())
    }

    /// Appends one byte.
    fn put(&mut self, byte: u8)
        ensures
            final(self)@ == old(self)@.push(byte),
    {
        self.buf.push(byte);
    }

    /// Appends bytes.
    fn put_all(&mut self, bytes: &[u8])
        ensures
            final(self)@ == old(self)@ + bytes@,
    {
        self.buf.extend_from_slice(bytes);
    }

    /// Appends the 4 bytes of an integer.
    fn put_u32(&mut self, n: u32)
        ensures
            final(self)@ == old(self)@ + be_bytes_u32(n),
    {
        write_be_u32(&mut self.buf, n);
    }

    /// Appends a string value.
    fn put_string(&mut self, s: PaStr<'_>)
        ensures
            final(self)@ == old(self)@ + spec_encode_string(s@),
    {
        self.put(TAG_STRING);
        self.put_all(s.to_bytes_with_nul());
        proof {
            assert(final(self)@ =~= old(self)@ + spec_encode_string(s@));
        }
    }

    /// Appends an unsigned 32 bit value.
    fn put_tagged_u32(&mut self, n: u32)
        ensures
            final(self)@ == old(self)@ + spec_encode_u32(n),
    {
        self.put(TAG_U32);
        self.put_u32(n);
        proof {
            assert(final(self)@ =~= old(self)@ + spec_encode_u32(n));
        }
    }

    /// Appends a blob whose length fits in 32 bits.
    fn put_arbitrary(&mut self, bytes: &[u8])
        requires
            bytes@.len() <= u32::MAX,
        ensures
            final(self)@ == old(self)@ + spec_encode_arbitrary(bytes@),
    {
        self.put(TAG_ARBITRARY);
        self.put_u32(bytes.len() as u32);
        self.put_all(bytes);
        proof {
            assert(final(self)@ =~= old(self)@ + spec_encode_arbitrary(bytes@));
        }
    }

    /// Appends a sample specification as it is.
    fn put_sample_spec(&mut self, spec: &SampleSpec)
        ensures
            final(self)@ == old(self)@ + spec_encode_sample_spec(spec@),
    {
        self.put(TAG_SAMPLE_SPEC);
        self.put(spec.format().as_u8());
        self.put(spec.channels());
        self.put_u32(spec.sample_rate());
        proof {
            assert(final(self)@ =~= old(self)@ + spec_encode_sample_spec(spec@));
        }
    }

    /// Appends a sample specification as it is, whatever the protocol version.
    pub fn put_sample_spec_raw(&mut self, spec: &SampleSpec)
        ensures
            final(self)@ == old(self)@ + spec_encode_sample_spec(spec@),
    {
        self.put_sample_spec(spec);
    }

    /// Appends a channel map.
    #[verifier::loop_isolation(false)]
    fn put_channel_map(&mut self, map: &ChannelMap)
        ensures
            final(self)@ == old(self)@ + spec_encode_value(ValueView::ChannelMap(map@)),
    {
        let positions = map.positions();
        self.put(TAG_CHANNEL_MAP);
        self.put(map.len());
        let ghost base = self@;
        let mut i: usize = 0;
        while i < positions.len()
            invariant
                0 <= i <= positions@.len(),
                self@ == base + spec_encode_positions(positions@.take(i as int)),
            decreases positions@.len() - i,
        {
            self.put(positions[i].as_u8());
            proof {
                assert(spec_encode_positions(positions@.take(i + 1)) =~= spec_encode_positions(
                    positions@.take(i as int),
                ).push(positions@[i as int].spec_as_u8()));
            }
            i = i + 1;
        }
        proof {
            assert(positions@.take(positions@.len() as int) =~= positions@);
            assert(final(self)@ =~= old(self)@ + spec_encode_value(ValueView::ChannelMap(map@)));
        }
    }

    /// Appends a list of channel volumes.
    #[verifier::loop_isolation(false)]
    fn put_cvolume(&mut self, cvolume: &CVolume)
        ensures
            final(self)@ == old(self)@ + spec_encode_value(ValueView::CVolume(cvolume@)),
    {
        let volumes = cvolume.volumes();
        self.put(TAG_CVOLUME);
        self.put(cvolume.len());
        let ghost base = self@;
        let mut i: usize = 0;
        while i < volumes.len()
            invariant
                0 <= i <= volumes@.len(),
                self@ == base + spec_encode_volumes(cvolume@.take(i as int)),
            decreases volumes@.len() - i,
        {
            self.put_u32(volumes[i].as_u32());
            proof {
                assert(cvolume@.take(i + 1).drop_last() =~= cvolume@.take(i as int));
                assert(cvolume@.take(i + 1).last() == cvolume@[i as int]);
            }
            i = i + 1;
        }
        proof {
            assert(cvolume@.take(cvolume@.len() as int) =~= cvolume@);
            assert(final(self)@ =~= old(self)@ + spec_encode_value(ValueView::CVolume(cvolume@)));
        }
    }

    /// Appends a property list.
    #[verifier::loop_isolation(false)]
    fn put_proplist(&mut self, props: &PropList)
        ensures
            final(self)@ == old(self)@ + spec_encode_proplist(props@),
    {
        self.put(TAG_PROPLIST);
        let ghost base = self@;
        let n = props.len();
        let mut i: usize = 0;
        while i < n
            invariant
                0 <= i <= n,
                self@ == base + spec_encode_props(props@.take(i as int)),
            decreases n - i,
        {
            let ghost before = self@;
            let key = props.key_at(i);
            let value = props.value_at(i);
            self.put_string(key.as_pastr());
            self.put_tagged_u32(value.len() as u32);
            self.put_arbitrary(value);
            proof {
                assert(props@.take(i + 1).drop_last() =~= props@.take(i as int));
                assert(props@.take(i + 1).last() == props@[i as int]);
                assert(self@ =~= before + spec_encode_prop(props@[i as int]));
            }
            i = i + 1;
        }
        self.put(TAG_STRING_NULL);
        proof {
            assert(props@.take(n as int) =~= props@);
            assert(final(self)@ =~= old(self)@ + spec_encode_proplist(props@));
        }
    }

    /// Appends a format info.
    fn put_format_info(&mut self, info: &FormatInfo)
        ensures
            final(self)@ == old(self)@ + spec_encode_value(ValueView::FormatInfo(info@)),
    {
        self.put(TAG_FORMAT_INFO);
        self.put(TAG_U8);
        self.put(info.encoding().as_u8());
        self.put_proplist(info.props());
        proof {
            assert(final(self)@ =~= old(self)@ + spec_encode_value(ValueView::FormatInfo(info@)));
        }
    }

    /// Appends a value as it is, or fails on a blob that is too large and appends nothing.
    fn try_write(&mut self, value: &Value<'_>) -> (r: Result<(), Error>)
        ensures
            r is Ok <==> spec_value_encodable(value@),
            r is Ok ==> final(self)@ == old(self)@ + spec_encode_value(value@),
            r matches Err(e) ==> e.kind == ErrorKind::BlobTooLarge && final(self)@ == old(self)@,
    {
        match value {
            Value::String(s) => {
                self.put_string(*s);
            },
            Value::NullString => {
                self.put(TAG_STRING_NULL);
            },
            Value::U32(n) => {
                self.put_tagged_u32(*n);
            },
            Value::U8(n) => {
                self.put(TAG_U8);
                self.put(*n);
            },
            Value::U64(n) => {
                self.put(TAG_U64);
                write_be_u64(&mut self.buf, *n);
            },
            Value::S64(n) => {
                self.put(TAG_S64);
                write_be_i64(&mut self.buf, *n);
            },
            Value::SampleSpec(spec) => {
                self.put_sample_spec(spec);
            },
            Value::Arbitrary(bytes) => {
                if bytes.len() > u32::MAX as usize {
                    return Err(Error::new(ErrorKind::BlobTooLarge));
                }
                self.put_arbitrary(bytes);
            },
            Value::Boolean(b) => {
                if *b {
                    self.put(TAG_BOOLEAN_TRUE);
                } else {
                    self.put(TAG_BOOLEAN_FALSE);
                }
            },
            Value::Usec(n) => {
                self.put(TAG_USEC);
                write_be_u64(&mut self.buf, n.0);
            },
            Value::ChannelMap(map) => {
                self.put_channel_map(map);
            },
            Value::CVolume(cvolume) => {
                self.put_cvolume(cvolume);
            },
            Value::PropList(props) => {
                self.put_proplist(props);
            },
            Value::Volume(volume) => {
                self.put(TAG_VOLUME);
                self.put_u32(volume.as_u32());
            },
            Value::FormatInfo(info) => {
                self.put_format_info(info);
            },
        }
        proof {
            assert(final(self)@ =~= old(self)@ + spec_encode_value(value@));
        }
        Ok(())
    }

    /// Appends a single value to the tagstruct.
    ///
    /// To append multiple values at once, use `extend`. A value that cannot be written is not
    /// accepted: `to_tag_struct` reports it.
    pub fn write<T: ToTagStruct + VersionIndependent>(&mut self, value: T)
        requires
            value.spec_encodable(),
        ensures
            final(self)@ == old(self)@ + value.spec_encoding(0),
    {
        // this cannot fail when we're writing into a `Vec<u8>`
        value.to_tag_struct(self, 0).unwrap();
    }

    /// Appends a single value to the tagstruct in the form that a peer with `protocol_version`
    /// understands.
    pub fn write_versioned<T: ToTagStruct>(&mut self, value: T, protocol_version: u16)
        requires
            value.spec_encodable(),
        ensures
            final(self)@ == old(self)@ + value.spec_encoding(protocol_version),
    {
        value.to_tag_struct(self, protocol_version).unwrap();
    }

    /// Appends a value exactly as it is, whatever the protocol version.
    pub fn write_value(&mut self, value: &Value<'_>)
        requires
            spec_value_encodable(value@),
        ensures
            final(self)@ == old(self)@ + spec_encode_value(value@),
    {
        self.try_write(value).unwrap();
    }
}

impl ToTagStruct for bool {
    open spec fn spec_encoding(&self, protocol_version: u16) -> Seq<u8> {
        spec_encode_value(ValueView::Boolean(*self))
    }

    open spec fn spec_encodable(&self) -> bool {
        true
    }

    /// Writes the tag that stands for the boolean.
    fn to_tag_struct(&self, w: &mut TagStructWriter, protocol_version: u16) -> (r: Result<
        (),
        Error,
    >) {
        if *self {
            w.put(TAG_BOOLEAN_TRUE);
        } else {
            w.put(TAG_BOOLEAN_FALSE);
        }
        proof {
            assert(final(w)@ =~= old(w)@ + spec_encode_value(ValueView::Boolean(*self)));
        }
        Ok(())
    }
}

impl VersionIndependent for bool {

}

impl ToTagStruct for u8 {
    open spec fn spec_encoding(&self, protocol_version: u16) -> Seq<u8> {
        spec_encode_value(ValueView::U8(*self))
    }

    open spec fn spec_encodable(&self) -> bool {
        true
    }

    /// Writes an unsigned 8 bit value.
    fn to_tag_struct(&self, w: &mut TagStructWriter, protocol_version: u16) -> (r: Result<
        (),
        Error,
    >) {
        w.put(TAG_U8);
        w.put(*self);
        proof {
            assert(final(w)@ =~= old(w)@ + spec_encode_value(ValueView::U8(*self)));
        }
        Ok(())
    }
}

impl VersionIndependent for u8 {

}

impl ToTagStruct for u32 {
    open spec fn spec_encoding(&self, protocol_version: u16) -> Seq<u8> {
        spec_encode_value(ValueView::U32(*self))
    }

    open spec fn spec_encodable(&self) -> bool {
        true
    }

    /// Writes an unsigned 32 bit value.
    fn to_tag_struct(&self, w: &mut TagStructWriter, protocol_version: u16) -> (r: Result<
        (),
        Error,
    >) {
        w.put_tagged_u32(*self);
        Ok(())
    }
}

impl VersionIndependent for u32 {

}

impl ToTagStruct for u64 {
    open spec fn spec_encoding(&self, protocol_version: u16) -> Seq<u8> {
        spec_encode_value(ValueView::U64(*self))
    }

    open spec fn spec_encodable(&self) -> bool {
        true
    }

    /// Writes an unsigned 64 bit value.
    fn to_tag_struct(&self, w: &mut TagStructWriter, protocol_version: u16) -> (r: Result<
        (),
        Error,
    >) {
        w.put(TAG_U64);
        write_be_u64(&mut w.buf, *self);
        proof {
            assert(final(w)@ =~= old(w)@ + spec_encode_value(ValueView::U64(*self)));
        }
        Ok(())
    }
}

impl VersionIndependent for u64 {

}

impl ToTagStruct for i64 {
    open spec fn spec_encoding(&self, protocol_version: u16) -> Seq<u8> {
        spec_encode_value(ValueView::S64(*self))
    }

    open spec fn spec_encodable(&self) -> bool {
        true
    }

    /// Writes a signed 64 bit value.
    fn to_tag_struct(&self, w: &mut TagStructWriter, protocol_version: u16) -> (r: Result<
        (),
        Error,
    >) {
        w.put(TAG_S64);
        write_be_i64(&mut w.buf, *self);
        proof {
            assert(final(w)@ =~= old(w)@ + spec_encode_value(ValueView::S64(*self)));
        }
        Ok(())
    }
}

impl VersionIndependent for i64 {

}

impl<'a> ToTagStruct for PaStr<'a> {
    open spec fn spec_encoding(&self, protocol_version: u16) -> Seq<u8> {
        spec_encode_value(ValueView::String(self@))
    }

    open spec fn spec_encodable(&self) -> bool {
        true
    }

    /// Writes a string value.
    fn to_tag_struct(&self, w: &mut TagStructWriter, protocol_version: u16) -> (r: Result<
        (),
        Error,
    >) {
        w.put_string(*self);
        Ok(())
    }
}

impl<'a> VersionIndependent for PaStr<'a> {

}

impl<'a> ToTagStruct for Option<PaStr<'a>> {
    open spec fn spec_encoding(&self, protocol_version: u16) -> Seq<u8> {
        match *self {
            Some(s) => spec_encode_value(ValueView::String(s@)),
            None => spec_encode_value(ValueView::NullString),
        }
    }

    open spec fn spec_encodable(&self) -> bool {
        true
    }

    /// Writes a string value, or the null string for `None`.
    fn to_tag_struct(&self, w: &mut TagStructWriter, protocol_version: u16) -> (r: Result<
        (),
        Error,
    >) {
        match self {
            Some(s) => {
                w.put_string(*s);
            },
            None => {
                w.put(TAG_STRING_NULL);
                proof {
                    assert(final(w)@ =~= old(w)@ + spec_encode_value(ValueView::NullString));
                }
            },
        }
        Ok(())
    }
}

impl<'a> VersionIndependent for Option<PaStr<'a>> {

}

impl ToTagStruct for UnicodeCString {
    open spec fn spec_encoding(&self, protocol_version: u16) -> Seq<u8> {
        spec_encode_value(ValueView::String(self@))
    }

    open spec fn spec_encodable(&self) -> bool {
        true
    }

    /// Writes a string value.
    fn to_tag_struct(&self, w: &mut TagStructWriter, protocol_version: u16) -> (r: Result<
        (),
        Error,
    >) {
        w.put_string(self.as_pastr());
        Ok(())
    }
}

impl VersionIndependent for UnicodeCString {

}

impl ToTagStruct for PaString {
    open spec fn spec_encoding(&self, protocol_version: u16) -> Seq<u8> {
        spec_encode_value(ValueView::String(self@))
    }

    open spec fn spec_encodable(&self) -> bool {
        true
    }

    /// Writes a string value.
    fn to_tag_struct(&self, w: &mut TagStructWriter, protocol_version: u16) -> (r: Result<
        (),
        Error,
    >) {
        w.put_string(self.as_pastr());
        Ok(())
    }
}

impl VersionIndependent for PaString {

}

impl ToTagStruct for Microseconds {
    open spec fn spec_encoding(&self, protocol_version: u16) -> Seq<u8> {
        spec_encode_value(ValueView::Usec(self.0))
    }

    open spec fn spec_encodable(&self) -> bool {
        true
    }

    /// Writes a number of microseconds.
    fn to_tag_struct(&self, w: &mut TagStructWriter, protocol_version: u16) -> (r: Result<
        (),
        Error,
    >) {
        w.put(TAG_USEC);
        write_be_u64(&mut w.buf, self.0);
        proof {
            assert(final(w)@ =~= old(w)@ + spec_encode_value(ValueView::Usec(self.0)));
        }
        Ok(())
    }
}

impl VersionIndependent for Microseconds {

}

impl<'a> ToTagStruct for &'a [u8] {
    open spec fn spec_encoding(&self, protocol_version: u16) -> Seq<u8> {
        spec_encode_value(ValueView::Arbitrary((*self)@))
    }

    open spec fn spec_encodable(&self) -> bool {
        (*self)@.len() <= u32::MAX
    }

    /// Writes a blob, whose length has to fit in 32 bits.
    fn to_tag_struct(&self, w: &mut TagStructWriter, protocol_version: u16) -> (r: Result<
        (),
        Error,
    >) {
        if self.len() > u32::MAX as usize {
            return Err(Error::new(ErrorKind::BlobTooLarge));
        }
        w.put_arbitrary(*self);
        Ok(())
    }
}

impl<'a> VersionIndependent for &'a [u8] {

}

impl ToTagStruct for PropList {
    open spec fn spec_encoding(&self, protocol_version: u16) -> Seq<u8> {
        spec_encode_value(ValueView::PropList(self@))
    }

    open spec fn spec_encodable(&self) -> bool {
        true
    }

    /// Writes a property list.
    fn to_tag_struct(&self, w: &mut TagStructWriter, protocol_version: u16) -> (r: Result<
        (),
        Error,
    >) {
        w.put_proplist(self);
        Ok(())
    }
}

impl VersionIndependent for PropList {

}

impl ToTagStruct for Volume {
    open spec fn spec_encoding(&self, protocol_version: u16) -> Seq<u8> {
        spec_encode_value(ValueView::Volume(self@))
    }

    open spec fn spec_encodable(&self) -> bool {
        true
    }

    /// Writes a single volume.
    fn to_tag_struct(&self, w: &mut TagStructWriter, protocol_version: u16) -> (r: Result<
        (),
        Error,
    >) {
        w.put(TAG_VOLUME);
        w.put_u32(self.as_u32());
        proof {
            assert(final(w)@ =~= old(w)@ + spec_encode_value(ValueView::Volume(self@)));
        }
        Ok(())
    }
}

impl VersionIndependent for Volume {

}

impl ToTagStruct for SampleSpec {
    open spec fn spec_encoding(&self, protocol_version: u16) -> Seq<u8> {
        spec_encode_value(ValueView::SampleSpec(spec_downgrade(self@, protocol_version)))
    }

    open spec fn spec_encodable(&self) -> bool {
        true
    }

    /// Writes a sample specification, downgraded for the protocol version.
    fn to_tag_struct(&self, w: &mut TagStructWriter, protocol_version: u16) -> (r: Result<
        (),
        Error,
    >) {
        let downgraded = self.protocol_downgrade(protocol_version);
        w.put_sample_spec(&downgraded);
        Ok(())
    }
}

impl ToTagStruct for ChannelMap {
    open spec fn spec_encoding(&self, protocol_version: u16) -> Seq<u8> {
        spec_encode_value(ValueView::ChannelMap(self@))
    }

    open spec fn spec_encodable(&self) -> bool {
        true
    }

    /// Writes a channel map.
    fn to_tag_struct(&self, w: &mut TagStructWriter, protocol_version: u16) -> (r: Result<
        (),
        Error,
    >) {
        w.put_channel_map(self);
        Ok(())
    }
}

impl VersionIndependent for ChannelMap {

}

impl ToTagStruct for FormatInfo {
    open spec fn spec_encoding(&self, protocol_version: u16) -> Seq<u8> {
        spec_encode_value(ValueView::FormatInfo(self@))
    }

    open spec fn spec_encodable(&self) -> bool {
        true
    }

    /// Writes a format info.
    fn to_tag_struct(&self, w: &mut TagStructWriter, protocol_version: u16) -> (r: Result<
        (),
        Error,
    >) {
        w.put_format_info(self);
        Ok(())
    }
}

impl VersionIndependent for FormatInfo {

}

impl ToTagStruct for CVolume {
    open spec fn spec_encoding(&self, protocol_version: u16) -> Seq<u8> {
        spec_encode_value(ValueView::CVolume(self@))
    }

    open spec fn spec_encodable(&self) -> bool {
        true
    }

    /// Writes a list of channel volumes.
    fn to_tag_struct(&self, w: &mut TagStructWriter, protocol_version: u16) -> (r: Result<
        (),
        Error,
    >) {
        w.put_cvolume(self);
        Ok(())
    }
}

impl VersionIndependent for CVolume {

}

impl<'a> ToTagStruct for Value<'a> {
    open spec fn spec_encoding(&self, protocol_version: u16) -> Seq<u8> {
        spec_encode_value(spec_downgrade_value(self@, protocol_version))
    }

    open spec fn spec_encodable(&self) -> bool {
        spec_value_encodable(self@)
    }

    /// Writes a value, a sample specification downgraded for the protocol version.
    fn to_tag_struct(&self, w: &mut TagStructWriter, protocol_version: u16) -> (r: Result<
        (),
        Error,
    >) {
        match self {
            Value::SampleSpec(spec) => {
                let downgraded = spec.protocol_downgrade(protocol_version);
                w.put_sample_spec(&downgraded);
                Ok(())
            },
            _ => w.try_write(self),
        }
    }
}

impl<'a, T: ?Sized + ToTagStruct> ToTagStruct for &'a T {
    open spec fn spec_encoding(&self, protocol_version: u16) -> Seq<u8> {
        (**self).spec_encoding(protocol_version)
    }

    open spec fn spec_encodable(&self) -> bool {
        (**self).spec_encodable()
    }

    /// Writes what the reference points to.
    fn to_tag_struct(&self, w: &mut TagStructWriter, protocol_version: u16) -> (r: Result<
        (),
        Error,
    >) {
        (**self).to_tag_struct(w, protocol_version)
    }
}

impl<'a, T: ?Sized + VersionIndependent> VersionIndependent for &'a T {

}

} // verus!
