//! Reading values from the bytes of a tagstruct.

use vstd::prelude::*;
use crate::types::tagstruct::grammar::Parsed;
use crate::types::tagstruct::grammar::TAG_ARBITRARY;
use crate::types::tagstruct::grammar::TAG_BOOLEAN_FALSE;
use crate::types::tagstruct::grammar::TAG_BOOLEAN_TRUE;
use crate::types::tagstruct::grammar::TAG_CHANNEL_MAP;
use crate::types::tagstruct::grammar::TAG_CVOLUME;
use crate::types::tagstruct::grammar::TAG_FORMAT_INFO;
use crate::types::tagstruct::grammar::TAG_PROPLIST;
use crate::types::tagstruct::grammar::TAG_S64;
use crate::types::tagstruct::grammar::TAG_SAMPLE_SPEC;
use crate::types::tagstruct::grammar::TAG_STRING;
use crate::types::tagstruct::grammar::TAG_STRING_NULL;
use crate::types::tagstruct::grammar::TAG_TIMEVAL;
use crate::types::tagstruct::grammar::TAG_U32;
use crate::types::tagstruct::grammar::TAG_U64;
use crate::types::tagstruct::grammar::TAG_U8;
use crate::types::tagstruct::grammar::TAG_USEC;
use crate::types::tagstruct::grammar::TAG_VOLUME;
use crate::types::tagstruct::grammar::ValueView;
use crate::types::tagstruct::grammar::is_tag;
use crate::types::tagstruct::grammar::lemma_first_nul_at;
use crate::types::tagstruct::grammar::lemma_first_nul_none;
use crate::types::tagstruct::grammar::lemma_read_arbitrary_bounds;
use crate::types::tagstruct::grammar::lemma_read_string_bounds;
use crate::types::tagstruct::grammar::parsed_shift;
use crate::types::tagstruct::grammar::spec_arbitrary_body;
use crate::types::tagstruct::grammar::spec_channel_map_body;
use crate::types::tagstruct::grammar::spec_cvolume_body;
use crate::types::tagstruct::grammar::spec_format_info_body;
use crate::types::tagstruct::grammar::spec_i64_body;
use crate::types::tagstruct::grammar::spec_mismatch;
use crate::types::tagstruct::grammar::spec_positions;
use crate::types::tagstruct::grammar::spec_positions_after;
use crate::types::tagstruct::grammar::spec_props_body;
use crate::types::tagstruct::grammar::spec_read;
use crate::types::tagstruct::grammar::spec_read_arbitrary;
use crate::types::tagstruct::grammar::spec_read_bool;
use crate::types::tagstruct::grammar::spec_read_channel_map;
use crate::types::tagstruct::grammar::spec_read_cvolume;
use crate::types::tagstruct::grammar::spec_read_format_info;
use crate::types::tagstruct::grammar::spec_read_i64;
use crate::types::tagstruct::grammar::spec_read_proplist;
use crate::types::tagstruct::grammar::spec_read_sample_spec;
use crate::types::tagstruct::grammar::spec_read_sized_arbitrary;
use crate::types::tagstruct::grammar::spec_read_string;
use crate::types::tagstruct::grammar::spec_read_string_non_null;
use crate::types::tagstruct::grammar::spec_read_u32;
use crate::types::tagstruct::grammar::spec_read_u64;
use crate::types::tagstruct::grammar::spec_read_u8;
use crate::types::tagstruct::grammar::spec_read_usec;
use crate::types::tagstruct::grammar::spec_read_volume;
use crate::types::tagstruct::grammar::spec_sample_spec_body;
use crate::types::tagstruct::grammar::spec_string_body;
use crate::types::tagstruct::grammar::spec_u32_body;
use crate::types::tagstruct::grammar::spec_u64_body;
use crate::types::tagstruct::grammar::spec_u8_body;
use crate::types::tagstruct::grammar::spec_volume_body;
use vstd::slice::slice_subrange;
use crate::error::Error;
use crate::error::ErrorKind;
use crate::string::find_byte;
use crate::string::PaStr;
use crate::string::UnicodeCString;
use crate::types::proplist::MAX_PROP_SIZE;
use vstd::slice::slice_to_vec;
use crate::time::Microseconds;
use crate::types::channel_map::ChannelMap;
use crate::types::channel_map::ChannelPosition;
use crate::types::cvolume::CVolume;
use crate::types::cvolume::Volume;
use crate::types::format_info::FormatInfo;
use crate::types::proplist::PropList;
use crate::types::proplist::PropSeq;
use crate::types::sample_spec::SampleFormat;
use crate::types::sample_spec::SampleSpec;

use crate::types::cvolume::spec_clamp_volume;
use crate::types::sample_spec::CHANNELS_MAX;
use crate::wire::be_u32;
use crate::wire::read_be_i64;
use crate::wire::read_be_u32;
use crate::wire::read_be_u64;

verus! {

/// Enum of the different values that can be stored in a tagstruct.
#[derive(Debug)]
pub enum Value<'a> {
    /// Zero-terminated string without prefix length.
    ///
    /// Per construction, the string data cannot contain any nul bytes.
    String(PaStr<'a>),
    /// Encodes a string that's a null pointer.
    ///
    /// This is distinguishable from an empty string and perhaps analogous to `Option::None`.
    NullString,
    U32(u32),
    U8(u8),
    U64(u64),
    S64(i64),
    SampleSpec(SampleSpec),
    /// Byte Blob with prefix length.
    Arbitrary(&'a [u8]),
    Boolean(bool),
    Usec(Microseconds),
    ChannelMap(ChannelMap),
    CVolume(CVolume),
    PropList(PropList),
    Volume(Volume),
    FormatInfo(FormatInfo),
}

impl<'a> View for Value<'a> {
    type V = ValueView;

    open spec fn view(&self) -> ValueView {
        match *self {
            Value::String(s) => ValueView::String(s@),
            Value::NullString => ValueView::NullString,
            Value::U32(n) => ValueView::U32(n),
            Value::U8(n) => ValueView::U8(n),
            Value::U64(n) => ValueView::U64(n),
            Value::S64(n) => ValueView::S64(n),
            Value::SampleSpec(s) => ValueView::SampleSpec(s@),
            Value::Arbitrary(b) => ValueView::Arbitrary(b@),
            Value::Boolean(b) => ValueView::Boolean(b),
            Value::Usec(m) => ValueView::Usec(m.0),
            Value::ChannelMap(m) => ValueView::ChannelMap(m@),
            Value::CVolume(c) => ValueView::CVolume(c@),
            Value::PropList(p) => ValueView::PropList(p@),
            Value::Volume(v) => ValueView::Volume(v@),
            Value::FormatInfo(f) => ValueView::FormatInfo(f@),
        }
    }
}

/// Streaming zero-copy reader for untrusted data.
///
/// The data stream is parsed and checked on-the-fly so everything in here returns `Result`s.
/// After an error the position of the reader is wherever the error was found.
#[derive(Clone, Copy, Debug)]
pub struct TagStructReader<'a> {
    data: &'a [u8],
    pos: usize,
}

impl<'a> TagStructReader<'a> {
    #[verifier::type_invariant]
    spec fn well_formed(&self) -> bool {
        self.pos <= self.data@.len()
    }

    /// All bytes of the data stream, read or not.
    pub closed spec fn data(&self) -> Seq<u8> {
        self.data@
    }

    /// The number of bytes that were read.
    pub closed spec fn position(&self) -> int {
        self.pos as int
    }

    /// The bytes that are still to be read.
    pub open spec fn remaining(&self) -> Seq<u8> {
        self.data().skip(self.position())
    }

    /// Whether `self` is what `before` becomes by reading `n` bytes.
    pub open spec fn advanced(&self, before: &Self, n: int) -> bool {
        &&& self.data() == before.data()
        &&& self.position() == before.position() + n
        &&& 0 <= n <= before.remaining().len()
        &&& self.remaining() == before.remaining().skip(n)
    }

    /// A reader is what it becomes by reading nothing.
    pub proof fn lemma_advanced_zero(&self)
        ensures
            self.advanced(self, 0),
    {
        assert(self.remaining().skip(0) =~= self.remaining());
    }

    /// Reading `n` bytes and then `m` bytes is reading `n + m` bytes.
    pub proof fn lemma_advanced_twice(&self, before: &Self, first: &Self, n: int, m: int)
        requires
            first.advanced(before, n),
            self.advanced(first, m),
        ensures
            self.advanced(before, n + m),
    {
        assert(before.remaining().skip(n).skip(m) =~= before.remaining().skip(n + m));
    }

    /// Reading on from where an earlier reading ended is one reading from where that began.
    pub proof fn lemma_advanced_chain(&self, before: &Self, first: &Self)
        requires
            first.advanced(before, first.position() - before.position()),
            self.advanced(first, self.position() - first.position()),
        ensures
            self.advanced(before, self.position() - before.position()),
            self.remaining() == before.remaining().skip(self.position() - before.position()),
    {
        self.lemma_advanced_twice(
            before,
            first,
            first.position() - before.position(),
            self.position() - first.position(),
        );
    }

    /// Creates a tagstruct reader from raw bytes (eg. a packet payload).
    pub fn from_raw(raw: &'a [u8]) -> (reader: TagStructReader<'a>)
        ensures
            reader.data() == raw@,
            reader.position() == 0,
            reader.remaining() == raw@,
    {
        assert(raw@.skip(0) =~= raw@);
        TagStructReader { data: raw, pos: 0 }
    }

    /// Resets the reader to the beginning of the associated data stream.
    pub fn reset(&mut self)
        ensures
            final(self).data() == old(self).data(),
            final(self).position() == 0,
            final(self).remaining() == old(self).data(),
    {
        assert(self.data@.skip(0) =~= self.data@);
        self.pos = 0;
    }

    /// Creates an identical `TagStruct` with the data pointer reset to the beginning.
    pub fn to_reset(&self) -> (reader: TagStructReader<'a>)
        ensures
            reader.data() == self.data(),
            reader.position() == 0,
            reader.remaining() == self.data(),
    {
        TagStructReader::from_raw(self.data)
    }

    /// The number of bytes that are still to be read.
    pub fn remaining_len(&self) -> (n: usize)
        ensures
            n == self.remaining().len(),
            self.position() + n == self.data().len(),
    {
        proof {
            use_type_invariant(self);
        }
        self.data.len() - self.pos
    }

    /// The next byte, which is not read.
    fn peek(&self) -> (b: Option<u8>)
        ensures
            match b {
                Some(b) => self.remaining().len() > 0 && b == self.remaining()[0],
                None => self.remaining().len() == 0,
            },
    {
        proof {
            use_type_invariant(self);
        }
        if self.pos < self.data.len() {
            Some(self.data[self.pos])
        } else {
            None
        }
    }

    /// Skips bytes that were looked at before.
    fn skip(&mut self, bytes: usize)
        requires
            bytes <= old(self).remaining().len(),
        ensures
            final(self).advanced(old(self), bytes as int),
    {
        proof {
            use_type_invariant(&*self);
            assert(self.data@.skip(self.pos as int).skip(bytes as int) =~= self.data@.skip(
                self.pos + bytes,
            ));
        }
        let end = self.data.len();
        assert(self.pos + bytes <= end);
        self.pos = self.pos + bytes;
    }

    /// Read a given number of bytes from the data stream.
    ///
    /// Returns an error if the stream ends prematurely.
    fn read_n(&mut self, bytes: usize) -> (r: Result<&'a [u8], Error>)
        ensures
            match r {
                Ok(slice) => bytes <= old(self).remaining().len() && slice@ == old(
                    self,
                ).remaining().take(bytes as int) && final(self).advanced(old(self), bytes as int),
                Err(e) => bytes > old(self).remaining().len() && e.kind == ErrorKind::UnexpectedEof
                    && final(self).advanced(old(self), 0),
            },
    {
        proof {
            use_type_invariant(&*self);
            assert(self.remaining().skip(0) =~= self.remaining());
        }
        let pos = self.pos;
        let left = self.data.len() - pos;
        if bytes > left {
            return Err(Error::new(ErrorKind::UnexpectedEof));
        }
        let slice = slice_subrange(self.data, pos, pos + bytes);
        proof {
            assert(slice@ =~= self.remaining().take(bytes as int));
        }
        self.skip(bytes);
        Ok(slice)
    }

    /// Read bytes from the data stream until a specific termination byte is reached.
    ///
    /// The termination byte is contained in the returned slice.
    fn read_until(&mut self, until: u8) -> (r: Result<&'a [u8], Error>)
        ensures
            match r {
                Ok(slice) => {
                    &&& slice@.len() > 0
                    &&& slice@.last() == until
                    &&& forall|i: int| 0 <= i < slice@.len() - 1 ==> slice@[i] != until
                    &&& slice@ == old(self).remaining().take(slice@.len() as int)
                    &&& final(self).advanced(old(self), slice@.len() as int)
                },
                Err(e) => {
                    &&& e.kind == ErrorKind::MissingTerminator
                    &&& forall|i: int|
                        0 <= i < old(self).remaining().len() ==> old(self).remaining()[i] != until
                    &&& final(self).advanced(old(self), 0)
                },
            },
    {
        proof {
            use_type_invariant(&*self);
            assert(self.remaining().skip(0) =~= self.remaining());
        }
        let pos = self.pos;
        // The length is read so that the prover knows it to fit where `end + 1` must fit.
        let total = self.data.len();
        match find_byte(self.data, pos, until) {
            None => Err(Error::new(ErrorKind::MissingTerminator)),
            Some(end) => {
                let r = self.read_n(end - pos + 1);
                proof {
                    if let Ok(slice) = r {
                        assert(slice@.last() == self.data@[end as int]);
                    }
                }
                r
            },
        }
    }

    /// Reads the body of a string.
    fn string_body(&mut self) -> (r: Result<PaStr<'a>, Error>)
        ensures
            final(self).data() == old(self).data(),
            match spec_string_body(old(self).remaining()) {
                Ok((v, n)) => r matches Ok(s) && s@ == v && final(self).advanced(old(self), n),
                Err(k) => r matches Err(e) && e.kind == k,
            },
    {
        let ghost s = self.remaining();
        match self.read_until(0) {
            Err(e) => {
                proof {
                    lemma_first_nul_none(s);
                }
                Err(e)
            },
            Ok(slice) => {
                proof {
                    assert forall|i: int| 0 <= i < slice@.len() - 1 implies s[i] != 0 by {
                        assert(s[i] == slice@[i]);
                    }
                    lemma_first_nul_at(s, slice@.len() - 1);
                    assert(slice@.drop_last() =~= s.take(slice@.len() - 1));
                    assert forall|i: int| 0 <= i < slice@.drop_last().len() implies slice@.drop_last()[i]
                        != 0 by {
                        assert(slice@.drop_last()[i] == slice@[i]);
                    }
                }
                match PaStr::from_bytes_with_nul(slice) {
                    Ok(string) => Ok(string),
                    Err(_) => Err(Error::new(ErrorKind::MissingTerminator)),
                }
            },
        }
    }

    /// Reads one byte.
    fn u8_body(&mut self) -> (r: Result<u8, Error>)
        ensures
            final(self).data() == old(self).data(),
            match spec_u8_body(old(self).remaining()) {
                Ok((v, n)) => r == Ok::<u8, Error>(v) && final(self).advanced(old(self), n),
                Err(k) => r matches Err(e) && e.kind == k,
            },
    {
        match self.read_n(1) {
            Ok(slice) => Ok(slice[0]),
            Err(e) => Err(e),
        }
    }

    /// Reads 4 bytes as an unsigned integer.
    fn u32_body(&mut self) -> (r: Result<u32, Error>)
        ensures
            final(self).data() == old(self).data(),
            match spec_u32_body(old(self).remaining()) {
                Ok((v, n)) => r == Ok::<u32, Error>(v) && final(self).advanced(old(self), n),
                Err(k) => r matches Err(e) && e.kind == k,
            },
    {
        match self.read_n(4) {
            Ok(slice) => Ok(read_be_u32(slice)),
            Err(e) => Err(e),
        }
    }

    /// Reads 8 bytes as an unsigned integer.
    fn u64_body(&mut self) -> (r: Result<u64, Error>)
        ensures
            final(self).data() == old(self).data(),
            match spec_u64_body(old(self).remaining()) {
                Ok((v, n)) => r == Ok::<u64, Error>(v) && final(self).advanced(old(self), n),
                Err(k) => r matches Err(e) && e.kind == k,
            },
    {
        let ghost s = self.remaining();
        match self.read_n(8) {
            Ok(slice) => {
                proof {
                    assert(slice@.skip(4) =~= s.skip(4).take(4));
                }
                Ok(read_be_u64(slice))
            },
            Err(e) => Err(e),
        }
    }

    /// Reads 8 bytes as a signed integer.
    fn i64_body(&mut self) -> (r: Result<i64, Error>)
        ensures
            final(self).data() == old(self).data(),
            match spec_i64_body(old(self).remaining()) {
                Ok((v, n)) => r == Ok::<i64, Error>(v) && final(self).advanced(old(self), n),
                Err(k) => r matches Err(e) && e.kind == k,
            },
    {
        let ghost s = self.remaining();
        match self.read_n(8) {
            Ok(slice) => {
                proof {
                    assert(slice@.skip(4) =~= s.skip(4).take(4));
                }
                Ok(read_be_i64(slice))
            },
            Err(e) => Err(e),
        }
    }

    /// Reads the body of a blob.
    fn arbitrary_body(&mut self) -> (r: Result<&'a [u8], Error>)
        ensures
            final(self).data() == old(self).data(),
            match spec_arbitrary_body(old(self).remaining()) {
                Ok((v, n)) => r matches Ok(b) && b@ == v && final(self).advanced(old(self), n),
                Err(k) => r matches Err(e) && e.kind == k,
            },
    {
        let ghost s = self.remaining();
        // prefix length u32
        let len = match self.u32_body() {
            Ok(len) => len,
            Err(e) => {
                return Err(e);
            },
        };
        match self.read_n(len as usize) {
            Ok(slice) => {
                proof {
                    assert(slice@ =~= s.subrange(4, 4 + len));
                    assert(s.skip(4).skip(len as int) =~= s.skip(4 + len));
                }
                Ok(slice)
            },
            Err(e) => Err(e),
        }
    }

    /// Reads the body of a sample specification.
    fn sample_spec_body(&mut self) -> (r: Result<SampleSpec, Error>)
        ensures
            final(self).data() == old(self).data(),
            match spec_sample_spec_body(old(self).remaining()) {
                Ok((v, n)) => r matches Ok(s) && s@ == v && final(self).advanced(old(self), n),
                Err(k) => r matches Err(e) && e.kind == k,
            },
    {
        let ghost s = self.remaining();
        let slice = match self.read_n(6) {
            Ok(slice) => slice,
            Err(e) => {
                return Err(e);
            },
        };
        let raw_format = slice[0];
        let channels = slice[1];
        let sample_rate = read_be_u32(slice_subrange(slice, 2, 6));
        proof {
            assert(slice@.subrange(2, 6) =~= s.skip(2).take(4));
        }
        let format = match SampleFormat::from_u8(raw_format) {
            Some(format) => format,
            None => {
                return Err(Error::new(ErrorKind::InvalidSampleFormat(raw_format)));
            },
        };
        match SampleSpec::new_checked(format, channels, sample_rate) {
            Ok(spec) => Ok(spec),
            Err(crate::types::sample_spec::InvalidSampleSpecError::ChannelCount(c)) => Err(
                Error::new(ErrorKind::InvalidChannelCount(c)),
            ),
            Err(crate::types::sample_spec::InvalidSampleSpecError::SampleRate(rate)) => Err(
                Error::new(ErrorKind::InvalidSampleRate(rate)),
            ),
        }
    }

    /// Reads the body of a single volume.
    fn volume_body(&mut self) -> (r: Result<Volume, Error>)
        ensures
            final(self).data() == old(self).data(),
            match spec_volume_body(old(self).remaining()) {
                Ok((v, n)) => r matches Ok(vol) && vol@ == v && final(self).advanced(old(self), n),
                Err(k) => r matches Err(e) && e.kind == k,
            },
    {
        match self.u32_body() {
            Ok(raw) => Ok(Volume::from_u32_clamped(raw)),
            Err(e) => Err(e),
        }
    }

    /// Reads the body of a channel map.
    #[verifier::loop_isolation(false)]
    #[verifier::rlimit(40)]
    fn channel_map_body(&mut self) -> (r: Result<ChannelMap, Error>)
        ensures
            final(self).data() == old(self).data(),
            match spec_channel_map_body(old(self).remaining()) {
                Ok((v, n)) => r matches Ok(m) && m@ == v && final(self).advanced(old(self), n),
                Err(k) => r matches Err(e) && e.kind == k,
            },
    {
        let ghost s = self.remaining();
        let channels = match self.u8_body() {
            Ok(channels) => channels,
            Err(e) => {
                return Err(e);
            },
        };
        if channels > CHANNELS_MAX {
            return Err(Error::new(ErrorKind::ChannelMapTooLarge(channels)));
        }
        let ghost body = s.skip(1);
        let ghost start = *self;
        let mut map = ChannelMap::new();
        let mut i: u8 = 0;
        proof {
            start.lemma_advanced_zero();
            assert(body.skip(0) =~= body);
            if let Ok(rest) = spec_positions(body, channels as nat) {
                assert(map@ + rest =~= rest);
            }
        }
        while i < channels
            invariant
                0 <= i <= channels <= CHANNELS_MAX,
                self.advanced(&start, i as int),
                start.remaining() == body,
                map@.len() == i,
                spec_positions(body, channels as nat) == spec_positions_after(
                    map@,
                    spec_positions(body.skip(i as int), (channels - i) as nat),
                ),
            decreases channels - i,
        {
            let ghost here = *self;
            let ghost rest_bytes = body.skip(i as int);
            let raw = match self.u8_body() {
                Ok(raw) => raw,
                Err(e) => {
                    return Err(e);
                },
            };
            let position = match ChannelPosition::from_u8(raw) {
                Some(position) => position,
                None => {
                    return Err(Error::new(ErrorKind::InvalidChannelPosition(raw)));
                },
            };
            proof {
                self.lemma_advanced_twice(&start, &here, i as int, 1);
                assert(rest_bytes.skip(1) =~= body.skip(i + 1));
                if let Ok(rest) = spec_positions(rest_bytes.skip(1), (channels - i - 1) as nat) {
                    assert(map@ + (seq![position] + rest) =~= map@.push(position) + rest);
                }
            }
            map.push(position).unwrap();
            i = i + 1;
        }
        proof {
            assert(map@ + Seq::<ChannelPosition>::empty() =~= map@);
            self.lemma_advanced_twice(old(self), &start, 1, channels as int);
        }
        Ok(map)
    }

    /// Reads the body of a list of channel volumes.
    #[verifier::loop_isolation(false)]
    #[verifier::rlimit(40)]
    fn cvolume_body(&mut self) -> (r: Result<CVolume, Error>)
        ensures
            final(self).data() == old(self).data(),
            match spec_cvolume_body(old(self).remaining()) {
                Ok((v, n)) => r matches Ok(c) && c@ == v && final(self).advanced(old(self), n),
                Err(k) => r matches Err(e) && e.kind == k,
            },
    {
        let ghost s = self.remaining();
        // Very similar to channel maps
        let channels = match self.u8_body() {
            Ok(channels) => channels,
            Err(e) => {
                return Err(e);
            },
        };
        if channels == 0 || channels > CHANNELS_MAX {
            return Err(Error::new(ErrorKind::InvalidVolumeCount(channels)));
        }
        if self.remaining_len() < 4 * (channels as usize) {
            return Err(Error::new(ErrorKind::UnexpectedEof));
        }
        let ghost body = s.skip(1);
        let ghost start = *self;
        let mut volumes = CVolume::new();
        let mut i: u8 = 0;
        proof {
            start.lemma_advanced_zero();
        }
        while i < channels
            invariant
                0 <= i <= channels <= CHANNELS_MAX,
                self.advanced(&start, 4 * i),
                start.remaining() == body,
                body.len() >= 4 * channels,
                volumes@.len() == i,
                forall|j: int|
                    0 <= j < i ==> volumes@[j] == spec_clamp_volume(
                        be_u32(#[trigger] s.skip(1 + 4 * j)),
                    ),
            decreases channels - i,
        {
            let ghost here = *self;
            let raw = match self.u32_body() {
                Ok(raw) => raw,
                Err(e) => {
                    return Err(e);
                },
            };
            proof {
                self.lemma_advanced_twice(&start, &here, 4 * i, 4);
                assert(body.skip(4 * i) =~= s.skip(1 + 4 * i));
            }
            volumes.push(Volume::from_u32_clamped(raw)).unwrap();
            i = i + 1;
        }
        proof {
            assert(volumes@ =~= Seq::new(
                channels as nat,
                |i: int| spec_clamp_volume(be_u32(s.skip(1 + 4 * i))),
            ));
            self.lemma_advanced_twice(old(self), &start, 1, 4 * channels);
        }
        Ok(volumes)
    }

    /// Takes the tag of the next value, which has to be `tag`.
    fn expect_tag(&mut self, tag: u8) -> (r: Result<(), Error>)
        ensures
            final(self).data() == old(self).data(),
            match r {
                Ok(()) => old(self).remaining().len() > 0 && old(self).remaining()[0] == tag
                    && final(self).advanced(old(self), 1),
                Err(e) => {
                    &&& final(self).advanced(old(self), 0)
                    &&& if old(self).remaining().len() == 0 {
                        e.kind == ErrorKind::UnexpectedEnd
                    } else {
                        old(self).remaining()[0] != tag && e.kind == spec_mismatch(
                            old(self).remaining()[0],
                        )
                    }
                },
            },
    {
        proof {
            assert(self.remaining().skip(0) =~= self.remaining());
        }
        match self.peek() {
            None => Err(Error::new(ErrorKind::UnexpectedEnd)),
            Some(found) => {
                if found == tag {
                    self.skip(1);
                    Ok(())
                } else {
                    Err(mismatch(found))
                }
            },
        }
    }

    /// Reads the next value, which has to be an unsigned 32 bit integer.
    pub fn read_u32(&mut self) -> (r: Result<u32, Error>)
        ensures
            final(self).data() == old(self).data(),
            match spec_read_u32(old(self).remaining()) {
                Ok((v, n)) => r matches Ok(x) && x == v && final(self).advanced(old(self), n),
                Err(k) => r matches Err(e) && e.kind == k,
            },
    {
        let ghost before = *self;
        match self.expect_tag(TAG_U32) {
            Err(e) => {
                return Err(e);
            },
            Ok(()) => {},
        }
        let ghost behind_tag = *self;
        let r = self.u32_body();
        proof {
            if let Ok((v, n)) = spec_read_u32(before.remaining()) {
                self.lemma_advanced_twice(&before, &behind_tag, 1, n - 1);
            }
        }
        r
    }

    /// Reads the next value, which has to be an unsigned 8 bit integer.
    pub fn read_u8(&mut self) -> (r: Result<u8, Error>)
        ensures
            final(self).data() == old(self).data(),
            match spec_read_u8(old(self).remaining()) {
                Ok((v, n)) => r matches Ok(x) && x == v && final(self).advanced(old(self), n),
                Err(k) => r matches Err(e) && e.kind == k,
            },
    {
        let ghost before = *self;
        match self.expect_tag(TAG_U8) {
            Err(e) => {
                return Err(e);
            },
            Ok(()) => {},
        }
        let ghost behind_tag = *self;
        let r = self.u8_body();
        proof {
            if let Ok((v, n)) = spec_read_u8(before.remaining()) {
                self.lemma_advanced_twice(&before, &behind_tag, 1, n - 1);
            }
        }
        r
    }

    /// Reads the next value, which has to be an unsigned 64 bit integer.
    pub fn read_u64(&mut self) -> (r: Result<u64, Error>)
        ensures
            final(self).data() == old(self).data(),
            match spec_read_u64(old(self).remaining()) {
                Ok((v, n)) => r matches Ok(x) && x == v && final(self).advanced(old(self), n),
                Err(k) => r matches Err(e) && e.kind == k,
            },
    {
        let ghost before = *self;
        match self.expect_tag(TAG_U64) {
            Err(e) => {
                return Err(e);
            },
            Ok(()) => {},
        }
        let ghost behind_tag = *self;
        let r = self.u64_body();
        proof {
            if let Ok((v, n)) = spec_read_u64(before.remaining()) {
                self.lemma_advanced_twice(&before, &behind_tag, 1, n - 1);
            }
        }
        r
    }

    /// Reads the next value, which has to be a signed 64 bit integer.
    pub fn read_i64(&mut self) -> (r: Result<i64, Error>)
        ensures
            final(self).data() == old(self).data(),
            match spec_read_i64(old(self).remaining()) {
                Ok((v, n)) => r matches Ok(x) && x == v && final(self).advanced(old(self), n),
                Err(k) => r matches Err(e) && e.kind == k,
            },
    {
        let ghost before = *self;
        match self.expect_tag(TAG_S64) {
            Err(e) => {
                return Err(e);
            },
            Ok(()) => {},
        }
        let ghost behind_tag = *self;
        let r = self.i64_body();
        proof {
            if let Ok((v, n)) = spec_read_i64(before.remaining()) {
                self.lemma_advanced_twice(&before, &behind_tag, 1, n - 1);
            }
        }
        r
    }

    /// Reads the next value, which has to be a blob.
    pub fn read_arbitrary(&mut self) -> (r: Result<&'a [u8], Error>)
        ensures
            final(self).data() == old(self).data(),
            match spec_read_arbitrary(old(self).remaining()) {
                Ok((v, n)) => r matches Ok(x) && x@ == v && final(self).advanced(old(self), n),
                Err(k) => r matches Err(e) && e.kind == k,
            },
    {
        let ghost before = *self;
        match self.expect_tag(TAG_ARBITRARY) {
            Err(e) => {
                return Err(e);
            },
            Ok(()) => {},
        }
        let ghost behind_tag = *self;
        let r = self.arbitrary_body();
        proof {
            if let Ok((v, n)) = spec_read_arbitrary(before.remaining()) {
                self.lemma_advanced_twice(&before, &behind_tag, 1, n - 1);
            }
        }
        r
    }

    /// Reads the next value, which has to be a string, and not the null string.
    pub fn read_string_non_null(&mut self) -> (r: Result<PaStr<'a>, Error>)
        ensures
            final(self).data() == old(self).data(),
            match spec_read_string_non_null(old(self).remaining()) {
                Ok((v, n)) => r matches Ok(x) && x@ == v && final(self).advanced(old(self), n),
                Err(k) => r matches Err(e) && e.kind == k,
            },
    {
        let ghost before = *self;
        match self.expect_tag(TAG_STRING) {
            Err(e) => {
                return Err(e);
            },
            Ok(()) => {},
        }
        let ghost behind_tag = *self;
        let r = self.string_body();
        proof {
            if let Ok((v, n)) = spec_read_string_non_null(before.remaining()) {
                self.lemma_advanced_twice(&before, &behind_tag, 1, n - 1);
            }
        }
        r
    }

    /// Reads the next value, which has to be a sample specification.
    pub fn read_sample_spec(&mut self) -> (r: Result<SampleSpec, Error>)
        ensures
            final(self).data() == old(self).data(),
            match spec_read_sample_spec(old(self).remaining()) {
                Ok((v, n)) => r matches Ok(x) && x@ == v && final(self).advanced(old(self), n),
                Err(k) => r matches Err(e) && e.kind == k,
            },
    {
        let ghost before = *self;
        match self.expect_tag(TAG_SAMPLE_SPEC) {
            Err(e) => {
                return Err(e);
            },
            Ok(()) => {},
        }
        let ghost behind_tag = *self;
        let r = self.sample_spec_body();
        proof {
            if let Ok((v, n)) = spec_read_sample_spec(before.remaining()) {
                self.lemma_advanced_twice(&before, &behind_tag, 1, n - 1);
            }
        }
        r
    }

    /// Reads the next value, which has to be a channel map.
    pub fn read_channel_map(&mut self) -> (r: Result<ChannelMap, Error>)
        ensures
            final(self).data() == old(self).data(),
            match spec_read_channel_map(old(self).remaining()) {
                Ok((v, n)) => r matches Ok(x) && x@ == v && final(self).advanced(old(self), n),
                Err(k) => r matches Err(e) && e.kind == k,
            },
    {
        let ghost before = *self;
        match self.expect_tag(TAG_CHANNEL_MAP) {
            Err(e) => {
                return Err(e);
            },
            Ok(()) => {},
        }
        let ghost behind_tag = *self;
        let r = self.channel_map_body();
        proof {
            if let Ok((v, n)) = spec_read_channel_map(before.remaining()) {
                self.lemma_advanced_twice(&before, &behind_tag, 1, n - 1);
            }
        }
        r
    }

    /// Reads the next value, which has to be a list of channel volumes.
    pub fn read_cvolume(&mut self) -> (r: Result<CVolume, Error>)
        ensures
            final(self).data() == old(self).data(),
            match spec_read_cvolume(old(self).remaining()) {
                Ok((v, n)) => r matches Ok(x) && x@ == v && final(self).advanced(old(self), n),
                Err(k) => r matches Err(e) && e.kind == k,
            },
    {
        let ghost before = *self;
        match self.expect_tag(TAG_CVOLUME) {
            Err(e) => {
                return Err(e);
            },
            Ok(()) => {},
        }
        let ghost behind_tag = *self;
        let r = self.cvolume_body();
        proof {
            if let Ok((v, n)) = spec_read_cvolume(before.remaining()) {
                self.lemma_advanced_twice(&before, &behind_tag, 1, n - 1);
            }
        }
        r
    }

    /// Reads the next value, which has to be a single volume.
    pub fn read_volume(&mut self) -> (r: Result<Volume, Error>)
        ensures
            final(self).data() == old(self).data(),
            match spec_read_volume(old(self).remaining()) {
                Ok((v, n)) => r matches Ok(x) && x@ == v && final(self).advanced(old(self), n),
                Err(k) => r matches Err(e) && e.kind == k,
            },
    {
        let ghost before = *self;
        match self.expect_tag(TAG_VOLUME) {
            Err(e) => {
                return Err(e);
            },
            Ok(()) => {},
        }
        let ghost behind_tag = *self;
        let r = self.volume_body();
        proof {
            if let Ok((v, n)) = spec_read_volume(before.remaining()) {
                self.lemma_advanced_twice(&before, &behind_tag, 1, n - 1);
            }
        }
        r
    }

    /// Reads the next value, which has to be a property list.
    pub fn read_proplist(&mut self) -> (r: Result<PropList, Error>)
        ensures
            final(self).data() == old(self).data(),
            match spec_read_proplist(old(self).remaining()) {
                Ok((v, n)) => r matches Ok(x) && x@ == v && final(self).advanced(old(self), n),
                Err(k) => r matches Err(e) && e.kind == k,
            },
    {
        let ghost before = *self;
        match self.expect_tag(TAG_PROPLIST) {
            Err(e) => {
                return Err(e);
            },
            Ok(()) => {},
        }
        let ghost behind_tag = *self;
        let r = self.props_body();
        proof {
            if let Ok((v, n)) = spec_read_proplist(before.remaining()) {
                self.lemma_advanced_twice(&before, &behind_tag, 1, n - 1);
            }
        }
        r
    }

    /// Reads the next value, which has to be a format info.
    pub fn read_format_info(&mut self) -> (r: Result<FormatInfo, Error>)
        ensures
            final(self).data() == old(self).data(),
            match spec_read_format_info(old(self).remaining()) {
                Ok((v, n)) => r matches Ok(x) && x@ == v && final(self).advanced(old(self), n),
                Err(k) => r matches Err(e) && e.kind == k,
            },
    {
        let ghost before = *self;
        match self.expect_tag(TAG_FORMAT_INFO) {
            Err(e) => {
                return Err(e);
            },
            Ok(()) => {},
        }
        let ghost behind_tag = *self;
        let r = self.format_info_body();
        proof {
            if let Ok((v, n)) = spec_read_format_info(before.remaining()) {
                self.lemma_advanced_twice(&before, &behind_tag, 1, n - 1);
            }
        }
        r
    }

    /// Reads the next value, which has to be a number of microseconds.
    pub fn read_usec(&mut self) -> (r: Result<Microseconds, Error>)
        ensures
            final(self).data() == old(self).data(),
            match spec_read_usec(old(self).remaining()) {
                Ok((v, n)) => r matches Ok(x) && x.0 == v && final(self).advanced(old(self), n),
                Err(k) => r matches Err(e) && e.kind == k,
            },
    {
        let ghost before = *self;
        match self.expect_tag(TAG_USEC) {
            Err(e) => {
                return Err(e);
            },
            Ok(()) => {},
        }
        let ghost behind_tag = *self;
        let r = self.u64_body();
        proof {
            if let Ok((v, n)) = spec_read_usec(before.remaining()) {
                self.lemma_advanced_twice(&before, &behind_tag, 1, n - 1);
            }
        }
        match r {
            Ok(n) => Ok(Microseconds(n)),
            Err(e) => Err(e),
        }
    }

    /// Reads the next value, which has to be a boolean.
    pub fn read_bool(&mut self) -> (r: Result<bool, Error>)
        ensures
            final(self).data() == old(self).data(),
            match spec_read_bool(old(self).remaining()) {
                Ok((v, n)) => r == Ok::<bool, Error>(v) && final(self).advanced(old(self), n),
                Err(k) => r matches Err(e) && e.kind == k,
            },
    {
        match self.peek() {
            None => Err(Error::new(ErrorKind::UnexpectedEnd)),
            Some(tag) => {
                if tag == TAG_BOOLEAN_TRUE {
                    self.skip(1);
                    Ok(true)
                } else if tag == TAG_BOOLEAN_FALSE {
                    self.skip(1);
                    Ok(false)
                } else {
                    Err(mismatch(tag))
                }
            },
        }
    }

    /// Reads a `Value::Arbitrary` with an expected size.
    ///
    /// If the next value is not a `Value::Arbitrary` or has the wrong length, or the tagstruct is
    /// at EOF, an error is returned.
    pub fn read_sized_arbitrary(&mut self, expected_length: u32) -> (r: Result<&'a [u8], Error>)
        ensures
            final(self).data() == old(self).data(),
            match spec_read_sized_arbitrary(old(self).remaining(), expected_length) {
                Ok((v, n)) => r matches Ok(x) && x@ == v && final(self).advanced(old(self), n),
                Err(k) => r matches Err(e) && e.kind == k,
            },
    {
        let a = match self.read_arbitrary() {
            Ok(a) => a,
            Err(e) => {
                return Err(e);
            },
        };
        if a.len() != expected_length as usize {
            return Err(Error::new(ErrorKind::PropLengthMismatch));
        }
        Ok(a)
    }

    /// Reads the next value from the tagstruct and expects it to be a string or a null string.
    ///
    /// If the next value is not a `Value::String` or a `Value::NullString` (or the tagstruct is at
    /// EOF), an error is returned.
    ///
    /// If the next value is a `Value::String`, returns an `Ok(Some(<string>))`. If the next value
    /// is a `Value::NullString`, returns an `Ok(None)`.
    ///
    /// Note that strings in a tagstruct aren't necessarily encoded in UTF-8.
    pub fn read_string(&mut self) -> (r: Result<Option<PaStr<'a>>, Error>)
        ensures
            final(self).data() == old(self).data(),
            match spec_read_string(old(self).remaining()) {
                Ok((Some(v), n)) => r matches Ok(Some(x)) && x@ == v && final(self).advanced(
                    old(self),
                    n,
                ),
                Ok((None, n)) => r matches Ok(None) && final(self).advanced(old(self), n),
                Err(k) => r matches Err(e) && e.kind == k,
            },
    {
        let ghost before = *self;
        match self.peek() {
            None => Err(Error::new(ErrorKind::UnexpectedEnd)),
            Some(tag) => {
                if tag == TAG_STRING_NULL {
                    self.skip(1);
                    Ok(None)
                } else if tag == TAG_STRING {
                    self.skip(1);
                    let ghost behind_tag = *self;
                    let r = self.string_body();
                    proof {
                        if let Ok((v, n)) = spec_string_body(behind_tag.remaining()) {
                            self.lemma_advanced_twice(&before, &behind_tag, 1, n);
                        }
                    }
                    match r {
                        Ok(s) => Ok(Some(s)),
                        Err(e) => Err(e),
                    }
                } else {
                    Err(mismatch(tag))
                }
            },
        }
    }

    /// Reads the entries of a property list and the null string behind them.
    #[verifier::loop_isolation(false)]
    #[verifier::rlimit(80)]
    fn props_body(&mut self) -> (r: Result<PropList, Error>)
        ensures
            final(self).data() == old(self).data(),
            match spec_props_body(old(self).remaining(), PropSeq::empty()) {
                Ok((v, n)) => r matches Ok(x) && x@ == v && final(self).advanced(old(self), n),
                Err(k) => r matches Err(e) && e.kind == k,
            },
    {
        // A proplist is a key-value map with string keys and blob values.
        // It's stored as a sequence of keys and values, terminated by a null string.
        let ghost start = *self;
        let ghost mut taken: int = 0;
        let mut proplist = PropList::new();
        proof {
            start.lemma_advanced_zero();
        }
        loop
            invariant
                self.advanced(&start, taken),
                spec_props_body(start.remaining(), PropSeq::empty()) == parsed_shift(
                    taken,
                    spec_props_body(self.remaining(), proplist@),
                ),
            decreases self.remaining().len(),
        {
            let ghost here = *self;
            let ghost s = self.remaining();
            proof {
                lemma_read_string_bounds(s);
            }
            let key = match self.read_string() {
                Err(e) => {
                    return Err(e);
                },
                Ok(None) => {
                    proof {
                        self.lemma_advanced_twice(&start, &here, taken, 1);
                    }
                    return Ok(proplist);
                },
                Ok(Some(key)) => key,
            };
            let ghost n: int = key@.len() as int + 2;
            let key_bytes = key.to_bytes();
            if key_bytes.len() == 0 {
                return Err(Error::new(ErrorKind::EmptyPropKey));
            }
            let owned_key = match UnicodeCString::from_ascii(key_bytes) {
                Some(owned_key) => owned_key,
                None => {
                    return Err(Error::new(ErrorKind::NonAsciiPropKey));
                },
            };
            let ghost behind_key = *self;
            let data_len = match self.read_u32() {
                Ok(data_len) => data_len,
                Err(e) => {
                    return Err(e);
                },
            };
            if data_len > MAX_PROP_SIZE {
                return Err(Error::new(ErrorKind::PropTooLarge));
            }
            let ghost behind_len = *self;
            proof {
                lemma_read_arbitrary_bounds(self.remaining());
            }
            let data = match self.read_sized_arbitrary(data_len) {
                Ok(data) => data,
                Err(e) => {
                    return Err(e);
                },
            };
            proof {
                let m: int = data@.len() as int + 5;
                behind_len.lemma_advanced_twice(&here, &behind_key, n, 5);
                self.lemma_advanced_twice(&here, &behind_len, n + 5, m);
                self.lemma_advanced_twice(&start, &here, taken, n + 5 + m);
                taken = taken + n + 5 + m;
            }
            // Of two entries with one key the later one stays.
            proplist.insert(owned_key, slice_to_vec(data)).unwrap();
        }
    }

    /// Reads the body of a format info.
    fn format_info_body(&mut self) -> (r: Result<FormatInfo, Error>)
        ensures
            final(self).data() == old(self).data(),
            match spec_format_info_body(old(self).remaining()) {
                Ok((v, n)) => r matches Ok(x) && x@ == v && final(self).advanced(old(self), n),
                Err(k) => r matches Err(e) && e.kind == k,
            },
    {
        let ghost before = *self;
        let encoding = match self.read_u8() {
            Ok(encoding) => encoding,
            Err(e) => {
                return Err(e);
            },
        };
        let ghost behind_encoding = *self;
        let props = match self.read_proplist() {
            Ok(props) => props,
            Err(e) => {
                return Err(e);
            },
        };
        proof {
            if let Ok((v, n)) = spec_read_proplist(behind_encoding.remaining()) {
                self.lemma_advanced_twice(&before, &behind_encoding, 2, n);
            }
        }
        match FormatInfo::from_raw(encoding, props) {
            Ok(info) => Ok(info),
            Err(e) => Err(Error::new(ErrorKind::InvalidEncoding(e.raw))),
        }
    }

    /// Reads the next value or returns `None` when at EOF.
    #[verifier::rlimit(40)]
    pub fn read(&mut self) -> (r: Result<Option<Value<'a>>, Error>)
        ensures
            final(self).data() == old(self).data(),
            match spec_read(old(self).remaining()) {
                None => r matches Ok(None) && final(self).advanced(old(self), 0),
                Some(Ok((v, n))) => r matches Ok(Some(x)) && x@ == v && final(self).advanced(
                    old(self),
                    n,
                ),
                Some(Err(k)) => r matches Err(e) && e.kind == k,
            },
    {
        proof {
            self.lemma_advanced_zero();
        }
        let tag = match self.peek() {
            // Return Ok(None) for well-behaved EOF
            None => {
                return Ok(None);
            },
            Some(tag) => tag,
        };
        if tag == TAG_STRING {
            match self.read_string_non_null() {
                Ok(v) => Ok(Some(Value::String(v))),
                Err(e) => Err(e),
            }
        } else if tag == TAG_STRING_NULL {
            self.skip(1);
            Ok(Some(Value::NullString))
        } else if tag == TAG_U32 {
            match self.read_u32() {
                Ok(v) => Ok(Some(Value::U32(v))),
                Err(e) => Err(e),
            }
        } else if tag == TAG_U8 {
            match self.read_u8() {
                Ok(v) => Ok(Some(Value::U8(v))),
                Err(e) => Err(e),
            }
        } else if tag == TAG_U64 {
            match self.read_u64() {
                Ok(v) => Ok(Some(Value::U64(v))),
                Err(e) => Err(e),
            }
        } else if tag == TAG_S64 {
            match self.read_i64() {
                Ok(v) => Ok(Some(Value::S64(v))),
                Err(e) => Err(e),
            }
        } else if tag == TAG_SAMPLE_SPEC {
            match self.read_sample_spec() {
                Ok(v) => Ok(Some(Value::SampleSpec(v))),
                Err(e) => Err(e),
            }
        } else if tag == TAG_ARBITRARY {
            match self.read_arbitrary() {
                Ok(v) => Ok(Some(Value::Arbitrary(v))),
                Err(e) => Err(e),
            }
        } else if tag == TAG_BOOLEAN_TRUE {
            self.skip(1);
            Ok(Some(Value::Boolean(true)))
        } else if tag == TAG_BOOLEAN_FALSE {
            self.skip(1);
            Ok(Some(Value::Boolean(false)))
        } else if tag == TAG_TIMEVAL {
            Err(Error::new(ErrorKind::ReservedTag(tag)))
        } else if tag == TAG_USEC {
            match self.read_usec() {
                Ok(v) => Ok(Some(Value::Usec(v))),
                Err(e) => Err(e),
            }
        } else if tag == TAG_CHANNEL_MAP {
            match self.read_channel_map() {
                Ok(v) => Ok(Some(Value::ChannelMap(v))),
                Err(e) => Err(e),
            }
        } else if tag == TAG_CVOLUME {
            match self.read_cvolume() {
                Ok(v) => Ok(Some(Value::CVolume(v))),
                Err(e) => Err(e),
            }
        } else if tag == TAG_PROPLIST {
            match self.read_proplist() {
                Ok(v) => Ok(Some(Value::PropList(v))),
                Err(e) => Err(e),
            }
        } else if tag == TAG_VOLUME {
            match self.read_volume() {
                Ok(v) => Ok(Some(Value::Volume(v))),
                Err(e) => Err(e),
            }
        } else if tag == TAG_FORMAT_INFO {
            match self.read_format_info() {
                Ok(v) => Ok(Some(Value::FormatInfo(v))),
                Err(e) => Err(e),
            }
        } else {
            Err(Error::new(ErrorKind::InvalidTag(tag)))
        }
    }

    /// Read the next `Value`, treating EOF as an error.
    pub fn expect(&mut self) -> (r: Result<Value<'a>, Error>)
        ensures
            final(self).data() == old(self).data(),
            match spec_read(old(self).remaining()) {
                None => r matches Err(e) && e.kind == ErrorKind::UnexpectedEnd,
                Some(Ok((v, n))) => r matches Ok(x) && x@ == v && final(self).advanced(old(self), n),
                Some(Err(k)) => r matches Err(e) && e.kind == k,
            },
    {
        match self.read() {
            Ok(Some(value)) => Ok(value),
            Ok(None) => Err(Error::new(ErrorKind::UnexpectedEnd)),
            Err(e) => Err(e),
        }
    }
}

/// Implemented by types that can be deserialized from a tagstruct.
pub trait FromTagStruct<'a>: Sized + View {
    /// What is read for an instance of `Self` from bytes at a protocol version.
    spec fn spec_from_tag_struct(s: Seq<u8>, protocol_version: u16) -> Parsed<Self::V>;

    /// Read an instance of `Self` from a tagstruct.
    ///
    /// # Parameters
    ///
    /// * `ts`: The tagstruct to read from.
    /// * `protocol_version`: PulseAudio protocol version, used to decide on the precise data
    ///   format. For old versions, default values might be used for parts of `Self`.
    fn from_tag_struct(ts: &mut TagStructReader<'a>, protocol_version: u16) -> (r: Result<
        Self,
        Error,
    >)
        ensures
            final(ts).data() == old(ts).data(),
            match Self::spec_from_tag_struct(old(ts).remaining(), protocol_version) {
                Ok((v, n)) => r matches Ok(x) && x@ == v && final(ts).advanced(old(ts), n),
                Err(k) => r matches Err(e) && e.kind == k,
            },
    ;
}

/// Tells whether `tag` is one of the tags of the format.
pub fn is_known_tag(tag: u8) -> (r: bool)
    ensures
        r == is_tag(tag),
{
    tag == TAG_STRING || tag == TAG_STRING_NULL || tag == TAG_U32 || tag == TAG_U8 || tag
        == TAG_U64 || tag == TAG_S64 || tag == TAG_SAMPLE_SPEC || tag == TAG_ARBITRARY || tag
        == TAG_BOOLEAN_TRUE || tag == TAG_BOOLEAN_FALSE || tag == TAG_TIMEVAL || tag == TAG_USEC
        || tag == TAG_CHANNEL_MAP || tag == TAG_CVOLUME || tag == TAG_PROPLIST || tag == TAG_VOLUME
        || tag == TAG_FORMAT_INFO
}

/// The error for a value of another kind than the one asked for.
fn mismatch(tag: u8) -> (e: Error)
    ensures
        e.kind == spec_mismatch(tag),
{
    if is_known_tag(tag) {
        Error::new(ErrorKind::UnexpectedValue(tag))
    } else {
        Error::new(ErrorKind::InvalidTag(tag))
    }
}

} // verus!
