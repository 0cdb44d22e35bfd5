//! Packet parsing and serialization.
//!
//! A packet is a descriptor of 20 bytes, 5 integers in network byte order, and a payload of as
//! many bytes as the descriptor announces. There are four kinds of packets:
//!
//! * control packets, whose channel is -1 and whose payload is a tagstruct,
//! * shared memory release and
//! * shared memory revoke packets, which are marked by their flags,
//! * memblocks, chunks of audio data for the channel that the descriptor names.

use vstd::prelude::*;
use vstd::slice::slice_subrange;
use crate::buffer::bytes_as_slice;
use crate::buffer::bytes_contents;
use crate::buffer::bytes_from_slice;
use crate::buffer::bytes_mut_advance;
use crate::buffer::bytes_mut_as_slice;
use crate::buffer::bytes_mut_contents;
use crate::buffer::bytes_mut_extend_from_slice;
use crate::error::Error;
use crate::error::ErrorKind;
use crate::types::tagstruct::reader::TagStructReader;
use crate::wire::be_bytes_i32;
use crate::wire::be_bytes_u32;
use crate::wire::be_i32;
use crate::wire::be_u32;
use crate::wire::read_be_i32;
use crate::wire::read_be_u32;
use crate::wire::write_be_i32;
use crate::wire::write_be_u32;

verus! {

/// The flags of a packet that releases shared memory.
pub const FLAG_SHMRELEASE: u32 = 0x40000000;

/// The flags of a packet that revokes shared memory.
pub const FLAG_SHMREVOKE: u32 = 0xC0000000;

/// The channel of a control packet.
pub const CONTROL_CHANNEL: i32 = -1;

/// The number of bytes of a descriptor.
pub const DESCRIPTOR_SIZE: usize = 20;

/// Packet descriptor / header.
#[derive(Clone, Copy, Debug, PartialEq, Eq, Structural)]
pub struct Descriptor {
    /// Payload length in Bytes.
    pub length: u32,
    /// -1 = control packet
    pub channel: i32,
    pub offset_hi: u32,
    pub offset_lo: u32,
    /// SHMRELEASE or SHMREVOKE to mark packet as such, or:
    ///
    /// For memblock packets:
    /// * Lowest byte: Seek mode
    pub flags: u32,
}

/// The 20 bytes of a descriptor.
pub open spec fn spec_encode_descriptor(d: Descriptor) -> Seq<u8> {
    be_bytes_u32(d.length) + be_bytes_i32(d.channel) + be_bytes_u32(d.offset_hi) + be_bytes_u32(
        d.offset_lo,
    ) + be_bytes_u32(d.flags)
}

/// The descriptor that the first 20 bytes of `s` hold.
pub open spec fn spec_decode_descriptor(s: Seq<u8>) -> Descriptor
    recommends
        s.len() >= DESCRIPTOR_SIZE,
{
    Descriptor {
        length: be_u32(s),
        channel: be_i32(s.skip(4)),
        offset_hi: be_u32(s.skip(8)),
        offset_lo: be_u32(s.skip(12)),
        flags: be_u32(s.skip(16)),
    }
}

/// What a packet holds.
pub struct PacketView {
    /// The descriptor.
    pub desc: Descriptor,
    /// The bytes of the payload.
    pub payload: Seq<u8>,
}

/// Whether the descriptor announces the payload that is there.
pub open spec fn valid_packet(p: PacketView) -> bool {
    p.desc.length == p.payload.len()
}

/// The bytes of a packet on the wire: descriptor, then payload.
pub open spec fn spec_encode_frame(p: PacketView) -> Seq<u8> {
    spec_encode_descriptor(p.desc) + p.payload
}

/// What the start of a byte stream holds.
pub enum Decoded {
    /// Not all bytes of the first packet are there.
    NeedMore,
    /// The first packet announces a payload of more than the accepted size.
    TooLarge(u32),
    /// The first packet, and the number of bytes it takes.
    Frame(PacketView, int),
}

/// Decodes the first packet of a byte stream, of which `buf` is what was received and not taken
/// yet. A payload of more than `max_length` bytes is refused as soon as its descriptor is there.
pub open spec fn spec_decode(buf: Seq<u8>, max_length: u32) -> Decoded {
    if buf.len() < DESCRIPTOR_SIZE {
        Decoded::NeedMore
    } else {
        let desc = spec_decode_descriptor(buf);
        if desc.length > max_length {
            Decoded::TooLarge(desc.length)
        } else if buf.len() < DESCRIPTOR_SIZE + desc.length {
            Decoded::NeedMore
        } else {
            Decoded::Frame(
                PacketView {
                    desc,
                    payload: buf.subrange(
                        DESCRIPTOR_SIZE as int,
                        DESCRIPTOR_SIZE + desc.length,
                    ),
                },
                DESCRIPTOR_SIZE + desc.length,
            )
        }
    }
}

/// The kind of message that a packet carries.
#[derive(Clone, Copy, Debug, PartialEq, Eq, Structural)]
pub enum MessageKind {
    Control,
    Memblock,
    ShmRelease,
    ShmRevoke,
}

/// Classifies a packet by its descriptor: the channel marks a control packet, else the flags
/// mark a release or a revoke of shared memory, else the packet is a memblock.
pub open spec fn spec_classify(desc: Descriptor) -> MessageKind {
    if desc.channel == CONTROL_CHANNEL {
        MessageKind::Control
    } else if desc.flags == FLAG_SHMRELEASE {
        MessageKind::ShmRelease
    } else if desc.flags == FLAG_SHMREVOKE {
        MessageKind::ShmRevoke
    } else {
        MessageKind::Memblock
    }
}

impl Descriptor {
    /// Classifies the packet that the descriptor stands before.
    pub fn kind(&self) -> (kind: MessageKind)
        ensures
            kind == spec_classify(*self),
    {
        if self.channel == CONTROL_CHANNEL {
            MessageKind::Control
        } else if self.flags == FLAG_SHMRELEASE {
            MessageKind::ShmRelease
        } else if self.flags == FLAG_SHMREVOKE {
            MessageKind::ShmRevoke
        } else {
            MessageKind::Memblock
        }
    }

    /// Reads a descriptor from the first 20 bytes of `bytes`.
    pub fn decode(bytes: &[u8]) -> (desc: Option<Descriptor>)
        ensures
            desc is Some <==> bytes@.len() >= DESCRIPTOR_SIZE,
            desc matches Some(d) ==> d == spec_decode_descriptor(bytes@),
    {
        if bytes.len() < DESCRIPTOR_SIZE {
            return None;
        }
        let length = read_be_u32(bytes);
        let channel = read_be_i32(slice_subrange(bytes, 4, 8));
        let offset_hi = read_be_u32(slice_subrange(bytes, 8, 12));
        let offset_lo = read_be_u32(slice_subrange(bytes, 12, 16));
        let flags = read_be_u32(slice_subrange(bytes, 16, 20));
        proof {
            assert(bytes@.subrange(4, 8) =~= bytes@.skip(4).take(4));
            assert(bytes@.subrange(8, 12) =~= bytes@.skip(8).take(4));
            assert(bytes@.subrange(12, 16) =~= bytes@.skip(12).take(4));
            assert(bytes@.subrange(16, 20) =~= bytes@.skip(16).take(4));
        }
        Some(Descriptor { length, channel, offset_hi, offset_lo, flags })
    }

    /// Appends the 20 bytes of the descriptor to `buf`.
    pub fn encode(&self, buf: &mut Vec<u8>)
        ensures
            final(buf)@ == old(buf)@ + spec_encode_descriptor(*self),
    {
        write_be_u32(buf, self.length);
        write_be_i32(buf, self.channel);
        write_be_u32(buf, self.offset_hi);
        write_be_u32(buf, self.offset_lo);
        write_be_u32(buf, self.flags);
        proof {
            assert(final(buf)@ =~= old(buf)@ + spec_encode_descriptor(*self));
        }
    }
}

/// A packet transferred via IPC (Unix Socket).
///
/// Packets can be further broken down into 4 kinds of messages. The descriptor of a packet
/// announces exactly the payload that the packet holds.
#[derive(Debug)]
pub struct Packet {
    /// Packet header / Descriptor.
    desc: Descriptor,
    payload: bytes::Bytes,
}

impl View for Packet {
    type V = PacketView;

    closed spec fn view(&self) -> PacketView {
        PacketView { desc: self.desc, payload: bytes_contents(self.payload) }
    }
}

impl Packet {
    #[verifier::type_invariant]
    spec fn well_formed(&self) -> bool {
        valid_packet(self@)
    }

    /// Creates a packet carrying a command in its payload.
    ///
    /// The payload must not be larger than 4 GB.
    pub fn new_command(payload: &[u8]) -> (packet: Packet)
        requires
            payload@.len() <= u32::MAX,
        ensures
            packet@.payload == payload@,
            packet@.desc == (Descriptor {
                length: payload@.len() as u32,
                channel: CONTROL_CHANNEL,
                offset_hi: 0,
                offset_lo: 0,
                flags: 0,
            }),
            valid_packet(packet@),
    {
        Packet {
            desc: Descriptor {
                length: payload.len() as u32,
                channel: CONTROL_CHANNEL,
                offset_hi: 0,
                offset_lo: 0,
                flags: 0x00,
            },
            payload: bytes_from_slice(payload),
        }
    }

    /// Creates a packet from a descriptor and the payload that it announces. Gives nothing where
    /// the payload is not as long as announced.
    pub fn from_parts(desc: Descriptor, payload: &[u8]) -> (packet: Option<Packet>)
        ensures
            packet is Some <==> desc.length == payload@.len(),
            packet matches Some(p) ==> p@ == (PacketView { desc, payload: payload@ }),
    {
        if payload.len() > u32::MAX as usize || payload.len() as u32 != desc.length {
            return None;
        }
        Some(Packet { desc, payload: bytes_from_slice(payload) })
    }

    /// Decodes a `Packet` from a byte slice that holds all of it. What follows the packet is
    /// ignored.
    ///
    /// Also see `PacketCodec` for another way of decoding packets.
    pub fn decode(bytes: &[u8]) -> (r: Result<Packet, Error>)
        ensures
            match spec_decode(bytes@, u32::MAX) {
                Decoded::Frame(p, n) => r matches Ok(packet) && packet@ == p,
                _ => r matches Err(e) && e.kind == ErrorKind::PacketTruncated,
            },
    {
        match decode_frame(bytes, u32::MAX) {
            Ok(Some((packet, _))) => Ok(packet),
            _ => Err(Error::new(ErrorKind::PacketTruncated)),
        }
    }

    /// The descriptor of the packet.
    pub fn descriptor(&self) -> (desc: Descriptor)
        ensures
            desc == self@.desc,
            desc.length == self@.payload.len(),
    {
        proof {
            use_type_invariant(self);
        }
        self.desc
    }

    /// The payload of the packet.
    pub fn payload(&self) -> (payload: &[u8])
        ensures
            payload@ == self@.payload,
            payload@.len() == self@.desc.length,
    {
        proof {
            use_type_invariant(self);
        }
        bytes_as_slice(&self.payload)
    }
}

/// Decodes the first packet that `buf` holds, and tells how many bytes it takes.
fn decode_frame(buf: &[u8], max_length: u32) -> (r: Result<Option<(Packet, usize)>, Error>)
    ensures
        match spec_decode(buf@, max_length) {
            Decoded::NeedMore => r matches Ok(None),
            Decoded::TooLarge(len) => r matches Err(e) && e.kind == ErrorKind::PacketTooLarge(len),
            Decoded::Frame(p, n) => r matches Ok(Some((packet, taken))) && packet@ == p && taken
                == n && taken <= buf@.len(),
        },
{
    let desc = match Descriptor::decode(buf) {
        // not enough data
        None => {
            return Ok(None);
        },
        // at least enough data for the header
        Some(desc) => desc,
    };
    if desc.length > max_length {
        return Err(Error::new(ErrorKind::PacketTooLarge(desc.length)));
    }
    let payload_len = desc.length as usize;
    if buf.len() - DESCRIPTOR_SIZE < payload_len {
        return Ok(None);
    }
    // enough payload data too
    let end = DESCRIPTOR_SIZE + payload_len;
    let payload = slice_subrange(buf, DESCRIPTOR_SIZE, end);
    let packet = Packet { desc, payload: bytes_from_slice(payload) };
    Ok(Some((packet, end)))
}

/// A decoder and encoder for packets on a byte stream.
#[derive(Debug)]
pub struct PacketCodec {
    /// The largest payload that is accepted.
    max_length: u32,
}

impl PacketCodec {
    /// The largest payload that the codec accepts.
    pub closed spec fn spec_max_length(&self) -> u32 {
        self.max_length
    }

    /// Creates a new `PacketCodec` that accepts payloads of any size that a descriptor can
    /// announce.
    pub fn new() -> (codec: PacketCodec)
        ensures
            codec.spec_max_length() == u32::MAX,
    {
        PacketCodec { max_length: u32::MAX }
    }

    /// Creates a new `PacketCodec` that refuses packets with a payload of more than `max_length`
    /// bytes.
    pub fn with_max_length(max_length: u32) -> (codec: PacketCodec)
        ensures
            codec.spec_max_length() == max_length,
    {
        PacketCodec { max_length }
    }

    /// The largest payload that the codec accepts.
    pub fn max_length(&self) -> (max_length: u32)
        ensures
            max_length == self.spec_max_length(),
    {
        self.max_length
    }

    /// Takes the first packet from the bytes that were received, once all of it is there.
    ///
    /// Until then, and where the packet is refused, the bytes stay as they are.
    pub fn decode(&mut self, src: &mut bytes::BytesMut) -> (r: Result<Option<Packet>, Error>)
        ensures
            final(self).spec_max_length() == old(self).spec_max_length(),
            match spec_decode(bytes_mut_contents(*old(src)), old(self).spec_max_length()) {
                Decoded::NeedMore => r matches Ok(None) && bytes_mut_contents(*final(src))
                    == bytes_mut_contents(*old(src)),
                Decoded::TooLarge(len) => r matches Err(e) && e.kind == ErrorKind::PacketTooLarge(
                    len,
                ) && bytes_mut_contents(*final(src)) == bytes_mut_contents(*old(src)),
                Decoded::Frame(p, n) => r matches Ok(Some(packet)) && packet@ == p
                    && bytes_mut_contents(*final(src)) == bytes_mut_contents(*old(src)).skip(n),
            },
    {
        let decoded = decode_frame(bytes_mut_as_slice(src), self.max_length);
        match decoded {
            Ok(Some((packet, taken))) => {
                bytes_mut_advance(src, taken);
                Ok(Some(packet))
            },
            Ok(None) => Ok(None),
            Err(e) => Err(e),
        }
    }

    /// Appends the bytes of a packet to the bytes that are to be sent.
    pub fn encode(&mut self, item: Packet, dst: &mut bytes::BytesMut) -> (r: Result<(), Error>)
        ensures
            final(self).spec_max_length() == old(self).spec_max_length(),
            r is Ok,
            bytes_mut_contents(*final(dst)) == bytes_mut_contents(*old(dst)) + spec_encode_frame(
                item@,
            ),
    {
        let mut header: Vec<u8> = Vec::new();
        item.descriptor().encode(&mut header);
        bytes_mut_extend_from_slice(dst, header.as_slice());
        bytes_mut_extend_from_slice(dst, item.payload());
        proof {
            assert(bytes_mut_contents(*final(dst)) =~= bytes_mut_contents(*old(dst))
                + spec_encode_frame(item@));
        }
        Ok(())
    }
}

/// Any packet contains one of these message types.
#[derive(Debug)]
pub enum Message<'a> {
    /// Control message carrying a tagstruct.
    Control { tagstruct: TagStructReader<'a> },
    /// A chunk of audio data for a channel.
    Memblock {  },
    /// A release of shared memory.
    ShmRelease {  },
    /// A revoke of shared memory.
    ShmRevoke {  },
}

impl<'a> Message<'a> {
    /// The kind of the message.
    pub open spec fn spec_kind(&self) -> MessageKind {
        match self {
            Message::Control { .. } => MessageKind::Control,
            Message::Memblock {  } => MessageKind::Memblock,
            Message::ShmRelease {  } => MessageKind::ShmRelease,
            Message::ShmRevoke {  } => MessageKind::ShmRevoke,
        }
    }

    /// Try to create a message from a raw packet.
    ///
    /// Every packet carries a message. A control message reads from the start of the payload.
    pub fn from_packet(packet: &'a Packet) -> (r: Result<Message<'a>, Error>)
        ensures
            r matches Ok(message) && message.spec_kind() == spec_classify(packet@.desc) && (
            message matches Message::Control { tagstruct } ==> tagstruct.remaining()
                == packet@.payload && tagstruct.data() == packet@.payload),
    {
        match packet.descriptor().kind() {
            // Control message containing tagstruct
            MessageKind::Control => Ok(
                Message::Control { tagstruct: TagStructReader::from_raw(packet.payload()) },
            ),
            MessageKind::ShmRelease => Ok(Message::ShmRelease {  }),
            MessageKind::ShmRevoke => Ok(Message::ShmRevoke {  }),
            MessageKind::Memblock => Ok(Message::Memblock {  }),
        }
    }
}

} // verus!
