//! What holds of packets on a byte stream: packets that were written are read back, and the
//! pieces in which the bytes arrive do not matter.

use vstd::prelude::*;
use crate::packet::spec_decode;
use crate::packet::spec_decode_descriptor;
use crate::packet::spec_encode_descriptor;
use crate::packet::spec_encode_frame;
use crate::packet::valid_packet;
use crate::packet::Decoded;
use crate::packet::Descriptor;
use crate::packet::Packet;
use crate::packet::PacketCodec;
use crate::packet::PacketView;
use crate::buffer::bytes_mut_contents;
use crate::error::Error;
use crate::error::ErrorKind;
use crate::packet::DESCRIPTOR_SIZE;
use crate::wire::be_bytes_i32;
use crate::wire::be_bytes_u32;
use crate::wire::lemma_be_i32_roundtrip;
use crate::wire::lemma_be_u32_roundtrip;

verus! {

/// What a byte stream holds, as far as it was received.
pub struct Frames {
    /// The packets that are complete, in their order.
    pub packets: Seq<PacketView>,
    /// The bytes behind the last complete packet.
    pub rest: Seq<u8>,
    /// The payload size that the packet at the start of `rest` announces, where it is refused
    /// for that size.
    pub refused: Option<u32>,
}

/// The same outcome behind packets that were read before.
pub open spec fn frames_after(before: Seq<PacketView>, next: Frames) -> Frames {
    Frames { packets: before + next.packets, rest: next.rest, refused: next.refused }
}

/// Decodes packets from `buf` as long as a whole packet is there and none is refused.
#[verifier::opaque]
pub open spec fn spec_decode_frames(buf: Seq<u8>, max_length: u32) -> Frames
    decreases buf.len(),
{
    match spec_decode(buf, max_length) {
        Decoded::NeedMore => Frames { packets: Seq::empty(), rest: buf, refused: None },
        Decoded::TooLarge(len) => Frames { packets: Seq::empty(), rest: buf, refused: Some(len) },
        Decoded::Frame(p, n) => frames_after(seq![p], spec_decode_frames(buf.skip(n), max_length)),
    }
}

/// The bytes of packets on the wire, one after the other.
pub open spec fn spec_encode_frames(packets: Seq<PacketView>) -> Seq<u8>
    decreases packets.len(),
{
    if packets.len() == 0 {
        Seq::empty()
    } else {
        spec_encode_frame(packets[0]) + spec_encode_frames(packets.skip(1))
    }
}

/// All bytes of the pieces of a stream, one piece after the other.
pub open spec fn spec_concat(chunks: Seq<Seq<u8>>) -> Seq<u8>
    decreases chunks.len(),
{
    if chunks.len() == 0 {
        Seq::empty()
    } else {
        chunks[0] + spec_concat(chunks.skip(1))
    }
}

/// Decodes a stream that arrives in pieces: after each piece all packets that are complete are
/// taken, and the bytes behind them are kept for the next piece. Once a packet is refused,
/// nothing more is decoded.
pub open spec fn spec_feed(kept: Seq<u8>, chunks: Seq<Seq<u8>>, max_length: u32) -> Frames
    decreases chunks.len(),
{
    if chunks.len() == 0 {
        Frames { packets: Seq::empty(), rest: kept, refused: None }
    } else {
        let now = spec_decode_frames(kept + chunks[0], max_length);
        if now.refused is Some {
            now
        } else {
            frames_after(now.packets, spec_feed(now.rest, chunks.skip(1), max_length))
        }
    }
}

/// Whether every packet is valid and has a payload within the accepted size.
pub open spec fn all_accepted(packets: Seq<PacketView>, max_length: u32) -> bool {
    forall|i: int|
        0 <= i < packets.len() ==> valid_packet(#[trigger] packets[i]) && packets[i].desc.length
            <= max_length
}

/// A descriptor takes 20 bytes and is read back from them, whatever follows them.
#[verifier::rlimit(40)]
pub proof fn lemma_descriptor_roundtrip(d: Descriptor, rest: Seq<u8>)
    ensures
        spec_encode_descriptor(d).len() == DESCRIPTOR_SIZE,
        spec_decode_descriptor(spec_encode_descriptor(d) + rest) == d,
{
    let s = spec_encode_descriptor(d) + rest;
    let r4 = be_bytes_u32(d.flags) + rest;
    let r3 = be_bytes_u32(d.offset_lo) + r4;
    let r2 = be_bytes_u32(d.offset_hi) + r3;
    let r1 = be_bytes_i32(d.channel) + r2;
    lemma_be_u32_roundtrip(d.length, r1);
    lemma_be_i32_roundtrip(d.channel, r2);
    lemma_be_u32_roundtrip(d.offset_hi, r3);
    lemma_be_u32_roundtrip(d.offset_lo, r4);
    lemma_be_u32_roundtrip(d.flags, rest);
    assert(s =~= be_bytes_u32(d.length) + r1);
    assert(s.skip(4) =~= r1);
    assert(s.skip(8) =~= r2);
    assert(s.skip(12) =~= r3);
    assert(s.skip(16) =~= r4);
}

/// A valid packet within the accepted size is read back from its bytes, whatever follows them.
#[verifier::rlimit(40)]
pub proof fn lemma_frame_roundtrip(p: PacketView, rest: Seq<u8>, max_length: u32)
    requires
        valid_packet(p),
        p.desc.length <= max_length,
    ensures
        spec_encode_frame(p).len() == DESCRIPTOR_SIZE + p.payload.len(),
        spec_decode(spec_encode_frame(p) + rest, max_length) == Decoded::Frame(
            p,
            DESCRIPTOR_SIZE + p.payload.len(),
        ),
        (spec_encode_frame(p) + rest).skip(DESCRIPTOR_SIZE + p.payload.len()) == rest,
{
    let bytes = spec_encode_frame(p) + rest;
    lemma_descriptor_roundtrip(p.desc, p.payload + rest);
    assert(bytes =~= spec_encode_descriptor(p.desc) + (p.payload + rest));
    assert(bytes.subrange(DESCRIPTOR_SIZE as int, DESCRIPTOR_SIZE + p.desc.length) =~= p.payload);
    assert(bytes.skip(DESCRIPTOR_SIZE + p.payload.len()) =~= rest);
}

/// Of a valid packet within the accepted size, no proper prefix of its bytes is a packet: the
/// decoder waits for more.
pub proof fn lemma_frame_prefix_needs_more(p: PacketView, k: int, max_length: u32)
    requires
        valid_packet(p),
        p.desc.length <= max_length,
        0 <= k < DESCRIPTOR_SIZE + p.payload.len(),
    ensures
        spec_decode(spec_encode_frame(p).take(k), max_length) == Decoded::NeedMore,
{
    let frame = spec_encode_frame(p);
    lemma_descriptor_roundtrip(p.desc, p.payload);
    if k >= DESCRIPTOR_SIZE {
        let prefix = frame.take(k);
        lemma_descriptor_roundtrip(p.desc, prefix.skip(DESCRIPTOR_SIZE as int));
        assert(prefix =~= spec_encode_descriptor(p.desc) + prefix.skip(DESCRIPTOR_SIZE as int));
    }
}

/// What was decoded from received bytes stays as it is when more bytes arrive.
#[verifier::rlimit(40)]
pub proof fn lemma_decode_extend(a: Seq<u8>, b: Seq<u8>, max_length: u32)
    ensures
        spec_decode(a, max_length) matches Decoded::Frame(p, n) ==> spec_decode(a + b, max_length)
            == Decoded::Frame(p, n) && DESCRIPTOR_SIZE <= n <= a.len() && (a + b).skip(n)
            == a.skip(n) + b,
        spec_decode(a, max_length) matches Decoded::TooLarge(len) ==> spec_decode(
            a + b,
            max_length,
        ) == Decoded::TooLarge(len),
{
    if a.len() >= DESCRIPTOR_SIZE {
        let ab = a + b;
        assert(ab[0] == a[0] && ab[1] == a[1] && ab[2] == a[2] && ab[3] == a[3]);
        assert(ab.skip(4)[0] == a.skip(4)[0] && ab.skip(4)[1] == a.skip(4)[1] && ab.skip(4)[2]
            == a.skip(4)[2] && ab.skip(4)[3] == a.skip(4)[3]);
        assert(ab.skip(8)[0] == a.skip(8)[0] && ab.skip(8)[1] == a.skip(8)[1] && ab.skip(8)[2]
            == a.skip(8)[2] && ab.skip(8)[3] == a.skip(8)[3]);
        assert(ab.skip(12)[0] == a.skip(12)[0] && ab.skip(12)[1] == a.skip(12)[1] && ab.skip(
            12,
        )[2] == a.skip(12)[2] && ab.skip(12)[3] == a.skip(12)[3]);
        assert(ab.skip(16)[0] == a.skip(16)[0] && ab.skip(16)[1] == a.skip(16)[1] && ab.skip(
            16,
        )[2] == a.skip(16)[2] && ab.skip(16)[3] == a.skip(16)[3]);
        assert(spec_decode_descriptor(ab) == spec_decode_descriptor(a));
        if let Decoded::Frame(p, n) = spec_decode(a, max_length) {
            assert(ab.subrange(DESCRIPTOR_SIZE as int, n) =~= a.subrange(
                DESCRIPTOR_SIZE as int,
                n,
            ));
            assert(ab.skip(n) =~= a.skip(n) + b);
        }
    }
}

/// Behind the packets that were decoded no whole packet is left.
pub proof fn lemma_rest_drained(buf: Seq<u8>, max_length: u32)
    ensures
        spec_decode_frames(buf, max_length).refused is None ==> spec_decode(
            spec_decode_frames(buf, max_length).rest,
            max_length,
        ) == Decoded::NeedMore,
    decreases buf.len(),
{
    reveal(spec_decode_frames);
    if let Decoded::Frame(p, n) = spec_decode(buf, max_length) {
        lemma_rest_drained(buf.skip(n), max_length);
    }
}

/// Decoding bytes that arrive in two pieces, the packets of the first piece are decoded first,
/// and decoding goes on with what the first piece left and the second piece.
#[verifier::rlimit(40)]
pub proof fn lemma_decode_frames_split(a: Seq<u8>, b: Seq<u8>, max_length: u32)
    ensures
        spec_decode_frames(a, max_length).refused is None ==> spec_decode_frames(a + b, max_length)
            == frames_after(
            spec_decode_frames(a, max_length).packets,
            spec_decode_frames(spec_decode_frames(a, max_length).rest + b, max_length),
        ),
        spec_decode_frames(a, max_length).refused is Some ==> spec_decode_frames(
            a + b,
            max_length,
        ).packets == spec_decode_frames(a, max_length).packets && spec_decode_frames(
            a + b,
            max_length,
        ).refused == spec_decode_frames(a, max_length).refused,
    decreases a.len(),
{
    reveal(spec_decode_frames);
    lemma_decode_extend(a, b, max_length);
    match spec_decode(a, max_length) {
        Decoded::NeedMore => {
            let next = spec_decode_frames(a + b, max_length);
            assert(Seq::<PacketView>::empty() + next.packets =~= next.packets);
        },
        Decoded::TooLarge(len) => {},
        Decoded::Frame(p, n) => {
            lemma_decode_frames_split(a.skip(n), b, max_length);
            let first = spec_decode_frames(a.skip(n), max_length);
            if first.refused is None {
                let next = spec_decode_frames(first.rest + b, max_length);
                assert(seq![p] + (first.packets + next.packets) =~= (seq![p] + first.packets)
                    + next.packets);
            }
        },
    }
}

/// Valid packets within the accepted size are decoded from their bytes, and nothing is left.
pub proof fn lemma_frames_roundtrip(packets: Seq<PacketView>, max_length: u32)
    requires
        all_accepted(packets, max_length),
    ensures
        spec_decode_frames(spec_encode_frames(packets), max_length) == (Frames {
            packets,
            rest: Seq::empty(),
            refused: None,
        }),
    decreases packets.len(),
{
    reveal(spec_decode_frames);
    if packets.len() == 0 {
        assert(packets =~= Seq::<PacketView>::empty());
    } else {
        let others = packets.skip(1);
        let rest = spec_encode_frames(others);
        assert(valid_packet(packets[0]) && packets[0].desc.length <= max_length);
        lemma_frame_roundtrip(packets[0], rest, max_length);
        assert(all_accepted(others, max_length)) by {
            assert forall|i: int| 0 <= i < others.len() implies valid_packet(
                #[trigger] others[i],
            ) && others[i].desc.length <= max_length by {
                assert(others[i] == packets[i + 1]);
            }
        }
        lemma_frames_roundtrip(others, max_length);
        assert(seq![packets[0]] + others =~= packets);
    }
}

/// A valid packet within the accepted size is the first packet of its bytes and whatever
/// follows them.
pub proof fn lemma_decode_frames_first(p: PacketView, rest: Seq<u8>, max_length: u32)
    requires
        valid_packet(p),
        p.desc.length <= max_length,
    ensures
        spec_decode_frames(spec_encode_frame(p) + rest, max_length) == frames_after(
            seq![p],
            spec_decode_frames(rest, max_length),
        ),
{
    reveal(spec_decode_frames);
    lemma_frame_roundtrip(p, rest, max_length);
}

/// No packet is decoded from no bytes.
pub proof fn lemma_decode_frames_empty(max_length: u32)
    ensures
        spec_decode_frames(Seq::empty(), max_length) == (Frames {
            packets: Seq::empty(),
            rest: Seq::empty(),
            refused: None,
        }),
{
    reveal(spec_decode_frames);
}

/// One valid packet is decoded from its bytes as itself, and two packets behind each other as
/// the two.
pub proof fn lemma_one_and_two_frames(p: PacketView, q: PacketView, max_length: u32)
    requires
        valid_packet(p),
        valid_packet(q),
        p.desc.length <= max_length,
        q.desc.length <= max_length,
    ensures
        spec_decode_frames(spec_encode_frame(p), max_length).packets == seq![p],
        spec_decode_frames(spec_encode_frame(p) + spec_encode_frame(q), max_length).packets
            == seq![p, q],
{
    let none = Seq::<u8>::empty();
    let fp = spec_encode_frame(p);
    let fq = spec_encode_frame(q);
    lemma_decode_frames_empty(max_length);
    lemma_decode_frames_first(q, none, max_length);
    lemma_decode_frames_first(p, none, max_length);
    lemma_decode_frames_first(p, fq, max_length);
    assert(fq + none =~= fq);
    assert(fp + none =~= fp);
    assert(seq![q] + Seq::<PacketView>::empty() =~= seq![q]);
    assert(seq![p] + Seq::<PacketView>::empty() =~= seq![p]);
    assert(seq![p] + seq![q] =~= seq![p, q]);
}

/// However a byte stream is cut into pieces, decoding the pieces as they arrive gives the
/// packets, and refuses the packet, that decoding the whole stream gives. `kept` is what was
/// left of earlier pieces, in which no whole packet stands.
pub proof fn lemma_feed_any_split(kept: Seq<u8>, chunks: Seq<Seq<u8>>, max_length: u32)
    requires
        spec_decode(kept, max_length) == Decoded::NeedMore,
    ensures
        spec_feed(kept, chunks, max_length).packets == spec_decode_frames(
            kept + spec_concat(chunks),
            max_length,
        ).packets,
        spec_feed(kept, chunks, max_length).refused == spec_decode_frames(
            kept + spec_concat(chunks),
            max_length,
        ).refused,
    decreases chunks.len(),
{
    reveal(spec_decode_frames);
    if chunks.len() == 0 {
        assert(kept + spec_concat(chunks) =~= kept);
    } else {
        let tail = spec_concat(chunks.skip(1));
        let now = spec_decode_frames(kept + chunks[0], max_length);
        assert(kept + spec_concat(chunks) =~= (kept + chunks[0]) + tail);
        lemma_decode_frames_split(kept + chunks[0], tail, max_length);
        if now.refused is None {
            lemma_rest_drained(kept + chunks[0], max_length);
            lemma_feed_any_split(now.rest, chunks.skip(1), max_length);
        }
    }
}

/// What packets hold, one for one.
pub open spec fn spec_packet_views(packets: Seq<Packet>) -> Seq<PacketView> {
    Seq::new(packets.len(), |i: int| packets[i]@)
}

impl PacketCodec {
    /// Takes all packets that are complete from the bytes that were received, and adds them to
    /// `out`. The bytes behind the last complete packet stay.
    ///
    /// Stops at a packet that is refused for the size of its payload, which stays with the
    /// bytes, and fails.
    #[verifier::loop_isolation(false)]
    pub fn decode_all(&mut self, src: &mut bytes::BytesMut, out: &mut Vec<Packet>) -> (r: Result<
        (),
        Error,
    >)
        ensures
            final(self).spec_max_length() == old(self).spec_max_length(),
            ({
                let frames = spec_decode_frames(
                    bytes_mut_contents(*old(src)),
                    old(self).spec_max_length(),
                );
                &&& spec_packet_views(final(out)@) == spec_packet_views(old(out)@) + frames.packets
                &&& bytes_mut_contents(*final(src)) == frames.rest
                &&& match frames.refused {
                    None => r is Ok,
                    Some(len) => r matches Err(e) && e.kind == ErrorKind::PacketTooLarge(len),
                }
            }),
    {
        let ghost max_length = self.spec_max_length();
        let ghost all = spec_decode_frames(bytes_mut_contents(*src), max_length);
        let ghost before = spec_packet_views(out@);
        let ghost mut taken = Seq::<PacketView>::empty();
        proof {
            assert(before + taken =~= before);
            assert(taken + all.packets =~= all.packets);
        }
        loop
            invariant
                self.spec_max_length() == max_length,
                spec_packet_views(out@) == before + taken,
                all == frames_after(
                    taken,
                    spec_decode_frames(bytes_mut_contents(*src), max_length),
                ),
            decreases bytes_mut_contents(*src).len(),
        {
            let ghost here = bytes_mut_contents(*src);
            let ghost views = spec_packet_views(out@);
            proof {
                reveal(spec_decode_frames);
                lemma_decode_extend(here, Seq::empty(), max_length);
            }
            match self.decode(src) {
                Err(e) => {
                    proof {
                        assert(taken + Seq::<PacketView>::empty() =~= taken);
                    }
                    return Err(e);
                },
                Ok(None) => {
                    proof {
                        assert(taken + Seq::<PacketView>::empty() =~= taken);
                    }
                    return Ok(());
                },
                Ok(Some(packet)) => {
                    let ghost p = packet@;
                    out.push(packet);
                    proof {
                        let next = spec_decode_frames(bytes_mut_contents(*src), max_length);
                        assert(spec_packet_views(out@) =~= views.push(p));
                        assert(before + taken.push(p) =~= (before + taken).push(p));
                        assert(taken + (seq![p] + next.packets) =~= taken.push(p) + next.packets);
                        taken = taken.push(p);
                    }
                },
            }
        }
    }
}

} // verus!
