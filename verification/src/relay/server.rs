//! The frames that a relay client reads: a length in two bytes, the high one first, and a packet.
use vstd::prelude::*;

verus! {

/// The longest packet that a frame holds.
pub const MAX_FRAME_SIZE: usize = 65_535;

/// Whether a packet is sent: it is not empty, and a frame can hold it.
pub open spec fn is_framed(packet: Seq<u8>, max_frame_size: usize) -> bool {
    0 < packet.len() <= max_frame_size
}

/// The two bytes of a length, the high one first.
pub open spec fn frame_length(len: nat) -> Seq<u8> {
    seq![(len / 256 % 256) as u8, (len % 256) as u8]
}

/// The frame of a packet.
pub open spec fn frame(packet: Seq<u8>) -> Seq<u8> {
    frame_length(packet.len()) + packet
}

/// The frame in which a packet is sent, if it is.
pub fn frame_packet(packet: &[u8], max_frame_size: usize) -> (r: Option<Vec<u8>>)
    requires
        max_frame_size <= MAX_FRAME_SIZE,
    ensures
        match r {
            Some(bytes) => is_framed(packet@, max_frame_size) && bytes@ == frame(packet@),
            None => !is_framed(packet@, max_frame_size),
        },
{
    if packet.len() == 0 || packet.len() > max_frame_size {
        return None;
    }
    let len: usize = packet.len();
    let mut bytes: Vec<u8> = Vec::with_capacity(len + 2);
    bytes.push((len / 256) as u8);
    bytes.push((len % 256) as u8);
    bytes.extend_from_slice(packet);
    assert(len / 256 % 256 == len / 256);
    assert(bytes@ =~= frame(packet@));
    Some(bytes)
}

/// The frames of some packets, one behind the other, as a client gets them.
pub open spec fn frames(packets: Seq<Seq<u8>>, max_frame_size: usize) -> Seq<u8>
    decreases packets.len(),
{
    if packets.len() == 0 {
        Seq::empty()
    } else if is_framed(packets[0], max_frame_size) {
        frame(packets[0]) + frames(packets.skip(1), max_frame_size)
    } else {
        frames(packets.skip(1), max_frame_size)
    }
}

/// The packets that are sent.
pub open spec fn framed(packets: Seq<Seq<u8>>, max_frame_size: usize) -> Seq<Seq<u8>>
    decreases packets.len(),
{
    if packets.len() == 0 {
        Seq::empty()
    } else if is_framed(packets[0], max_frame_size) {
        seq![packets[0]] + framed(packets.skip(1), max_frame_size)
    } else {
        framed(packets.skip(1), max_frame_size)
    }
}

/// The packets that a client reads from a row of frames: each starts with its length.
pub open spec fn unframed(bytes: Seq<u8>) -> Seq<Seq<u8>>
    decreases bytes.len(),
{
    if bytes.len() < 2 || bytes.len() < 2 + bytes[0] * 256 + bytes[1] {
        Seq::empty()
    } else {
        let len = bytes[0] * 256 + bytes[1];
        seq![bytes.subrange(2, 2 + len)] + unframed(bytes.skip(2 + len))
    }
}

/// A client reads back the packets that were sent, in order and with nothing between them.
pub proof fn frames_are_read_back(packets: Seq<Seq<u8>>, max_frame_size: usize)
    requires
        max_frame_size <= MAX_FRAME_SIZE,
    ensures
        unframed(frames(packets, max_frame_size)) == framed(packets, max_frame_size),
    decreases packets.len(),
{
    if packets.len() > 0 {
        frames_are_read_back(packets.skip(1), max_frame_size);
        if is_framed(packets[0], max_frame_size) {
            let packet = packets[0];
            let rest = frames(packets.skip(1), max_frame_size);
            let all = frame(packet) + rest;
            let len = packet.len() as int;
            assert(len / 256 % 256 == len / 256);
            assert(all[0] == len / 256);
            assert(all[1] == len % 256);
            assert(all[0] * 256 + all[1] == len);
            assert(all.subrange(2, 2 + len) =~= packet);
            assert(all.skip(2 + len) =~= rest);
        }
    } else {
        assert(frames(packets, max_frame_size) =~= Seq::<u8>::empty());
    }
}

/// A frame is two bytes and the packet. The two bytes are the length of the packet, the high one first.
/// A packet is sent exactly if it has a byte and no more than allowed.
pub proof fn frame_is_length_and_packet(packet: Seq<u8>, max_frame_size: usize)
    requires
        max_frame_size <= MAX_FRAME_SIZE,
    ensures
        is_framed(packet, max_frame_size) <==> packet.len() > 0 && packet.len() <= max_frame_size,
        frame(packet).len() == packet.len() + 2,
        is_framed(packet, max_frame_size) ==> frame(packet)[0] * 256 + frame(packet)[1] == packet.len(),
        frame(packet).skip(2) == packet,
{
    assert(frame(packet).skip(2) =~= packet);
    if is_framed(packet, max_frame_size) {
        let len = packet.len() as int;
        assert(len / 256 % 256 == len / 256);
    }
}

/// The packets that are sent are those that a frame can hold, in their order: a row that goes on with
/// one packet more is sent with that packet more, if a frame can hold it, and is sent alike if not.
pub proof fn sent_packets_are_those_that_fit(packets: Seq<Seq<u8>>, packet: Seq<u8>, max_frame_size: usize)
    ensures
        framed(Seq::empty(), max_frame_size) == Seq::<Seq<u8>>::empty(),
        framed(packets.push(packet), max_frame_size) == if 0 < packet.len() <= max_frame_size {
            framed(packets, max_frame_size).push(packet)
        } else {
            framed(packets, max_frame_size)
        },
    decreases packets.len(),
{
    let longer = packets.push(packet);
    if packets.len() == 0 {
        assert(longer.skip(1) =~= Seq::<Seq<u8>>::empty());
        assert(framed(longer.skip(1), max_frame_size) =~= Seq::<Seq<u8>>::empty());
    } else {
        assert(longer.skip(1) =~= packets.skip(1).push(packet));
        sent_packets_are_those_that_fit(packets.skip(1), packet, max_frame_size);
    }
    assert(framed(longer, max_frame_size) =~= if 0 < packet.len() <= max_frame_size {
        framed(packets, max_frame_size).push(packet)
    } else {
        framed(packets, max_frame_size)
    });
}

} // verus!
