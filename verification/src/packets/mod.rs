//! Packet framing: `[packet id: u16 LE][payload length: u16 LE][payload]`.
pub mod client;
pub mod handshake;
pub mod server;
pub mod parse;

use vstd::prelude::*;
use crate::bytes::{le16, read_le16, lemma_read_le16, push_u16, push_bytes, get_u16, slice_to_vec};
use crate::error::{NetError, unexpected_eof};

verus! {

/// Size of the frame header: packet id (2) + payload length (2).
pub const HEADER_SIZE: usize = 4;

/// Largest frame, header included.
pub const MAX_PACKET_SIZE: u16 = 65535;

/// Largest payload that fits in a frame.
pub open spec fn max_payload() -> int {
    MAX_PACKET_SIZE - HEADER_SIZE
}

/// The frame that carries `payload` under `packet_id`.
pub open spec fn frame(packet_id: u16, payload: Seq<u8>) -> Seq<u8> {
    le16(packet_id) + le16((payload.len() % 65536) as u16) + payload
}

/// What framing `payload` under `packet_id` yields: the frame when the payload
/// fits, else `PacketTooLarge` with the payload length as a `u16`.
pub open spec fn encode_result(
    packet_id: u16,
    payload: Seq<u8>,
    r: Result<Vec<u8>, NetError>,
) -> bool {
    if payload.len() <= max_payload() {
        r matches Ok(v) && v@ == frame(packet_id, payload)
    } else {
        r matches Err(NetError::PacketTooLarge(n)) && n == (payload.len() % 65536) as u16
    }
}

/// A packet of the protocol: an id and a payload encoding.
pub trait Packet {
    /// The packet's id.
    spec fn spec_id(&self) -> u16;

    /// The packet's payload bytes.
    spec fn spec_payload(&self) -> Seq<u8>;

    /// Returns the packet's id.
    fn packet_id(&self) -> (id: u16)
        ensures
            id == self.spec_id(),
    ;

    /// Encodes the packet as a complete frame.
    fn encode(&self) -> (r: Result<Vec<u8>, NetError>)
        ensures
            encode_result(self.spec_id(), self.spec_payload(), r),
    ;
}

/// Packet framing.
pub struct PacketCodec;

impl PacketCodec {
    /// Frames `payload` under `packet_id`: `[id LE][len LE][payload]`, where the
    /// length counts the payload bytes only.
    pub fn encode(packet_id: u16, payload: &[u8]) -> (r: Result<Vec<u8>, NetError>)
        ensures
            encode_result(packet_id, payload@, r),
    {
        let payload_len = payload.len();
        if payload_len > 65535 - HEADER_SIZE {
            return Err(NetError::PacketTooLarge((payload_len % 65536) as u16));
        }
        let mut buf: Vec<u8> = Vec::new();
        push_u16(&mut buf, packet_id);
        push_u16(&mut buf, payload_len as u16);
        push_bytes(&mut buf, payload);
        Ok(buf)
    }

    /// Reads the header of a frame: `(packet_id, payload length)`; an I/O
    /// error when fewer than four bytes are given.
    pub fn decode_header(data: &[u8]) -> (r: Result<(u16, u16), NetError>)
        ensures
            data@.len() < HEADER_SIZE ==> r matches Err(NetError::Io(_)),
            data@.len() >= HEADER_SIZE ==> r == Ok::<(u16, u16), NetError>(
                (read_le16(data@[0], data@[1]), read_le16(data@[2], data@[3])),
            ),
    {
        if data.len() < HEADER_SIZE {
            return Err(NetError::Io(unexpected_eof("Incomplete packet header")));
        }
        let packet_id = get_u16(data, 0);
        let length = get_u16(data, 2);
        Ok((packet_id, length))
    }

    /// Extracts the payload of a frame (the header's length field says how many
    /// bytes follow); an I/O error when the header or the payload is cut short.
    pub fn decode_payload(data: &[u8]) -> (r: Result<Vec<u8>, NetError>)
        ensures
            ({
                let n = data@.len();
                if n < HEADER_SIZE {
                    r matches Err(NetError::Io(_))
                } else {
                    let len = read_le16(data@[2], data@[3]);
                    if n < HEADER_SIZE + len {
                        r matches Err(NetError::Io(_))
                    } else {
                        r matches Ok(v) && v@ == data@.subrange(
                            HEADER_SIZE as int,
                            HEADER_SIZE + len,
                        )
                    }
                }
            }),
    {
        if data.len() < HEADER_SIZE {
            return Err(NetError::Io(unexpected_eof("Incomplete packet header")));
        }
        let (_, length) = match Self::decode_header(data) {
            Ok(h) => h,
            Err(e) => {
                return Err(e);
            },
        };
        let payload_end = HEADER_SIZE + length as usize;
        if data.len() < payload_end {
            return Err(NetError::Io(unexpected_eof("Incomplete packet payload")));
        }
        Ok(slice_to_vec(data, HEADER_SIZE, payload_end))
    }
}

/// Reading a frame's header gives back the id and the payload length it was
/// framed with.
pub proof fn lemma_frame_header(packet_id: u16, payload: Seq<u8>)
    requires
        payload.len() <= max_payload(),
    ensures
        frame(packet_id, payload).len() == HEADER_SIZE + payload.len(),
        read_le16(frame(packet_id, payload)[0], frame(packet_id, payload)[1]) == packet_id,
        read_le16(frame(packet_id, payload)[2], frame(packet_id, payload)[3]) == payload.len(),
        frame(packet_id, payload).subrange(HEADER_SIZE as int, HEADER_SIZE + payload.len())
            == payload,
{
    let f = frame(packet_id, payload);
    assert(f[0] == le16(packet_id)[0]);
    assert(f[1] == le16(packet_id)[1]);
    assert(f[2] == le16(payload.len() as u16)[0]);
    assert(f[3] == le16(payload.len() as u16)[1]);
    lemma_read_le16(packet_id);
    lemma_read_le16(payload.len() as u16);
    assert(f.subrange(HEADER_SIZE as int, HEADER_SIZE + payload.len()) =~= payload);
}

/// Decoding the header of an encoded frame gives back the packet id and the
/// payload length; decoding its payload gives back the payload.
pub proof fn law_codec_roundtrip(
    packet_id: u16,
    payload: Seq<u8>,
    framed: Seq<u8>,
)
    requires
        payload.len() <= max_payload(),
        framed == frame(packet_id, payload),
    ensures
        framed.len() >= HEADER_SIZE,
        read_le16(framed[0], framed[1]) == packet_id,
        read_le16(framed[2], framed[3]) == payload.len(),
        framed.len() >= HEADER_SIZE + read_le16(framed[2], framed[3]),
        framed.subrange(HEADER_SIZE as int, HEADER_SIZE + read_le16(framed[2], framed[3]))
            == payload,
{
    lemma_frame_header(packet_id, payload);
}

} // verus!
