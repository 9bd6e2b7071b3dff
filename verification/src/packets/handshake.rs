//! Connection handshake packets.
use vstd::prelude::*;
use crate::bytes::{le16, lemma_u16_at, push_bytes, push_u16, u16_at};
use crate::error::NetError;
use crate::opcodes::{ClientOpcode, ServerOpcode};
use crate::packets::{Packet, PacketCodec};

verus! {

/// Client version (client to server).
/// Payload: `[version: u8[4]][lang: u16 LE][pad: u8[20]]`.
#[derive(Debug, Clone)]
pub struct ClientVersionPacket {
    pub version: [u8; 4],
    pub lang: u16,
    pub pad: [u8; 20],
}

impl ClientVersionPacket {
    pub fn new(version: [u8; 4], lang: u16) -> (r: Self)
        ensures
            r.version == version,
            r.lang == lang,
            forall|i: int| 0 <= i < 20 ==> r.pad[i] == 0,
    {
        ClientVersionPacket { version, lang, pad: [0u8; 20] }
    }
}

impl Packet for ClientVersionPacket {
    open spec fn spec_id(&self) -> u16 {
        ClientOpcode::ClientVersion.spec_id()
    }

    open spec fn spec_payload(&self) -> Seq<u8> {
        self.version@ + le16(self.lang) + self.pad@
    }

    fn packet_id(&self) -> (id: u16) {
        ClientOpcode::ClientVersion.id()
    }

    fn encode(&self) -> (r: Result<Vec<u8>, NetError>) {
        let mut p: Vec<u8> = Vec::new();
        push_bytes(&mut p, self.version.as_slice());
        push_u16(&mut p, self.lang);
        push_bytes(&mut p, self.pad.as_slice());
        proof {
            assert(p@ =~= self.spec_payload());
        }
        PacketCodec::encode(self.packet_id(), p.as_slice())
    }
}

/// Connection accepted (server to client). Empty payload, header only.
#[derive(Debug, Clone)]
pub struct ConnectedPacket;

impl Packet for ConnectedPacket {
    open spec fn spec_id(&self) -> u16 {
        ServerOpcode::Connected.spec_id()
    }

    open spec fn spec_payload(&self) -> Seq<u8> {
        Seq::empty()
    }

    fn packet_id(&self) -> (id: u16) {
        ServerOpcode::Connected.id()
    }

    fn encode(&self) -> (r: Result<Vec<u8>, NetError>) {
        let mut p: Vec<u8> = Vec::new();
        proof {
            assert(p@ =~= self.spec_payload());
        }
        PacketCodec::encode(self.packet_id(), p.as_slice())
    }
}

/// The client-version payload holds the four version bytes, the language
/// code in bytes 4..6 (little-endian) and the twenty padding bytes, and
/// nothing more.
pub proof fn law_client_version_layout(p: ClientVersionPacket)
    ensures
        p.spec_payload().len() == 26,
        p.spec_payload().subrange(0, 4) == p.version@,
        u16_at(p.spec_payload(), 4) == p.lang,
        p.spec_payload().subrange(6, 26) == p.pad@,
{
    let s = p.spec_payload();
    assert(s.subrange(0, 4) =~= p.version@);
    assert(s.subrange(4, 6) =~= le16(p.lang));
    lemma_u16_at(s, 4, p.lang);
    assert(s.subrange(6, 26) =~= p.pad@);
}

} // verus!
