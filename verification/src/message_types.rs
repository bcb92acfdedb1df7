//! The five packets of the handshake and their wire codec.
//!
//! Every packet opens with the same eight-byte header: the protocol
//! signature, the packet type, the sequence number and a flags word.  The
//! writers (`spec_write_*` and the exec `write_to`) produce exactly one byte
//! string per packet; the parser (`spec_parse_packet` and the exec
//! `read_packet`) accepts exactly those strings, consuming the whole buffer,
//! so that decoding inverts encoding packet for packet.

use vstd::prelude::*;
use crate::srd_errors::SrdError;
use crate::wire::spec_block;
use crate::wire::spec_u16_le;
use crate::wire::spec_u16_val;
use crate::wire::spec_u32_le;
use crate::wire::spec_u32_val;
use crate::wire::read_block;
use crate::wire::read_bytes;
use crate::wire::read_u16;
use crate::wire::read_u32;
use crate::wire::read_u8;
use crate::wire::write_block;
use crate::wire::write_bytes;
use crate::wire::write_u16;
use crate::wire::write_u32;
use crate::wire::write_u8;

verus! {

/// The four-byte protocol signature, "SRD" and a zero, read little-endian.
pub const SRD_SIGNATURE: u32 = 0x00445253;

/// Packet type of INITIATE.
pub const SRD_INITIATE_MSG_ID: u8 = 1;

/// Packet type of OFFER.
pub const SRD_OFFER_MSG_ID: u8 = 2;

/// Packet type of ACCEPT.
pub const SRD_ACCEPT_MSG_ID: u8 = 3;

/// Packet type of CONFIRM.
pub const SRD_CONFIRM_MSG_ID: u8 = 4;

/// Packet type of DELEGATE.
pub const SRD_DELEGATE_MSG_ID: u8 = 5;

/// The client's opening proposal of a key size.
#[derive(Debug, Clone, Copy, PartialEq, Eq, Structural)]
pub struct SrdInitiate {
    pub signature: u32,
    pub packet_type: u8,
    pub seq_num: u8,
    pub flags: u16,
    pub key_size: u16,
    pub reserved: u16,
}

/// The server's group parameters, public key and nonce.
#[derive(Debug, Clone)]
pub struct SrdOffer {
    pub signature: u32,
    pub packet_type: u8,
    pub seq_num: u8,
    pub flags: u16,
    pub key_size: u16,
    pub generator: Vec<u8>,
    pub prime: Vec<u8>,
    pub public_key: Vec<u8>,
    pub nonce: Vec<u8>,
}

/// The client's public key, nonce, optional channel binding and MAC.
#[derive(Debug, Clone)]
pub struct SrdAccept {
    pub signature: u32,
    pub packet_type: u8,
    pub seq_num: u8,
    pub flags: u16,
    pub key_size: u16,
    pub public_key: Vec<u8>,
    pub nonce: Vec<u8>,
    pub cbt: Option<Vec<u8>>,
    pub mac: Vec<u8>,
}

/// The server's optional channel binding and MAC.
#[derive(Debug, Clone)]
pub struct SrdConfirm {
    pub signature: u32,
    pub packet_type: u8,
    pub seq_num: u8,
    pub flags: u16,
    pub cbt: Option<Vec<u8>>,
    pub mac: Vec<u8>,
}

/// The client's encrypted credential blob and MAC.
#[derive(Debug, Clone)]
pub struct SrdDelegate {
    pub signature: u32,
    pub packet_type: u8,
    pub seq_num: u8,
    pub flags: u16,
    pub encrypted_blob: Vec<u8>,
    pub mac: Vec<u8>,
}

/// Any packet of the handshake, tagged by kind.
#[derive(Debug, Clone)]
pub enum SrdPacket {
    Initiate(SrdInitiate),
    Offer(SrdOffer),
    Accept(SrdAccept),
    Confirm(SrdConfirm),
    Delegate(SrdDelegate),
}

/// Mathematical image of `SrdInitiate`.
pub ghost struct SrdInitiateV {
    pub signature: u32,
    pub packet_type: u8,
    pub seq_num: u8,
    pub flags: u16,
    pub key_size: u16,
    pub reserved: u16,
}

/// Mathematical image of `SrdOffer`.
pub ghost struct SrdOfferV {
    pub signature: u32,
    pub packet_type: u8,
    pub seq_num: u8,
    pub flags: u16,
    pub key_size: u16,
    pub generator: Seq<u8>,
    pub prime: Seq<u8>,
    pub public_key: Seq<u8>,
    pub nonce: Seq<u8>,
}

/// Mathematical image of `SrdAccept`.
pub ghost struct SrdAcceptV {
    pub signature: u32,
    pub packet_type: u8,
    pub seq_num: u8,
    pub flags: u16,
    pub key_size: u16,
    pub public_key: Seq<u8>,
    pub nonce: Seq<u8>,
    pub cbt: Option<Seq<u8>>,
    pub mac: Seq<u8>,
}

/// Mathematical image of `SrdConfirm`.
pub ghost struct SrdConfirmV {
    pub signature: u32,
    pub packet_type: u8,
    pub seq_num: u8,
    pub flags: u16,
    pub cbt: Option<Seq<u8>>,
    pub mac: Seq<u8>,
}

/// Mathematical image of `SrdDelegate`.
pub ghost struct SrdDelegateV {
    pub signature: u32,
    pub packet_type: u8,
    pub seq_num: u8,
    pub flags: u16,
    pub encrypted_blob: Seq<u8>,
    pub mac: Seq<u8>,
}

/// Mathematical image of `SrdPacket`.
pub ghost enum SrdPacketV {
    Initiate(SrdInitiateV),
    Offer(SrdOfferV),
    Accept(SrdAcceptV),
    Confirm(SrdConfirmV),
    Delegate(SrdDelegateV),
}

/// The image of an optional byte vector.
pub open spec fn opt_bytes_view(c: Option<Vec<u8>>) -> Option<Seq<u8>> {
    match c {
        Some(v) => Some(v@),
        None => None,
    }
}

impl View for SrdInitiate {
    type V = SrdInitiateV;

    open spec fn view(&self) -> SrdInitiateV {
        SrdInitiateV {
            signature: self.signature,
            packet_type: self.packet_type,
            seq_num: self.seq_num,
            flags: self.flags,
            key_size: self.key_size,
            reserved: self.reserved,
        }
    }
}

impl View for SrdOffer {
    type V = SrdOfferV;

    open spec fn view(&self) -> SrdOfferV {
        SrdOfferV {
            signature: self.signature,
            packet_type: self.packet_type,
            seq_num: self.seq_num,
            flags: self.flags,
            key_size: self.key_size,
            generator: self.generator@,
            prime: self.prime@,
            public_key: self.public_key@,
            nonce: self.nonce@,
        }
    }
}

impl View for SrdAccept {
    type V = SrdAcceptV;

    open spec fn view(&self) -> SrdAcceptV {
        SrdAcceptV {
            signature: self.signature,
            packet_type: self.packet_type,
            seq_num: self.seq_num,
            flags: self.flags,
            key_size: self.key_size,
            public_key: self.public_key@,
            nonce: self.nonce@,
            cbt: opt_bytes_view(self.cbt),
            mac: self.mac@,
        }
    }
}

impl View for SrdConfirm {
    type V = SrdConfirmV;

    open spec fn view(&self) -> SrdConfirmV {
        SrdConfirmV {
            signature: self.signature,
            packet_type: self.packet_type,
            seq_num: self.seq_num,
            flags: self.flags,
            cbt: opt_bytes_view(self.cbt),
            mac: self.mac@,
        }
    }
}

impl View for SrdDelegate {
    type V = SrdDelegateV;

    open spec fn view(&self) -> SrdDelegateV {
        SrdDelegateV {
            signature: self.signature,
            packet_type: self.packet_type,
            seq_num: self.seq_num,
            flags: self.flags,
            encrypted_blob: self.encrypted_blob@,
            mac: self.mac@,
        }
    }
}

impl View for SrdPacket {
    type V = SrdPacketV;

    open spec fn view(&self) -> SrdPacketV {
        match self {
            SrdPacket::Initiate(m) => SrdPacketV::Initiate(m@),
            SrdPacket::Offer(m) => SrdPacketV::Offer(m@),
            SrdPacket::Accept(m) => SrdPacketV::Accept(m@),
            SrdPacket::Confirm(m) => SrdPacketV::Confirm(m@),
            SrdPacket::Delegate(m) => SrdPacketV::Delegate(m@),
        }
    }
}

/// Well-formed INITIATE: right signature and type.
pub open spec fn initiate_wf(v: SrdInitiateV) -> bool {
    v.signature == SRD_SIGNATURE && v.packet_type == SRD_INITIATE_MSG_ID
}

/// Well-formed OFFER: right header constants, a 32-byte nonce, and
/// length-prefixable big integers.
pub open spec fn offer_wf(v: SrdOfferV) -> bool {
    &&& v.signature == SRD_SIGNATURE
    &&& v.packet_type == SRD_OFFER_MSG_ID
    &&& v.generator.len() <= u32::MAX
    &&& v.prime.len() <= u32::MAX
    &&& v.public_key.len() <= u32::MAX
    &&& v.nonce.len() == 32
}

/// Well-formed ACCEPT: right header constants, 32-byte nonce, MAC and
/// channel binding when present, and a length-prefixable public key.
pub open spec fn accept_wf(v: SrdAcceptV) -> bool {
    &&& v.signature == SRD_SIGNATURE
    &&& v.packet_type == SRD_ACCEPT_MSG_ID
    &&& v.public_key.len() <= u32::MAX
    &&& v.nonce.len() == 32
    &&& match v.cbt {
        Some(c) => c.len() == 32,
        None => true,
    }
    &&& v.mac.len() == 32
}

/// Well-formed CONFIRM: right header constants, 32-byte MAC and channel
/// binding when present.
pub open spec fn confirm_wf(v: SrdConfirmV) -> bool {
    &&& v.signature == SRD_SIGNATURE
    &&& v.packet_type == SRD_CONFIRM_MSG_ID
    &&& match v.cbt {
        Some(c) => c.len() == 32,
        None => true,
    }
    &&& v.mac.len() == 32
}

/// Well-formed DELEGATE: right header constants, 32-byte MAC and a
/// length-prefixable payload.
pub open spec fn delegate_wf(v: SrdDelegateV) -> bool {
    &&& v.signature == SRD_SIGNATURE
    &&& v.packet_type == SRD_DELEGATE_MSG_ID
    &&& v.encrypted_blob.len() <= u32::MAX
    &&& v.mac.len() == 32
}

/// Well-formed packet of any kind.
pub open spec fn packet_wf(v: SrdPacketV) -> bool {
    match v {
        SrdPacketV::Initiate(m) => initiate_wf(m),
        SrdPacketV::Offer(m) => offer_wf(m),
        SrdPacketV::Accept(m) => accept_wf(m),
        SrdPacketV::Confirm(m) => confirm_wf(m),
        SrdPacketV::Delegate(m) => delegate_wf(m),
    }
}

/// The length constraints alone that writing a packet needs: every
/// variable-length field must fit behind a four-byte length.
pub open spec fn packet_writable(v: SrdPacketV) -> bool {
    match v {
        SrdPacketV::Initiate(_) => true,
        SrdPacketV::Offer(m) => m.generator.len() <= u32::MAX && m.prime.len() <= u32::MAX
            && m.public_key.len() <= u32::MAX,
        SrdPacketV::Accept(m) => m.public_key.len() <= u32::MAX,
        SrdPacketV::Confirm(_) => true,
        SrdPacketV::Delegate(m) => m.encrypted_blob.len() <= u32::MAX,
    }
}

/// The eight header bytes shared by every packet.
pub open spec fn spec_write_header(signature: u32, packet_type: u8, seq_num: u8, flags: u16) -> Seq<
    u8,
> {
    spec_u32_le(signature) + seq![packet_type, seq_num] + spec_u16_le(flags)
}

/// An optional channel-binding token: a presence byte, then the token.
pub open spec fn spec_write_cbt(cbt: Option<Seq<u8>>) -> Seq<u8> {
    match cbt {
        None => seq![0u8],
        Some(c) => seq![1u8] + c,
    }
}

/// The wire bytes of an INITIATE.
pub open spec fn spec_write_initiate(v: SrdInitiateV) -> Seq<u8> {
    spec_write_header(v.signature, v.packet_type, v.seq_num, v.flags) + spec_u16_le(v.key_size)
        + spec_u16_le(v.reserved)
}

/// The wire bytes of an OFFER.
pub open spec fn spec_write_offer(v: SrdOfferV) -> Seq<u8> {
    spec_write_header(v.signature, v.packet_type, v.seq_num, v.flags) + spec_u16_le(v.key_size)
        + spec_block(v.generator) + spec_block(v.prime) + spec_block(v.public_key) + v.nonce
}

/// The wire bytes of an ACCEPT without its trailing MAC.
pub open spec fn spec_write_accept_nomac(v: SrdAcceptV) -> Seq<u8> {
    spec_write_header(v.signature, v.packet_type, v.seq_num, v.flags) + spec_u16_le(v.key_size)
        + spec_block(v.public_key) + v.nonce + spec_write_cbt(v.cbt)
}

/// The wire bytes of an ACCEPT.
pub open spec fn spec_write_accept(v: SrdAcceptV) -> Seq<u8> {
    spec_write_accept_nomac(v) + v.mac
}

/// The wire bytes of a CONFIRM without its trailing MAC.
pub open spec fn spec_write_confirm_nomac(v: SrdConfirmV) -> Seq<u8> {
    spec_write_header(v.signature, v.packet_type, v.seq_num, v.flags) + spec_write_cbt(v.cbt)
}

/// The wire bytes of a CONFIRM.
pub open spec fn spec_write_confirm(v: SrdConfirmV) -> Seq<u8> {
    spec_write_confirm_nomac(v) + v.mac
}

/// The wire bytes of a DELEGATE without its trailing MAC.
pub open spec fn spec_write_delegate_nomac(v: SrdDelegateV) -> Seq<u8> {
    spec_write_header(v.signature, v.packet_type, v.seq_num, v.flags) + spec_block(v.encrypted_blob)
}

/// The wire bytes of a DELEGATE.
pub open spec fn spec_write_delegate(v: SrdDelegateV) -> Seq<u8> {
    spec_write_delegate_nomac(v) + v.mac
}

/// The wire bytes of any packet.
pub open spec fn spec_write_packet(v: SrdPacketV) -> Seq<u8> {
    match v {
        SrdPacketV::Initiate(m) => spec_write_initiate(m),
        SrdPacketV::Offer(m) => spec_write_offer(m),
        SrdPacketV::Accept(m) => spec_write_accept(m),
        SrdPacketV::Confirm(m) => spec_write_confirm(m),
        SrdPacketV::Delegate(m) => spec_write_delegate(m),
    }
}

/// Whether a length-prefixed block fits at `pos`.
pub open spec fn spec_block_fits(s: Seq<u8>, pos: int) -> bool {
    pos + 4 <= s.len() && pos + 4 + spec_u32_val(s.subrange(pos, pos + 4)) <= s.len()
}

/// The content of the length-prefixed block at `pos`.
pub open spec fn spec_block_content(s: Seq<u8>, pos: int) -> Seq<u8> {
    s.subrange(pos + 4, pos + 4 + spec_u32_val(s.subrange(pos, pos + 4)))
}

/// The position just past the length-prefixed block at `pos`.
pub open spec fn spec_block_end(s: Seq<u8>, pos: int) -> int {
    pos + 4 + spec_u32_val(s.subrange(pos, pos + 4))
}

/// What the bytes of an INITIATE stand for, or why they are rejected.
pub open spec fn spec_parse_initiate(s: Seq<u8>) -> Result<SrdInitiateV, SrdError> {
    if s.len() != 12 {
        Err(SrdError::Io)
    } else {
        Ok(
            SrdInitiateV {
                signature: spec_u32_val(s.subrange(0, 4)),
                packet_type: s[4],
                seq_num: s[5],
                flags: spec_u16_val(s.subrange(6, 8)),
                key_size: spec_u16_val(s.subrange(8, 10)),
                reserved: spec_u16_val(s.subrange(10, 12)),
            },
        )
    }
}

/// What the bytes of an OFFER stand for, or why they are rejected.
pub open spec fn spec_parse_offer(s: Seq<u8>) -> Result<SrdOfferV, SrdError> {
    if s.len() < 10 {
        Err(SrdError::Io)
    } else if !spec_block_fits(s, 10) {
        Err(SrdError::Io)
    } else {
        let p1 = spec_block_end(s, 10);
        if !spec_block_fits(s, p1) {
            Err(SrdError::Io)
        } else {
            let p2 = spec_block_end(s, p1);
            if !spec_block_fits(s, p2) {
                Err(SrdError::Io)
            } else {
                let p3 = spec_block_end(s, p2);
                if s.len() != p3 + 32 {
                    Err(SrdError::Io)
                } else {
                    Ok(
                        SrdOfferV {
                            signature: spec_u32_val(s.subrange(0, 4)),
                            packet_type: s[4],
                            seq_num: s[5],
                            flags: spec_u16_val(s.subrange(6, 8)),
                            key_size: spec_u16_val(s.subrange(8, 10)),
                            generator: spec_block_content(s, 10),
                            prime: spec_block_content(s, p1),
                            public_key: spec_block_content(s, p2),
                            nonce: s.subrange(p3, p3 + 32),
                        },
                    )
                }
            }
        }
    }
}

/// What the bytes of an ACCEPT stand for, or why they are rejected.
pub open spec fn spec_parse_accept(s: Seq<u8>) -> Result<SrdAcceptV, SrdError> {
    if s.len() < 10 {
        Err(SrdError::Io)
    } else if !spec_block_fits(s, 10) {
        Err(SrdError::Io)
    } else {
        let p1 = spec_block_end(s, 10);
        if p1 + 33 > s.len() {
            Err(SrdError::Io)
        } else {
            let flag = s[p1 + 32];
            if flag == 0 {
                if s.len() != p1 + 65 {
                    Err(SrdError::Io)
                } else {
                    Ok(
                        SrdAcceptV {
                            signature: spec_u32_val(s.subrange(0, 4)),
                            packet_type: s[4],
                            seq_num: s[5],
                            flags: spec_u16_val(s.subrange(6, 8)),
                            key_size: spec_u16_val(s.subrange(8, 10)),
                            public_key: spec_block_content(s, 10),
                            nonce: s.subrange(p1, p1 + 32),
                            cbt: None,
                            mac: s.subrange(p1 + 33, p1 + 65),
                        },
                    )
                }
            } else if flag == 1 {
                if s.len() != p1 + 97 {
                    Err(SrdError::Io)
                } else {
                    Ok(
                        SrdAcceptV {
                            signature: spec_u32_val(s.subrange(0, 4)),
                            packet_type: s[4],
                            seq_num: s[5],
                            flags: spec_u16_val(s.subrange(6, 8)),
                            key_size: spec_u16_val(s.subrange(8, 10)),
                            public_key: spec_block_content(s, 10),
                            nonce: s.subrange(p1, p1 + 32),
                            cbt: Some(s.subrange(p1 + 33, p1 + 65)),
                            mac: s.subrange(p1 + 65, p1 + 97),
                        },
                    )
                }
            } else {
                Err(SrdError::Io)
            }
        }
    }
}

/// What the bytes of a CONFIRM stand for, or why they are rejected.
pub open spec fn spec_parse_confirm(s: Seq<u8>) -> Result<SrdConfirmV, SrdError> {
    if s.len() < 9 {
        Err(SrdError::Io)
    } else {
        let flag = s[8];
        if flag == 0 {
            if s.len() != 41 {
                Err(SrdError::Io)
            } else {
                Ok(
                    SrdConfirmV {
                        signature: spec_u32_val(s.subrange(0, 4)),
                        packet_type: s[4],
                        seq_num: s[5],
                        flags: spec_u16_val(s.subrange(6, 8)),
                        cbt: None,
                        mac: s.subrange(9, 41),
                    },
                )
            }
        } else if flag == 1 {
            if s.len() != 73 {
                Err(SrdError::Io)
            } else {
                Ok(
                    SrdConfirmV {
                        signature: spec_u32_val(s.subrange(0, 4)),
                        packet_type: s[4],
                        seq_num: s[5],
                        flags: spec_u16_val(s.subrange(6, 8)),
                        cbt: Some(s.subrange(9, 41)),
                        mac: s.subrange(41, 73),
                    },
                )
            }
        } else {
            Err(SrdError::Io)
        }
    }
}

/// What the bytes of a DELEGATE stand for, or why they are rejected.
pub open spec fn spec_parse_delegate(s: Seq<u8>) -> Result<SrdDelegateV, SrdError> {
    if !spec_block_fits(s, 8) {
        Err(SrdError::Io)
    } else {
        let p1 = spec_block_end(s, 8);
        if s.len() != p1 + 32 {
            Err(SrdError::Io)
        } else {
            Ok(
                SrdDelegateV {
                    signature: spec_u32_val(s.subrange(0, 4)),
                    packet_type: s[4],
                    seq_num: s[5],
                    flags: spec_u16_val(s.subrange(6, 8)),
                    encrypted_blob: spec_block_content(s, 8),
                    mac: s.subrange(p1, p1 + 32),
                },
            )
        }
    }
}

/// What any packet's bytes stand for: the signature is checked first, then
/// the packet type selects the layout, which must fill the buffer exactly.
pub open spec fn spec_parse_packet(s: Seq<u8>) -> Result<SrdPacketV, SrdError> {
    if s.len() < 8 {
        Err(SrdError::Io)
    } else if spec_u32_val(s.subrange(0, 4)) != SRD_SIGNATURE {
        Err(SrdError::InvalidSignature)
    } else if s[4] == SRD_INITIATE_MSG_ID {
        match spec_parse_initiate(s) {
            Ok(v) => Ok(SrdPacketV::Initiate(v)),
            Err(e) => Err(e),
        }
    } else if s[4] == SRD_OFFER_MSG_ID {
        match spec_parse_offer(s) {
            Ok(v) => Ok(SrdPacketV::Offer(v)),
            Err(e) => Err(e),
        }
    } else if s[4] == SRD_ACCEPT_MSG_ID {
        match spec_parse_accept(s) {
            Ok(v) => Ok(SrdPacketV::Accept(v)),
            Err(e) => Err(e),
        }
    } else if s[4] == SRD_CONFIRM_MSG_ID {
        match spec_parse_confirm(s) {
            Ok(v) => Ok(SrdPacketV::Confirm(v)),
            Err(e) => Err(e),
        }
    } else if s[4] == SRD_DELEGATE_MSG_ID {
        match spec_parse_delegate(s) {
            Ok(v) => Ok(SrdPacketV::Delegate(v)),
            Err(e) => Err(e),
        }
    } else {
        Err(SrdError::Io)
    }
}

/// Decoding inverts encoding: the bytes of a well-formed INITIATE parse
/// back to the same packet.
pub proof fn lemma_roundtrip_initiate(v: SrdInitiateV)
    requires
        initiate_wf(v),
    ensures
        spec_parse_packet(spec_write_initiate(v)) == Ok::<SrdPacketV, SrdError>(SrdPacketV::Initiate(v)),
{
    let s = spec_write_initiate(v);
    assert(s.subrange(0, 4) =~= spec_u32_le(v.signature));
    crate::wire::lemma_u32_le_val(v.signature);
    assert(s[4] == v.packet_type);
    assert(s[5] == v.seq_num);
    assert(s.subrange(6, 8) =~= spec_u16_le(v.flags));
    assert(s.subrange(8, 10) =~= spec_u16_le(v.key_size));
    assert(s.subrange(10, 12) =~= spec_u16_le(v.reserved));
    crate::wire::lemma_u16_le_val(v.flags);
    crate::wire::lemma_u16_le_val(v.key_size);
    crate::wire::lemma_u16_le_val(v.reserved);
}

/// Decoding inverts encoding: the bytes of a well-formed OFFER parse back
/// to the same packet.
#[verifier::rlimit(100)]
pub proof fn lemma_roundtrip_offer(v: SrdOfferV)
    requires
        offer_wf(v),
    ensures
        spec_parse_packet(spec_write_offer(v)) == Ok::<SrdPacketV, SrdError>(SrdPacketV::Offer(v)),
{
    let s = spec_write_offer(v);
    let glen = v.generator.len() as int;
    let plen = v.prime.len() as int;
    let klen = v.public_key.len() as int;
    let p1 = 14 + glen;
    let p2 = p1 + 4 + plen;
    let p3 = p2 + 4 + klen;
    assert(s.len() == p3 + 32);
    assert(s.subrange(0, 4) =~= spec_u32_le(v.signature));
    crate::wire::lemma_u32_le_val(v.signature);
    assert(s[4] == v.packet_type);
    assert(s[5] == v.seq_num);
    assert(s.subrange(6, 8) =~= spec_u16_le(v.flags));
    assert(s.subrange(8, 10) =~= spec_u16_le(v.key_size));
    crate::wire::lemma_u16_le_val(v.flags);
    crate::wire::lemma_u16_le_val(v.key_size);
    assert(s.subrange(10, 14) =~= spec_u32_le(v.generator.len() as u32));
    crate::wire::lemma_u32_le_val(v.generator.len() as u32);
    assert(spec_block_fits(s, 10));
    assert(spec_block_end(s, 10) == p1);
    assert(s.subrange(14, 14 + glen) =~= v.generator);
    assert(s.subrange(p1, p1 + 4) =~= spec_u32_le(v.prime.len() as u32));
    crate::wire::lemma_u32_le_val(v.prime.len() as u32);
    assert(spec_block_fits(s, p1));
    assert(spec_block_end(s, p1) == p2);
    assert(s.subrange(p1 + 4, p1 + 4 + plen) =~= v.prime);
    assert(s.subrange(p2, p2 + 4) =~= spec_u32_le(v.public_key.len() as u32));
    crate::wire::lemma_u32_le_val(v.public_key.len() as u32);
    assert(spec_block_fits(s, p2));
    assert(spec_block_end(s, p2) == p3);
    assert(s.subrange(p2 + 4, p2 + 4 + klen) =~= v.public_key);
    assert(s.subrange(p3, p3 + 32) =~= v.nonce);
}

/// Decoding inverts encoding: the bytes of a well-formed ACCEPT parse back
/// to the same packet.
#[verifier::rlimit(100)]
pub proof fn lemma_roundtrip_accept(v: SrdAcceptV)
    requires
        accept_wf(v),
    ensures
        spec_parse_packet(spec_write_accept(v)) == Ok::<SrdPacketV, SrdError>(SrdPacketV::Accept(v)),
{
    let s = spec_write_accept(v);
    let klen = v.public_key.len() as int;
    let p1 = 14 + klen;
    assert(s.subrange(0, 4) =~= spec_u32_le(v.signature));
    crate::wire::lemma_u32_le_val(v.signature);
    assert(s[4] == v.packet_type);
    assert(s[5] == v.seq_num);
    assert(s.subrange(6, 8) =~= spec_u16_le(v.flags));
    assert(s.subrange(8, 10) =~= spec_u16_le(v.key_size));
    crate::wire::lemma_u16_le_val(v.flags);
    crate::wire::lemma_u16_le_val(v.key_size);
    assert(s.subrange(10, 14) =~= spec_u32_le(v.public_key.len() as u32));
    crate::wire::lemma_u32_le_val(v.public_key.len() as u32);
    assert(spec_block_fits(s, 10));
    assert(spec_block_end(s, 10) == p1);
    assert(s.subrange(14, 14 + klen) =~= v.public_key);
    assert(s.subrange(p1, p1 + 32) =~= v.nonce);
    match v.cbt {
        None => {
            assert(s.len() == p1 + 65);
            assert(s[p1 + 32] == 0);
            assert(s.subrange(p1 + 33, p1 + 65) =~= v.mac);
        },
        Some(c) => {
            assert(s.len() == p1 + 97);
            assert(s[p1 + 32] == 1);
            assert(s.subrange(p1 + 33, p1 + 65) =~= c);
            assert(s.subrange(p1 + 65, p1 + 97) =~= v.mac);
        },
    }
}

/// Decoding inverts encoding: the bytes of a well-formed CONFIRM parse back
/// to the same packet.
pub proof fn lemma_roundtrip_confirm(v: SrdConfirmV)
    requires
        confirm_wf(v),
    ensures
        spec_parse_packet(spec_write_confirm(v)) == Ok::<SrdPacketV, SrdError>(SrdPacketV::Confirm(v)),
{
    let s = spec_write_confirm(v);
    assert(s.subrange(0, 4) =~= spec_u32_le(v.signature));
    crate::wire::lemma_u32_le_val(v.signature);
    assert(s[4] == v.packet_type);
    assert(s[5] == v.seq_num);
    assert(s.subrange(6, 8) =~= spec_u16_le(v.flags));
    crate::wire::lemma_u16_le_val(v.flags);
    match v.cbt {
        None => {
            assert(s.len() == 41);
            assert(s[8] == 0);
            assert(s.subrange(9, 41) =~= v.mac);
        },
        Some(c) => {
            assert(s.len() == 73);
            assert(s[8] == 1);
            assert(s.subrange(9, 41) =~= c);
            assert(s.subrange(41, 73) =~= v.mac);
        },
    }
}

/// Decoding inverts encoding: the bytes of a well-formed DELEGATE parse
/// back to the same packet.
pub proof fn lemma_roundtrip_delegate(v: SrdDelegateV)
    requires
        delegate_wf(v),
    ensures
        spec_parse_packet(spec_write_delegate(v)) == Ok::<SrdPacketV, SrdError>(SrdPacketV::Delegate(v)),
{
    let s = spec_write_delegate(v);
    let blen = v.encrypted_blob.len() as int;
    let p1 = 12 + blen;
    assert(s.subrange(0, 4) =~= spec_u32_le(v.signature));
    crate::wire::lemma_u32_le_val(v.signature);
    assert(s[4] == v.packet_type);
    assert(s[5] == v.seq_num);
    assert(s.subrange(6, 8) =~= spec_u16_le(v.flags));
    crate::wire::lemma_u16_le_val(v.flags);
    assert(s.subrange(8, 12) =~= spec_u32_le(v.encrypted_blob.len() as u32));
    crate::wire::lemma_u32_le_val(v.encrypted_blob.len() as u32);
    assert(spec_block_fits(s, 8));
    assert(spec_block_end(s, 8) == p1);
    assert(s.subrange(12, 12 + blen) =~= v.encrypted_blob);
    assert(s.len() == p1 + 32);
    assert(s.subrange(p1, p1 + 32) =~= v.mac);
}

/// Decoding inverts encoding for every well-formed packet.
pub proof fn lemma_packet_roundtrip(v: SrdPacketV)
    requires
        packet_wf(v),
    ensures
        spec_parse_packet(spec_write_packet(v)) == Ok::<SrdPacketV, SrdError>(v),
{
    match v {
        SrdPacketV::Initiate(m) => lemma_roundtrip_initiate(m),
        SrdPacketV::Offer(m) => lemma_roundtrip_offer(m),
        SrdPacketV::Accept(m) => lemma_roundtrip_accept(m),
        SrdPacketV::Confirm(m) => lemma_roundtrip_confirm(m),
        SrdPacketV::Delegate(m) => lemma_roundtrip_delegate(m),
    }
}

/// Encoding inverts decoding: whatever the parser accepts is well formed
/// and writes back to the very bytes it was read from, so accepted buffers
/// and written packets correspond one to one.
#[verifier::rlimit(100)]
pub proof fn lemma_packet_canonical(s: Seq<u8>, v: SrdPacketV)
    requires
        spec_parse_packet(s) == Ok::<SrdPacketV, SrdError>(v),
    ensures
        packet_wf(v),
        spec_write_packet(v) == s,
{
    crate::wire::lemma_u32_val_le(s.subrange(0, 4));
    crate::wire::lemma_u16_val_le(s.subrange(6, 8));
    match v {
        SrdPacketV::Initiate(m) => {
            crate::wire::lemma_u16_val_le(s.subrange(8, 10));
            crate::wire::lemma_u16_val_le(s.subrange(10, 12));
            assert(spec_write_initiate(m) =~= s);
        },
        SrdPacketV::Offer(m) => {
            let p1 = spec_block_end(s, 10);
            let p2 = spec_block_end(s, p1);
            let p3 = spec_block_end(s, p2);
            crate::wire::lemma_u16_val_le(s.subrange(8, 10));
            crate::wire::lemma_u32_val_le(s.subrange(10, 14));
            crate::wire::lemma_u32_val_le(s.subrange(p1, p1 + 4));
            crate::wire::lemma_u32_val_le(s.subrange(p2, p2 + 4));
            assert(spec_block(m.generator) =~= s.subrange(10, p1));
            assert(spec_block(m.prime) =~= s.subrange(p1, p2));
            assert(spec_block(m.public_key) =~= s.subrange(p2, p3));
            assert(spec_write_offer(m) =~= s);
        },
        SrdPacketV::Accept(m) => {
            let p1 = spec_block_end(s, 10);
            crate::wire::lemma_u16_val_le(s.subrange(8, 10));
            crate::wire::lemma_u32_val_le(s.subrange(10, 14));
            assert(spec_block(m.public_key) =~= s.subrange(10, p1));
            assert(spec_write_accept(m) =~= s);
        },
        SrdPacketV::Confirm(m) => {
            assert(spec_write_confirm(m) =~= s);
        },
        SrdPacketV::Delegate(m) => {
            let p1 = spec_block_end(s, 8);
            crate::wire::lemma_u32_val_le(s.subrange(8, 12));
            assert(spec_block(m.encrypted_blob) =~= s.subrange(8, p1));
            assert(spec_write_delegate(m) =~= s);
        },
    }
}

impl SrdInitiate {
    /// A fresh INITIATE proposing `key_size`, numbered zero.
    pub fn new(key_size: u16) -> (r: SrdInitiate)
        ensures
            r@ == (SrdInitiateV {
                signature: SRD_SIGNATURE,
                packet_type: SRD_INITIATE_MSG_ID,
                seq_num: 0,
                flags: 0,
                key_size,
                reserved: 0,
            }),
    {
        SrdInitiate {
            signature: SRD_SIGNATURE,
            packet_type: SRD_INITIATE_MSG_ID,
            seq_num: 0,
            flags: 0,
            key_size,
            reserved: 0,
        }
    }

    /// The packet type of INITIATE.
    pub fn get_id(&self) -> (r: u8)
        ensures
            r == SRD_INITIATE_MSG_ID,
    {
        SRD_INITIATE_MSG_ID
    }

    /// Append the wire bytes of this packet.
    pub fn write_to(&self, buffer: &mut Vec<u8>)
        ensures
            final(buffer)@ == old(buffer)@ + spec_write_initiate(self@),
    {
        write_u32(buffer, self.signature);
        write_u8(buffer, self.packet_type);
        write_u8(buffer, self.seq_num);
        write_u16(buffer, self.flags);
        write_u16(buffer, self.key_size);
        write_u16(buffer, self.reserved);
        assert(final(buffer)@ =~= old(buffer)@ + spec_write_initiate(self@));
    }

    /// Decode an INITIATE from a whole buffer.
    pub fn read_from(buffer: &Vec<u8>) -> (r: Result<SrdInitiate, SrdError>)
        ensures
            match spec_parse_packet(buffer@) {
                Ok(SrdPacketV::Initiate(v)) => r matches Ok(p) && p@ == v,
                Ok(_) => r matches Err(e) && e == SrdError::Io,
                Err(e) => r matches Err(e2) && e2 == e,
            },
    {
        match read_packet(buffer) {
            Ok(SrdPacket::Initiate(p)) => Ok(p),
            Ok(_) => Err(SrdError::Io),
            Err(e) => Err(e),
        }
    }
}

impl SrdOffer {
    /// Append the wire bytes of this packet.
    pub fn write_to(&self, buffer: &mut Vec<u8>)
        requires
            self@.generator.len() <= u32::MAX,
            self@.prime.len() <= u32::MAX,
            self@.public_key.len() <= u32::MAX,
        ensures
            final(buffer)@ == old(buffer)@ + spec_write_offer(self@),
    {
        write_u32(buffer, self.signature);
        write_u8(buffer, self.packet_type);
        write_u8(buffer, self.seq_num);
        write_u16(buffer, self.flags);
        write_u16(buffer, self.key_size);
        write_block(buffer, &self.generator);
        write_block(buffer, &self.prime);
        write_block(buffer, &self.public_key);
        write_bytes(buffer, &self.nonce);
        assert(final(buffer)@ =~= old(buffer)@ + spec_write_offer(self@));
    }
}

impl SrdAccept {
    /// Append the wire bytes of this packet without its MAC field: the
    /// portion of it that its own MAC covers.
    pub fn write_nomac_to(&self, buffer: &mut Vec<u8>)
        requires
            self@.public_key.len() <= u32::MAX,
        ensures
            final(buffer)@ == old(buffer)@ + spec_write_accept_nomac(self@),
    {
        write_u32(buffer, self.signature);
        write_u8(buffer, self.packet_type);
        write_u8(buffer, self.seq_num);
        write_u16(buffer, self.flags);
        write_u16(buffer, self.key_size);
        write_block(buffer, &self.public_key);
        write_bytes(buffer, &self.nonce);
        match &self.cbt {
            None => write_u8(buffer, 0),
            Some(c) => {
                write_u8(buffer, 1);
                write_bytes(buffer, c);
            },
        }
        assert(final(buffer)@ =~= old(buffer)@ + spec_write_accept_nomac(self@));
    }

    /// Append the wire bytes of this packet.
    pub fn write_to(&self, buffer: &mut Vec<u8>)
        requires
            self@.public_key.len() <= u32::MAX,
        ensures
            final(buffer)@ == old(buffer)@ + spec_write_accept(self@),
    {
        write_u32(buffer, self.signature);
        write_u8(buffer, self.packet_type);
        write_u8(buffer, self.seq_num);
        write_u16(buffer, self.flags);
        write_u16(buffer, self.key_size);
        write_block(buffer, &self.public_key);
        write_bytes(buffer, &self.nonce);
        match &self.cbt {
            None => write_u8(buffer, 0),
            Some(c) => {
                write_u8(buffer, 1);
                write_bytes(buffer, c);
            },
        }
        write_bytes(buffer, &self.mac);
        assert(final(buffer)@ =~= old(buffer)@ + spec_write_accept(self@));
    }
}

impl SrdConfirm {
    /// Append the wire bytes of this packet without its MAC field: the
    /// portion of it that its own MAC covers.
    pub fn write_nomac_to(&self, buffer: &mut Vec<u8>)
        ensures
            final(buffer)@ == old(buffer)@ + spec_write_confirm_nomac(self@),
    {
        write_u32(buffer, self.signature);
        write_u8(buffer, self.packet_type);
        write_u8(buffer, self.seq_num);
        write_u16(buffer, self.flags);
        match &self.cbt {
            None => write_u8(buffer, 0),
            Some(c) => {
                write_u8(buffer, 1);
                write_bytes(buffer, c);
            },
        }
        assert(final(buffer)@ =~= old(buffer)@ + spec_write_confirm_nomac(self@));
    }

    /// Append the wire bytes of this packet.
    pub fn write_to(&self, buffer: &mut Vec<u8>)
        ensures
            final(buffer)@ == old(buffer)@ + spec_write_confirm(self@),
    {
        write_u32(buffer, self.signature);
        write_u8(buffer, self.packet_type);
        write_u8(buffer, self.seq_num);
        write_u16(buffer, self.flags);
        match &self.cbt {
            None => write_u8(buffer, 0),
            Some(c) => {
                write_u8(buffer, 1);
                write_bytes(buffer, c);
            },
        }
        write_bytes(buffer, &self.mac);
        assert(final(buffer)@ =~= old(buffer)@ + spec_write_confirm(self@));
    }
}

impl SrdDelegate {
    /// Append the wire bytes of this packet without its MAC field: the
    /// portion of it that its own MAC covers.
    pub fn write_nomac_to(&self, buffer: &mut Vec<u8>)
        requires
            self@.encrypted_blob.len() <= u32::MAX,
        ensures
            final(buffer)@ == old(buffer)@ + spec_write_delegate_nomac(self@),
    {
        write_u32(buffer, self.signature);
        write_u8(buffer, self.packet_type);
        write_u8(buffer, self.seq_num);
        write_u16(buffer, self.flags);
        write_block(buffer, &self.encrypted_blob);
        assert(final(buffer)@ =~= old(buffer)@ + spec_write_delegate_nomac(self@));
    }

    /// Append the wire bytes of this packet.
    pub fn write_to(&self, buffer: &mut Vec<u8>)
        requires
            self@.encrypted_blob.len() <= u32::MAX,
        ensures
            final(buffer)@ == old(buffer)@ + spec_write_delegate(self@),
    {
        write_u32(buffer, self.signature);
        write_u8(buffer, self.packet_type);
        write_u8(buffer, self.seq_num);
        write_u16(buffer, self.flags);
        write_block(buffer, &self.encrypted_blob);
        write_bytes(buffer, &self.mac);
        assert(final(buffer)@ =~= old(buffer)@ + spec_write_delegate(self@));
    }
}

impl SrdPacket {
    /// Append the wire bytes of this packet.
    pub fn write_to(&self, buffer: &mut Vec<u8>)
        requires
            packet_writable(self@),
        ensures
            final(buffer)@ == old(buffer)@ + spec_write_packet(self@),
    {
        match self {
            SrdPacket::Initiate(m) => m.write_to(buffer),
            SrdPacket::Offer(m) => m.write_to(buffer),
            SrdPacket::Accept(m) => m.write_to(buffer),
            SrdPacket::Confirm(m) => m.write_to(buffer),
            SrdPacket::Delegate(m) => m.write_to(buffer),
        }
    }

    /// The signature field of the packet.
    pub fn signature(&self) -> (r: u32)
        ensures
            r == self@.signature_of(),
    {
        match self {
            SrdPacket::Initiate(m) => m.signature,
            SrdPacket::Offer(m) => m.signature,
            SrdPacket::Accept(m) => m.signature,
            SrdPacket::Confirm(m) => m.signature,
            SrdPacket::Delegate(m) => m.signature,
        }
    }

    /// The sequence number field of the packet.
    pub fn seq_num(&self) -> (r: u8)
        ensures
            r == self@.seq_num_of(),
    {
        match self {
            SrdPacket::Initiate(m) => m.seq_num,
            SrdPacket::Offer(m) => m.seq_num,
            SrdPacket::Accept(m) => m.seq_num,
            SrdPacket::Confirm(m) => m.seq_num,
            SrdPacket::Delegate(m) => m.seq_num,
        }
    }
}

impl SrdPacketV {
    /// The signature field of the packet.
    pub open spec fn signature_of(self) -> u32 {
        match self {
            SrdPacketV::Initiate(m) => m.signature,
            SrdPacketV::Offer(m) => m.signature,
            SrdPacketV::Accept(m) => m.signature,
            SrdPacketV::Confirm(m) => m.signature,
            SrdPacketV::Delegate(m) => m.signature,
        }
    }

    /// The sequence number field of the packet.
    pub open spec fn seq_num_of(self) -> u8 {
        match self {
            SrdPacketV::Initiate(m) => m.seq_num,
            SrdPacketV::Offer(m) => m.seq_num,
            SrdPacketV::Accept(m) => m.seq_num,
            SrdPacketV::Confirm(m) => m.seq_num,
            SrdPacketV::Delegate(m) => m.seq_num,
        }
    }
}

/// Decode any packet from a whole buffer: exactly the buffers that a
/// well-formed packet writes are accepted, and yield that packet.
pub fn read_packet(buffer: &Vec<u8>) -> (r: Result<SrdPacket, SrdError>)
    ensures
        match spec_parse_packet(buffer@) {
            Ok(v) => r matches Ok(p) && p@ == v && packet_wf(v),
            Err(e) => r matches Err(e2) && e2 == e,
        },
{
    if buffer.len() < 8 {
        return Err(SrdError::Io);
    }
    let mut pos: usize = 0;
    let sig = match read_u32(buffer, &mut pos) {
        Ok(v) => v,
        Err(e) => {
            return Err(e);
        },
    };
    if sig != SRD_SIGNATURE {
        return Err(SrdError::InvalidSignature);
    }
    let packet_type = buffer[4];
    if packet_type == SRD_INITIATE_MSG_ID {
        match read_initiate(buffer) {
            Ok(p) => Ok(SrdPacket::Initiate(p)),
            Err(e) => Err(e),
        }
    } else if packet_type == SRD_OFFER_MSG_ID {
        match read_offer(buffer) {
            Ok(p) => Ok(SrdPacket::Offer(p)),
            Err(e) => Err(e),
        }
    } else if packet_type == SRD_ACCEPT_MSG_ID {
        match read_accept(buffer) {
            Ok(p) => Ok(SrdPacket::Accept(p)),
            Err(e) => Err(e),
        }
    } else if packet_type == SRD_CONFIRM_MSG_ID {
        match read_confirm(buffer) {
            Ok(p) => Ok(SrdPacket::Confirm(p)),
            Err(e) => Err(e),
        }
    } else if packet_type == SRD_DELEGATE_MSG_ID {
        match read_delegate(buffer) {
            Ok(p) => Ok(SrdPacket::Delegate(p)),
            Err(e) => Err(e),
        }
    } else {
        Err(SrdError::Io)
    }
}

/// Decode the INITIATE layout.
fn read_initiate(buffer: &Vec<u8>) -> (r: Result<SrdInitiate, SrdError>)
    requires
        buffer@.len() >= 8,
    ensures
        match spec_parse_initiate(buffer@) {
            Ok(v) => r matches Ok(p) && p@ == v && p@.signature == spec_u32_val(
                buffer@.subrange(0, 4),
            ) && p@.packet_type == buffer@[4],
            Err(e) => r matches Err(e2) && e2 == e,
        },
{
    if buffer.len() != 12 {
        return Err(SrdError::Io);
    }
    let mut pos: usize = 0;
    let signature = match read_u32(buffer, &mut pos) {
        Ok(v) => v,
        Err(e) => {
            return Err(e);
        },
    };
    let packet_type = match read_u8(buffer, &mut pos) {
        Ok(v) => v,
        Err(e) => {
            return Err(e);
        },
    };
    let seq_num = match read_u8(buffer, &mut pos) {
        Ok(v) => v,
        Err(e) => {
            return Err(e);
        },
    };
    let flags = match read_u16(buffer, &mut pos) {
        Ok(v) => v,
        Err(e) => {
            return Err(e);
        },
    };
    let key_size = match read_u16(buffer, &mut pos) {
        Ok(v) => v,
        Err(e) => {
            return Err(e);
        },
    };
    let reserved = match read_u16(buffer, &mut pos) {
        Ok(v) => v,
        Err(e) => {
            return Err(e);
        },
    };
    Ok(SrdInitiate { signature, packet_type, seq_num, flags, key_size, reserved })
}

/// Decode the OFFER layout.
fn read_offer(buffer: &Vec<u8>) -> (r: Result<SrdOffer, SrdError>)
    requires
        buffer@.len() >= 8,
        spec_u32_val(buffer@.subrange(0, 4)) == SRD_SIGNATURE,
        buffer@[4] == SRD_OFFER_MSG_ID,
    ensures
        match spec_parse_offer(buffer@) {
            Ok(v) => r matches Ok(p) && p@ == v && offer_wf(p@),
            Err(e) => r matches Err(e2) && e2 == e,
        },
{
    if buffer.len() < 10 {
        return Err(SrdError::Io);
    }
    let mut pos: usize = 0;
    let signature = match read_u32(buffer, &mut pos) {
        Ok(v) => v,
        Err(e) => {
            return Err(e);
        },
    };
    let packet_type = match read_u8(buffer, &mut pos) {
        Ok(v) => v,
        Err(e) => {
            return Err(e);
        },
    };
    let seq_num = match read_u8(buffer, &mut pos) {
        Ok(v) => v,
        Err(e) => {
            return Err(e);
        },
    };
    let flags = match read_u16(buffer, &mut pos) {
        Ok(v) => v,
        Err(e) => {
            return Err(e);
        },
    };
    let key_size = match read_u16(buffer, &mut pos) {
        Ok(v) => v,
        Err(e) => {
            return Err(e);
        },
    };
    let generator = match read_block(buffer, &mut pos) {
        Ok(v) => v,
        Err(e) => {
            return Err(e);
        },
    };
    let prime = match read_block(buffer, &mut pos) {
        Ok(v) => v,
        Err(e) => {
            return Err(e);
        },
    };
    let public_key = match read_block(buffer, &mut pos) {
        Ok(v) => v,
        Err(e) => {
            return Err(e);
        },
    };
    let nonce = match read_bytes(buffer, &mut pos, 32) {
        Ok(v) => v,
        Err(e) => {
            return Err(e);
        },
    };
    if pos != buffer.len() {
        return Err(SrdError::Io);
    }
    Ok(SrdOffer { signature, packet_type, seq_num, flags, key_size, generator, prime, public_key, nonce })
}

/// Decode the ACCEPT layout.
fn read_accept(buffer: &Vec<u8>) -> (r: Result<SrdAccept, SrdError>)
    requires
        buffer@.len() >= 8,
        spec_u32_val(buffer@.subrange(0, 4)) == SRD_SIGNATURE,
        buffer@[4] == SRD_ACCEPT_MSG_ID,
    ensures
        match spec_parse_accept(buffer@) {
            Ok(v) => r matches Ok(p) && p@ == v && accept_wf(p@),
            Err(e) => r matches Err(e2) && e2 == e,
        },
{
    if buffer.len() < 10 {
        return Err(SrdError::Io);
    }
    let mut pos: usize = 0;
    let signature = match read_u32(buffer, &mut pos) {
        Ok(v) => v,
        Err(e) => {
            return Err(e);
        },
    };
    let packet_type = match read_u8(buffer, &mut pos) {
        Ok(v) => v,
        Err(e) => {
            return Err(e);
        },
    };
    let seq_num = match read_u8(buffer, &mut pos) {
        Ok(v) => v,
        Err(e) => {
            return Err(e);
        },
    };
    let flags = match read_u16(buffer, &mut pos) {
        Ok(v) => v,
        Err(e) => {
            return Err(e);
        },
    };
    let key_size = match read_u16(buffer, &mut pos) {
        Ok(v) => v,
        Err(e) => {
            return Err(e);
        },
    };
    let public_key = match read_block(buffer, &mut pos) {
        Ok(v) => v,
        Err(e) => {
            return Err(e);
        },
    };
    let nonce = match read_bytes(buffer, &mut pos, 32) {
        Ok(v) => v,
        Err(e) => {
            return Err(e);
        },
    };
    let flag = match read_u8(buffer, &mut pos) {
        Ok(v) => v,
        Err(e) => {
            return Err(e);
        },
    };
    if flag == 0 {
        let mac = match read_bytes(buffer, &mut pos, 32) {
            Ok(v) => v,
            Err(e) => {
                return Err(e);
            },
        };
        if pos != buffer.len() {
            return Err(SrdError::Io);
        }
        Ok(SrdAccept { signature, packet_type, seq_num, flags, key_size, public_key, nonce, cbt: None, mac })
    } else if flag == 1 {
        let cbt = match read_bytes(buffer, &mut pos, 32) {
            Ok(v) => v,
            Err(e) => {
                return Err(e);
            },
        };
        let mac = match read_bytes(buffer, &mut pos, 32) {
            Ok(v) => v,
            Err(e) => {
                return Err(e);
            },
        };
        if pos != buffer.len() {
            return Err(SrdError::Io);
        }
        Ok(SrdAccept { signature, packet_type, seq_num, flags, key_size, public_key, nonce, cbt: Some(cbt), mac })
    } else {
        Err(SrdError::Io)
    }
}

/// Decode the CONFIRM layout.
fn read_confirm(buffer: &Vec<u8>) -> (r: Result<SrdConfirm, SrdError>)
    requires
        buffer@.len() >= 8,
        spec_u32_val(buffer@.subrange(0, 4)) == SRD_SIGNATURE,
        buffer@[4] == SRD_CONFIRM_MSG_ID,
    ensures
        match spec_parse_confirm(buffer@) {
            Ok(v) => r matches Ok(p) && p@ == v && confirm_wf(p@),
            Err(e) => r matches Err(e2) && e2 == e,
        },
{
    if buffer.len() < 9 {
        return Err(SrdError::Io);
    }
    let mut pos: usize = 0;
    let signature = match read_u32(buffer, &mut pos) {
        Ok(v) => v,
        Err(e) => {
            return Err(e);
        },
    };
    let packet_type = match read_u8(buffer, &mut pos) {
        Ok(v) => v,
        Err(e) => {
            return Err(e);
        },
    };
    let seq_num = match read_u8(buffer, &mut pos) {
        Ok(v) => v,
        Err(e) => {
            return Err(e);
        },
    };
    let flags = match read_u16(buffer, &mut pos) {
        Ok(v) => v,
        Err(e) => {
            return Err(e);
        },
    };
    let flag = match read_u8(buffer, &mut pos) {
        Ok(v) => v,
        Err(e) => {
            return Err(e);
        },
    };
    if flag == 0 {
        let mac = match read_bytes(buffer, &mut pos, 32) {
            Ok(v) => v,
            Err(e) => {
                return Err(e);
            },
        };
        if pos != buffer.len() {
            return Err(SrdError::Io);
        }
        Ok(SrdConfirm { signature, packet_type, seq_num, flags, cbt: None, mac })
    } else if flag == 1 {
        let cbt = match read_bytes(buffer, &mut pos, 32) {
            Ok(v) => v,
            Err(e) => {
                return Err(e);
            },
        };
        let mac = match read_bytes(buffer, &mut pos, 32) {
            Ok(v) => v,
            Err(e) => {
                return Err(e);
            },
        };
        if pos != buffer.len() {
            return Err(SrdError::Io);
        }
        Ok(SrdConfirm { signature, packet_type, seq_num, flags, cbt: Some(cbt), mac })
    } else {
        Err(SrdError::Io)
    }
}

/// Decode the DELEGATE layout.
fn read_delegate(buffer: &Vec<u8>) -> (r: Result<SrdDelegate, SrdError>)
    requires
        buffer@.len() >= 8,
        spec_u32_val(buffer@.subrange(0, 4)) == SRD_SIGNATURE,
        buffer@[4] == SRD_DELEGATE_MSG_ID,
    ensures
        match spec_parse_delegate(buffer@) {
            Ok(v) => r matches Ok(p) && p@ == v && delegate_wf(p@),
            Err(e) => r matches Err(e2) && e2 == e,
        },
{
    let mut pos: usize = 0;
    let signature = match read_u32(buffer, &mut pos) {
        Ok(v) => v,
        Err(e) => {
            return Err(e);
        },
    };
    let packet_type = match read_u8(buffer, &mut pos) {
        Ok(v) => v,
        Err(e) => {
            return Err(e);
        },
    };
    let seq_num = match read_u8(buffer, &mut pos) {
        Ok(v) => v,
        Err(e) => {
            return Err(e);
        },
    };
    let flags = match read_u16(buffer, &mut pos) {
        Ok(v) => v,
        Err(e) => {
            return Err(e);
        },
    };
    let encrypted_blob = match read_block(buffer, &mut pos) {
        Ok(v) => v,
        Err(e) => {
            return Err(e);
        },
    };
    let mac = match read_bytes(buffer, &mut pos, 32) {
        Ok(v) => v,
        Err(e) => {
            return Err(e);
        },
    };
    if pos != buffer.len() {
        return Err(SrdError::Io);
    }
    Ok(SrdDelegate { signature, packet_type, seq_num, flags, encrypted_blob, mac })
}

/// Every packet in a sequence is well formed.
pub open spec fn packets_wf(ms: Seq<SrdPacketV>) -> bool {
    forall|i: int| 0 <= i < ms.len() ==> packet_wf(ms[i])
}

/// The images of a vector of packets.
pub open spec fn views_of_packets(ms: Seq<SrdPacket>) -> Seq<SrdPacketV> {
    ms.map_values(|m: SrdPacket| m@)
}

/// The concatenated wire bytes of a sequence of packets, in order: the
/// input over which every transcript MAC is computed.
pub open spec fn spec_transcript_bytes(ms: Seq<SrdPacketV>) -> Seq<u8>
    decreases ms.len(),
{
    if ms.len() == 0 {
        Seq::empty()
    } else {
        spec_transcript_bytes(ms.drop_last()) + spec_write_packet(ms.last())
    }
}

/// Appending a packet to a vector appends its image to the images.
pub proof fn lemma_views_push(ms: Seq<SrdPacket>, m: SrdPacket)
    ensures
        views_of_packets(ms.push(m)) == views_of_packets(ms).push(m@),
{
    assert(views_of_packets(ms.push(m)) =~= views_of_packets(ms).push(m@));
}

/// Append the wire bytes of a whole transcript.
pub fn write_transcript(messages: &Vec<SrdPacket>, buffer: &mut Vec<u8>)
    requires
        packets_wf(views_of_packets(messages@)),
    ensures
        final(buffer)@ == old(buffer)@ + spec_transcript_bytes(views_of_packets(messages@)),
{
    let ghost views = views_of_packets(messages@);
    let mut i: usize = 0;
    while i < messages.len()
        invariant
            i <= messages@.len(),
            views == views_of_packets(messages@),
            packets_wf(views),
            buffer@ == old(buffer)@ + spec_transcript_bytes(views.take(i as int)),
        decreases messages@.len() - i,
    {
        let m = &messages[i];
        assert(m@ == views[i as int]);
        m.write_to(buffer);
        proof {
            assert(views.take(i + 1).drop_last() =~= views.take(i as int));
            assert(views.take(i + 1).last() == views[i as int]);
            assert(buffer@ =~= old(buffer)@ + spec_transcript_bytes(views.take(i + 1)));
        }
        i += 1;
    }
    assert(views.take(messages@.len() as int) =~= views);
}

} // verus!
