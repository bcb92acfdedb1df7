//! The handshake state machine.
//!
//! One `Srd` session drives one four-message exchange, as client or server.
//! `authenticate` consumes at most one inbound packet and emits at most one
//! outbound packet per call, advancing `state` from 0 to the terminal 3 and
//! `seq_num` once per message read or written.  Its contract
//! (`authenticate_rel`) states, for every state and role, exactly which
//! inputs succeed, which error every other input raises, how the session
//! changes, and which bytes leave.

use vstd::prelude::*;
use crate::bignum::bytes_be_to_nat;
use crate::bignum::bytes_nonzero;
use crate::bignum::lemma_bytes_zero_iff;
use crate::bignum::lemma_mod_pow_bytes_len;
use crate::bignum::lemma_mod_pow_commutes;
use crate::bignum::mod_pow_bytes;
use crate::crypto::aes256_cbc_decrypt;
use crate::crypto::aes256_cbc_encrypt;
use crate::crypto::aes256_cbc_encrypt_of;
use crate::crypto::hmac_sha256;
use crate::crypto::hmac_sha256_of;
use crate::crypto::mod_pow;
use crate::crypto::random_bytes;
use crate::crypto::sha256;
use crate::crypto::sha256_of;
use crate::dh_params::dh_generator;
use crate::dh_params::dh_prime;
use crate::message_types::packet_wf;
use crate::message_types::packet_writable;
use crate::message_types::packets_wf;
use crate::message_types::read_packet;
use crate::message_types::spec_parse_packet;
use crate::message_types::spec_transcript_bytes;
use crate::message_types::spec_write_accept;
use crate::message_types::spec_write_accept_nomac;
use crate::message_types::spec_write_confirm;
use crate::message_types::spec_write_confirm_nomac;
use crate::message_types::spec_write_delegate;
use crate::message_types::spec_write_delegate_nomac;
use crate::message_types::spec_write_initiate;
use crate::message_types::spec_write_offer;
use crate::message_types::spec_write_packet;
use crate::message_types::views_of_packets;
use crate::message_types::write_transcript;
use crate::message_types::lemma_views_push;
use crate::message_types::SrdAccept;
use crate::message_types::SrdAcceptV;
use crate::message_types::SrdConfirm;
use crate::message_types::SrdConfirmV;
use crate::message_types::SrdDelegate;
use crate::message_types::SrdDelegateV;
use crate::message_types::SrdInitiate;
use crate::message_types::SrdInitiateV;
use crate::message_types::SrdOffer;
use crate::message_types::SrdOfferV;
use crate::message_types::SrdPacket;
use crate::message_types::SrdPacketV;
use crate::message_types::SRD_ACCEPT_MSG_ID;
use crate::message_types::SRD_CONFIRM_MSG_ID;
use crate::message_types::SRD_DELEGATE_MSG_ID;
use crate::message_types::SRD_INITIATE_MSG_ID;
use crate::message_types::SRD_OFFER_MSG_ID;
use crate::message_types::SRD_SIGNATURE;
use crate::srd_blob::blob_wf;
use crate::srd_blob::spec_write_blob;
use crate::srd_blob::SrdBlob;
use crate::srd_blob::SrdBlobV;
use crate::srd_errors::SrdError;
use crate::wire::write_bytes;

verus! {

/// One handshake session.
pub struct Srd {
    pub blob: Option<SrdBlob>,
    pub is_server: bool,
    pub key_size: u16,
    pub seq_num: u8,
    pub state: u8,
    pub messages: Vec<SrdPacket>,
    pub cert_data: Option<Vec<u8>>,
    pub client_nonce: Vec<u8>,
    pub server_nonce: Vec<u8>,
    pub delegation_key: Vec<u8>,
    pub integrity_key: Vec<u8>,
    pub iv: Vec<u8>,
    pub generator: Vec<u8>,
    pub prime: Vec<u8>,
    pub private_key: Vec<u8>,
    pub secret_key: Vec<u8>,
}

/// Mathematical image of a session.
#[verifier::ext_equal]
pub ghost struct SrdV {
    pub blob: Option<SrdBlobV>,
    pub is_server: bool,
    pub key_size: u16,
    pub seq_num: u8,
    pub state: u8,
    pub messages: Seq<SrdPacketV>,
    pub cert_data: Option<Seq<u8>>,
    pub client_nonce: Seq<u8>,
    pub server_nonce: Seq<u8>,
    pub delegation_key: Seq<u8>,
    pub integrity_key: Seq<u8>,
    pub iv: Seq<u8>,
    pub generator: Seq<u8>,
    pub prime: Seq<u8>,
    pub private_key: Seq<u8>,
    pub secret_key: Seq<u8>,
}

impl View for Srd {
    type V = SrdV;

    open spec fn view(&self) -> SrdV {
        SrdV {
            blob: match self.blob {
                Some(b) => Some(b@),
                None => None,
            },
            is_server: self.is_server,
            key_size: self.key_size,
            seq_num: self.seq_num,
            state: self.state,
            messages: views_of_packets(self.messages@),
            cert_data: match self.cert_data {
                Some(c) => Some(c@),
                None => None,
            },
            client_nonce: self.client_nonce@,
            server_nonce: self.server_nonce@,
            delegation_key: self.delegation_key@,
            integrity_key: self.integrity_key@,
            iv: self.iv@,
            generator: self.generator@,
            prime: self.prime@,
            private_key: self.private_key@,
            secret_key: self.secret_key@,
        }
    }
}

/// The sequence counter a role holds in each state: it advances once per
/// message read and once per message written.
pub open spec fn expected_seq(is_server: bool, state: u8) -> u8 {
    if is_server {
        if state == 0 {
            0
        } else if state == 1 {
            2
        } else if state == 2 {
            4
        } else {
            5
        }
    } else {
        if state == 0 {
            0
        } else if state == 1 {
            1
        } else if state == 2 {
            3
        } else {
            5
        }
    }
}

/// A proposed key size the protocol accepts.
pub open spec fn valid_key_size(key_size: u16) -> bool {
    key_size == 256 || key_size == 512 || key_size == 1024
}

/// A session's internal invariant: fixed-width fields keep their widths,
/// the transcript holds well-formed packets, and the sequence counter
/// follows the state.
pub open spec fn wf(v: SrdV) -> bool {
    &&& v.state <= 3
    &&& v.seq_num == expected_seq(v.is_server, v.state)
    &&& valid_key_size(v.key_size)
    &&& v.client_nonce.len() == 32
    &&& v.server_nonce.len() == 32
    &&& v.delegation_key.len() == 32
    &&& v.integrity_key.len() == 32
    &&& v.iv.len() == 16
    &&& packets_wf(v.messages)
    &&& v.generator.len() <= u32::MAX
    &&& v.prime.len() <= u32::MAX
    &&& match v.blob {
        Some(b) => blob_wf(b) && (!v.is_server ==> b.data.len() + 64 <= u32::MAX),
        None => true,
    }
    &&& (v.is_server && v.state == 1 ==> bytes_be_to_nat(v.prime) != 0)
}

/// The delegation key: SHA-256 over client nonce, shared secret, server
/// nonce.
pub open spec fn spec_delegation_key(cn: Seq<u8>, z: Seq<u8>, sn: Seq<u8>) -> Seq<u8> {
    sha256_of(cn + z + sn)
}

/// The integrity key: SHA-256 over server nonce, shared secret, client
/// nonce.
pub open spec fn spec_integrity_key(cn: Seq<u8>, z: Seq<u8>, sn: Seq<u8>) -> Seq<u8> {
    sha256_of(sn + z + cn)
}

/// The initialization vector: the first sixteen bytes of SHA-256 over the
/// two nonces.
pub open spec fn spec_iv(cn: Seq<u8>, sn: Seq<u8>) -> Seq<u8> {
    sha256_of(cn + sn).subrange(0, 16)
}

/// A session whose three derived values follow the key schedule from its
/// own nonces and shared secret.
pub open spec fn keys_derived(v: SrdV) -> bool {
    &&& v.delegation_key == spec_delegation_key(v.client_nonce, v.secret_key, v.server_nonce)
    &&& v.integrity_key == spec_integrity_key(v.client_nonce, v.secret_key, v.server_nonce)
    &&& v.iv == spec_iv(v.client_nonce, v.server_nonce)
}

/// A channel-binding token: HMAC over the sender's nonce and its
/// certificate, keyed by the integrity key.
pub open spec fn spec_cbt(ik: Seq<u8>, nonce: Seq<u8>, cert: Seq<u8>) -> Seq<u8> {
    hmac_sha256_of(ik, nonce + cert)
}

/// A transcript MAC: HMAC over every earlier packet's bytes followed by the
/// present packet's bytes without its MAC field, keyed by the integrity
/// key.
pub open spec fn spec_packet_mac(ik: Seq<u8>, transcript: Seq<SrdPacketV>, body: Seq<u8>) -> Seq<
    u8,
> {
    hmac_sha256_of(ik, spec_transcript_bytes(transcript) + body)
}

/// A byte-for-byte copy of a vector.
fn clone_bytes(v: &Vec<u8>) -> (r: Vec<u8>)
    ensures
        r@ == v@,
{
    let mut r: Vec<u8> = Vec::new();
    write_bytes(&mut r, v);
    assert(r@ =~= v@);
    r
}

/// The first `n` bytes of a vector.
fn first_n(v: &Vec<u8>, n: usize) -> (r: Vec<u8>)
    requires
        n <= v@.len(),
    ensures
        r@ == v@.subrange(0, n as int),
{
    let mut r: Vec<u8> = Vec::new();
    let mut i: usize = 0;
    while i < n
        invariant
            i <= n,
            n <= v@.len(),
            r@ == v@.subrange(0, i as int),
        decreases n - i,
    {
        r.push(v[i]);
        assert(r@ =~= v@.subrange(0, i + 1));
        i += 1;
    }
    r
}

/// A vector of `n` zero bytes.
fn zero_vec(n: usize) -> (r: Vec<u8>)
    ensures
        r@ == Seq::new(n as nat, |i: int| 0u8),
{
    let mut r: Vec<u8> = Vec::new();
    let mut i: usize = 0;
    while i < n
        invariant
            i <= n,
            r@ == Seq::new(i as nat, |j: int| 0u8),
        decreases n - i,
    {
        r.push(0);
        assert(r@ =~= Seq::new((i + 1) as nat, |j: int| 0u8));
        i += 1;
    }
    r
}

/// HMAC over the sender's nonce and certificate: the channel-binding token.
fn compute_cbt(ik: &Vec<u8>, nonce: &Vec<u8>, cert: &Vec<u8>) -> (r: Vec<u8>)
    ensures
        r@ == spec_cbt(ik@, nonce@, cert@),
        r@.len() == 32,
{
    let mut buf: Vec<u8> = Vec::new();
    write_bytes(&mut buf, nonce);
    write_bytes(&mut buf, cert);
    assert(buf@ =~= nonce@ + cert@);
    hmac_sha256(ik, &buf)
}

/// HMAC over the serialized transcript and a packet body: the transcript
/// MAC.
fn compute_mac(messages: &Vec<SrdPacket>, ik: &Vec<u8>, body: &Vec<u8>) -> (r: Vec<u8>)
    requires
        packets_wf(views_of_packets(messages@)),
    ensures
        r@ == spec_packet_mac(ik@, views_of_packets(messages@), body@),
        r@.len() == 32,
{
    let mut buf: Vec<u8> = Vec::new();
    write_transcript(messages, &mut buf);
    write_bytes(&mut buf, body);
    assert(buf@ =~= spec_transcript_bytes(views_of_packets(messages@)) + body@);
    hmac_sha256(ik, &buf)
}

/// Whether two byte vectors hold the same bytes; the loop inspects every
/// position unconditionally, as MAC and token comparisons require.
fn bytes_equal(a: &Vec<u8>, b: &Vec<u8>) -> (r: bool)
    ensures
        r <==> a@ == b@,
{
    if a.len() != b.len() {
        proof {
            assert(a@ != b@);
        }
        return false;
    }
    let mut diff: bool = false;
    let mut i: usize = 0;
    while i < a.len()
        invariant
            i <= a@.len(),
            a@.len() == b@.len(),
            diff <==> exists|j: int| 0 <= j < i && a@[j] != b@[j],
        decreases a@.len() - i,
    {
        if a[i] != b[i] {
            diff = true;
        }
        i += 1;
    }
    if diff {
        proof {
            assert(a@ != b@);
        }
        false
    } else {
        proof {
            assert(a@ =~= b@);
        }
        true
    }
}

impl Srd {
    /// A fresh session for one role: state and counter zero, key size 256,
    /// every key and nonce zeroed, nothing exchanged yet.
    pub fn new(is_server: bool) -> (r: Result<Srd, SrdError>)
        ensures
            r matches Ok(s) && s@ == initial_session(is_server),
            r matches Ok(s) && wf(s@),
    {
        let s = Srd {
            blob: None,
            is_server,
            key_size: 256,
            seq_num: 0,
            state: 0,
            messages: Vec::new(),
            cert_data: None,
            client_nonce: zero_vec(32),
            server_nonce: zero_vec(32),
            delegation_key: zero_vec(32),
            integrity_key: zero_vec(32),
            iv: zero_vec(16),
            generator: zero_vec(1),
            prime: zero_vec(1),
            private_key: zero_vec(1),
            secret_key: Vec::new(),
        };
        proof {
            assert(views_of_packets(s.messages@) =~= Seq::<SrdPacketV>::empty());
            assert(s@ =~~= initial_session(is_server));
        }
        Ok(s)
    }

    /// The blob held by the session, if any.
    pub fn blob(&self) -> (r: &Option<SrdBlob>)
        ensures
            match r {
                Some(b) => self@.blob matches Some(c) && b@ == c,
                None => self@.blob is None,
            },
    {
        &self.blob
    }

    /// A copy of the blob held by the session, if any: what the server
    /// reads after a completed handshake.
    pub fn get_blob(&self) -> (r: Option<SrdBlob>)
        ensures
            match self@.blob {
                Some(c) => r matches Some(b) && b@ == c,
                None => r is None,
            },
    {
        match &self.blob {
            None => None,
            Some(b) => Some(SrdBlob { blob_type: b.blob_type, data: clone_bytes(&b.data) }),
        }
    }

    /// Give the client its credential to delegate; it must be set before
    /// the client's last state.
    pub fn set_blob(&mut self, blob: SrdBlob)
        requires
            blob@.data.len() + 64 <= u32::MAX,
        ensures
            final(self)@ == (SrdV { blob: Some(blob@), ..old(self)@ }),
            wf(old(self)@) ==> wf(final(self)@),
    {
        self.blob = Some(blob);
    }

    /// Supply certificate bytes, turning channel binding on for this peer.
    pub fn set_cert_data(&mut self, buffer: Vec<u8>) -> (r: Result<(), SrdError>)
        ensures
            r is Ok,
            final(self)@ == (SrdV { cert_data: Some(buffer@), ..old(self)@ }),
            wf(old(self)@) ==> wf(final(self)@),
    {
        self.cert_data = Some(buffer);
        Ok(())
    }

    /// Propose a key size: exactly 256, 512 and 1024 are accepted, anything
    /// else is refused with `InvalidKeySize` and changes nothing.
    pub fn set_key_size(&mut self, key_size: u16) -> (r: Result<(), SrdError>)
        ensures
            r is Ok <==> valid_key_size(key_size),
            r is Ok ==> final(self)@ == (SrdV { key_size, ..old(self)@ }),
            r is Err ==> *final(self) == *old(self) && (r matches Err(e) && e
                == SrdError::InvalidKeySize),
            wf(old(self)@) ==> wf(final(self)@),
    {
        match key_size {
            256 | 512 | 1024 => {
                self.key_size = key_size;
                Ok(())
            },
            _ => Err(SrdError::InvalidKeySize),
        }
    }

    /// The delegation key, meaningful once the handshake has completed.
    pub fn get_delegation_key(&self) -> (r: &Vec<u8>)
        ensures
            r@ == self@.delegation_key,
    {
        &self.delegation_key
    }

    /// The integrity key, meaningful once the handshake has completed.
    pub fn get_integrity_key(&self) -> (r: &Vec<u8>)
        ensures
            r@ == self@.integrity_key,
    {
        &self.integrity_key
    }

    /// The initialization vector, meaningful once the handshake has
    /// completed.
    pub fn get_iv(&self) -> (r: &Vec<u8>)
        ensures
            r@ == self@.iv,
    {
        &self.iv
    }

    /// Derive the delegation key, integrity key and initialization vector
    /// from the nonces and the shared secret.
    fn derive_keys(&mut self)
        ensures
            final(self)@ == (SrdV {
                delegation_key: spec_delegation_key(
                    old(self)@.client_nonce,
                    old(self)@.secret_key,
                    old(self)@.server_nonce,
                ),
                integrity_key: spec_integrity_key(
                    old(self)@.client_nonce,
                    old(self)@.secret_key,
                    old(self)@.server_nonce,
                ),
                iv: spec_iv(old(self)@.client_nonce, old(self)@.server_nonce),
                ..old(self)@
            }),
            keys_derived(final(self)@),
            final(self)@.delegation_key.len() == 32,
            final(self)@.integrity_key.len() == 32,
            final(self)@.iv.len() == 16,
    {
        let dk = derive_delegation(&self.client_nonce, &self.secret_key, &self.server_nonce);
        let ik = derive_integrity(&self.client_nonce, &self.secret_key, &self.server_nonce);
        let iv = derive_iv(&self.client_nonce, &self.server_nonce);
        self.delegation_key = dk;
        self.integrity_key = ik;
        self.iv = iv;
        assert(final(self)@ =~~= (SrdV {
            delegation_key: spec_delegation_key(
                old(self)@.client_nonce,
                old(self)@.secret_key,
                old(self)@.server_nonce,
            ),
            integrity_key: spec_integrity_key(
                old(self)@.client_nonce,
                old(self)@.secret_key,
                old(self)@.server_nonce,
            ),
            iv: spec_iv(old(self)@.client_nonce, old(self)@.server_nonce),
            ..old(self)@
        }));
    }

    /// Stamp-check and emit one packet: the packet must carry the protocol
    /// signature and the session's present sequence number, which then
    /// advances by one.
    pub fn write_msg(&mut self, msg: &SrdPacket, buffer: &mut Vec<u8>) -> (r: Result<
        (),
        SrdError,
    >)
        requires
            packet_writable(msg@),
        ensures
            match r {
                Ok(_) => {
                    &&& msg@.signature_of() == SRD_SIGNATURE
                    &&& msg@.seq_num_of() == old(self)@.seq_num
                    &&& old(self)@.seq_num < 255
                    &&& final(self)@ == (SrdV {
                        seq_num: (old(self)@.seq_num + 1) as u8,
                        ..old(self)@
                    })
                    &&& final(buffer)@ == old(buffer)@ + spec_write_packet(msg@)
                },
                Err(e) => {
                    &&& *final(self) == *old(self)
                    &&& *final(buffer) == *old(buffer)
                    &&& (e == SrdError::InvalidSignature || e == SrdError::BadSequence)
                    &&& (e == SrdError::InvalidSignature <==> msg@.signature_of()
                        != SRD_SIGNATURE)
                    &&& (e == SrdError::BadSequence <==> msg@.signature_of() == SRD_SIGNATURE && (
                    msg@.seq_num_of() != old(self)@.seq_num || old(self)@.seq_num == 255))
                },
            },
    {
        if msg.signature() != SRD_SIGNATURE {
            return Err(SrdError::InvalidSignature);
        }
        if msg.seq_num() != self.seq_num || self.seq_num == 255 {
            return Err(SrdError::BadSequence);
        }
        msg.write_to(buffer);
        self.seq_num = self.seq_num + 1;
        assert(final(self)@ =~~= (SrdV { seq_num: final(self)@.seq_num, ..old(self)@ }));
        Ok(())
    }

    /// Decode and accept one packet: the buffer must hold exactly one
    /// well-formed packet carrying the session's present sequence number,
    /// which then advances by one.
    pub fn read_msg(&mut self, buffer: &Vec<u8>) -> (r: Result<SrdPacket, SrdError>)
        ensures
            match r {
                Ok(p) => {
                    &&& spec_parse_packet(buffer@) == Ok::<SrdPacketV, SrdError>(p@)
                    &&& packet_wf(p@)
                    &&& p@.seq_num_of() == old(self)@.seq_num
                    &&& old(self)@.seq_num < 255
                    &&& final(self)@ == (SrdV {
                        seq_num: (old(self)@.seq_num + 1) as u8,
                        ..old(self)@
                    })
                },
                Err(e) => {
                    &&& *final(self) == *old(self)
                    &&& match spec_parse_packet(buffer@) {
                        Ok(v) => e == SrdError::BadSequence && (v.seq_num_of()
                            != old(self)@.seq_num || old(self)@.seq_num == 255),
                        Err(pe) => e == pe,
                    }
                },
            },
    {
        let packet = match read_packet(buffer) {
            Ok(p) => p,
            Err(e) => {
                return Err(e);
            },
        };
        if packet.seq_num() != self.seq_num || self.seq_num == 255 {
            return Err(SrdError::BadSequence);
        }
        self.seq_num = self.seq_num + 1;
        assert(final(self)@ =~~= (SrdV { seq_num: final(self)@.seq_num, ..old(self)@ }));
        Ok(packet)
    }
}


/// Three derived-value helpers, shared by both roles.
fn derive_delegation(cn: &Vec<u8>, z: &Vec<u8>, sn: &Vec<u8>) -> (r: Vec<u8>)
    ensures
        r@ == spec_delegation_key(cn@, z@, sn@),
        r@.len() == 32,
{
    let mut buf: Vec<u8> = Vec::new();
    write_bytes(&mut buf, cn);
    write_bytes(&mut buf, z);
    write_bytes(&mut buf, sn);
    assert(buf@ =~= cn@ + z@ + sn@);
    sha256(&buf)
}

/// The integrity key from the two nonces and the shared secret.
fn derive_integrity(cn: &Vec<u8>, z: &Vec<u8>, sn: &Vec<u8>) -> (r: Vec<u8>)
    ensures
        r@ == spec_integrity_key(cn@, z@, sn@),
        r@.len() == 32,
{
    let mut buf: Vec<u8> = Vec::new();
    write_bytes(&mut buf, sn);
    write_bytes(&mut buf, z);
    write_bytes(&mut buf, cn);
    assert(buf@ =~= sn@ + z@ + cn@);
    sha256(&buf)
}

/// The initialization vector from the two nonces.
fn derive_iv(cn: &Vec<u8>, sn: &Vec<u8>) -> (r: Vec<u8>)
    ensures
        r@ == spec_iv(cn@, sn@),
        r@.len() == 16,
{
    let mut buf: Vec<u8> = Vec::new();
    write_bytes(&mut buf, cn);
    write_bytes(&mut buf, sn);
    assert(buf@ =~= cn@ + sn@);
    let h = sha256(&buf);
    first_n(&h, 16)
}


/// An untouched output buffer: it is its own prefix, and the appended
/// portion is empty.
proof fn lemma_out_unchanged(s: Seq<u8>)
    ensures
        s.subrange(0, s.len() as int) == s,
        s.subrange(s.len() as int, s.len() as int) == Seq::<u8>::empty(),
{
    assert(s.subrange(0, s.len() as int) =~= s);
    assert(s.subrange(s.len() as int, s.len() as int) =~= Seq::<u8>::empty());
}

/// The INITIATE a client in state 0 emits: its proposed key size under
/// sequence number 0.
pub open spec fn client0_packet(pre: SrdV) -> SrdInitiateV {
    SrdInitiateV {
        signature: SRD_SIGNATURE,
        packet_type: SRD_INITIATE_MSG_ID,
        seq_num: 0,
        flags: 0,
        key_size: pre.key_size,
        reserved: 0,
    }
}

/// The OFFER a server in state 0 emits: the group it loaded and the public
/// key and nonce it drew, read off the after-state, under sequence number 1.
pub open spec fn server0_packet(post: SrdV, ini: SrdInitiateV) -> SrdOfferV {
    SrdOfferV {
        signature: SRD_SIGNATURE,
        packet_type: SRD_OFFER_MSG_ID,
        seq_num: 1,
        flags: 0,
        key_size: ini.key_size,
        generator: post.generator,
        prime: post.prime,
        public_key: mod_pow_bytes(post.generator, post.private_key, post.prime),
        nonce: post.server_nonce,
    }
}

/// Nothing changed and nothing left the session: the shape of every failed
/// call.
pub open spec fn rejected(pre: SrdV, post: SrdV, out: Seq<u8>) -> bool {
    post == pre && out == Seq::<u8>::empty()
}

/// The client's opening move: emit INITIATE, advance to state 1.  It
/// cannot fail.
pub open spec fn client0_rel(pre: SrdV, post: SrdV, out: Seq<u8>, r: Result<
    bool,
    SrdError,
>) -> bool {
    let pkt = client0_packet(pre);
    &&& r == Ok::<bool, SrdError>(false)
    &&& post == (SrdV {
        seq_num: 1,
        state: 1,
        messages: pre.messages.push(SrdPacketV::Initiate(pkt)),
        ..pre
    })
    &&& out == spec_write_initiate(pkt)
}

/// The server's opening move: accept exactly a well-formed INITIATE under
/// sequence number 0 whose key size the protocol knows; load the group,
/// draw a private key and nonce, emit OFFER, advance to state 1.
pub open spec fn server0_rel(pre: SrdV, input: Seq<u8>, post: SrdV, out: Seq<u8>, r: Result<
    bool,
    SrdError,
>) -> bool {
    match spec_parse_packet(input) {
        Err(e) => r == Err::<bool, SrdError>(e) && rejected(pre, post, out),
        Ok(v) => match v {
            SrdPacketV::Initiate(ini) => {
                if ini.seq_num != pre.seq_num {
                    r == Err::<bool, SrdError>(SrdError::BadSequence) && rejected(pre, post, out)
                } else if !valid_key_size(ini.key_size) {
                    r == Err::<bool, SrdError>(SrdError::InvalidKeySize) && rejected(
                        pre,
                        post,
                        out,
                    )
                } else {
                    let off = server0_packet(post, ini);
                    &&& r == Ok::<bool, SrdError>(false)
                    &&& post == (SrdV {
                        key_size: ini.key_size,
                        seq_num: 2,
                        state: 1,
                        generator: post.generator,
                        prime: post.prime,
                        private_key: post.private_key,
                        server_nonce: post.server_nonce,
                        messages: pre.messages.push(SrdPacketV::Initiate(ini)).push(
                            SrdPacketV::Offer(off),
                        ),
                        ..pre
                    })
                    &&& post.generator == seq![2u8]
                    &&& post.prime.len() == ini.key_size as nat
                    &&& bytes_be_to_nat(post.prime) != 0
                    &&& post.private_key.len() == ini.key_size as nat
                    &&& post.server_nonce.len() == 32
                    &&& out == spec_write_offer(off)
                }
            },
            _ => r == Err::<bool, SrdError>(SrdError::BadSequence) && rejected(pre, post, out),
        },
    }
}

impl Srd {
    /// Client state 0: emit INITIATE.
    fn client_authenticate_0(&mut self, output_data: &mut Vec<u8>) -> (r: Result<bool, SrdError>)
        requires
            wf(old(self)@),
            !old(self)@.is_server,
            old(self)@.state == 0,
        ensures
            wf(final(self)@),
            final(output_data)@.len() >= old(output_data)@.len(),
            final(output_data)@.subrange(0, old(output_data)@.len() as int) == old(output_data)@,
            client0_rel(
                old(self)@,
                final(self)@,
                final(output_data)@.subrange(
                    old(output_data)@.len() as int,
                    final(output_data)@.len() as int,
                ),
                r,
            ),
    {
        let out_packet = SrdInitiate::new(self.key_size);
        let pkt = SrdPacket::Initiate(out_packet);
        match self.write_msg(&pkt, output_data) {
            Ok(_) => {},
            Err(e) => {
                proof {
                    assert(false);
                }
                return Err(e);
            },
        }
        self.messages.push(pkt);
        self.state = self.state + 1;
        proof {
            lemma_views_push(old(self).messages@, SrdPacket::Initiate(out_packet));
            assert(final(self)@ =~~= (SrdV {
                seq_num: 1,
                state: 1,
                messages: old(self)@.messages.push(SrdPacketV::Initiate(client0_packet(old(self)@))),
                ..old(self)@
            }));
            assert(final(output_data)@.subrange(
                old(output_data)@.len() as int,
                final(output_data)@.len() as int,
            ) =~= spec_write_initiate(client0_packet(old(self)@)));
            assert(final(output_data)@.subrange(0, old(output_data)@.len() as int)
                =~= old(output_data)@);
        }
        Ok(false)
    }


    /// Client state 1: read OFFER, emit ACCEPT.
    fn client_authenticate_1(&mut self, input_data: &Vec<u8>, output_data: &mut Vec<u8>) -> (r:
        Result<bool, SrdError>)
        requires
            wf(old(self)@),
            !old(self)@.is_server,
            old(self)@.state == 1,
        ensures
            wf(final(self)@),
            final(output_data)@.len() >= old(output_data)@.len(),
            final(output_data)@.subrange(0, old(output_data)@.len() as int) == old(output_data)@,
            client1_rel(
                old(self)@,
                input_data@,
                final(self)@,
                final(output_data)@.subrange(
                    old(output_data)@.len() as int,
                    final(output_data)@.len() as int,
                ),
                r,
            ),
    {
        let packet = match read_packet(input_data) {
            Ok(p) => p,
            Err(e) => {
                proof {
                    lemma_out_unchanged(output_data@);
                }
                return Err(e);
            },
        };
        let in_packet = match packet {
            SrdPacket::Offer(m) => m,
            _ => {
                proof {
                    lemma_out_unchanged(output_data@);
                }
                return Err(SrdError::BadSequence);
            },
        };
        if in_packet.seq_num != self.seq_num {
            proof {
                lemma_out_unchanged(output_data@);
            }
            return Err(SrdError::BadSequence);
        }
        if !bytes_nonzero(&in_packet.prime) {
            proof {
                lemma_out_unchanged(output_data@);
            }
            return Err(SrdError::Crypto);
        }
        self.seq_num = self.seq_num + 1;
        self.generator = clone_bytes(&in_packet.generator);
        self.prime = clone_bytes(&in_packet.prime);
        self.private_key = random_bytes(self.key_size as usize);
        let public_key = mod_pow(&self.generator, &self.private_key, &self.prime);
        self.client_nonce = random_bytes(32);
        self.server_nonce = clone_bytes(&in_packet.nonce);
        self.secret_key = mod_pow(&in_packet.public_key, &self.private_key, &self.prime);
        self.derive_keys();
        let key_size = in_packet.key_size;
        let ghost offv = in_packet@;
        let ghost ms0 = self.messages@;
        let pkt0 = SrdPacket::Offer(in_packet);
        let ghost gp0 = pkt0;
        self.messages.push(pkt0);
        proof {
            lemma_views_push(ms0, gp0);
            lemma_mod_pow_bytes_len(offv.generator, self@.private_key, offv.prime);
        }
        let cbt: Option<Vec<u8>> = match &self.cert_data {
            None => None,
            Some(c) => Some(compute_cbt(&self.integrity_key, &self.client_nonce, c)),
        };
        let mut out_packet = SrdAccept {
            signature: SRD_SIGNATURE,
            packet_type: SRD_ACCEPT_MSG_ID,
            seq_num: self.seq_num,
            flags: 0,
            key_size,
            public_key,
            nonce: clone_bytes(&self.client_nonce),
            cbt,
            mac: Vec::new(),
        };
        let ghost base = out_packet@;
        let mut body: Vec<u8> = Vec::new();
        out_packet.write_nomac_to(&mut body);
        proof {
            assert(body@ =~= spec_write_accept_nomac(base));
        }
        let mac = compute_mac(&self.messages, &self.integrity_key, &body);
        out_packet.mac = mac;
        let pkt = SrdPacket::Accept(out_packet);
        let ghost gpkt = pkt;
        match self.write_msg(&pkt, output_data) {
            Ok(_) => {},
            Err(e) => {
                proof {
                    assert(false);
                }
                return Err(e);
            },
        }
        let ghost ms1 = self.messages@;
        self.messages.push(pkt);
        self.state = self.state + 1;
        proof {
            let pre = old(self)@;
            let post = final(self)@;
            let acc = client1_packet(pre, post, offv);
            lemma_views_push(ms1, gpkt);
            assert(views_of_packets(ms1) == pre.messages.push(SrdPacketV::Offer(offv)));
            assert(base =~~= (SrdAcceptV {
                signature: SRD_SIGNATURE,
                packet_type: SRD_ACCEPT_MSG_ID,
                seq_num: 2,
                flags: 0,
                key_size: offv.key_size,
                public_key: mod_pow_bytes(offv.generator, post.private_key, offv.prime),
                nonce: post.client_nonce,
                cbt: match pre.cert_data {
                    None => None,
                    Some(c) => Some(spec_cbt(post.integrity_key, post.client_nonce, c)),
                },
                mac: Seq::empty(),
            }));
            assert(gpkt@ =~~= SrdPacketV::Accept(acc));
            assert(post.messages =~~= pre.messages.push(SrdPacketV::Offer(offv)).push(
                SrdPacketV::Accept(acc),
            ));
            assert(post =~~= (SrdV {
                seq_num: 3,
                state: 2,
                generator: offv.generator,
                prime: offv.prime,
                private_key: post.private_key,
                client_nonce: post.client_nonce,
                server_nonce: offv.nonce,
                secret_key: mod_pow_bytes(offv.public_key, post.private_key, offv.prime),
                delegation_key: post.delegation_key,
                integrity_key: post.integrity_key,
                iv: post.iv,
                messages: pre.messages.push(SrdPacketV::Offer(offv)).push(SrdPacketV::Accept(acc)),
                ..pre
            }));
            assert(final(output_data)@.subrange(
                old(output_data)@.len() as int,
                final(output_data)@.len() as int,
            ) =~= spec_write_accept(acc));
            assert(final(output_data)@.subrange(0, old(output_data)@.len() as int)
                =~= old(output_data)@);
        }
        Ok(false)
    }


    /// Server state 1: read ACCEPT, emit CONFIRM.
    fn server_authenticate_1(&mut self, input_data: &Vec<u8>, output_data: &mut Vec<u8>) -> (r:
        Result<bool, SrdError>)
        requires
            wf(old(self)@),
            old(self)@.is_server,
            old(self)@.state == 1,
        ensures
            wf(final(self)@),
            final(output_data)@.len() >= old(output_data)@.len(),
            final(output_data)@.subrange(0, old(output_data)@.len() as int) == old(output_data)@,
            server1_rel(
                old(self)@,
                input_data@,
                final(self)@,
                final(output_data)@.subrange(
                    old(output_data)@.len() as int,
                    final(output_data)@.len() as int,
                ),
                r,
            ),
    {
        let packet = match read_packet(input_data) {
            Ok(p) => p,
            Err(e) => {
                proof {
                    lemma_out_unchanged(output_data@);
                }
                return Err(e);
            },
        };
        let in_packet = match packet {
            SrdPacket::Accept(m) => m,
            _ => {
                proof {
                    lemma_out_unchanged(output_data@);
                }
                return Err(SrdError::BadSequence);
            },
        };
        if in_packet.seq_num != self.seq_num {
            proof {
                lemma_out_unchanged(output_data@);
            }
            return Err(SrdError::BadSequence);
        }
        let z = mod_pow(&in_packet.public_key, &self.private_key, &self.prime);
        let ik = derive_integrity(&in_packet.nonce, &z, &self.server_nonce);
        let mut body: Vec<u8> = Vec::new();
        in_packet.write_nomac_to(&mut body);
        let expected = compute_mac(&self.messages, &ik, &body);
        if !bytes_equal(&expected, &in_packet.mac) {
            proof {
                lemma_out_unchanged(output_data@);
            }
            return Err(SrdError::InvalidMac);
        }
        match &self.cert_data {
            None => {
                if in_packet.cbt.is_some() {
                    proof {
                        lemma_out_unchanged(output_data@);
                    }
                    return Err(SrdError::InvalidCert);
                }
            },
            Some(c) => {
                match &in_packet.cbt {
                    None => {
                        proof {
                            lemma_out_unchanged(output_data@);
                        }
                        return Err(SrdError::InvalidCert);
                    },
                    Some(token) => {
                        let mine = compute_cbt(&ik, &in_packet.nonce, c);
                        if !bytes_equal(&mine, token) {
                            proof {
                                lemma_out_unchanged(output_data@);
                            }
                            return Err(SrdError::InvalidCbt);
                        }
                    },
                }
            },
        }
        self.client_nonce = clone_bytes(&in_packet.nonce);
        self.secret_key = z;
        self.derive_keys();
        self.seq_num = self.seq_num + 1;
        let ghost accv = in_packet@;
        let ghost ms0 = self.messages@;
        let pkt0 = SrdPacket::Accept(in_packet);
        let ghost gp0 = pkt0;
        self.messages.push(pkt0);
        proof {
            lemma_views_push(ms0, gp0);
            assert(self@.integrity_key == ik@);
        }
        let cbt: Option<Vec<u8>> = match &self.cert_data {
            None => None,
            Some(c) => Some(compute_cbt(&self.integrity_key, &self.server_nonce, c)),
        };
        let mut out_packet = SrdConfirm {
            signature: SRD_SIGNATURE,
            packet_type: SRD_CONFIRM_MSG_ID,
            seq_num: self.seq_num,
            flags: 0,
            cbt,
            mac: Vec::new(),
        };
        let ghost base = out_packet@;
        let mut body2: Vec<u8> = Vec::new();
        out_packet.write_nomac_to(&mut body2);
        let mac = compute_mac(&self.messages, &self.integrity_key, &body2);
        out_packet.mac = mac;
        let pkt = SrdPacket::Confirm(out_packet);
        let ghost gpkt = pkt;
        match self.write_msg(&pkt, output_data) {
            Ok(_) => {},
            Err(e) => {
                proof {
                    assert(false);
                }
                return Err(e);
            },
        }
        let ghost ms1 = self.messages@;
        self.messages.push(pkt);
        self.state = self.state + 1;
        proof {
            let pre = old(self)@;
            let post = final(self)@;
            let conf = server1_packet(pre, post, accv);
            lemma_views_push(ms1, gpkt);
            assert(views_of_packets(ms1) == pre.messages.push(SrdPacketV::Accept(accv)));
            assert(base =~~= (SrdConfirmV {
                signature: SRD_SIGNATURE,
                packet_type: SRD_CONFIRM_MSG_ID,
                seq_num: 3,
                flags: 0,
                cbt: match pre.cert_data {
                    None => None,
                    Some(c) => Some(spec_cbt(post.integrity_key, pre.server_nonce, c)),
                },
                mac: Seq::empty(),
            }));
            assert(gpkt@ =~~= SrdPacketV::Confirm(conf));
            assert(post.messages =~~= pre.messages.push(SrdPacketV::Accept(accv)).push(
                SrdPacketV::Confirm(conf),
            ));
            assert(post =~~= (SrdV {
                seq_num: 4,
                state: 2,
                client_nonce: accv.nonce,
                secret_key: mod_pow_bytes(accv.public_key, pre.private_key, pre.prime),
                delegation_key: post.delegation_key,
                integrity_key: post.integrity_key,
                iv: post.iv,
                messages: pre.messages.push(SrdPacketV::Accept(accv)).push(
                    SrdPacketV::Confirm(conf),
                ),
                ..pre
            }));
            assert(final(output_data)@.subrange(
                old(output_data)@.len() as int,
                final(output_data)@.len() as int,
            ) =~= spec_write_confirm(conf));
            assert(final(output_data)@.subrange(0, old(output_data)@.len() as int)
                =~= old(output_data)@);
        }
        Ok(false)
    }


    /// Client state 2: read CONFIRM, emit DELEGATE, finish.
    fn client_authenticate_2(&mut self, input_data: &Vec<u8>, output_data: &mut Vec<u8>) -> (r:
        Result<bool, SrdError>)
        requires
            wf(old(self)@),
            !old(self)@.is_server,
            old(self)@.state == 2,
        ensures
            wf(final(self)@),
            final(output_data)@.len() >= old(output_data)@.len(),
            final(output_data)@.subrange(0, old(output_data)@.len() as int) == old(output_data)@,
            client2_rel(
                old(self)@,
                input_data@,
                final(self)@,
                final(output_data)@.subrange(
                    old(output_data)@.len() as int,
                    final(output_data)@.len() as int,
                ),
                r,
            ),
    {
        let packet = match read_packet(input_data) {
            Ok(p) => p,
            Err(e) => {
                proof {
                    lemma_out_unchanged(output_data@);
                }
                return Err(e);
            },
        };
        let in_packet = match packet {
            SrdPacket::Confirm(m) => m,
            _ => {
                proof {
                    lemma_out_unchanged(output_data@);
                }
                return Err(SrdError::BadSequence);
            },
        };
        if in_packet.seq_num != self.seq_num {
            proof {
                lemma_out_unchanged(output_data@);
            }
            return Err(SrdError::BadSequence);
        }
        let mut body: Vec<u8> = Vec::new();
        in_packet.write_nomac_to(&mut body);
        let expected = compute_mac(&self.messages, &self.integrity_key, &body);
        if !bytes_equal(&expected, &in_packet.mac) {
            proof {
                lemma_out_unchanged(output_data@);
            }
            return Err(SrdError::InvalidMac);
        }
        match &self.cert_data {
            None => {
                if in_packet.cbt.is_some() {
                    proof {
                        lemma_out_unchanged(output_data@);
                    }
                    return Err(SrdError::InvalidCert);
                }
            },
            Some(c) => {
                match &in_packet.cbt {
                    None => {
                        proof {
                            lemma_out_unchanged(output_data@);
                        }
                        return Err(SrdError::InvalidCert);
                    },
                    Some(token) => {
                        let mine = compute_cbt(&self.integrity_key, &self.server_nonce, c);
                        if !bytes_equal(&mine, token) {
                            proof {
                                lemma_out_unchanged(output_data@);
                            }
                            return Err(SrdError::InvalidCbt);
                        }
                    },
                }
            },
        }
        let blob_bytes = match &self.blob {
            None => {
                proof {
                    lemma_out_unchanged(output_data@);
                }
                return Err(SrdError::MissingBlob);
            },
            Some(b) => b.encode(),
        };
        let encrypted_blob = aes256_cbc_encrypt(&self.delegation_key, &self.iv, &blob_bytes);
        self.seq_num = self.seq_num + 1;
        let ghost confv = in_packet@;
        let ghost ms0 = self.messages@;
        let pkt0 = SrdPacket::Confirm(in_packet);
        let ghost gp0 = pkt0;
        self.messages.push(pkt0);
        proof {
            lemma_views_push(ms0, gp0);
        }
        let mut out_packet = SrdDelegate {
            signature: SRD_SIGNATURE,
            packet_type: SRD_DELEGATE_MSG_ID,
            seq_num: self.seq_num,
            flags: 0,
            encrypted_blob,
            mac: Vec::new(),
        };
        let ghost base = out_packet@;
        let mut body2: Vec<u8> = Vec::new();
        out_packet.write_nomac_to(&mut body2);
        let mac = compute_mac(&self.messages, &self.integrity_key, &body2);
        out_packet.mac = mac;
        let pkt = SrdPacket::Delegate(out_packet);
        let ghost gpkt = pkt;
        match self.write_msg(&pkt, output_data) {
            Ok(_) => {},
            Err(e) => {
                proof {
                    assert(false);
                }
                return Err(e);
            },
        }
        let ghost ms1 = self.messages@;
        self.messages.push(pkt);
        self.state = self.state + 1;
        proof {
            let pre = old(self)@;
            let post = final(self)@;
            let bv = pre.blob->Some_0;
            let del = client2_packet(pre, confv, bv);
            lemma_views_push(ms1, gpkt);
            assert(views_of_packets(ms1) == pre.messages.push(SrdPacketV::Confirm(confv)));
            assert(base =~~= (SrdDelegateV {
                signature: SRD_SIGNATURE,
                packet_type: SRD_DELEGATE_MSG_ID,
                seq_num: 4,
                flags: 0,
                encrypted_blob: aes256_cbc_encrypt_of(
                    pre.delegation_key,
                    pre.iv,
                    spec_write_blob(bv),
                ),
                mac: Seq::empty(),
            }));
            assert(gpkt@ =~~= SrdPacketV::Delegate(del));
            assert(post.messages =~~= pre.messages.push(SrdPacketV::Confirm(confv)).push(
                SrdPacketV::Delegate(del),
            ));
            assert(post =~~= (SrdV {
                seq_num: 5,
                state: 3,
                messages: pre.messages.push(SrdPacketV::Confirm(confv)).push(
                    SrdPacketV::Delegate(del),
                ),
                ..pre
            }));
            assert(final(output_data)@.subrange(
                old(output_data)@.len() as int,
                final(output_data)@.len() as int,
            ) =~= spec_write_delegate(del));
            assert(final(output_data)@.subrange(0, old(output_data)@.len() as int)
                =~= old(output_data)@);
        }
        Ok(true)
    }

    /// Server state 2: read DELEGATE, store the blob, finish.
    fn server_authenticate_2(&mut self, input_data: &Vec<u8>) -> (r: Result<bool, SrdError>)
        requires
            wf(old(self)@),
            old(self)@.is_server,
            old(self)@.state == 2,
        ensures
            wf(final(self)@),
            server2_rel(old(self)@, input_data@, final(self)@, Seq::<u8>::empty(), r),
    {
        let packet = match read_packet(input_data) {
            Ok(p) => p,
            Err(e) => {
                return Err(e);
            },
        };
        let in_packet = match packet {
            SrdPacket::Delegate(m) => m,
            _ => {
                return Err(SrdError::BadSequence);
            },
        };
        if in_packet.seq_num != self.seq_num {
            return Err(SrdError::BadSequence);
        }
        let mut body: Vec<u8> = Vec::new();
        in_packet.write_nomac_to(&mut body);
        let expected = compute_mac(&self.messages, &self.integrity_key, &body);
        if !bytes_equal(&expected, &in_packet.mac) {
            return Err(SrdError::InvalidMac);
        }
        let plain = match aes256_cbc_decrypt(&self.delegation_key, &self.iv, &in_packet.encrypted_blob) {
            Some(p) => p,
            None => {
                return Err(SrdError::Crypto);
            },
        };
        let stored = match crate::srd_blob::SrdBlob::decode(&plain) {
            Ok(b) => b,
            Err(_) => {
                proof {
                    assert forall|b: SrdBlobV|
                        blob_wf(b) && aes256_cbc_encrypt_of(
                            old(self)@.delegation_key,
                            old(self)@.iv,
                            spec_write_blob(b),
                        ) == in_packet@.encrypted_blob implies false by {
                        crate::srd_blob::lemma_blob_roundtrip(b);
                    }
                }
                return Err(SrdError::InvalidBlob);
            },
        };
        let ghost storedv = stored@;
        self.blob = Some(stored);
        self.seq_num = self.seq_num + 1;
        let ghost delv = in_packet@;
        let ghost ms0 = self.messages@;
        let pkt0 = SrdPacket::Delegate(in_packet);
        let ghost gp0 = pkt0;
        self.messages.push(pkt0);
        self.state = self.state + 1;
        proof {
            let pre = old(self)@;
            let post = final(self)@;
            lemma_views_push(ms0, gp0);
            crate::srd_blob::lemma_blob_canonical(plain@, storedv);
            assert(post.messages =~~= pre.messages.push(SrdPacketV::Delegate(delv)));
            assert(post =~~= (SrdV {
                seq_num: 5,
                state: 3,
                blob: Some(storedv),
                messages: pre.messages.push(SrdPacketV::Delegate(delv)),
                ..pre
            }));
            assert forall|b: SrdBlobV|
                blob_wf(b) && aes256_cbc_encrypt_of(
                    pre.delegation_key,
                    pre.iv,
                    spec_write_blob(b),
                ) == delv.encrypted_blob implies b == storedv by {
                crate::srd_blob::lemma_blob_roundtrip(b);
            }
        }
        Ok(true)
    }


    /// Drive the handshake one step: consume at most one inbound packet
    /// from `input_data`, append at most one outbound packet to
    /// `output_data`, and return `Ok(true)` exactly on the call that
    /// completes the handshake.  Every call in the terminal state fails
    /// with `BadSequence`.
    pub fn authenticate(&mut self, input_data: &Vec<u8>, output_data: &mut Vec<u8>) -> (r: Result<
        bool,
        SrdError,
    >)
        requires
            wf(old(self)@),
        ensures
            wf(final(self)@),
            final(output_data)@.len() >= old(output_data)@.len(),
            final(output_data)@.subrange(0, old(output_data)@.len() as int) == old(output_data)@,
            r matches Ok(done) ==> (done <==> final(self)@.state == 3),
            authenticate_rel(
                old(self)@,
                input_data@,
                final(self)@,
                final(output_data)@.subrange(
                    old(output_data)@.len() as int,
                    final(output_data)@.len() as int,
                ),
                r,
            ),
    {
        if self.state >= 3 {
            proof {
                lemma_out_unchanged(output_data@);
            }
            return Err(SrdError::BadSequence);
        }
        if self.is_server {
            if self.state == 0 {
                self.server_authenticate_0(input_data, output_data)
            } else if self.state == 1 {
                self.server_authenticate_1(input_data, output_data)
            } else {
                let r = self.server_authenticate_2(input_data);
                proof {
                    lemma_out_unchanged(output_data@);
                }
                r
            }
        } else {
            if self.state == 0 {
                self.client_authenticate_0(output_data)
            } else if self.state == 1 {
                self.client_authenticate_1(input_data, output_data)
            } else {
                self.client_authenticate_2(input_data, output_data)
            }
        }
    }

    /// Server state 0: read INITIATE, emit OFFER.
    fn server_authenticate_0(&mut self, input_data: &Vec<u8>, output_data: &mut Vec<u8>) -> (r:
        Result<bool, SrdError>)
        requires
            wf(old(self)@),
            old(self)@.is_server,
            old(self)@.state == 0,
        ensures
            wf(final(self)@),
            final(output_data)@.len() >= old(output_data)@.len(),
            final(output_data)@.subrange(0, old(output_data)@.len() as int) == old(output_data)@,
            server0_rel(
                old(self)@,
                input_data@,
                final(self)@,
                final(output_data)@.subrange(
                    old(output_data)@.len() as int,
                    final(output_data)@.len() as int,
                ),
                r,
            ),
    {
        let packet = match read_packet(input_data) {
            Ok(p) => p,
            Err(e) => {
                proof {
                    lemma_out_unchanged(output_data@);
                }
                return Err(e);
            },
        };
        let in_packet = match packet {
            SrdPacket::Initiate(m) => m,
            _ => {
                proof {
                    lemma_out_unchanged(output_data@);
                }
                return Err(SrdError::BadSequence);
            },
        };
        if in_packet.seq_num != self.seq_num {
            proof {
                lemma_out_unchanged(output_data@);
            }
            return Err(SrdError::BadSequence);
        }
        match self.set_key_size(in_packet.key_size) {
            Ok(_) => {},
            Err(e) => {
                proof {
                    lemma_out_unchanged(output_data@);
                }
                return Err(e);
            },
        }
        let prime = match dh_prime(self.key_size) {
            Ok(p) => p,
            Err(e) => {
                proof {
                    assert(false);
                }
                return Err(e);
            },
        };
        self.generator = dh_generator();
        self.prime = prime;
        proof {
            lemma_bytes_zero_iff(self@.prime);
        }
        self.private_key = random_bytes(self.key_size as usize);
        let public_key = mod_pow(&self.generator, &self.private_key, &self.prime);
        self.server_nonce = random_bytes(32);
        self.seq_num = self.seq_num + 1;
        let ghost ms0 = self.messages@;
        self.messages.push(SrdPacket::Initiate(in_packet));
        proof {
            lemma_views_push(ms0, SrdPacket::Initiate(in_packet));
            lemma_mod_pow_bytes_len(self@.generator, self@.private_key, self@.prime);
        }
        let out_packet = SrdOffer {
            signature: SRD_SIGNATURE,
            packet_type: SRD_OFFER_MSG_ID,
            seq_num: self.seq_num,
            flags: 0,
            key_size: in_packet.key_size,
            generator: clone_bytes(&self.generator),
            prime: clone_bytes(&self.prime),
            public_key,
            nonce: clone_bytes(&self.server_nonce),
        };
        let pkt = SrdPacket::Offer(out_packet);
        let ghost gpkt = pkt;
        match self.write_msg(&pkt, output_data) {
            Ok(_) => {},
            Err(e) => {
                proof {
                    assert(false);
                }
                return Err(e);
            },
        }
        let ghost ms1 = self.messages@;
        self.messages.push(pkt);
        self.state = self.state + 1;
        proof {
            let pre = old(self)@;
            let post = final(self)@;
            let ini = SrdPacketV::Initiate(in_packet@);
            let off = server0_packet(post, in_packet@);
            lemma_views_push(ms1, gpkt);
            assert(views_of_packets(ms1) == pre.messages.push(ini));
            assert(out_packet@ =~~= off);
            assert(post.messages =~~= pre.messages.push(ini).push(SrdPacketV::Offer(off)));
            assert(post =~~= (SrdV {
                key_size: in_packet@.key_size,
                seq_num: 2,
                state: 1,
                generator: post.generator,
                prime: post.prime,
                private_key: post.private_key,
                server_nonce: post.server_nonce,
                messages: pre.messages.push(ini).push(SrdPacketV::Offer(off)),
                ..pre
            }));
            assert(final(output_data)@.subrange(
                old(output_data)@.len() as int,
                final(output_data)@.len() as int,
            ) =~= spec_write_offer(off));
            assert(final(output_data)@.subrange(0, old(output_data)@.len() as int)
                =~= old(output_data)@);
        }
        Ok(false)
    }
}


/// The ACCEPT a client in state 1 emits: its public key under the group the
/// OFFER named, its fresh nonce, a channel binding exactly when its
/// certificate is set, and the transcript MAC, under sequence number 2.
pub open spec fn client1_packet(pre: SrdV, post: SrdV, off: SrdOfferV) -> SrdAcceptV {
    let base = SrdAcceptV {
        signature: SRD_SIGNATURE,
        packet_type: SRD_ACCEPT_MSG_ID,
        seq_num: 2,
        flags: 0,
        key_size: off.key_size,
        public_key: mod_pow_bytes(off.generator, post.private_key, off.prime),
        nonce: post.client_nonce,
        cbt: match pre.cert_data {
            None => None,
            Some(c) => Some(spec_cbt(post.integrity_key, post.client_nonce, c)),
        },
        mac: Seq::empty(),
    };
    SrdAcceptV {
        mac: spec_packet_mac(
            post.integrity_key,
            pre.messages.push(SrdPacketV::Offer(off)),
            spec_write_accept_nomac(base),
        ),
        ..base
    }
}

/// The client's second move: accept exactly a well-formed OFFER under
/// sequence number 1 whose prime is not zero; adopt the group and the
/// server's nonce, draw a private key and nonce, compute the shared secret,
/// derive the keys, emit ACCEPT, advance to state 2.
pub open spec fn client1_rel(pre: SrdV, input: Seq<u8>, post: SrdV, out: Seq<u8>, r: Result<
    bool,
    SrdError,
>) -> bool {
    match spec_parse_packet(input) {
        Err(e) => r == Err::<bool, SrdError>(e) && rejected(pre, post, out),
        Ok(v) => match v {
            SrdPacketV::Offer(off) => {
                if off.seq_num != pre.seq_num {
                    r == Err::<bool, SrdError>(SrdError::BadSequence) && rejected(pre, post, out)
                } else if bytes_be_to_nat(off.prime) == 0 {
                    r == Err::<bool, SrdError>(SrdError::Crypto) && rejected(pre, post, out)
                } else {
                    let acc = client1_packet(pre, post, off);
                    &&& r == Ok::<bool, SrdError>(false)
                    &&& post == (SrdV {
                        seq_num: 3,
                        state: 2,
                        generator: off.generator,
                        prime: off.prime,
                        private_key: post.private_key,
                        client_nonce: post.client_nonce,
                        server_nonce: off.nonce,
                        secret_key: mod_pow_bytes(off.public_key, post.private_key, off.prime),
                        delegation_key: post.delegation_key,
                        integrity_key: post.integrity_key,
                        iv: post.iv,
                        messages: pre.messages.push(SrdPacketV::Offer(off)).push(
                            SrdPacketV::Accept(acc),
                        ),
                        ..pre
                    })
                    &&& keys_derived(post)
                    &&& post.private_key.len() == pre.key_size as nat
                    &&& post.client_nonce.len() == 32
                    &&& out == spec_write_accept(acc)
                }
            },
            _ => r == Err::<bool, SrdError>(SrdError::BadSequence) && rejected(pre, post, out),
        },
    }
}


/// The CONFIRM a server in state 1 emits: a channel binding over its own
/// nonce exactly when its certificate is set, and the transcript MAC, under
/// sequence number 3.
pub open spec fn server1_packet(pre: SrdV, post: SrdV, acc: SrdAcceptV) -> SrdConfirmV {
    let base = SrdConfirmV {
        signature: SRD_SIGNATURE,
        packet_type: SRD_CONFIRM_MSG_ID,
        seq_num: 3,
        flags: 0,
        cbt: match pre.cert_data {
            None => None,
            Some(c) => Some(spec_cbt(post.integrity_key, pre.server_nonce, c)),
        },
        mac: Seq::empty(),
    };
    SrdConfirmV {
        mac: spec_packet_mac(
            post.integrity_key,
            pre.messages.push(SrdPacketV::Accept(acc)),
            spec_write_confirm_nomac(base),
        ),
        ..base
    }
}

/// The server's second move: accept exactly a well-formed ACCEPT under
/// sequence number 2 whose transcript MAC verifies under the freshly
/// derived integrity key and whose channel binding is present, and right,
/// exactly when the server's certificate is set; adopt the client's nonce,
/// derive the keys, emit CONFIRM, advance to state 2.
pub open spec fn server1_rel(pre: SrdV, input: Seq<u8>, post: SrdV, out: Seq<u8>, r: Result<
    bool,
    SrdError,
>) -> bool {
    match spec_parse_packet(input) {
        Err(e) => r == Err::<bool, SrdError>(e) && rejected(pre, post, out),
        Ok(v) => match v {
            SrdPacketV::Accept(acc) => {
                let z = mod_pow_bytes(acc.public_key, pre.private_key, pre.prime);
                let ik = spec_integrity_key(acc.nonce, z, pre.server_nonce);
                if acc.seq_num != pre.seq_num {
                    r == Err::<bool, SrdError>(SrdError::BadSequence) && rejected(pre, post, out)
                } else if acc.mac != spec_packet_mac(ik, pre.messages, spec_write_accept_nomac(acc)) {
                    r == Err::<bool, SrdError>(SrdError::InvalidMac) && rejected(pre, post, out)
                } else if !(match pre.cert_data {
                    None => acc.cbt is None,
                    Some(_) => acc.cbt is Some,
                }) {
                    r == Err::<bool, SrdError>(SrdError::InvalidCert) && rejected(pre, post, out)
                } else if (match (pre.cert_data, acc.cbt) {
                    (Some(c), Some(t)) => t != spec_cbt(ik, acc.nonce, c),
                    _ => false,
                }) {
                    r == Err::<bool, SrdError>(SrdError::InvalidCbt) && rejected(pre, post, out)
                } else {
                    let conf = server1_packet(pre, post, acc);
                    &&& r == Ok::<bool, SrdError>(false)
                    &&& post == (SrdV {
                        seq_num: 4,
                        state: 2,
                        client_nonce: acc.nonce,
                        secret_key: z,
                        delegation_key: post.delegation_key,
                        integrity_key: post.integrity_key,
                        iv: post.iv,
                        messages: pre.messages.push(SrdPacketV::Accept(acc)).push(
                            SrdPacketV::Confirm(conf),
                        ),
                        ..pre
                    })
                    &&& keys_derived(post)
                    &&& post.integrity_key == ik
                    &&& out == spec_write_confirm(conf)
                }
            },
            _ => r == Err::<bool, SrdError>(SrdError::BadSequence) && rejected(pre, post, out),
        },
    }
}


/// The DELEGATE a client in state 2 emits: the blob's envelope encrypted
/// under the delegation key and initialization vector, and the transcript
/// MAC over that ciphertext, under sequence number 4.
pub open spec fn client2_packet(pre: SrdV, conf: SrdConfirmV, b: SrdBlobV) -> SrdDelegateV {
    let base = SrdDelegateV {
        signature: SRD_SIGNATURE,
        packet_type: SRD_DELEGATE_MSG_ID,
        seq_num: 4,
        flags: 0,
        encrypted_blob: aes256_cbc_encrypt_of(pre.delegation_key, pre.iv, spec_write_blob(b)),
        mac: Seq::empty(),
    };
    SrdDelegateV {
        mac: spec_packet_mac(
            pre.integrity_key,
            pre.messages.push(SrdPacketV::Confirm(conf)),
            spec_write_delegate_nomac(base),
        ),
        ..base
    }
}

/// The client's last move: accept exactly a well-formed CONFIRM under
/// sequence number 3 whose transcript MAC verifies and whose channel
/// binding is present, and right, exactly when the client's certificate is
/// set; then, provided a blob was set, encrypt and emit it and finish.
pub open spec fn client2_rel(pre: SrdV, input: Seq<u8>, post: SrdV, out: Seq<u8>, r: Result<
    bool,
    SrdError,
>) -> bool {
    match spec_parse_packet(input) {
        Err(e) => r == Err::<bool, SrdError>(e) && rejected(pre, post, out),
        Ok(v) => match v {
            SrdPacketV::Confirm(conf) => {
                if conf.seq_num != pre.seq_num {
                    r == Err::<bool, SrdError>(SrdError::BadSequence) && rejected(pre, post, out)
                } else if conf.mac != spec_packet_mac(
                    pre.integrity_key,
                    pre.messages,
                    spec_write_confirm_nomac(conf),
                ) {
                    r == Err::<bool, SrdError>(SrdError::InvalidMac) && rejected(pre, post, out)
                } else if !(match pre.cert_data {
                    None => conf.cbt is None,
                    Some(_) => conf.cbt is Some,
                }) {
                    r == Err::<bool, SrdError>(SrdError::InvalidCert) && rejected(pre, post, out)
                } else if (match (pre.cert_data, conf.cbt) {
                    (Some(c), Some(t)) => t != spec_cbt(pre.integrity_key, pre.server_nonce, c),
                    _ => false,
                }) {
                    r == Err::<bool, SrdError>(SrdError::InvalidCbt) && rejected(pre, post, out)
                } else {
                    match pre.blob {
                        None => r == Err::<bool, SrdError>(SrdError::MissingBlob) && rejected(
                            pre,
                            post,
                            out,
                        ),
                        Some(b) => {
                            let del = client2_packet(pre, conf, b);
                            &&& r == Ok::<bool, SrdError>(true)
                            &&& post == (SrdV {
                                seq_num: 5,
                                state: 3,
                                messages: pre.messages.push(SrdPacketV::Confirm(conf)).push(
                                    SrdPacketV::Delegate(del),
                                ),
                                ..pre
                            })
                            &&& out == spec_write_delegate(del)
                        },
                    }
                }
            },
            _ => r == Err::<bool, SrdError>(SrdError::BadSequence) && rejected(pre, post, out),
        },
    }
}

/// The server's last move: accept exactly a well-formed DELEGATE under
/// sequence number 4 whose transcript MAC verifies over the ciphertext;
/// decrypting with the delegation key must yield a blob envelope, which is
/// stored, and the handshake finishes.  Whenever any blob's encrypted
/// envelope equals the ciphertext, the call succeeds and stores exactly
/// that blob.
pub open spec fn server2_rel(pre: SrdV, input: Seq<u8>, post: SrdV, out: Seq<u8>, r: Result<
    bool,
    SrdError,
>) -> bool {
    match spec_parse_packet(input) {
        Err(e) => r == Err::<bool, SrdError>(e) && rejected(pre, post, out),
        Ok(v) => match v {
            SrdPacketV::Delegate(del) => {
                if del.seq_num != pre.seq_num {
                    r == Err::<bool, SrdError>(SrdError::BadSequence) && rejected(pre, post, out)
                } else if del.mac != spec_packet_mac(
                    pre.integrity_key,
                    pre.messages,
                    spec_write_delegate_nomac(del),
                ) {
                    r == Err::<bool, SrdError>(SrdError::InvalidMac) && rejected(pre, post, out)
                } else {
                    &&& out == Seq::<u8>::empty()
                    &&& (r is Ok ==> r == Ok::<bool, SrdError>(true))
                    &&& (r == Ok::<bool, SrdError>(true) ==> (post.blob matches Some(b)
                        && blob_wf(b) && aes256_cbc_encrypt_of(
                        pre.delegation_key,
                        pre.iv,
                        spec_write_blob(b),
                    ) == del.encrypted_blob && post == (SrdV {
                        seq_num: 5,
                        state: 3,
                        blob: post.blob,
                        messages: pre.messages.push(SrdPacketV::Delegate(del)),
                        ..pre
                    })))
                    &&& (forall|b: SrdBlobV|
                        blob_wf(b) && aes256_cbc_encrypt_of(
                            pre.delegation_key,
                            pre.iv,
                            spec_write_blob(b),
                        ) == del.encrypted_blob ==> r == Ok::<bool, SrdError>(true) && post.blob
                            == Some(b))
                    &&& (r is Err ==> post == pre && (r matches Err(e) && (e == SrdError::Crypto
                        || e == SrdError::InvalidBlob)))
                }
            },
            _ => r == Err::<bool, SrdError>(SrdError::BadSequence) && rejected(pre, post, out),
        },
    }
}


/// What one `authenticate` call does, for every role, state and input: a
/// call in the terminal state fails with `BadSequence` and changes nothing;
/// otherwise the role and state select one transition.
pub open spec fn authenticate_rel(pre: SrdV, input: Seq<u8>, post: SrdV, out: Seq<u8>, r: Result<
    bool,
    SrdError,
>) -> bool {
    if pre.state >= 3 {
        r == Err::<bool, SrdError>(SrdError::BadSequence) && rejected(pre, post, out)
    } else if pre.is_server {
        if pre.state == 0 {
            server0_rel(pre, input, post, out, r)
        } else if pre.state == 1 {
            server1_rel(pre, input, post, out, r)
        } else {
            server2_rel(pre, input, post, out, r)
        }
    } else {
        if pre.state == 0 {
            client0_rel(pre, post, out, r)
        } else if pre.state == 1 {
            client1_rel(pre, input, post, out, r)
        } else {
            client2_rel(pre, input, post, out, r)
        }
    }
}

/// Key agreement: a client that raises the server's public key by its own
/// exponent and a server that raises the client's public key by its own
/// exponent land on the same shared secret, so the delegation and
/// integrity keys both sides derive from it and the two nonces are equal.
pub proof fn lemma_handshake_keys_agree(
    g: Seq<u8>,
    p: Seq<u8>,
    client_exponent: Seq<u8>,
    server_exponent: Seq<u8>,
    client_nonce: Seq<u8>,
    server_nonce: Seq<u8>,
)
    requires
        bytes_be_to_nat(p) > 0,
    ensures
        ({
            let server_public = mod_pow_bytes(g, server_exponent, p);
            let client_public = mod_pow_bytes(g, client_exponent, p);
            let client_secret = mod_pow_bytes(server_public, client_exponent, p);
            let server_secret = mod_pow_bytes(client_public, server_exponent, p);
            &&& client_secret == server_secret
            &&& spec_delegation_key(client_nonce, client_secret, server_nonce)
                == spec_delegation_key(client_nonce, server_secret, server_nonce)
            &&& spec_integrity_key(client_nonce, client_secret, server_nonce)
                == spec_integrity_key(client_nonce, server_secret, server_nonce)
        }),
{
    lemma_mod_pow_commutes(g, p, server_exponent, client_exponent);
}


/// Blob delivery: when a client completes its last step, and a server in
/// its last state whose transcript and derived keys agree with the
/// client's consumes exactly the bytes the client emitted, the server
/// succeeds and stores the very blob the client had set.
pub proof fn lemma_delegated_blob_is_delivered(
    cpre: SrdV,
    cin: Seq<u8>,
    cpost: SrdV,
    cout: Seq<u8>,
    conf: SrdConfirmV,
    spre: SrdV,
    spost: SrdV,
    sout: Seq<u8>,
    r: Result<bool, SrdError>,
)
    requires
        spec_parse_packet(cin) == Ok::<SrdPacketV, SrdError>(SrdPacketV::Confirm(conf)),
        client2_rel(cpre, cin, cpost, cout, Ok::<bool, SrdError>(true)),
        cpre.blob matches Some(b) && blob_wf(b) && packet_wf(
            SrdPacketV::Delegate(client2_packet(cpre, conf, b)),
        ),
        spre.integrity_key == cpre.integrity_key,
        spre.delegation_key == cpre.delegation_key,
        spre.iv == cpre.iv,
        spre.seq_num == 4,
        spre.messages == cpre.messages.push(SrdPacketV::Confirm(conf)),
        server2_rel(spre, cout, spost, sout, r),
    ensures
        r == Ok::<bool, SrdError>(true),
        spost.blob == cpre.blob,
{
    let b = cpre.blob->Some_0;
    let del = client2_packet(cpre, conf, b);
    crate::message_types::lemma_packet_roundtrip(SrdPacketV::Delegate(del));
    assert(cout == spec_write_delegate(del));
    assert(spec_parse_packet(cout) == Ok::<SrdPacketV, SrdError>(SrdPacketV::Delegate(del)));
    assert(spec_write_delegate_nomac(del) =~= spec_write_delegate_nomac(
        SrdDelegateV {
            signature: SRD_SIGNATURE,
            packet_type: SRD_DELEGATE_MSG_ID,
            seq_num: 4,
            flags: 0,
            encrypted_blob: aes256_cbc_encrypt_of(
                cpre.delegation_key,
                cpre.iv,
                spec_write_blob(b),
            ),
            mac: Seq::empty(),
        },
    ));
    assert(del.mac == spec_packet_mac(spre.integrity_key, spre.messages, spec_write_delegate_nomac(del)));
    assert(blob_wf(b) && aes256_cbc_encrypt_of(spre.delegation_key, spre.iv, spec_write_blob(b))
        == del.encrypted_blob);
}

/// The image of a session just built for a role.
pub open spec fn initial_session(is_server: bool) -> SrdV {
    SrdV {
        blob: None,
        is_server,
        key_size: 256,
        seq_num: 0,
        state: 0,
        messages: Seq::empty(),
        cert_data: None,
        client_nonce: Seq::new(32, |i: int| 0u8),
        server_nonce: Seq::new(32, |i: int| 0u8),
        delegation_key: Seq::new(32, |i: int| 0u8),
        integrity_key: Seq::new(32, |i: int| 0u8),
        iv: Seq::new(16, |i: int| 0u8),
        generator: Seq::new(1, |i: int| 0u8),
        prime: Seq::new(1, |i: int| 0u8),
        private_key: Seq::new(1, |i: int| 0u8),
        secret_key: Seq::empty(),
    }
}

} // verus!
