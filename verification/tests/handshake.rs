use sardine::message_types::SrdDelegate;
use sardine::message_types::SrdInitiate;
use sardine::message_types::SRD_DELEGATE_MSG_ID;
use sardine::message_types::SRD_SIGNATURE;
use sardine::srd::Srd;
use sardine::srd_blob::SrdBlob;
use sardine::srd_errors::SrdError;

use hmac::KeyInit;
use hmac::Mac;
use sha2::Digest;

type HmacSha256 = hmac::Hmac<sha2::Sha256>;
type Aes256CbcEnc = cbc::Encryptor<aes::Aes256>;

/// Drive a full handshake, returning the five wire buffers in order.
fn drive(client: &mut Srd, server: &mut Srd) -> Result<Vec<Vec<u8>>, SrdError> {
    let empty: Vec<u8> = Vec::new();

    let mut c1: Vec<u8> = Vec::new();
    assert_eq!(client.authenticate(&empty, &mut c1)?, false);

    let mut s1: Vec<u8> = Vec::new();
    assert_eq!(server.authenticate(&c1, &mut s1)?, false);

    let mut c2: Vec<u8> = Vec::new();
    assert_eq!(client.authenticate(&s1, &mut c2)?, false);

    let mut s2: Vec<u8> = Vec::new();
    assert_eq!(server.authenticate(&c2, &mut s2)?, false);

    let mut c3: Vec<u8> = Vec::new();
    assert_eq!(client.authenticate(&s2, &mut c3)?, true);

    let mut s3: Vec<u8> = Vec::new();
    assert_eq!(server.authenticate(&c3, &mut s3)?, true);
    assert!(s3.is_empty());

    Ok(vec![c1, s1, c2, s2, c3])
}

#[test]
fn happy_path_256_no_cbt() {
    let mut client = Srd::new(false).unwrap();
    let mut server = Srd::new(true).unwrap();
    client.set_key_size(256).unwrap();
    client.set_blob(SrdBlob::new(0x01, b"hello".to_vec()));

    drive(&mut client, &mut server).unwrap();

    let blob = server.get_blob().unwrap();
    assert_eq!(blob.blob_type, 0x01);
    assert_eq!(blob.data, b"hello".to_vec());
}

#[test]
fn completed_sides_agree_on_keys() {
    let mut client = Srd::new(false).unwrap();
    let mut server = Srd::new(true).unwrap();
    client.set_blob(SrdBlob::new(1, b"k".to_vec()));

    drive(&mut client, &mut server).unwrap();

    assert_eq!(client.get_delegation_key(), server.get_delegation_key());
    assert_eq!(client.get_integrity_key(), server.get_integrity_key());
    assert_eq!(client.get_iv(), server.get_iv());
    assert_eq!(client.get_delegation_key().len(), 32);
    assert_eq!(client.get_integrity_key().len(), 32);
    assert_eq!(client.get_iv().len(), 16);
    assert_ne!(client.get_delegation_key(), client.get_integrity_key());
    assert_eq!(client.secret_key, server.secret_key);
    assert_ne!(client.client_nonce, client.server_nonce);
}

#[test]
fn key_schedule_matches_sha256() {
    let mut client = Srd::new(false).unwrap();
    let mut server = Srd::new(true).unwrap();
    client.set_blob(SrdBlob::new(1, b"k".to_vec()));

    drive(&mut client, &mut server).unwrap();

    let mut h = sha2::Sha256::new();
    h.update(&client.client_nonce);
    h.update(&client.secret_key);
    h.update(&client.server_nonce);
    assert_eq!(client.get_delegation_key().as_slice(), h.finalize().as_slice());

    let mut h = sha2::Sha256::new();
    h.update(&client.server_nonce);
    h.update(&client.secret_key);
    h.update(&client.client_nonce);
    assert_eq!(client.get_integrity_key().as_slice(), h.finalize().as_slice());

    let mut h = sha2::Sha256::new();
    h.update(&client.client_nonce);
    h.update(&client.server_nonce);
    assert_eq!(client.get_iv().as_slice(), &h.finalize().as_slice()[0..16]);
}

#[test]
fn happy_path_512_with_cbt() {
    let mut client = Srd::new(false).unwrap();
    let mut server = Srd::new(true).unwrap();
    client.set_key_size(512).unwrap();
    client.set_cert_data(b"CERT".to_vec()).unwrap();
    server.set_cert_data(b"CERT".to_vec()).unwrap();

    let mut data = vec![0u8; 512];
    let mut rng = rand::rng();
    rand::Rng::fill_bytes(&mut rng, data.as_mut_slice());
    client.set_blob(SrdBlob::new(0x02, data.clone()));

    drive(&mut client, &mut server).unwrap();

    let blob = server.get_blob().unwrap();
    assert_eq!(blob.blob_type, 0x02);
    assert_eq!(blob.data, data);
}

#[test]
fn emitted_packets_carry_the_session_counter() {
    let mut client = Srd::new(false).unwrap();
    let mut server = Srd::new(true).unwrap();
    client.set_blob(SrdBlob::new(1, b"x".to_vec()));

    let buffers = drive(&mut client, &mut server).unwrap();
    for (i, buffer) in buffers.iter().enumerate() {
        assert_eq!(buffer[5] as usize, i);
    }
}

#[test]
fn terminal_sessions_refuse_more_calls() {
    let mut client = Srd::new(false).unwrap();
    let mut server = Srd::new(true).unwrap();
    client.set_blob(SrdBlob::new(1, b"x".to_vec()));

    let buffers = drive(&mut client, &mut server).unwrap();

    let mut out: Vec<u8> = Vec::new();
    assert!(matches!(
        client.authenticate(&buffers[3], &mut out),
        Err(SrdError::BadSequence)
    ));
    assert!(matches!(
        server.authenticate(&buffers[4], &mut out),
        Err(SrdError::BadSequence)
    ));
    assert!(out.is_empty());
}

#[test]
fn cbt_mismatch_fails_with_invalid_cbt() {
    let mut client = Srd::new(false).unwrap();
    let mut server = Srd::new(true).unwrap();
    client.set_cert_data(b"A".to_vec()).unwrap();
    server.set_cert_data(b"B".to_vec()).unwrap();
    client.set_blob(SrdBlob::new(1, b"x".to_vec()));

    let empty: Vec<u8> = Vec::new();
    let mut c1: Vec<u8> = Vec::new();
    client.authenticate(&empty, &mut c1).unwrap();
    let mut s1: Vec<u8> = Vec::new();
    server.authenticate(&c1, &mut s1).unwrap();
    let mut c2: Vec<u8> = Vec::new();
    client.authenticate(&s1, &mut c2).unwrap();

    let mut s2: Vec<u8> = Vec::new();
    assert!(matches!(
        server.authenticate(&c2, &mut s2),
        Err(SrdError::InvalidCbt)
    ));
    assert!(s2.is_empty());
}

#[test]
fn asymmetric_cbt_fails_with_invalid_cert() {
    let mut client = Srd::new(false).unwrap();
    let mut server = Srd::new(true).unwrap();
    client.set_cert_data(b"CERT".to_vec()).unwrap();
    client.set_blob(SrdBlob::new(1, b"x".to_vec()));

    let empty: Vec<u8> = Vec::new();
    let mut c1: Vec<u8> = Vec::new();
    client.authenticate(&empty, &mut c1).unwrap();
    let mut s1: Vec<u8> = Vec::new();
    server.authenticate(&c1, &mut s1).unwrap();
    let mut c2: Vec<u8> = Vec::new();
    client.authenticate(&s1, &mut c2).unwrap();

    let mut s2: Vec<u8> = Vec::new();
    assert!(matches!(
        server.authenticate(&c2, &mut s2),
        Err(SrdError::InvalidCert)
    ));
}

#[test]
fn key_size_384_is_rejected() {
    let mut client = Srd::new(false).unwrap();
    assert!(matches!(
        client.set_key_size(384),
        Err(SrdError::InvalidKeySize)
    ));

    let mut server = Srd::new(true).unwrap();
    let msg = SrdInitiate::new(384);
    let mut buffer: Vec<u8> = Vec::new();
    msg.write_to(&mut buffer);
    let mut out: Vec<u8> = Vec::new();
    assert!(matches!(
        server.authenticate(&buffer, &mut out),
        Err(SrdError::InvalidKeySize)
    ));
}

#[test]
fn missing_blob_fails_and_emits_nothing() {
    let mut client = Srd::new(false).unwrap();
    let mut server = Srd::new(true).unwrap();

    let empty: Vec<u8> = Vec::new();
    let mut c1: Vec<u8> = Vec::new();
    client.authenticate(&empty, &mut c1).unwrap();
    let mut s1: Vec<u8> = Vec::new();
    server.authenticate(&c1, &mut s1).unwrap();
    let mut c2: Vec<u8> = Vec::new();
    client.authenticate(&s1, &mut c2).unwrap();
    let mut s2: Vec<u8> = Vec::new();
    server.authenticate(&c2, &mut s2).unwrap();

    let mut c3: Vec<u8> = Vec::new();
    assert!(matches!(
        client.authenticate(&s2, &mut c3),
        Err(SrdError::MissingBlob)
    ));
    assert!(c3.is_empty());
}

#[test]
fn bit_flip_in_accept_fails_with_invalid_mac() {
    let mut client = Srd::new(false).unwrap();
    let mut server = Srd::new(true).unwrap();
    client.set_blob(SrdBlob::new(1, b"x".to_vec()));

    let empty: Vec<u8> = Vec::new();
    let mut c1: Vec<u8> = Vec::new();
    client.authenticate(&empty, &mut c1).unwrap();
    let mut s1: Vec<u8> = Vec::new();
    server.authenticate(&c1, &mut s1).unwrap();
    let mut c2: Vec<u8> = Vec::new();
    client.authenticate(&s1, &mut c2).unwrap();

    // A flip in the public-key bytes: the packet still parses, the MAC no
    // longer verifies.
    let mut tampered = c2.clone();
    tampered[14] ^= 0x01;
    let mut s2: Vec<u8> = Vec::new();
    assert!(matches!(
        server.authenticate(&tampered, &mut s2),
        Err(SrdError::InvalidMac)
    ));
}

#[test]
fn bit_flip_in_mac_field_fails_with_invalid_mac() {
    let mut client = Srd::new(false).unwrap();
    let mut server = Srd::new(true).unwrap();
    client.set_blob(SrdBlob::new(1, b"x".to_vec()));

    let empty: Vec<u8> = Vec::new();
    let mut c1: Vec<u8> = Vec::new();
    client.authenticate(&empty, &mut c1).unwrap();
    let mut s1: Vec<u8> = Vec::new();
    server.authenticate(&c1, &mut s1).unwrap();
    let mut c2: Vec<u8> = Vec::new();
    client.authenticate(&s1, &mut c2).unwrap();

    let last = c2.len() - 1;
    let mut tampered = c2.clone();
    tampered[last] ^= 0x80;
    let mut s2: Vec<u8> = Vec::new();
    assert!(matches!(
        server.authenticate(&tampered, &mut s2),
        Err(SrdError::InvalidMac)
    ));
}

#[test]
fn bit_flip_in_delegate_ciphertext_fails_with_invalid_mac() {
    let mut client = Srd::new(false).unwrap();
    let mut server = Srd::new(true).unwrap();
    client.set_blob(SrdBlob::new(1, b"secret".to_vec()));

    let empty: Vec<u8> = Vec::new();
    let mut c1: Vec<u8> = Vec::new();
    client.authenticate(&empty, &mut c1).unwrap();
    let mut s1: Vec<u8> = Vec::new();
    server.authenticate(&c1, &mut s1).unwrap();
    let mut c2: Vec<u8> = Vec::new();
    client.authenticate(&s1, &mut c2).unwrap();
    let mut s2: Vec<u8> = Vec::new();
    server.authenticate(&c2, &mut s2).unwrap();
    let mut c3: Vec<u8> = Vec::new();
    client.authenticate(&s2, &mut c3).unwrap();

    // Offset 12 is the first ciphertext byte; the MAC covers it.
    let mut tampered = c3.clone();
    tampered[12] ^= 0x01;
    let mut out: Vec<u8> = Vec::new();
    assert!(matches!(
        server.authenticate(&tampered, &mut out),
        Err(SrdError::InvalidMac)
    ));
}

#[test]
fn replayed_packet_fails_with_bad_sequence() {
    let mut client = Srd::new(false).unwrap();
    let mut server = Srd::new(true).unwrap();
    client.set_blob(SrdBlob::new(1, b"x".to_vec()));

    let empty: Vec<u8> = Vec::new();
    let mut c1: Vec<u8> = Vec::new();
    client.authenticate(&empty, &mut c1).unwrap();
    let mut s1: Vec<u8> = Vec::new();
    server.authenticate(&c1, &mut s1).unwrap();

    // The server already consumed INITIATE; replaying it must be refused.
    let mut out: Vec<u8> = Vec::new();
    assert!(matches!(
        server.authenticate(&c1, &mut out),
        Err(SrdError::BadSequence)
    ));
}

#[test]
fn zero_prime_offer_fails_with_crypto() {
    let mut client = Srd::new(false).unwrap();
    let empty: Vec<u8> = Vec::new();
    let mut c1: Vec<u8> = Vec::new();
    client.authenticate(&empty, &mut c1).unwrap();

    let offer = sardine::message_types::SrdOffer {
        signature: SRD_SIGNATURE,
        packet_type: sardine::message_types::SRD_OFFER_MSG_ID,
        seq_num: 1,
        flags: 0,
        key_size: 256,
        generator: vec![2],
        prime: vec![0, 0, 0],
        public_key: vec![1],
        nonce: vec![9; 32],
    };
    let mut buffer: Vec<u8> = Vec::new();
    offer.write_to(&mut buffer);
    let mut out: Vec<u8> = Vec::new();
    assert!(matches!(
        client.authenticate(&buffer, &mut out),
        Err(SrdError::Crypto)
    ));
}

/// Craft a DELEGATE whose transcript MAC is right but whose ciphertext is
/// the given bytes, against a server that has just sent CONFIRM.
fn craft_delegate(transcript: &[u8], integrity_key: &[u8], ciphertext: Vec<u8>) -> Vec<u8> {
    let mut msg = SrdDelegate {
        signature: SRD_SIGNATURE,
        packet_type: SRD_DELEGATE_MSG_ID,
        seq_num: 4,
        flags: 0,
        encrypted_blob: ciphertext,
        mac: Vec::new(),
    };
    let mut body: Vec<u8> = Vec::new();
    msg.write_nomac_to(&mut body);
    let mut mac = <HmacSha256 as KeyInit>::new_from_slice(integrity_key).unwrap();
    mac.update(transcript);
    mac.update(&body);
    msg.mac = mac.finalize().into_bytes().to_vec();
    let mut buffer: Vec<u8> = Vec::new();
    msg.write_to(&mut buffer);
    buffer
}

#[test]
fn unpaddable_ciphertext_fails_with_crypto() {
    let mut client = Srd::new(false).unwrap();
    let mut server = Srd::new(true).unwrap();

    let empty: Vec<u8> = Vec::new();
    let mut c1: Vec<u8> = Vec::new();
    client.authenticate(&empty, &mut c1).unwrap();
    let mut s1: Vec<u8> = Vec::new();
    server.authenticate(&c1, &mut s1).unwrap();
    let mut c2: Vec<u8> = Vec::new();
    client.authenticate(&s1, &mut c2).unwrap();
    let mut s2: Vec<u8> = Vec::new();
    server.authenticate(&c2, &mut s2).unwrap();

    let mut transcript: Vec<u8> = Vec::new();
    transcript.extend_from_slice(&c1);
    transcript.extend_from_slice(&s1);
    transcript.extend_from_slice(&c2);
    transcript.extend_from_slice(&s2);

    // Fifteen bytes can never come out of a block cipher.
    let buffer = craft_delegate(&transcript, client.get_integrity_key(), vec![0u8; 15]);
    let mut out: Vec<u8> = Vec::new();
    assert!(matches!(
        server.authenticate(&buffer, &mut out),
        Err(SrdError::Crypto)
    ));
}

#[test]
fn undecodable_plaintext_fails_with_invalid_blob() {
    let mut client = Srd::new(false).unwrap();
    let mut server = Srd::new(true).unwrap();

    let empty: Vec<u8> = Vec::new();
    let mut c1: Vec<u8> = Vec::new();
    client.authenticate(&empty, &mut c1).unwrap();
    let mut s1: Vec<u8> = Vec::new();
    server.authenticate(&c1, &mut s1).unwrap();
    let mut c2: Vec<u8> = Vec::new();
    client.authenticate(&s1, &mut c2).unwrap();
    let mut s2: Vec<u8> = Vec::new();
    server.authenticate(&c2, &mut s2).unwrap();

    let mut transcript: Vec<u8> = Vec::new();
    transcript.extend_from_slice(&c1);
    transcript.extend_from_slice(&s1);
    transcript.extend_from_slice(&c2);
    transcript.extend_from_slice(&s2);

    // A properly padded ciphertext whose plaintext is too short to be a
    // blob envelope.
    let key: [u8; 32] = client.get_delegation_key().as_slice().try_into().unwrap();
    let iv: [u8; 16] = client.get_iv().as_slice().try_into().unwrap();
    let enc = <Aes256CbcEnc as cbc::cipher::KeyIvInit>::new(&key.into(), &iv.into());
    let ciphertext = cbc::cipher::BlockModeEncrypt::encrypt_padded_vec::<
        cbc::cipher::block_padding::Pkcs7,
    >(enc, b"xy");

    let buffer = craft_delegate(&transcript, client.get_integrity_key(), ciphertext);
    let mut out: Vec<u8> = Vec::new();
    assert!(matches!(
        server.authenticate(&buffer, &mut out),
        Err(SrdError::InvalidBlob)
    ));
}

#[test]
fn wrong_packet_kind_fails_with_bad_sequence() {
    let mut server = Srd::new(true).unwrap();
    let offer = sardine::message_types::SrdOffer {
        signature: SRD_SIGNATURE,
        packet_type: sardine::message_types::SRD_OFFER_MSG_ID,
        seq_num: 0,
        flags: 0,
        key_size: 256,
        generator: vec![2],
        prime: vec![0xff],
        public_key: vec![1],
        nonce: vec![0; 32],
    };
    let mut buffer: Vec<u8> = Vec::new();
    offer.write_to(&mut buffer);
    let mut out: Vec<u8> = Vec::new();
    assert!(matches!(
        server.authenticate(&buffer, &mut out),
        Err(SrdError::BadSequence)
    ));
}

#[test]
fn accept_cbt_matches_hmac_formula() {
    let mut client = Srd::new(false).unwrap();
    let mut server = Srd::new(true).unwrap();
    client.set_cert_data(b"CERT".to_vec()).unwrap();
    server.set_cert_data(b"CERT".to_vec()).unwrap();
    client.set_blob(SrdBlob::new(1, b"x".to_vec()));

    let buffers = drive(&mut client, &mut server).unwrap();

    // ACCEPT layout: 8-byte header, key size, 4-byte length, public key,
    // 32-byte nonce, presence byte, 32-byte token, 32-byte MAC.
    let c2 = &buffers[2];
    let klen = u32::from_le_bytes(c2[10..14].try_into().unwrap()) as usize;
    let nonce_at = 14 + klen;
    let flag_at = nonce_at + 32;
    assert_eq!(c2[flag_at], 1);
    let token = &c2[flag_at + 1..flag_at + 33];

    let mut mac = <HmacSha256 as KeyInit>::new_from_slice(client.get_integrity_key()).unwrap();
    mac.update(&client.client_nonce);
    mac.update(b"CERT");
    assert_eq!(token, mac.finalize().into_bytes().as_slice());
}
