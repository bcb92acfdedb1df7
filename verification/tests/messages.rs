use sardine::message_types::read_packet;
use sardine::message_types::SrdAccept;
use sardine::message_types::SrdConfirm;
use sardine::message_types::SrdDelegate;
use sardine::message_types::SrdInitiate;
use sardine::message_types::SrdOffer;
use sardine::message_types::SrdPacket;
use sardine::message_types::SRD_ACCEPT_MSG_ID;
use sardine::message_types::SRD_CONFIRM_MSG_ID;
use sardine::message_types::SRD_DELEGATE_MSG_ID;
use sardine::message_types::SRD_INITIATE_MSG_ID;
use sardine::message_types::SRD_OFFER_MSG_ID;
use sardine::message_types::SRD_SIGNATURE;
use sardine::srd_blob::SrdBlob;
use sardine::srd_errors::SrdError;

#[test]
fn initiate_encoding() {
    let msg = SrdInitiate::new(2);
    assert_eq!(msg.get_id(), SRD_INITIATE_MSG_ID);

    let mut buffer: Vec<u8> = Vec::new();
    msg.write_to(&mut buffer);

    match SrdInitiate::read_from(&buffer) {
        Ok(x) => {
            assert_eq!(x.signature, SRD_SIGNATURE);
            assert_eq!(x, msg);
        }
        Err(_) => assert!(false),
    };
}

#[test]
fn initiate_exact_bytes() {
    let msg = SrdInitiate::new(256);
    let mut buffer: Vec<u8> = Vec::new();
    msg.write_to(&mut buffer);
    assert_eq!(
        buffer,
        vec![0x53, 0x52, 0x44, 0x00, 0x01, 0x00, 0x00, 0x00, 0x00, 0x01, 0x00, 0x00]
    );
}

#[test]
fn offer_roundtrip() {
    let msg = SrdOffer {
        signature: SRD_SIGNATURE,
        packet_type: SRD_OFFER_MSG_ID,
        seq_num: 1,
        flags: 0,
        key_size: 256,
        generator: vec![2],
        prime: vec![0xff, 0x13, 0x77],
        public_key: vec![1, 2, 3, 4, 5],
        nonce: vec![7; 32],
    };
    let mut buffer: Vec<u8> = Vec::new();
    msg.write_to(&mut buffer);
    match read_packet(&buffer) {
        Ok(SrdPacket::Offer(x)) => {
            assert_eq!(x.signature, msg.signature);
            assert_eq!(x.packet_type, msg.packet_type);
            assert_eq!(x.seq_num, msg.seq_num);
            assert_eq!(x.flags, msg.flags);
            assert_eq!(x.key_size, msg.key_size);
            assert_eq!(x.generator, msg.generator);
            assert_eq!(x.prime, msg.prime);
            assert_eq!(x.public_key, msg.public_key);
            assert_eq!(x.nonce, msg.nonce);
        }
        _ => assert!(false),
    }
}

#[test]
fn accept_roundtrip_with_cbt() {
    let msg = SrdAccept {
        signature: SRD_SIGNATURE,
        packet_type: SRD_ACCEPT_MSG_ID,
        seq_num: 2,
        flags: 0,
        key_size: 256,
        public_key: vec![9, 8, 7],
        nonce: vec![1; 32],
        cbt: Some(vec![3; 32]),
        mac: vec![4; 32],
    };
    let mut buffer: Vec<u8> = Vec::new();
    msg.write_to(&mut buffer);
    match read_packet(&buffer) {
        Ok(SrdPacket::Accept(x)) => {
            assert_eq!(x.seq_num, 2);
            assert_eq!(x.public_key, msg.public_key);
            assert_eq!(x.nonce, msg.nonce);
            assert_eq!(x.cbt, msg.cbt);
            assert_eq!(x.mac, msg.mac);
        }
        _ => assert!(false),
    }
}

#[test]
fn accept_roundtrip_without_cbt() {
    let msg = SrdAccept {
        signature: SRD_SIGNATURE,
        packet_type: SRD_ACCEPT_MSG_ID,
        seq_num: 2,
        flags: 0,
        key_size: 512,
        public_key: vec![],
        nonce: vec![0; 32],
        cbt: None,
        mac: vec![0xaa; 32],
    };
    let mut buffer: Vec<u8> = Vec::new();
    msg.write_to(&mut buffer);
    match read_packet(&buffer) {
        Ok(SrdPacket::Accept(x)) => {
            assert_eq!(x.key_size, 512);
            assert_eq!(x.public_key, Vec::<u8>::new());
            assert_eq!(x.cbt, None);
            assert_eq!(x.mac, msg.mac);
        }
        _ => assert!(false),
    }
}

#[test]
fn confirm_roundtrip() {
    let msg = SrdConfirm {
        signature: SRD_SIGNATURE,
        packet_type: SRD_CONFIRM_MSG_ID,
        seq_num: 3,
        flags: 0,
        cbt: Some(vec![0x11; 32]),
        mac: vec![0x22; 32],
    };
    let mut buffer: Vec<u8> = Vec::new();
    msg.write_to(&mut buffer);
    match read_packet(&buffer) {
        Ok(SrdPacket::Confirm(x)) => {
            assert_eq!(x.seq_num, 3);
            assert_eq!(x.cbt, msg.cbt);
            assert_eq!(x.mac, msg.mac);
        }
        _ => assert!(false),
    }
}

#[test]
fn delegate_roundtrip() {
    let msg = SrdDelegate {
        signature: SRD_SIGNATURE,
        packet_type: SRD_DELEGATE_MSG_ID,
        seq_num: 4,
        flags: 0,
        encrypted_blob: vec![0xde, 0xad, 0xbe, 0xef],
        mac: vec![0x33; 32],
    };
    let mut buffer: Vec<u8> = Vec::new();
    msg.write_to(&mut buffer);
    match read_packet(&buffer) {
        Ok(SrdPacket::Delegate(x)) => {
            assert_eq!(x.seq_num, 4);
            assert_eq!(x.encrypted_blob, msg.encrypted_blob);
            assert_eq!(x.mac, msg.mac);
        }
        _ => assert!(false),
    }
}

#[test]
fn short_buffer_is_io() {
    assert!(matches!(read_packet(&vec![0x53, 0x52, 0x44]), Err(SrdError::Io)));
}

#[test]
fn wrong_signature_is_rejected() {
    let msg = SrdInitiate::new(256);
    let mut buffer: Vec<u8> = Vec::new();
    msg.write_to(&mut buffer);
    buffer[0] ^= 0x01;
    assert!(matches!(read_packet(&buffer), Err(SrdError::InvalidSignature)));
}

#[test]
fn trailing_bytes_are_io() {
    let msg = SrdInitiate::new(256);
    let mut buffer: Vec<u8> = Vec::new();
    msg.write_to(&mut buffer);
    buffer.push(0);
    assert!(matches!(read_packet(&buffer), Err(SrdError::Io)));
}

#[test]
fn unknown_packet_type_is_io() {
    let msg = SrdInitiate::new(256);
    let mut buffer: Vec<u8> = Vec::new();
    msg.write_to(&mut buffer);
    buffer[4] = 9;
    assert!(matches!(read_packet(&buffer), Err(SrdError::Io)));
}

#[test]
fn bad_cbt_flag_is_io() {
    let msg = SrdConfirm {
        signature: SRD_SIGNATURE,
        packet_type: SRD_CONFIRM_MSG_ID,
        seq_num: 3,
        flags: 0,
        cbt: None,
        mac: vec![0; 32],
    };
    let mut buffer: Vec<u8> = Vec::new();
    msg.write_to(&mut buffer);
    buffer[8] = 2;
    assert!(matches!(read_packet(&buffer), Err(SrdError::Io)));
}

#[test]
fn blob_envelope_roundtrip() {
    let blob = SrdBlob::new(0x41, b"credential bytes".to_vec());
    let encoded = blob.encode();
    let decoded = SrdBlob::decode(&encoded).unwrap();
    assert_eq!(decoded.blob_type, 0x41);
    assert_eq!(decoded.data, b"credential bytes".to_vec());
}

#[test]
fn blob_envelope_rejects_truncation() {
    let blob = SrdBlob::new(7, vec![1, 2, 3]);
    let mut encoded = blob.encode();
    encoded.pop();
    assert_eq!(
        SrdBlob::decode(&encoded).map(|b| b.blob_type),
        Err(SrdError::InvalidBlob)
    );
}
