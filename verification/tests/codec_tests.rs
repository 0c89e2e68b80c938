use sv2_core::codec::{Sv2Decoder, Sv2Encoder};
use sv2_core::codec_state::{Sv2CodecError, Sv2CodecState};

fn authority_keypair() -> (Vec<u8>, Vec<u8>) {
    let secp = bitcoin::secp256k1::Secp256k1::new();
    let sk = bitcoin::secp256k1::SecretKey::from_slice(&[7u8; 32]).expect("valid scalar");
    let kp = bitcoin::secp256k1::Keypair::from_secret_key(&secp, &sk);
    let (xonly, _parity) = kp.x_only_public_key();
    (xonly.serialize().to_vec(), sk.secret_bytes().to_vec())
}

fn handshake() -> (Sv2CodecState, Sv2CodecState) {
    let (pk, sk) = authority_keypair();
    let mut initiator = Sv2CodecState::new_initiator(pk.clone()).expect("initiator");
    let mut responder = Sv2CodecState::new_responder(pk, sk, 3600).expect("responder");
    let step0 = initiator.step_0().expect("step 0");
    assert_eq!(step0.len(), 64);
    let step1 = responder.step_1(step0).expect("step 1");
    assert_eq!(step1.len(), 234);
    initiator.step_2(step1).expect("step 2");
    assert!(initiator.handshake_complete().unwrap());
    assert!(responder.handshake_complete().unwrap());
    (initiator, responder)
}

#[test]
fn handshake_reaches_transport_on_both_sides() {
    let (_i, _r) = handshake();
}

#[test]
fn encode_then_decode_round_trips_byte_identically() {
    let (mut initiator, mut responder) = handshake();
    let payload: Vec<u8> = (0u16..300).map(|x| (x % 251) as u8).collect();
    let encoder = Sv2Encoder::new();
    let wire = encoder
        .encode(0x15, &payload, &mut initiator)
        .expect("encodes");
    assert_eq!(wire.len(), 2 + 6 + payload.len() + 16);

    let mut decoder = Sv2Decoder::new();
    assert_eq!(decoder.buffer_size().unwrap(), 2);
    let first = wire[0..2].to_vec();
    let rest = wire[2..].to_vec();
    match decoder.try_decode(first, &mut responder) {
        Err(Sv2CodecError::MissingBytes) => {},
        other => panic!("expected MissingBytes, got {:?}", other),
    }
    assert_eq!(decoder.buffer_size().unwrap() as usize, rest.len());
    let (msg_type, decoded) = decoder.try_decode(rest, &mut responder).expect("decodes");
    assert_eq!(msg_type, 0x15);
    assert_eq!(decoded, payload);
    assert_eq!(decoder.buffer_size().unwrap(), 2);
}

#[test]
fn decoder_requires_exact_read_sizes() {
    let (mut initiator, mut responder) = handshake();
    let payload = vec![1u8, 2, 3];
    let encoder = Sv2Encoder::new();
    let wire = encoder
        .encode(0x20, &payload, &mut initiator)
        .expect("encodes");

    let mut decoder = Sv2Decoder::new();
    // supplying the whole wire at once violates the exact-size contract
    match decoder.try_decode(wire.clone(), &mut responder) {
        Err(Sv2CodecError::InvalidDataSize { expected, actual }) => {
            assert_eq!(expected, 2);
            assert_eq!(actual as usize, wire.len());
        },
        other => panic!("expected InvalidDataSize, got {:?}", other),
    }
    // the failed call consumed nothing: the compliant delivery still works
    match decoder.try_decode(wire[0..2].to_vec(), &mut responder) {
        Err(Sv2CodecError::MissingBytes) => {},
        other => panic!("expected MissingBytes, got {:?}", other),
    }
    let (msg_type, decoded) = decoder
        .try_decode(wire[2..].to_vec(), &mut responder)
        .expect("decodes");
    assert_eq!(msg_type, 0x20);
    assert_eq!(decoded, payload);
}

#[test]
fn fragmented_stream_of_two_frames_decodes_identically() {
    let (mut initiator, mut responder) = handshake();
    let encoder = Sv2Encoder::new();
    let p1 = vec![0xaa; 40];
    let p2 = vec![0xbb; 7];
    let mut stream = encoder.encode(1, &p1, &mut initiator).expect("encodes");
    stream.extend(encoder.encode(2, &p2, &mut initiator).expect("encodes"));

    // deliver the single concatenated stream in exactly the chunk sizes
    // the decoder requests; both messages come back intact and in order
    let mut decoder = Sv2Decoder::new();
    let mut pos = 0usize;
    let mut out = Vec::new();
    while pos < stream.len() {
        let need = decoder.buffer_size().unwrap() as usize;
        let chunk = stream[pos..pos + need].to_vec();
        pos += need;
        match decoder.try_decode(chunk, &mut responder) {
            Ok(m) => out.push(m),
            Err(Sv2CodecError::MissingBytes) => {},
            other => panic!("unexpected outcome {:?}", other),
        }
    }
    assert_eq!(out.len(), 2);
    assert_eq!(out[0], (1, p1));
    assert_eq!(out[1], (2, p2));
}

#[test]
fn oversized_payload_cannot_be_framed() {
    let (mut initiator, _r) = handshake();
    let encoder = Sv2Encoder::new();
    let too_big = vec![0u8; 65514];
    assert!(matches!(
        encoder.encode(0, &too_big, &mut initiator),
        Err(Sv2CodecError::FailedToConvertMessageToFrame)
    ));
}

#[test]
fn handshake_steps_reject_wrong_sizes_and_roles() {
    let (pk, sk) = authority_keypair();
    let mut initiator = Sv2CodecState::new_initiator(pk.clone()).expect("initiator");
    let mut responder = Sv2CodecState::new_responder(pk.clone(), sk, 3600).expect("responder");
    assert!(matches!(
        responder.step_0(),
        Err(Sv2CodecError::FailedHandshakeStep0)
    ));
    assert!(matches!(
        responder.step_1(vec![0u8; 10]),
        Err(Sv2CodecError::BadInitiatorFrame)
    ));
    assert!(matches!(
        initiator.step_2(vec![0u8; 10]),
        Err(Sv2CodecError::BadResponderFrame)
    ));
    assert!(matches!(
        initiator.step_1(vec![0u8; 64]),
        Err(Sv2CodecError::FailedHandshakeStep1)
    ));
    assert!(!initiator.handshake_complete().unwrap());
    assert!(matches!(
        Sv2CodecState::new_initiator(vec![0u8; 5]),
        Err(Sv2CodecError::BadKey)
    ));
}

#[test]
fn forged_handshake_reply_is_rejected() {
    let (pk, sk) = authority_keypair();
    let mut initiator = Sv2CodecState::new_initiator(pk.clone()).expect("initiator");
    let mut responder = Sv2CodecState::new_responder(pk, sk, 3600).expect("responder");
    let step0 = initiator.step_0().expect("step 0");
    let mut step1 = responder.step_1(step0).expect("step 1");
    // flip one bit of the encrypted certificate: authentication must fail
    let last = step1.len() - 1;
    step1[last] ^= 1;
    assert!(matches!(
        initiator.step_2(step1),
        Err(Sv2CodecError::FailedHandshakeStep2)
    ));
    assert!(!initiator.handshake_complete().unwrap());
}

#[test]
fn invalid_authority_keys_are_rejected() {
    // 32 zero bytes are not a valid x-only public key
    assert!(matches!(
        Sv2CodecState::new_initiator(vec![0u8; 32]),
        Err(Sv2CodecError::FailedToCreateInitiator)
    ));
    // a public key that does not match the private key is refused
    let (pk, _sk) = authority_keypair();
    let other_sk = bitcoin::secp256k1::SecretKey::from_slice(&[9u8; 32])
        .expect("valid scalar")
        .secret_bytes()
        .to_vec();
    assert!(matches!(
        Sv2CodecState::new_responder(pk, other_sk, 3600),
        Err(Sv2CodecError::FailedToCreateResponder)
    ));
}
