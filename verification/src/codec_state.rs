//! The encrypted transport's handshake state machine.
//!
//! A connection's codec state starts in a handshake phase fixed by its
//! role, walks the three handshake steps, and ends in the transport phase,
//! never returning. The cryptographic steps themselves come from the
//! noise_sv2 crate through trusted items; the phase transitions around
//! them are verified.

use vstd::prelude::*;

verus! {

use crate::messages::Sv2MessageError;

/// Byte length of the initiator's first handshake payload: an
/// ElligatorSwift-encoded ephemeral public key.
pub const HANDSHAKE_STEP0_SIZE: usize = 64;

/// Byte length of the responder's reply: its encoded ephemeral key, its
/// encrypted static key, and the encrypted certificate.
pub const HANDSHAKE_STEP1_SIZE: usize = 234;

/// Bytes an authenticated encryption adds to a plaintext.
pub const AEAD_MAC_SIZE: usize = 16;

/// Failures of the encrypted transport codec.
#[derive(Clone, Copy, PartialEq, Eq, Structural, Debug)]
pub enum Sv2CodecError {
    /// The state guarding a codec was unusable.
    LockError,
    /// An authority key had the wrong length or shape.
    BadKey,
    /// The initiator's handshake state could not be created.
    FailedToCreateInitiator,
    /// The responder's handshake state could not be created.
    FailedToCreateResponder,
    /// The first handshake step failed or was taken in the wrong phase.
    FailedHandshakeStep0,
    /// The second handshake step failed or was taken in the wrong phase.
    FailedHandshakeStep1,
    /// The third handshake step failed or was taken in the wrong phase.
    FailedHandshakeStep2,
    /// The initiator's payload had the wrong length.
    BadInitiatorFrame,
    /// The responder's payload had the wrong length.
    BadResponderFrame,
    /// The message could not be framed or encrypted.
    FailedToConvertMessageToFrame,
    /// The frame could not be decrypted or parsed.
    FailedToDecodeFrame,
    /// A decoded frame carried no header.
    FailedToGetFrameHeader,
    /// The message could not be translated; the reason is inside.
    Sv2MessagesError(Sv2MessageError),
    /// More bytes are needed; ask the decoder how many and retry.
    MissingBytes,
    /// The supplied bytes did not match the requested read size.
    InvalidDataSize { expected: u32, actual: u32 },
}

#[verifier::external_type_specification]
#[verifier::external_body]
pub struct ExInitiator(noise_sv2::Initiator);

#[verifier::external_type_specification]
#[verifier::external_body]
pub struct ExResponder(noise_sv2::Responder);

#[verifier::external_type_specification]
#[verifier::external_body]
pub struct ExNoiseEngine(noise_sv2::NoiseEngine);

/// Whether these 32 bytes parse as a valid x-only public key: a function
/// of the bytes alone, decided by secp256k1's key parser.
pub uninterp spec fn x_only_key_ok(key: Seq<u8>) -> bool;

/// Whether this 32-byte pair is a well-formed authority key pair: the
/// private key is a valid scalar and the public key is its x-only public
/// key. A function of the two byte strings alone.
pub uninterp spec fn authority_keypair_ok(public: Seq<u8>, private: Seq<u8>) -> bool;

/// Relies on noise_sv2's Initiator::from_raw_k: builds a handshake
/// initiator from the responder authority's 32-byte public key; fails
/// exactly when the key is not a valid x-only public key, a test
/// deterministic in the key bytes.
#[verifier::external_body]
fn initiator_new(authority_pub_key: &Vec<u8>) -> (r: Option<Box<noise_sv2::Initiator>>)
    requires
        authority_pub_key@.len() == 32,
    ensures
        r is Some <==> x_only_key_ok(authority_pub_key@),
{
    let mut key = [0u8; 32];
    key.copy_from_slice(authority_pub_key.as_slice());
    noise_sv2::Initiator::from_raw_k(key).ok()
}

/// Relies on noise_sv2's Responder::from_authority_kp: builds a handshake
/// responder from the 32-byte authority key pair and a certificate
/// validity in seconds; fails exactly when the private key is invalid or
/// the public key is not derived from it, a test deterministic in the key
/// bytes.
#[verifier::external_body]
fn responder_new(
    authority_pub_key: &Vec<u8>,
    authority_priv_key: &Vec<u8>,
    cert_validity_secs: u64,
) -> (r: Option<Box<noise_sv2::Responder>>)
    requires
        authority_pub_key@.len() == 32,
        authority_priv_key@.len() == 32,
    ensures
        r is Some <==> authority_keypair_ok(authority_pub_key@, authority_priv_key@),
{
    let mut pk = [0u8; 32];
    pk.copy_from_slice(authority_pub_key.as_slice());
    let mut sk = [0u8; 32];
    sk.copy_from_slice(authority_priv_key.as_slice());
    let validity = std::time::Duration::from_secs(cert_validity_secs);
    noise_sv2::Responder::from_authority_kp(&pk, &sk, validity).ok()
}

/// Relies on noise_sv2's Initiator::step_0: produces the 64-byte encoded
/// ephemeral public key.
#[verifier::external_body]
fn initiator_step0(i: &mut Box<noise_sv2::Initiator>) -> (r: Option<Vec<u8>>)
    ensures
        r is Some ==> r->0@.len() == HANDSHAKE_STEP0_SIZE,
{
    match i.step_0() {
        Ok(payload) => Some(payload.to_vec()),
        Err(_) => None,
    }
}

/// Relies on noise_sv2's Responder::step_1: consumes the initiator's
/// 64-byte payload and produces the 234-byte reply and the session engine.
#[verifier::external_body]
fn responder_step1(r: &mut Box<noise_sv2::Responder>, initiator_frame: &Vec<u8>) -> (res: Option<
    (Vec<u8>, noise_sv2::NoiseEngine),
>)
    requires
        initiator_frame@.len() == HANDSHAKE_STEP0_SIZE,
    ensures
        res matches Some(p) ==> p.0@.len() == HANDSHAKE_STEP1_SIZE,
{
    let mut frame = [0u8; 64];
    frame.copy_from_slice(initiator_frame.as_slice());
    match r.step_1(frame) {
        Ok((reply, engine)) => Some((reply.to_vec(), engine)),
        Err(_) => None,
    }
}

/// Relies on noise_sv2's Initiator::step_2: consumes the responder's
/// 234-byte reply, authenticates it, and produces the session engine.
#[verifier::external_body]
fn initiator_step2(i: &mut Box<noise_sv2::Initiator>, responder_frame: &Vec<u8>) -> (r: Option<
    noise_sv2::NoiseEngine,
>)
    requires
        responder_frame@.len() == HANDSHAKE_STEP1_SIZE,
{
    let mut frame = [0u8; 234];
    frame.copy_from_slice(responder_frame.as_slice());
    i.step_2(frame).ok()
}

/// Relies on noise_sv2's NoiseEngine::encrypt: encrypts in place under the
/// session's outgoing cipher, appending the 16-byte authentication tag.
#[verifier::external_body]
fn engine_encrypt(e: &mut noise_sv2::NoiseEngine, data: Vec<u8>) -> (r: Option<Vec<u8>>)
    ensures
        r is Some ==> r->0@.len() == data@.len() + AEAD_MAC_SIZE,
{
    let mut buf = data;
    match e.encrypt(&mut buf) {
        Ok(()) => Some(buf),
        Err(_) => None,
    }
}

/// Relies on noise_sv2's NoiseEngine::decrypt: decrypts in place under the
/// session's incoming cipher, verifying and stripping the 16-byte tag;
/// fails on a forged or reordered ciphertext.
#[verifier::external_body]
fn engine_decrypt(e: &mut noise_sv2::NoiseEngine, data: Vec<u8>) -> (r: Option<Vec<u8>>)
    requires
        data@.len() >= AEAD_MAC_SIZE,
    ensures
        r is Some ==> r->0@.len() + AEAD_MAC_SIZE == data@.len(),
{
    let mut buf = data;
    match e.decrypt(&mut buf) {
        Ok(()) => Some(buf),
        Err(_) => None,
    }
}

/// The phase a codec state is in, as specifications see it.
#[derive(Clone, Copy, PartialEq, Eq, Structural, Debug)]
pub enum CodecPhase {
    /// An initiator that has not completed its handshake.
    InitiatorHandshake,
    /// A responder that has not completed its handshake.
    ResponderHandshake,
    /// The handshake completed; application frames may flow.
    Transport,
    /// A handshake step failed; the connection is dead.
    Failed,
}

enum CodecInner {
    InitiatorHandshake(Box<noise_sv2::Initiator>),
    ResponderHandshake(Box<noise_sv2::Responder>),
    Transport(noise_sv2::NoiseEngine),
    Failed,
}

/// One connection's codec state: the handshake role and progress, and the
/// session keys once established. Transitions are one-directional.
pub struct Sv2CodecState {
    inner: CodecInner,
}

impl Sv2CodecState {
    /// The phase this state is in.
    pub closed spec fn phase(&self) -> CodecPhase {
        match self.inner {
            CodecInner::InitiatorHandshake(_) => CodecPhase::InitiatorHandshake,
            CodecInner::ResponderHandshake(_) => CodecPhase::ResponderHandshake,
            CodecInner::Transport(_) => CodecPhase::Transport,
            CodecInner::Failed => CodecPhase::Failed,
        }
    }

    /// Creates an initiator-side codec state from the responder authority's
    /// 32-byte public key.
    pub fn new_initiator(authority_pub_key: Vec<u8>) -> (r: Result<Self, Sv2CodecError>)
        ensures
            r is Ok <==> authority_pub_key@.len() == 32 && x_only_key_ok(authority_pub_key@),
            r == Result::<Self, Sv2CodecError>::Err(Sv2CodecError::BadKey) <==> authority_pub_key@.len()
                != 32,
            r == Result::<Self, Sv2CodecError>::Err(Sv2CodecError::FailedToCreateInitiator)
                <==> authority_pub_key@.len() == 32 && !x_only_key_ok(authority_pub_key@),
            r is Ok ==> r->Ok_0.phase() == CodecPhase::InitiatorHandshake,
    {
        if authority_pub_key.len() != 32 {
            return Err(Sv2CodecError::BadKey);
        }
        match initiator_new(&authority_pub_key) {
            Some(i) => Ok(Sv2CodecState { inner: CodecInner::InitiatorHandshake(i) }),
            None => Err(Sv2CodecError::FailedToCreateInitiator),
        }
    }

    /// Creates a responder-side codec state from the 32-byte authority key
    /// pair and a certificate validity in seconds.
    pub fn new_responder(
        authority_pub_key: Vec<u8>,
        authority_priv_key: Vec<u8>,
        cert_validity_secs: u64,
    ) -> (r: Result<Self, Sv2CodecError>)
        ensures
            r is Ok <==> authority_pub_key@.len() == 32 && authority_priv_key@.len() == 32
                && authority_keypair_ok(authority_pub_key@, authority_priv_key@),
            r == Result::<Self, Sv2CodecError>::Err(Sv2CodecError::BadKey) <==> (authority_pub_key@.len()
                != 32 || authority_priv_key@.len() != 32),
            r == Result::<Self, Sv2CodecError>::Err(Sv2CodecError::FailedToCreateResponder)
                <==> authority_pub_key@.len() == 32 && authority_priv_key@.len() == 32
                && !authority_keypair_ok(authority_pub_key@, authority_priv_key@),
            r is Ok ==> r->Ok_0.phase() == CodecPhase::ResponderHandshake,
    {
        if authority_pub_key.len() != 32 || authority_priv_key.len() != 32 {
            return Err(Sv2CodecError::BadKey);
        }
        match responder_new(&authority_pub_key, &authority_priv_key, cert_validity_secs) {
            Some(resp) => Ok(Sv2CodecState { inner: CodecInner::ResponderHandshake(resp) }),
            None => Err(Sv2CodecError::FailedToCreateResponder),
        }
    }

    /// Produces the initiator's first handshake payload, 64 bytes.
    ///
    /// Only an initiator still handshaking may take this step; the phase
    /// does not change, since the initiator must still consume the reply.
    pub fn step_0(&mut self) -> (r: Result<Vec<u8>, Sv2CodecError>)
        ensures
            old(self).phase() != CodecPhase::InitiatorHandshake ==> r == Result::<
                Vec<u8>,
                Sv2CodecError,
            >::Err(Sv2CodecError::FailedHandshakeStep0) && *final(self) == *old(self),
            r is Err ==> r->Err_0 == Sv2CodecError::FailedHandshakeStep0,
            r is Ok ==> old(self).phase() == CodecPhase::InitiatorHandshake && final(self).phase()
                == CodecPhase::InitiatorHandshake && r->Ok_0@.len() == HANDSHAKE_STEP0_SIZE,
            final(self).phase() == old(self).phase(),
    {
        match &mut self.inner {
            CodecInner::InitiatorHandshake(i) => match initiator_step0(i) {
                Some(payload) => Ok(payload),
                None => Err(Sv2CodecError::FailedHandshakeStep0),
            },
            _ => Err(Sv2CodecError::FailedHandshakeStep0),
        }
    }

    /// Consumes the initiator's 64-byte payload and produces the
    /// responder's 234-byte reply; on success this side enters transport.
    ///
    /// This is the authentication checkpoint: a cryptographic failure is
    /// fatal to the connection and leaves the state failed.
    pub fn step_1(&mut self, initiator_frame: Vec<u8>) -> (r: Result<Vec<u8>, Sv2CodecError>)
        ensures
            r == Result::<Vec<u8>, Sv2CodecError>::Err(Sv2CodecError::BadInitiatorFrame)
                <==> initiator_frame@.len() != HANDSHAKE_STEP0_SIZE,
            initiator_frame@.len() != HANDSHAKE_STEP0_SIZE ==> *final(self) == *old(self),
            initiator_frame@.len() == HANDSHAKE_STEP0_SIZE && old(self).phase()
                != CodecPhase::ResponderHandshake ==> r == Result::<Vec<u8>, Sv2CodecError>::Err(
                Sv2CodecError::FailedHandshakeStep1,
            ) && *final(self) == *old(self),
            r is Ok ==> old(self).phase() == CodecPhase::ResponderHandshake && final(self).phase()
                == CodecPhase::Transport && r->Ok_0@.len() == HANDSHAKE_STEP1_SIZE,
            r is Err && initiator_frame@.len() == HANDSHAKE_STEP0_SIZE && old(self).phase()
                == CodecPhase::ResponderHandshake ==> r->Err_0 == Sv2CodecError::FailedHandshakeStep1
                && final(self).phase() == CodecPhase::Failed,
    {
        if initiator_frame.len() != HANDSHAKE_STEP0_SIZE {
            return Err(Sv2CodecError::BadInitiatorFrame);
        }
        let mut inner = CodecInner::Failed;
        core::mem::swap(&mut self.inner, &mut inner);
        match inner {
            CodecInner::ResponderHandshake(mut resp) => {
                match responder_step1(&mut resp, &initiator_frame) {
                    Some((reply, engine)) => {
                        self.inner = CodecInner::Transport(engine);
                        Ok(reply)
                    },
                    None => Err(Sv2CodecError::FailedHandshakeStep1),
                }
            },
            other => {
                self.inner = other;
                Err(Sv2CodecError::FailedHandshakeStep1)
            },
        }
    }

    /// Consumes the responder's 234-byte reply, authenticating it; on
    /// success this side enters transport.
    ///
    /// A cryptographic failure is fatal to the connection and leaves the
    /// state failed.
    pub fn step_2(&mut self, responder_frame: Vec<u8>) -> (r: Result<(), Sv2CodecError>)
        ensures
            r == Result::<(), Sv2CodecError>::Err(Sv2CodecError::BadResponderFrame)
                <==> responder_frame@.len() != HANDSHAKE_STEP1_SIZE,
            responder_frame@.len() != HANDSHAKE_STEP1_SIZE ==> *final(self) == *old(self),
            responder_frame@.len() == HANDSHAKE_STEP1_SIZE && old(self).phase()
                != CodecPhase::InitiatorHandshake ==> r == Result::<(), Sv2CodecError>::Err(
                Sv2CodecError::FailedHandshakeStep2,
            ) && *final(self) == *old(self),
            r is Ok ==> old(self).phase() == CodecPhase::InitiatorHandshake && final(self).phase()
                == CodecPhase::Transport,
            r is Err && responder_frame@.len() == HANDSHAKE_STEP1_SIZE && old(self).phase()
                == CodecPhase::InitiatorHandshake ==> r->Err_0
                == Sv2CodecError::FailedHandshakeStep2 && final(self).phase()
                == CodecPhase::Failed,
    {
        if responder_frame.len() != HANDSHAKE_STEP1_SIZE {
            return Err(Sv2CodecError::BadResponderFrame);
        }
        let mut inner = CodecInner::Failed;
        core::mem::swap(&mut self.inner, &mut inner);
        match inner {
            CodecInner::InitiatorHandshake(mut i) => {
                match initiator_step2(&mut i, &responder_frame) {
                    Some(engine) => {
                        self.inner = CodecInner::Transport(engine);
                        Ok(())
                    },
                    None => Err(Sv2CodecError::FailedHandshakeStep2),
                }
            },
            other => {
                self.inner = other;
                Err(Sv2CodecError::FailedHandshakeStep2)
            },
        }
    }

    /// True iff the handshake completed and frames may flow.
    pub fn handshake_complete(&self) -> (r: Result<bool, Sv2CodecError>)
        ensures
            r is Ok,
            r->Ok_0 == (self.phase() == CodecPhase::Transport),
    {
        match &self.inner {
            CodecInner::Transport(_) => Ok(true),
            _ => Ok(false),
        }
    }

    /// Encrypts one plaintext under the established session keys,
    /// appending the 16-byte authentication tag.
    ///
    /// Only a state in transport can encrypt; the phase never changes
    /// here, so on a cipher failure (an exhausted nonce) the state stays
    /// in transport and the caller decides whether to drop the connection.
    pub fn transport_encrypt(&mut self, data: Vec<u8>) -> (r: Result<Vec<u8>, Sv2CodecError>)
        ensures
            old(self).phase() != CodecPhase::Transport ==> r == Result::<
                Vec<u8>,
                Sv2CodecError,
            >::Err(Sv2CodecError::FailedToConvertMessageToFrame) && *final(self) == *old(self),
            r is Ok ==> old(self).phase() == CodecPhase::Transport && final(self).phase()
                == CodecPhase::Transport && r->Ok_0@.len() == data@.len() + AEAD_MAC_SIZE,
            r is Err ==> r->Err_0 == Sv2CodecError::FailedToConvertMessageToFrame,
            final(self).phase() == old(self).phase(),
    {
        match &mut self.inner {
            CodecInner::Transport(e) => match engine_encrypt(e, data) {
                Some(ct) => Ok(ct),
                None => Err(Sv2CodecError::FailedToConvertMessageToFrame),
            },
            _ => Err(Sv2CodecError::FailedToConvertMessageToFrame),
        }
    }

    /// Decrypts one ciphertext under the established session keys,
    /// verifying and stripping the 16-byte tag.
    ///
    /// Only a state in transport can decrypt; a forged or reordered
    /// ciphertext fails.
    pub fn transport_decrypt(&mut self, data: Vec<u8>) -> (r: Result<Vec<u8>, Sv2CodecError>)
        requires
            data@.len() >= AEAD_MAC_SIZE,
        ensures
            old(self).phase() != CodecPhase::Transport ==> r == Result::<
                Vec<u8>,
                Sv2CodecError,
            >::Err(Sv2CodecError::FailedToDecodeFrame) && *final(self) == *old(self),
            r is Ok ==> old(self).phase() == CodecPhase::Transport && final(self).phase()
                == CodecPhase::Transport && r->Ok_0@.len() + AEAD_MAC_SIZE == data@.len(),
            r is Err ==> r->Err_0 == Sv2CodecError::FailedToDecodeFrame,
            final(self).phase() == old(self).phase(),
    {
        match &mut self.inner {
            CodecInner::Transport(e) => match engine_decrypt(e, data) {
                Some(pt) => Ok(pt),
                None => Err(Sv2CodecError::FailedToDecodeFrame),
            },
            _ => Err(Sv2CodecError::FailedToDecodeFrame),
        }
    }
}

} // verus!
