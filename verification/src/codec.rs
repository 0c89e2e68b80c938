//! Frame encoding and resumable frame decoding over the encrypted
//! transport.
//!
//! A plaintext frame is a six-byte header — extension type, message type,
//! and a three-byte payload length — followed by the payload. On the wire
//! a frame travels encrypted as one ciphertext behind a two-byte length
//! prefix. The decoder holds a single resumable read size: first the
//! length prefix, then exactly the announced ciphertext; the caller must
//! always supply exactly the requested amount.

use vstd::prelude::*;

verus! {

use crate::codec_state::{CodecPhase, Sv2CodecError, Sv2CodecState, AEAD_MAC_SIZE};

/// The longest frame payload one encrypted wire chunk can carry: the
/// two-byte ciphertext length bounds the ciphertext, which holds the
/// six-byte header, the payload, and the authentication tag.
pub const MAX_FRAME_PAYLOAD: usize = 65513;

/// Byte length of a plaintext frame header.
pub const FRAME_HEADER_SIZE: usize = 6;

/// The two little-endian bytes of a 16-bit value.
pub open spec fn u16_le(v: u16) -> Seq<u8> {
    seq![(v % 256) as u8, ((v / 256) % 256) as u8]
}

/// The three little-endian bytes of a value below 2^24.
pub open spec fn u24_le(n: nat) -> Seq<u8> {
    seq![(n % 256) as u8, ((n / 256) % 256) as u8, ((n / 0x10000) % 256) as u8]
}

/// The plaintext frame carrying one message: a zero extension type, the
/// message type, the payload length, and the payload.
pub open spec fn frame_bytes(msg_type: u8, payload: Seq<u8>) -> Seq<u8> {
    seq![0u8, 0u8, msg_type] + u24_le(payload.len()) + payload
}

/// What a plaintext frame parses to: its message type and payload, when
/// the header is well formed and the announced length matches.
pub open spec fn parse_frame(b: Seq<u8>) -> Option<(u8, Seq<u8>)> {
    if b.len() >= FRAME_HEADER_SIZE && b[0] == 0 && b[1] == 0 && b[3] + 256 * (b[4] as int)
        + 0x10000 * (b[5] as int) == b.len() - FRAME_HEADER_SIZE {
        Some((b[2], b.subrange(FRAME_HEADER_SIZE as int, b.len() as int)))
    } else {
        None
    }
}

/// Parsing inverts framing: every frame built from a payload that fits
/// parses back to exactly its message type and payload. This is the
/// semantic contract at the frame boundary.
pub proof fn lemma_frame_round_trip(msg_type: u8, payload: Seq<u8>)
    requires
        payload.len() <= 0xFFFFFF,
    ensures
        parse_frame(frame_bytes(msg_type, payload)) == Some((msg_type, payload)),
{
    let b = frame_bytes(msg_type, payload);
    let n = payload.len() as int;
    assert(b.len() == 6 + payload.len());
    assert(b[0] == 0 && b[1] == 0 && b[2] == msg_type);
    assert(b[3] == (n % 256) as u8);
    assert(b[4] == ((n / 256) % 256) as u8);
    assert(b[5] == ((n / 0x10000) % 256) as u8);
    assert(n % 256 + 256 * ((n / 256) % 256) + 0x10000 * ((n / 0x10000) % 256) == n) by {
        vstd::arithmetic::div_mod::lemma_fundamental_div_mod(n, 256);
        vstd::arithmetic::div_mod::lemma_fundamental_div_mod(n / 256, 256);
        assert(n / 256 / 256 == n / 0x10000) by {
            vstd::arithmetic::div_mod::lemma_div_denominator(n, 256, 256);
        }
        assert(n / 0x10000 < 256);
        assert((n / 0x10000) % 256 == n / 0x10000) by {
            vstd::arithmetic::div_mod::lemma_small_mod((n / 0x10000) as nat, 256);
        }
        assert(n / 256 == (n / 256) % 256 + 256 * (n / 0x10000));
        assert(n == n % 256 + 256 * ((n / 256) % 256 + 256 * (n / 0x10000)));
        assert(256 * ((n / 256) % 256 + 256 * (n / 0x10000)) == 256 * ((n / 256) % 256) + 0x10000
            * (n / 0x10000)) by (nonlinear_arith);
    }
    assert(b.subrange(6, b.len() as int) =~= payload);
}


/// The two-byte length prefix reads back as the value it was written
/// from. With `encode`'s and `try_decode`'s contracts this pins the
/// decoder's announced body size to exactly the encoder's ciphertext
/// length, so the requested read sizes of a compliant caller are fully
/// determined by the wire bytes.
pub proof fn lemma_u16_le_round_trip(v: u16)
    ensures
        u16_le(v)[0] + 256 * (u16_le(v)[1] as int) == v,
{
    vstd::arithmetic::div_mod::lemma_fundamental_div_mod(v as int, 256);
    assert(v / 256 < 256);
    assert((v as int / 256) % 256 == v as int / 256) by {
        vstd::arithmetic::div_mod::lemma_small_mod((v as int / 256) as nat, 256);
    }
}

/// Parses a plaintext frame into its message type and payload.
///
/// This is the step after decryption: the decoder hands it whatever the
/// transport produced, and its result is exact for every input.
pub fn parse_frame_bytes(frame: &Vec<u8>) -> (r: Option<(u8, Vec<u8>)>)
    ensures
        r is Some <==> parse_frame(frame@) is Some,
        r matches Some(p) ==> parse_frame(frame@) matches Some(q) && p.0 == q.0 && p.1@ == q.1,
{
    if frame.len() < FRAME_HEADER_SIZE {
        return None;
    }
    if frame[0] != 0 || frame[1] != 0 {
        return None;
    }
    let announced: usize = frame[3] as usize + 256 * frame[4] as usize + 0x10000 * frame[5]
        as usize;
    if announced != frame.len() - FRAME_HEADER_SIZE {
        return None;
    }
    let msg_type = frame[2];
    let mut payload: Vec<u8> = Vec::new();
    let mut i: usize = FRAME_HEADER_SIZE;
    proof {
        assert(frame@.subrange(6, 6) =~= Seq::<u8>::empty());
    }
    while i < frame.len()
        invariant
            FRAME_HEADER_SIZE <= i <= frame@.len(),
            frame@.len() >= FRAME_HEADER_SIZE,
            payload@ == frame@.subrange(FRAME_HEADER_SIZE as int, i as int),
        decreases frame@.len() - i,
    {
        let b = frame[i];
        payload.push(b);
        i = i + 1;
        proof {
            assert(payload@ =~= frame@.subrange(FRAME_HEADER_SIZE as int, i as int));
        }
    }
    Some((msg_type, payload))
}

/// Builds the plaintext frame for a message type and payload.
pub fn build_frame(msg_type: u8, payload: &Vec<u8>) -> (r: Vec<u8>)
    requires
        payload@.len() <= 0xFFFFFF,
    ensures
        r@ == frame_bytes(msg_type, payload@),
{
    let mut out: Vec<u8> = Vec::new();
    out.push(0);
    out.push(0);
    out.push(msg_type);
    let n = payload.len();
    out.push((n % 256) as u8);
    out.push(((n / 256) % 256) as u8);
    out.push(((n / 0x10000) % 256) as u8);
    let ghost s0 = out@;
    let mut i: usize = 0;
    while i < payload.len()
        invariant
            i <= payload@.len(),
            out@ == s0 + payload@.subrange(0, i as int),
        decreases payload@.len() - i,
    {
        let b = payload[i];
        out.push(b);
        i = i + 1;
        proof {
            assert(out@ =~= s0 + payload@.subrange(0, i as int));
        }
    }
    proof {
        assert(payload@.subrange(0, payload@.len() as int) =~= payload@);
        assert(out@ =~= frame_bytes(msg_type, payload@));
    }
    out
}

/// Encodes messages into encrypted wire frames.
pub struct Sv2Encoder {
}

impl Sv2Encoder {
    /// A fresh encoder.
    pub fn new() -> (r: Sv2Encoder) {
        Sv2Encoder {  }
    }

    /// Frames a message payload with its type and length, encrypts the
    /// frame under the established transport keys, and returns the wire
    /// bytes: a two-byte ciphertext length, then the ciphertext.
    ///
    /// Fails when the payload exceeds what one wire chunk can carry, when
    /// the codec state is not in transport, or when the cipher fails.
    pub fn encode(&self, msg_type: u8, payload: &Vec<u8>, codec_state: &mut Sv2CodecState) -> (r:
        Result<Vec<u8>, Sv2CodecError>)
        ensures
            payload@.len() > MAX_FRAME_PAYLOAD ==> r == Result::<Vec<u8>, Sv2CodecError>::Err(
                Sv2CodecError::FailedToConvertMessageToFrame,
            ) && *final(codec_state) == *old(codec_state),
            old(codec_state).phase() != CodecPhase::Transport ==> r is Err && *final(codec_state)
                == *old(codec_state),
            r is Err ==> r->Err_0 == Sv2CodecError::FailedToConvertMessageToFrame,
            r is Ok ==> {
                let ct_len = payload@.len() + FRAME_HEADER_SIZE + AEAD_MAC_SIZE;
                &&& old(codec_state).phase() == CodecPhase::Transport
                &&& final(codec_state).phase() == CodecPhase::Transport
                &&& r->Ok_0@.len() == 2 + ct_len
                &&& r->Ok_0@.subrange(0, 2) == u16_le(ct_len as u16)
            },
    {
        if payload.len() > MAX_FRAME_PAYLOAD {
            return Err(Sv2CodecError::FailedToConvertMessageToFrame);
        }
        let frame = build_frame(msg_type, payload);
        let ct = match codec_state.transport_encrypt(frame) {
            Ok(ct) => ct,
            Err(_) => {
                return Err(Sv2CodecError::FailedToConvertMessageToFrame);
            },
        };
        let ct_len = ct.len();
        let mut out: Vec<u8> = Vec::new();
        out.push((ct_len % 256) as u8);
        out.push(((ct_len / 256) % 256) as u8);
        let ghost s0 = out@;
        let mut i: usize = 0;
        while i < ct.len()
            invariant
                i <= ct@.len(),
                out@ == s0 + ct@.subrange(0, i as int),
            decreases ct@.len() - i,
        {
            let b = ct[i];
            out.push(b);
            i = i + 1;
            proof {
                assert(out@ =~= s0 + ct@.subrange(0, i as int));
            }
        }
        proof {
            assert(ct@.subrange(0, ct@.len() as int) =~= ct@);
            assert(out@.subrange(0, 2) =~= u16_le((payload@.len() + FRAME_HEADER_SIZE
                + AEAD_MAC_SIZE) as u16));
        }
        Ok(out)
    }
}

/// How many bytes the decoder asks for next.
enum DecoderNeed {
    /// The two-byte ciphertext length prefix.
    Length,
    /// Exactly this many ciphertext bytes.
    Body(u16),
}

/// Decodes encrypted wire frames, resuming across reads.
///
/// The decoder requests exact read sizes: first the two-byte length
/// prefix, answered with the needed ciphertext size and `MissingBytes`,
/// then the ciphertext itself, answered with the decoded frame. Supplying
/// any other amount is an error that consumes nothing, so a caller that
/// follows the requested sizes never loses buffered bytes.
pub struct Sv2Decoder {
    need: DecoderNeed,
}

impl Sv2Decoder {
    /// How many bytes the decoder expects next.
    pub closed spec fn needed(&self) -> nat {
        match self.need {
            DecoderNeed::Length => 2,
            DecoderNeed::Body(n) => n as nat,
        }
    }

    /// True iff the decoder waits for the length prefix of the next frame.
    pub closed spec fn at_frame_start(&self) -> bool {
        self.need is Length
    }

    /// A fresh decoder, waiting for the first frame's length prefix.
    pub fn new() -> (r: Sv2Decoder)
        ensures
            r.needed() == 2,
            r.at_frame_start(),
    {
        Sv2Decoder { need: DecoderNeed::Length }
    }

    /// The exact number of bytes to read and pass to `try_decode` next.
    pub fn buffer_size(&self) -> (r: Result<u32, Sv2CodecError>)
        ensures
            r is Ok,
            r->Ok_0 == self.needed(),
    {
        match &self.need {
            DecoderNeed::Length => Ok(2),
            DecoderNeed::Body(n) => Ok(*n as u32),
        }
    }

    /// Consumes exactly the requested bytes and advances the decode.
    ///
    /// With the length prefix supplied, announces the ciphertext size via
    /// `MissingBytes`. With the ciphertext supplied, decrypts it under the
    /// transport keys, parses the frame, resets for the next frame, and
    /// returns the message type and payload. Any other byte count is
    /// rejected with `InvalidDataSize` and consumes nothing.
    pub fn try_decode(&mut self, data: Vec<u8>, codec_state: &mut Sv2CodecState) -> (r: Result<
        (u8, Vec<u8>),
        Sv2CodecError,
    >)
        ensures
            data@.len() != old(self).needed() ==> {
                &&& r == Result::<(u8, Vec<u8>), Sv2CodecError>::Err(
                    Sv2CodecError::InvalidDataSize {
                        expected: old(self).needed() as u32,
                        actual: data@.len() as u32,
                    },
                )
                &&& *final(self) == *old(self)
                &&& *final(codec_state) == *old(codec_state)
            },
            data@.len() == old(self).needed() && old(self).at_frame_start() ==> {
                &&& *final(codec_state) == *old(codec_state)
                &&& final(self).at_frame_start() <==> data@[0] + 256 * (data@[1] as int)
                    < FRAME_HEADER_SIZE + AEAD_MAC_SIZE
                &&& final(self).at_frame_start() ==> r == Result::<
                    (u8, Vec<u8>),
                    Sv2CodecError,
                >::Err(Sv2CodecError::FailedToDecodeFrame) && *final(self) == *old(self)
                &&& !final(self).at_frame_start() ==> {
                    &&& r == Result::<(u8, Vec<u8>), Sv2CodecError>::Err(
                        Sv2CodecError::MissingBytes,
                    )
                    &&& final(self).needed() == data@[0] + 256 * data@[1]
                }
            },
            data@.len() == old(self).needed() && !old(self).at_frame_start() ==> {
                &&& final(self).at_frame_start()
                &&& final(self).needed() == 2
                &&& r is Ok ==> old(codec_state).phase() == CodecPhase::Transport
                    && final(codec_state).phase() == CodecPhase::Transport
                &&& r is Err ==> r->Err_0 == Sv2CodecError::FailedToDecodeFrame
            },
    {
        let expected: usize = match &self.need {
            DecoderNeed::Length => 2,
            DecoderNeed::Body(n) => *n as usize,
        };
        if data.len() != expected {
            return Err(
                Sv2CodecError::InvalidDataSize { expected: expected as u32, actual: data.len() as u32 },
            );
        }
        match &self.need {
            DecoderNeed::Length => {
                let ct_len: usize = data[0] as usize + 256 * data[1] as usize;
                // a well-formed ciphertext holds at least a header and a tag
                if ct_len < FRAME_HEADER_SIZE + AEAD_MAC_SIZE {
                    return Err(Sv2CodecError::FailedToDecodeFrame);
                }
                self.need = DecoderNeed::Body(ct_len as u16);
                Err(Sv2CodecError::MissingBytes)
            },
            DecoderNeed::Body(n) => {
                let n = *n;
                self.need = DecoderNeed::Length;
                if (n as usize) < AEAD_MAC_SIZE {
                    return Err(Sv2CodecError::FailedToDecodeFrame);
                }
                let frame = match codec_state.transport_decrypt(data) {
                    Ok(f) => f,
                    Err(_) => {
                        return Err(Sv2CodecError::FailedToDecodeFrame);
                    },
                };
                match parse_frame_bytes(&frame) {
                    Some(p) => Ok(p),
                    None => Err(Sv2CodecError::FailedToDecodeFrame),
                }
            },
        }
    }
}

} // verus!
