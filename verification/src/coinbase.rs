//! Coinbase assembly, proof-of-work hashing and merkle folding.
//!
//! The coinbase transaction of a job is assembled byte for byte from the
//! template's fields, the channel's extranonce and the pool's reward
//! outputs. The double-SHA256 digest and the consensus encoding of one
//! output come from the bitcoin crate through trusted items; everything
//! around them is verified against the documented byte layout.

use vstd::prelude::*;

verus! {

use crate::txout::TxOutput;

/// The four little-endian bytes of a 32-bit value.
pub open spec fn u32_le(v: u32) -> Seq<u8> {
    seq![
        (v % 256) as u8,
        ((v / 256) % 256) as u8,
        ((v / 0x10000) % 256) as u8,
        ((v / 0x1000000) % 256) as u8,
    ]
}

/// The eight little-endian bytes of a 64-bit value.
pub open spec fn u64_le(v: u64) -> Seq<u8> {
    seq![
        (v % 256) as u8,
        ((v / 256) % 256) as u8,
        ((v / 0x10000) % 256) as u8,
        ((v / 0x1000000) % 256) as u8,
        ((v / 0x100000000) % 256) as u8,
        ((v / 0x10000000000) % 256) as u8,
        ((v / 0x1000000000000) % 256) as u8,
        ((v / 0x100000000000000) % 256) as u8,
    ]
}

/// Bitcoin's CompactSize encoding of a length.
pub open spec fn compact_size(n: nat) -> Seq<u8> {
    if n < 0xfd {
        seq![n as u8]
    } else if n <= 0xffff {
        seq![0xfdu8, (n % 256) as u8, ((n / 256) % 256) as u8]
    } else if n <= 0xffffffff {
        seq![0xfeu8] + u32_le(n as u32)
    } else {
        seq![0xffu8] + u64_le(n as u64)
    }
}

/// Appends the four little-endian bytes of `v`.
pub fn push_u32_le(out: &mut Vec<u8>, v: u32)
    ensures
        final(out)@ == old(out)@ + u32_le(v),
{
    out.push((v % 256) as u8);
    out.push(((v / 256) % 256) as u8);
    out.push(((v / 0x10000) % 256) as u8);
    out.push(((v / 0x1000000) % 256) as u8);
    proof {
        assert(out@ =~= old(out)@ + u32_le(v));
    }
}

/// Appends the eight little-endian bytes of `v`.
pub fn push_u64_le(out: &mut Vec<u8>, v: u64)
    ensures
        final(out)@ == old(out)@ + u64_le(v),
{
    out.push((v % 256) as u8);
    out.push(((v / 256) % 256) as u8);
    out.push(((v / 0x10000) % 256) as u8);
    out.push(((v / 0x1000000) % 256) as u8);
    out.push(((v / 0x100000000) % 256) as u8);
    out.push(((v / 0x10000000000) % 256) as u8);
    out.push(((v / 0x1000000000000) % 256) as u8);
    out.push(((v / 0x100000000000000) % 256) as u8);
    proof {
        assert(out@ =~= old(out)@ + u64_le(v));
    }
}

/// Appends the CompactSize encoding of `n`.
pub fn push_compact_size(out: &mut Vec<u8>, n: usize)
    ensures
        final(out)@ == old(out)@ + compact_size(n as nat),
{
    if n < 0xfd {
        out.push(n as u8);
        proof {
            assert(out@ =~= old(out)@ + compact_size(n as nat));
        }
    } else if n <= 0xffff {
        out.push(0xfd);
        out.push((n % 256) as u8);
        out.push(((n / 256) % 256) as u8);
        proof {
            assert(out@ =~= old(out)@ + compact_size(n as nat));
        }
    } else if n <= 0xffffffff {
        out.push(0xfe);
        push_u32_le(out, n as u32);
        proof {
            assert(out@ =~= old(out)@ + compact_size(n as nat));
        }
    } else {
        out.push(0xff);
        push_u64_le(out, n as u64);
        proof {
            assert(out@ =~= old(out)@ + compact_size(n as nat));
        }
    }
}

/// The double-SHA256 digest of a byte string. Always 32 bytes.
pub uninterp spec fn sha256d_of(b: Seq<u8>) -> Seq<u8>;

/// Relies on the bitcoin crate's sha256d: the 32-byte double-SHA256 digest,
/// a function of the input bytes alone.
#[verifier::external_body]
pub fn sha256d(b: &Vec<u8>) -> (r: Vec<u8>)
    ensures
        r@ == sha256d_of(b@),
        r@.len() == 32,
{
    let h = <bitcoin::hashes::sha256d::Hash as bitcoin::hashes::Hash>::hash(b.as_slice());
    <bitcoin::hashes::sha256d::Hash as bitcoin::hashes::Hash>::to_byte_array(h).to_vec()
}

/// Relies on bitcoin's consensus encoding of a transaction output: the
/// 8-byte little-endian value, then the CompactSize-prefixed script bytes.
#[verifier::external_body]
pub fn encode_txout(value: u64, script: &Vec<u8>) -> (r: Vec<u8>)
    ensures
        r@ == u64_le(value) + compact_size(script@.len() as nat) + script@,
{
    let txout = bitcoin::TxOut {
        value: bitcoin::Amount::from_sat(value),
        script_pubkey: bitcoin::ScriptBuf::from_bytes(script.clone()),
    };
    bitcoin::consensus::encode::serialize(&txout)
}

/// The consensus encoding of one output.
pub open spec fn txout_enc(value: u64, script: Seq<u8>) -> Seq<u8> {
    u64_le(value) + compact_size(script.len()) + script
}

/// The consensus encoding of an output list: a CompactSize count, then each
/// output in order.
pub open spec fn txouts_enc(outs: Seq<TxOutput>) -> Seq<u8> {
    compact_size(outs.len()) + txouts_enc_items(outs)
}

/// The concatenated encodings of the outputs, without the leading count.
pub open spec fn txouts_enc_items(outs: Seq<TxOutput>) -> Seq<u8>
    decreases outs.len(),
{
    if outs.len() == 0 {
        Seq::empty()
    } else {
        txout_enc(outs[0].value, outs[0].script_pubkey@) + txouts_enc_items(outs.drop_first())
    }
}

/// Appends the encoded output list: CompactSize count, then each output.
pub fn push_txouts(out: &mut Vec<u8>, outputs: &Vec<TxOutput>)
    ensures
        final(out)@ == old(out)@ + txouts_enc(outputs@),
{
    push_compact_size(out, outputs.len());
    let ghost base = out@;
    let mut i: usize = 0;
    proof {
        assert(outputs@.subrange(0, 0) =~= Seq::<TxOutput>::empty());
    }
    while i < outputs.len()
        invariant
            i <= outputs@.len(),
            out@ == base + txouts_enc_items(outputs@.subrange(0, i as int)),
        decreases outputs@.len() - i,
    {
        let enc = encode_txout(outputs[i].value, &outputs[i].script_pubkey);
        let ghost pre = out@;
        let mut k: usize = 0;
        while k < enc.len()
            invariant
                k <= enc@.len(),
                out@ == pre + enc@.subrange(0, k as int),
            decreases enc@.len() - k,
        {
            let b = enc[k];
            out.push(b);
            k = k + 1;
            proof {
                assert(out@ =~= pre + enc@.subrange(0, k as int));
            }
        }
        i = i + 1;
        proof {
            assert(enc@.subrange(0, enc@.len() as int) =~= enc@);
            lemma_txouts_enc_items_snoc(outputs@.subrange(0, i as int));
            assert(outputs@.subrange(0, i - 1) =~= outputs@.subrange(0, i as int).drop_last());
            assert(out@ =~= base + txouts_enc_items(outputs@.subrange(0, i as int)));
        }
    }
    proof {
        assert(outputs@.subrange(0, outputs@.len() as int) =~= outputs@);
    }
}

/// Splitting the last output off the item concatenation.
proof fn lemma_txouts_enc_items_snoc(outs: Seq<TxOutput>)
    requires
        outs.len() >= 1,
    ensures
        txouts_enc_items(outs) == txouts_enc_items(outs.drop_last()) + txout_enc(
            outs.last().value,
            outs.last().script_pubkey@,
        ),
    decreases outs.len(),
{
    if outs.len() == 1 {
        assert(outs.drop_first() =~= Seq::<TxOutput>::empty());
        assert(outs.drop_last() =~= Seq::<TxOutput>::empty());
        assert(txouts_enc_items(outs.drop_last()) =~= Seq::<u8>::empty());
        assert(txouts_enc_items(outs) =~= txout_enc(outs[0].value, outs[0].script_pubkey@));
        assert(outs.last() == outs[0]);
    } else {
        lemma_txouts_enc_items_snoc(outs.drop_first());
        assert(outs.drop_first().drop_last() =~= outs.drop_last().drop_first());
        assert(outs.drop_first().last() == outs.last());
        assert(outs.drop_last()[0] == outs[0]);
        assert(txouts_enc_items(outs.drop_last()) == txout_enc(outs[0].value, outs[0].script_pubkey@)
            + txouts_enc_items(outs.drop_last().drop_first()));
        assert(txouts_enc_items(outs) =~= txout_enc(outs[0].value, outs[0].script_pubkey@)
            + txouts_enc_items(outs.drop_first()));
    }
}

/// The serialized coinbase transaction of a job.
///
/// A fixed shape: version, one input spending the null outpoint with the
/// given scriptSig and sequence, the reward outputs, and the locktime.
pub open spec fn coinbase_tx_bytes(
    tx_version: u32,
    script_sig: Seq<u8>,
    input_sequence: u32,
    outputs: Seq<TxOutput>,
    locktime: u32,
) -> Seq<u8> {
    u32_le(tx_version) + coinbase_input_head() + compact_size(script_sig.len()) + script_sig
        + u32_le(input_sequence) + txouts_enc(outputs) + u32_le(locktime)
}

/// The input count and null outpoint that open every coinbase input list:
/// a count of one, 32 zero hash bytes, and an index of `0xffffffff`.
pub open spec fn coinbase_input_head() -> Seq<u8> {
    seq![1u8] + Seq::new(32, |i: int| 0u8) + seq![0xffu8, 0xffu8, 0xffu8, 0xffu8]
}

/// Builds the serialized coinbase transaction of a job.
pub fn build_coinbase_tx(
    tx_version: u32,
    script_sig: &Vec<u8>,
    input_sequence: u32,
    outputs: &Vec<TxOutput>,
    locktime: u32,
) -> (r: Vec<u8>)
    ensures
        r@ == coinbase_tx_bytes(tx_version, script_sig@, input_sequence, outputs@, locktime),
{
    let mut out: Vec<u8> = Vec::new();
    push_u32_le(&mut out, tx_version);
    let ghost s0 = out@;
    out.push(1);
    let mut z: usize = 0;
    while z < 32
        invariant
            z <= 32,
            out@.len() == s0.len() + 1 + z,
            out@ == s0 + seq![1u8] + Seq::new(z as nat, |i: int| 0u8),
        decreases 32 - z,
    {
        out.push(0);
        z = z + 1;
        proof {
            assert(out@ =~= s0 + seq![1u8] + Seq::new(z as nat, |i: int| 0u8));
        }
    }
    out.push(0xff);
    out.push(0xff);
    out.push(0xff);
    out.push(0xff);
    proof {
        assert(out@ =~= u32_le(tx_version) + coinbase_input_head());
    }
    push_compact_size(&mut out, script_sig.len());
    let ghost s1 = out@;
    let mut k: usize = 0;
    while k < script_sig.len()
        invariant
            k <= script_sig@.len(),
            out@ == s1 + script_sig@.subrange(0, k as int),
        decreases script_sig@.len() - k,
    {
        let b = script_sig[k];
        out.push(b);
        k = k + 1;
        proof {
            assert(out@ =~= s1 + script_sig@.subrange(0, k as int));
        }
    }
    proof {
        assert(script_sig@.subrange(0, script_sig@.len() as int) =~= script_sig@);
    }
    push_u32_le(&mut out, input_sequence);
    push_txouts(&mut out, outputs);
    push_u32_le(&mut out, locktime);
    proof {
        assert(out@ =~= coinbase_tx_bytes(
            tx_version,
            script_sig@,
            input_sequence,
            outputs@,
            locktime,
        ));
    }
    out
}

/// The scriptSig of a job's coinbase input: the template's coinbase prefix,
/// then the pool tag and the extranonce, each behind a one-byte push.
pub open spec fn script_sig_of(cb_prefix: Seq<u8>, tag: Seq<u8>, extranonce: Seq<u8>) -> Seq<u8> {
    cb_prefix + seq![tag.len() as u8] + tag + seq![extranonce.len() as u8] + extranonce
}

/// Builds the scriptSig of a job's coinbase input.
pub fn build_script_sig(cb_prefix: &Vec<u8>, tag: &Vec<u8>, extranonce: &Vec<u8>) -> (r: Vec<u8>)
    requires
        tag@.len() < 256,
        extranonce@.len() < 256,
    ensures
        r@ == script_sig_of(cb_prefix@, tag@, extranonce@),
{
    let mut out = copy_bytes(cb_prefix);
    out.push(tag.len() as u8);
    let ghost s0 = out@;
    let mut i: usize = 0;
    while i < tag.len()
        invariant
            i <= tag@.len(),
            out@ == s0 + tag@.subrange(0, i as int),
        decreases tag@.len() - i,
    {
        let b = tag[i];
        out.push(b);
        i = i + 1;
        proof {
            assert(out@ =~= s0 + tag@.subrange(0, i as int));
        }
    }
    out.push(extranonce.len() as u8);
    let ghost s1 = out@;
    let mut k: usize = 0;
    while k < extranonce.len()
        invariant
            k <= extranonce@.len(),
            out@ == s1 + extranonce@.subrange(0, k as int),
        decreases extranonce@.len() - k,
    {
        let b = extranonce[k];
        out.push(b);
        k = k + 1;
        proof {
            assert(out@ =~= s1 + extranonce@.subrange(0, k as int));
        }
    }
    proof {
        assert(tag@.subrange(0, tag@.len() as int) =~= tag@);
        assert(extranonce@.subrange(0, extranonce@.len() as int) =~= extranonce@);
        assert(out@ =~= script_sig_of(cb_prefix@, tag@, extranonce@));
    }
    out
}

/// The merkle root reached by folding a transaction id up a merkle path:
/// each step hashes the running root with the next path node.
pub open spec fn merkle_root_of(txid: Seq<u8>, path: Seq<Seq<u8>>) -> Seq<u8>
    decreases path.len(),
{
    if path.len() == 0 {
        txid
    } else {
        merkle_root_of(sha256d_of(txid + path[0]), path.drop_first())
    }
}

/// Folds a transaction id up a merkle path.
pub fn merkle_root(txid: Vec<u8>, path: &Vec<Vec<u8>>) -> (r: Vec<u8>)
    requires
        txid@.len() == 32,
    ensures
        r@ == merkle_root_of(txid@, path.deep_view()),
        r@.len() == 32,
{
    let mut root = txid;
    let mut i: usize = 0;
    proof {
        assert(path.deep_view().subrange(0, path.deep_view().len() as int) =~= path.deep_view());
    }
    while i < path.len()
        invariant
            i <= path@.len(),
            root@.len() == 32,
            merkle_root_of(root@, path.deep_view().subrange(i as int, path.deep_view().len() as int))
                == merkle_root_of(txid@, path.deep_view()),
        decreases path@.len() - i,
    {
        let mut joined = root;
        let node = &path[i];
        let ghost pre = joined@;
        let mut k: usize = 0;
        while k < node.len()
            invariant
                k <= node@.len(),
                joined@ == pre + node@.subrange(0, k as int),
            decreases node@.len() - k,
        {
            let b = node[k];
            joined.push(b);
            k = k + 1;
            proof {
                assert(joined@ =~= pre + node@.subrange(0, k as int));
            }
        }
        proof {
            assert(node@.subrange(0, node@.len() as int) =~= node@);
            assert(path.deep_view()[i as int] == path@[i as int]@);
        }
        root = sha256d(&joined);
        i = i + 1;
        proof {
            let dv = path.deep_view();
            let tail_old = dv.subrange(i - 1, dv.len() as int);
            let tail_new = dv.subrange(i as int, dv.len() as int);
            assert(tail_old[0] == dv[i - 1]);
            assert(tail_old.drop_first() =~= tail_new);
            assert(merkle_root_of(pre, tail_old) == merkle_root_of(
                sha256d_of(pre + dv[i - 1]),
                tail_new,
            ));
        }
    }
    proof {
        let dv = path.deep_view();
        assert(dv.subrange(dv.len() as int, dv.len() as int) =~= Seq::<Seq<u8>>::empty());
    }
    root
}

/// The 80-byte block header a share commits to.
pub open spec fn header_bytes(
    version: u32,
    prev_hash: Seq<u8>,
    merkle_root: Seq<u8>,
    ntime: u32,
    nbits: u32,
    nonce: u32,
) -> Seq<u8> {
    u32_le(version) + prev_hash + merkle_root + u32_le(ntime) + u32_le(nbits) + u32_le(nonce)
}

/// Builds the 80-byte block header a share commits to.
pub fn build_header(
    version: u32,
    prev_hash: &Vec<u8>,
    merkle_root: &Vec<u8>,
    ntime: u32,
    nbits: u32,
    nonce: u32,
) -> (r: Vec<u8>)
    requires
        prev_hash@.len() == 32,
        merkle_root@.len() == 32,
    ensures
        r@ == header_bytes(version, prev_hash@, merkle_root@, ntime, nbits, nonce),
{
    let mut out: Vec<u8> = Vec::new();
    push_u32_le(&mut out, version);
    let ghost s0 = out@;
    let mut i: usize = 0;
    while i < prev_hash.len()
        invariant
            i <= prev_hash@.len(),
            out@ == s0 + prev_hash@.subrange(0, i as int),
        decreases prev_hash@.len() - i,
    {
        let b = prev_hash[i];
        out.push(b);
        i = i + 1;
        proof {
            assert(out@ =~= s0 + prev_hash@.subrange(0, i as int));
        }
    }
    let ghost s1 = out@;
    let mut k: usize = 0;
    while k < merkle_root.len()
        invariant
            k <= merkle_root@.len(),
            out@ == s1 + merkle_root@.subrange(0, k as int),
        decreases merkle_root@.len() - k,
    {
        let b = merkle_root[k];
        out.push(b);
        k = k + 1;
        proof {
            assert(out@ =~= s1 + merkle_root@.subrange(0, k as int));
        }
    }
    push_u32_le(&mut out, ntime);
    push_u32_le(&mut out, nbits);
    push_u32_le(&mut out, nonce);
    proof {
        assert(prev_hash@.subrange(0, prev_hash@.len() as int) =~= prev_hash@);
        assert(merkle_root@.subrange(0, merkle_root@.len() as int) =~= merkle_root@);
        assert(out@ =~= header_bytes(version, prev_hash@, merkle_root@, ntime, nbits, nonce));
    }
    out
}

/// Copies a byte vector.
pub fn copy_bytes(a: &Vec<u8>) -> (r: Vec<u8>)
    ensures
        r@ == a@,
{
    let mut out: Vec<u8> = Vec::new();
    let mut i: usize = 0;
    while i < a.len()
        invariant
            i <= a@.len(),
            out@ == a@.subrange(0, i as int),
        decreases a@.len() - i,
    {
        let x = a[i];
        out.push(x);
        i = i + 1;
        proof {
            assert(out@ =~= a@.subrange(0, i as int));
        }
    }
    proof {
        assert(a@.subrange(0, a@.len() as int) =~= a@);
    }
    out
}

/// Copies a list of byte vectors.
pub fn copy_byte_list(a: &Vec<Vec<u8>>) -> (r: Vec<Vec<u8>>)
    ensures
        r.deep_view() == a.deep_view(),
{
    let mut out: Vec<Vec<u8>> = Vec::new();
    let mut i: usize = 0;
    while i < a.len()
        invariant
            i <= a@.len(),
            out@.len() == i,
            forall|k: int| 0 <= k < i ==> (#[trigger] out@[k])@ == a@[k]@,
        decreases a@.len() - i,
    {
        let x = copy_bytes(&a[i]);
        out.push(x);
        i = i + 1;
    }
    proof {
        assert forall|k: int| 0 <= k < a@.len() implies #[trigger] out.deep_view()[k]
            == a.deep_view()[k] by {
            assert(out.deep_view()[k] == out@[k]@);
            assert(a.deep_view()[k] == a@[k]@);
        }
        assert(out.deep_view() =~= a.deep_view());
    }
    out
}

/// Appends one byte vector to another, returning the concatenation.
pub fn concat_bytes(a: &Vec<u8>, b: &Vec<u8>) -> (r: Vec<u8>)
    ensures
        r@ == a@ + b@,
{
    let mut out: Vec<u8> = Vec::new();
    let mut i: usize = 0;
    proof {
        assert(out@ =~= a@.subrange(0, 0));
    }
    while i < a.len()
        invariant
            i <= a@.len(),
            out@ == a@.subrange(0, i as int),
        decreases a@.len() - i,
    {
        let x = a[i];
        out.push(x);
        i = i + 1;
        proof {
            assert(out@ =~= a@.subrange(0, i as int));
        }
    }
    proof {
        assert(a@.subrange(0, a@.len() as int) =~= a@);
    }
    let ghost s = out@;
    let mut k: usize = 0;
    while k < b.len()
        invariant
            k <= b@.len(),
            out@ == s + b@.subrange(0, k as int),
        decreases b@.len() - k,
    {
        let x = b[k];
        out.push(x);
        k = k + 1;
        proof {
            assert(out@ =~= s + b@.subrange(0, k as int));
        }
    }
    proof {
        assert(b@.subrange(0, b@.len() as int) =~= b@);
        assert(out@ =~= a@ + b@);
    }
    out
}

/// The head of a job's scriptSig for channels that roll their extranonce:
/// the template's coinbase prefix, the pushed pool tag, and the push
/// opcode for the full extranonce whose bytes follow on the wire.
pub open spec fn script_head_of(cb_prefix: Seq<u8>, tag: Seq<u8>, ext_len: nat) -> Seq<u8> {
    cb_prefix + seq![tag.len() as u8] + tag + seq![ext_len as u8]
}

/// Builds the scriptSig head up to the extranonce push opcode.
pub fn build_script_head(cb_prefix: &Vec<u8>, tag: &Vec<u8>, ext_len: u8) -> (r: Vec<u8>)
    requires
        tag@.len() < 256,
    ensures
        r@ == script_head_of(cb_prefix@, tag@, ext_len as nat),
{
    let mut out = copy_bytes(cb_prefix);
    out.push(tag.len() as u8);
    let ghost s0 = out@;
    let mut i: usize = 0;
    while i < tag.len()
        invariant
            i <= tag@.len(),
            out@ == s0 + tag@.subrange(0, i as int),
        decreases tag@.len() - i,
    {
        let b = tag[i];
        out.push(b);
        i = i + 1;
        proof {
            assert(out@ =~= s0 + tag@.subrange(0, i as int));
        }
    }
    out.push(ext_len);
    proof {
        assert(tag@.subrange(0, tag@.len() as int) =~= tag@);
        assert(out@ =~= script_head_of(cb_prefix@, tag@, ext_len as nat));
    }
    out
}

/// The serialized coinbase up to the extranonce: version, the coinbase
/// input's head, the scriptSig length and the scriptSig head.
pub open spec fn cb_prefix_bytes(tx_version: u32, script_head: Seq<u8>, script_len: nat) -> Seq<
    u8,
> {
    u32_le(tx_version) + coinbase_input_head() + compact_size(script_len) + script_head
}

/// Builds the serialized coinbase up to the extranonce.
pub fn build_cb_prefix(tx_version: u32, script_head: &Vec<u8>, script_len: usize) -> (r: Vec<u8>)
    ensures
        r@ == cb_prefix_bytes(tx_version, script_head@, script_len as nat),
{
    let mut out: Vec<u8> = Vec::new();
    push_u32_le(&mut out, tx_version);
    let ghost s0 = out@;
    out.push(1);
    let mut z: usize = 0;
    while z < 32
        invariant
            z <= 32,
            out@.len() == s0.len() + 1 + z,
            out@ == s0 + seq![1u8] + Seq::new(z as nat, |i: int| 0u8),
        decreases 32 - z,
    {
        out.push(0);
        z = z + 1;
        proof {
            assert(out@ =~= s0 + seq![1u8] + Seq::new(z as nat, |i: int| 0u8));
        }
    }
    out.push(0xff);
    out.push(0xff);
    out.push(0xff);
    out.push(0xff);
    proof {
        assert(out@ =~= u32_le(tx_version) + coinbase_input_head());
    }
    push_compact_size(&mut out, script_len);
    let ghost s1 = out@;
    let mut k: usize = 0;
    while k < script_head.len()
        invariant
            k <= script_head@.len(),
            out@ == s1 + script_head@.subrange(0, k as int),
        decreases script_head@.len() - k,
    {
        let b = script_head[k];
        out.push(b);
        k = k + 1;
        proof {
            assert(out@ =~= s1 + script_head@.subrange(0, k as int));
        }
    }
    proof {
        assert(script_head@.subrange(0, script_head@.len() as int) =~= script_head@);
        assert(out@ =~= cb_prefix_bytes(tx_version, script_head@, script_len as nat));
    }
    out
}

/// The serialized coinbase after the extranonce: the input's sequence, the
/// encoded output list and the locktime.
pub open spec fn cb_suffix_bytes(
    input_sequence: u32,
    outputs: Seq<TxOutput>,
    locktime: u32,
) -> Seq<u8> {
    u32_le(input_sequence) + txouts_enc(outputs) + u32_le(locktime)
}

/// Builds the serialized coinbase after the extranonce.
pub fn build_cb_suffix(input_sequence: u32, outputs: &Vec<TxOutput>, locktime: u32) -> (r: Vec<
    u8,
>)
    ensures
        r@ == cb_suffix_bytes(input_sequence, outputs@, locktime),
{
    let mut out: Vec<u8> = Vec::new();
    push_u32_le(&mut out, input_sequence);
    push_txouts(&mut out, outputs);
    push_u32_le(&mut out, locktime);
    proof {
        assert(out@ =~= cb_suffix_bytes(input_sequence, outputs@, locktime));
    }
    out
}

/// The serialized coinbase after the extranonce for a custom job, whose
/// outputs arrive already serialized.
pub open spec fn cb_suffix_raw_bytes(
    input_sequence: u32,
    outputs_bytes: Seq<u8>,
    locktime: u32,
) -> Seq<u8> {
    u32_le(input_sequence) + outputs_bytes + u32_le(locktime)
}

/// Builds the serialized coinbase after the extranonce from raw output
/// bytes.
pub fn build_cb_suffix_raw(input_sequence: u32, outputs_bytes: &Vec<u8>, locktime: u32) -> (r: Vec<
    u8,
>)
    ensures
        r@ == cb_suffix_raw_bytes(input_sequence, outputs_bytes@, locktime),
{
    let mut out: Vec<u8> = Vec::new();
    push_u32_le(&mut out, input_sequence);
    let ghost s0 = out@;
    let mut k: usize = 0;
    while k < outputs_bytes.len()
        invariant
            k <= outputs_bytes@.len(),
            out@ == s0 + outputs_bytes@.subrange(0, k as int),
        decreases outputs_bytes@.len() - k,
    {
        let b = outputs_bytes[k];
        out.push(b);
        k = k + 1;
        proof {
            assert(out@ =~= s0 + outputs_bytes@.subrange(0, k as int));
        }
    }
    push_u32_le(&mut out, locktime);
    proof {
        assert(outputs_bytes@.subrange(0, outputs_bytes@.len() as int) =~= outputs_bytes@);
        assert(out@ =~= cb_suffix_raw_bytes(input_sequence, outputs_bytes@, locktime));
    }
    out
}

} // verus!
