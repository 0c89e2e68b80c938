use sv2_core::coinbase::{build_coinbase_tx, build_script_sig, merkle_root};
use sv2_core::txout::TxOutput;

#[test]
fn merkle_fold_matches_double_sha256() {
    // folding [1; 32] with the path node [2; 32] is
    // sha256(sha256([1; 32] ++ [2; 32]))
    let txid = vec![1u8; 32];
    let path = vec![vec![2u8; 32]];
    let root = merkle_root(txid.clone(), &path);
    let expected: [u8; 32] = [
        57, 206, 32, 190, 222, 130, 201, 107, 137, 8, 190, 196, 161, 87, 176, 156, 84, 155, 61,
        185, 11, 155, 71, 75, 218, 154, 233, 185, 3, 3, 16, 180,
    ];
    assert_eq!(root.as_slice(), &expected);

    // a second level folds the running root with the next node
    let path2 = vec![vec![2u8; 32], vec![3u8; 32]];
    let root2 = merkle_root(txid.clone(), &path2);
    let expected2: [u8; 32] = [
        80, 10, 75, 40, 45, 184, 21, 40, 117, 96, 12, 6, 29, 152, 53, 96, 239, 148, 36, 140, 76,
        74, 64, 3, 85, 233, 107, 144, 138, 10, 18, 26,
    ];
    assert_eq!(root2.as_slice(), &expected2);

    // an empty path leaves the transaction id untouched
    assert_eq!(merkle_root(txid.clone(), &vec![]), txid);
}

#[test]
fn coinbase_serialization_matches_consensus_layout() {
    let script_sig = build_script_sig(&vec![0x03, 0x64, 0x00, 0x00], &vec![0x74, 0x61], &vec![
        0x07, 0x08,
    ]);
    // prefix bytes, one-byte tag push, tag, one-byte extranonce push,
    // extranonce
    assert_eq!(
        script_sig,
        vec![0x03, 0x64, 0x00, 0x00, 0x02, 0x74, 0x61, 0x02, 0x07, 0x08]
    );
    let outputs = vec![TxOutput { value: 0x0102030405060708, script_pubkey: vec![0x51] }];
    let tx = build_coinbase_tx(2, &script_sig, 0xffffffff, &outputs, 7);
    let mut expected: Vec<u8> = Vec::new();
    expected.extend([2, 0, 0, 0]); // version, little endian
    expected.push(1); // one input
    expected.extend([0u8; 32]); // null outpoint hash
    expected.extend([0xff, 0xff, 0xff, 0xff]); // null outpoint index
    expected.push(script_sig.len() as u8); // scriptSig length
    expected.extend(&script_sig);
    expected.extend([0xff, 0xff, 0xff, 0xff]); // input sequence
    expected.push(1); // one output
    expected.extend([0x08, 0x07, 0x06, 0x05, 0x04, 0x03, 0x02, 0x01]); // value, little endian
    expected.push(1); // script length
    expected.push(0x51); // the script
    expected.extend([7, 0, 0, 0]); // locktime, little endian
    assert_eq!(tx, expected);
}
