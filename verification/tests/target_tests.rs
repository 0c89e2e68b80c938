use sv2_core::target::{hash_rate_to_target, Target};

#[test]
fn hash_rate_one_gives_half_space() {
    // one expected hash per share: target = 2^256 / 2 - 1 = 0x7fff...ff
    let t = hash_rate_to_target(1);
    let bytes = t.to_le_bytes();
    assert_eq!(bytes.len(), 32);
    for i in 0..31 {
        assert_eq!(bytes[i], 0xff);
    }
    assert_eq!(bytes[31], 0x7f);
}

#[test]
fn hash_rate_255_gives_one_256th() {
    // 255 hashes per share: target = 2^256 / 256 - 1 = 0x00ff...ff
    let t = hash_rate_to_target(255);
    let bytes = t.to_le_bytes();
    for i in 0..31 {
        assert_eq!(bytes[i], 0xff);
    }
    assert_eq!(bytes[31], 0x00);
}

#[test]
fn byte_round_trip_preserves_value() {
    let mut b = vec![0u8; 32];
    for (i, item) in b.iter_mut().enumerate() {
        *item = (i * 7 + 3) as u8;
    }
    let t = Target::from_le_bytes(&b);
    assert_eq!(t.to_le_bytes(), b);
}

#[test]
fn ordering_follows_numeric_value() {
    let mut lo = vec![0u8; 32];
    lo[0] = 5;
    let mut hi = vec![0u8; 32];
    hi[31] = 1;
    let t_lo = Target::from_le_bytes(&lo);
    let t_hi = Target::from_le_bytes(&hi);
    assert!(t_lo.le(&t_hi));
    assert!(!t_hi.le(&t_lo));
    assert!(t_lo.le(&t_lo));
    let m = t_hi.min_of(&t_lo);
    assert_eq!(m.to_le_bytes(), lo);
}

#[test]
fn zero_target_detected() {
    let z = Target::from_le_bytes(&vec![0u8; 32]);
    assert!(z.is_zero_target());
    let mut nz = vec![0u8; 32];
    nz[13] = 1;
    assert!(!Target::from_le_bytes(&nz).is_zero_target());
}
