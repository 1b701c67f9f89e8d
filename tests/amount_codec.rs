use confidential_balances::amount::{join_amount, split_amount};

#[test]
fn split_gives_low_and_high_halves() {
    assert_eq!(split_amount(0x1234_5678_9abc_def0), (0x9abc_def0, 0x1234_5678));
    assert_eq!(split_amount(0), (0, 0));
    assert_eq!(split_amount(u64::MAX), (u32::MAX, u32::MAX));
}

#[test]
fn join_inverts_split() {
    for x in [0u64, 1, 1000, 0xFFFF_FFFF, 0x1_0000_0000, u64::MAX, 0xdead_beef_cafe_f00d] {
        let (lo, hi) = split_amount(x);
        assert_eq!(join_amount(lo, hi), x);
        assert_eq!(hi as u64, x >> 32);
        assert_eq!(lo as u64, x & 0xFFFF_FFFF);
    }
}
