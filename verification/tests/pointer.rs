use watchy_core::bma423::pointer::{
    join_feature_conf_data_address, split_feature_conf_data_address, POINTER_SPAN,
};

#[test]
fn test_split_join_feature_conf_data_address() {
    for orig in 0..(u8::MAX as usize) {
        let orig = orig * 2;
        let (lsb, msb) = split_feature_conf_data_address(orig);
        let joined = join_feature_conf_data_address(lsb, msb);
        assert_eq!(orig, joined);
    }
}

#[test]
fn split_then_join_over_the_whole_span() {
    for half in 0..=255usize {
        let addr = half * 2;
        assert!(addr <= 510);
        let (lsb, msb) = split_feature_conf_data_address(addr);
        assert_eq!(join_feature_conf_data_address(lsb, msb), addr);
    }
    let mut addr = 0;
    while addr < POINTER_SPAN {
        let (lsb, msb) = split_feature_conf_data_address(addr);
        assert!(lsb < 16);
        assert_eq!(join_feature_conf_data_address(lsb, msb), addr);
        addr += 2;
    }
}

#[test]
fn split_of_known_addresses() {
    assert_eq!(split_feature_conf_data_address(0), (0, 0));
    assert_eq!(split_feature_conf_data_address(2), (1, 0));
    assert_eq!(split_feature_conf_data_address(30), (15, 0));
    assert_eq!(split_feature_conf_data_address(32), (0, 1));
    assert_eq!(split_feature_conf_data_address(100), (2, 3));
    assert_eq!(split_feature_conf_data_address(0x17F8), (0xC, 0xBF));
    assert_eq!(split_feature_conf_data_address(0x1800), (0x0, 0xC0));
    assert_eq!(split_feature_conf_data_address(8190), (15, 255));
}

#[test]
fn split_drops_the_odd_bit_and_what_the_registers_cannot_hold() {
    assert_eq!(split_feature_conf_data_address(101), (2, 3));
    assert_eq!(split_feature_conf_data_address(8192), (0, 0));
    assert_eq!(split_feature_conf_data_address(8192 + 100), (2, 3));
}

#[test]
fn join_of_known_registers() {
    assert_eq!(join_feature_conf_data_address(0, 0), 0);
    assert_eq!(join_feature_conf_data_address(2, 3), 100);
    assert_eq!(join_feature_conf_data_address(0xC, 0xBF), 0x17F8);
    assert_eq!(join_feature_conf_data_address(15, 255), 8190);
}

#[test]
fn join_counts_only_the_low_four_bits_of_the_low_register() {
    assert_eq!(join_feature_conf_data_address(0xF2, 3), 100);
    assert_eq!(join_feature_conf_data_address(0x10, 0), 0);
}

#[test]
fn join_then_split_gives_the_registers_back() {
    for msb in 0..=255u8 {
        for lsb in 0..=255u8 {
            let addr = join_feature_conf_data_address(lsb, msb);
            assert_eq!(split_feature_conf_data_address(addr), (lsb & 0x0F, msb));
        }
    }
}
