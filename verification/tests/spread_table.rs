use sha_builder::spread::{build_spread_table, is_valid_spread_pair, spread_bits};

#[test]
fn dense_spread_relation_example() {
    // Each bit of the dense value moves two positions apart: bit i of the
    // dense value becomes bit 2*i of the spread value, zero-filled in
    // between.  0b10110011 has bits 0, 1, 4, 5 and 7 set, so its spread
    // form has bits 0, 2, 8, 10 and 14 set.
    assert_eq!(spread_bits(0b10110011), 0b0100_0101_0000_0101);
}

#[test]
fn spread_of_small_values() {
    assert_eq!(spread_bits(0), 0);
    assert_eq!(spread_bits(1), 1);
    assert_eq!(spread_bits(0b10), 0b100);
    assert_eq!(spread_bits(0b11), 0b101);
    assert_eq!(spread_bits(0b1111_1111), 0b0101_0101_0101_0101);
    assert_eq!(spread_bits(u16::MAX), 0x5555_5555);
}

#[test]
fn mismatched_spread_pair_is_rejected() {
    // A spread value that does not match its dense counterpart fails the
    // table relation, so the lookup argument would reject it.
    assert!(is_valid_spread_pair(0b10110011, 0b0100_0101_0000_0101));
    assert!(!is_valid_spread_pair(0b10110011, 0b0100_0101_0000_0100));
    assert!(!is_valid_spread_pair(0b10110011, 0));
}

#[test]
fn spread_table_holds_every_pair_once() {
    let rows = build_spread_table(8);
    assert_eq!(rows.len(), 256);
    for (d, row) in rows.iter().enumerate() {
        assert_eq!(row.0 as usize, d);
        assert_eq!(row.1, spread_bits(d as u16));
    }
    assert_eq!(rows[5], (5, 0b10001));
    assert_eq!(rows[255], (255, 0b0101_0101_0101_0101));
}

#[test]
fn spread_table_of_zero_bits_is_single_row() {
    let rows = build_spread_table(0);
    assert_eq!(rows, vec![(0, 0)]);
}
