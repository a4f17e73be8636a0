use opcode_tables::c_emitter::{
    gen_bit_field_min_size, min_bits_required_for_field, min_int_type_required_for_bits_amount,
    min_int_type_required_for_field, min_storage_width,
};

#[test]
fn min_bits_of_small_counts() {
    assert_eq!(min_bits_required_for_field(1), 0);
    assert_eq!(min_bits_required_for_field(2), 1);
    assert_eq!(min_bits_required_for_field(3), 2);
    assert_eq!(min_bits_required_for_field(4), 2);
    assert_eq!(min_bits_required_for_field(5), 3);
    assert_eq!(min_bits_required_for_field(256), 8);
    assert_eq!(min_bits_required_for_field(257), 9);
    assert_eq!(min_bits_required_for_field(65536), 16);
    assert_eq!(min_bits_required_for_field(65537), 17);
}

#[test]
fn min_bits_of_the_largest_count() {
    assert_eq!(min_bits_required_for_field(usize::MAX), usize::BITS as usize);
}

#[test]
fn min_bits_never_decreases() {
    let mut n: usize = 1;
    while n < 5000 {
        assert!(min_bits_required_for_field(n) <= min_bits_required_for_field(n + 1));
        n += 1;
    }
}

#[test]
fn min_bits_is_the_logarithm_rounded_up() {
    let mut n: usize = 1;
    while n < 5000 {
        let bits = min_bits_required_for_field(n);
        assert!(n <= 1usize << bits);
        if bits > 0 {
            assert!(1usize << (bits - 1) < n);
        }
        n += 1;
    }
}

#[test]
fn storage_width_thresholds() {
    assert_eq!(min_storage_width(0), 8);
    assert_eq!(min_storage_width(1), 8);
    assert_eq!(min_storage_width(256), 8);
    assert_eq!(min_storage_width(257), 16);
    assert_eq!(min_storage_width(65536), 16);
    assert_eq!(min_storage_width(65537), 32);
    assert_eq!(min_storage_width(usize::MAX), usize::BITS as usize);
}

#[test]
fn storage_width_holds_min_bits() {
    let mut n: usize = 1;
    while n < 70000 {
        let bits = min_bits_required_for_field(n);
        let width = min_storage_width(n);
        assert!(bits <= width);
        assert!(width == 8 || bits > width / 2);
        n += 7;
    }
}

#[test]
fn int_type_by_values_amount() {
    assert_eq!(min_int_type_required_for_field(1), "uint8_t");
    assert_eq!(min_int_type_required_for_field(256), "uint8_t");
    assert_eq!(min_int_type_required_for_field(257), "uint16_t");
    assert_eq!(min_int_type_required_for_field(65536), "uint16_t");
    assert_eq!(min_int_type_required_for_field(65537), "uint32_t");
}

#[test]
fn int_type_by_bits_amount() {
    assert_eq!(min_int_type_required_for_bits_amount(0), "uint8_t");
    assert_eq!(min_int_type_required_for_bits_amount(8), "uint8_t");
    assert_eq!(min_int_type_required_for_bits_amount(9), "uint16_t");
    assert_eq!(min_int_type_required_for_bits_amount(16), "uint16_t");
    assert_eq!(min_int_type_required_for_bits_amount(17), "uint32_t");
    assert_eq!(min_int_type_required_for_bits_amount(32), "uint32_t");
    assert_eq!(min_int_type_required_for_bits_amount(33), "uint64_t");
    assert_eq!(min_int_type_required_for_bits_amount(64), "uint64_t");
}

#[test]
fn int_type_by_values_agrees_with_int_type_by_bits() {
    let mut n: usize = 1;
    while n < 70000 {
        assert_eq!(
            min_int_type_required_for_field(n),
            min_int_type_required_for_bits_amount(min_bits_required_for_field(n))
        );
        n += 13;
    }
}

#[test]
fn bit_field_line_of_minimal_size() {
    assert_eq!(gen_bit_field_min_size("kind", 10), "uint8_t kind: 4;\n");
    assert_eq!(gen_bit_field_min_size("only", 1), "uint8_t only: 0;\n");
    assert_eq!(gen_bit_field_min_size("wide", 300), "uint16_t wide: 9;\n");
}
