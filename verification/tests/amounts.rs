use frenscan::amount::{amount_to_decimal, normalize_amount, SignedTotal};
use frenscan::encoding::bytes_to_hex;

#[test]
fn hex_of_bytes_is_lowercase_pairs() {
    assert_eq!(bytes_to_hex(&vec![]), "");
    assert_eq!(bytes_to_hex(&vec![0x01]), "01");
    assert_eq!(bytes_to_hex(&vec![0xa1, 0xc3]), "a1c3");
    assert_eq!(bytes_to_hex(&vec![0x03, 0xe8]), "03e8");
}

#[test]
fn normalize_strips_leading_zero_bytes() {
    assert_eq!(normalize_amount(&vec![0, 0, 3, 232]), vec![3, 232]);
    assert_eq!(normalize_amount(&vec![0, 0]), vec![0]);
    assert_eq!(normalize_amount(&vec![]), vec![0]);
}

#[test]
fn decimal_of_big_endian_bytes() {
    assert_eq!(amount_to_decimal(&vec![0, 3, 232]), "1000");
    assert_eq!(amount_to_decimal(&vec![]), "0");
    assert_eq!(amount_to_decimal(&vec![1, 0, 0, 0, 0, 0, 0, 0, 0]), "18446744073709551616");
}

#[test]
fn signed_total_nets_credits_and_debits() {
    let mut total = SignedTotal::zero();
    assert!(!total.is_positive());
    assert!(!total.is_negative());
    assert_eq!(total.magnitude_bytes(), vec![0]);
    total.add_change(&Some(vec![1, 0]), &Some(vec![2, 0]));
    assert!(total.is_negative());
    assert_eq!(total.magnitude_bytes(), vec![1, 0]);
    total.add_change(&Some(vec![3, 1]), &None);
    assert!(total.is_positive());
    assert_eq!(total.magnitude_bytes(), vec![2, 1]);
}

#[test]
fn hex_of_every_byte_is_its_two_digits() {
    for b in 0..=255u8 {
        assert_eq!(bytes_to_hex(&vec![b]), format!("{:02x}", b));
    }
    assert_eq!(bytes_to_hex(&vec![0, 0]).len(), 4);
}

#[test]
fn normalize_keeps_the_number_of_long_amounts() {
    let mut long = vec![0u8; 40];
    long[7] = 1;
    long[39] = 9;
    let short = normalize_amount(&long);
    assert_eq!(short.len(), 33);
    assert_eq!(short[0], 1);
    assert_eq!(short[32], 9);
    assert_eq!(normalize_amount(&vec![0xff; 32]), vec![0xff; 32]);
}

#[test]
fn signed_total_of_absent_amounts_is_zero() {
    let mut total = SignedTotal::zero();
    total.add_change(&None, &None);
    assert!(!total.is_positive() && !total.is_negative());
    total.add_change(&Some(vec![]), &Some(vec![0, 0]));
    assert!(!total.is_positive() && !total.is_negative());
    assert_eq!(total.magnitude_bytes(), vec![0]);
}

#[test]
fn signed_total_beyond_sixty_four_bits() {
    let mut total = SignedTotal::zero();
    total.add_change(&Some(vec![0xff; 9]), &None);
    total.add_change(&Some(vec![1]), &None);
    assert!(total.is_positive());
    assert_eq!(total.magnitude_bytes(), vec![1, 0, 0, 0, 0, 0, 0, 0, 0, 0]);
    total.add_change(&None, &Some(vec![2, 0, 0, 0, 0, 0, 0, 0, 0, 0]));
    assert!(total.is_negative());
    assert_eq!(total.magnitude_bytes(), vec![1, 0, 0, 0, 0, 0, 0, 0, 0, 0]);
}
