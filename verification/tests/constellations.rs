use hfmodem::Bpsk;
use hfmodem::ConstellationType;
use hfmodem::Psk8;
use hfmodem::Qam16;
use hfmodem::Qam32;
use hfmodem::Qam64;
use hfmodem::Qpsk;

#[test]
fn test_bpsk_order() {
    assert_eq!(Bpsk.order(), 2);
    assert_eq!(Bpsk.bits_per_symbol(), 1);
}

#[test]
fn test_qpsk_order() {
    assert_eq!(Qpsk.order(), 4);
    assert_eq!(Qpsk.bits_per_symbol(), 2);
}

#[test]
fn test_psk8_order() {
    assert_eq!(Psk8.order(), 8);
    assert_eq!(Psk8.bits_per_symbol(), 3);
}

#[test]
fn test_qam16_order() {
    assert_eq!(Qam16.order(), 16);
    assert_eq!(Qam16.bits_per_symbol(), 4);
}

#[test]
fn test_qam32_order() {
    assert_eq!(Qam32.order(), 32);
    assert_eq!(Qam32.bits_per_symbol(), 5);
}

#[test]
fn test_qam64_order() {
    assert_eq!(Qam64.order(), 64);
    assert_eq!(Qam64.bits_per_symbol(), 6);
}

#[test]
fn test_constellation_type_orders() {
    let expected: [(ConstellationType, usize, usize); 6] = [
        (ConstellationType::Bpsk, 2, 1),
        (ConstellationType::Qpsk, 4, 2),
        (ConstellationType::Psk8, 8, 3),
        (ConstellationType::Qam16, 16, 4),
        (ConstellationType::Qam32, 32, 5),
        (ConstellationType::Qam64, 64, 6),
    ];
    for (c, order, bits) in expected {
        assert_eq!(c.order(), order);
        assert_eq!(c.bits_per_symbol(), bits);
        assert_eq!(c.order(), 1usize << c.bits_per_symbol());
    }
}

#[test]
fn test_gray3_round_trip() {
    for idx in 0..8usize {
        let gray = hfmodem::constellation::index_to_gray3(idx);
        assert!(gray < 8);
        assert_eq!(hfmodem::constellation::gray3_to_index(gray), idx);
    }
    for gray in 0..8u8 {
        let idx = hfmodem::constellation::gray3_to_index(gray);
        assert_eq!(hfmodem::constellation::index_to_gray3(idx), gray);
    }
}

#[test]
fn test_gray3_table() {
    let words: [u8; 8] = [0b000, 0b001, 0b011, 0b010, 0b110, 0b111, 0b101, 0b100];
    for (idx, &word) in words.iter().enumerate() {
        assert_eq!(hfmodem::constellation::index_to_gray3(idx), word);
        assert_eq!(hfmodem::constellation::gray3_to_index(word), idx);
    }
    // Bits above the low three are ignored.
    assert_eq!(hfmodem::constellation::gray3_to_index(0b1111_1010), 3);
    // An out-of-range level index falls back to the word for level 0.
    assert_eq!(hfmodem::constellation::index_to_gray3(12), 0b000);
}
