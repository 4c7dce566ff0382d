//! Byte conversions, wire decoding, opcode routing, parity adjustment and
//! bus request building, on concrete values.

#[test]
fn u16_round_trips() {
    assert_eq!(sspa::bytes::u16_to_be(0x1234), [0x12, 0x34]);
    assert_eq!(sspa::bytes::u16_from_be(0x12, 0x34), 0x1234);
    assert_eq!(sspa::bytes::u16_to_be(0), [0, 0]);
    assert_eq!(sspa::bytes::u16_to_be(0xFFFF), [0xFF, 0xFF]);
}

#[test]
fn u32_round_trips() {
    assert_eq!(sspa::bytes::u32_to_be(0xDEADBEEF), [0xDE, 0xAD, 0xBE, 0xEF]);
    assert_eq!(sspa::bytes::u32_from_be(0xDE, 0xAD, 0xBE, 0xEF), 0xDEADBEEF);
}

#[test]
fn decode_big_endian() {
    assert_eq!(sspa::wire::decode_command(&[0x25, 0x01, 0x02, 0x03], false), 0x25010203);
}

#[test]
fn decode_little_endian() {
    assert_eq!(sspa::wire::decode_command(&[0x03, 0x02, 0x01, 0x25], true), 0x25010203);
}

#[test]
fn invertir_swaps_only_for_little_endian() {
    assert_eq!(sspa::wire::invertir([0xAB, 0xCD], false), [0xAB, 0xCD]);
    assert_eq!(sspa::wire::invertir([0xAB, 0xCD], true), [0xCD, 0xAB]);
}

#[test]
fn route_all_opcodes() {
    assert_eq!(sspa::wire::route(0x3C000000), Some(sspa::wire::Opcode::BusRead));
    assert_eq!(sspa::wire::route(0x25010203), Some(sspa::wire::Opcode::BusWrite));
    assert_eq!(sspa::wire::route(0x5B000000), Some(sspa::wire::Opcode::BusDebug));
    assert_eq!(sspa::wire::route(0x5E00002A), Some(sspa::wire::Opcode::BusStress));
    assert_eq!(sspa::wire::route(0x3A000000), Some(sspa::wire::Opcode::ConverterRead));
    assert_eq!(sspa::wire::route(0x2A030200), Some(sspa::wire::Opcode::ConverterWrite));
    assert_eq!(sspa::wire::route(0x33010000), Some(sspa::wire::Opcode::SignalRegisterRead));
    assert_eq!(sspa::wire::route(0x23011234), Some(sspa::wire::Opcode::SignalRegisterWrite));
    assert_eq!(sspa::wire::route(0x2D000001), Some(sspa::wire::Opcode::RelayReset));
    assert_eq!(sspa::wire::route(0x3D000000), Some(sspa::wire::Opcode::RelayProgram));
    assert_eq!(sspa::wire::route(0x4D000064), Some(sspa::wire::Opcode::EdgeMonitor));
}

#[test]
fn route_apply_shares_the_write_group() {
    // The apply opcode's top bit is outside the 0x7F000000 mask, so an
    // apply word arrives under the register-write group and is told apart
    // by the request's first byte.
    assert_eq!(sspa::wire::route(0xA3000000), Some(sspa::wire::Opcode::SignalRegisterWrite));
}

#[test]
fn route_unknown_is_silent() {
    assert_eq!(sspa::wire::route(0x7F000000), None);
    assert_eq!(sspa::wire::route(0x00000000), None);
    assert_eq!(sspa::wire::route(0x41000000), None);
}

#[test]
fn parity_set_flips_odd_halves() {
    // One set bit in the high half: the high marker flips.
    assert_eq!(sspa::parity::parity_set(0x00010000), 0x80010000);
    // One set bit in each half: both markers flip.
    assert_eq!(sspa::parity::parity_set(0x00010001), 0x80018001);
    // Two set bits per half: already even, nothing flips.
    assert_eq!(sspa::parity::parity_set(0x00030003), 0x00030003);
    // No set bits at all: zero counts as even.
    assert_eq!(sspa::parity::parity_set(0), 0);
}

#[test]
fn parity_set_makes_every_half_even() {
    let samples = [
        0u32, 1, 0xFFFF_FFFF, 0x8000_0000, 0x0000_8000, 0x1234_5678, 0xDEAD_BEEF, 0x7FFF_7FFF,
        0x0001_0000, 0xA5A5_5A5A,
    ];
    for &s in samples.iter() {
        let r = sspa::parity::parity_set(s);
        assert_eq!((r >> 16).count_ones() % 2, 0, "high half of {r:#X}");
        assert_eq!((r & 0xFFFF).count_ones() % 2, 0, "low half of {r:#X}");
        assert_eq!(r & 0x7FFF_7FFF, s & 0x7FFF_7FFF, "data bits of {s:#X}");
    }
}

#[test]
fn parity16_counts_odd_bits() {
    assert!(!sspa::parity::parity16(0));
    assert!(sspa::parity::parity16(1));
    assert!(!sspa::parity::parity16(3));
    assert!(sspa::parity::parity16(0x8000));
    assert!(!sspa::parity::parity16(0xFFFF));
}

#[test]
fn bus_read_frame() {
    // Payload 0x00010001 has one set bit per half, so both markers flip.
    assert_eq!(sspa::bus::spi_read(0x00010001), [1, 0x80, 0x01, 0x80, 0x01]);
}

#[test]
fn bus_write_frame() {
    assert_eq!(sspa::bus::spi_write(0x00010001), [2, 0x80, 0x01, 0x80, 0x01]);
    assert_eq!(sspa::bus::spi_write(0x00030003), [2, 0x00, 0x03, 0x00, 0x03]);
}

#[test]
fn bus_debug_frame_moves_low_word_up() {
    // 0x5B000001 shifted left 16 gives payload 0x00010000, whose high
    // half is odd and gets its marker set.
    assert_eq!(sspa::bus::spi_debug(0x5B000001), [0, 0x80, 0x01, 0x00, 0x00]);
}

#[test]
fn bus_noop_frame_is_all_zero_payload() {
    assert_eq!(sspa::bus::spi_read(0), [1, 0, 0, 0, 0]);
}

#[test]
fn stress_count_is_low_word() {
    assert_eq!(sspa::bus::spi_stress_count(0x5E00002A), 42);
    assert_eq!(sspa::bus::spi_stress_count(0x5E000000), 0);
    assert_eq!(sspa::bus::spi_stress_count(0x5EFFFFFF), 0xFFFF);
}

#[test]
fn transfer_words_per_length_tag() {
    // Tag 0: only the first payload word, no read-back.
    let w = sspa::bus::spi_transfer_words(&[0, 0xAA, 0xBB, 0xCC, 0xDD]);
    assert_eq!(w, vec![[0xAA, 0xBB]]);
    // Tag 1: first word, then the all-zero read-back.
    let w = sspa::bus::spi_transfer_words(&[1, 0xAA, 0xBB, 0xCC, 0xDD]);
    assert_eq!(w, vec![[0xAA, 0xBB], [0x00, 0x00]]);
    // Tag 2: both words, then the read-back.
    let w = sspa::bus::spi_transfer_words(&[2, 0xAA, 0xBB, 0xCC, 0xDD]);
    assert_eq!(w, vec![[0xAA, 0xBB], [0xCC, 0xDD], [0x00, 0x00]]);
}
