use max31855::{bits_to_i16, Reading};

#[test]
fn thermocouple_field_without_sign_is_the_count() {
    assert_eq!(bits_to_i16(0, 14, 4, 2), 0);
    assert_eq!(bits_to_i16(1, 14, 4, 2), 1);
    assert_eq!(bits_to_i16(10, 14, 4, 2), 10);
    assert_eq!(bits_to_i16(0x1fff, 14, 4, 2), 8191);
}

#[test]
fn thermocouple_field_with_sign_is_negative() {
    assert_eq!(bits_to_i16(0b10_0000_0000_0000, 14, 4, 2), -8192);
    assert_eq!(bits_to_i16(0x2001, 14, 4, 2), -8191);
    assert_eq!(bits_to_i16(0x3c18, 14, 4, 2), -1000);
    assert_eq!(bits_to_i16(0x3fff, 14, 4, 2), -1);
}

#[test]
fn every_thermocouple_field_without_sign() {
    for field in 0u16..0x2000 {
        assert_eq!(bits_to_i16(field, 14, 4, 2) as i32, field as i32);
    }
}

#[test]
fn every_thermocouple_field_with_sign() {
    for field in 0x2000u16..0x4000 {
        assert_eq!(bits_to_i16(field, 14, 4, 2) as i32, field as i32 - 0x4000);
    }
}

#[test]
fn internal_fields() {
    assert_eq!(bits_to_i16(0, 12, 16, 4), 0);
    assert_eq!(bits_to_i16(0x7ff, 12, 16, 4), 2047);
    assert_eq!(bits_to_i16(0x800, 12, 16, 4), -2048);
    assert_eq!(bits_to_i16(0xec0, 12, 16, 4), -320);
    assert_eq!(bits_to_i16(0xfff, 12, 16, 4), -1);
}

#[test]
fn every_internal_field() {
    for field in 0u16..0x800 {
        assert_eq!(bits_to_i16(field, 12, 16, 4) as i32, field as i32);
    }
    for field in 0x800u16..0x1000 {
        assert_eq!(bits_to_i16(field, 12, 16, 4) as i32, field as i32 - 0x1000);
    }
}

#[test]
fn other_layouts() {
    // a field of three bits at the top of the word
    assert_eq!(bits_to_i16(0b011, 3, 8192, 13), 3);
    assert_eq!(bits_to_i16(0b100, 3, 8192, 13), -4);
    assert_eq!(bits_to_i16(0b111, 3, 8192, 13), -1);
    // the whole word
    assert_eq!(bits_to_i16(0x7fff, 16, 1, 0), 32767);
    assert_eq!(bits_to_i16(0x8000, 16, 1, 0), -32768);
    assert_eq!(bits_to_i16(0xffff, 16, 1, 0), -1);
}

#[test]
fn division_rounds_toward_zero() {
    // 0x8001 is -32767 as a signed word
    assert_eq!(bits_to_i16(0x8001, 16, 2, 0), -16383);
    assert_eq!(bits_to_i16(0xffff, 16, 2, 0), 0);
    assert_eq!(bits_to_i16(0xa000, 16, 3, 0), -8192);
    assert_eq!(bits_to_i16(0x8000, 16, -2, 0), 16384);
    assert_eq!(bits_to_i16(0x8001, 16, -1, 0), 32767);
}

#[test]
fn bits_above_the_sign_are_kept_without_sign() {
    // bit 13 is clear, so the word is read as it is
    assert_eq!(bits_to_i16(0x4001, 14, 4, 2), 0x4001);
    assert_eq!(bits_to_i16(0x8000, 14, 4, 2), -32768);
}

#[test]
fn bits_above_the_sign_are_shifted_out_with_sign() {
    // bit 13 is set; bits 14 and 15 leave the word at the top
    assert_eq!(bits_to_i16(0xe000, 14, 4, 2), -8192);
    assert_eq!(bits_to_i16(0xffff, 14, 4, 2), -1);
}

#[test]
fn without_sign_nothing_else_is_looked_at() {
    assert_eq!(bits_to_i16(5, 14, 0, 99), 5);
}

#[test]
fn layout_of_the_thermocouple() {
    assert_eq!(Reading::Thermocouple.first_bit(), 2);
    assert_eq!(Reading::Thermocouple.width(), 14);
    assert_eq!(Reading::Thermocouple.divisor(), 4);
}

#[test]
fn layout_of_the_reference_junction() {
    assert_eq!(Reading::Internal.first_bit(), 4);
    assert_eq!(Reading::Internal.width(), 12);
    assert_eq!(Reading::Internal.divisor(), 16);
}

#[test]
fn decode_thermocouple_words() {
    assert_eq!(Reading::Thermocouple.decode(0x0000), 0);
    assert_eq!(Reading::Thermocouple.decode(0x0028), 10);
    assert_eq!(Reading::Thermocouple.decode(0x0190), 100);
    assert_eq!(Reading::Thermocouple.decode(0x7ffc), 8191);
    assert_eq!(Reading::Thermocouple.decode(0x8000), -8192);
    assert_eq!(Reading::Thermocouple.decode(0xf060), -1000);
    assert_eq!(Reading::Thermocouple.decode(0xfffc), -1);
}

#[test]
fn decode_internal_words() {
    assert_eq!(Reading::Internal.decode(0x0000), 0);
    assert_eq!(Reading::Internal.decode(0x0010), 1);
    assert_eq!(Reading::Internal.decode(0x1880), 392);
    assert_eq!(Reading::Internal.decode(0x7ff0), 2047);
    assert_eq!(Reading::Internal.decode(0x8000), -2048);
    assert_eq!(Reading::Internal.decode(0xec00), -320);
    assert_eq!(Reading::Internal.decode(0xfff0), -1);
}

#[test]
fn decode_leaves_out_the_bits_below_the_field() {
    assert_eq!(Reading::Thermocouple.decode(0x002b), 10);
    assert_eq!(Reading::Thermocouple.decode(0xffff), -1);
    assert_eq!(Reading::Internal.decode(0x001f), 1);
    assert_eq!(Reading::Internal.decode(0xffff), -1);
}

#[test]
fn decode_every_word() {
    for word in 0u16..=0xffff {
        let signed = word as i16;
        assert_eq!(Reading::Thermocouple.decode(word), signed >> 2);
        assert_eq!(Reading::Internal.decode(word), signed >> 4);
    }
}

#[test]
fn readings_compare_and_copy() {
    let kind = Reading::Internal;
    let copy = kind;
    assert_eq!(kind, copy);
    assert_ne!(Reading::Thermocouple, Reading::Internal);
}
