use futureterm::analysis::{calculate_score_7e1, calculate_score_8n1, calculate_score_mavlink};
use futureterm::float::{Double, Single};

fn score_8n1(data: &[u8]) -> f32 {
    f32::from_bits(calculate_score_8n1(data).bits)
}

fn score_7e1(data: &[u8]) -> f32 {
    f32::from_bits(calculate_score_7e1(data).bits)
}

fn score_mavlink(data: &[u8]) -> f32 {
    f32::from_bits(calculate_score_mavlink(data).bits)
}

#[test]
fn test_8n1_ascii_text() {
    let data = "Hello World\r\n".as_bytes();
    assert!(score_8n1(data) > 0.9);
}

#[test]
fn test_8n1_empty_buffer() {
    let data: &[u8] = &[];
    assert_eq!(score_8n1(data), 0.0);
}

#[test]
fn test_8n1_binary_garbage() {
    // High-byte binary data should score low
    let data: Vec<u8> = (128..255).collect();
    assert!(score_8n1(&data) < 0.5);
}

#[test]
fn test_8n1_nmea_sentence() {
    let data = b"$GPGGA,123519,4807.038,N,01131.000,E,1,08,0.9,545.4,M,46.9,M,,*47\r\n";
    assert!(score_8n1(data) > 0.95);
}

#[test]
fn test_8n1_mixed_content() {
    // 50% printable, 50% binary
    let mut data = Vec::new();
    data.extend_from_slice(b"Hello");
    data.extend_from_slice(&[0x80, 0x90, 0xA0, 0xB0, 0xC0]);
    let score = score_8n1(&data);
    assert!(score > 0.4 && score < 0.6);
    assert_eq!(score, 0.5);
}

#[test]
fn test_7e1_valid_parity() {
    // 'A' (0x41, 2 ones -> parity 0 -> 0x41), 'C' (0x43, 3 ones -> parity 1 -> 0xC3)
    let data = vec![0x41, 0xC3];
    assert!(score_7e1(&data) > 0.9);
    assert!(score_8n1(&data) < 0.6); // 0xC3 is not ascii graphic
}

#[test]
fn test_7e1_empty_buffer() {
    let data: &[u8] = &[];
    assert_eq!(score_7e1(data), 0.0);
}

#[test]
fn test_7e1_invalid_parity() {
    // 0x41 has 2 ones, so even parity expects a parity bit of 0; 0xC1 has 1
    let data = vec![0xC1];
    assert!(score_7e1(&data) < 0.5);
}

#[test]
fn test_score_comparison_wrong_baud() {
    // At the wrong baud rate, framing errors result in non-printable bytes
    let garbage: Vec<u8> = vec![0xFF, 0xFE, 0x7F, 0x80, 0x00, 0x01, 0xFF, 0x82];
    assert!(score_8n1(&garbage) < 0.3);
    assert!(score_7e1(&garbage) < 0.3);
}

#[test]
fn test_mavlink_score_valid() {
    // v1 packet: FE len=3 ... total=3+8=11 bytes
    let valid = vec![0xFE, 0x03, 0x01, 0x01, 0x01, 0x00, 0x00, 0x00, 0x00, 0x00, 0x00];
    assert!(score_mavlink(&valid) > 0.99);
}

#[test]
fn test_mavlink_score_noise_with_magic() {
    // 0xFE followed by 0xFF (255) requires 263 bytes
    let noise = vec![0xFE, 0xFF, 0x00, 0x00];
    assert_eq!(score_mavlink(&noise), 0.0);
}

#[test]
fn test_mavlink_score_mixed() {
    // Garbage + valid packet
    let mut mixed = vec![0x00, 0x01, 0x02];
    mixed.extend_from_slice(&[
        0xFE, 0x03, 0x01, 0x01, 0x01, 0x00, 0x00, 0x00, 0x00, 0x00, 0x00,
    ]);
    // Total 14 bytes. 11 matched. Score = 11/14 ~= 0.78
    let score = score_mavlink(&mixed);
    assert!(score > 0.7 && score < 0.8);
    assert_eq!(score, 11.0f32 / 14.0);
}

#[test]
fn test_mixed_protocol_scoring_high_noise() {
    // 100 bytes garbage + 8 byte packet (valid header) + 100 bytes garbage
    let mut noise = vec![0x55; 100];
    noise.extend_from_slice(&[0xFE, 0x00, 0x01, 0x01, 0x01, 0x00, 0x00, 0x00]);
    noise.extend_from_slice(&vec![0xAA; 100]);
    let score = score_mavlink(&noise);
    assert!(score > 0.0, "Should detect embedded MAVLink packet");
}

#[test]
fn quotients_are_those_of_the_machine() {
    let mut x: u64 = 1;
    for _ in 0..20_000 {
        x = x.wrapping_mul(6364136223846793005).wrapping_add(1442695040888963407);
        let num = (x >> 33) % 5000;
        let den = num + (x >> 17) % 5000 + 1;
        assert_eq!(
            Single::quotient(num, den).bits,
            (num as f32 / den as f32).to_bits(),
            "{} / {}",
            num,
            den
        );
    }
}

#[test]
fn scaled_quotients_are_those_of_the_machine() {
    let mut x: u64 = 7;
    for _ in 0..20_000 {
        x = x.wrapping_mul(6364136223846793005).wrapping_add(1442695040888963407);
        let num = (x >> 32) as i32;
        for den in [10u32, 100, 1000, 10_000_000] {
            assert_eq!(
                Double::quotient(num, den).bits,
                (num as f64 / den as f64).to_bits(),
                "{} / {}",
                num,
                den
            );
        }
    }
    assert_eq!(Double::quotient(0, 1000).bits, 0.0f64.to_bits());
    assert_eq!(Double::quotient(i32::MIN, 1).bits, (i32::MIN as f64).to_bits());
}

#[test]
fn widening_is_that_of_the_machine() {
    let mut x: u64 = 99;
    for _ in 0..20_000 {
        x = x.wrapping_mul(6364136223846793005).wrapping_add(1442695040888963407);
        let bits = (x >> 32) as u32;
        let single = f32::from_bits(bits);
        let wide = f64::from_bits(Single { bits }.widen().bits);
        if single.is_nan() {
            assert!(wide.is_nan());
        } else {
            assert_eq!(wide, single as f64);
        }
    }
    assert_eq!(Single { bits: 1 }.widen().bits, (f32::from_bits(1) as f64).to_bits());
    assert_eq!(Single::one().bits, 1.0f32.to_bits());
    assert_eq!(Single::zero().bits, 0.0f32.to_bits());
}
