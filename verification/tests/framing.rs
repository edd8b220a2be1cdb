use futureterm::framing::cobs_impl::{push_decoded, CobsFramer};
use futureterm::framing::lines::LineFramer;
use futureterm::framing::raw::RawFramer;
use futureterm::framing::slip_impl::{decode_slip, SlipFramer};
use futureterm::framing::Framer;

#[test]
fn test_lines_simple() {
    let mut framer = LineFramer::new();
    let frames = framer.push(b"Hello\nWorld\n", 100);
    assert_eq!(frames.len(), 2);
    assert_eq!(frames[0].bytes, b"Hello\n");
    assert_eq!(frames[0].timestamp_us, 100);
    assert_eq!(frames[1].bytes, b"World\n");
}

#[test]
fn test_lines_split() {
    let mut framer = LineFramer::new();
    // Chunk 1: "Hel" at T=100
    let f1 = framer.push(b"Hel", 100);
    assert_eq!(f1.len(), 0);

    // Chunk 2: "lo\n" at T=200
    let f2 = framer.push(b"lo\n", 200);
    assert_eq!(f2.len(), 1);

    assert_eq!(f2[0].bytes, b"Hello\n");
    // Should preserve the timestamp of the START of the frame (T=100)
    assert_eq!(f2[0].timestamp_us, 100);
}

#[test]
fn test_crlf_handling() {
    let mut framer = LineFramer::new();
    let f = framer.push(b"Test\r\n", 100);
    assert_eq!(f[0].bytes, b"Test\r\n");
}

#[test]
fn lines_keep_every_byte_however_they_are_cut() {
    let stream = b"a\n\n\nbc\r\nlong line without an end";
    for cut in 0..stream.len() {
        let mut framer = LineFramer::new();
        let mut frames = framer.push(&stream[..cut], 1);
        frames.extend(framer.push(&stream[cut..], 1));
        let mut bytes: Vec<u8> = Vec::new();
        for frame in &frames {
            bytes.extend(&frame.bytes);
        }
        bytes.extend(b"long line without an end");
        assert_eq!(bytes, stream);
        assert_eq!(frames.len(), 4);
    }
}

#[test]
fn a_reset_line_framer_forgets() {
    let mut framer = LineFramer::new();
    framer.push(b"lost", 1);
    framer.reset();
    assert_eq!(framer.push(b"kept\n", 2)[0].bytes, b"kept\n");
    assert_eq!(framer.name(), "Lines");
}

#[test]
fn test_raw_framer() {
    let mut framer = RawFramer::new();
    let frames = framer.push(&[0x01, 0x02], 100);
    assert_eq!(frames.len(), 1);
    assert_eq!(frames[0].bytes, vec![0x01, 0x02]);
    assert_eq!(frames[0].timestamp_us, 100);
}

#[test]
fn an_empty_chunk_is_no_frame() {
    let mut framer = RawFramer::new();
    assert!(framer.push(&[], 100).is_empty());
    assert_eq!(framer.name(), "Raw");
}

#[test]
fn test_slip_basic() {
    let mut framer = SlipFramer::new();
    // Encoded [0x01, 0xC0 (END in data)] -> [0x01, 0xDB, 0xDC], then the framing END
    let input = vec![0x01, 0xDB, 0xDC, 0xC0];

    let frames = framer.push(&input, 100);
    assert_eq!(frames.len(), 1);
    assert_eq!(frames[0].bytes, vec![0x01, 0xC0]);
}

#[test]
fn test_slip_escape_esc() {
    let mut framer = SlipFramer::new();
    // Data containing ESC byte (0xDB) -> encoded as [0xDB, 0xDD]
    let input = vec![0x01, 0xDB, 0xDD, 0xC0];

    let frames = framer.push(&input, 100);
    assert_eq!(frames.len(), 1);
    assert_eq!(frames[0].bytes, vec![0x01, 0xDB]);
}

#[test]
fn test_slip_multiple_frames() {
    let mut framer = SlipFramer::new();
    // Two frames: [0x01] and [0x02]
    let input = vec![0x01, 0xC0, 0x02, 0xC0];

    let frames = framer.push(&input, 100);
    assert_eq!(frames.len(), 2);
    assert_eq!(frames[0].bytes, vec![0x01]);
    assert_eq!(frames[1].bytes, vec![0x02]);
}

#[test]
fn test_slip_split_frame() {
    let mut framer = SlipFramer::new();
    // First chunk: partial frame
    let f1 = framer.push(&[0x01, 0x02], 100);
    assert_eq!(f1.len(), 0);

    // Second chunk: rest of frame + delimiter
    let f2 = framer.push(&[0x03, 0xC0], 200);
    assert_eq!(f2.len(), 1);
    assert_eq!(f2[0].bytes, vec![0x01, 0x02, 0x03]);
    assert_eq!(f2[0].timestamp_us, 100); // Start timestamp
}

#[test]
fn test_slip_empty_frame() {
    let mut framer = SlipFramer::new();
    // Just delimiter -> empty frame (should be ignored)
    let frames = framer.push(&[0xC0], 100);
    assert_eq!(frames.len(), 0);
}

#[test]
fn test_slip_reset() {
    let mut framer = SlipFramer::new();
    // Push partial
    framer.push(&[0x01, 0x02], 100);
    // Reset
    framer.reset();
    // Push new complete frame
    let frames = framer.push(&[0x03, 0xC0], 200);
    assert_eq!(frames.len(), 1);
    assert_eq!(frames[0].bytes, vec![0x03]);
    assert_eq!(frames[0].timestamp_us, 200);
}

#[test]
fn slip_unescaping_undoes_escaping() {
    let mut packet: Vec<u8> = (0..=255).collect();
    packet.extend([0xC0, 0xDB, 0xDB, 0xC0]);
    let mut wire = Vec::new();
    for &b in &packet {
        match b {
            0xC0 => wire.extend([0xDB, 0xDC]),
            0xDB => wire.extend([0xDB, 0xDD]),
            _ => wire.push(b),
        }
    }
    assert_eq!(decode_slip(&wire), Ok(packet.clone()));
    wire.push(0xC0);
    assert_eq!(SlipFramer::new().push(&wire, 1)[0].bytes, packet);
    assert_eq!(decode_slip(&[0xDB, 0x00]), Err(()));
    assert_eq!(decode_slip(&[0x01, 0xDB]), Err(()));
}

#[test]
fn test_cobs_basic() {
    let mut framer = CobsFramer::new();
    // Encoded "Hello"; the delimiter is 0x00
    let encoded = cobs::encode_vec(b"Hello");
    let mut input = encoded.clone();
    input.push(0x00);

    let frames = framer.push(&input, 100);
    assert_eq!(frames.len(), 1);
    assert_eq!(frames[0].bytes, b"Hello");
}

#[test]
fn test_cobs_partial() {
    let mut framer = CobsFramer::new();
    let encoded = cobs::encode_vec(b"World");

    // Push first part
    framer.push(&encoded[0..2], 100);

    // Push second part + delimiter
    let mut part2 = encoded[2..].to_vec();
    part2.push(0x00);

    let frames = framer.push(&part2, 200);
    assert_eq!(frames.len(), 1);
    assert_eq!(frames[0].bytes, b"World");
    // Timestamp should be start time
    assert_eq!(frames[0].timestamp_us, 100);
}

#[test]
fn cobs_chunks_do_not_matter() {
    let mut wire = Vec::new();
    for packet in [&b"one"[..], &[0, 0, 1][..], &[7; 300][..]] {
        wire.extend(cobs::encode_vec(packet));
        wire.push(0);
    }
    let whole: Vec<Vec<u8>> =
        CobsFramer::new().push(&wire, 5).into_iter().map(|f| f.bytes).collect();
    assert_eq!(whole, vec![b"one".to_vec(), vec![0, 0, 1], vec![7; 300]]);
    for cut in 0..wire.len() {
        let mut framer = CobsFramer::new();
        let mut frames = framer.push(&wire[..cut], 5);
        frames.extend(framer.push(&wire[cut..], 5));
        let bytes: Vec<Vec<u8>> = frames.into_iter().map(|f| f.bytes).collect();
        assert_eq!(bytes, whole);
    }
}

#[test]
fn a_packet_that_is_no_cobs_is_dropped() {
    let mut framer = CobsFramer::new();
    let frames = framer.push(&[0x09, 0x01, 0x00, 0x02, 0x41, 0x00], 3);
    assert_eq!(frames.len(), 1);
    assert_eq!(frames[0].bytes, b"A");
    assert_eq!(framer.name(), "COBS");
}

#[test]
fn a_packet_becomes_a_frame_by_its_decoding() {
    let mut frames = Vec::new();
    push_decoded(&mut frames, &vec![1], Some(vec![9]), 4);
    push_decoded(&mut frames, &vec![1], None, 5);
    push_decoded(&mut frames, &vec![], Some(vec![8]), 6);
    assert_eq!(frames.len(), 1);
    assert_eq!(frames[0].bytes, vec![9]);
    assert_eq!(frames[0].timestamp_us, 4);
}

#[test]
fn lines_of_a_stream_have_the_times_of_their_first_bytes() {
    let mut framer = LineFramer::new();
    let mut frames = Vec::new();
    let chunks: [(&[u8], u64); 6] =
        [(b"ab", 10), (b"", 20), (b"c\r\nd", 30), (b"\n", 40), (b"\n\ne", 50), (b"f", 60)];
    for (bytes, at) in chunks {
        frames.extend(framer.push(bytes, at));
    }
    let seen: Vec<(&[u8], u64)> =
        frames.iter().map(|f| (f.bytes.as_slice(), f.timestamp_us)).collect();
    let expected: Vec<(&[u8], u64)> =
        vec![(b"abc\r\n", 10), (b"d\n", 30), (b"\n", 50), (b"\n", 50)];
    assert_eq!(seen, expected);
    // What had begun comes with the newline
    let rest = framer.push(b"\n", 70);
    assert_eq!(rest.len(), 1);
    assert_eq!(rest[0].bytes, b"ef\n");
    assert_eq!(rest[0].timestamp_us, 50);
}

#[test]
fn slip_packets_of_a_stream_have_the_times_of_their_first_bytes() {
    let mut framer = SlipFramer::new();
    assert!(framer.push(&[0xC0, 1], 10).is_empty());
    assert!(framer.push(&[2], 20).is_empty());
    let frames = framer.push(&[0xC0, 3, 0xC0], 30);
    assert_eq!(frames.len(), 2);
    assert_eq!((frames[0].bytes.clone(), frames[0].timestamp_us), (vec![1, 2], 10));
    assert_eq!((frames[1].bytes.clone(), frames[1].timestamp_us), (vec![3], 30));
}
