use futureterm::decoders::hex::HexDecoder;
use futureterm::decoders::mavlink::{resync, MavlinkDecoder, MAX_BUFFER_SIZE};
use futureterm::decoders::nmea::{event_of_reading, NmeaDecoder, NmeaReading};
use futureterm::decoders::utf8::{event_of_text, Utf8Decoder};
use futureterm::float::{Double, Single};
use futureterm::types::{DecodedEvent, Decoder, Frame, Value};

#[test]
fn test_mavlink_heartbeat_parsing() {
    let mut decoder = MavlinkDecoder::new();
    let header = mavlink::MavHeader {
        system_id: 1,
        component_id: 1,
        sequence: 42,
    };
    let msg = mavlink::common::MavMessage::HEARTBEAT(mavlink::common::HEARTBEAT_DATA {
        custom_mode: 0,
        mavtype: mavlink::common::MavType::MAV_TYPE_QUADROTOR,
        autopilot: mavlink::common::MavAutopilot::MAV_AUTOPILOT_ARDUPILOTMEGA,
        base_mode: mavlink::common::MavModeFlag::MAV_MODE_FLAG_MANUAL_INPUT_ENABLED,
        system_status: mavlink::common::MavState::MAV_STATE_ACTIVE,
        mavlink_version: 3,
    });

    let mut writer = Vec::new();
    mavlink::write_v1_msg(&mut writer, header, &msg).expect("Write failed");

    let frame = Frame::new_rx(writer, 1000);
    let mut results = Vec::new();
    decoder.ingest(&frame, &mut results);

    assert!(!results.is_empty());
    let event = &results[0];
    assert_eq!(event.summary, "HEARTBEAT");
}

#[test]
fn test_mavlink_garbage_skipping() {
    let mut decoder = MavlinkDecoder::new();

    let header = mavlink::MavHeader {
        system_id: 1,
        component_id: 1,
        sequence: 42,
    };
    let msg = mavlink::common::MavMessage::HEARTBEAT(mavlink::common::HEARTBEAT_DATA {
        custom_mode: 0,
        mavtype: mavlink::common::MavType::MAV_TYPE_QUADROTOR,
        autopilot: mavlink::common::MavAutopilot::MAV_AUTOPILOT_ARDUPILOTMEGA,
        base_mode: mavlink::common::MavModeFlag::MAV_MODE_FLAG_MANUAL_INPUT_ENABLED,
        system_status: mavlink::common::MavState::MAV_STATE_ACTIVE,
        mavlink_version: 3,
    });

    let mut writer = Vec::new();
    mavlink::write_v1_msg(&mut writer, header, &msg).expect("Write failed");

    // Prepend garbage
    let mut data = vec![0x00, 0xFF, 0xAA, 0x55]; // Random junk
    data.extend_from_slice(&writer);
    data.push(0xFF); // Trailing junk

    let frame = Frame::new_rx(data, 2000);
    let mut results = Vec::new();

    // First ingest (should find packet after garbage)
    decoder.ingest(&frame, &mut results);

    assert_eq!(
        results.len(),
        1,
        "Should have found 1 packet despite garbage"
    );
    assert_eq!(results[0].summary, "HEARTBEAT");

    // Verify buffer is clean (trailing junk might remain or be consumed if not enough for
    // header) logic: invalid magic -> drain 1. 0xFF is invalid magic start (if not
    // FE/FD). 0xFF != FE/FD. Drains. Buffer empty.
}

#[test]
fn test_buffer_overflow_protection() {
    let mut decoder = MavlinkDecoder::new();
    // Fill buffer with junk beyond limit
    let huge_data = vec![0xFF; MAX_BUFFER_SIZE + 50]; // No valid magic
    let frame = Frame::new_rx(huge_data, 3000);
    let mut results = Vec::new();

    decoder.ingest(&frame, &mut results);

    // Should have cleared buffer
    assert!(
        decoder.buffer.len() < MAX_BUFFER_SIZE,
        "Buffer did not clear on overflow"
    );
    assert!(
        decoder.buffer.is_empty(),
        "Buffer should be empty after clear"
    );
}

#[test]
fn test_multi_packet_frame() {
    let mut decoder = MavlinkDecoder::new();

    // Create two identical valid packets
    let header = mavlink::MavHeader {
        system_id: 1,
        component_id: 1,
        sequence: 10,
    };
    let msg = mavlink::common::MavMessage::HEARTBEAT(mavlink::common::HEARTBEAT_DATA {
        custom_mode: 0,
        mavtype: mavlink::common::MavType::MAV_TYPE_GENERIC,
        autopilot: mavlink::common::MavAutopilot::MAV_AUTOPILOT_GENERIC,
        base_mode: mavlink::common::MavModeFlag::MAV_MODE_FLAG_MANUAL_INPUT_ENABLED,
        system_status: mavlink::common::MavState::MAV_STATE_STANDBY,
        mavlink_version: 3,
    });

    let mut writer = Vec::new();
    mavlink::write_v1_msg(&mut writer, header, &msg).expect("Write 1 failed");
    let mut second_packet = Vec::new();
    let header2 = mavlink::MavHeader {
        system_id: 1,
        component_id: 1,
        sequence: 11,
    };
    mavlink::write_v1_msg(&mut second_packet, header2, &msg).expect("Write 2 failed");

    writer.extend_from_slice(&second_packet);

    let frame = Frame::new_rx(writer, 4000);
    let mut results = Vec::new();

    decoder.ingest(&frame, &mut results);

    assert_eq!(results.len(), 2, "Should parse two packets");
    let seq1 = results[0]
        .fields
        .iter()
        .find(|(k, _)| k == "seq")
        .unwrap()
        .1
        .clone();
    let seq2 = results[1]
        .fields
        .iter()
        .find(|(k, _)| k == "seq")
        .unwrap()
        .1
        .clone();
    assert_eq!(seq1, Value::I64(10));
    assert_eq!(seq2, Value::I64(11));
}

#[test]
fn test_partial_packet_reception() {
    let mut decoder = MavlinkDecoder::new();

    // One valid packet
    let header = mavlink::MavHeader {
        system_id: 1,
        component_id: 1,
        sequence: 55,
    };
    let msg = mavlink::common::MavMessage::HEARTBEAT(mavlink::common::HEARTBEAT_DATA {
        custom_mode: 0,
        mavtype: mavlink::common::MavType::MAV_TYPE_GENERIC,
        autopilot: mavlink::common::MavAutopilot::MAV_AUTOPILOT_GENERIC,
        base_mode: mavlink::common::MavModeFlag::MAV_MODE_FLAG_MANUAL_INPUT_ENABLED,
        system_status: mavlink::common::MavState::MAV_STATE_STANDBY,
        mavlink_version: 3,
    });

    let mut packet_data = Vec::new();
    mavlink::write_v1_msg(&mut packet_data, header, &msg).expect("Write failed");

    // Split into two frames
    let split_point = packet_data.len() / 2;
    let (first_half, second_half) = packet_data.split_at(split_point);

    let mut results = Vec::new();

    // 1. Ingest first half
    let frame1 = Frame::new_rx(first_half.to_vec(), 5000);
    decoder.ingest(&frame1, &mut results);
    assert!(results.is_empty(), "Should not parse partial packet");
    assert_eq!(
        decoder.buffer.len(),
        first_half.len(),
        "First half should be buffered"
    );

    // 2. Ingest second half
    let frame2 = Frame::new_rx(second_half.to_vec(), 5001);
    decoder.ingest(&frame2, &mut results);

    assert_eq!(results.len(), 1, "Should parse reassembled packet");
    let seq = results[0]
        .fields
        .iter()
        .find(|(k, _)| k == "seq")
        .unwrap()
        .1
        .clone();
    assert_eq!(seq, Value::I64(55));
}

fn calculate_crc(data: &[u8]) -> u16 {
    let mut crc: u16 = 0xffff;
    for byte in data {
        let mut tmp = *byte as u16 ^ (crc & 0xff);
        tmp = (tmp ^ (tmp << 4)) & 0xff;
        crc = (crc >> 8) ^ (tmp << 8) ^ (tmp << 3) ^ (tmp >> 4);
    }
    crc
}

#[test]
fn test_mavlink_v2_with_signature_manual_crc() {
    let mut decoder = MavlinkDecoder::new();

    // Construct v2 packet
    let header = mavlink::MavHeader {
        system_id: 1,
        component_id: 1,
        sequence: 99,
    };
    let msg = mavlink::common::MavMessage::HEARTBEAT(mavlink::common::HEARTBEAT_DATA {
        custom_mode: 0,
        mavtype: mavlink::common::MavType::MAV_TYPE_GENERIC,
        autopilot: mavlink::common::MavAutopilot::MAV_AUTOPILOT_GENERIC,
        base_mode: mavlink::common::MavModeFlag::MAV_MODE_FLAG_MANUAL_INPUT_ENABLED,
        system_status: mavlink::common::MavState::MAV_STATE_STANDBY,
        mavlink_version: 3,
    });

    let mut writer = Vec::new();
    mavlink::write_v2_msg(&mut writer, header, &msg).expect("Write v2 failed");

    // Set INCOMPAT_FLAGS_SIGNED (byte 2)
    writer[2] |= 0x01;

    // Recalculate CRC
    // V2 CRC excludes magic (byte 0).
    // Range: 1..writer.len()-2 (exclude existing CRC)
    // Add CRC_EXTRA for HEARTBEAT (50)
    let mut crc_data = writer[1..writer.len() - 2].to_vec();
    crc_data.push(50); // CRC_EXTRA for HEARTBEAT

    let new_crc = calculate_crc(&crc_data);
    let len = writer.len();
    writer[len - 2] = (new_crc & 0xFF) as u8;
    writer[len - 1] = ((new_crc >> 8) & 0xFF) as u8;

    // Append 13 dummy signature bytes
    writer.extend_from_slice(&[0x00; 13]);

    let frame = Frame::new_rx(writer, 6000);
    let mut results = Vec::new();

    decoder.ingest(&frame, &mut results);

    assert_eq!(results.len(), 1, "Should parse signed v2 packet");
    let version = results[0]
        .fields
        .iter()
        .find(|(k, _)| k == "version")
        .unwrap()
        .1
        .clone();
    assert_eq!(version, Value::String("v2".to_string()));
}

#[test]
fn test_high_frequency_stream_stress() {
    let mut decoder = MavlinkDecoder::new();
    // Generate a single valid packet
    let header = mavlink::MavHeader {
        system_id: 1,
        component_id: 1,
        sequence: 0,
    };
    let msg = mavlink::common::MavMessage::HEARTBEAT(mavlink::common::HEARTBEAT_DATA {
        custom_mode: 0,
        mavtype: mavlink::common::MavType::MAV_TYPE_GENERIC,
        autopilot: mavlink::common::MavAutopilot::MAV_AUTOPILOT_GENERIC,
        base_mode: mavlink::common::MavModeFlag::MAV_MODE_FLAG_MANUAL_INPUT_ENABLED,
        system_status: mavlink::common::MavState::MAV_STATE_STANDBY,
        mavlink_version: 3,
    });

    let mut packet = Vec::new();
    mavlink::write_v1_msg(&mut packet, header, &msg).expect("Write failed");

    // Create a massive buffer with 10,000 packets

    let count = 10_000;
    let mut big_stream = Vec::with_capacity(packet.len() * count);
    for _ in 0..count {
        big_stream.extend_from_slice(&packet);
    }

    let mut results = Vec::new();

    // Chunk size must be < MAX_BUFFER_SIZE to avoid safety cap
    // 1024 is the cap. Let's use 512 byte chunks.
    for chunk in big_stream.chunks(512) {
        let frame = Frame::new_rx(chunk.to_vec(), 0);
        decoder.ingest(&frame, &mut results);
    }

    assert_eq!(
        results.len(),
        count,
        "Should process all high-freq packets without dropping"
    );
}

fn heartbeat_header(sequence: u8) -> mavlink::MavHeader {
    mavlink::MavHeader { system_id: 3, component_id: 4, sequence }
}

fn packet(msg: &mavlink::common::MavMessage, sequence: u8) -> Vec<u8> {
    let mut out = Vec::new();
    mavlink::write_v2_msg(&mut out, heartbeat_header(sequence), msg).expect("Write failed");
    out
}

fn only_event(bytes: Vec<u8>) -> DecodedEvent {
    let mut results = Vec::new();
    MavlinkDecoder::new().ingest(&Frame::new_rx(bytes, 42), &mut results);
    assert_eq!(results.len(), 1);
    results.remove(0)
}

fn double(value: f64) -> Value {
    Value::F64(Double { bits: value.to_bits() })
}

#[test]
fn a_packet_keeps_its_header() {
    let msg = mavlink::common::MavMessage::HEARTBEAT(mavlink::common::HEARTBEAT_DATA {
        custom_mode: 0,
        mavtype: mavlink::common::MavType::MAV_TYPE_QUADROTOR,
        autopilot: mavlink::common::MavAutopilot::MAV_AUTOPILOT_ARDUPILOTMEGA,
        base_mode: mavlink::common::MavModeFlag::MAV_MODE_FLAG_MANUAL_INPUT_ENABLED,
        system_status: mavlink::common::MavState::MAV_STATE_ACTIVE,
        mavlink_version: 3,
    });
    let event = only_event(packet(&msg, 17));
    assert_eq!(event.protocol, "MAVLink");
    assert_eq!(event.timestamp_us, 42);
    assert_eq!(event.get_field("sys_id"), Some(&Value::I64(3)));
    assert_eq!(event.get_field("comp_id"), Some(&Value::I64(4)));
    assert_eq!(event.get_field("seq"), Some(&Value::I64(17)));
    assert_eq!(event.get_field("version"), Some(&Value::String("v2".into())));
}

#[test]
fn an_attitude_is_shown() {
    let mut data = mavlink::common::ATTITUDE_DATA::default();
    data.roll = 0.1;
    data.pitch = -2.5;
    data.yaw = 3.25;
    let event = only_event(packet(&mavlink::common::MavMessage::ATTITUDE(data), 1));
    assert_eq!(event.summary, "ATTITUDE");
    assert_eq!(event.get_field("roll"), Some(&double(0.1f32 as f64)));
    assert_eq!(event.get_field("pitch"), Some(&double(-2.5)));
    assert_eq!(event.get_field("yaw"), Some(&double(3.25)));
}

#[test]
fn a_position_is_shown_in_degrees_and_metres() {
    let mut data = mavlink::common::GLOBAL_POSITION_INT_DATA::default();
    data.lat = 473977418;
    data.lon = -1224194155;
    data.alt = 488123;
    data.relative_alt = -7;
    let event = only_event(packet(&mavlink::common::MavMessage::GLOBAL_POSITION_INT(data), 1));
    assert_eq!(event.get_field("lat"), Some(&double(473977418.0 / 1e7)));
    assert_eq!(event.get_field("lon"), Some(&double(-1224194155.0 / 1e7)));
    assert_eq!(event.get_field("alt"), Some(&double(488.123)));
    assert_eq!(event.get_field("relative_alt"), Some(&double(-0.007)));
}

#[test]
fn a_gps_fix_is_shown() {
    let mut data = mavlink::common::GPS_RAW_INT_DATA::default();
    data.fix_type = mavlink::common::GpsFixType::GPS_FIX_TYPE_3D_FIX;
    data.lat = 1;
    data.lon = 2;
    data.alt = 3;
    data.satellites_visible = 11;
    let event = only_event(packet(&mavlink::common::MavMessage::GPS_RAW_INT(data), 1));
    assert_eq!(
        event.get_field("fix_type"),
        Some(&Value::String("GPS_FIX_TYPE_3D_FIX".into()))
    );
    assert_eq!(event.get_field("lat"), Some(&double(1e-7)));
    assert_eq!(event.get_field("alt"), Some(&double(0.003)));
    assert_eq!(event.get_field("satellites_visible"), Some(&Value::I64(11)));
}

#[test]
fn a_system_status_is_shown() {
    let mut data = mavlink::common::SYS_STATUS_DATA::default();
    data.voltage_battery = 12600;
    data.current_battery = -150;
    data.battery_remaining = 87;
    data.load = 333;
    let event = only_event(packet(&mavlink::common::MavMessage::SYS_STATUS(data), 1));
    assert_eq!(event.get_field("voltage_battery"), Some(&double(12.6)));
    assert_eq!(event.get_field("current_battery"), Some(&Value::I64(-150)));
    assert_eq!(event.get_field("battery_remaining"), Some(&Value::I64(87)));
    assert_eq!(event.get_field("load"), Some(&double(33.3)));
}

#[test]
fn a_heartbeat_is_shown() {
    let mut data = mavlink::common::HEARTBEAT_DATA::default();
    data.mavtype = mavlink::common::MavType::MAV_TYPE_QUADROTOR;
    data.autopilot = mavlink::common::MavAutopilot::MAV_AUTOPILOT_PX4;
    data.system_status = mavlink::common::MavState::MAV_STATE_ACTIVE;
    data.mavlink_version = 3;
    let event = only_event(packet(&mavlink::common::MavMessage::HEARTBEAT(data.clone()), 1));
    assert_eq!(event.get_field("type"), Some(&Value::String("MAV_TYPE_QUADROTOR".into())));
    assert_eq!(event.get_field("autopilot"), Some(&Value::String("MAV_AUTOPILOT_PX4".into())));
    assert_eq!(
        event.get_field("base_mode"),
        Some(&Value::String(format!("{:?}", data.base_mode)))
    );
    assert_eq!(
        event.get_field("system_status"),
        Some(&Value::String("MAV_STATE_ACTIVE".into()))
    );
    assert_eq!(event.get_field("mavlink_version"), Some(&Value::I64(3)));
}

#[test]
fn a_damaged_packet_makes_no_event() {
    let data = mavlink::common::HEARTBEAT_DATA::default();
    let mut bytes = packet(&mavlink::common::MavMessage::HEARTBEAT(data.clone()), 1);
    let n = bytes.len();
    bytes[n - 1] ^= 0x55;
    bytes.extend(packet(&mavlink::common::MavMessage::HEARTBEAT(data), 2));
    let event = only_event(bytes);
    assert_eq!(event.get_field("seq"), Some(&Value::I64(2)));
}

#[test]
fn resync_goes_to_the_next_magic_byte() {
    assert_eq!(resync(&[0xFE, 1, 2, 0xFD, 0xFE]), 3);
    assert_eq!(resync(&[0xFE, 1, 2]), 3);
    assert_eq!(resync(&[0xFE, 0xFE]), 1);
}

#[test]
fn test_nmea_decoder_gga() {
    let mut decoder = NmeaDecoder::new();
    // Standard GPGGA example with checksum
    let raw = b"$GPGGA,092750.000,5321.6802,N,00630.3372,W,1,8,1.03,61.7,M,55.2,M,,*76\r\n";
    let frame = Frame::new_rx(raw.to_vec(), 1000);

    let event = decoder.ingest(&frame).expect("Should parse GPGGA");

    assert_eq!(event.protocol, "NMEA");
    assert!(event.fields.iter().any(|(k, _)| k == "latitude"));
    assert!(event.fields.iter().any(|(k, _)| k == "longitude"));
}

#[test]
fn a_position_sentence_is_shown() {
    let raw = b"$GPGGA,092750.000,5321.6802,N,00630.3372,W,1,8,1.03,61.7,M,55.2,M,,*76\r\n";
    let event = NmeaDecoder::new().ingest(&Frame::new_rx(raw.to_vec(), 1000)).unwrap();
    match event.get_field("latitude") {
        Some(Value::F64(d)) => {
            assert!((f64::from_bits(d.bits) - (53.0 + 21.6802 / 60.0)).abs() < 1e-6)
        }
        _ => panic!("no latitude"),
    }
    match event.get_field("longitude") {
        Some(Value::F64(d)) => {
            assert!((f64::from_bits(d.bits) + (6.0 + 30.3372 / 60.0)).abs() < 1e-6)
        }
        _ => panic!("no longitude"),
    }
    match event.get_field("altitude") {
        Some(Value::F64(d)) => assert_eq!(f64::from_bits(d.bits), 61.7f32 as f64),
        _ => panic!("no altitude"),
    }
}

#[test]
fn a_reading_becomes_an_event() {
    let reading = NmeaReading {
        sentence_type: "GGA".into(),
        latitude: Some(Double { bits: 1.5f64.to_bits() }),
        longitude: Some(Double { bits: (-3.0f64).to_bits() }),
        altitude: Some(Single { bits: 2.5f32.to_bits() }),
    };
    let event = event_of_reading(9, &reading);
    assert_eq!(event.timestamp_us, 9);
    assert_eq!(event.get_field("latitude"), Some(&double(1.5)));
    assert_eq!(event.get_field("longitude"), Some(&double(-3.0)));
    assert_eq!(event.get_field("altitude"), Some(&double(2.5)));

    // What was not read is not shown
    let half = NmeaReading { sentence_type: "GGA".into(), longitude: None, ..reading };
    let event = event_of_reading(9, &half);
    assert_eq!(event.get_field("latitude"), Some(&double(1.5)));
    assert_eq!(event.get_field("longitude"), None);

    // Other sentences show their type alone
    let other = NmeaReading { sentence_type: "RMC".into(), ..half };
    let event = event_of_reading(9, &other);
    assert_eq!(event.summary, "RMC");
    assert_eq!(event.fields.len(), 1);
    assert_eq!(event.get_field("latitude"), None);
}

#[test]
fn test_nmea_invalid() {
    let mut decoder = NmeaDecoder::new();
    let frame = Frame::new_rx(b"$GPGGA,BadChecksum*FF\r\n".to_vec(), 1000);
    let event = decoder.ingest(&frame);
    assert!(event.is_none());
}

#[test]
fn bytes_that_are_no_text_are_no_sentence() {
    let frame = Frame::new_rx(vec![0x24, 0xFF, 0xFE], 1000);
    assert!(NmeaDecoder::new().ingest(&frame).is_none());
    let mut output = DecodedEvent::new(1, "P", "S");
    assert!(!NmeaDecoder::new().ingest_into(&frame, &mut output));
    assert_eq!(output.protocol, "P");
}

#[test]
fn test_hex_decoder() {
    let mut decoder = HexDecoder::new();
    let frame = Frame::new_rx(vec![0x41, 0x42, 0x00, 0xFF], 1000);

    let mut results = Vec::new();
    decoder.ingest(&frame, &mut results);
    let event = results.first().expect("Hex decoder always succeeds");

    assert_eq!(event.protocol, "Hex");

    match event.get_field("hex") {
        Some(Value::String(s)) => assert_eq!(s, "41 42 00 FF"),
        _ => panic!("Expected hex string field"),
    }

    match event.get_field("ascii") {
        Some(Value::String(s)) => assert_eq!(s, "AB.."),
        _ => panic!("Expected ascii string field"),
    }

    match event.get_field("len") {
        Some(Value::I64(v)) => assert_eq!(*v, 4),
        _ => panic!("Expected len integer field"),
    }
}

#[test]
fn test_hex_decoder_empty() {
    let mut decoder = HexDecoder::new();
    let frame = Frame::new_rx(vec![], 1000);

    let mut results = Vec::new();
    decoder.ingest(&frame, &mut results);
    let event = results.first().expect("Hex decoder always succeeds");

    match event.get_field("len") {
        Some(Value::I64(v)) => assert_eq!(*v, 0),
        _ => panic!("Expected len integer field"),
    }
}

#[test]
fn test_hex_decoder_long_truncation() {
    let mut decoder = HexDecoder::new();
    // Create a long frame (> 50 chars in hex representation)
    let frame = Frame::new_rx(vec![0xAA; 50], 1000);

    let mut results = Vec::new();
    decoder.ingest(&frame, &mut results);
    let event = results.first().expect("Hex decoder always succeeds");

    // Summary should be truncated
    assert!(event.summary.ends_with("..."));
    assert!(event.summary.len() <= 50);
}

#[test]
fn test_hex_decoder_all_printable() {
    let mut decoder = HexDecoder::new();
    let frame = Frame::new_rx(b"Hello".to_vec(), 1000);

    let mut results = Vec::new();
    decoder.ingest(&frame, &mut results);
    let event = results.first().expect("Hex decoder always succeeds");

    match event.get_field("ascii") {
        Some(Value::String(s)) => assert_eq!(s, "Hello"),
        _ => panic!("Expected ascii string field"),
    }
}

#[test]
fn test_utf8_decoder() {
    let mut decoder = Utf8Decoder::new();
    let bytes = vec![0x48, 0x65, 0x6C, 0x6C, 0x6F]; // "Hello"
    let frame = Frame::new_rx(bytes, 1000);

    let event = decoder.ingest(&frame).expect("Utf8 decoder always succeeds");

    assert_eq!(event.protocol, "UTF-8");
    assert_eq!(event.summary, "Hello");
}

#[test]
fn test_utf8_ansi() {
    let mut decoder = Utf8Decoder::new();
    // ESC [ 31 m (Red)
    let bytes = vec![0x1B, 0x5B, 0x33, 0x31, 0x6D];
    let frame = Frame::new_rx(bytes, 2000);

    let event = decoder.ingest(&frame).expect("Succeeds");
    assert_eq!(event.summary, "\x1B[31m");
}

#[test]
fn bytes_that_are_no_text_are_replaced() {
    let event = Utf8Decoder::new().ingest(&Frame::new_rx(vec![0x41, 0xFF], 1)).unwrap();
    assert_eq!(event.summary, "A\u{FFFD}");
    assert_eq!(event_of_text(7, "x").timestamp_us, 7);
}

#[test]
fn decoders_have_names() {
    assert_eq!(Decoder::id(&HexDecoder::new()), "hex");
    assert_eq!(Decoder::name(&HexDecoder::new()), "Hex Inspector");
    assert_eq!(Decoder::id(&MavlinkDecoder::new()), "mavlink");
    assert_eq!(Decoder::name(&MavlinkDecoder::new()), "MAVLink v1/v2");
    assert_eq!(Decoder::name(&NmeaDecoder::new()), "NMEA 0183");
}
