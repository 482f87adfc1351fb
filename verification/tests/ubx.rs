use fc_core::gps::gps_config::GpsProvider;
use fc_core::gps::gps_data::GpsData;
use fc_core::gps::gps_parser::{GpsParser, GpsParserEvent};
use fc_core::gps::nmea_parser::NmeaParser;
use fc_core::gps::ubx::ubx_ack_ack::UbxAckAck;
use fc_core::gps::ubx::ubx_ack_nak::UbxAckNak;
use fc_core::gps::ubx::ubx_cfg_navx5::UbxCfgNavX5;
use fc_core::gps::ubx::ubx_cfg_sbas::UbxCfgSbas;
use fc_core::gps::ubx::ubx_ids::UbxClassId as UbxIdsClassId;
use fc_core::gps::ubx::ubx_mon_ver::UbxMonVer;
use fc_core::gps::ubx::ubx_nav_dop::UbxNavDop;
use fc_core::gps::ubx::ubx_nav_posllh::UbxNavPosLlh as UbxNavPosLlhFrame;
use fc_core::gps::ubx_cfg_msg::{UbxCfgMsgPoll, UbxCfgMsgSet};
use fc_core::gps::ubx_cfg_nav5::UbxCfgNav5;
use fc_core::gps::ublox_parser::UbloxParser;
use fc_core::gps::ubx_nav_posllh::UbxNavPosLlh;
use fc_core::gps::ubx_nav_pvt::{make_realistic_nav_pvt_payload, UbxNavPvt};
use fc_core::gps::ubx_nav_status::UbxNavStatus;
use fc_core::gps::ubx_nav_velned::UbxNavVelNed;
use fc_core::gps::ubx_parser::{Parse, UbxClassId, UbxMessage, UbxParser};

fn is_full<T: Sized + Send + Sync + Unpin + Copy + Clone + Default + PartialEq>() {}

fn make_ubx_frame(class: u8, id: u8, payload: &[u8]) -> Vec<u8> {
    let payload_len = (payload.len() as u16).to_le_bytes();
    let mut frame = Vec::with_capacity(8 + payload.len());
    frame.extend_from_slice(&[0xB5, 0x62, class, id]);
    frame.extend_from_slice(&payload_len);
    frame.extend_from_slice(payload);
    let mut ck_a = 0u8;
    let mut ck_b = 0u8;
    // Checksum covers class, ID, length and payload.
    for &byte in &frame[2..] {
        ck_a = ck_a.wrapping_add(byte);
        ck_b = ck_b.wrapping_add(ck_a);
    }
    frame.extend_from_slice(&[ck_a, ck_b]);
    frame
}

/// Feeds a frame and returns (class byte, id, payload) of the first message it completes.
fn receive(frame: &[u8]) -> Option<(u8, u8, Vec<u8>)> {
    let mut parser = UbxParser::new();
    for &byte in frame {
        if let Some(message) = parser.on_data_received(byte) {
            return Some((message.class.value(), message.id, message.payload.to_vec()));
        }
    }
    None
}

#[test]
fn valid_empty_message_is_received() {
    let frame = [
        0xB5, 0x62, // sync
        0x01, 0x07, // NAV-PVT
        0x00, 0x00, // zero-length payload
        0x08, 0x19, // checksum
    ];
    let mut parser = UbxParser::new();
    let mut result = None;
    for byte in frame {
        result = parser.on_data_received(byte);
    }
    assert_eq!(result, Some(UbxMessage { class: UbxClassId::Nav, id: 0x07, payload: &[] }));
}

#[test]
fn valid_message_with_payload_is_received() {
    let frame = [0xB5, 0x62, 0x01, 0x02, 0x03, 0x00, 0x11, 0x22, 0x33, 0x6C, 0xCC];
    let mut parser = UbxParser::new();
    let mut result = None;
    for byte in frame {
        assert!(result.is_none());
        result = parser.on_data_received(byte);
    }
    assert_eq!(result, Some(UbxMessage { class: UbxClassId::Nav, id: 0x02, payload: &[0x11, 0x22, 0x33] }));
}

#[test]
fn ubx_parser_invalid_checksum_is_rejected() {
    let frame = [
        0xB5, 0x62, 0x01, 0x02, 0x03, 0x00, 0x11, 0x22, 0x33, 0x6C, 0xCD, // CK_B deliberately wrong
    ];
    let mut parser = UbxParser::new();
    let mut result = None;
    for byte in frame {
        result = parser.on_data_received(byte);
    }
    assert_eq!(result, None);
}

#[test]
fn parser_recovers_after_invalid_checksum() {
    let bad_frame = [0xB5, 0x62, 0x01, 0x02, 0x03, 0x00, 0x11, 0x22, 0x33, 0x6C, 0xCD];
    let good_frame = [0xB5, 0x62, 0x01, 0x02, 0x03, 0x00, 0x11, 0x22, 0x33, 0x6C, 0xCC];
    let mut parser = UbxParser::new();
    for byte in bad_frame {
        assert!(parser.on_data_received(byte).is_none());
    }
    let mut result = None;
    for byte in good_frame {
        result = parser.on_data_received(byte);
    }
    assert_eq!(result, Some(UbxMessage { class: UbxClassId::Nav, id: 0x02, payload: &[0x11, 0x22, 0x33] }));
}

#[test]
fn oversized_payload_is_rejected() {
    let payload_length = UbxParser::MAX_PAYLOAD_SIZE + 1;
    let length_bytes = payload_length.to_le_bytes();
    let frame = [0xB5, 0x62, 0x01, 0x02, length_bytes[0], length_bytes[1]];
    let mut parser = UbxParser::new();
    for byte in frame {
        assert!(parser.on_data_received(byte).is_none());
    }
}

#[test]
fn oversized_payload_is_rejected_and_parser_recovers() {
    let length_bytes = (UbxParser::MAX_PAYLOAD_SIZE as u16 + 1).to_le_bytes();
    let oversized_frame_start = [0xB5, 0x62, 0x01, 0x02, length_bytes[0], length_bytes[1]];
    let good_frame = [0xB5, 0x62, 0x01, 0x02, 0x03, 0x00, 0x11, 0x22, 0x33, 0x6C, 0xCC];
    let mut parser = UbxParser::new();
    for byte in oversized_frame_start {
        assert!(parser.on_data_received(byte).is_none());
    }
    let mut result = None;
    for byte in good_frame {
        result = parser.on_data_received(byte);
    }
    assert_eq!(result, Some(UbxMessage { class: UbxClassId::Nav, id: 0x02, payload: &[0x11, 0x22, 0x33] }));
}

#[test]
fn ubx_ack_ack_normal_types() {
    is_full::<UbxAckAck>();
}

#[test]
fn ubx_ack_nak_normal_types() {
    is_full::<UbxAckNak>();
}

#[test]
fn ubx_cfg_navx5_normal_types() {
    is_full::<UbxCfgNavX5>();
}

#[test]
fn ubx_cfg_sbas_normal_types() {
    is_full::<UbxCfgSbas>();
}

#[test]
fn ubx_mon_ver_normal_types() {
    is_full::<UbxMonVer>();
}

#[test]
fn ubx_nav_dop_normal_types() {
    is_full::<UbxNavDop>();
}

#[test]
fn ubx_nav_posllh_normal_types() {
    is_full::<UbxNavPosLlh>();
}

#[test]
fn ubx_frame_nav_posllh_normal_types() {
    is_full::<UbxNavPosLlhFrame>();
}

#[test]
fn ubx_cfg_msg_normal_types() {
    is_full::<UbxCfgMsgPoll>();
}

#[test]
fn ubx_cfg_nav5_normal_types() {
    is_full::<UbxCfgNav5>();
}

#[test]
fn ubx_nav_pvt_normal_types() {
    is_full::<UbxNavPvt>();
}

#[test]
fn ubx_nav_status_normal_types() {
    is_full::<UbxNavStatus>();
}

#[test]
fn ubx_nav_velned_normal_types() {
    is_full::<UbxNavVelNed>();
}

#[test]
fn parse_nav_pvt_extracts_itow() {
    let mut payload = [0u8; UbxNavPvt::PAYLOAD_LEN];
    let itow = 123_456_789u32;
    payload[0..4].copy_from_slice(&itow.to_le_bytes());
    let result = UbxNavPvt::parse(&payload).expect("NAV-PVT should parse");
    assert_eq!(result.time_of_week_ms, itow);
}

#[test]
fn parse_nav_pvt_rejects_wrong_payload_length() {
    let payload = [0u8; 91];
    assert_eq!(UbxNavPvt::parse(&payload), None);
}

#[test]
fn parse_nav_pvt_extracts_status_and_accuracy() {
    let mut payload = [0u8; UbxNavPvt::PAYLOAD_LEN];
    payload[11] = 0x07;
    payload[12..16].copy_from_slice(&123_456u32.to_le_bytes());
    let nano = -123_456_789i32;
    payload[16..20].copy_from_slice(&nano.to_le_bytes());
    payload[20] = 3; // 3D fix
    payload[21] = 0x05; // example flags
    payload[22] = 0x02; // example flags2
    payload[23] = 12; // satellites
    let result = UbxNavPvt::parse(&payload).expect("NAV-PVT should parse");
    assert_eq!(result.valid, 0x07);
    assert_eq!(result.time_accuracy_ns, 123_456);
    assert_eq!(result.nano, -123_456_789);
    assert_eq!(result.fix_type, 3);
    assert_eq!(result.flags, 0x05);
    assert_eq!(result.flags2, 0x02);
    assert_eq!(result.satellite_count, 12);
}

#[test]
fn parse_nav_pvt_extracts_position() {
    let mut payload = [0u8; UbxNavPvt::PAYLOAD_LEN];
    let longitude = -1_234_567i32;
    let latitude = 51_234_567i32;
    let height_ellipsoid = -12_345i32;
    let height_msl = 10_000i32;
    payload[24..28].copy_from_slice(&longitude.to_le_bytes());
    payload[28..32].copy_from_slice(&latitude.to_le_bytes());
    payload[32..36].copy_from_slice(&height_ellipsoid.to_le_bytes());
    payload[36..40].copy_from_slice(&height_msl.to_le_bytes());
    let horizontal_accuracy = 1_234u32;
    let vertical_accuracy = 2_345u32;
    payload[40..44].copy_from_slice(&horizontal_accuracy.to_le_bytes());
    payload[44..48].copy_from_slice(&vertical_accuracy.to_le_bytes());
    let result = UbxNavPvt::parse(&payload).expect("NAV-PVT should parse");
    assert_eq!(result.longitude_degrees_x1e7, longitude);
    assert_eq!(result.latitude_degrees_x1e7, latitude);
    assert_eq!(result.height_ellipsoid_mm, height_ellipsoid);
    assert_eq!(result.height_msl_mm, height_msl);
    assert_eq!(result.horizontal_accuracy_mm, horizontal_accuracy);
    assert_eq!(result.vertical_accuracy_mm, vertical_accuracy);
}

#[test]
fn parse_nav_pvt_extracts_velocity_and_heading() {
    let mut payload = [0u8; UbxNavPvt::PAYLOAD_LEN];
    let velocity_north = 12_345i32;
    let velocity_east = -6_789i32;
    let velocity_down = 1_234i32;
    let ground_speed = 13_579i32;
    let heading = 123_456_789u32;
    payload[48..52].copy_from_slice(&velocity_north.to_le_bytes());
    payload[52..56].copy_from_slice(&velocity_east.to_le_bytes());
    payload[56..60].copy_from_slice(&velocity_down.to_le_bytes());
    payload[60..64].copy_from_slice(&ground_speed.to_le_bytes());
    payload[64..68].copy_from_slice(&heading.to_le_bytes());
    let result = UbxNavPvt::parse(&payload).expect("NAV-PVT should parse");
    assert_eq!(result.velocity_north_mmps, velocity_north);
    assert_eq!(result.velocity_east_mmps, velocity_east);
    assert_eq!(result.velocity_down_mmps, velocity_down);
    assert_eq!(result.ground_speed_mmps, ground_speed);
    assert_eq!(result.heading_degrees_x1e5, heading);
}

#[test]
fn realistic_nav_pvt_frame_produces_gps_data() {
    let payload = make_realistic_nav_pvt_payload();
    let frame = make_ubx_frame(0x01, 0x07, &payload);
    let mut parser = UbxParser::new();
    let mut gps = GpsData::default();
    for byte in frame {
        if let Some(message) = parser.on_data_received(byte) {
            assert_eq!(message.class.value(), 0x01);
            assert_eq!(message.id, 0x07);
            let nav = UbxNavPvt::parse(message.payload).expect("NAV-PVT payload should parse");
            gps.amend_with_ubx_nav_pvt(nav);
            break;
        }
    }
    assert_eq!(gps.time_of_week_ms, 45_296_789);
    assert_eq!(gps.longitude_degrees_x1e7, -12_345_678);
    assert_eq!(gps.latitude_degrees_x1e7, 512_345_678);
    assert_eq!(gps.altitude_cm, 10_000);
    assert_eq!(gps.geoid_separation_cm, 2_345);
    assert_eq!(gps.satellite_count, 12);
    assert_eq!(gps.fix, 3);
    assert_eq!(gps.is_healthy, 1);
    assert_eq!(gps.velocity_north_cmps, 123);
    assert_eq!(gps.velocity_east_cmps, -45);
    assert_eq!(gps.velocity_down_cmps, 12);
    assert_eq!(gps.ground_speed_cmps, 131);
    assert_eq!(gps.heading_deci_degrees, 1_234);
}

#[test]
fn gps_parser_normal_types() {
    is_full::<GpsParser>();
}

#[test]
fn ubx_parser_produces_ubx_message_event() {
    let payload = [0x11, 0x22, 0x33];
    let frame = make_ubx_frame(0x01, 0x02, &payload);
    let mut parser = GpsParser::Ubx(UbxParser::new());
    for byte in frame {
        if let Some(event) = parser.on_data_received(byte) {
            match event {
                GpsParserEvent::UbxMessage(message) => {
                    assert_eq!(message.class.value(), 0x01);
                    assert_eq!(message.id, 0x02);
                    assert_eq!(message.payload, &payload);
                }
                GpsParserEvent::NmeaComplete(_) => {
                    panic!("expected UBX message event");
                }
            }
            return;
        }
    }
    panic!("expected UBX message event");
}

#[test]
fn nmea_parser_produces_nmea_complete_event() {
    let record = b"$GPGGA,123519,4807.038,N,01131.000,E,1,08,0.9,545.4,M,46.9,M,,*47\r\n";
    let mut parser = GpsParser::Nmea(NmeaParser::new());
    for &byte in record {
        if let Some(event) = parser.on_data_received(byte) {
            match event {
                GpsParserEvent::NmeaComplete(payload) => {
                    assert_eq!(payload, b"GPGGA,123519,4807.038,N,01131.000,E,1,08,0.9,545.4,M,46.9,M,,");
                }
                GpsParserEvent::UbxMessage(_) => {
                    panic!("expected NMEA complete event");
                }
            }
            return;
        }
    }
    panic!("expected NMEA complete event");
}

// Checks of the library's own beyond the scenarios above.

#[test]
fn little_endian_readers() {
    assert_eq!(Parse::try_read_u32(&[0x78, 0x56, 0x34, 0x12, 0xff]), Some(0x1234_5678));
    assert_eq!(Parse::try_read_u32(&[1, 2, 3]), None);
    assert_eq!(Parse::try_read_i32(&[0xff, 0xff, 0xff, 0xff]), Some(-1));
    assert_eq!(Parse::try_read_i32(&[0x00, 0x00, 0x00, 0x80]), Some(i32::MIN));
    assert_eq!(Parse::try_read_u16(&[0x34, 0x12]), Some(0x1234));
    assert_eq!(Parse::try_read_u16(&[0x34]), None);
    assert_eq!(Parse::try_read_i16(&[0x00, 0x80]), Some(i16::MIN));
    assert_eq!(Parse::try_read_i16(&[0xfe, 0xff]), Some(-2));
}

#[test]
fn class_ids_map_bytes() {
    assert_eq!(UbxClassId::from_u8(0x0a), UbxClassId::Mon);
    assert_eq!(UbxClassId::from_u8(0x03), UbxClassId::Unknown);
    assert_eq!(UbxClassId::Unknown.value(), 0xff);
    assert_eq!(UbxIdsClassId::try_from_u8(0x28), Some(UbxIdsClassId::Hnr));
    assert_eq!(UbxIdsClassId::try_from_u8(0xf0), None);
    assert_eq!(UbxIdsClassId::Nmea.value(), 0xf0);
    let m = UbxMessage::new_from_u8_class(0x05, 0x01, &[1, 2]);
    assert_eq!(m.class, UbxClassId::Ack);
}

#[test]
fn repeated_first_sync_byte_still_starts_a_frame() {
    let mut frame = vec![0xB5];
    frame.extend(make_ubx_frame(0x01, 0x02, &[0x11, 0x22, 0x33]));
    assert_eq!(receive(&frame), Some((0x01, 0x02, vec![0x11, 0x22, 0x33])));
}

#[test]
fn largest_payload_is_received() {
    let payload: Vec<u8> = (0..=255u8).collect();
    let frame = make_ubx_frame(0x0a, 0x04, &payload);
    assert_eq!(receive(&frame), Some((0x0a, 0x04, payload)));
}

#[test]
fn made_frames_are_received_with_their_payload() {
    let poll = UbxCfgMsgPoll { class: 0xf0, id: 0x05 };
    assert_eq!(poll.make_payload(), [0xf0, 0x05]);
    assert_eq!(receive(&poll.make_frame()), Some((0x06, 0x01, vec![0xf0, 0x05])));
    assert_eq!(poll.make_frame().to_vec(), make_ubx_frame(0x06, 0x01, &[0xf0, 0x05]));

    let set = UbxCfgMsgSet { class: 0xf0, id: 0x00, rate: 1 };
    assert_eq!(receive(&set.make_frame()), Some((0x06, 0x01, vec![0xf0, 0x00, 0x01])));

    let sbas = UbxCfgSbas { mode: 1, usage: 3, max_sbas: 3, scanmode2: 0, scanmode1: 0x0004_0000 };
    let received = receive(&sbas.make_frame()).expect("frame should be received");
    assert_eq!(received.0, 0x06);
    assert_eq!(UbxCfgSbas::parse(&received.2), Some(sbas));

    let posllh = UbxNavPosLlhFrame {
        time_of_week_ms: 1000,
        longitude_degrees_x1e7: -12_345_678,
        latitude_degrees_x1e7: 512_345_678,
        height_mm: -5,
    };
    let received = receive(&posllh.make_frame()).expect("frame should be received");
    assert_eq!((received.0, received.1), (0x01, 0x02));
    assert_eq!(UbxNavPosLlhFrame::parse(&received.2), Some(posllh));
    assert_eq!(UbxNavPosLlh::parse(&received.2).map(|p| p.height_mm), Some(-5));
}

#[test]
fn payloads_parse_back_to_their_message() {
    let navx5 = UbxCfgNavX5 { version: 2, mask1: 0x4c, mask2: 0xdead_beef };
    assert_eq!(UbxCfgNavX5::parse(&navx5.make_payload()), Some(navx5));

    let mut nav5 = UbxCfgNav5::new(0);
    nav5.mask = 0x0005;
    nav5.dynamic_platform_model = 8;
    nav5.fixed_altitude_msl_m_x100 = -1_000;
    nav5.min_elevation_degrees = -5;
    nav5.static_hold_distance_threshold_m = 300;
    nav5.utc_standard = 3;
    let payload = nav5.make_payload();
    assert_eq!(payload[12], 0xfb);
    assert_eq!(UbxCfgNav5::parse(&payload), Some(nav5));
    assert_eq!(UbxCfgNav5::parse(&payload[..35]), None);
    let received = receive(&nav5.make_frame()).expect("frame should be received");
    assert_eq!(received.2, payload.to_vec());
}

#[test]
fn short_messages_parse_by_length() {
    assert_eq!(UbxAckAck::parse(&[0x06, 0x01]), Some(UbxAckAck { class: 0x06, id: 0x01 }));
    assert_eq!(UbxAckNak::parse(&[0x06]), None);
    assert_eq!(UbxCfgMsgPoll::parse(&[1, 2, 3]), None);
    assert_eq!(fc_core::gps::ubx_cfg_nav5::UbxCfgMsgSet::parse(&[1, 2, 3]), None);
    let mut ver = [0u8; 40];
    ver[0] = b'R';
    ver[30] = b'H';
    let parsed = UbxMonVer::parse(&ver).expect("MON-VER should parse");
    assert_eq!(parsed.software_version[0], b'R');
    assert_eq!(parsed.hardware_version[0], b'H');
    let mut dop = [0u8; 18];
    dop[12] = 0x2c;
    dop[13] = 0x01;
    assert_eq!(UbxNavDop::parse(&dop).map(|d| d.hdop_x100), Some(300));
    let mut status = [0u8; 16];
    status[4] = 3;
    assert_eq!(UbxNavStatus::parse(&status).map(|s| s.gps_fix), Some(3));
    let mut vel = [0u8; 36];
    vel[4..8].copy_from_slice(&(-250i32).to_le_bytes());
    assert_eq!(UbxNavVelNed::parse(&vel).map(|v| v.velocity_north_cmps), Some(-250));
}

#[test]
fn gps_parser_selection() {
    assert!(matches!(GpsParser::new(GpsProvider::Nmea), Some(GpsParser::Nmea(_))));
    assert!(matches!(GpsParser::new(GpsProvider::Ubx), Some(GpsParser::Ubx(_))));
    assert_eq!(GpsParser::new(GpsProvider::Msp), None);
    assert!(matches!(GpsParser::new_unwrapped(GpsProvider::Mock), GpsParser::Nmea(_)));
    let mut idle = GpsParser::default();
    assert_eq!(idle.on_data_received(0xB5), None);
    let mut ublox = UbloxParser::new();
    assert!(ublox.on_data_received(0));
}

#[test]
fn delivered_message_is_a_frame_at_the_end_of_the_stream() {
    let good = make_ubx_frame(0x01, 0x02, &[1, 2, 3, 4, 5]);
    let mut broken = make_ubx_frame(0x01, 0x02, &[9, 9, 9]);
    let last = broken.len() - 1;
    broken[last] ^= 0xFF;
    let mut stream: Vec<u8> = vec![0x00, 0xB5, 0x13];
    stream.extend_from_slice(&broken);
    stream.extend_from_slice(&good);
    let mut parser = UbxParser::new();
    let mut delivered = Vec::new();
    for (i, &byte) in stream.iter().enumerate() {
        if let Some(message) = parser.on_data_received(byte) {
            let frame = make_ubx_frame(message.class.value(), message.id, message.payload);
            assert!(message.payload.len() <= 256);
            assert!(stream[..=i].ends_with(&frame));
            delivered.push(i);
        }
    }
    assert_eq!(delivered, vec![stream.len() - 1]);
}
