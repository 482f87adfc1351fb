use fc_core::gps::nmea::nmea_gsa::NmeaGsa;
use fc_core::gps::nmea_gga::NmeaGga;
use fc_core::gps::nmea_gsv::NmeaGsv;
use fc_core::gps::nmea_parser::{
    parse_fixed_point, parse_gga_record, parse_int, parse_nmea_coordinate, parse_nmea_time,
    NmeaFields, NmeaParser,
};
use fc_core::gps::nmea_rmc::NmeaRmc;

const GSV: &[u8] = b"$GPGSV,3,1,11,10,63,137,17,07,61,098,15,05,59,290,20,08,54,157,30*70\r\n";
const GSV_PAYLOAD: &[u8] = b"GPGSV,3,1,11,10,63,137,17,07,61,098,15,05,59,290,20,08,54,157,30";

#[test]
fn valid_sentence_is_accepted() {
    let sentence = b"$GPGSV,3,1,11,10,63,137,17,07,61,098,15,05,59,290,20,08,54,157,30*70\r\n";
    let mut parser = NmeaParser::new();
    let mut complete = false;
    for &byte in sentence {
        complete = parser.on_data_received(byte);
    }
    assert!(complete);
    assert_eq!(
        parser.payload(),
        Some(b"GPGSV,3,1,11,10,63,137,17,07,61,098,15,05,59,290,20,08,54,157,30".as_slice())
    );
}

#[test]
fn nmea_parser_invalid_checksum_is_rejected() {
    let sentence = b"$GPGSV,3,1,11,10,63,137,17,07,61,098,15,05,59,290,20,08,54,157,30*71\r\n";
    let mut parser = NmeaParser::new();
    for &byte in sentence {
        assert!(!parser.on_data_received(byte));
    }
    assert_eq!(parser.payload(), None);
}

#[test]
fn invalid_checksum_character_is_rejected() {
    let sentence = b"$GPGSV,3,1,11,10,63,137,17,07,61,098,15,05,59,290,20,08,54,157,30*7G\r\n";
    let mut parser = NmeaParser::new();
    for &byte in sentence {
        assert!(!parser.on_data_received(byte));
    }
    assert_eq!(parser.payload(), None);
}

#[test]
fn missing_lf_is_rejected() {
    let sentence = b"$GPGSV,3,1,11,10,63,137,17,07,61,098,15,05,59,290,20,08,54,157,30*70\r";
    let mut parser = NmeaParser::new();
    for &byte in sentence {
        assert!(!parser.on_data_received(byte));
    }
    assert_eq!(parser.payload(), None);
}

#[test]
fn missing_cr_is_rejected() {
    let sentence = b"$GPGSV,3,1,11,10,63,137,17,07,61,098,15,05,59,290,20,08,54,157,30*70\n";
    let mut parser = NmeaParser::new();
    for &byte in sentence {
        assert!(!parser.on_data_received(byte));
    }
    assert_eq!(parser.payload(), None);
}

#[test]
fn back_to_back_sentences_are_parsed() {
    let sentence1 = b"$GPGSV,3,1,11,10,63,137,17,07,61,098,15,05,59,290,20,08,54,157,30*70\r\n";
    let sentence2 = b"$GPGSV,3,1,11,10,63,137,17,07,61,098,15,05,59,290,20,08,54,157,30*70\r\n";
    let mut parser = NmeaParser::new();
    let mut complete_count = 0;
    for &byte in sentence1.iter().chain(sentence2) {
        if parser.on_data_received(byte) {
            complete_count += 1;
            assert_eq!(
                parser.payload(),
                Some(b"GPGSV,3,1,11,10,63,137,17,07,61,098,15,05,59,290,20,08,54,157,30".as_slice())
            );
        }
    }
    assert_eq!(complete_count, 2);
}

#[test]
fn garbage_before_sentence_is_ignored() {
    let garbage = b"hello123";
    let sentence = b"$GPGSV,3,1,11,10,63,137,17,07,61,098,15,05,59,290,20,08,54,157,30*70\r\n";
    let mut parser = NmeaParser::new();
    for &byte in garbage.iter().chain(sentence) {
        _ = parser.on_data_received(byte);
    }
    assert_eq!(
        parser.payload(),
        Some(b"GPGSV,3,1,11,10,63,137,17,07,61,098,15,05,59,290,20,08,54,157,30".as_slice())
    );
}

#[test]
fn recovers_after_invalid_sentence() {
    let invalid = b"$GPGSV,3,1,11,10,63,137,17,07,61,098,15,05,59,290,20,08,54,157,30*71\r\n";
    let valid = b"$GPGSV,3,1,11,10,63,137,17,07,61,098,15,05,59,290,20,08,54,157,30*70\r\n";
    let mut parser = NmeaParser::new();
    for &byte in invalid.iter().chain(valid) {
        _ = parser.on_data_received(byte);
    }
    assert_eq!(
        parser.payload(),
        Some(b"GPGSV,3,1,11,10,63,137,17,07,61,098,15,05,59,290,20,08,54,157,30".as_slice())
    );
}

#[test]
fn resynchronises_on_new_dollar() {
    let valid = b"$GPGSV,3,1,11,10,63,137,17,07,61,098,15,05,59,290,20,08,54,157,30*70\r\n";
    // The first sentence is incomplete: a new '$' appears before it has ended.
    let corrupt_prefix = b"$GPGSV,3,1,11,10,63,137,17,07$";
    let mut parser = NmeaParser::new();
    let mut complete_count = 0;
    for &byte in corrupt_prefix.iter().chain(valid) {
        if parser.on_data_received(byte) {
            complete_count += 1;
        }
    }
    assert_eq!(complete_count, 1);
    assert_eq!(
        parser.payload(),
        Some(b"GPGSV,3,1,11,10,63,137,17,07,61,098,15,05,59,290,20,08,54,157,30".as_slice())
    );
}

#[test]
fn payload_overflow_is_rejected() {
    let mut parser = NmeaParser::new();
    assert!(!parser.on_data_received(b'$'));
    for _ in 0..NmeaParser::BUFFER_SIZE {
        assert!(!parser.on_data_received(b'A'));
    }
    assert!(!parser.on_data_received(b'B'));
    assert_eq!(parser.payload(), None);
}

#[test]
fn recovers_after_payload_overflow() {
    let valid = b"$GPGSV,3,1,11,10,63,137,17,07,61,098,15,05,59,290,20,08,54,157,30*70\r\n";
    let mut parser = NmeaParser::new();
    assert!(!parser.on_data_received(b'$'));
    for _ in 0..NmeaParser::BUFFER_SIZE {
        assert!(!parser.on_data_received(b'A'));
    }
    assert!(!parser.on_data_received(b'B'));
    let mut complete = false;
    for &byte in valid {
        complete = parser.on_data_received(byte);
    }
    assert!(complete);
    assert_eq!(
        parser.payload(),
        Some(b"GPGSV,3,1,11,10,63,137,17,07,61,098,15,05,59,290,20,08,54,157,30".as_slice())
    );
}

#[test]
fn fixed_point_basic() {
    assert_eq!(parse_fixed_point(b"12.34", 100), Some(1234));
    assert_eq!(parse_fixed_point(b"12.3", 100), Some(1230));
    assert_eq!(parse_fixed_point(b"12", 100), Some(1200));
}

#[test]
fn fixed_point_negative() {
    assert_eq!(parse_fixed_point(b"-12.34", 100), Some(-1234));
    assert_eq!(parse_fixed_point(b"-12.3", 100), Some(-1230));
}

#[test]
fn fixed_point_truncates_extra_precision() {
    assert_eq!(parse_fixed_point(b"12.345", 100), Some(1234));
}

#[test]
fn fixed_point_rejects_invalid_input() {
    assert_eq!(parse_fixed_point(b"", 100), None);
    assert_eq!(parse_fixed_point(b"-", 100), None);
    assert_eq!(parse_fixed_point(b"12.x", 100), None);
    assert_eq!(parse_fixed_point(b"12.3.4", 100), None);
    assert_eq!(parse_fixed_point(b"abc", 100), None);
}

#[test]
fn fixed_point_rejects_overflow() {
    assert_eq!(parse_fixed_point(b"999999999999999999", 100), None);
}

#[test]
fn parse_nmea_coordinate_north() {
    assert_eq!(parse_nmea_coordinate(b"4916.45", b'N'), Some(492_741_667));
}

#[test]
fn parse_nmea_coordinate_south() {
    assert_eq!(parse_nmea_coordinate(b"4916.45", b'S'), Some(-492_741_667));
}

#[test]
fn parse_nmea_coordinate_east() {
    assert_eq!(parse_nmea_coordinate(b"12311.12", b'E'), Some(1_231_853_333));
}

#[test]
fn parse_nmea_coordinate_west() {
    assert_eq!(parse_nmea_coordinate(b"12311.12", b'W'), Some(-1_231_853_333));
}

#[test]
fn parse_nmea_coordinate_rejects_invalid_direction() {
    assert_eq!(parse_nmea_coordinate(b"4916.45", b'X'), None);
}

#[test]
fn parse_nmea_coordinate_rejects_invalid_minutes() {
    assert_eq!(parse_nmea_coordinate(b"4960.00", b'N'), None);
}

#[test]
fn parse_nmea_coordinate_rejects_missing_decimal() {
    assert_eq!(parse_nmea_coordinate(b"491645", b'N'), None);
}

#[test]
fn parse_nmea_coordinate_rejects_bad_digit() {
    assert_eq!(parse_nmea_coordinate(b"49x6.45", b'N'), None);
}

#[test]
fn parse_nmea_coordinate_rejects_empty() {
    assert_eq!(parse_nmea_coordinate(b"", b'N'), None);
}

#[test]
fn parse_nmea_coordinate_zero() {
    assert_eq!(parse_nmea_coordinate(b"0000.00", b'N'), Some(0));
}

#[test]
fn parse_nmea_coordinate_exact_degree() {
    assert_eq!(parse_nmea_coordinate(b"4900.00", b'N'), Some(490_000_000));
}

#[test]
fn parse_nmea_coordinate_near_sixty_minutes() {
    assert_eq!(parse_nmea_coordinate(b"4959.9999", b'N'), Some(499_999_983));
}

#[test]
fn nmea_parser_parse_gga_record_extracts_position_and_fix() {
    let record = b"GPGGA,123519.500,4916.45,N,12311.12,W,1,08,0.9,545.4,M,46.9,M,,";
    let result = parse_gga_record(record).expect("GGA record should parse");
    assert_eq!(result.time_of_day_ms, 45_319_500);
    assert_eq!(result.position.latitude_degrees_x1e7, 492_741_667);
    assert_eq!(result.position.longitude_degrees_x1e7, -1_231_853_333);
    assert_eq!(result.position.altitude_cm, 54_540);
    assert_eq!(result.dilution_of_precision_positional, 9);
    assert_eq!(result.fix, 1);
    assert_eq!(result.satellite_count, 8);
    assert_eq!(result.geoid_separation_cm, 4_690);
}

#[test]
fn nmea_parser_parse_gga_record_rejects_invalid_latitude() {
    let record = b"GPGGA,123519,4916.X,N,12311.12,W,1,08,0.9,545.4,M,46.9,M,,";
    assert_eq!(parse_gga_record(record), None);
}

#[test]
fn nmea_parser_parse_gga_record_rejects_invalid_fix() {
    let record = b"GPGGA,123519,4916.45,N,12311.12,W,X,08,0.9,545.4,M,46.9,M,,";
    assert_eq!(parse_gga_record(record), None);
}

#[test]
fn nmea_parser_parse_gga_record_handles_negative_geoid_separation() {
    let record = b"GPGGA,123519.500,4916.45,N,12311.12,W,1,08,0.9,545.4,M,-46.9,M,,";
    let result = parse_gga_record(record).expect("GGA record should parse");
    assert_eq!(result.position.altitude_cm, 54_540);
    assert_eq!(result.geoid_separation_cm, -4_690);
}

#[test]
fn parse_nmea_time_basic() {
    assert_eq!(parse_nmea_time(b"123519"), Some(45_319_000));
}

#[test]
fn parse_nmea_time_with_fraction() {
    assert_eq!(parse_nmea_time(b"123519.500"), Some(45_319_500));
}

#[test]
fn parse_nmea_time_truncates_excess_precision() {
    assert_eq!(parse_nmea_time(b"123519.5009"), Some(45_319_500));
}

#[test]
fn parse_nmea_time_midnight() {
    assert_eq!(parse_nmea_time(b"000000"), Some(0));
}

#[test]
fn parse_nmea_time_end_of_day() {
    assert_eq!(parse_nmea_time(b"235959.999"), Some(86_399_999));
}

#[test]
fn parse_nmea_time_rejects_invalid_hour() {
    assert_eq!(parse_nmea_time(b"240000"), None);
}

#[test]
fn parse_nmea_time_rejects_invalid_minute() {
    assert_eq!(parse_nmea_time(b"126000"), None);
}

#[test]
fn parse_nmea_time_rejects_invalid_second() {
    assert_eq!(parse_nmea_time(b"125960"), None);
}

#[test]
fn parse_nmea_time_rejects_bad_digit() {
    assert_eq!(parse_nmea_time(b"1235X9"), None);
}

#[test]
fn parse_nmea_time_rejects_bad_separator() {
    assert_eq!(parse_nmea_time(b"123519X500"), None);
}

#[test]
fn nmea_gga_parse_gga_record_extracts_position_and_fix() {
    let record = b"GPGGA,123519.500,4916.45,N,12311.12,W,1,08,0.9,545.4,M,46.9,M,,";
    let result = NmeaGga::parse(record).expect("GGA record should parse");
    assert_eq!(result.latitude_degrees_x1e7, 492_741_667);
    assert_eq!(result.longitude_degrees_x1e7, -1_231_853_333);
    assert_eq!(result.altitude_cm, 54_540);
    assert_eq!(result.hdop_x100, 9);
    assert_eq!(result.fix, 1);
    assert_eq!(result.satellite_count, 8);
    assert_eq!(result.geoid_separation_cm, 4_690);
}

#[test]
fn nmea_gga_parse_gga_record_rejects_invalid_latitude() {
    let record = b"GPGGA,123519,4916.X,N,12311.12,W,1,08,0.9,545.4,M,46.9,M,,";
    assert_eq!(NmeaGga::parse(record), None);
}

#[test]
fn nmea_gga_parse_gga_record_rejects_invalid_fix() {
    let record = b"GPGGA,123519,4916.45,N,12311.12,W,X,08,0.9,545.4,M,46.9,M,,";
    assert_eq!(NmeaGga::parse(record), None);
}

#[test]
fn nmea_gga_parse_gga_record_handles_negative_geoid_separation() {
    let record = b"GPGGA,123519.500,4916.45,N,12311.12,W,1,08,0.9,545.4,M,-46.9,M,,";
    let result = NmeaGga::parse(record).expect("GGA record should parse");
    assert_eq!(result.altitude_cm, 54_540);
    assert_eq!(result.geoid_separation_cm, -4_690);
}

#[test]
fn parse_rmc_record_extracts_navigation_data() {
    let record = b"GPRMC,123519.00,A,4916.45,N,12311.12,W,022.4,084.4,230394,,,";
    let result = NmeaRmc::parse(record).expect("RMC record should parse");
    assert_eq!(result.latitude_degrees_x1e7, 492_741_667);
    assert_eq!(result.longitude_degrees_x1e7, -1_231_853_333);
    assert_eq!(result.ground_speed_cmps, 1_152);
    assert_eq!(result.heading_deci_degrees, 844);
    assert_eq!(result.is_healthy, 1);
}

#[test]
fn parse_rmc_record_marks_invalid_fix_unhealthy() {
    let record = b"GPRMC,123519.00,V,4916.45,N,12311.12,W,022.4,084.4,230394,,,";
    let result = NmeaRmc::parse(record).expect("RMC record should parse");
    assert_eq!(result.is_healthy, 0);
}

#[test]
fn parse_rmc_record_accepts_different_talker_ids() {
    let record = b"GNRMC,123519.00,A,4916.45,N,12311.12,W,022.4,084.4,230394,,,";
    assert!(NmeaRmc::parse(record).is_some());
}

#[test]
fn parse_gsa_record_extracts_fix_and_dop() {
    let record = b"GPGSA,A,3,04,05,09,12,24,25,29,31,,,,,1.8,1.0,1.5";
    let result = NmeaGsa::parse(record).expect("GSA record should parse");
    assert_eq!(result.fix_type, 3);
    assert_eq!(result.satellites_used, 8);
    assert_eq!(result.pdop, 18);
    assert_eq!(result.hdop, 10);
    assert_eq!(result.vdop, 15);
}

#[test]
fn parse_gsa_record_accepts_no_fix() {
    let record = b"GPGSA,A,1,,,,,,,,,,,,,1.8,1.0,1.5";
    let result = NmeaGsa::parse(record).expect("GSA record should parse");
    assert_eq!(result.fix_type, 1);
    assert_eq!(result.satellites_used, 0);
}

#[test]
fn parse_gsa_record_rejects_invalid_fix_type() {
    let record = b"GPGSA,A,4,04,05,,,,,,,,,,,1.8,1.0,1.5";
    assert_eq!(NmeaGsa::parse(record), None);
}

#[test]
fn parse_gsa_record_rejects_invalid_mode() {
    let record = b"GPGSA,X,3,04,05,,,,,,,,,,,1.8,1.0,1.5";
    assert_eq!(NmeaGsa::parse(record), None);
}

// Checks of the library's own beyond the scenarios above.

#[test]
fn parse_int_reads_decimal_digits_only() {
    assert_eq!(parse_int(b"0"), Some(0));
    assert_eq!(parse_int(b"08"), Some(8));
    assert_eq!(parse_int(b"4294967295"), Some(4_294_967_295));
    assert_eq!(parse_int(b"4294967296"), None);
    assert_eq!(parse_int(b""), None);
    assert_eq!(parse_int(b"1a"), None);
    assert_eq!(parse_int(b"-1"), None);
}

#[test]
fn fields_are_handed_out_in_order_including_empty_ones() {
    let mut fields = NmeaFields::new(b"A,,BC,");
    assert_eq!(fields.next(), Some(b"A".as_slice()));
    assert_eq!(fields.next(), Some(b"".as_slice()));
    assert_eq!(fields.next(), Some(b"BC".as_slice()));
    assert_eq!(fields.next(), Some(b"".as_slice()));
    assert_eq!(fields.next(), None);
    assert_eq!(fields.next(), None);
}

#[test]
fn sentence_is_reported_once_and_payload_cleared_by_next_byte() {
    let mut parser = NmeaParser::new();
    let mut completions = 0;
    for &byte in GSV {
        if parser.on_data_received(byte) {
            completions += 1;
        }
    }
    assert_eq!(completions, 1);
    assert_eq!(parser.payload(), Some(GSV_PAYLOAD));
    assert!(!parser.on_data_received(b'x'));
    assert_eq!(parser.payload(), None);
}

#[test]
fn lower_case_checksum_digits_are_accepted() {
    // "GPXYZ" has checksum 0x4c.
    let mut parser = NmeaParser::new();
    let mut complete = false;
    for &byte in b"$GPXYZ*4c\r\n" {
        complete = parser.on_data_received(byte);
    }
    assert!(complete);
    assert_eq!(parser.payload(), Some(b"GPXYZ".as_slice()));
}

#[test]
fn gsv_reports_satellites_in_view() {
    let gsv = NmeaGsv::parse(GSV_PAYLOAD).expect("GSV record should parse");
    assert_eq!(gsv.satellites_in_view, 11);
    assert_eq!(NmeaGsv::parse(b"GPGGA,3,1,11"), None);
}

#[test]
fn gga_time_must_be_valid_for_record_but_not_for_gga() {
    let record = b"GPGGA,250000,4916.45,N,12311.12,W,1,08,0.9,545.4,M,46.9,M,,";
    assert!(NmeaGga::parse(record).is_some());
    assert_eq!(parse_gga_record(record), None);
}

#[test]
fn fields_joined_with_commas_give_the_payload_back() {
    let payload: &[u8] = b",GPGGA,,12.5,N,";
    let mut fields = NmeaFields::new(payload);
    let mut collected: Vec<Vec<u8>> = Vec::new();
    while let Some(field) = fields.next() {
        assert!(!field.contains(&b','));
        collected.push(field.to_vec());
    }
    let commas = payload.iter().filter(|&&b| b == b',').count();
    assert_eq!(collected.len(), commas + 1);
    assert_eq!(collected.join(&b','), payload.to_vec());
}

#[test]
fn reported_payload_is_framed_at_the_end_of_the_stream() {
    // Noise, a broken sentence, then a good one: the payload reported is the one whose
    // `$`, `*`, checksum digits and CR LF end the stream.
    let mut stream: Vec<u8> = b"xx$GPBAD*00\r\n\x07".to_vec();
    stream.extend_from_slice(b"$GPXYZ*4C\r\n");
    let mut parser = NmeaParser::new();
    let mut reports = 0;
    for &byte in &stream {
        if parser.on_data_received(byte) {
            reports += 1;
            let payload = parser.payload().unwrap().to_vec();
            let mut framed = vec![b'$'];
            framed.extend_from_slice(&payload);
            framed.extend_from_slice(b"*4C\r\n");
            assert!(stream.ends_with(&framed));
            let xor = payload.iter().fold(0u8, |a, &b| a ^ b);
            assert_eq!(xor, 0x4C);
        }
    }
    assert_eq!(reports, 1);
}
