use nmea0183::numeric::Decimal;
use nmea0183::registry::{message_kind, MessageKind};
use nmea0183::sentences::error::ParseNMEA0183Error;
use nmea0183::sentences::gga::FixQuality;
use nmea0183::sentences::hdm::HeadingType;
use nmea0183::sentences::ilt::Ilt;
use nmea0183::sentences::mwv::{AcceptableMeasurement, WindDirectionType};
use nmea0183::sentences::{TransducerReading, UnitsOfMeasurement};
use nmea0183::{Nmea, NmeaParser, Sentence};

fn dec(mantissa: i64, scale: usize) -> Decimal {
    Decimal { mantissa, scale }
}

fn nmea(talker: &str, message: &str, fields: &[&str]) -> Nmea {
    Nmea {
        talker_id: talker.to_string(),
        message_id: message.to_string(),
        fields: fields.iter().map(|f| f.to_string()).collect(),
    }
}

#[test]
fn mwv_example_decodes_every_field() {
    match NmeaParser::parse("$WIMWV,049,R,000.03,N,A*03").unwrap() {
        Sentence::Mwv(m) => {
            assert_eq!(m.talker_id, "WI");
            assert_eq!(m.wind_direction_deg, Some(49));
            assert_eq!(m.wind_dir_type, Some(WindDirectionType::Relative));
            assert_eq!(m.wind_speed, Some(dec(3, 2)));
            assert_eq!(m.acceptable, Some(AcceptableMeasurement::Acceptable));
        }
        _ => panic!("expected MWV"),
    }
}

#[test]
fn xdr_example_has_three_readings() {
    match NmeaParser::parse("$WIXDR,C,+023.1,C,TEMP,P,0.9989,B,PRESS,H,040,P,RH*25").unwrap() {
        Sentence::Xdr(x) => {
            assert_eq!(x.readings.len(), 3);
            assert!(matches!(x.readings[0], Some(TransducerReading::Temperature(_))));
            assert!(matches!(x.readings[1], Some(TransducerReading::Pressure(_))));
            match &x.readings[2] {
                Some(TransducerReading::Pressure(r)) => {
                    assert_eq!(r.reading, Some(dec(40, 0)));
                    assert_eq!(r.units, Some(UnitsOfMeasurement::Percent));
                    assert_eq!(r.name, Some("RH".to_string()));
                }
                _ => panic!("expected a pressure reading"),
            }
        }
        _ => panic!("expected XDR"),
    }
}

#[test]
fn altered_checksum_digit_is_a_mismatch() {
    let r = NmeaParser::parse(
        "$GPGGA,113342.000,5045.7837,N,00132.4127,W,1,06,1.3,-10.2,M,47.8,M,,0000*5F",
    );
    assert!(matches!(r, Err(ParseNMEA0183Error::ChecksumMismatch)));
    let r = NmeaParser::parse("$WIMWV,049,R,000.03,N,A*13");
    assert!(matches!(r, Err(ParseNMEA0183Error::ChecksumMismatch)));
}

#[test]
fn checksum_digits_are_read_in_either_case() {
    let r = NmeaParser::parse("$GPGSV,2,2,08,15,30,050,47,19,09,158,,26,12,281,40,27,38,173,41*7b");
    assert!(matches!(r, Ok(Sentence::Unknown)));
}

#[test]
fn line_without_checksum_is_accepted() {
    match NmeaParser::parse("$WIMWV,049,R,000.03,N,A").unwrap() {
        Sentence::Mwv(m) => assert_eq!(m.wind_direction_deg, Some(49)),
        _ => panic!("expected MWV"),
    }
}

#[test]
fn surrounding_whitespace_is_ignored() {
    let r = NmeaParser::parse("  $PSVSI,WINDMILL*73\r\n");
    assert!(matches!(r, Ok(Sentence::Svsi(_))));
}

#[test]
fn xdr_with_partial_group_is_malformed() {
    let r = NmeaParser::parse("$WIXDR,C,+023.1,C,TEMP,P,0.9989,B,PRESS,H,040,P");
    assert!(matches!(r, Err(ParseNMEA0183Error::MalformedGroup)));
}

#[test]
fn xdr_with_unknown_unit_is_refused() {
    let r = NmeaParser::parse("$WIXDR,C,+023.1,Q,TEMP");
    match r {
        Err(ParseNMEA0183Error::UnrecognizedCode(c)) => assert_eq!(c, "Q"),
        _ => panic!("expected an unrecognized code"),
    }
    let r = NmeaParser::parse("$WIXDR,Z,+023.1,C,TEMP");
    match r {
        Err(ParseNMEA0183Error::UnrecognizedCode(c)) => assert_eq!(c, "Z"),
        _ => panic!("expected an unrecognized code"),
    }
}

#[test]
fn unknown_message_decodes_to_unknown() {
    let r = NmeaParser::parse("$GPGSV,2,2,08,15,30,050,47,19,09,158,,26,12,281,40,27,38,173,41*7B");
    assert!(matches!(r, Ok(Sentence::Unknown)));
    let r = NmeaParser::parse("$GPRMC,1,2");
    assert!(matches!(r, Ok(Sentence::Unknown)));
}

#[test]
fn malformed_envelopes_are_refused() {
    for line in [
        "",
        "GPGGA,1,2",
        "$GP,1,2",
        "$gpgga,1",
        "$GPGGA,1*5",
        "$GPGGA,1*5G",
        "$GPGGA,1*56x",
        "$GPGGA,1$2",
        "$GPGGA,é",
    ] {
        assert!(
            matches!(NmeaParser::parse(line), Err(ParseNMEA0183Error::EnvelopeError)),
            "{}",
            line
        );
    }
}

#[test]
fn tokenizer_keeps_fields_in_order() {
    let n = NmeaParser::to_nmea("$PSVSW,0.570,SVS-603HR,255*37").unwrap();
    assert_eq!(n.talker_id, "P");
    assert_eq!(n.message_id, "SVSW");
    assert_eq!(n.fields, vec!["0.570", "SVS-603HR", "255"]);
    let n = NmeaParser::to_nmea("$GPGGA,,a,,").unwrap();
    assert_eq!(n.fields, vec!["", "a", "", ""]);
    let n = NmeaParser::to_nmea("$GPGGA").unwrap();
    assert!(n.fields.is_empty());
}

#[test]
fn too_few_fields_are_reported() {
    let r = NmeaParser::parse("$WIMWV,049,R");
    assert!(matches!(r, Err(ParseNMEA0183Error::MissingFields(5))));
    let r = NmeaParser::parse("$GPGGA,113342.000");
    assert!(matches!(r, Err(ParseNMEA0183Error::MissingFields(14))));
    let r = NmeaParser::parse("$PSVDY,1,2,3,4,5,6,7,8,9,10,11,12");
    assert!(matches!(r, Err(ParseNMEA0183Error::MissingFields(13))));
    let r = NmeaParser::parse("$PSVSS,1,2");
    assert!(matches!(r, Err(ParseNMEA0183Error::MissingFields(14))));
    let r = NmeaParser::parse("$PSVSD,1");
    assert!(matches!(r, Err(ParseNMEA0183Error::MissingFields(2))));
    let r = NmeaParser::parse("$PSVSI");
    assert!(matches!(r, Err(ParseNMEA0183Error::MissingFields(1))));
}

#[test]
fn unknown_codes_are_reported() {
    match NmeaParser::parse("$WIMWV,049,X,000.03,N,A") {
        Err(ParseNMEA0183Error::UnrecognizedCode(c)) => assert_eq!(c, "X"),
        _ => panic!("expected an unrecognized code"),
    }
    match NmeaParser::parse("$GPGGA,1,2,N,3,W,7,06,1.3,-10.2,M,47.8,M,,0000") {
        Err(ParseNMEA0183Error::UnrecognizedCode(c)) => assert_eq!(c, "7"),
        _ => panic!("expected an unrecognized code"),
    }
    for q in ["X", "", "300", "-1"] {
        let line = format!("$GPGGA,1,2,N,3,W,{},06,1.3,-10.2,M,47.8,M,,0000", q);
        match NmeaParser::parse(&line) {
            Err(ParseNMEA0183Error::UnrecognizedCode(c)) => assert_eq!(c, q),
            _ => panic!("expected an unrecognized fix quality: {}", q),
        }
    }
    for o in ["X", "", "+2"] {
        let line = format!("$PGILT,A,+00,D,+01,D,{},TILT", o);
        match NmeaParser::parse(&line) {
            Err(ParseNMEA0183Error::UnrecognizedCode(c)) => assert_eq!(c, o),
            _ => panic!("expected an unrecognized orientation: {}", o),
        }
    }
    match NmeaParser::parse("$PGILT,A,+00,D,+01,D,+2,TILT") {
        Err(ParseNMEA0183Error::UnrecognizedCode(c)) => assert_eq!(c, "+2"),
        _ => panic!("expected an unrecognized code"),
    }
    match NmeaParser::parse("$HCHDM,238.5,X") {
        Err(ParseNMEA0183Error::UnrecognizedCode(c)) => assert_eq!(c, "X"),
        _ => panic!("expected an unrecognized code"),
    }
}

#[test]
fn required_numbers_must_be_numbers() {
    let r = NmeaParser::parse("$WIMWV,abc,R,000.03,N,A");
    assert!(matches!(r, Err(ParseNMEA0183Error::NumericFormatError)));
    let r = NmeaParser::parse("$WIMWV,049,R,,N,A");
    assert!(matches!(r, Err(ParseNMEA0183Error::NumericFormatError)));
    let r = NmeaParser::parse("$GPGGA,1,,N,3,W,1,06,1.3,-10.2,M,47.8,M,,0000");
    assert!(matches!(r, Err(ParseNMEA0183Error::NumericFormatError)));
    let r = NmeaParser::parse(
        "$PSVSD,128.0000,0.0000,0.0000,0.0000,0.0000,0.0000,0.0000,0.0000,0.0000,0.000 0,0.0000,0.0000,0.0000,0.0000,0.0000,0.0000",
    );
    assert!(matches!(r, Err(ParseNMEA0183Error::NumericFormatError)));
}

#[test]
fn lenient_numbers_become_absent() {
    match NmeaParser::parse("$GPGGA,,1.5,N,2.5,E,0,,x,,M,,M,,").unwrap() {
        Sentence::Gga(g) => {
            assert_eq!(g.fix_time, None);
            assert_eq!(g.latitude, Some(dec(15, 1)));
            assert_eq!(g.fix_quality, Some(FixQuality::FixNotValid));
            assert_eq!(g.num_satellites, None);
            assert_eq!(g.hdop, None);
            assert_eq!(g.differential_gps_reference_station_id, None);
        }
        _ => panic!("expected GGA"),
    }
}

#[test]
fn headings_decode() {
    match NmeaParser::parse("$HCHDM,238.5,M*25").unwrap() {
        Sentence::Hdm(h) => {
            assert_eq!(h.heading, Some(dec(2385, 1)));
            assert_eq!(h.heading_type, Some(HeadingType::Magentic));
        }
        _ => panic!("expected HDM"),
    }
    match NmeaParser::parse("$HCHDT,238.5,T*25").unwrap() {
        Sentence::Hdt(h) => {
            assert_eq!(h.heading, Some(dec(2385, 1)));
            assert_eq!(h.heading_type, Some(HeadingType::True));
        }
        _ => panic!("expected HDT"),
    }
}

#[test]
fn energy_spectrum_decodes() {
    match NmeaParser::parse("$PSVSD,128.0000,0.0000,1.5*4F").unwrap() {
        Sentence::Svsd(s) => {
            assert_eq!(s.period, dec(128, 0));
            assert_eq!(s.esmag, vec![dec(0, 0), dec(15, 1)]);
        }
        _ => panic!("expected SVSD"),
    }
}

#[test]
fn passthrough_sentences_keep_their_fields() {
    match NmeaParser::parse("$PSVSH,Period,ESmag,Nre*63").unwrap() {
        Sentence::Svsh(s) => assert_eq!(s.headers, vec!["Period", "ESmag", "Nre"]),
        _ => panic!("expected SVSH"),
    }
    match NmeaParser::parse("$PSVSW,0.570,SVS-603HR,255*37").unwrap() {
        Sentence::Svsw(s) => assert_eq!(s.params, vec!["0.570", "SVS-603HR", "255"]),
        _ => panic!("expected SVSW"),
    }
}

#[test]
fn invalid_timestamp_is_absent() {
    match NmeaParser::parse("$PSVST,2020-13-02 16:04:53*5B").unwrap() {
        Sentence::Svst(s) => assert_eq!(s.timestamp, None),
        _ => panic!("expected SVST"),
    }
}

#[test]
fn ilt_decodes_without_a_unit() {
    let i = Ilt::try_from(nmea("II", "ILT", &["049", "R", "000.03", "N", "A"])).unwrap();
    assert_eq!(i.wind_direction_deg, Some(49));
    assert_eq!(i.wind_speed_knots, Some(dec(3, 2)));
    assert_eq!(i.acceptable, Some(AcceptableMeasurement::Acceptable));
    assert!(matches!(
        Ilt::try_from(nmea("II", "ILT", &["049"])),
        Err(ParseNMEA0183Error::MissingFields(5))
    ));
}

#[test]
fn registry_selects_decoders() {
    assert_eq!(message_kind("MWV"), Some(MessageKind::Mwv));
    assert_eq!(message_kind("SVSW"), Some(MessageKind::Svsw));
    assert_eq!(message_kind("GSV"), None);
    assert_eq!(message_kind("mwv"), None);
}

#[test]
fn dispatch_of_unknown_identifier() {
    let r = NmeaParser::dispatch(nmea("GP", "ZDA", &["1"]));
    assert!(matches!(r, Ok(Sentence::Unknown)));
}

#[test]
fn checksum_verifier_reads_the_frame() {
    assert!(NmeaParser::verify_checksum("$WIMWV,049,R,000.03,N,A*03").is_ok());
    assert!(matches!(
        NmeaParser::verify_checksum("$WIMWV,049,R,000.03,N,A*13"),
        Err(ParseNMEA0183Error::ChecksumMismatch)
    ));
    assert!(NmeaParser::verify_checksum("$*00").is_ok());
    assert!(NmeaParser::verify_checksum("$A$B*27").is_ok());
    assert!(NmeaParser::verify_checksum(
        "$GPGSV,2,2,08,15,30,050,47,19,09,158,,26,12,281,40,27,38,173,41*7b"
    )
    .is_ok());
}
