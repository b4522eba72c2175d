use nmea0183::numeric::Decimal;
use nmea0183::sentences::gga::FixQuality;
use nmea0183::sentences::pgilt::ZOrientation;
use nmea0183::sentences::seaview::psvst::Timestamp;
use nmea0183::sentences::xdr::to_readings;
use nmea0183::sentences::{QuantityUnit, TransducerReading, UnitsOfMeasurement};
use nmea0183::{NmeaParser, Sentence};

fn dec(mantissa: i64, scale: usize) -> Decimal {
    Decimal { mantissa, scale }
}

#[test]
fn test_mwv() {
    let input = "$WIMWV,049,R,000.03,N,A*03";
    let output = NmeaParser::parse(input).unwrap();
    match output {
        Sentence::Mwv(nmea) => {
            assert_eq!(nmea.talker_id, "WI");
            assert_eq!(nmea.message_id, "MWV");
        }
        _ => panic!("Expected Mwv"),
    };
    let input = "$WIMWV,180,T,000.11,N,A*02";
    let output = NmeaParser::parse(input).unwrap();
    match output {
        Sentence::Mwv(nmea) => {
            assert_eq!(nmea.talker_id, "WI");
            assert_eq!(nmea.message_id, "MWV");
        }
        _ => panic!("Expected Mwv"),
    }
}

#[test]
fn test_xdr() {
    let input = "$WIXDR,C,+023.1,C,TEMP,P,0.9989,B,PRESS,H,040,P,RH*25";
    let output = NmeaParser::parse(input).unwrap();
    match output {
        Sentence::Xdr(nmea) => {
            assert_eq!(nmea.talker_id, "WI");
            assert_eq!(nmea.message_id, "XDR");
            if let Some(TransducerReading::Temperature(r)) = &nmea.readings[0] {
                assert_eq!(r.reading, Some(dec(231, 1)));
                assert_eq!(r.units, Some(UnitsOfMeasurement::Celsius));
                assert_eq!(r.name, Some("TEMP".into()));
            }
            if let Some(TransducerReading::Pressure(r)) = &nmea.readings[1] {
                assert_eq!(r.reading, Some(dec(9989, 4)));
                assert_eq!(r.units, Some(UnitsOfMeasurement::Bar));
                assert_eq!(r.name, Some("PRESS".into()));
            }
            if let Some(TransducerReading::Pressure(r)) = &nmea.readings[2] {
                assert_eq!(r.reading, Some(dec(40, 0)));
                assert_eq!(r.units, Some(UnitsOfMeasurement::Percent));
                assert_eq!(r.name, Some("RH".into()));
            }
        }
        _ => panic!("Expected Xdr"),
    }
}

#[test]
fn test_gga() {
    let input = "$GPGGA,113342.000,5045.7837,N,00132.4127,W,1,06,1.3,-10.2,M,47.8,M,,0000*56";
    let output = NmeaParser::parse(input).unwrap();
    match output {
        Sentence::Gga(nmea) => {
            assert_eq!(nmea.talker_id, "GP");
            assert_eq!(nmea.message_id, "GGA");
            assert_eq!(nmea.fix_time, Some(dec(113342, 0)));
            assert_eq!(nmea.latitude, Some(dec(50457837, 4)));
            assert_eq!(nmea.longitude, Some(dec(1324127, 4)));
            assert_eq!(nmea.fix_quality, Some(FixQuality::GpsFix));
            assert_eq!(nmea.num_satellites, Some(6));
            assert_eq!(nmea.hdop, Some(dec(13, 1)));
            assert_eq!(nmea.altitude_msl, Some(dec(-102, 1)));
            assert_eq!(nmea.geoid_separation, Some(dec(478, 1)));
            assert_eq!(nmea.differential_age, None);
            assert_eq!(nmea.differential_gps_reference_station_id, Some(0));
        }
        _ => panic!("Expected Gga"),
    }
}

#[test]
fn test_gilt() {
    let input = "$PGILT,A,+00,D,+01,D,+1,TILT*35";
    let output = NmeaParser::parse(input).unwrap();
    println!("{:?}", output);
    match output {
        Sentence::Gilt(nmea) => {
            assert_eq!(nmea.talker_id, "P");
            assert_eq!(nmea.message_id, "GILT");
            if let Some(TransducerReading::AngularDisplacement(r)) = nmea.x_tilt {
                assert_eq!(r.reading, Some(dec(0, 0)));
                assert_eq!(r.units, Some(UnitsOfMeasurement::Degrees));
                assert_eq!(r.name, None);
            }
            if let Some(TransducerReading::AngularDisplacement(r)) = nmea.y_tilt {
                assert_eq!(r.reading, Some(dec(1, 0)));
                assert_eq!(r.units, Some(UnitsOfMeasurement::Degrees));
                assert_eq!(r.name, None);
            }
            assert_eq!(nmea.z_orientation, Some(ZOrientation::FacingUpright));
            assert_eq!(nmea.sensor_name, Some("TILT".to_string()));
        }
        _ => panic!("Expected Gga"),
    }
}

#[test]
fn test_svsv_parse() {
    let input = "$PSVSV,0.000,0.024,0.037,-0.663*7C";
    let output = NmeaParser::parse(input).unwrap();

    match output {
        Sentence::Svsv(nmea) => {
            assert_eq!(nmea.talker_id, "P");
            assert_eq!(nmea.message_id, "SVSV");

            let time = nmea.time.unwrap();
            assert_eq!(time.value, dec(0, 0));
            assert_eq!(time.unit, QuantityUnit::Seconds);
            assert_eq!(nmea.north.unwrap().value, dec(24, 3));
            assert_eq!(nmea.east.unwrap().value, dec(37, 3));
            assert_eq!(nmea.up.unwrap().value, dec(-663, 3));
            assert_eq!(nmea.up.unwrap().unit, QuantityUnit::Metres);
        }
        _ => panic!("Expected Svsv"),
    }
}

#[test]
fn test_svsi_identity_parse() {
    let input = "$PSVSI,WINDMILL*73";
    let output = NmeaParser::parse(input).unwrap();

    match output {
        Sentence::Svsi(nmea) => {
            assert_eq!(nmea.talker_id, "P");
            assert_eq!(nmea.message_id, "SVSI");

            let expected = "WINDMILL";
            assert_eq!(nmea.identity, expected);
        }
        _ => panic!("Expected Svst"),
    }
}

#[test]
fn test_svst_timestamp_parse() {
    let input = "$PSVST,2020-10-02 16:04:53*58";
    let output = NmeaParser::parse(input).unwrap();

    match output {
        Sentence::Svst(nmea) => {
            assert_eq!(nmea.talker_id, "P");
            assert_eq!(nmea.message_id, "SVST");

            let expected = Timestamp {
                year: 2020,
                month: 10,
                day: 2,
                hour: 16,
                minute: 4,
                second: 53,
                nanosecond: 0,
            };
            assert_eq!(nmea.timestamp, Some(expected));
        }
        _ => panic!("Expected Svst"),
    }
}

#[test]
fn test_svss_all_zero() {
    let input = "$PSVSS,0.0000,0.0000,0.0000,0.0000,0.0000,0.0000,0.0000,0.0000,0.0000,0.0000,0.0000,0.0000,0.0000,0.0000*55";
    let output = NmeaParser::parse(input).unwrap();

    match output {
        Sentence::Svss(nmea) => {
            assert_eq!(nmea.talker_id, "P");
            assert_eq!(nmea.message_id, "SVSS");

            let bin = &nmea.bin;
            let zero = dec(0, 0);
            assert_eq!(bin.period, zero);
            assert_eq!(bin.es_mag, zero);
            assert_eq!(bin.n_re, zero);
            assert_eq!(bin.n_im, zero);
            assert_eq!(bin.e_re, zero);
            assert_eq!(bin.e_im, zero);
            assert_eq!(bin.u_re, zero);
            assert_eq!(bin.u_im, zero);
            assert_eq!(bin.u_mag, zero);
            assert_eq!(bin.theta, zero);
            assert_eq!(bin.a1, zero);
            assert_eq!(bin.b1, zero);
            assert_eq!(bin.a2, zero);
            assert_eq!(bin.b2, zero);
        }
        _ => panic!("Expected Svss"),
    }
}

#[test]
fn test_svdy() {
    let input = "$PSVDY,-0.210,-0.116,9.825,-0.0044,0.0011,-0.0044,217.3,0.6,-1.4,0.021,-0.012,9.828,703*6C";
    let output = NmeaParser::parse(input).unwrap();

    match output {
        Sentence::Svdy(nmea) => {
            assert_eq!(nmea.talker_id, "P");
            assert_eq!(nmea.message_id, "SVDY");

            assert_eq!(nmea.acc_x.unwrap().value, dec(-21, 2));
            assert_eq!(nmea.acc_y.unwrap().value, dec(-116, 3));
            assert_eq!(nmea.acc_z.unwrap().value, dec(9825, 3));

            assert_eq!(nmea.acc_n.unwrap().value, dec(21, 3));
            assert_eq!(nmea.acc_e.unwrap().value, dec(-12, 3));
            assert_eq!(nmea.acc_u.unwrap().value, dec(9828, 3));

            assert_eq!(nmea.index, Some(703));
        }
        _ => panic!("Expected Svdy"),
    }
}

#[test]
fn test_checksum() {
    let input = "$WIMWV,049,R,000.03,N,A*03";
    let _ = NmeaParser::parse(input).unwrap();

    let input = "$WIMWV,180,T,000.11,N,A*02";
    let _ = NmeaParser::parse(input).unwrap();

    let input = "$PGILT,A,+00,D,+01,D,+1,TILT*35";
    let _ = NmeaParser::parse(input).unwrap();

    let input = "$GPGGA,113342.000,5045.7837,N,00132.4127,W,1,06,1.3,-10.2,M,47.8,M,,0000*56";
    let _ = NmeaParser::parse(input).unwrap();

    let input = "$GPGSV,2,2,08,15,30,050,47,19,09,158,,26,12,281,40,27,38,173,41*7B";
    let _ = NmeaParser::parse(input).unwrap();
}

#[test]
#[should_panic]
fn test_checksum_fail() {
    let input = "$GPGGA,113342.000,5045.7837,N,00132.4127,W,1,06,1.3,-10.2,M,47.8,M,,0000*5F";
    let _ = NmeaParser::parse(input).unwrap();
}

#[test]
fn test_to_readings() {
    let fields = vec![
        "C", "+023.9", "C", "TEMP", "P", "1.0243", "B", "PRESS", "H", "039", "P", "RH",
    ];
    let fields = fields.into_iter().map(|v| v.to_string()).collect();
    let readings = to_readings(fields).unwrap();

    assert_eq!(readings.len(), 3);
}
