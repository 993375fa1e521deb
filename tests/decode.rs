use fap::{check_input, on_explanation, on_reply, Coordinates, Error, Next, Packet, RawPacket, Reply};

fn raw() -> RawPacket {
    RawPacket {
        header: b"DISCOF>APT314,RAZOR*,WIDE1*,qAS,GERLCH".to_vec(),
        body: b"/022526h4046.40N/11912.12W-347/001/".to_vec(),
        src_callsign: b"DISCOF".to_vec(),
        dst_callsign: Some(b"APT314".to_vec()),
        comment: None,
        timestamp: Some(1_400_000_000),
        latitude: Some(40.7733335f64.to_bits()),
        longitude: Some((-119.202f64).to_bits()),
        pos_resolution: Some(18.52f64.to_bits()),
        course: Some(347),
        speed: Some(1.852f64.to_bits()),
        altitude: None,
        symbol_table: 0x2f,
        symbol_code: 0x2d,
    }
}

fn packet(r: RawPacket) -> Packet {
    match on_reply(Reply::Parsed(r)) {
        Next::Done(Ok(p)) => p,
        _ => panic!("a parsed reply must give a packet"),
    }
}

fn with_course(c: Option<u32>) -> Packet {
    let mut r = raw();
    r.course = c;
    packet(r)
}

#[test]
fn input_with_nul_is_rejected() {
    assert_eq!(check_input(b"ab\0c\0".to_vec()), Err(Error::NulInInputData(2)));
    assert_eq!(check_input(vec![0u8]), Err(Error::NulInInputData(0)));
}

#[test]
fn input_without_nul_passes_unchanged() {
    let data = b"DISCOF>APT314:/022526h4046.40N/11912.12W-347/001/".to_vec();
    assert_eq!(check_input(data.clone()), Ok(data));
    assert_eq!(check_input(Vec::new()), Ok(Vec::new()));
}

#[test]
fn course_zero_is_unknown() {
    assert_eq!(with_course(Some(0)).course(), None);
    assert_eq!(with_course(None).course(), None);
}

#[test]
fn course_in_range_is_kept() {
    assert_eq!(with_course(Some(347)).course(), Some(347));
    assert_eq!(with_course(Some(1)).course(), Some(1));
}

#[test]
fn course_is_reduced_modulo_360() {
    assert_eq!(with_course(Some(720)).course(), Some(0));
    assert_eq!(with_course(Some(360)).course(), Some(0));
    assert_eq!(with_course(Some(725)).course(), Some(5));
    assert_eq!(with_course(Some(u32::MAX)).course(), Some(u32::MAX % 360));
}

#[test]
fn position_needs_latitude_and_longitude() {
    let mut r = raw();
    r.latitude = None;
    assert_eq!(packet(r).position(), None);
    let mut r = raw();
    r.longitude = None;
    assert_eq!(packet(r).position(), None);
}

#[test]
fn position_without_precision() {
    let mut r = raw();
    r.pos_resolution = None;
    let p = packet(r);
    assert_eq!(
        p.position(),
        Some(Coordinates {
            latitude: 40.7733335f64.to_bits(),
            longitude: (-119.202f64).to_bits(),
            precision: None,
        })
    );
    assert_eq!(p.precision(), None);
}

#[test]
fn position_with_precision() {
    let p = packet(raw());
    assert_eq!(p.position().unwrap().precision, Some(18.52f64.to_bits()));
}

#[test]
fn decoded_report_fields() {
    let p = packet(raw());
    assert_eq!(p.source(), "DISCOF");
    assert_eq!(p.header(), "DISCOF>APT314,RAZOR*,WIDE1*,qAS,GERLCH");
    assert_eq!(p.body(), "/022526h4046.40N/11912.12W-347/001/");
    assert_eq!(p.destination(), Some("APT314".to_string()));
    assert_eq!(p.comment(), None);
    assert_eq!(p.timestamp(), Some(1_400_000_000));
    assert_eq!(p.altitude(), None);
    assert!((f64::from_bits(p.latitude().unwrap()) - 40.7733335).abs() < 1e-6);
    assert!((f64::from_bits(p.longitude().unwrap()) + 119.202).abs() < 1e-6);
    assert_eq!(p.course(), Some(347));
    assert_eq!(p.symbol(), aprs::Symbol::HouseQth);
}

#[test]
fn symbol_comes_from_both_bytes() {
    let mut r = raw();
    r.symbol_code = 0x3e;
    assert_eq!(packet(r).symbol(), aprs::Symbol::Car);
    let mut r = raw();
    r.symbol_table = 0x5c;
    r.symbol_code = 0x3e;
    assert_eq!(packet(r).symbol(), aprs::Symbol::OverlayedVehicles);
}

#[test]
fn comment_is_decoded_when_present() {
    let mut r = raw();
    r.comment = Some(b"hello".to_vec());
    assert_eq!(packet(r).comment(), Some("hello".to_string()));
}

#[test]
fn invalid_text_is_decoded_leniently() {
    let mut r = raw();
    r.src_callsign = vec![b'A', 0xff, b'B'];
    assert_eq!(packet(r).source(), "A\u{fffd}B");
}

#[test]
fn measurements_convert_to_public_units() {
    let mut r = raw();
    r.altitude = Some(100.0f64.to_bits());
    r.speed = Some(10.0f64.to_bits());
    let p = packet(r);
    let feet = aprs::Feet::from(aprs::Meters(f64::from_bits(p.altitude().unwrap()) as f32));
    let knots =
        aprs::Knots::from(aprs::KilometersPerHour(f64::from_bits(p.speed().unwrap()) as f32));
    assert!((feet.as_f64() - 328.084).abs() < 0.01);
    assert!((knots.as_f64() - 5.39957).abs() < 0.001);
}

#[test]
fn no_result_is_an_error() {
    match on_reply(Reply::NoResult) {
        Next::Done(Err(Error::Other(m))) => {
            assert_eq!(m, "libfap returned null value - allocation failure?")
        }
        _ => panic!("no result must fail"),
    }
}

#[test]
fn failed_decode_asks_for_explanation() {
    assert!(matches!(on_reply(Reply::Failed(7)), Next::Explain(7)));
}

#[test]
fn explanation_is_text_before_terminator() {
    let mut buf = [0u8; 64];
    buf[..21].copy_from_slice(b"Invalid header: no '>");
    buf[30] = b'x';
    let e = on_explanation(&buf);
    assert_eq!(e, Error::Other("Invalid header: no '>".to_string()));
    assert!(!e.description().is_empty());
}

#[test]
fn explanation_is_at_most_63_bytes() {
    let buf = [b'a'; 64];
    assert_eq!(on_explanation(&buf), Error::Other("a".repeat(63)));
}

#[test]
fn error_descriptions() {
    assert_eq!(Error::NulInInputData(3).description(), "input data must not contain any nulls");
    assert_eq!(Error::Other("bad".to_string()).description(), "bad");
}
