use forza_chroma::config::Input;
use forza_chroma::datagram::{decode, DATAGRAM_SIZE};
use forza_chroma::error::Error;
use forza_chroma::fixed::FX_ONE;
use forza_chroma::property::{query_property, Property, RateProperty, RateQuery};

fn zero_datagram_with(
    race_on: bool,
    rpm: f32,
    max_rpm: f32,
    idle_rpm: f32,
) -> forza_chroma::datagram::Horizon4Datagram {
    let mut buf = vec![0u8; DATAGRAM_SIZE];
    if race_on {
        buf[0] = 1;
    }
    buf[8..12].copy_from_slice(&max_rpm.to_bits().to_le_bytes());
    buf[12..16].copy_from_slice(&idle_rpm.to_bits().to_le_bytes());
    buf[16..20].copy_from_slice(&rpm.to_bits().to_le_bytes());
    decode(&buf).unwrap()
}

fn input(property: &str, max_value: Option<i64>, auto_raise: bool) -> Input {
    Input { property: property.to_string(), max_value, auto_raise }
}

#[test]
fn registry_binds_known_names() {
    assert!(matches!(
        query_property(&input("speed", None, false)),
        Ok(Property::Rate(RateProperty { query: RateQuery::Speed, .. }))
    ));
    assert!(matches!(
        query_property(&input("rpm", None, false)),
        Ok(Property::Rate(RateProperty { query: RateQuery::Rpm, .. }))
    ));
    assert!(matches!(
        query_property(&input("rpm-baseline", None, false)),
        Ok(Property::Rate(RateProperty { query: RateQuery::RpmBaseline, .. }))
    ));
    assert!(matches!(
        query_property(&input("driveline", None, false)),
        Ok(Property::Rate(RateProperty { query: RateQuery::Driveline, .. }))
    ));
    assert!(matches!(query_property(&input("position", None, false)), Ok(Property::Score(_))));
}

#[test]
fn unknown_name_is_rejected_at_configuration_time() {
    assert_eq!(query_property(&input("warp-factor", None, false)), Err(Error::UnknownProperty));
    assert_eq!(query_property(&input("", None, false)), Err(Error::UnknownProperty));
    assert_eq!(query_property(&input("Speed", None, false)), Err(Error::UnknownProperty));
}

#[test]
fn configured_constant_seeds_the_cell() {
    let p = query_property(&input("speed", Some(100 * FX_ONE), false)).unwrap();
    match p {
        Property::Rate(rp) => {
            assert_eq!(rp.max_value, Some(100 * FX_ONE));
            assert!(!rp.auto_raise);
        },
        _ => panic!("expected a rate property"),
    }
}

#[test]
fn auto_raise_without_constant_seeds_zero() {
    let p = query_property(&input("speed", None, true)).unwrap();
    match p {
        Property::Rate(rp) => {
            assert_eq!(rp.max_value, Some(0));
            assert!(rp.auto_raise);
        },
        _ => panic!("expected a rate property"),
    }
}

fn speed_datagram(speed: f32) -> forza_chroma::datagram::Horizon4Datagram {
    let mut buf = vec![0u8; DATAGRAM_SIZE];
    buf[0] = 1;
    buf[256..260].copy_from_slice(&speed.to_bits().to_le_bytes());
    decode(&buf).unwrap()
}

#[test]
fn auto_raise_is_monotone_and_tracks_the_maximum() {
    let p = query_property(&input("speed", None, true)).unwrap();
    let mut rp = match p {
        Property::Rate(rp) => rp,
        _ => panic!("expected a rate property"),
    };
    let speeds = [10.0f32, 5.0, 20.0, 20.0, 3.0];
    let expected_max = [10 * FX_ONE, 10 * FX_ONE, 20 * FX_ONE, 20 * FX_ONE, 20 * FX_ONE];
    let mut last_max = 0i64;
    for (s, em) in speeds.iter().zip(expected_max.iter()) {
        let r = rp.query(&speed_datagram(*s));
        assert!(r <= FX_ONE as u32);
        let m = rp.max_value.unwrap();
        assert_eq!(m, *em);
        // monotonically non-decreasing, never above the historical maximum
        assert!(m >= last_max);
        assert!(m <= 20 * FX_ONE);
        last_max = m;
    }
    // at the raised maximum the rate is exactly full
    assert_eq!(rp.query(&speed_datagram(20.0)), FX_ONE as u32);
    // half the raised maximum is exactly half
    assert_eq!(rp.query(&speed_datagram(10.0)), (FX_ONE / 2) as u32);
}

#[test]
fn without_auto_raise_the_cell_never_moves() {
    let p = query_property(&input("speed", Some(10 * FX_ONE), false)).unwrap();
    let mut rp = match p {
        Property::Rate(rp) => rp,
        _ => panic!("expected a rate property"),
    };
    assert_eq!(rp.query(&speed_datagram(40.0)), FX_ONE as u32);
    assert_eq!(rp.max_value, Some(10 * FX_ONE));
}

#[test]
fn rpm_baseline_normalizes_against_idle_to_max_span() {
    let d = zero_datagram_with(true, 5000.0, 8000.0, 1000.0);
    let p = query_property(&input("rpm-baseline", None, false)).unwrap();
    let mut rp = match p {
        Property::Rate(rp) => rp,
        _ => panic!("expected a rate property"),
    };
    let r = rp.query(&d);
    // (5000 - 1000) / (8000 - 1000), in fixed point
    assert_eq!(r, 37449);
    let approx = r as f32 / FX_ONE as f32;
    assert!((approx - 0.5714).abs() < 0.0005);
}

#[test]
fn score_property_is_zero_based_race_position() {
    let mut buf = vec![0u8; DATAGRAM_SIZE];
    buf[0] = 1;
    buf[314] = 3;
    let d = decode(&buf).unwrap();
    let p = query_property(&input("position", None, false)).unwrap();
    match p {
        Property::Score(sp) => {
            assert_eq!(sp.query(&d), 2);
        },
        _ => panic!("expected a score property"),
    }
    // position 0 on the wire ranks as -1: below every slot
    buf[314] = 0;
    let d0 = decode(&buf).unwrap();
    match query_property(&input("position", None, false)).unwrap() {
        Property::Score(sp) => assert_eq!(sp.query(&d0), -1),
        _ => panic!("expected a score property"),
    }
}

#[test]
fn driveline_is_shifted_against_255() {
    // normalized_driving_line at offset 321, as i8
    let mut buf = vec![0u8; DATAGRAM_SIZE];
    buf[0] = 1;
    buf[321] = 127;
    let d = decode(&buf).unwrap();
    let p = query_property(&input("driveline", None, false)).unwrap();
    let mut rp = match p {
        Property::Rate(rp) => rp,
        _ => panic!("expected a rate property"),
    };
    // (127 + 127) / 255
    assert_eq!(rp.query(&d), ((254i64 * FX_ONE) / 255) as u32);
    buf[321] = 0x80;  // -128: (-128 + 127) = -1, clamps to zero
    let dneg = decode(&buf).unwrap();
    assert_eq!(rp.query(&dneg), 0);
}
