use forza_chroma::config::{
    Color, Config, EffectData, EffectType, GridRange, Input, Keyboard, NumKeysSelector, Output,
    PositionEffectData, PredefinedEffectData,
};
use forza_chroma::datagram::{decode, DATAGRAM_SIZE};
use forza_chroma::driver::Driver;
use forza_chroma::effects::{Effect, EffectImpl};
use forza_chroma::effects::position::PositionEffect;
use forza_chroma::error::Error;
use forza_chroma::property::{ScoreProperty, ScoreQuery};
use forza_chroma::state::{Key, Rgb, Target};

fn marker_effect(altitude: i32, marker: u8) -> Effect {
    // the color's red channel marks the declaration index
    Effect::new(
        altitude,
        EffectImpl::Position(PositionEffect {
            property: ScoreProperty { query: ScoreQuery::Position },
            color: Rgb { r: marker, g: 0, b: 0 },
            numkeys: NumKeysSelector::Pad,
        }),
    )
}

fn marker_of(e: &Effect) -> u8 {
    match &e.implementation {
        EffectImpl::Position(p) => p.color.r,
        _ => panic!("expected a position effect"),
    }
}

#[test]
fn insertion_orders_by_altitude_stable_on_ties() {
    let mut driver = Driver { effects: Vec::new() };
    let declared = [(5i32, 0u8), (1, 1), (5, 2), (3, 3), (1, 4), (5, 5)];
    for (alt, idx) in declared {
        driver.add_effect(marker_effect(alt, idx));
    }
    let altitudes: Vec<i32> = driver.effects.iter().map(|e| e.altitude()).collect();
    assert_eq!(altitudes, vec![1, 1, 3, 5, 5, 5]);
    let markers: Vec<u8> = driver.effects.iter().map(marker_of).collect();
    // equal altitudes keep declaration order
    assert_eq!(markers, vec![1, 4, 3, 0, 2, 5]);
}

#[test]
fn negative_altitudes_sort_before_default() {
    let mut driver = Driver { effects: Vec::new() };
    driver.add_effect(marker_effect(0, 0));
    driver.add_effect(marker_effect(-3, 1));
    driver.add_effect(marker_effect(2, 2));
    let altitudes: Vec<i32> = driver.effects.iter().map(|e| e.altitude()).collect();
    assert_eq!(altitudes, vec![-3, 0, 2]);
}

fn meter_config_colored(
    altitude: i32,
    property: &str,
    fill: bool,
    color: &str,
) -> forza_chroma::config::Effect {
    forza_chroma::config::Effect {
        altitude,
        data: EffectData::Custom {
            input: Input { property: property.to_string(), max_value: None, auto_raise: false },
            output: Output {
                color: color.to_string(),
                keyboard: Some(Keyboard {
                    column: GridRange::Range { start: 14, end: 14 },
                    row: GridRange::Direction { start: 5, end: 0 },
                }),
                effect_type: EffectType::Meter { fill },
            },
        },
    }
}

fn meter_config_effect(altitude: i32, property: &str, fill: bool) -> forza_chroma::config::Effect {
    meter_config_colored(altitude, property, fill, "white")
}

fn white_table() -> Vec<(String, Color)> {
    vec![("white".to_string(), Color(Rgb { r: 255, g: 255, b: 255 }))]
}

#[test]
fn from_config_rejects_unknown_property() {
    let config = Config {
        colors: white_table(),
        effect: vec![meter_config_effect(0, "warp-factor", false)],
    };
    assert!(matches!(Driver::from_config(&config), Err(Error::UnknownProperty)));
}

#[test]
fn from_config_rejects_score_property_in_meter() {
    let config = Config {
        colors: white_table(),
        effect: vec![meter_config_effect(0, "position", false)],
    };
    assert!(matches!(Driver::from_config(&config), Err(Error::IncompatibleEffectBinding)));
}

#[test]
fn from_config_rejects_unknown_color() {
    let config = Config { colors: vec![], effect: vec![meter_config_effect(0, "rpm", false)] };
    assert!(matches!(Driver::from_config(&config), Err(Error::UnknownColor)));
}

#[test]
fn from_config_rejects_bad_geometry() {
    let mut effect = meter_config_effect(0, "rpm", false);
    if let EffectData::Custom { output, .. } = &mut effect.data {
        output.keyboard = Some(Keyboard {
            column: GridRange::Range { start: 0, end: 21 },
            row: GridRange::Range { start: 0, end: 5 },
        });
    }
    let config = Config { colors: white_table(), effect: vec![effect] };
    assert!(matches!(Driver::from_config(&config), Err(Error::InvalidKeyboardGeometry)));
}

fn scenario_datagram() -> forza_chroma::datagram::Horizon4Datagram {
    // all-zero datagram except is_race_on = 1, current rpm 5000,
    // max rpm 8000, idle rpm 1000
    let mut buf = vec![0u8; DATAGRAM_SIZE];
    buf[0] = 1;
    buf[8..12].copy_from_slice(&8000.0f32.to_bits().to_le_bytes());
    buf[12..16].copy_from_slice(&1000.0f32.to_bits().to_le_bytes());
    buf[16..20].copy_from_slice(&5000.0f32.to_bits().to_le_bytes());
    decode(&buf).unwrap()
}

#[test]
fn end_to_end_rpm_baseline_scenario() {
    let config = Config {
        colors: white_table(),
        effect: vec![meter_config_effect(0, "rpm-baseline", false)],
    };
    let driver = Driver::from_config(&config).unwrap();
    let mut run = driver.start_run();
    let frame = run.step(&scenario_datagram(), 1_000);
    let writes = frame.apply();
    // normalized rate (5000-1000)/(8000-1000) = 0.5714…; meter length 6,
    // shade = 3.428…, so the boundary cell is 3 steps down from row 5
    assert_eq!(writes.len(), 1);
    assert_eq!(writes[0].target, Target::Grid { row: 2, column: 14 });
    // channel scaled by the fractional remainder 0.428…
    assert_eq!(writes[0].color, Rgb { r: 109, g: 109, b: 109 });
}

#[test]
fn step_with_race_off_writes_nothing() {
    let config = Config {
        colors: white_table(),
        effect: vec![meter_config_effect(0, "rpm-baseline", false)],
    };
    let driver = Driver::from_config(&config).unwrap();
    let mut run = driver.start_run();
    let buf = vec![0u8; DATAGRAM_SIZE];
    let frame = run.step(&decode(&buf).unwrap(), 0);
    assert!(frame.apply().is_empty());
}

#[test]
fn effects_apply_in_ascending_altitude_order() {
    // two meters over the same cells: the higher-altitude (white) one is
    // declared first but must write after the lower-altitude (red) one,
    // occluding it at every shared coordinate
    let config = Config {
        colors: vec![
            ("white".to_string(), Color(Rgb { r: 255, g: 255, b: 255 })),
            ("red".to_string(), Color(Rgb { r: 255, g: 0, b: 0 })),
        ],
        effect: vec![
            meter_config_colored(10, "rpm", true, "white"),
            meter_config_colored(-1, "rpm-baseline", true, "red"),
        ],
    };
    let driver = Driver::from_config(&config).unwrap();
    assert_eq!(driver.effects.len(), 2);
    assert_eq!(driver.effects[0].altitude(), -1);
    assert_eq!(driver.effects[1].altitude(), 10);
    let mut run = driver.start_run();
    let frame = run.step(&scenario_datagram(), 0);
    let writes = frame.apply();
    // rpm 5000/8000 fills cells 0..=3; rpm-baseline 0.5714 fills 0..=3 too
    assert_eq!(writes.len(), 8);
    for w in &writes[..4] {
        assert_eq!(w.color, Rgb { r: 255, g: 0, b: 0 });
    }
    for w in &writes[4..] {
        assert_eq!(w.color, Rgb { r: 255, g: 255, b: 255 });
    }
    // per coordinate, the last write is the high-altitude effect's
    for w in &writes[..4] {
        let last = writes.iter().rev().find(|x| x.target == w.target).unwrap();
        assert_eq!(last.color, Rgb { r: 255, g: 255, b: 255 });
    }
}

#[test]
fn predefined_position_effect_via_config() {
    let config = Config {
        colors: vec![],
        effect: vec![forza_chroma::config::Effect {
            altitude: 0,
            data: EffectData::Predefined {
                data: PredefinedEffectData::Position(PositionEffectData {
                    numkeys: NumKeysSelector::Pad,
                }),
            },
        }],
    };
    let driver = Driver::from_config(&config).unwrap();
    let mut run = driver.start_run();
    // race on, race_position 1: rank 0 lights the first pad key
    let mut buf = vec![0u8; DATAGRAM_SIZE];
    buf[0] = 1;
    buf[314] = 1;
    let frame = run.step(&decode(&buf).unwrap(), 5);
    let writes = frame.apply();
    assert_eq!(writes.len(), 1);
    assert_eq!(writes[0].target, Target::Named(Key::Numpad1));
    assert_eq!(writes[0].color, Rgb { r: 255, g: 255, b: 255 });
}

#[test]
fn first_tick_has_no_elapsed_time() {
    let config = Config { colors: vec![], effect: vec![] };
    let driver = Driver::from_config(&config).unwrap();
    let mut run = driver.start_run();
    assert!(run.last.is_none());
    let buf = vec![0u8; DATAGRAM_SIZE];
    run.step(&decode(&buf).unwrap(), 42);
    assert_eq!(run.last, Some(42));
}
