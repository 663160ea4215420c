use forza_chroma::config::{
    Color, GridRange, Keyboard, NumKeysSelector, Output, PositionEffectData,
};
use forza_chroma::config::EffectType;
use forza_chroma::datagram::{decode, DATAGRAM_SIZE};
use forza_chroma::effects::meter::{GridSpan, MeterEffect, MeterEffectInstance, MeterOrientation};
use forza_chroma::effects::position::{PositionEffect, PositionEffectInstance};
use forza_chroma::error::Error;
use forza_chroma::fixed::FX_ONE;
use forza_chroma::property::{RateProperty, RateQuery, ScoreProperty, ScoreQuery};
use forza_chroma::state::{ChromaState, Key, Rgb, Target, Tick};

const RED: Rgb = Rgb { r: 255, g: 0, b: 0 };

fn tick0() -> Tick {
    Tick { now: 0, elapsed: None }
}

fn rate_property() -> RateProperty {
    RateProperty { query: RateQuery::Rpm, max_value: None, auto_raise: false }
}

fn meter(orientation: MeterOrientation, base: (u8, u8), span: (u8, u8), fill: bool) -> MeterEffect {
    MeterEffect {
        property: rate_property(),
        color: RED,
        orientation,
        base: GridSpan { start: base.0, end: base.1 },
        meter: GridSpan { start: span.0, end: span.1 },
        fill,
    }
}

fn run_tick_meter(effect: MeterEffect, current: Option<u32>) -> Vec<forza_chroma::state::ChromaWrite> {
    let inst = MeterEffectInstance { effect, current };
    let mut state = ChromaState::new();
    inst.tick(&tick0(), &mut state);
    state.apply()
}

#[test]
fn full_rate_fill_lights_whole_span() {
    // meter along columns 0..=5 of row 2: L = 6
    let writes = run_tick_meter(meter(MeterOrientation::RowBase, (2, 2), (0, 5), true), Some(
        FX_ONE as u32,
    ));
    assert_eq!(writes.len(), 6);
    for (k, w) in writes.iter().enumerate() {
        assert_eq!(w.target, Target::Grid { row: 2, column: k as u8 });
        assert_eq!(w.color, RED);
    }
}

#[test]
fn full_rate_non_fill_lights_one_cell_full_color() {
    let writes = run_tick_meter(meter(MeterOrientation::RowBase, (2, 2), (0, 5), false), Some(
        FX_ONE as u32,
    ));
    assert_eq!(writes.len(), 1);
    assert_eq!(writes[0].target, Target::Grid { row: 2, column: 5 });
    assert_eq!(writes[0].color, RED);
}

#[test]
fn half_rate_fill() {
    // L = 6, p = 0.5: shade = 3.0, filled = 3, frac = 0: cells 0..=3
    let writes = run_tick_meter(meter(MeterOrientation::RowBase, (1, 1), (0, 5), true), Some(
        (FX_ONE / 2) as u32,
    ));
    assert_eq!(writes.len(), 4);
    for (k, w) in writes.iter().enumerate() {
        assert_eq!(w.target, Target::Grid { row: 1, column: k as u8 });
        assert_eq!(w.color, RED);
    }
}

#[test]
fn partial_rate_non_fill_scales_the_boundary_cell() {
    // L = 4, p = 0.375: shade = 1.5, filled = 1, frac = 0.5
    let writes = run_tick_meter(meter(MeterOrientation::RowBase, (0, 0), (0, 3), false), Some(
        (3 * FX_ONE / 8) as u32,
    ));
    assert_eq!(writes.len(), 1);
    assert_eq!(writes[0].target, Target::Grid { row: 0, column: 1 });
    assert_eq!(writes[0].color, Rgb { r: 127, g: 0, b: 0 });
}

#[test]
fn descending_meter_runs_downward() {
    // meter from row 5 down to row 0, base column 14, non-fill at p = 1
    let writes = run_tick_meter(meter(MeterOrientation::ColumnBase, (14, 14), (5, 0), false), Some(
        FX_ONE as u32,
    ));
    assert_eq!(writes.len(), 1);
    assert_eq!(writes[0].target, Target::Grid { row: 0, column: 14 });
    // at p = 1 the boundary cell carries the full color
    assert_eq!(writes[0].color, RED);
}

#[test]
fn zero_rate_fill_lights_only_the_first_cell() {
    let writes = run_tick_meter(meter(MeterOrientation::RowBase, (3, 3), (0, 5), true), Some(0));
    assert_eq!(writes.len(), 1);
    assert_eq!(writes[0].target, Target::Grid { row: 3, column: 0 });
    assert_eq!(writes[0].color, RED);
}

#[test]
fn meter_repeats_across_base_axis() {
    // base rows 1..=3, meter columns 0..=1, full rate, fill
    let writes = run_tick_meter(meter(MeterOrientation::RowBase, (1, 3), (0, 1), true), Some(
        FX_ONE as u32,
    ));
    assert_eq!(writes.len(), 6);
    let mut idx = 0;
    for row in 1..=3u8 {
        for col in 0..=1u8 {
            assert_eq!(writes[idx].target, Target::Grid { row, column: col });
            idx += 1;
        }
    }
}

#[test]
fn idle_meter_writes_nothing() {
    let writes = run_tick_meter(meter(MeterOrientation::RowBase, (2, 2), (0, 5), true), None);
    assert!(writes.is_empty());
}

#[test]
fn meter_update_enters_and_leaves_idle() {
    let mut buf = vec![0u8; DATAGRAM_SIZE];
    buf[0] = 1;
    let active = decode(&buf).unwrap();
    buf[0] = 0;
    let idle = decode(&buf).unwrap();
    let mut inst = meter(MeterOrientation::RowBase, (2, 2), (0, 5), true).start();
    assert_eq!(inst.current, None);
    inst.update(&active);
    assert!(inst.current.is_some());
    inst.update(&idle);
    assert_eq!(inst.current, None);
}

fn output(color: &str, keyboard: Option<Keyboard>) -> Output {
    Output {
        color: color.to_string(),
        keyboard,
        effect_type: EffectType::Meter { fill: false },
    }
}

fn color_table() -> Vec<(String, Color)> {
    vec![("red".to_string(), Color(RED))]
}

#[test]
fn meter_geometry_needs_one_base_and_one_direction() {
    let kb = Keyboard {
        column: GridRange::Range { start: 0, end: 21 },
        row: GridRange::Range { start: 0, end: 5 },
    };
    assert_eq!(
        MeterEffect::new(rate_property(), &output("red", Some(kb)), false, &color_table()),
        Err(Error::InvalidKeyboardGeometry)
    );
    let kb2 = Keyboard {
        column: GridRange::Direction { start: 0, end: 21 },
        row: GridRange::Direction { start: 0, end: 5 },
    };
    assert_eq!(
        MeterEffect::new(rate_property(), &output("red", Some(kb2)), false, &color_table()),
        Err(Error::InvalidKeyboardGeometry)
    );
    assert_eq!(
        MeterEffect::new(rate_property(), &output("red", None), false, &color_table()),
        Err(Error::InvalidKeyboardGeometry)
    );
}

#[test]
fn meter_geometry_resolves_all_to_whole_axis() {
    let kb = Keyboard { column: GridRange::All, row: GridRange::Direction { start: 5, end: 0 } };
    let m = MeterEffect::new(rate_property(), &output("red", Some(kb)), true, &color_table())
        .unwrap();
    assert_eq!(m.orientation, MeterOrientation::ColumnBase);
    assert_eq!(m.base, GridSpan { start: 0, end: 21 });
    assert_eq!(m.meter, GridSpan { start: 5, end: 0 });
    assert!(m.fill);
}

#[test]
fn meter_with_unknown_color_is_rejected() {
    let kb = Keyboard { column: GridRange::All, row: GridRange::Direction { start: 5, end: 0 } };
    assert_eq!(
        MeterEffect::new(rate_property(), &output("magenta", Some(kb)), false, &color_table()),
        Err(Error::UnknownColor)
    );
}

fn position_effect(numkeys: NumKeysSelector) -> PositionEffect {
    PositionEffect::new(
        ScoreProperty { query: ScoreQuery::Position },
        &PositionEffectData { numkeys },
        RED,
    )
}

fn run_tick_position(
    numkeys: NumKeysSelector,
    current: Option<i32>,
) -> Vec<forza_chroma::state::ChromaWrite> {
    let inst = PositionEffectInstance { effect: position_effect(numkeys), current };
    let mut state = ChromaState::new();
    inst.tick(&tick0(), &mut state);
    state.apply()
}

#[test]
fn score_zero_lights_the_first_slot() {
    let writes = run_tick_position(NumKeysSelector::Pad, Some(0));
    assert_eq!(writes.len(), 1);
    assert_eq!(writes[0].target, Target::Named(Key::Numpad1));
    assert_eq!(writes[0].color, RED);
    let writes = run_tick_position(NumKeysSelector::Row, Some(0));
    assert_eq!(writes[0].target, Target::Named(Key::Row1));
}

#[test]
fn score_last_slots() {
    let writes = run_tick_position(NumKeysSelector::Pad, Some(8));
    assert_eq!(writes[0].target, Target::Named(Key::Numpad9));
    let writes = run_tick_position(NumKeysSelector::Row, Some(9));
    assert_eq!(writes[0].target, Target::Named(Key::Row0));
}

#[test]
fn out_of_range_scores_write_nothing() {
    assert!(run_tick_position(NumKeysSelector::Pad, Some(9)).is_empty());
    assert!(run_tick_position(NumKeysSelector::Row, Some(10)).is_empty());
    assert!(run_tick_position(NumKeysSelector::Pad, Some(-1)).is_empty());
    assert!(run_tick_position(NumKeysSelector::Pad, Some(1000)).is_empty());
    assert!(run_tick_position(NumKeysSelector::Pad, None).is_empty());
}

#[test]
fn position_update_enters_and_leaves_idle() {
    let mut buf = vec![0u8; DATAGRAM_SIZE];
    buf[0] = 1;
    buf[314] = 4;
    let active = decode(&buf).unwrap();
    buf[0] = 0;
    let idle = decode(&buf).unwrap();
    let mut inst = position_effect(NumKeysSelector::Pad).start();
    inst.update(&active);
    assert_eq!(inst.current, Some(3));
    inst.update(&idle);
    assert_eq!(inst.current, None);
}
