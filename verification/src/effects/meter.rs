//! The meter effect: a rate rendered as a partial bar along a directional
//! meter axis, repeated across every position of a fixed base axis.
//!
//! With normalized rate `p` and meter length `L`, the shade is `L * p`; the
//! whole cells of the shade are `filled = floor(shade)`, clamped to the last
//! cell at full saturation.  In fill mode every cell up to and including
//! `filled` gets the full color; otherwise only the cell at `filled` is
//! written, scaled by the fractional remainder of the shade, giving a
//! smooth partial-cell gradient.

use vstd::prelude::*;
use vstd::arithmetic::div_mod::{
    lemma_div_is_ordered, lemma_div_multiples_vanish, lemma_multiply_divide_lt,
};
use vstd::arithmetic::mul::{lemma_mul_is_commutative, lemma_mul_strict_inequality};
use vstd::arithmetic::power2::{lemma2_to64, pow2};
use vstd::bits::lemma_u32_shr_is_div;

use crate::config::{Color, GridRange, Output};
use crate::error::Error;
use crate::fixed::FX_ONE;
use crate::property::RateProperty;
use crate::state::{ChromaState, ChromaWrite, Rgb, Target, Tick, MAX_COLUMN, MAX_ROW};

verus! {

/// An inclusive span of grid cells; `start` may exceed `end` on a
/// directional meter axis.
#[derive(Clone, Copy, Debug, PartialEq, Eq, Structural)]
pub struct GridSpan {
    pub start: u8,
    pub end: u8,
}

/// Which axis carries the base of the meter.
#[derive(Clone, Copy, Debug, PartialEq, Eq, Structural)]
pub enum MeterOrientation {
    /// The column range is the base; the meter runs along rows.
    ColumnBase,
    /// The row range is the base; the meter runs along columns.
    RowBase,
}

/// A configured meter effect.
#[derive(Clone, Copy, Debug, PartialEq, Eq)]
pub struct MeterEffect {
    pub property: RateProperty,
    pub color: Rgb,
    pub orientation: MeterOrientation,
    /// The fixed base axis span, ascending.
    pub base: GridSpan,
    /// The directional meter axis span, in either direction.
    pub meter: GridSpan,
    pub fill: bool,
}

/// `All` stands for the whole axis of the given length.
pub open spec fn spec_resolve_axis(r: GridRange, axis_len: u8) -> GridRange {
    match r {
        GridRange::All => GridRange::Range { start: 0, end: (axis_len - 1) as u8 },
        x => x,
    }
}

/// The meter a configuration resolves to: the output needs a keyboard
/// geometry, a known color, and exactly one fixed range with one
/// directional range; each failure in that order.
pub open spec fn spec_meter_new(
    property: RateProperty,
    output: Output,
    fill: bool,
    colors: Seq<(String, Color)>,
) -> Result<MeterEffect, Error> {
    match output.keyboard {
        None => Err(Error::InvalidKeyboardGeometry),
        Some(kb) => match crate::config::spec_lookup_color(colors, output.color@) {
            None => Err(Error::UnknownColor),
            Some(color) => {
                let col = spec_resolve_axis(kb.column, MAX_COLUMN);
                let row = spec_resolve_axis(kb.row, MAX_ROW);
                match (col, row) {
                    (
                        GridRange::Range { start: bs, end: be },
                        GridRange::Direction { start: ms, end: me },
                    ) => Ok(
                        MeterEffect {
                            property,
                            color: color.0,
                            orientation: MeterOrientation::ColumnBase,
                            base: GridSpan { start: bs, end: be },
                            meter: GridSpan { start: ms, end: me },
                            fill,
                        },
                    ),
                    (
                        GridRange::Direction { start: ms, end: me },
                        GridRange::Range { start: bs, end: be },
                    ) => Ok(
                        MeterEffect {
                            property,
                            color: color.0,
                            orientation: MeterOrientation::RowBase,
                            base: GridSpan { start: bs, end: be },
                            meter: GridSpan { start: ms, end: me },
                            fill,
                        },
                    ),
                    _ => Err(Error::InvalidKeyboardGeometry),
                }
            },
        },
    }
}

fn resolve_axis(r: &GridRange, axis_len: u8) -> (out: GridRange)
    requires
        axis_len >= 1,
    ensures
        out == spec_resolve_axis(*r, axis_len),
{
    match r {
        GridRange::All => GridRange::Range { start: 0, end: axis_len - 1 },
        x => *x,
    }
}

impl MeterEffect {
    /// Builds a meter effect from its configured output geometry.
    pub fn new(
        property: RateProperty,
        output: &Output,
        fill: bool,
        colors: &Vec<(String, Color)>,
    ) -> (r: Result<MeterEffect, Error>)
        ensures
            r == spec_meter_new(property, *output, fill, colors@),
    {
        let kb = match &output.keyboard {
            None => {
                return Err(Error::InvalidKeyboardGeometry);
            },
            Some(kb) => kb,
        };
        let color = match crate::config::lookup_color(colors, &output.color) {
            None => {
                return Err(Error::UnknownColor);
            },
            Some(c) => c,
        };
        let col = resolve_axis(&kb.column, MAX_COLUMN);
        let row = resolve_axis(&kb.row, MAX_ROW);
        match (col, row) {
            (
                GridRange::Range { start: bs, end: be },
                GridRange::Direction { start: ms, end: me },
            ) => Ok(
                MeterEffect {
                    property,
                    color: color.0,
                    orientation: MeterOrientation::ColumnBase,
                    base: GridSpan { start: bs, end: be },
                    meter: GridSpan { start: ms, end: me },
                    fill,
                },
            ),
            (
                GridRange::Direction { start: ms, end: me },
                GridRange::Range { start: bs, end: be },
            ) => Ok(
                MeterEffect {
                    property,
                    color: color.0,
                    orientation: MeterOrientation::RowBase,
                    base: GridSpan { start: bs, end: be },
                    meter: GridSpan { start: ms, end: me },
                    fill,
                },
            ),
            _ => Err(Error::InvalidKeyboardGeometry),
        }
    }

    /// Starts a fresh running instance with no current value.
    pub fn start(&self) -> (r: MeterEffectInstance)
        ensures
            r == (MeterEffectInstance { effect: *self, current: None }),
    {
        MeterEffectInstance { effect: *self, current: None }
    }
}

/// The per-run state of one meter effect.
#[derive(Clone, Copy, Debug, PartialEq, Eq)]
pub struct MeterEffectInstance {
    pub effect: MeterEffect,
    /// The last normalized rate, or nothing while the race is inactive.
    pub current: Option<u32>,
}

/// A running meter instance always holds a normalized rate.
pub open spec fn spec_meter_instance_wf(inst: MeterEffectInstance) -> bool {
    match inst.current {
        Some(p) => p <= FX_ONE,
        None => true,
    }
}

/// The instance after consuming one snapshot: the freshly resolved rate
/// while the race is active, no value otherwise.  The property's stored
/// maximum is only touched when the property is queried.
pub open spec fn spec_meter_update(
    inst: MeterEffectInstance,
    d: crate::datagram::Horizon4Datagram,
) -> MeterEffectInstance {
    if d.sled.is_race_on != 0 {
        MeterEffectInstance {
            effect: MeterEffect {
                property: RateProperty {
                    query: inst.effect.property.query,
                    max_value: crate::property::spec_cell_after(inst.effect.property, d),
                    auto_raise: inst.effect.property.auto_raise,
                },
                ..inst.effect
            },
            current: Some(crate::property::spec_rate_result(inst.effect.property, d) as u32),
        }
    } else {
        MeterEffectInstance { effect: inst.effect, current: None }
    }
}

/// The meter length: the inclusive size of the meter span.
pub open spec fn spec_meter_len(e: MeterEffect) -> int {
    if e.meter.start > e.meter.end {
        e.meter.start - e.meter.end + 1
    } else {
        e.meter.end - e.meter.start + 1
    }
}

/// The whole cells of the shade `L * p`, clamped to the last cell at full
/// saturation.
pub open spec fn spec_filled(len: int, p: int) -> int {
    if p >= FX_ONE {
        len - 1
    } else {
        len * p / (FX_ONE as int)
    }
}

/// The fractional remainder of the shade, full at saturation.
pub open spec fn spec_frac(len: int, p: int) -> int {
    if p >= FX_ONE {
        FX_ONE as int
    } else {
        len * p % (FX_ONE as int)
    }
}

/// The grid cell `k` steps along the meter axis.
pub open spec fn spec_extent(e: MeterEffect, k: int) -> u8 {
    if e.meter.start > e.meter.end {
        (e.meter.start - k) as u8
    } else {
        (e.meter.start + k) as u8
    }
}

/// The coordinate of base position `b`, `k` steps along the meter.
pub open spec fn spec_meter_target(e: MeterEffect, b: int, k: int) -> Target {
    match e.orientation {
        MeterOrientation::RowBase => Target::Grid { row: b as u8, column: spec_extent(e, k) },
        MeterOrientation::ColumnBase => Target::Grid { row: spec_extent(e, k), column: b as u8 },
    }
}

/// A color scaled by a fixed-point fraction, channel by channel.
pub open spec fn spec_scale_channel(c: u8, frac: int) -> u8 {
    (c * frac / (FX_ONE as int)) as u8
}

/// A color scaled by a fixed-point fraction.
pub open spec fn spec_scale_color(c: Rgb, frac: int) -> Rgb {
    Rgb {
        r: spec_scale_channel(c.r, frac),
        g: spec_scale_channel(c.g, frac),
        b: spec_scale_channel(c.b, frac),
    }
}

/// The writes one base position receives for normalized rate `p`.
pub open spec fn spec_meter_writes_for_base(e: MeterEffect, p: int, b: int) -> Seq<ChromaWrite> {
    let len = spec_meter_len(e);
    let filled = spec_filled(len, p);
    let frac = spec_frac(len, p);
    if e.fill {
        Seq::new(
            (filled + 1) as nat,
            |k: int| ChromaWrite { target: spec_meter_target(e, b, k), color: e.color },
        )
    } else {
        seq![
            ChromaWrite {
                target: spec_meter_target(e, b, filled),
                color: spec_scale_color(e.color, frac),
            },
        ]
    }
}

/// The writes of the first `n` base positions, in base order.
pub open spec fn spec_meter_writes_up_to(e: MeterEffect, p: int, n: int) -> Seq<ChromaWrite>
    decreases n,
{
    if n <= 0 {
        Seq::empty()
    } else {
        spec_meter_writes_up_to(e, p, n - 1) + spec_meter_writes_for_base(
            e,
            p,
            e.base.start + n - 1,
        )
    }
}

/// How many positions the base axis has.
pub open spec fn spec_base_count(e: MeterEffect) -> int {
    if e.base.start <= e.base.end {
        e.base.end - e.base.start + 1
    } else {
        0
    }
}

/// Every write one tick of the meter makes at rate `p`.
pub open spec fn spec_meter_writes(e: MeterEffect, p: int) -> Seq<ChromaWrite> {
    spec_meter_writes_up_to(e, p, spec_base_count(e))
}

/// The writes one tick of this instance makes: none while idle.
pub open spec fn spec_meter_tick_writes(inst: MeterEffectInstance) -> Seq<ChromaWrite> {
    match inst.current {
        None => Seq::empty(),
        Some(p) => spec_meter_writes(inst.effect, p as int),
    }
}

fn scale_color(c: Rgb, frac: u32) -> (r: Rgb)
    requires
        frac <= FX_ONE,
    ensures
        r == spec_scale_color(c, frac as int),
{
    proof {
        assert((c.r as int) * frac <= 255 * (FX_ONE as int)) by (nonlinear_arith)
            requires
                c.r <= 255,
                frac <= FX_ONE,
        ;
        assert((c.g as int) * frac <= 255 * (FX_ONE as int)) by (nonlinear_arith)
            requires
                c.g <= 255,
                frac <= FX_ONE,
        ;
        assert((c.b as int) * frac <= 255 * (FX_ONE as int)) by (nonlinear_arith)
            requires
                c.b <= 255,
                frac <= FX_ONE,
        ;
        lemma_div_is_ordered((c.r as int) * frac, 255 * (FX_ONE as int), FX_ONE as int);
        lemma_div_is_ordered((c.g as int) * frac, 255 * (FX_ONE as int), FX_ONE as int);
        lemma_div_is_ordered((c.b as int) * frac, 255 * (FX_ONE as int), FX_ONE as int);
    }
    Rgb {
        r: ((c.r as u32) * frac / (FX_ONE as u32)) as u8,
        g: ((c.g as u32) * frac / (FX_ONE as u32)) as u8,
        b: ((c.b as u32) * frac / (FX_ONE as u32)) as u8,
    }
}

impl MeterEffectInstance {
    /// Consumes one snapshot: resolves the rate while the race is active,
    /// drops the value otherwise.
    pub fn update(&mut self, d: &crate::datagram::Horizon4Datagram)
        ensures
            *final(self) == spec_meter_update(*old(self), *d),
            spec_meter_instance_wf(*final(self)),
    {
        if d.sled.is_race_on != 0 {
            let p = self.effect.property.query(d);
            self.current = Some(p);
        } else {
            self.current = None;
        }
    }

    /// Applies the current state's writes to the frame: the partial bar at
    /// every base position, or nothing while idle.
    #[verifier::loop_isolation(false)]
    pub fn tick(&self, _tick: &Tick, state: &mut ChromaState)
        requires
            spec_meter_instance_wf(*self),
        ensures
            final(state)@ == old(state)@ + spec_meter_tick_writes(*self),
    {
        let p = match self.current {
            None => {
                proof {
                    assert(old(state)@ + spec_meter_tick_writes(*self) =~= old(state)@);
                }
                return;
            },
            Some(p) => p,
        };
        let e = &self.effect;
        let ms = e.meter.start;
        let me = e.meter.end;
        let len: u32 = if ms > me {
            (ms - me) as u32 + 1
        } else {
            (me - ms) as u32 + 1
        };
        let (filled, frac): (u32, u32) = if p == FX_ONE as u32 {
            (len - 1, FX_ONE as u32)
        } else {
            proof {
                assert(len * p <= 256 * 65536) by (nonlinear_arith)
                    requires
                        len <= 256,
                        p <= 65536,
                ;
            }
            let shade: u32 = len * p;
            proof {
                lemma_u32_shr_is_div(shade, 16);
                lemma2_to64();
                assert(shade & 0xffff == shade % 0x10000) by (bit_vector);
                lemma_mul_strict_inequality(p as int, FX_ONE as int, len as int);
                lemma_mul_is_commutative(p as int, len as int);
                lemma_mul_is_commutative(FX_ONE as int, len as int);
                lemma_mul_is_commutative(len as int, FX_ONE as int);
                lemma_multiply_divide_lt(shade as int, FX_ONE as int, len as int);
            }
            (shade >> 16, shade & 0xffff)
        };
        assert(filled == spec_filled(len as int, p as int));
        assert(frac == spec_frac(len as int, p as int));
        assert(filled < len);
        if e.base.start > e.base.end {
            proof {
                assert(old(state)@ + spec_meter_tick_writes(*self) =~= old(state)@);
            }
            return;
        }
        let bs = e.base.start;
        let be = e.base.end;
        let mut bi: u32 = bs as u32;
        proof {
            assert(old(state)@ + spec_meter_writes_up_to(self.effect, p as int, 0) =~= old(
                state,
            )@);
        }
        while bi <= be as u32
            invariant
                bs <= bi <= be + 1,
                state@ == old(state)@ + spec_meter_writes_up_to(
                    self.effect,
                    p as int,
                    bi - bs,
                ),
            decreases be + 1 - bi,
        {
            let b: u8 = bi as u8;
            let ghost writes_before = state@;
            if e.fill {
                let mut k: u32 = 0;
                proof {
                    assert(writes_before + Seq::new(
                        0nat,
                        |kk: int| ChromaWrite {
                            target: spec_meter_target(self.effect, bi as int, kk),
                            color: self.effect.color,
                        },
                    ) =~= writes_before);
                }
                while k <= filled
                    invariant
                        k <= filled + 1,
                        state@ == writes_before + Seq::new(
                            k as nat,
                            |kk: int| ChromaWrite {
                                target: spec_meter_target(self.effect, bi as int, kk),
                                color: self.effect.color,
                            },
                        ),
                    decreases filled + 1 - k,
                {
                    let pos: u8 = if ms > me {
                        ms - (k as u8)
                    } else {
                        ms + (k as u8)
                    };
                    let (row, column) = match e.orientation {
                        MeterOrientation::RowBase => (b, pos),
                        MeterOrientation::ColumnBase => (pos, b),
                    };
                    state.set_position(row, column, e.color);
                    proof {
                        assert(state@ =~= writes_before + Seq::new(
                            (k + 1) as nat,
                            |kk: int| ChromaWrite {
                                target: spec_meter_target(self.effect, bi as int, kk),
                                color: self.effect.color,
                            },
                        ));
                    }
                    k += 1;
                }
                proof {
                    assert(state@ =~= writes_before + spec_meter_writes_for_base(
                        self.effect,
                        p as int,
                        bi as int,
                    ));
                }
            } else {
                let pos: u8 = if ms > me {
                    ms - (filled as u8)
                } else {
                    ms + (filled as u8)
                };
                let (row, column) = match e.orientation {
                    MeterOrientation::RowBase => (b, pos),
                    MeterOrientation::ColumnBase => (pos, b),
                };
                state.set_position(row, column, scale_color(e.color, frac));
                proof {
                    assert(state@ =~= writes_before + spec_meter_writes_for_base(
                        self.effect,
                        p as int,
                        bi as int,
                    ));
                }
            }
            proof {
                assert(spec_meter_writes_up_to(self.effect, p as int, bi + 1 - bs)
                    == spec_meter_writes_up_to(self.effect, p as int, bi - bs)
                    + spec_meter_writes_for_base(self.effect, p as int, bi as int));
                assert(state@ =~= old(state)@ + spec_meter_writes_up_to(
                    self.effect,
                    p as int,
                    bi + 1 - bs,
                ));
            }
            bi += 1;
        }
        proof {
            assert(bi - bs == spec_base_count(self.effect));
        }
    }
}

/// Meter rendering at full saturation: in fill mode every one of the `L`
/// meter cells of a base position is written in the full color, at `L`
/// distinct coordinates; in non-fill mode exactly one cell is written, in
/// the full color.
pub proof fn lemma_meter_full_rate(e: MeterEffect, b: int)
    ensures
        e.fill ==> spec_meter_writes_for_base(e, FX_ONE as int, b).len() == spec_meter_len(e),
        e.fill ==> forall|k: int|
            0 <= k < spec_meter_len(e) ==> #[trigger] spec_meter_writes_for_base(
                e,
                FX_ONE as int,
                b,
            )[k].color == e.color,
        e.fill ==> forall|k1: int, k2: int|
            0 <= k1 < k2 < spec_meter_len(e) ==> spec_meter_writes_for_base(e, FX_ONE as int, b)[k1].target
                != spec_meter_writes_for_base(e, FX_ONE as int, b)[k2].target,
        !e.fill ==> spec_meter_writes_for_base(e, FX_ONE as int, b).len() == 1,
        !e.fill ==> spec_meter_writes_for_base(e, FX_ONE as int, b)[0].color == e.color,
{
    let len = spec_meter_len(e);
    assert(spec_filled(len, FX_ONE as int) == len - 1);
    if e.fill {
        assert forall|k1: int, k2: int| 0 <= k1 < k2 < len implies spec_meter_writes_for_base(
            e,
            FX_ONE as int,
            b,
        )[k1].target != spec_meter_writes_for_base(e, FX_ONE as int, b)[k2].target by {
            assert(spec_extent(e, k1) != spec_extent(e, k2));
        }
    } else {
        lemma_scale_color_full(e.color);
    }
}

/// Scaling a color by a full fraction is the identity.
pub proof fn lemma_scale_color_full(c: Rgb)
    ensures
        spec_scale_color(c, FX_ONE as int) == c,
{
    lemma_div_multiples_vanish(c.r as int, FX_ONE as int);
    lemma_div_multiples_vanish(c.g as int, FX_ONE as int);
    lemma_div_multiples_vanish(c.b as int, FX_ONE as int);
    lemma_mul_is_commutative(c.r as int, FX_ONE as int);
    lemma_mul_is_commutative(c.g as int, FX_ONE as int);
    lemma_mul_is_commutative(c.b as int, FX_ONE as int);
}

} // verus!
