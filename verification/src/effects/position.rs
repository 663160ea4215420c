//! The position effect: a discrete integer ranking rendered as the
//! illumination of exactly one key from a fixed ordered set of output
//! slots.  Negative or out-of-range rankings write nothing: no wraparound,
//! no clamping to the nearest valid slot.

use vstd::prelude::*;

use crate::config::{NumKeysSelector, PositionEffectData};
use crate::property::ScoreProperty;
use crate::state::{ChromaState, ChromaWrite, Key, Rgb, Target, Tick};

verus! {

/// How many output slots a selector offers.
pub open spec fn spec_numkeys_count(n: NumKeysSelector) -> int {
    match n {
        NumKeysSelector::Pad => 9,
        NumKeysSelector::Row => 10,
    }
}

/// The key at slot `i` of a selector, in display order.
pub open spec fn spec_numkey(n: NumKeysSelector, i: int) -> Key {
    match n {
        NumKeysSelector::Pad => if i == 0 {
            Key::Numpad1
        } else if i == 1 {
            Key::Numpad2
        } else if i == 2 {
            Key::Numpad3
        } else if i == 3 {
            Key::Numpad4
        } else if i == 4 {
            Key::Numpad5
        } else if i == 5 {
            Key::Numpad6
        } else if i == 6 {
            Key::Numpad7
        } else if i == 7 {
            Key::Numpad8
        } else {
            Key::Numpad9
        },
        NumKeysSelector::Row => if i == 0 {
            Key::Row1
        } else if i == 1 {
            Key::Row2
        } else if i == 2 {
            Key::Row3
        } else if i == 3 {
            Key::Row4
        } else if i == 4 {
            Key::Row5
        } else if i == 5 {
            Key::Row6
        } else if i == 6 {
            Key::Row7
        } else if i == 7 {
            Key::Row8
        } else if i == 8 {
            Key::Row9
        } else {
            Key::Row0
        },
    }
}

fn numkey(n: NumKeysSelector, i: usize) -> (r: Key)
    requires
        0 <= i < spec_numkeys_count(n),
    ensures
        r == spec_numkey(n, i as int),
{
    match n {
        NumKeysSelector::Pad => {
            if i == 0 {
                Key::Numpad1
            } else if i == 1 {
                Key::Numpad2
            } else if i == 2 {
                Key::Numpad3
            } else if i == 3 {
                Key::Numpad4
            } else if i == 4 {
                Key::Numpad5
            } else if i == 5 {
                Key::Numpad6
            } else if i == 6 {
                Key::Numpad7
            } else if i == 7 {
                Key::Numpad8
            } else {
                Key::Numpad9
            }
        },
        NumKeysSelector::Row => {
            if i == 0 {
                Key::Row1
            } else if i == 1 {
                Key::Row2
            } else if i == 2 {
                Key::Row3
            } else if i == 3 {
                Key::Row4
            } else if i == 4 {
                Key::Row5
            } else if i == 5 {
                Key::Row6
            } else if i == 6 {
                Key::Row7
            } else if i == 7 {
                Key::Row8
            } else if i == 8 {
                Key::Row9
            } else {
                Key::Row0
            }
        },
    }
}

/// A configured position effect.
#[derive(Clone, Copy, Debug, PartialEq, Eq, Structural)]
pub struct PositionEffect {
    pub property: ScoreProperty,
    pub color: Rgb,
    pub numkeys: NumKeysSelector,
}

impl PositionEffect {
    /// Builds a position effect for the given slot set and color.
    pub fn new(property: ScoreProperty, config: &PositionEffectData, color: Rgb) -> (r:
        PositionEffect)
        ensures
            r == (PositionEffect { property, color, numkeys: config.numkeys }),
    {
        PositionEffect { property, color, numkeys: config.numkeys }
    }

    /// Starts a fresh running instance with no current value.
    pub fn start(&self) -> (r: PositionEffectInstance)
        ensures
            r == (PositionEffectInstance { effect: *self, current: None }),
    {
        PositionEffectInstance { effect: *self, current: None }
    }
}

/// The per-run state of one position effect.
#[derive(Clone, Copy, Debug, PartialEq, Eq, Structural)]
pub struct PositionEffectInstance {
    pub effect: PositionEffect,
    /// The last resolved ranking, or nothing while the race is inactive.
    pub current: Option<i32>,
}

/// The instance after consuming one snapshot: the freshly resolved ranking
/// while the race is active, no value otherwise.
pub open spec fn spec_position_update(
    inst: PositionEffectInstance,
    d: crate::datagram::Horizon4Datagram,
) -> PositionEffectInstance {
    if d.sled.is_race_on != 0 {
        PositionEffectInstance {
            effect: inst.effect,
            current: Some(
                crate::property::spec_score_current(inst.effect.property.query, d) as i32,
            ),
        }
    } else {
        PositionEffectInstance { effect: inst.effect, current: None }
    }
}

/// The writes one tick of this instance makes: the single slot of an
/// in-range ranking, nothing otherwise.
pub open spec fn spec_position_tick_writes(inst: PositionEffectInstance) -> Seq<ChromaWrite> {
    match inst.current {
        None => Seq::empty(),
        Some(v) => if 0 <= v < spec_numkeys_count(inst.effect.numkeys) {
            seq![
                ChromaWrite {
                    target: Target::Named(spec_numkey(inst.effect.numkeys, v as int)),
                    color: inst.effect.color,
                },
            ]
        } else {
            Seq::empty()
        },
    }
}

impl PositionEffectInstance {
    /// Consumes one snapshot: resolves the ranking while the race is
    /// active, drops the value otherwise.
    pub fn update(&mut self, d: &crate::datagram::Horizon4Datagram)
        ensures
            *final(self) == spec_position_update(*old(self), *d),
    {
        if d.sled.is_race_on != 0 {
            let v = self.effect.property.query(d);
            self.current = Some(v);
        } else {
            self.current = None;
        }
    }

    /// Applies the current state's writes to the frame: one key for an
    /// in-range ranking, nothing while idle or out of range.
    pub fn tick(&self, _tick: &Tick, state: &mut ChromaState)
        ensures
            final(state)@ == old(state)@ + spec_position_tick_writes(*self),
    {
        let v = match self.current {
            None => {
                proof {
                    assert(old(state)@ + spec_position_tick_writes(*self) =~= old(state)@);
                }
                return;
            },
            Some(v) => v,
        };
        let count: usize = match self.effect.numkeys {
            NumKeysSelector::Pad => 9,
            NumKeysSelector::Row => 10,
        };
        if v < 0 {
            proof {
                assert(old(state)@ + spec_position_tick_writes(*self) =~= old(state)@);
            }
            return;
        }
        let idx = v as usize;
        if idx >= count {
            proof {
                assert(old(state)@ + spec_position_tick_writes(*self) =~= old(state)@);
            }
            return;
        }
        let key = numkey(self.effect.numkeys, idx);
        state.set_key(key, self.effect.color);
        proof {
            assert(state@ =~= old(state)@ + spec_position_tick_writes(*self));
        }
    }
}

/// The score effect's slot selection: ranking 0 illuminates the first
/// configured output slot, and a ranking at or beyond the slot count, or
/// below zero, illuminates nothing.
pub proof fn lemma_score_effect(inst: PositionEffectInstance)
    ensures
        inst.current == Some(0i32) ==> spec_position_tick_writes(inst) == seq![
            ChromaWrite {
                target: Target::Named(spec_numkey(inst.effect.numkeys, 0)),
                color: inst.effect.color,
            },
        ],
        spec_numkey(NumKeysSelector::Pad, 0) == Key::Numpad1,
        spec_numkey(NumKeysSelector::Row, 0) == Key::Row1,
        match inst.current {
            Some(v) => (v < 0 || v >= spec_numkeys_count(inst.effect.numkeys))
                ==> spec_position_tick_writes(inst) == Seq::<ChromaWrite>::empty(),
            None => spec_position_tick_writes(inst) == Seq::<ChromaWrite>::empty(),
        },
{
}

} // verus!
