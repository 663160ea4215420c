//! The effect engine's closed set of effect kinds and their running
//! instances.
//!
//! Every instance obeys the same two-operation contract per tick:
//! `update(snapshot)` recomputes its current value (entering the idle state
//! whenever the race-active flag is off), then `tick(time, frame)` applies
//! the current state's writes to the shared frame.  An idle instance
//! contributes nothing; the frame itself is rebuilt fresh each tick.

use vstd::prelude::*;

use crate::datagram::Horizon4Datagram;
use crate::state::{ChromaState, ChromaWrite, Tick};

pub mod meter;
pub mod position;

use meter::{
    spec_meter_instance_wf, spec_meter_tick_writes, spec_meter_update, MeterEffect,
    MeterEffectInstance,
};
use position::{
    spec_position_tick_writes, spec_position_update, PositionEffect, PositionEffectInstance,
};

verus! {

/// One of the configured effect kinds.
#[derive(Clone, Copy, Debug, PartialEq, Eq)]
pub enum EffectImpl {
    Meter(MeterEffect),
    Position(PositionEffect),
}

/// An effect as the driver holds it: its layering altitude and its kind.
#[derive(Clone, Copy, Debug, PartialEq, Eq)]
pub struct Effect {
    pub altitude: i32,
    pub implementation: EffectImpl,
}

/// The fresh instance an effect kind starts with.
pub open spec fn spec_effect_start(e: EffectImpl) -> EffectInstance {
    match e {
        EffectImpl::Meter(m) => EffectInstance::Meter(
            MeterEffectInstance { effect: m, current: None },
        ),
        EffectImpl::Position(p) => EffectInstance::Position(
            PositionEffectInstance { effect: p, current: None },
        ),
    }
}

impl Effect {
    /// Pairs an effect kind with its layering altitude.
    pub fn new(altitude: i32, implementation: EffectImpl) -> (r: Effect)
        ensures
            r == (Effect { altitude, implementation }),
    {
        Effect { altitude, implementation }
    }

    /// The effect's layering altitude; higher ones are applied later and
    /// occlude lower ones at shared coordinates.
    pub fn altitude(&self) -> (r: i32)
        ensures
            r == self.altitude,
    {
        self.altitude
    }

    /// Starts a fresh running instance for one driver run.
    pub fn start(&self) -> (r: EffectInstance)
        ensures
            r == spec_effect_start(self.implementation),
            spec_instance_wf(r),
    {
        match &self.implementation {
            EffectImpl::Meter(m) => EffectInstance::Meter(m.start()),
            EffectImpl::Position(p) => EffectInstance::Position(p.start()),
        }
    }
}

/// The running state of one effect.
#[derive(Clone, Copy, Debug, PartialEq, Eq)]
pub enum EffectInstance {
    Meter(MeterEffectInstance),
    Position(PositionEffectInstance),
}

/// A running instance never holds an out-of-range rate.
pub open spec fn spec_instance_wf(i: EffectInstance) -> bool {
    match i {
        EffectInstance::Meter(m) => spec_meter_instance_wf(m),
        EffectInstance::Position(_) => true,
    }
}

/// The instance after consuming one snapshot.
pub open spec fn spec_instance_update(i: EffectInstance, d: Horizon4Datagram) -> EffectInstance {
    match i {
        EffectInstance::Meter(m) => EffectInstance::Meter(spec_meter_update(m, d)),
        EffectInstance::Position(p) => EffectInstance::Position(spec_position_update(p, d)),
    }
}

/// The writes one tick of an instance makes in its current state.
pub open spec fn spec_instance_writes(i: EffectInstance) -> Seq<ChromaWrite> {
    match i {
        EffectInstance::Meter(m) => spec_meter_tick_writes(m),
        EffectInstance::Position(p) => spec_position_tick_writes(p),
    }
}

impl EffectInstance {
    /// Consumes one snapshot, recomputing the current value and the
    /// idle/active state.
    pub fn update(&mut self, d: &Horizon4Datagram)
        requires
            spec_instance_wf(*old(self)),
        ensures
            *final(self) == spec_instance_update(*old(self), *d),
            spec_instance_wf(*final(self)),
    {
        match self {
            EffectInstance::Meter(m) => m.update(d),
            EffectInstance::Position(p) => p.update(d),
        }
    }

    /// Applies the current state's writes to the shared frame.
    pub fn tick(&self, tick: &Tick, state: &mut ChromaState)
        requires
            spec_instance_wf(*self),
        ensures
            final(state)@ == old(state)@ + spec_instance_writes(*self),
    {
        match self {
            EffectInstance::Meter(m) => m.tick(tick, state),
            EffectInstance::Position(p) => p.tick(tick, state),
        }
    }
}

} // verus!
