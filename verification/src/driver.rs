//! The driver: owns the effect list, ordered by ascending altitude with
//! ties kept in declaration order, and runs the per-tick sequence — update
//! every instance with the snapshot, tick every instance into one fresh
//! frame, in order, so later (higher-altitude) effects occlude earlier ones
//! at shared coordinates.

use vstd::prelude::*;

use crate::config::{Config, EffectData, EffectType, PredefinedEffectData};
use crate::datagram::Horizon4Datagram;
use crate::effects::{
    spec_effect_start, spec_instance_update, spec_instance_wf, spec_instance_writes, Effect,
    EffectImpl, EffectInstance,
};
use crate::effects::meter::{spec_meter_new, MeterEffect};
use crate::effects::position::PositionEffect;
use crate::error::Error;
use crate::property::{
    spec_query_property, query_property, Property, ScoreProperty, ScoreQuery,
};
use crate::state::{ChromaState, ChromaWrite, Rgb, Tick};

verus! {

/// The effect list is ordered by ascending altitude.
pub open spec fn spec_sorted_by_altitude(s: Seq<Effect>) -> bool {
    forall|i: int, j: int| 0 <= i < j < s.len() ==> s[i].altitude <= s[j].altitude
}

/// Where a new effect of altitude `a` is inserted: after every entry whose
/// altitude does not exceed `a`.
pub open spec fn spec_upper_bound(s: Seq<Effect>, a: int) -> int
    decreases s.len(),
{
    if s.len() == 0 {
        0
    } else if s[0].altitude <= a {
        1 + spec_upper_bound(s.drop_first(), a)
    } else {
        0
    }
}

/// The effect list after inserting one more declaration.
pub open spec fn spec_add_effect(s: Seq<Effect>, e: Effect) -> Seq<Effect> {
    s.insert(spec_upper_bound(s, e.altitude as int), e)
}

proof fn lemma_upper_bound_props(s: Seq<Effect>, a: int)
    ensures
        0 <= spec_upper_bound(s, a) <= s.len(),
        forall|j: int| 0 <= j < spec_upper_bound(s, a) ==> s[j].altitude <= a,
        spec_upper_bound(s, a) < s.len() ==> s[spec_upper_bound(s, a)].altitude > a,
    decreases s.len(),
{
    if s.len() > 0 && s[0].altitude <= a {
        lemma_upper_bound_props(s.drop_first(), a);
        assert forall|j: int| 0 <= j < spec_upper_bound(s, a) implies s[j].altitude <= a by {
            if j > 0 {
                assert(s.drop_first()[j - 1] == s[j]);
            }
        }
        assert(spec_upper_bound(s, a) < s.len() ==> s.drop_first()[spec_upper_bound(s, a) - 1]
            == s[spec_upper_bound(s, a)]);
    }
}

proof fn lemma_upper_bound_from_scan(s: Seq<Effect>, a: int, i: int)
    requires
        0 <= i <= s.len(),
        forall|j: int| 0 <= j < i ==> s[j].altitude <= a,
        i < s.len() ==> s[i].altitude > a,
    ensures
        spec_upper_bound(s, a) == i,
    decreases s.len(),
{
    if s.len() == 0 {
    } else if i == 0 {
    } else {
        assert(s[0].altitude <= a);
        assert forall|j: int| 0 <= j < i - 1 implies s.drop_first()[j].altitude <= a by {
            assert(s.drop_first()[j] == s[j + 1]);
        }
        assert(i - 1 < s.drop_first().len() ==> s.drop_first()[i - 1] == s[i]);
        lemma_upper_bound_from_scan(s.drop_first(), a, i - 1);
    }
}

/// Effect insertion keeps the altitude order and the declaration order of
/// equal altitudes: the new effect lands after every entry whose altitude
/// does not exceed its own (equal-altitude predecessors included) and
/// before every entry of strictly higher altitude, while all previous
/// entries keep their relative order.
pub proof fn lemma_effect_insertion_order(s: Seq<Effect>, e: Effect)
    requires
        spec_sorted_by_altitude(s),
    ensures
        spec_sorted_by_altitude(spec_add_effect(s, e)),
        spec_add_effect(s, e).len() == s.len() + 1,
        spec_add_effect(s, e)[spec_upper_bound(s, e.altitude as int)] == e,
        forall|j: int| 0 <= j < spec_upper_bound(s, e.altitude as int) ==> spec_add_effect(s, e)[j]
            == s[j] && s[j].altitude <= e.altitude,
        forall|j: int| spec_upper_bound(s, e.altitude as int) <= j < s.len() ==> spec_add_effect(
            s,
            e,
        )[j + 1] == s[j] && s[j].altitude > e.altitude,
{
    let a = e.altitude as int;
    let pos = spec_upper_bound(s, a);
    lemma_upper_bound_props(s, a);
    let t = spec_add_effect(s, e);
    assert forall|j: int| pos <= j < s.len() implies t[j + 1] == s[j] && s[j].altitude > a by {
        assert(s[pos].altitude > a);
        assert(s[pos].altitude <= s[j].altitude);
    }
    assert forall|i: int, j: int| 0 <= i < j < t.len() implies t[i].altitude <= t[j].altitude by {
        assert(pos <= s.len());
    }
}

/// The driver's effect list after inserting each declaration in turn.
pub open spec fn spec_driver_effects(decls: Seq<Effect>) -> Seq<Effect>
    decreases decls.len(),
{
    if decls.len() == 0 {
        Seq::empty()
    } else {
        spec_add_effect(spec_driver_effects(decls.drop_last()), decls.last())
    }
}

/// The driver's effect list is sorted by altitude for every declaration
/// sequence.
pub proof fn lemma_driver_effects_sorted(decls: Seq<Effect>)
    ensures
        spec_sorted_by_altitude(spec_driver_effects(decls)),
    decreases decls.len(),
{
    if decls.len() > 0 {
        lemma_driver_effects_sorted(decls.drop_last());
        lemma_effect_insertion_order(spec_driver_effects(decls.drop_last()), decls.last());
    }
}

/// The effect one declaration builds, or the configuration error it
/// raises: an unknown property name, a score property wired into the
/// rate-only meter, a missing or unknown color, or invalid geometry.
pub open spec fn spec_build_effect(
    decl: crate::config::Effect,
    colors: Seq<(String, crate::config::Color)>,
) -> Result<Effect, Error> {
    match decl.data {
        EffectData::Custom { input, output } => match spec_query_property(input) {
            Err(er) => Err(er),
            Ok(Property::Rate(rp)) => match output.effect_type {
                EffectType::Meter { fill } => match spec_meter_new(rp, output, fill, colors) {
                    Err(er) => Err(er),
                    Ok(m) => Ok(
                        Effect { altitude: decl.altitude, implementation: EffectImpl::Meter(m) },
                    ),
                },
            },
            Ok(Property::Score(_)) => Err(Error::IncompatibleEffectBinding),
        },
        EffectData::Predefined { data: PredefinedEffectData::Position(pd) } => Ok(
            Effect {
                altitude: decl.altitude,
                implementation: EffectImpl::Position(
                    PositionEffect {
                        property: ScoreProperty { query: ScoreQuery::Position },
                        color: Rgb { r: 255, g: 255, b: 255 },
                        numkeys: pd.numkeys,
                    },
                ),
            },
        ),
    }
}

/// The altitude-ordered effect list a configuration builds, or its first
/// error in declaration order.
pub open spec fn spec_build_effects(
    decls: Seq<crate::config::Effect>,
    colors: Seq<(String, crate::config::Color)>,
) -> Result<Seq<Effect>, Error>
    decreases decls.len(),
{
    if decls.len() == 0 {
        Ok(Seq::empty())
    } else {
        match spec_build_effects(decls.drop_last(), colors) {
            Err(er) => Err(er),
            Ok(s) => match spec_build_effect(decls.last(), colors) {
                Err(er) => Err(er),
                Ok(e) => Ok(spec_add_effect(s, e)),
            },
        }
    }
}

proof fn lemma_build_error_persists(
    decls: Seq<crate::config::Effect>,
    colors: Seq<(String, crate::config::Color)>,
    i: int,
)
    requires
        0 <= i <= decls.len(),
        spec_build_effects(decls.subrange(0, i), colors) is Err,
    ensures
        spec_build_effects(decls, colors) == spec_build_effects(decls.subrange(0, i), colors),
    decreases decls.len() - i,
{
    if i == decls.len() {
        assert(decls.subrange(0, i) =~= decls);
    } else {
        assert(decls.subrange(0, i + 1).drop_last() =~= decls.subrange(0, i));
        lemma_build_error_persists(decls, colors, i + 1);
    }
}

/// The driver: the altitude-ordered effect list for one configuration.
pub struct Driver {
    pub effects: Vec<Effect>,
}

impl Driver {
    /// Builds the driver from a validated configuration, binding each
    /// declaration's property and effect kind.  The first invalid
    /// declaration's error is returned; every error here is raised before
    /// the tick loop starts.
    pub fn from_config(config: &Config) -> (r: Result<Driver, Error>)
        ensures
            match spec_build_effects(config.effect@, config.colors@) {
                Ok(s) => r is Ok && r->Ok_0.effects@ == s,
                Err(er) => r == Err::<Driver, Error>(er),
            },
    {
        let mut driver = Driver { effects: Vec::new() };
        let n = config.effect.len();
        let mut i: usize = 0;
        proof {
            assert(config.effect@.subrange(0, 0) =~= Seq::<crate::config::Effect>::empty());
        }
        while i < n
            invariant
                i <= n == config.effect@.len(),
                spec_build_effects(config.effect@.subrange(0, i as int), config.colors@) == Ok::<
                    Seq<Effect>,
                    Error,
                >(driver.effects@),
            decreases n - i,
        {
            let decl = &config.effect[i];
            proof {
                assert(config.effect@.subrange(0, i + 1).drop_last() =~= config.effect@.subrange(
                    0,
                    i as int,
                ));
                assert(config.effect@.subrange(0, i + 1).last() == config.effect@[i as int]);
            }
            let built: Effect = match &decl.data {
                EffectData::Custom { input, output } => {
                    let property = match query_property(input) {
                        Err(er) => {
                            proof {
                                lemma_build_error_persists(config.effect@, config.colors@, i + 1);
                            }
                            return Err(er);
                        },
                        Ok(p) => p,
                    };
                    let rate_property = match property {
                        Property::Rate(rp) => rp,
                        Property::Score(_) => {
                            proof {
                                lemma_build_error_persists(config.effect@, config.colors@, i + 1);
                            }
                            return Err(Error::IncompatibleEffectBinding);
                        },
                    };
                    let fill = match output.effect_type {
                        EffectType::Meter { fill } => fill,
                    };
                    match MeterEffect::new(rate_property, output, fill, &config.colors) {
                        Err(er) => {
                            proof {
                                lemma_build_error_persists(config.effect@, config.colors@, i + 1);
                            }
                            return Err(er);
                        },
                        Ok(m) => Effect::new(decl.altitude, EffectImpl::Meter(m)),
                    }
                },
                EffectData::Predefined { data: PredefinedEffectData::Position(pd) } => Effect::new(
                    decl.altitude,
                    EffectImpl::Position(
                        PositionEffect {
                            property: ScoreProperty { query: ScoreQuery::Position },
                            color: Rgb { r: 255, g: 255, b: 255 },
                            numkeys: pd.numkeys,
                        },
                    ),
                ),
            };
            driver.add_effect(built);
            i += 1;
        }
        proof {
            assert(config.effect@.subrange(0, n as int) =~= config.effect@);
        }
        Ok(driver)
    }

    /// Inserts one effect after every effect whose altitude does not exceed
    /// its own, keeping the list sorted and declaration order among equal
    /// altitudes.
    pub fn add_effect(&mut self, effect: Effect)
        ensures
            final(self).effects@ == spec_add_effect(old(self).effects@, effect),
    {
        let n = self.effects.len();
        let mut i: usize = 0;
        while i < n && self.effects[i].altitude() <= effect.altitude()
            invariant
                i <= n == self.effects@.len(),
                forall|j: int| 0 <= j < i ==> self.effects@[j].altitude <= effect.altitude,
                self == old(self),
            decreases n - i,
        {
            i += 1;
        }
        proof {
            lemma_upper_bound_from_scan(self.effects@, effect.altitude as int, i as int);
        }
        self.effects.insert(i, effect);
    }

    /// Starts one run: a fresh instance per effect, in list order, and no
    /// previous-tick timestamp.
    pub fn start_run(&self) -> (r: DriverRun)
        ensures
            r.instances@.len() == self.effects@.len(),
            forall|j: int| 0 <= j < self.effects@.len() ==> r.instances@[j] == spec_effect_start(
                self.effects@[j].implementation,
            ),
            forall|j: int| 0 <= j < r.instances@.len() ==> spec_instance_wf(#[trigger] r.instances@[j]),
            r.last is None,
    {
        let mut instances: Vec<EffectInstance> = Vec::new();
        let n = self.effects.len();
        let mut i: usize = 0;
        while i < n
            invariant
                i <= n == self.effects@.len(),
                instances@.len() == i,
                forall|j: int| 0 <= j < i ==> instances@[j] == spec_effect_start(
                    self.effects@[j].implementation,
                ),
                forall|j: int| 0 <= j < i ==> spec_instance_wf(#[trigger] instances@[j]),
            decreases n - i,
        {
            instances.push(self.effects[i].start());
            i += 1;
        }
        DriverRun { instances, last: None }
    }
}

/// Every write the instances make in one tick, in instance order.
pub open spec fn spec_writes_concat(instances: Seq<EffectInstance>) -> Seq<ChromaWrite>
    decreases instances.len(),
{
    if instances.len() == 0 {
        Seq::empty()
    } else {
        spec_writes_concat(instances.drop_last()) + spec_instance_writes(instances.last())
    }
}

/// The per-run state of the driver loop: the running instances, in effect
/// order, and the wall-clock instant of the previous tick.
pub struct DriverRun {
    pub instances: Vec<EffectInstance>,
    /// Milliseconds; nothing before the first tick.
    pub last: Option<u64>,
}

/// Every instance of a run holds a well-formed current value.
pub open spec fn spec_run_wf(r: DriverRun) -> bool {
    forall|j: int| 0 <= j < r.instances@.len() ==> spec_instance_wf(#[trigger] r.instances@[j])
}

impl DriverRun {
    /// Processes one snapshot: computes the elapsed time since the
    /// previous tick (none on the first), updates then ticks every
    /// instance in ascending-altitude order, and returns the finished
    /// frame for the output device to commit.
    pub fn step(&mut self, d: &Horizon4Datagram, now_ms: u64) -> (frame: ChromaState)
        requires
            spec_run_wf(*old(self)),
        ensures
            spec_run_wf(*final(self)),
            final(self).instances@.len() == old(self).instances@.len(),
            forall|j: int| 0 <= j < old(self).instances@.len() ==> final(self).instances@[j]
                == spec_instance_update(old(self).instances@[j], *d),
            final(self).last == Some(now_ms),
            frame@ == spec_writes_concat(final(self).instances@),
    {
        let elapsed: Option<u64> = match self.last {
            None => None,
            Some(l) => if now_ms >= l {
                Some(now_ms - l)
            } else {
                Some(0)
            },
        };
        let tick = Tick { now: now_ms, elapsed };
        let mut frame = ChromaState::new();
        let mut updated: Vec<EffectInstance> = Vec::new();
        let n = self.instances.len();
        let mut i: usize = 0;
        proof {
            assert(spec_writes_concat(updated@) =~= Seq::<ChromaWrite>::empty());
        }
        while i < n
            invariant
                i <= n == self.instances@.len(),
                updated@.len() == i,
                forall|j: int| 0 <= j < i ==> updated@[j] == spec_instance_update(
                    self.instances@[j],
                    *d,
                ),
                forall|j: int| 0 <= j < i ==> spec_instance_wf(#[trigger] updated@[j]),
                forall|j: int| 0 <= j < n ==> spec_instance_wf(#[trigger] self.instances@[j]),
                self == old(self),
                frame@ == spec_writes_concat(updated@),
            decreases n - i,
        {
            let mut inst = self.instances[i];
            inst.update(d);
            inst.tick(&tick, &mut frame);
            let ghost prev_updated = updated@;
            updated.push(inst);
            proof {
                assert(updated@.drop_last() =~= prev_updated);
            }
            i += 1;
        }
        self.instances = updated;
        self.last = Some(now_ms);
        frame
    }
}

} // verus!
