//! The property-resolution layer: a named telemetry attribute becomes
//! either a continuous rate, normalized to `[0, FX_ONE]`, or a discrete
//! signed score.
//!
//! A rate's maximum is, in priority order: a fixed per-property function of
//! the snapshot, a configured constant, or a running high-water mark seeded
//! at zero and raised — never lowered — as current values exceed it.

use vstd::prelude::*;

use crate::config::Input;
use crate::datagram::Horizon4Datagram;
use crate::error::Error;
use crate::fixed::{fx_from_bits, fx_of_bits, normalize, spec_normalize, FX_MAX, FX_ONE};

verus! {

/// The rate-valued entries of the property registry.
#[derive(Clone, Copy, Debug, PartialEq, Eq, Structural)]
pub enum RateQuery {
    /// Vehicle speed; no registry maximum.
    Speed,
    /// Engine speed against the engine's maximum.
    Rpm,
    /// Engine speed above idle, against the idle-to-maximum span.
    RpmBaseline,
    /// Driving-line offset shifted to `0..=254`, against 255.
    Driveline,
}

/// The score-valued entries of the property registry.
#[derive(Clone, Copy, Debug, PartialEq, Eq, Structural)]
pub enum ScoreQuery {
    /// Zero-based race position.
    Position,
}

/// The current value a rate query reads from a snapshot, in fixed-point
/// units of 2^-16.
pub open spec fn spec_rate_current(q: RateQuery, d: Horizon4Datagram) -> int {
    match q {
        RateQuery::Speed => fx_of_bits(d.dash.speed),
        RateQuery::Rpm => fx_of_bits(d.sled.current_engine_rpm),
        RateQuery::RpmBaseline => fx_of_bits(d.sled.current_engine_rpm) - fx_of_bits(
            d.sled.engine_idle_rpm,
        ),
        RateQuery::Driveline => (d.dash.normalized_driving_line + 127) * (FX_ONE as int),
    }
}

/// The registry-defined maximum of a rate query, when it has one.
pub open spec fn spec_rate_registry_max(q: RateQuery, d: Horizon4Datagram) -> Option<int> {
    match q {
        RateQuery::Speed => None,
        RateQuery::Rpm => Some(fx_of_bits(d.sled.engine_max_rpm)),
        RateQuery::RpmBaseline => Some(
            fx_of_bits(d.sled.engine_max_rpm) - fx_of_bits(d.sled.engine_idle_rpm),
        ),
        RateQuery::Driveline => Some(255 * (FX_ONE as int)),
    }
}

/// A bound rate property: its registry query and its only mutable state,
/// the optional stored maximum.
#[derive(Clone, Copy, Debug, PartialEq, Eq)]
pub struct RateProperty {
    pub query: RateQuery,
    /// Stored maximum, in fixed-point units; consulted only when the
    /// registry defines no maximum for `query`.
    pub max_value: Option<i64>,
    /// Raise `max_value` whenever the current value exceeds it.
    pub auto_raise: bool,
}

/// The stored maximum read as a number; an absent cell reads as zero, which
/// normalizes every rate to zero rather than propagating a division by
/// nothing.
pub open spec fn spec_cell_value(c: Option<i64>) -> int {
    match c {
        Some(v) => v as int,
        None => 0,
    }
}

/// The stored maximum after one query: raised to the current value exactly
/// when the registry defines no maximum, auto-raise is on, a cell exists,
/// and the current value exceeds it.
pub open spec fn spec_cell_after(p: RateProperty, d: Horizon4Datagram) -> Option<i64> {
    if spec_rate_registry_max(p.query, d) is Some {
        p.max_value
    } else if p.auto_raise && p.max_value is Some && spec_rate_current(p.query, d)
        > spec_cell_value(p.max_value) {
        Some(spec_rate_current(p.query, d) as i64)
    } else {
        p.max_value
    }
}

/// The maximum a query normalizes against: the registry's, else the stored
/// cell after any raise.
pub open spec fn spec_effective_max(p: RateProperty, d: Horizon4Datagram) -> int {
    match spec_rate_registry_max(p.query, d) {
        Some(m) => m,
        None => spec_cell_value(spec_cell_after(p, d)),
    }
}

/// The normalized result of one rate query.
pub open spec fn spec_rate_result(p: RateProperty, d: Horizon4Datagram) -> int {
    spec_normalize(spec_rate_current(p.query, d), spec_effective_max(p, d))
}

impl RateProperty {
    /// Resolves the property against one snapshot: reads the current value,
    /// raises the stored maximum if so configured, and returns the rate
    /// normalized to `0 ..= FX_ONE`.
    pub fn query(&mut self, d: &Horizon4Datagram) -> (r: u32)
        ensures
            final(self).query == old(self).query,
            final(self).auto_raise == old(self).auto_raise,
            final(self).max_value == spec_cell_after(*old(self), *d),
            r == spec_rate_result(*old(self), *d),
            0 <= r <= FX_ONE,
    {
        let cur: i64 = match self.query {
            RateQuery::Speed => fx_from_bits(d.dash.speed),
            RateQuery::Rpm => fx_from_bits(d.sled.current_engine_rpm),
            RateQuery::RpmBaseline => fx_from_bits(d.sled.current_engine_rpm) - fx_from_bits(
                d.sled.engine_idle_rpm,
            ),
            RateQuery::Driveline => ((d.dash.normalized_driving_line as i64) + 127) * FX_ONE,
        };
        let max: i64 = match self.query {
            RateQuery::Speed => {
                if self.auto_raise {
                    if let Some(mv) = self.max_value {
                        if cur > mv {
                            self.max_value = Some(cur);
                        }
                    }
                }
                match self.max_value {
                    Some(mv) => mv,
                    None => 0,
                }
            },
            RateQuery::Rpm => fx_from_bits(d.sled.engine_max_rpm),
            RateQuery::RpmBaseline => fx_from_bits(d.sled.engine_max_rpm) - fx_from_bits(
                d.sled.engine_idle_rpm,
            ),
            RateQuery::Driveline => 255 * FX_ONE,
        };
        normalize(cur, max)
    }
}

/// A bound score property: immutable, a direct integer projection.
#[derive(Clone, Copy, Debug, PartialEq, Eq, Structural)]
pub struct ScoreProperty {
    pub query: ScoreQuery,
}

/// The signed ranking a score query reads from a snapshot.
pub open spec fn spec_score_current(q: ScoreQuery, d: Horizon4Datagram) -> int {
    match q {
        ScoreQuery::Position => d.dash.race_position - 1,
    }
}

impl ScoreProperty {
    /// Resolves the property against one snapshot.  No bounding: negative
    /// or out-of-range results are the consuming effect's to reject.
    pub fn query(&self, d: &Horizon4Datagram) -> (r: i32)
        ensures
            r == spec_score_current(self.query, *d),
    {
        (d.dash.race_position as i32) - 1
    }
}

/// A property bound from configuration: one of the two value domains.
#[derive(Clone, Copy, Debug, PartialEq, Eq)]
pub enum Property {
    Rate(RateProperty),
    Score(ScoreProperty),
}

/// The stored maximum a rate property starts with: the configured constant
/// if any, else zero when auto-raising, else nothing.
pub open spec fn spec_initial_cell(max_value: Option<i64>, auto_raise: bool) -> Option<i64> {
    match max_value {
        Some(m) => Some(m),
        None => if auto_raise {
            Some(0)
        } else {
            None
        },
    }
}

/// The property the registry binds for a configured input: `Err` with
/// `UnknownProperty` exactly when the name is not one of the registry's.
pub open spec fn spec_query_property(c: Input) -> Result<Property, Error> {
    if c.property@ == "speed"@ {
        Ok(
            Property::Rate(
                RateProperty {
                    query: RateQuery::Speed,
                    max_value: spec_initial_cell(c.max_value, c.auto_raise),
                    auto_raise: c.auto_raise,
                },
            ),
        )
    } else if c.property@ == "rpm"@ {
        Ok(
            Property::Rate(
                RateProperty {
                    query: RateQuery::Rpm,
                    max_value: spec_initial_cell(c.max_value, c.auto_raise),
                    auto_raise: c.auto_raise,
                },
            ),
        )
    } else if c.property@ == "rpm-baseline"@ {
        Ok(
            Property::Rate(
                RateProperty {
                    query: RateQuery::RpmBaseline,
                    max_value: spec_initial_cell(c.max_value, c.auto_raise),
                    auto_raise: c.auto_raise,
                },
            ),
        )
    } else if c.property@ == "driveline"@ {
        Ok(
            Property::Rate(
                RateProperty {
                    query: RateQuery::Driveline,
                    max_value: spec_initial_cell(c.max_value, c.auto_raise),
                    auto_raise: c.auto_raise,
                },
            ),
        )
    } else if c.property@ == "position"@ {
        Ok(Property::Score(ScoreProperty { query: ScoreQuery::Position }))
    } else {
        Err(Error::UnknownProperty)
    }
}

fn str_eq(a: &String, b: &str) -> (r: bool)
    ensures
        r == (a@ == b@),
{
    *a == b.to_owned()
}

/// Binds a configured input to a property of the registry.
pub fn query_property(config: &Input) -> (r: Result<Property, Error>)
    ensures
        r == spec_query_property(*config),
{
    let max_value: Option<i64> = if let Some(m) = config.max_value {
        Some(m)
    } else if config.auto_raise {
        Some(0)
    } else {
        None
    };
    let auto_raise = config.auto_raise;
    if str_eq(&config.property, "speed") {
        Ok(Property::Rate(RateProperty { query: RateQuery::Speed, max_value, auto_raise }))
    } else if str_eq(&config.property, "rpm") {
        Ok(Property::Rate(RateProperty { query: RateQuery::Rpm, max_value, auto_raise }))
    } else if str_eq(&config.property, "rpm-baseline") {
        Ok(Property::Rate(RateProperty { query: RateQuery::RpmBaseline, max_value, auto_raise }))
    } else if str_eq(&config.property, "driveline") {
        Ok(Property::Rate(RateProperty { query: RateQuery::Driveline, max_value, auto_raise }))
    } else if str_eq(&config.property, "position") {
        Ok(Property::Score(ScoreProperty { query: ScoreQuery::Position }))
    } else {
        Err(Error::UnknownProperty)
    }
}

// ---------------------------------------------------------------------------
// The auto-raising maximum across a run.
// ---------------------------------------------------------------------------

/// The stored maximum after observing `currents` in order, starting from
/// `seed`: each observation above the running value raises it.
pub open spec fn spec_run_max(seed: int, currents: Seq<int>) -> int
    decreases currents.len(),
{
    if currents.len() == 0 {
        seed
    } else {
        let prev = spec_run_max(seed, currents.drop_last());
        if currents.last() > prev {
            currents.last()
        } else {
            prev
        }
    }
}

/// One more observation moves the running maximum exactly as one query
/// moves a property's stored maximum: raised to the observation when it
/// exceeds the running value, untouched otherwise.
pub proof fn lemma_run_max_step(seed: int, currents: Seq<int>, c: int)
    ensures
        spec_run_max(seed, currents.push(c)) == if c > spec_run_max(seed, currents) {
            c
        } else {
            spec_run_max(seed, currents)
        },
{
    assert(currents.push(c).drop_last() =~= currents);
}

/// The auto-raising maximum is monotonically non-decreasing across a
/// sequence of observations: after any prefix it is at most its value after
/// the whole sequence.
pub proof fn lemma_auto_raise_monotone(seed: int, currents: Seq<int>, i: int)
    requires
        0 <= i <= currents.len(),
    ensures
        spec_run_max(seed, currents.subrange(0, i)) <= spec_run_max(seed, currents),
    decreases currents.len(),
{
    if i == currents.len() {
        assert(currents.subrange(0, i) =~= currents);
    } else {
        assert(currents.drop_last().subrange(0, i) =~= currents.subrange(0, i));
        lemma_auto_raise_monotone(seed, currents.drop_last(), i);
    }
}

/// The auto-raising maximum never exceeds any bound that covers the seed
/// and every observed current value; in particular it never exceeds the
/// true historical maximum of the observations whenever that maximum covers
/// the seed.
pub proof fn lemma_auto_raise_never_exceeds(seed: int, currents: Seq<int>, bound: int)
    requires
        seed <= bound,
        forall|i: int| 0 <= i < currents.len() ==> currents[i] <= bound,
    ensures
        spec_run_max(seed, currents) <= bound,
    decreases currents.len(),
{
    if currents.len() > 0 {
        assert forall|i: int| 0 <= i < currents.drop_last().len() implies currents.drop_last()[i]
            <= bound by {
            assert(currents.drop_last()[i] == currents[i]);
        }
        lemma_auto_raise_never_exceeds(seed, currents.drop_last(), bound);
        assert(currents.last() == currents[currents.len() - 1]);
    }
}

/// Every observed current value is covered by the auto-raising maximum.
pub proof fn lemma_auto_raise_dominates(seed: int, currents: Seq<int>, i: int)
    requires
        0 <= i < currents.len(),
    ensures
        currents[i] <= spec_run_max(seed, currents),
    decreases currents.len(),
{
    if i == currents.len() - 1 {
    } else {
        lemma_auto_raise_dominates(seed, currents.drop_last(), i);
        assert(currents.drop_last()[i] == currents[i]);
    }
}

} // verus!
