//! What a unit and the pipeline around it tell each other.

use crate::metrics::{Metric, SampleView, Source, Target};
use crate::payload::Update;
use std::sync::Arc;
use vstd::prelude::*;

verus! {

/// What the pipeline wants of a unit for now.
#[derive(Clone, Copy, Debug, PartialEq, Eq, Structural)]
pub enum GateStatus {
    /// Somebody listens: the unit should produce updates.
    Active,
    /// Nobody listens at present.
    Dormant,
}

impl Default for GateStatus {
    fn default() -> (r: GateStatus)
        ensures
            r == GateStatus::Active,
    {
        GateStatus::Active
    }
}

/// How a unit is doing.
#[derive(Clone, Copy, Debug, PartialEq, Eq, Structural)]
pub enum UnitStatus {
    /// The unit has a session and receives data.
    Healthy,
    /// The unit has no session at present.
    Stalled,
    /// The unit has ended.
    Gone,
}

/// The pipeline told the unit to end.
#[derive(Clone, Copy, Debug, PartialEq, Eq, Structural)]
pub struct Terminated;

/// The number under which a status is measured.
pub open spec fn status_code(status: UnitStatus) -> u64 {
    match status {
        UnitStatus::Healthy => 0,
        UnitStatus::Stalled => 1,
        UnitStatus::Gone => 2,
    }
}

/// What a gate knows of its unit: the status that the unit reported
/// last, and the serial and size of the update that it published last.
#[derive(Clone, Copy, Debug, PartialEq, Eq, Structural)]
pub struct GateMetrics {
    pub status: UnitStatus,
    pub serial: u32,
    pub count: usize,
}

impl Source for GateMetrics {
    open spec fn readings(&self) -> Seq<(Metric, u64)> {
        seq![
            (Metric::Status, status_code(self.status)),
            (Metric::Serial, self.serial as u64),
            (Metric::Count, self.count as u64),
        ]
    }

    fn append(&self, unit_name: &str, target: &mut Target) {
        let code: u64 = match self.status {
            UnitStatus::Healthy => 0,
            UnitStatus::Stalled => 1,
            UnitStatus::Gone => 2,
        };
        target.append_sample(unit_name, Metric::Status, code);
        target.append_sample(unit_name, Metric::Serial, self.serial as u64);
        target.append_sample(unit_name, Metric::Count, self.count as u64);
        assert(final(target)@ =~= old(target)@ + self.readings().map_values(
            |reading: (Metric, u64)|
                SampleView { unit: unit_name@, metric: reading.0, value: reading.1 },
        ));
    }
}

/// The unit's end of the link to the pipeline, as far as it keeps books:
/// it notes what the unit reports and publishes.
pub struct Gate {
    metrics: GateMetrics,
}

impl View for Gate {
    type V = GateMetrics;

    closed spec fn view(&self) -> GateMetrics {
        self.metrics
    }
}

impl Gate {
    /// A gate for a unit that has reported and published nothing: the
    /// unit counts as stalled.
    pub fn new() -> (r: Gate)
        ensures
            r@ == (GateMetrics { status: UnitStatus::Stalled, serial: 0, count: 0 }),
    {
        Gate { metrics: GateMetrics { status: UnitStatus::Stalled, serial: 0, count: 0 } }
    }

    /// What this gate knows at present. The value is a copy: it does not
    /// follow what is noted later.
    pub fn metrics(&self) -> (r: Arc<GateMetrics>)
        ensures
            *r == self@,
    {
        Arc::new(self.metrics)
    }

    /// Notes the status that the unit reports.
    pub fn update_status(&mut self, status: UnitStatus)
        ensures
            final(self)@ == (GateMetrics { status, ..old(self)@ }),
    {
        self.metrics.status = status;
    }

    /// Notes the update that the unit publishes.
    pub fn update_data(&mut self, update: &Update)
        ensures
            update@.set.finite(),
            final(self)@ == (GateMetrics {
                serial: update@.serial,
                count: update@.set.len() as usize,
                ..old(self)@
            }),
    {
        self.metrics.serial = update.serial();
        self.metrics.count = update.set().len();
    }
}

} // verus!
