//! Collecting the measurements of the units.

use vstd::prelude::*;

verus! {

/// What is measured.
#[derive(Clone, Copy, Debug, PartialEq, Eq, Structural)]
pub enum Metric {
    /// How the unit is doing: 0 for healthy, 1 for stalled, 2 for gone.
    Status,
    /// The serial of the update that the unit published last.
    Serial,
    /// The number of records in the set that the unit published last.
    Count,
}

/// One measurement of one unit.
pub struct Sample {
    pub unit: String,
    pub metric: Metric,
    pub value: u64,
}

/// What a [`Sample`] stands for.
pub struct SampleView {
    pub unit: Seq<char>,
    pub metric: Metric,
    pub value: u64,
}

impl View for Sample {
    type V = SampleView;

    open spec fn view(&self) -> SampleView {
        SampleView { unit: self.unit@, metric: self.metric, value: self.value }
    }
}

/// Where measurements are collected, in the order they were appended.
pub struct Target {
    samples: Vec<Sample>,
}

impl View for Target {
    type V = Seq<SampleView>;

    closed spec fn view(&self) -> Seq<SampleView> {
        self.samples@.map_values(|sample: Sample| sample@)
    }
}

impl Target {
    /// A target without measurements.
    pub fn new() -> (r: Target)
        ensures
            r@ == Seq::<SampleView>::empty(),
    {
        let r = Target { samples: Vec::new() };
        assert(r@ =~= Seq::<SampleView>::empty());
        r
    }

    /// Appends one measurement of the unit `unit_name`.
    pub fn append_sample(&mut self, unit_name: &str, metric: Metric, value: u64)
        ensures
            final(self)@ == old(self)@.push(SampleView { unit: unit_name@, metric, value }),
    {
        let sample = Sample { unit: unit_name.to_owned(), metric, value };
        self.samples.push(sample);
        assert(self@ =~= old(self)@.push(sample@));
    }

    /// How many measurements the target holds.
    pub fn len(&self) -> (r: usize)
        ensures
            r == self@.len(),
    {
        self.samples.len()
    }

    /// The measurement at `index`, counted from zero.
    pub fn get(&self, index: usize) -> (r: Option<&Sample>)
        ensures
            match r {
                Some(sample) => index < self@.len() && sample@ == self@[index as int],
                None => index >= self@.len(),
            },
    {
        if index < self.samples.len() {
            Some(&self.samples[index])
        } else {
            None
        }
    }
}

/// Something that has measurements to give.
pub trait Source {
    /// What the source measures at present, in the order in which it
    /// appends it.
    spec fn readings(&self) -> Seq<(Metric, u64)>;

    /// Appends the measurements of the source to `target`, each under
    /// the name of the unit.
    fn append(&self, unit_name: &str, target: &mut Target)
        ensures
            final(target)@ == old(target)@ + self.readings().map_values(
                |reading: (Metric, u64)|
                    SampleView { unit: unit_name@, metric: reading.0, value: reading.1 },
            ),
    ;
}

} // verus!
