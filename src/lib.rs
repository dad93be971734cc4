//! Bridge from the `metrics` facade to OpenTelemetry instruments: a registry of
//! metric descriptions, the resolution of an instrument's configuration, and
//! the counter adapter whose last-value cell turns absolute readings into deltas.
use vstd::prelude::*;
use opentelemetry_api::metrics::{Meter, MetricsError};
use opentelemetry_api::KeyValue;
use crate::backend::{
    build_u64_counter, key_value, key_value_of, otel_unit, u64_counter_builder, with_description,
    with_unit,
};
use crate::metrics_fn::CounterFn;
use crate::storage::{DescriptionKey, DescriptionView, Metrics, MetricsDescription, MetricsType};
use crate::unit::{canonical_label, unit_label};

mod backend;
pub mod metrics_fn;
pub mod storage;
pub mod unit;

verus! {

/// The backend attributes of label pairs, in order.
pub open spec fn key_values_of(labels: Seq<(String, String)>) -> Seq<KeyValue> {
    Seq::new(labels.len(), |i: int| key_value_of(labels[i].0@, labels[i].1@))
}

/// Resolves label pairs into backend attributes, once, in their order.
pub fn labels_to_keyvalue(labels: &Vec<(String, String)>) -> (r: Vec<KeyValue>)
    ensures
        r@ == key_values_of(labels@),
{
    let mut r: Vec<KeyValue> = Vec::new();
    let mut i: usize = 0;
    while i < labels.len()
        invariant
            i <= labels@.len(),
            r@ == key_values_of(labels@.subrange(0, i as int)),
        decreases labels@.len() - i,
    {
        let label = &labels[i];
        r.push(key_value(label.0.clone(), label.1.clone()));
        i = i + 1;
        assert(key_values_of(labels@.subrange(0, i as int)) =~= key_values_of(
            labels@.subrange(0, i - 1 as int),
        ).push(key_value_of(label.0@, label.1@)));
    }
    assert(labels@.subrange(0, i as int) =~= labels@);
    r
}

/// What an instrument is built with: its name, and the description and unit
/// label it was described with, if any.
pub struct InstrumentConfig {
    pub name: String,
    pub description: Option<String>,
    pub unit: Option<String>,
}

/// Name, description and unit label of an instrument.
pub type ConfigView = (Seq<char>, Option<Seq<char>>, Option<Seq<char>>);

/// The text of an optional string.
pub open spec fn opt_view(s: Option<String>) -> Option<Seq<char>> {
    match s {
        Some(t) => Some(t@),
        None => None,
    }
}

/// The canonical label of an optional unit.
pub open spec fn opt_label(u: Option<metrics::Unit>) -> Option<Seq<char>> {
    match u {
        Some(v) => Some(canonical_label(v)),
        None => None,
    }
}

impl View for InstrumentConfig {
    type V = ConfigView;

    open spec fn view(&self) -> ConfigView {
        (self.name@, opt_view(self.description), opt_view(self.unit))
    }
}

/// The configuration of an instrument of `kind` named `name`, given the
/// descriptions in `registry`: the stored text and unit label when one is stored,
/// the backend's defaults (neither) otherwise.
pub open spec fn config_of(
    registry: Map<DescriptionKey, DescriptionView>,
    kind: MetricsType,
    name: Seq<char>,
) -> ConfigView {
    if registry.contains_key((kind, name)) {
        let d = registry[(kind, name)];
        (name, Some(d.1), opt_label(d.0))
    } else {
        (name, None, None)
    }
}

/// A description stored for a kind and name configures every later instrument of
/// that kind and name with its text and its unit's label; a name that was never
/// described, under that kind, configures neither.
pub proof fn lemma_describe_then_register(
    registry: Map<DescriptionKey, DescriptionView>,
    kind: MetricsType,
    name: Seq<char>,
    unit: Option<metrics::Unit>,
    text: Seq<char>,
    other: Seq<char>,
)
    requires
        other != name,
        !registry.contains_key((kind, other)),
    ensures
        config_of(registry.insert((kind, name), (unit, text)), kind, name) == (
        name,
        Some(text),
        opt_label(unit),
        ),
        config_of(registry.insert((kind, name), (unit, text)), kind, other) == (
        other,
        None::<Seq<char>>,
        None::<Seq<char>>,
        ),
{
}

/// Why an instrument could not be registered.
pub enum RegisterError {
    /// The meter's provider refused to create the instrument.
    InstrumentRefused(MetricsError),
}

/// The recorder: keeps descriptions, and builds the backend instrument and its
/// adapter when a metric is registered.
pub struct OpenTelemetryRecorder {
    meter: Meter,
    storage: Metrics,
}

impl View for OpenTelemetryRecorder {
    type V = Map<DescriptionKey, DescriptionView>;

    closed spec fn view(&self) -> Map<DescriptionKey, DescriptionView> {
        self.storage@
    }
}

impl OpenTelemetryRecorder {
    /// The meter this recorder builds its instruments from.
    pub closed spec fn meter_spec(&self) -> Meter {
        self.meter
    }

    /// The description registry is well formed.
    pub closed spec fn wf(&self) -> bool {
        self.storage.wf()
    }

    /// A recorder over `meter` with no descriptions.
    pub fn new(meter: Meter) -> (r: OpenTelemetryRecorder)
        ensures
            r.wf(),
            r@ == Map::<DescriptionKey, DescriptionView>::empty(),
            r.meter_spec() == meter,
    {
        OpenTelemetryRecorder { meter, storage: Metrics::new() }
    }

    /// Stores `unit` and `description` for `(kind, key)`, replacing an earlier one.
    pub fn describe(
        &mut self,
        kind: MetricsType,
        key: String,
        unit: Option<metrics::Unit>,
        description: String,
    )
        requires
            old(self).wf(),
        ensures
            final(self).wf(),
            final(self).meter_spec() == old(self).meter_spec(),
            final(self)@ == old(self)@.insert((kind, key@), (unit, description@)),
    {
        self.storage.set(kind, key, MetricsDescription { unit, description });
    }

    /// Describes the counter `key`.
    pub fn describe_counter(&mut self, key: String, unit: Option<metrics::Unit>, description: String)
        requires
            old(self).wf(),
        ensures
            final(self).wf(),
            final(self).meter_spec() == old(self).meter_spec(),
            final(self)@ == old(self)@.insert((MetricsType::Counter, key@), (unit, description@)),
    {
        self.describe(MetricsType::Counter, key, unit, description);
    }

    /// Describes the gauge `key`.
    pub fn describe_gauge(&mut self, key: String, unit: Option<metrics::Unit>, description: String)
        requires
            old(self).wf(),
        ensures
            final(self).wf(),
            final(self).meter_spec() == old(self).meter_spec(),
            final(self)@ == old(self)@.insert((MetricsType::Gauge, key@), (unit, description@)),
    {
        self.describe(MetricsType::Gauge, key, unit, description);
    }

    /// Describes the histogram `key`.
    pub fn describe_histogram(
        &mut self,
        key: String,
        unit: Option<metrics::Unit>,
        description: String,
    )
        requires
            old(self).wf(),
        ensures
            final(self).wf(),
            final(self).meter_spec() == old(self).meter_spec(),
            final(self)@ == old(self)@.insert((MetricsType::Histogram, key@), (unit, description@)),
    {
        self.describe(MetricsType::Histogram, key, unit, description);
    }

    /// The configuration for an instrument of `kind` named `name`.
    pub fn instrument_config(&self, kind: MetricsType, name: &String) -> (r: InstrumentConfig)
        requires
            self.wf(),
        ensures
            r@ == config_of(self@, kind, name@),
    {
        match self.storage.get(kind, name) {
            Some(d) => {
                let unit = match d.unit {
                    Some(u) => Some(unit_label(&u)),
                    None => None,
                };
                InstrumentConfig { name: name.clone(), description: Some(d.description), unit }
            },
            None => InstrumentConfig { name: name.clone(), description: None, unit: None },
        }
    }

    /// The meter instruments are built from.
    pub fn meter(&self) -> (r: &Meter)
        ensures
            *r == self.meter_spec(),
    {
        &self.meter
    }

    /// Builds the monotonic counter `name` with its configuration, and wraps it
    /// with the attributes of `labels` in a fresh adapter.
    pub fn register_counter(&self, name: &String, labels: &Vec<(String, String)>) -> (r: Result<
        CounterFn,
        RegisterError,
    >)
        requires
            self.wf(),
        ensures
            r matches Ok(c) ==> c.model() == (0u64, Seq::<u64>::empty()) && c.labels@
                == key_values_of(labels@) && c.config@ == config_of(
                self@,
                MetricsType::Counter,
                name@,
            ),
    {
        let config = self.instrument_config(MetricsType::Counter, name);
        // `given` records what the builder has been handed, call by call.
        let ghost mut given: ConfigView = (config.name@, None, None);
        let mut builder = u64_counter_builder(&self.meter, config.name);
        match config.description {
            Some(d) => {
                proof {
                    given = (given.0, Some(d@), given.2);
                }
                builder = with_description(builder, d);
            },
            None => {},
        }
        match config.unit {
            Some(u) => {
                proof {
                    given = (given.0, given.1, Some(u@));
                }
                builder = with_unit(builder, otel_unit(u));
            },
            None => {},
        }
        match build_u64_counter(builder) {
            Ok(inner) => Ok(CounterFn::new(inner, labels_to_keyvalue(labels), Ghost(given))),
            Err(e) => Err(RegisterError::InstrumentRefused(e)),
        }
    }
}

} // verus!
