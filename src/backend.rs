//! The OpenTelemetry items the library hands its values to. What the builders
//! and instruments do with them is the backend's affair, so their wrappers say
//! nothing of their results; an attribute is named after its key and value.
use vstd::prelude::*;
use opentelemetry_api::metrics::{Counter, InstrumentBuilder, Meter, MetricsError};
use opentelemetry_api::KeyValue;

verus! {

#[verifier::external_type_specification]
#[verifier::external_body]
pub struct ExMeter(Meter);

#[verifier::external_type_specification]
#[verifier::external_body]
#[verifier::reject_recursive_types(T)]
pub struct ExCounter<T>(Counter<T>);

#[verifier::external_type_specification]
#[verifier::external_body]
#[verifier::reject_recursive_types(T)]
pub struct ExInstrumentBuilder<'a, T>(InstrumentBuilder<'a, T>);

#[verifier::external_type_specification]
#[verifier::external_body]
pub struct ExOtelUnit(opentelemetry_api::metrics::Unit);

#[verifier::external_type_specification]
#[verifier::external_body]
pub struct ExKeyValue(KeyValue);

#[verifier::external_type_specification]
#[verifier::external_body]
pub struct ExMetricsError(MetricsError);

/// Relies on `Meter::u64_counter`: a builder for a monotonic counter of that name.
#[verifier::external_body]
pub(crate) fn u64_counter_builder(meter: &Meter, name: String) -> InstrumentBuilder<'_, Counter<u64>> {
    meter.u64_counter(name)
}

/// Relies on `InstrumentBuilder::with_description`: sets the instrument's description.
#[verifier::external_body]
pub(crate) fn with_description<'a>(
    builder: InstrumentBuilder<'a, Counter<u64>>,
    description: String,
) -> InstrumentBuilder<'a, Counter<u64>> {
    builder.with_description(description)
}

/// Relies on `InstrumentBuilder::with_unit`: sets the instrument's unit.
#[verifier::external_body]
pub(crate) fn with_unit<'a>(
    builder: InstrumentBuilder<'a, Counter<u64>>,
    unit: opentelemetry_api::metrics::Unit,
) -> InstrumentBuilder<'a, Counter<u64>> {
    builder.with_unit(unit)
}

/// Relies on `opentelemetry_api::metrics::Unit::new`: a unit holding that label.
#[verifier::external_body]
pub(crate) fn otel_unit(label: String) -> opentelemetry_api::metrics::Unit {
    opentelemetry_api::metrics::Unit::new(label)
}

/// Relies on `Counter<u64>: TryFrom<InstrumentBuilder>`: asks the meter's provider
/// for the instrument, which may refuse it.
#[verifier::external_body]
pub(crate) fn build_u64_counter(builder: InstrumentBuilder<'_, Counter<u64>>) -> Result<Counter<u64>, MetricsError> {
    Counter::<u64>::try_from(builder)
}

/// The attribute `KeyValue::new` makes of a key and a value.
pub uninterp spec fn key_value_of(key: Seq<char>, value: Seq<char>) -> KeyValue;

/// Relies on `KeyValue::new`: the attribute depends on the key and value alone.
#[verifier::external_body]
pub(crate) fn key_value(key: String, value: String) -> (r: KeyValue)
    ensures
        r == key_value_of(key@, value@),
{
    KeyValue::new(key, value)
}

/// Relies on `Counter::add`: records `value` under `attributes`.
#[verifier::external_body]
pub(crate) fn counter_add(counter: &Counter<u64>, value: u64, attributes: &Vec<KeyValue>) {
    counter.add(value, attributes.as_slice())
}

} // verus!
