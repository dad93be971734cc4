use metrics::Unit;
use metrics_otel_bridge::metrics_fn::{CounterFn, LastValue};
use metrics_otel_bridge::storage::{Metrics, MetricsDescription, MetricsType};
use metrics_otel_bridge::unit::unit_label;
use metrics_otel_bridge::{labels_to_keyvalue, OpenTelemetryRecorder};
use opentelemetry_api::KeyValue;

fn recorder() -> OpenTelemetryRecorder {
    OpenTelemetryRecorder::new(opentelemetry_api::global::meter("bridge-tests"))
}

fn counter(rec: &OpenTelemetryRecorder, name: &str, labels: &[(&str, &str)]) -> CounterFn {
    let labels: Vec<(String, String)> =
        labels.iter().map(|(k, v)| (k.to_string(), v.to_string())).collect();
    match rec.register_counter(&name.to_string(), &labels) {
        Ok(c) => c,
        Err(_) => panic!("the no-op meter refused a counter"),
    }
}

#[test]
fn registry_get_after_set() {
    let mut m = Metrics::new();
    assert!(m.get(MetricsType::Counter, &"x".to_string()).is_none());
    m.set(
        MetricsType::Counter,
        "x".to_string(),
        MetricsDescription { unit: Some(Unit::Bytes), description: "D".to_string() },
    );
    let d = m.get(MetricsType::Counter, &"x".to_string()).unwrap();
    assert_eq!(d.unit, Some(Unit::Bytes));
    assert_eq!(d.description, "D");
}

#[test]
fn registry_later_set_replaces() {
    let mut m = Metrics::new();
    m.set(
        MetricsType::Gauge,
        "g".to_string(),
        MetricsDescription { unit: Some(Unit::Seconds), description: "first".to_string() },
    );
    m.set(
        MetricsType::Gauge,
        "g".to_string(),
        MetricsDescription { unit: None, description: "second".to_string() },
    );
    let d = m.get(MetricsType::Gauge, &"g".to_string()).unwrap();
    assert_eq!(d.unit, None);
    assert_eq!(d.description, "second");
}

#[test]
fn registry_kinds_are_separate() {
    let mut m = Metrics::new();
    m.set(
        MetricsType::Histogram,
        "h".to_string(),
        MetricsDescription { unit: None, description: "latency".to_string() },
    );
    assert!(m.get(MetricsType::Counter, &"h".to_string()).is_none());
    assert!(m.get(MetricsType::Gauge, &"h".to_string()).is_none());
    assert_eq!(m.get(MetricsType::Histogram, &"h".to_string()).unwrap().description, "latency");
}

#[test]
fn describe_then_register_uses_description() {
    let mut rec = recorder();
    rec.describe_counter("x".to_string(), Some(Unit::Bytes), "D".to_string());
    let cfg = rec.instrument_config(MetricsType::Counter, &"x".to_string());
    assert_eq!(cfg.name, "x");
    assert_eq!(cfg.description, Some("D".to_string()));
    assert_eq!(cfg.unit, Some("B".to_string()));
    let c = counter(&rec, "x", &[]);
    assert_eq!(c.last_value.value, 0);
}

#[test]
fn register_without_description_uses_defaults() {
    let mut rec = recorder();
    rec.describe_counter("x".to_string(), Some(Unit::Bytes), "D".to_string());
    let cfg = rec.instrument_config(MetricsType::Counter, &"y".to_string());
    assert_eq!(cfg.name, "y");
    assert_eq!(cfg.description, None);
    assert_eq!(cfg.unit, None);
}

#[test]
fn description_without_unit_sets_text_only() {
    let mut rec = recorder();
    rec.describe_histogram("h".to_string(), None, "sizes".to_string());
    let cfg = rec.instrument_config(MetricsType::Histogram, &"h".to_string());
    assert_eq!(cfg.description, Some("sizes".to_string()));
    assert_eq!(cfg.unit, None);
    let other = rec.instrument_config(MetricsType::Gauge, &"h".to_string());
    assert_eq!(other.description, None);
}

#[test]
fn gauge_description_keeps_latest() {
    let mut rec = recorder();
    rec.describe_gauge("g".to_string(), Some(Unit::Percent), "old".to_string());
    rec.describe_gauge("g".to_string(), Some(Unit::Milliseconds), "new".to_string());
    let cfg = rec.instrument_config(MetricsType::Gauge, &"g".to_string());
    assert_eq!(cfg.description, Some("new".to_string()));
    assert_eq!(cfg.unit, Some("ms".to_string()));
}

#[test]
fn unit_labels_are_canonical() {
    assert_eq!(unit_label(&Unit::Count), "");
    assert_eq!(unit_label(&Unit::Microseconds), "\u{3bc}s");
    assert_eq!(unit_label(&Unit::KilobitsPerSecond), "kbps");
    assert_eq!(unit_label(&Unit::CountPerSecond), "/s");
}

#[test]
fn labels_resolve_in_order() {
    let labels = vec![
        ("service".to_string(), "api".to_string()),
        ("region".to_string(), "eu".to_string()),
    ];
    let kvs = labels_to_keyvalue(&labels);
    assert_eq!(kvs, vec![KeyValue::new("service", "api"), KeyValue::new("region", "eu")]);
    assert!(labels_to_keyvalue(&Vec::new()).is_empty());
}

#[test]
fn increments_add_up() {
    let rec = recorder();
    let mut c = counter(&rec, "requests", &[("route", "/")]);
    c.increment(1);
    c.increment(2);
    c.increment(3);
    assert_eq!(c.last_value.value, 6);
    assert_eq!(c.labels, vec![KeyValue::new("route", "/")]);
}

#[test]
fn last_value_increment_forwards_delta() {
    let mut v = LastValue::new();
    assert_eq!(v.increment(4), 4);
    assert_eq!(v.increment(0), 0);
    assert_eq!(v.increment(7), 7);
    assert_eq!(v.value, 11);
}

#[test]
fn last_value_increment_wraps() {
    let mut v = LastValue::new();
    assert_eq!(v.increment(u64::MAX), u64::MAX);
    assert_eq!(v.increment(2), 2);
    assert_eq!(v.value, 1);
}

#[test]
fn absolutes_forward_differences() {
    let mut v = LastValue::new();
    assert_eq!(v.absolute(5), 5);
    assert_eq!(v.absolute(8), 3);
    assert_eq!(v.absolute(8), 0);
    assert_eq!(v.absolute(20), 12);
    assert_eq!(v.value, 20);
}

#[test]
fn absolute_below_last_resets_baseline() {
    let mut v = LastValue::new();
    assert_eq!(v.absolute(10), 10);
    assert_eq!(v.absolute(4), 0);
    assert_eq!(v.value, 4);
    assert_eq!(v.absolute(6), 2);
    assert_eq!(v.absolute(0), 0);
    assert_eq!(v.value, 0);
}

#[test]
fn counter_absolute_below_last_does_not_panic() {
    let rec = recorder();
    let mut c = counter(&rec, "bytes", &[]);
    c.absolute(100);
    assert_eq!(c.last_value.value, 100);
    c.absolute(40);
    assert_eq!(c.last_value.value, 40);
    c.increment(5);
    assert_eq!(c.last_value.value, 45);
}

#[test]
fn label_sets_give_independent_adapters() {
    let rec = recorder();
    let mut a = counter(&rec, "hits", &[("host", "a")]);
    let mut b = counter(&rec, "hits", &[("host", "b")]);
    a.increment(10);
    a.absolute(25);
    assert_eq!(a.last_value.value, 25);
    assert_eq!(b.last_value.value, 0);
    b.increment(1);
    assert_eq!(a.last_value.value, 25);
    assert_eq!(b.last_value.value, 1);
    assert_ne!(a.labels, b.labels);
}

#[test]
fn increment_order_does_not_change_total() {
    let mut a = LastValue::new();
    let mut b = LastValue::new();
    let mut forwarded_a: u64 = 0;
    let mut forwarded_b: u64 = 0;
    for d in [3u64, 9, 1, 40] {
        forwarded_a += a.increment(d);
    }
    for d in [40u64, 1, 3, 9] {
        forwarded_b += b.increment(d);
    }
    assert_eq!(forwarded_a, 53);
    assert_eq!(forwarded_b, 53);
    assert_eq!(a.value, b.value);
}

#[test]
fn default_registry_is_empty() {
    let m = Metrics::default();
    assert!(m.get(MetricsType::Counter, &String::new()).is_none());
}
