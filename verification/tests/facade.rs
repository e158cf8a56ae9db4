use ametrics::global_metrics_report;
use ametrics::register_global_metrics_handler;
use ametrics::types::MetricValue;
use ametrics::CounterU64;
use ametrics::HandlerRegistry;
use ametrics::MetricsHandler;
use ametrics::TableMetricsHandler;

#[test]
fn default_registry() {
    let mut registry: HandlerRegistry<TableMetricsHandler> = HandlerRegistry::new();
    register_global_metrics_handler(&mut registry, TableMetricsHandler::new());

    let mut count_1 = CounterU64::new(
        "count1".to_string(),
        Some("the first counter".to_string()),
        None,
    );
    let mut count_2 = CounterU64::new(
        "count2".to_string(),
        Some("the second counter".to_string()),
        None,
    );

    count_1.add(&mut registry, 42);
    count_2.add(&mut registry, 1);
    count_2.add(&mut registry, 1);
    count_2.add(&mut registry, 1);

    let report = global_metrics_report(&registry);
    println!("{report:#?}");

    let mut seen_1 = false;
    let mut seen_2 = false;
    for m in report.unwrap() {
        if m.name == "count1" {
            assert_eq!(m.desc.unwrap(), "the first counter");
            assert!(matches!(m.value, MetricValue::CounterU64(42)));
            assert!(!seen_1);
            seen_1 = true;
        } else if m.name == "count2" {
            assert_eq!(m.desc.unwrap(), "the second counter");
            assert!(matches!(m.value, MetricValue::CounterU64(3)));
            assert!(!seen_2);
            seen_2 = true;
        } else {
            panic!("unexpected name: {}", m.name);
        }
    }
    assert!(seen_1);
    assert!(seen_2);
}

#[test]
fn exactly_once_registration() {
    let mut registry: HandlerRegistry<TableMetricsHandler> = HandlerRegistry::new();

    // The winner is recognizable: it already carries one counter.
    let mut winner = TableMetricsHandler::new();
    assert_eq!(winner.register_counter_u64("marker", None, None), Some(0));
    let loser = TableMetricsHandler::new();

    assert!(registry.current().is_none());
    assert!(register_global_metrics_handler(&mut registry, winner));
    assert!(!register_global_metrics_handler(&mut registry, loser));
    assert!(registry.current().is_some());

    // The slot still holds the winning handler, not the discarded loser.
    let report = global_metrics_report(&registry).unwrap();
    assert_eq!(report.len(), 1);
    assert_eq!(report[0].name, "marker");
}

#[test]
fn no_backend_report() {
    let registry: HandlerRegistry<TableMetricsHandler> = HandlerRegistry::new();
    assert!(global_metrics_report(&registry).is_none());
}

#[test]
fn pre_registration_drop() {
    let mut registry: HandlerRegistry<TableMetricsHandler> = HandlerRegistry::new();
    let mut counter = CounterU64::new("dropped".to_string(), None, None);

    // Issued before any registration: silently lost, never replayed.
    counter.add(&mut registry, 5);

    register_global_metrics_handler(&mut registry, TableMetricsHandler::new());
    let report = global_metrics_report(&registry).unwrap();
    assert_eq!(report.len(), 0);

    // Only increments issued after successful binding count.
    counter.add(&mut registry, 7);
    let report = global_metrics_report(&registry).unwrap();
    assert_eq!(report.len(), 1);
    assert_eq!(report[0].name, "dropped");
    assert!(matches!(report[0].value, MetricValue::CounterU64(7)));
}

#[test]
fn single_binding_many_adds() {
    let mut registry: HandlerRegistry<TableMetricsHandler> = HandlerRegistry::new();
    register_global_metrics_handler(&mut registry, TableMetricsHandler::new());

    let mut counter = CounterU64::new("busy".to_string(), None, None);
    for _ in 0..100 {
        counter.add(&mut registry, 1);
    }

    // One backend counter was created, ever; no duplicate rows, no lost adds.
    let report = global_metrics_report(&registry).unwrap();
    assert_eq!(report.len(), 1);
    assert!(matches!(report[0].value, MetricValue::CounterU64(100)));
}

#[test]
fn empty_report_after_registration() {
    let mut registry: HandlerRegistry<TableMetricsHandler> = HandlerRegistry::new();
    register_global_metrics_handler(&mut registry, TableMetricsHandler::new());
    let report = global_metrics_report(&registry).unwrap();
    assert!(report.is_empty());
}

#[test]
fn saturating_add_caps_at_max() {
    let mut registry: HandlerRegistry<TableMetricsHandler> = HandlerRegistry::new();
    register_global_metrics_handler(&mut registry, TableMetricsHandler::new());

    let mut counter = CounterU64::new("huge".to_string(), None, None);
    counter.add(&mut registry, u64::MAX);
    counter.add(&mut registry, 1);

    let report = global_metrics_report(&registry).unwrap();
    assert_eq!(report.len(), 1);
    assert!(matches!(report[0].value, MetricValue::CounterU64(u64::MAX)));
}

#[test]
fn duplicate_names_create_distinct_counters() {
    let mut registry: HandlerRegistry<TableMetricsHandler> = HandlerRegistry::new();
    register_global_metrics_handler(&mut registry, TableMetricsHandler::new());

    let mut first = CounterU64::new("twin".to_string(), None, None);
    let mut second = CounterU64::new("twin".to_string(), None, None);
    first.add(&mut registry, 2);
    second.add(&mut registry, 3);
    first.add(&mut registry, 10);

    // Each handle bound to its own backend counter: duplicate names are the
    // backend's to arbitrate, and this backend keeps them distinct.
    let report = global_metrics_report(&registry).unwrap();
    assert_eq!(report.len(), 2);
    assert_eq!(report[0].name, "twin");
    assert_eq!(report[1].name, "twin");
    assert!(matches!(report[0].value, MetricValue::CounterU64(12)));
    assert!(matches!(report[1].value, MetricValue::CounterU64(3)));
}

#[test]
fn unit_is_reported() {
    let mut registry: HandlerRegistry<TableMetricsHandler> = HandlerRegistry::new();
    register_global_metrics_handler(&mut registry, TableMetricsHandler::new());

    let mut counter = CounterU64::new("io".to_string(), None, Some("bytes".to_string()));
    counter.add(&mut registry, 8);

    let report = global_metrics_report(&registry).unwrap();
    assert_eq!(report.len(), 1);
    assert_eq!(report[0].name, "io");
    assert_eq!(report[0].desc, None);
    assert_eq!(report[0].unit.as_deref(), Some("bytes"));
}

#[test]
fn handler_direct_use() {
    let mut handler = TableMetricsHandler::new();
    let a = handler.register_counter_u64("a", Some("first"), None).unwrap();
    let b = handler.register_counter_u64("b", None, Some("ms")).unwrap();
    assert_eq!(a, 0);
    assert_eq!(b, 1);
    assert_eq!(handler.num_counters(), 2);

    handler.counter_add(a, 4);
    handler.counter_add(b, 6);
    handler.counter_add(a, 1);

    let report = handler.report();
    assert_eq!(report.len(), 2);
    assert_eq!(report[0].name, "a");
    assert_eq!(report[0].desc.as_deref(), Some("first"));
    assert!(matches!(report[0].value, MetricValue::CounterU64(5)));
    assert_eq!(report[1].name, "b");
    assert_eq!(report[1].unit.as_deref(), Some("ms"));
    assert!(matches!(report[1].value, MetricValue::CounterU64(6)));
}
