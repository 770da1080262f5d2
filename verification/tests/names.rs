use kestrel::MetricName;

#[test]
fn parse_nested_namespaces() {
    let name = MetricName::parse("a:b:c");
    assert_eq!(
        name,
        MetricName::namespace("a", MetricName::namespace("b", MetricName::name("c")))
    );
}

#[test]
fn parse_flat_name() {
    assert_eq!(MetricName::parse("abc"), MetricName::name("abc"));
}

#[test]
fn parse_is_total_on_odd_strings() {
    assert_eq!(MetricName::parse(""), MetricName::name(""));
    assert_eq!(
        MetricName::parse("a:"),
        MetricName::namespace("a", MetricName::name(""))
    );
    assert_eq!(
        MetricName::parse(":a"),
        MetricName::namespace("", MetricName::name("a"))
    );
    assert_eq!(
        MetricName::parse("::"),
        MetricName::namespace("", MetricName::namespace("", MetricName::name("")))
    );
}

#[test]
fn flatten_lists_segments_outermost_first() {
    let name = MetricName::parse("ultrasonic:distance");
    assert_eq!(name.flatten(), vec!["ultrasonic".to_string(), "distance".to_string()]);
    assert_eq!(MetricName::name("x").flatten(), vec!["x".to_string()]);
}

#[test]
fn names_compare_structurally() {
    let a = MetricName::parse("a:b");
    let b = MetricName::namespace("a", MetricName::name("b"));
    assert_eq!(a, b);
    assert_ne!(a, MetricName::name("a:b"));
    assert_eq!(a.clone(), b);
}
