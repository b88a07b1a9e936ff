use mongo_tracing::span::{DB_COLLECTION, DB_NAME, DB_SYSTEM, KIND, OTEL_KIND, SYSTEM};
use mongo_tracing::Span;

fn sample() -> Span {
    Span::new("count_documents".to_string(), "shop".to_string(), "orders".to_string())
}

#[test]
fn keys_and_fixed_values_are_the_literal_ones() {
    assert_eq!(DB_NAME, "db.name");
    assert_eq!(DB_SYSTEM, "db.system");
    assert_eq!(DB_COLLECTION, "db.collection");
    assert_eq!(OTEL_KIND, "otel.kind");
    assert_eq!(SYSTEM, "mongodb");
    assert_eq!(KIND, "client");
}

#[test]
fn span_keeps_its_name() {
    assert_eq!(sample().name(), "count_documents");
}

#[test]
fn span_reports_the_two_names() {
    let span = sample();
    assert_eq!(span.db_name(), "shop");
    assert_eq!(span.db_collection(), "orders");
}

#[test]
fn span_reports_the_two_fixed_values() {
    let span = sample();
    assert_eq!(span.db_system(), "mongodb");
    assert_eq!(span.otel_kind(), "client");
}

#[test]
fn field_finds_the_four_keys() {
    let span = sample();
    assert_eq!(span.field("db.name"), Some("shop"));
    assert_eq!(span.field("db.system"), Some("mongodb"));
    assert_eq!(span.field("db.collection"), Some("orders"));
    assert_eq!(span.field("otel.kind"), Some("client"));
}

#[test]
fn field_finds_nothing_else() {
    let span = sample();
    for key in [
        "", "self", "filter", "options", "session", "doc", "docs", "query", "update",
        "replacement", "pipeline", "index", "indexes", "field_name", "name", "db", "db.name ",
        "DB.NAME", "otel", "shop", "orders", "count_documents",
    ] {
        assert_eq!(span.field(key), None, "{key}");
    }
}

#[test]
fn names_that_look_like_keys_stay_values() {
    let span = Span::new("find".to_string(), "db.system".to_string(), "otel.kind".to_string());
    assert_eq!(span.field("db.name"), Some("db.system"));
    assert_eq!(span.field("db.collection"), Some("otel.kind"));
    assert_eq!(span.field("db.system"), Some("mongodb"));
    assert_eq!(span.field("otel.kind"), Some("client"));
}

#[test]
fn empty_names_are_recorded_as_empty() {
    let span = Span::new(String::new(), String::new(), String::new());
    assert_eq!(span.name(), "");
    assert_eq!(span.field("db.name"), Some(""));
    assert_eq!(span.field("db.collection"), Some(""));
}

#[test]
fn equal_spans_compare_equal() {
    assert_eq!(sample(), sample());
    assert_ne!(
        sample(),
        Span::new("count_documents".to_string(), "shop".to_string(), "carts".to_string())
    );
}
