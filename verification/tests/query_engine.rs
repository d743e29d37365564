use sake::error::SakeError;
use sake::filter::Filter;
use sake::record::{
    CheckpointPrimaryMetric, Experiment, ExperimentCheckpoint, ExperimentConfig,
};
use sake::value::{value_to_string, JsonValue};

fn entry(k: &str, v: JsonValue) -> (String, JsonValue) {
    (k.to_string(), v)
}

fn s(v: &str) -> JsonValue {
    JsonValue::Str(v.to_string())
}

fn checkpoint(metrics: Vec<(String, JsonValue)>) -> ExperimentCheckpoint {
    ExperimentCheckpoint {
        id: "chk".to_string(),
        created: "2021-01-01T00:00:00".to_string(),
        metrics,
        step: 0,
        path: "model.pt".to_string(),
        primary_metric: CheckpointPrimaryMetric {
            name: "loss".to_string(),
            goal: "minimize".to_string(),
        },
    }
}

fn experiment(
    params: Vec<(String, JsonValue)>,
    checkpoints: Option<Vec<ExperimentCheckpoint>>,
) -> Experiment {
    Experiment {
        id: "abcdef0123".to_string(),
        created: "2021-01-01T00:00:00".to_string(),
        params,
        host: "host".to_string(),
        user: "user".to_string(),
        config: ExperimentConfig {
            repository: "file://repo".to_string(),
            storage: "disk".to_string(),
        },
        command: "train.py".to_string(),
        path: ".".to_string(),
        python_version: "3.8.5".to_string(),
        python_packages: JsonValue::Object(vec![]),
        checkpoints,
    }
}

fn is_str(v: Option<&JsonValue>, expected: &str) -> bool {
    match v {
        Some(JsonValue::Str(t)) => t == expected,
        _ => false,
    }
}

#[test]
fn resolution_prefers_params_over_checkpoints() {
    let e = experiment(
        vec![entry("method", s("A"))],
        Some(vec![checkpoint(vec![entry("method", s("B"))])]),
    );
    assert!(is_str(e.find_field("method"), "A"));
}

#[test]
fn resolution_scans_checkpoints_in_sequence_order() {
    let e = experiment(
        vec![entry("other", s("x"))],
        Some(vec![
            checkpoint(vec![entry("accuracy", s("0.1"))]),
            checkpoint(vec![entry("loss", s("0.9"))]),
            checkpoint(vec![entry("loss", s("0.5"))]),
        ]),
    );
    assert!(is_str(e.find_field("loss"), "0.9"));
}

#[test]
fn resolution_misses_when_field_is_nowhere() {
    let e = experiment(
        vec![entry("other", s("x"))],
        Some(vec![checkpoint(vec![entry("loss", s("0.9"))])]),
    );
    assert!(e.find_field("absent").is_none());
    let bare = experiment(vec![], None);
    assert!(bare.find_field("absent").is_none());
}

#[test]
fn resolution_hits_null_by_presence() {
    let e = experiment(vec![entry("method", JsonValue::Null)], None);
    assert!(matches!(e.find_field("method"), Some(JsonValue::Null)));
}

#[test]
fn resolution_of_empty_field_name() {
    let e = experiment(vec![entry("method", s("A"))], None);
    assert!(e.find_field("").is_none());
    let with_empty = experiment(vec![entry("", s("E"))], None);
    assert!(is_str(with_empty.find_field(""), "E"));
}

#[test]
fn filter_parse_splits_on_first_equals() {
    let f = Filter::from_str(&"a=b=c".to_string()).unwrap();
    let Filter::Equal { field, value } = f;
    assert_eq!(field, "a");
    assert_eq!(value, "b=c");
}

#[test]
fn filter_parse_accepts_empty_field_and_value() {
    let f = Filter::from_str(&"=v".to_string()).unwrap();
    let Filter::Equal { field, value } = f;
    assert_eq!(field, "");
    assert_eq!(value, "v");
    let g = Filter::from_str(&"k=".to_string()).unwrap();
    let Filter::Equal { field, value } = g;
    assert_eq!(field, "k");
    assert_eq!(value, "");
}

#[test]
fn filter_parse_rejects_token_without_equals() {
    match Filter::from_str(&"noequals".to_string()) {
        Err(SakeError::MalformedFilter { token }) => assert_eq!(token, "noequals"),
        _ => panic!("expected MalformedFilter"),
    }
}

#[test]
fn filter_on_unknown_field_is_false() {
    let e = experiment(
        vec![entry("method", s("A"))],
        Some(vec![checkpoint(vec![entry("loss", s("0.9"))])]),
    );
    let f = Filter::from_str(&"ghost=anything".to_string()).unwrap();
    assert!(!f.test(&e));
}

#[test]
fn filter_matches_string_equality() {
    let e = experiment(vec![entry("method", s("A"))], None);
    let yes = Filter::from_str(&"method=A".to_string()).unwrap();
    let no = Filter::from_str(&"method=B".to_string()).unwrap();
    assert!(yes.test(&e));
    assert!(!no.test(&e));
}

#[test]
fn filter_bool_true_matches_literal_true() {
    let e = experiment(vec![entry("x", JsonValue::Bool(true))], None);
    let f = Filter::from_str(&"x=true".to_string()).unwrap();
    assert!(f.test(&e));
}

#[test]
fn filter_bool_false_never_matches() {
    let e = experiment(vec![entry("x", JsonValue::Bool(false))], None);
    for tok in ["x=true", "x=false", "x="] {
        let f = Filter::from_str(&tok.to_string()).unwrap();
        assert!(!f.test(&e));
    }
}

#[test]
fn filter_null_matches_literal_null() {
    let e = experiment(vec![entry("x", JsonValue::Null)], None);
    let f = Filter::from_str(&"x=null".to_string()).unwrap();
    assert!(f.test(&e));
}

#[test]
fn filter_numbers_and_structures_never_match() {
    let e = experiment(
        vec![
            entry("n", JsonValue::Number("7".to_string())),
            entry("a", JsonValue::Array(vec![])),
            entry("o", JsonValue::Object(vec![])),
        ],
        None,
    );
    for tok in ["n=7", "a=", "o="] {
        let f = Filter::from_str(&tok.to_string()).unwrap();
        assert!(!f.test(&e));
    }
}

#[test]
fn canonical_forms_are_exact() {
    assert_eq!(value_to_string(&JsonValue::Null).unwrap(), "null");
    assert_eq!(value_to_string(&JsonValue::Bool(true)).unwrap(), "true");
    assert_eq!(value_to_string(&s("hello")).unwrap(), "hello");
    assert!(value_to_string(&JsonValue::Bool(false)).is_none());
    assert!(value_to_string(&JsonValue::Number("7".to_string())).is_none());
    assert!(value_to_string(&JsonValue::Array(vec![])).is_none());
    assert!(value_to_string(&JsonValue::Object(vec![])).is_none());
}
