use sake::catalog::KeepsakeRepository;
use sake::error::SakeError;
use sake::loader::load_experiment;
use sake::record::Experiment;
use sake::value::JsonValue;

const VALID_DOC: &str = r#"{
  "id": "abcdef0123",
  "created": "2021-01-01T00:00:00",
  "params": {"method": "A", "flag": true, "rate": 5},
  "host": "host",
  "user": "user",
  "config": {"repository": "file://repo", "storage": "disk"},
  "command": "train.py",
  "path": ".",
  "python_version": "3.8.5",
  "python_packages": {"numpy": "1.19"},
  "checkpoints": [
    {
      "id": "chk1",
      "created": "2021-01-01T01:00:00",
      "metrics": {"loss": "0.9"},
      "step": 10,
      "path": "model.pt",
      "primary_metric": {"name": "loss", "goal": "minimize"}
    },
    {
      "id": "chk2",
      "created": "2021-01-01T02:00:00",
      "metrics": {"loss": "0.5", "extra": null},
      "step": 20,
      "path": "model2.pt",
      "primary_metric": {"name": "loss", "goal": "minimize"}
    }
  ]
}"#;

fn doc_with(replace_from: &str, replace_to: &str) -> String {
    VALID_DOC.replace(replace_from, replace_to)
}

fn repo() -> KeepsakeRepository {
    KeepsakeRepository::from_config("file://somewhere").unwrap()
}

#[test]
fn load_reads_the_whole_record() {
    let e = load_experiment("a.json", VALID_DOC).unwrap();
    assert_eq!(e.id, "abcdef0123");
    assert_eq!(e.created, "2021-01-01T00:00:00");
    assert_eq!(e.host, "host");
    assert_eq!(e.user, "user");
    assert_eq!(e.config.repository, "file://repo");
    assert_eq!(e.config.storage, "disk");
    assert_eq!(e.command, "train.py");
    assert_eq!(e.path, ".");
    assert_eq!(e.python_version, "3.8.5");
    let cps = e.checkpoints.as_ref().unwrap();
    assert_eq!(cps.len(), 2);
    assert_eq!(cps[0].id, "chk1");
    assert_eq!(cps[0].step, 10);
    assert_eq!(cps[1].step, 20);
    assert_eq!(cps[1].primary_metric.name, "loss");
    assert!(matches!(e.find_field("method"), Some(JsonValue::Str(v)) if v == "A"));
    assert!(matches!(e.find_field("flag"), Some(JsonValue::Bool(true))));
    assert!(matches!(e.find_field("loss"), Some(JsonValue::Str(v)) if v == "0.9"));
    assert!(matches!(e.find_field("extra"), Some(JsonValue::Null)));
    assert!(e.find_field("absent").is_none());
}

#[test]
fn load_accepts_absent_or_null_checkpoints() {
    let no_cps = r#"{
      "id": "x", "created": "t", "params": {},
      "host": "h", "user": "u",
      "config": {"repository": "r", "storage": "s"},
      "command": "c", "path": "p", "python_version": "3",
      "python_packages": []
    }"#;
    let e = load_experiment("a.json", no_cps).unwrap();
    assert!(e.checkpoints.is_none());
    let null_cps = no_cps.replace("\"python_packages\": []", "\"python_packages\": [], \"checkpoints\": null");
    let e2 = load_experiment("a.json", &null_cps).unwrap();
    assert!(e2.checkpoints.is_none());
}

#[test]
fn load_rejects_malformed_json() {
    match load_experiment("b.json", "{ \"id\": ") {
        Err(SakeError::SchemaError { path, .. }) => assert_eq!(path, "b.json"),
        _ => panic!("expected SchemaError"),
    }
}

#[test]
fn load_rejects_missing_required_field() {
    let doc = doc_with("\"id\": \"abcdef0123\",", "");
    assert!(matches!(
        load_experiment("a.json", &doc),
        Err(SakeError::SchemaError { .. })
    ));
}

#[test]
fn load_rejects_wrong_kind_for_required_field() {
    let doc = doc_with("\"host\": \"host\"", "\"host\": 5");
    assert!(matches!(
        load_experiment("a.json", &doc),
        Err(SakeError::SchemaError { .. })
    ));
    let doc = doc_with("\"params\": {\"method\": \"A\", \"flag\": true, \"rate\": 5}", "\"params\": 3");
    assert!(matches!(
        load_experiment("a.json", &doc),
        Err(SakeError::SchemaError { .. })
    ));
    let doc = doc_with("\"checkpoints\": [", "\"checkpoints\": \"no\", \"ignored\": [");
    assert!(matches!(
        load_experiment("a.json", &doc),
        Err(SakeError::SchemaError { .. })
    ));
}

#[test]
fn load_rejects_bad_step_values() {
    for bad in ["-3", "3.5", "1e3", "18446744073709551616"] {
        let doc = doc_with("\"step\": 10", &format!("\"step\": {}", bad));
        assert!(
            matches!(load_experiment("a.json", &doc), Err(SakeError::SchemaError { .. })),
            "step {} should be rejected",
            bad
        );
    }
    let doc = doc_with("\"step\": 10", "\"step\": 18446744073709551615");
    let e = load_experiment("a.json", &doc).unwrap();
    assert_eq!(e.checkpoints.unwrap()[0].step, usize::MAX);
}

#[test]
fn list_applies_filters_with_logical_and() {
    let doc_a = VALID_DOC.to_string();
    let doc_b = doc_with("\"method\": \"A\"", "\"method\": \"B\"");
    let docs = vec![
        ("a.json".to_string(), doc_a),
        ("b.json".to_string(), doc_b),
    ];
    let both = repo()
        .list_experiments(&docs, &vec!["flag=true".to_string()])
        .unwrap();
    assert_eq!(both.len(), 2);
    let only_a = repo()
        .list_experiments(
            &docs,
            &vec!["flag=true".to_string(), "method=A".to_string()],
        )
        .unwrap();
    assert_eq!(only_a.len(), 1);
    assert!(matches!(only_a[0].find_field("method"), Some(JsonValue::Str(v)) if v == "A"));
    let none = repo()
        .list_experiments(
            &docs,
            &vec!["method=A".to_string(), "method=B".to_string()],
        )
        .unwrap();
    assert!(none.is_empty());
}

#[test]
fn list_with_no_filters_keeps_every_record_in_order() {
    let docs = vec![
        ("a.json".to_string(), VALID_DOC.to_string()),
        ("b.json".to_string(), doc_with("abcdef0123", "second9999")),
    ];
    let es: Vec<Experiment> = repo().list_experiments(&docs, &vec![]).unwrap();
    assert_eq!(es.len(), 2);
    assert_eq!(es[0].id, "abcdef0123");
    assert_eq!(es[1].id, "second9999");
}

#[test]
fn list_allows_duplicate_experiment_ids() {
    let docs = vec![
        ("a.json".to_string(), VALID_DOC.to_string()),
        ("b.json".to_string(), VALID_DOC.to_string()),
    ];
    let es = repo().list_experiments(&docs, &vec![]).unwrap();
    assert_eq!(es.len(), 2);
    assert_eq!(es[0].id, es[1].id);
}

#[test]
fn list_fails_fast_on_first_bad_record() {
    let docs = vec![
        ("a.json".to_string(), VALID_DOC.to_string()),
        ("b.json".to_string(), "{ truncated".to_string()),
        ("c.json".to_string(), VALID_DOC.to_string()),
    ];
    match repo().list_experiments(&docs, &vec![]) {
        Err(SakeError::SchemaError { path, .. }) => assert_eq!(path, "b.json"),
        _ => panic!("expected SchemaError for b.json"),
    }
}

#[test]
fn list_rejects_malformed_filter_before_filtering() {
    let docs = vec![("a.json".to_string(), VALID_DOC.to_string())];
    match repo().list_experiments(&docs, &vec!["ok=1".to_string(), "bad".to_string()]) {
        Err(SakeError::MalformedFilter { token }) => assert_eq!(token, "bad"),
        _ => panic!("expected MalformedFilter"),
    }
}

#[test]
fn from_config_requires_file_scheme() {
    let ok = KeepsakeRepository::from_config("file:///data/repo").unwrap();
    assert_eq!(ok.location, "/data/repo");
    match KeepsakeRepository::from_config("s3://bucket/repo") {
        Err(SakeError::InvalidRepositoryLocation { location }) => {
            assert_eq!(location, "s3://bucket/repo")
        },
        _ => panic!("expected InvalidRepositoryLocation"),
    }
}

#[test]
fn error_messages_render_by_kind() {
    assert_eq!(
        SakeError::IOError { detail: "gone".to_string() }.message(),
        "io error: gone"
    );
    assert_eq!(
        SakeError::SchemaError { path: "b.json".to_string(), detail: "bad".to_string() }.message(),
        "schema error: b.json: bad"
    );
    assert_eq!(
        SakeError::MalformedFilter { token: "bad".to_string() }.message(),
        "invalid filter: bad"
    );
    assert_eq!(
        SakeError::InvalidRepositoryLocation { location: "s3://x".to_string() }.message(),
        "invalid repository location: s3://x, only file is supported"
    );
}
