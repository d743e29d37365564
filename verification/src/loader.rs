use vstd::prelude::*;

use crate::error::SakeError;
use crate::record::{
    CheckpointPrimaryMetric, Experiment, ExperimentCheckpoint, ExperimentConfig,
};
use crate::strutil::{all_digits, digits_val, parse_usize, str_equal};
use crate::value::{
    assoc_find, lemma_assoc_find_first_hit, lemma_assoc_find_none, lemma_assoc_find_remove_other,
    JsonValue,
};

verus! {

/// The value tree a JSON document denotes, if the document is well-formed
/// JSON: the one fact the query engine takes from serde_json's parser.
pub uninterp spec fn json_doc(s: Seq<char>) -> Option<JsonValue>;

/// The query engine's image of the tree a serde_json::Value holds.
pub uninterp spec fn tree_of(v: serde_json::Value) -> JsonValue;

/// Relies on serde_json::from_str::<serde_json::Value>: parses a JSON
/// document into a value tree, or reports why the document is malformed;
/// the outcome is a function of the text alone.
#[verifier::external_body]
fn parse_document(s: &str) -> (r: Result<serde_json::Value, String>)
    ensures
        r is Ok <==> json_doc(s@) is Some,
        (r matches Ok(v) ==> json_doc(s@) == Some(tree_of(v))),
{
    serde_json::from_str::<serde_json::Value>(s).map_err(|e| e.to_string())
}

/// Relies on serde_json::Value being the six-variant tree of JSON values;
/// each variant is carried across one for one, a number keeping the text
/// serde_json renders for it.
#[verifier::external_body]
fn json_to_value(v: serde_json::Value) -> (r: JsonValue)
    ensures
        r == tree_of(v),
{
    match v {
        serde_json::Value::Null => JsonValue::Null,
        serde_json::Value::Bool(b) => JsonValue::Bool(b),
        serde_json::Value::Number(n) => JsonValue::Number(n.to_string()),
        serde_json::Value::String(s) => JsonValue::Str(s),
        serde_json::Value::Array(a) => JsonValue::Array(a.into_iter().map(json_to_value).collect()),
        serde_json::Value::Object(m) => JsonValue::Object(
            m.into_iter().map(|(k, x)| (k, json_to_value(x))).collect(),
        ),
    }
}

/// Parses a JSON document into the engine's value tree, or reports the
/// parser's diagnostic.
pub fn parse_json(s: &str) -> (r: Result<JsonValue, String>)
    ensures
        r is Ok <==> json_doc(s@) is Some,
        (r matches Ok(v) ==> json_doc(s@) == Some(v)),
{
    match parse_document(s) {
        Ok(v) => Ok(json_to_value(v)),
        Err(e) => Err(e),
    }
}

/// The string bound to `k` in an object's entries, if its first occurrence
/// is a string.
pub open spec fn str_entry(m: Seq<(String, JsonValue)>, k: Seq<char>) -> Option<String> {
    match assoc_find(m, k) {
        Some(JsonValue::Str(s)) => Some(s),
        _ => None,
    }
}

/// The step ordinal bound to `step`, if its first occurrence is a number
/// whose text is a machine-representable non-negative integer.
pub open spec fn step_entry(m: Seq<(String, JsonValue)>) -> Option<int> {
    match assoc_find(m, "step"@) {
        Some(JsonValue::Number(s)) => if all_digits(s@) && digits_val(s@) <= usize::MAX {
            Some(digits_val(s@))
        } else {
            None
        },
        _ => None,
    }
}

/// Whether `v` conforms to the `{name, goal}` primary-metric schema.
pub open spec fn valid_primary_metric(v: JsonValue) -> bool {
    match v {
        JsonValue::Object(m) => str_entry(m@, "name"@) is Some && str_entry(m@, "goal"@) is Some,
        _ => false,
    }
}

/// How a conforming primary-metric value reads as a record.
pub open spec fn primary_metric_rel(v: JsonValue, pm: CheckpointPrimaryMetric) -> bool {
    match v {
        JsonValue::Object(m) => Some(pm.name) == str_entry(m@, "name"@) && Some(pm.goal) == str_entry(
            m@,
            "goal"@,
        ),
        _ => false,
    }
}

/// Whether `v` conforms to the config schema: string `repository` and
/// `storage` fields.
pub open spec fn valid_config(v: JsonValue) -> bool {
    match v {
        JsonValue::Object(m) => str_entry(m@, "repository"@) is Some && str_entry(
            m@,
            "storage"@,
        ) is Some,
        _ => false,
    }
}

/// How a conforming config value reads as a record.
pub open spec fn config_rel(v: JsonValue, c: ExperimentConfig) -> bool {
    match v {
        JsonValue::Object(m) => Some(c.repository) == str_entry(m@, "repository"@) && Some(c.storage)
            == str_entry(m@, "storage"@),
        _ => false,
    }
}

/// Whether `v` conforms to the checkpoint schema.
pub open spec fn valid_checkpoint(v: JsonValue) -> bool {
    match v {
        JsonValue::Object(m) => {
            &&& str_entry(m@, "id"@) is Some
            &&& str_entry(m@, "created"@) is Some
            &&& (assoc_find(m@, "metrics"@) matches Some(mv) && mv is Object)
            &&& step_entry(m@) is Some
            &&& str_entry(m@, "path"@) is Some
            &&& (assoc_find(m@, "primary_metric"@) matches Some(pv) && valid_primary_metric(pv))
        },
        _ => false,
    }
}

/// How a conforming checkpoint value reads as a record.
pub open spec fn checkpoint_rel(v: JsonValue, c: ExperimentCheckpoint) -> bool {
    match v {
        JsonValue::Object(m) => {
            &&& Some(c.id) == str_entry(m@, "id"@)
            &&& Some(c.created) == str_entry(m@, "created"@)
            &&& (assoc_find(m@, "metrics"@) matches Some(JsonValue::Object(mm)) && c.metrics == mm)
            &&& Some(c.step as int) == step_entry(m@)
            &&& Some(c.path) == str_entry(m@, "path"@)
            &&& (assoc_find(m@, "primary_metric"@) matches Some(pv) && primary_metric_rel(
                pv,
                c.primary_metric,
            ))
        },
        _ => false,
    }
}

/// Whether `v` conforms to the experiment schema: every required field
/// present with the required kind; `checkpoints` may be absent or `null`,
/// and otherwise must be an array of conforming checkpoints.
pub open spec fn valid_experiment(v: JsonValue) -> bool {
    match v {
        JsonValue::Object(m) => {
            &&& str_entry(m@, "id"@) is Some
            &&& str_entry(m@, "created"@) is Some
            &&& (assoc_find(m@, "params"@) matches Some(pv) && pv is Object)
            &&& str_entry(m@, "host"@) is Some
            &&& str_entry(m@, "user"@) is Some
            &&& (assoc_find(m@, "config"@) matches Some(cv) && valid_config(cv))
            &&& str_entry(m@, "command"@) is Some
            &&& str_entry(m@, "path"@) is Some
            &&& str_entry(m@, "python_version"@) is Some
            &&& assoc_find(m@, "python_packages"@) is Some
            &&& match assoc_find(m@, "checkpoints"@) {
                None => true,
                Some(JsonValue::Null) => true,
                Some(JsonValue::Array(a)) => forall|i: int|
                    0 <= i < a@.len() ==> valid_checkpoint(#[trigger] a@[i]),
                Some(_) => false,
            }
        },
        _ => false,
    }
}

/// How a conforming experiment value reads as a record.
pub open spec fn experiment_rel(v: JsonValue, e: Experiment) -> bool {
    match v {
        JsonValue::Object(m) => {
            &&& Some(e.id) == str_entry(m@, "id"@)
            &&& Some(e.created) == str_entry(m@, "created"@)
            &&& (assoc_find(m@, "params"@) matches Some(JsonValue::Object(pm)) && e.params == pm)
            &&& Some(e.host) == str_entry(m@, "host"@)
            &&& Some(e.user) == str_entry(m@, "user"@)
            &&& (assoc_find(m@, "config"@) matches Some(cv) && config_rel(cv, e.config))
            &&& Some(e.command) == str_entry(m@, "command"@)
            &&& Some(e.path) == str_entry(m@, "path"@)
            &&& Some(e.python_version) == str_entry(m@, "python_version"@)
            &&& Some(e.python_packages) == assoc_find(m@, "python_packages"@)
            &&& match assoc_find(m@, "checkpoints"@) {
                None => e.checkpoints is None,
                Some(JsonValue::Null) => e.checkpoints is None,
                Some(JsonValue::Array(a)) => (e.checkpoints matches Some(cs) && cs@.len() == a@.len()
                    && forall|i: int|
                    0 <= i < a@.len() ==> checkpoint_rel(a@[i], #[trigger] cs@[i])),
                Some(_) => false,
            }
        },
        _ => false,
    }
}

/// Removes and returns the first entry of `m` keyed `k`; lookups under
/// every other key are unchanged by the removal.
fn take_field(m: &mut Vec<(String, JsonValue)>, k: &str) -> (r: Option<JsonValue>)
    ensures
        match r {
            Some(v) => assoc_find(old(m)@, k@) == Some(v),
            None => assoc_find(old(m)@, k@) is None && final(m)@ == old(m)@,
        },
        forall|k2: Seq<char>| k2 != k@ ==> #[trigger] assoc_find(final(m)@, k2) == assoc_find(
            old(m)@,
            k2,
        ),
{
    let mut i: usize = 0;
    while i < m.len()
        invariant
            i <= m@.len(),
            m@ == old(m)@,
            forall|j: int| 0 <= j < i ==> (#[trigger] m@[j].0)@ != k@,
        decreases m@.len() - i,
    {
        if str_equal(m[i].0.as_str(), k) {
            proof {
                lemma_assoc_find_first_hit(m@, k@, i as int);
            }
            let pair = m.remove(i);
            proof {
                assert forall|k2: Seq<char>| k2 != k@ implies #[trigger] assoc_find(m@, k2)
                    == assoc_find(old(m)@, k2) by {
                    lemma_assoc_find_remove_other(old(m)@, i as int, k2);
                }
            }
            return Some(pair.1);
        }
        i += 1;
    }
    proof {
        lemma_assoc_find_none(m@, k@);
    }
    None
}

/// The field names of the experiment and checkpoint schemas are pairwise
/// distinct, so taking one of them out of an object leaves the others'
/// lookups unchanged.
proof fn lemma_field_names_distinct()
    ensures
        "id"@ != "created"@ && "id"@ != "params"@ && "id"@ != "host"@ && "id"@ != "user"@ && "id"@
            != "config"@ && "id"@ != "command"@ && "id"@ != "path"@ && "id"@ != "python_version"@
            && "id"@ != "python_packages"@ && "id"@ != "checkpoints"@,
        "created"@ != "params"@ && "created"@ != "host"@ && "created"@ != "user"@ && "created"@
            != "config"@ && "created"@ != "command"@ && "created"@ != "path"@ && "created"@
            != "python_version"@ && "created"@ != "python_packages"@ && "created"@
            != "checkpoints"@,
        "params"@ != "host"@ && "params"@ != "user"@ && "params"@ != "config"@ && "params"@
            != "command"@ && "params"@ != "path"@ && "params"@ != "python_version"@ && "params"@
            != "python_packages"@ && "params"@ != "checkpoints"@,
        "host"@ != "user"@ && "host"@ != "config"@ && "host"@ != "command"@ && "host"@ != "path"@
            && "host"@ != "python_version"@ && "host"@ != "python_packages"@ && "host"@
            != "checkpoints"@,
        "user"@ != "config"@ && "user"@ != "command"@ && "user"@ != "path"@ && "user"@
            != "python_version"@ && "user"@ != "python_packages"@ && "user"@ != "checkpoints"@,
        "config"@ != "command"@ && "config"@ != "path"@ && "config"@ != "python_version"@
            && "config"@ != "python_packages"@ && "config"@ != "checkpoints"@,
        "command"@ != "path"@ && "command"@ != "python_version"@ && "command"@
            != "python_packages"@ && "command"@ != "checkpoints"@,
        "path"@ != "python_version"@ && "path"@ != "python_packages"@ && "path"@ != "checkpoints"@,
        "python_version"@ != "python_packages"@ && "python_version"@ != "checkpoints"@,
        "python_packages"@ != "checkpoints"@,
        "id"@ != "metrics"@ && "id"@ != "step"@ && "id"@ != "primary_metric"@,
        "created"@ != "metrics"@ && "created"@ != "step"@ && "created"@ != "primary_metric"@,
        "metrics"@ != "step"@ && "metrics"@ != "path"@ && "metrics"@ != "primary_metric"@,
        "step"@ != "path"@ && "step"@ != "primary_metric"@,
        "path"@ != "primary_metric"@,
        "name"@ != "goal"@,
        "repository"@ != "storage"@,
{
    reveal_strlit("id");
    reveal_strlit("created");
    reveal_strlit("params");
    reveal_strlit("host");
    reveal_strlit("user");
    reveal_strlit("config");
    reveal_strlit("command");
    reveal_strlit("path");
    reveal_strlit("python_version");
    reveal_strlit("python_packages");
    reveal_strlit("checkpoints");
    reveal_strlit("metrics");
    reveal_strlit("step");
    reveal_strlit("primary_metric");
    reveal_strlit("name");
    reveal_strlit("goal");
    reveal_strlit("repository");
    reveal_strlit("storage");
    assert("id"@.len() != "created"@.len());
    assert("id"@.len() != "params"@.len());
    assert("id"@.len() != "host"@.len());
    assert("id"@.len() != "user"@.len());
    assert("id"@.len() != "config"@.len());
    assert("id"@.len() != "command"@.len());
    assert("id"@.len() != "path"@.len());
    assert("id"@.len() != "python_version"@.len());
    assert("id"@.len() != "python_packages"@.len());
    assert("id"@.len() != "checkpoints"@.len());
    assert("created"@.len() != "params"@.len());
    assert("created"@.len() != "host"@.len());
    assert("created"@.len() != "user"@.len());
    assert("created"@.len() != "config"@.len());
    assert("created"@[1] != "command"@[1]);
    assert("created"@.len() != "path"@.len());
    assert("created"@.len() != "python_version"@.len());
    assert("created"@.len() != "python_packages"@.len());
    assert("created"@.len() != "checkpoints"@.len());
    assert("params"@.len() != "host"@.len());
    assert("params"@.len() != "user"@.len());
    assert("params"@[0] != "config"@[0]);
    assert("params"@.len() != "command"@.len());
    assert("params"@.len() != "path"@.len());
    assert("params"@.len() != "python_version"@.len());
    assert("params"@.len() != "python_packages"@.len());
    assert("params"@.len() != "checkpoints"@.len());
    assert("host"@[0] != "user"@[0]);
    assert("host"@.len() != "config"@.len());
    assert("host"@.len() != "command"@.len());
    assert("host"@[0] != "path"@[0]);
    assert("host"@.len() != "python_version"@.len());
    assert("host"@.len() != "python_packages"@.len());
    assert("host"@.len() != "checkpoints"@.len());
    assert("user"@.len() != "config"@.len());
    assert("user"@.len() != "command"@.len());
    assert("user"@[0] != "path"@[0]);
    assert("user"@.len() != "python_version"@.len());
    assert("user"@.len() != "python_packages"@.len());
    assert("user"@.len() != "checkpoints"@.len());
    assert("config"@.len() != "command"@.len());
    assert("config"@.len() != "path"@.len());
    assert("config"@.len() != "python_version"@.len());
    assert("config"@.len() != "python_packages"@.len());
    assert("config"@.len() != "checkpoints"@.len());
    assert("command"@.len() != "path"@.len());
    assert("command"@.len() != "python_version"@.len());
    assert("command"@.len() != "python_packages"@.len());
    assert("command"@.len() != "checkpoints"@.len());
    assert("path"@.len() != "python_version"@.len());
    assert("path"@.len() != "python_packages"@.len());
    assert("path"@.len() != "checkpoints"@.len());
    assert("python_version"@.len() != "python_packages"@.len());
    assert("python_version"@.len() != "checkpoints"@.len());
    assert("python_packages"@.len() != "checkpoints"@.len());
    assert("id"@.len() != "metrics"@.len());
    assert("id"@.len() != "step"@.len());
    assert("id"@.len() != "primary_metric"@.len());
    assert("created"@[0] != "metrics"@[0]);
    assert("created"@.len() != "step"@.len());
    assert("created"@.len() != "primary_metric"@.len());
    assert("metrics"@.len() != "step"@.len());
    assert("metrics"@.len() != "path"@.len());
    assert("metrics"@.len() != "primary_metric"@.len());
    assert("step"@[0] != "path"@[0]);
    assert("step"@.len() != "primary_metric"@.len());
    assert("path"@.len() != "primary_metric"@.len());
    assert("name"@[0] != "goal"@[0]);
    assert("repository"@.len() != "storage"@.len());
}

/// Validates and reads a primary-metric value.
fn parse_primary_metric(v: JsonValue) -> (r: Option<CheckpointPrimaryMetric>)
    ensures
        r is Some <==> valid_primary_metric(v),
        (r matches Some(pm) ==> primary_metric_rel(v, pm)),
{
    proof {
        lemma_field_names_distinct();
    }
    match v {
        JsonValue::Object(m) => {
            let mut m = m;
            let name = match take_field(&mut m, "name") {
                Some(JsonValue::Str(s)) => s,
                _ => {
                    return None;
                },
            };
            let goal = match take_field(&mut m, "goal") {
                Some(JsonValue::Str(s)) => s,
                _ => {
                    return None;
                },
            };
            Some(CheckpointPrimaryMetric { name, goal })
        },
        _ => None,
    }
}

/// Validates and reads a config value.
fn parse_config(v: JsonValue) -> (r: Option<ExperimentConfig>)
    ensures
        r is Some <==> valid_config(v),
        (r matches Some(c) ==> config_rel(v, c)),
{
    proof {
        lemma_field_names_distinct();
    }
    match v {
        JsonValue::Object(m) => {
            let mut m = m;
            let repository = match take_field(&mut m, "repository") {
                Some(JsonValue::Str(s)) => s,
                _ => {
                    return None;
                },
            };
            let storage = match take_field(&mut m, "storage") {
                Some(JsonValue::Str(s)) => s,
                _ => {
                    return None;
                },
            };
            Some(ExperimentConfig { repository, storage })
        },
        _ => None,
    }
}

/// Validates and reads one checkpoint value.
fn parse_checkpoint(v: JsonValue) -> (r: Option<ExperimentCheckpoint>)
    ensures
        r is Some <==> valid_checkpoint(v),
        (r matches Some(c) ==> checkpoint_rel(v, c)),
{
    proof {
        lemma_field_names_distinct();
    }
    match v {
        JsonValue::Object(m) => {
            let mut m = m;
            let id = match take_field(&mut m, "id") {
                Some(JsonValue::Str(s)) => s,
                _ => {
                    return None;
                },
            };
            let created = match take_field(&mut m, "created") {
                Some(JsonValue::Str(s)) => s,
                _ => {
                    return None;
                },
            };
            let metrics = match take_field(&mut m, "metrics") {
                Some(JsonValue::Object(mm)) => mm,
                _ => {
                    return None;
                },
            };
            let step = match take_field(&mut m, "step") {
                Some(JsonValue::Number(s)) => match parse_usize(s.as_str()) {
                    Some(n) => n,
                    None => {
                        return None;
                    },
                },
                _ => {
                    return None;
                },
            };
            let path = match take_field(&mut m, "path") {
                Some(JsonValue::Str(s)) => s,
                _ => {
                    return None;
                },
            };
            let primary_metric = match take_field(&mut m, "primary_metric") {
                Some(pv) => match parse_primary_metric(pv) {
                    Some(pm) => pm,
                    None => {
                        return None;
                    },
                },
                None => {
                    return None;
                },
            };
            Some(ExperimentCheckpoint { id, created, metrics, step, path, primary_metric })
        },
        _ => None,
    }
}

/// Validates and reads a checkpoint array, in sequence order.
fn parse_checkpoints(a: Vec<JsonValue>) -> (r: Option<Vec<ExperimentCheckpoint>>)
    ensures
        r is Some <==> (forall|i: int| 0 <= i < a@.len() ==> valid_checkpoint(#[trigger] a@[i])),
        (r matches Some(cs) ==> cs@.len() == a@.len() && forall|i: int|
            0 <= i < a@.len() ==> checkpoint_rel(a@[i], #[trigger] cs@[i])),
{
    let ghost av = a@;
    let mut rest = a;
    let mut out: Vec<ExperimentCheckpoint> = Vec::new();
    while rest.len() > 0
        invariant
            av == a@,
            out@.len() + rest@.len() == av.len(),
            rest@ == av.skip(out@.len() as int),
            forall|i: int| 0 <= i < out@.len() ==> valid_checkpoint(#[trigger] av[i]),
            forall|i: int| 0 <= i < out@.len() ==> checkpoint_rel(av[i], #[trigger] out@[i]),
        decreases rest@.len(),
    {
        let ghost done = out@.len() as int;
        let v = rest.remove(0);
        proof {
            assert(v == av[done]);
            assert(rest@ =~= av.skip(done + 1));
        }
        match parse_checkpoint(v) {
            Some(c) => {
                out.push(c);
            },
            None => {
                proof {
                    assert(!valid_checkpoint(a@[done]));
                }
                return None;
            },
        }
    }
    proof {
        assert(av.skip(av.len() as int) =~= Seq::<JsonValue>::empty());
    }
    Some(out)
}

/// Validates and reads a whole experiment value.
fn parse_experiment(v: JsonValue) -> (r: Option<Experiment>)
    ensures
        r is Some <==> valid_experiment(v),
        (r matches Some(e) ==> experiment_rel(v, e)),
{
    proof {
        lemma_field_names_distinct();
    }
    match v {
        JsonValue::Object(m) => {
            let mut m = m;
            let id = match take_field(&mut m, "id") {
                Some(JsonValue::Str(s)) => s,
                _ => {
                    return None;
                },
            };
            let created = match take_field(&mut m, "created") {
                Some(JsonValue::Str(s)) => s,
                _ => {
                    return None;
                },
            };
            let params = match take_field(&mut m, "params") {
                Some(JsonValue::Object(pm)) => pm,
                _ => {
                    return None;
                },
            };
            let host = match take_field(&mut m, "host") {
                Some(JsonValue::Str(s)) => s,
                _ => {
                    return None;
                },
            };
            let user = match take_field(&mut m, "user") {
                Some(JsonValue::Str(s)) => s,
                _ => {
                    return None;
                },
            };
            let config = match take_field(&mut m, "config") {
                Some(cv) => match parse_config(cv) {
                    Some(c) => c,
                    None => {
                        return None;
                    },
                },
                None => {
                    return None;
                },
            };
            let command = match take_field(&mut m, "command") {
                Some(JsonValue::Str(s)) => s,
                _ => {
                    return None;
                },
            };
            let path = match take_field(&mut m, "path") {
                Some(JsonValue::Str(s)) => s,
                _ => {
                    return None;
                },
            };
            let python_version = match take_field(&mut m, "python_version") {
                Some(JsonValue::Str(s)) => s,
                _ => {
                    return None;
                },
            };
            let python_packages = match take_field(&mut m, "python_packages") {
                Some(pv) => pv,
                None => {
                    return None;
                },
            };
            let checkpoints = match take_field(&mut m, "checkpoints") {
                None => None,
                Some(JsonValue::Null) => None,
                Some(JsonValue::Array(a)) => match parse_checkpoints(a) {
                    Some(cs) => Some(cs),
                    None => {
                        return None;
                    },
                },
                Some(_) => {
                    return None;
                },
            };
            Some(
                Experiment {
                    id,
                    created,
                    params,
                    host,
                    user,
                    config,
                    command,
                    path,
                    python_version,
                    python_packages,
                    checkpoints,
                },
            )
        },
        _ => None,
    }
}

/// Loads one experiment record from the text of its file: the document
/// must be well-formed JSON and conform to the experiment schema, and any
/// failure is a schema error carrying `path`.
pub fn load_experiment(path: &str, content: &str) -> (r: Result<Experiment, SakeError>)
    ensures
        r is Ok <==> (json_doc(content@) matches Some(v) && valid_experiment(v)),
        (r matches Ok(e) ==> (json_doc(content@) matches Some(v) && experiment_rel(v, e))),
        (r matches Err(err) ==> (err matches SakeError::SchemaError { path: p, .. } && p@
            == path@)),
{
    match parse_json(content) {
        Ok(v) => match parse_experiment(v) {
            Some(e) => Ok(e),
            None => Err(
                SakeError::SchemaError {
                    path: path.to_owned(),
                    detail: String::from_str("record does not conform to the experiment schema"),
                },
            ),
        },
        Err(detail) => Err(SakeError::SchemaError { path: path.to_owned(), detail }),
    }
}

} // verus!
