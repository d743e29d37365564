use vstd::prelude::*;

use crate::strutil::str_equal;
use crate::value::{assoc_find, lemma_assoc_find_first_hit, lemma_assoc_find_none, JsonValue};

verus! {

/// The `{name, goal}` pair designating which metric a checkpoint optimizes.
/// Preserved for future sort support; not used by filtering.
#[derive(Debug)]
pub struct CheckpointPrimaryMetric {
    pub name: String,
    pub goal: String,
}

/// The configuration block recorded inside an experiment file. Opaque
/// pass-through data.
#[derive(Debug)]
pub struct ExperimentConfig {
    pub repository: String,
    pub storage: String,
}

/// One saved snapshot within an experiment, carrying its own metric map.
#[derive(Debug)]
pub struct ExperimentCheckpoint {
    pub id: String,
    pub created: String,
    pub metrics: Vec<(String, JsonValue)>,
    pub step: usize,
    pub path: String,
    pub primary_metric: CheckpointPrimaryMetric,
}

/// One tracked run: a parameter map, optional checkpoints in source order,
/// and opaque descriptive attributes.
#[derive(Debug)]
pub struct Experiment {
    pub id: String,
    pub created: String,
    pub params: Vec<(String, JsonValue)>,
    pub host: String,
    pub user: String,
    pub config: ExperimentConfig,
    pub command: String,
    pub path: String,
    pub python_version: String,
    pub python_packages: JsonValue,
    pub checkpoints: Option<Vec<ExperimentCheckpoint>>,
}

impl Experiment {
    /// Where `field` resolves once the parameter map has missed: the first
    /// checkpoint, in sequence order, whose metric map carries it.
    pub open spec fn resolve_in_checkpoints(
        cps: Seq<ExperimentCheckpoint>,
        field: Seq<char>,
    ) -> Option<JsonValue>
        decreases cps.len(),
    {
        if cps.len() == 0 {
            None
        } else {
            match assoc_find(cps[0].metrics@, field) {
                Some(v) => Some(v),
                None => Self::resolve_in_checkpoints(cps.skip(1), field),
            }
        }
    }

    /// The value `field` resolves to in this record: the parameter map takes
    /// precedence; otherwise each checkpoint's metric map is scanned in
    /// sequence order and the first hit wins. Presence decides a hit, not
    /// truthiness: a key bound to `null` still resolves.
    pub open spec fn resolve(self, field: Seq<char>) -> Option<JsonValue> {
        match assoc_find(self.params@, field) {
            Some(v) => Some(v),
            None => match self.checkpoints {
                Some(cps) => Self::resolve_in_checkpoints(cps@, field),
                None => None,
            },
        }
    }

    /// Locates `field` in this record, by the resolution order of
    /// [`Experiment::resolve`].
    pub fn find_field<'a>(&'a self, field: &str) -> (r: Option<&'a JsonValue>)
        ensures
            match r {
                Some(v) => self.resolve(field@) == Some(*v),
                None => self.resolve(field@) is None,
            },
    {
        let mut i: usize = 0;
        while i < self.params.len()
            invariant
                i <= self.params@.len(),
                forall|j: int| 0 <= j < i ==> (#[trigger] self.params@[j].0)@ != field@,
            decreases self.params@.len() - i,
        {
            if str_equal(self.params[i].0.as_str(), field) {
                proof {
                    lemma_assoc_find_first_hit(self.params@, field@, i as int);
                }
                return Some(&self.params[i].1);
            }
            i += 1;
        }
        proof {
            lemma_assoc_find_none(self.params@, field@);
        }
        match &self.checkpoints {
            Some(cps) => {
                let mut c: usize = 0;
                while c < cps.len()
                    invariant
                        c <= cps@.len(),
                        self.checkpoints == Some(*cps),
                        assoc_find(self.params@, field@) is None,
                        forall|j: int| 0 <= j < c ==> assoc_find(
                            (#[trigger] cps@[j]).metrics@,
                            field@,
                        ) is None,
                    decreases cps@.len() - c,
                {
                    let m = &cps[c].metrics;
                    let mut k: usize = 0;
                    while k < m.len()
                        invariant
                            k <= m@.len(),
                            *m == cps@[c as int].metrics,
                            c < cps@.len(),
                            self.checkpoints == Some(*cps),
                            assoc_find(self.params@, field@) is None,
                            forall|j: int| 0 <= j < c ==> assoc_find(
                                (#[trigger] cps@[j]).metrics@,
                                field@,
                            ) is None,
                            forall|j: int| 0 <= j < k ==> (#[trigger] m@[j].0)@ != field@,
                        decreases m@.len() - k,
                    {
                        if str_equal(m[k].0.as_str(), field) {
                            proof {
                                lemma_assoc_find_first_hit(m@, field@, k as int);
                                lemma_resolve_checkpoints_hit(cps@, field@, c as int);
                            }
                            return Some(&m[k].1);
                        }
                        k += 1;
                    }
                    proof {
                        lemma_assoc_find_none(m@, field@);
                    }
                    c += 1;
                }
                proof {
                    lemma_resolve_checkpoints_none(cps@, field@);
                }
                None
            },
            None => None,
        }
    }
}

/// Checkpoint scan order: if every checkpoint before position `c` misses
/// `field` and the one at `c` hits, resolution takes the hit at `c`, the
/// first in sequence order.
pub proof fn lemma_resolve_checkpoints_hit(cps: Seq<ExperimentCheckpoint>, field: Seq<char>, c: int)
    requires
        0 <= c < cps.len(),
        forall|j: int| 0 <= j < c ==> assoc_find((#[trigger] cps[j]).metrics@, field) is None,
        assoc_find(cps[c].metrics@, field) is Some,
    ensures
        Experiment::resolve_in_checkpoints(cps, field) == assoc_find(cps[c].metrics@, field),
    decreases c,
{
    if c > 0 {
        lemma_resolve_checkpoints_hit(cps.skip(1), field, c - 1);
    }
}

/// If every checkpoint misses `field`, the checkpoint scan misses.
pub proof fn lemma_resolve_checkpoints_none(cps: Seq<ExperimentCheckpoint>, field: Seq<char>)
    requires
        forall|j: int| 0 <= j < cps.len() ==> assoc_find((#[trigger] cps[j]).metrics@, field) is None,
    ensures
        Experiment::resolve_in_checkpoints(cps, field) is None,
    decreases cps.len(),
{
    if cps.len() > 0 {
        lemma_resolve_checkpoints_none(cps.skip(1), field);
    }
}

/// Resolution priority: whenever the parameter map carries `field`, the
/// record resolves it there, whatever any checkpoint holds.
pub proof fn lemma_params_take_precedence(e: Experiment, field: Seq<char>)
    requires
        assoc_find(e.params@, field) is Some,
    ensures
        e.resolve(field) == assoc_find(e.params@, field),
{
}

} // verus!
