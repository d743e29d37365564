use vstd::prelude::*;

use crate::error::SakeError;
use crate::filter::{filter_matches, first_eq, Filter};
use crate::loader::{experiment_rel, json_doc, load_experiment, valid_experiment};
use crate::record::Experiment;
use crate::strutil::str_equal;

verus! {

/// Whether the text of one record file loads: it must be well-formed JSON
/// and conform to the experiment schema.
pub open spec fn doc_loads(content: Seq<char>) -> bool {
    json_doc(content) matches Some(v) && valid_experiment(v)
}

/// How the text of a loading record file reads as a record.
pub open spec fn doc_rel(content: Seq<char>, e: Experiment) -> bool {
    json_doc(content) matches Some(v) && experiment_rel(v, e)
}

/// How a whole directory of record files reads as a record sequence, in
/// enumeration order.
pub open spec fn docs_rel(docs: Seq<(String, String)>, records: Seq<Experiment>) -> bool {
    records.len() == docs.len() && forall|i: int|
        0 <= i < docs.len() ==> doc_rel(docs[i].1@, #[trigger] records[i])
}

/// Whether the record `e` satisfies the filter a raw token denotes. Only
/// meaningful for a well-formed token, one with an `=`.
pub open spec fn token_matches(tok: Seq<char>, e: Experiment) -> bool {
    match first_eq(tok) {
        Some(i) => filter_matches(tok.take(i), tok.skip(i + 1), e),
        None => false,
    }
}

/// Whether the record `e` satisfies every filter token: the tokens compose
/// by logical AND, so an empty token list passes every record.
pub open spec fn all_tokens_match(tokens: Seq<String>, e: Experiment) -> bool {
    forall|j: int| 0 <= j < tokens.len() ==> token_matches((#[trigger] tokens[j])@, e)
}

/// The records among `records`, in order, that satisfy every filter token.
pub open spec fn filtered(records: Seq<Experiment>, tokens: Seq<String>) -> Seq<Experiment>
    decreases records.len(),
{
    if records.len() == 0 {
        Seq::empty()
    } else {
        let prefix = filtered(records.drop_last(), tokens);
        if all_tokens_match(tokens, records.last()) {
            prefix.push(records.last())
        } else {
            prefix
        }
    }
}

/// AND composition: a record survives filtering exactly when it is among
/// the records and independently satisfies every filter token; with no
/// tokens, filtering keeps every record.
pub proof fn lemma_and_composition(records: Seq<Experiment>, tokens: Seq<String>)
    ensures
        forall|e: Experiment| #[trigger] filtered(records, tokens).contains(e) <==> (
        records.contains(e) && all_tokens_match(tokens, e)),
        tokens.len() == 0 ==> filtered(records, tokens) == records,
    decreases records.len(),
{
    if records.len() == 0 {
        assert(filtered(records, tokens) =~= Seq::<Experiment>::empty());
        assert forall|e: Experiment| #[trigger]
            filtered(records, tokens).contains(e) <==> (records.contains(e) && all_tokens_match(
            tokens,
            e,
        )) by {
            if records.contains(e) {
                let i = choose|i: int| 0 <= i < records.len() && records[i] == e;
            }
        }
    } else {
        lemma_and_composition(records.drop_last(), tokens);
        let last = records.last();
        let prefix = filtered(records.drop_last(), tokens);
        assert forall|e: Experiment| #[trigger]
            filtered(records, tokens).contains(e) <==> (records.contains(e) && all_tokens_match(
            tokens,
            e,
        )) by {
            if filtered(records, tokens).contains(e) {
                if all_tokens_match(tokens, last) && e == last {
                    assert(records[records.len() - 1] == e);
                    assert(records.contains(e));
                } else {
                    if prefix.push(last).contains(e) && e != last {
                        let i = choose|i: int|
                            0 <= i < prefix.push(last).len() && prefix.push(last)[i] == e;
                        assert(prefix[i] == e);
                        assert(prefix.contains(e));
                    }
                    assert(prefix.contains(e));
                    assert(records.drop_last().contains(e));
                    let i = choose|i: int|
                        0 <= i < records.drop_last().len() && records.drop_last()[i] == e;
                    assert(records[i] == e);
                    assert(records.contains(e));
                }
            }
            if records.contains(e) && all_tokens_match(tokens, e) {
                let i = choose|i: int| 0 <= i < records.len() && records[i] == e;
                if i < records.len() - 1 {
                    assert(records.drop_last()[i] == e);
                    assert(records.drop_last().contains(e));
                    assert(prefix.contains(e));
                    let j = choose|j: int| 0 <= j < prefix.len() && prefix[j] == e;
                    if all_tokens_match(tokens, last) {
                        assert(prefix.push(last)[j] == e);
                        assert(filtered(records, tokens).contains(e));
                    } else {
                        assert(filtered(records, tokens).contains(e));
                    }
                } else {
                    assert(e == last);
                    assert(filtered(records, tokens) == prefix.push(last));
                    assert(prefix.push(last)[prefix.len() as int] == e);
                    assert(filtered(records, tokens).contains(e));
                }
            }
        }
        if tokens.len() == 0 {
            assert(filtered(records, tokens) =~= records);
        }
    }
}

/// The in-memory handle on one repository: the root directory that the
/// surrounding I/O layer enumerates record files under.
#[derive(Debug)]
pub struct KeepsakeRepository {
    pub location: String,
}

impl KeepsakeRepository {
    /// Accepts a configured repository location exactly when it carries the
    /// `file://` scheme, the only supported one, and keeps the local path
    /// that follows the scheme.
    pub fn from_config(repository: &str) -> (r: Result<KeepsakeRepository, SakeError>)
        ensures
            r is Ok <==> (repository@.len() >= 7 && repository@.take(7) == "file://"@),
            (r matches Ok(repo) ==> repo.location@ == repository@.skip(7)),
            (r matches Err(e) ==> (e matches SakeError::InvalidRepositoryLocation { location }
                && location@ == repository@)),
    {
        let n = repository.unicode_len();
        if n >= 7 {
            let prefix = repository.substring_char(0, 7);
            if str_equal(prefix, "file://") {
                let rest = repository.substring_char(7, n).to_owned();
                return Ok(KeepsakeRepository { location: rest });
            }
        }
        Err(SakeError::InvalidRepositoryLocation { location: repository.to_owned() })
    }

    /// Lists the experiments of this repository that pass every filter.
    ///
    /// `docs` holds one `(path, content)` pair per record file, in the
    /// order the directory was enumerated; that order, unchanged by
    /// filtering, is the output order, and no other order is promised.
    /// Loading is fail-fast: the first record that does not load aborts
    /// the listing with a schema error naming its path, before any
    /// filtering. A single malformed filter token likewise aborts the
    /// listing. The filters compose by logical AND.
    pub fn list_experiments(&self, docs: &Vec<(String, String)>, raw_filters: &Vec<String>) -> (r:
        Result<Vec<Experiment>, SakeError>)
        ensures
            match r {
                Ok(es) => (forall|i: int| 0 <= i < docs@.len() ==> doc_loads(
                    (#[trigger] docs@[i]).1@,
                )) && (forall|j: int|
                    0 <= j < raw_filters@.len() ==> first_eq((#[trigger] raw_filters@[j])@) is Some)
                    && (exists|loaded: Seq<Experiment>| #[trigger]
                    docs_rel(docs@, loaded) && es@ == filtered(loaded, raw_filters@)),
                Err(e) => match e {
                    SakeError::SchemaError { path, .. } => exists|i: int|
                        #![auto]
                        0 <= i < docs@.len() && !doc_loads(docs@[i].1@) && (forall|j: int|
                            0 <= j < i ==> doc_loads(docs@[j].1@)) && path@ == docs@[i].0@,
                    SakeError::MalformedFilter { token } => (forall|i: int|
                        0 <= i < docs@.len() ==> doc_loads((#[trigger] docs@[i]).1@)) && exists|
                        j: int,
                    |
                        #![auto]
                        0 <= j < raw_filters@.len() && first_eq(raw_filters@[j]@) is None && (
                        forall|k: int|
                            0 <= k < j ==> first_eq(raw_filters@[k]@) is Some) && token@
                            == raw_filters@[j]@,
                    _ => false,
                },
            },
    {
        let mut experiments: Vec<Experiment> = Vec::new();
        let mut i: usize = 0;
        while i < docs.len()
            invariant
                i <= docs@.len(),
                experiments@.len() == i,
                forall|j: int| 0 <= j < i ==> doc_loads((#[trigger] docs@[j]).1@),
                forall|j: int| 0 <= j < i ==> doc_rel(docs@[j].1@, #[trigger] experiments@[j]),
            decreases docs@.len() - i,
        {
            match load_experiment(docs[i].0.as_str(), docs[i].1.as_str()) {
                Ok(e) => {
                    experiments.push(e);
                },
                Err(err) => {
                    return Err(err);
                },
            }
            i += 1;
        }
        let ghost loaded = experiments@;
        let mut filters: Vec<Filter> = Vec::new();
        let mut j: usize = 0;
        while j < raw_filters.len()
            invariant
                j <= raw_filters@.len(),
                filters@.len() == j,
                loaded == experiments@,
                forall|i2: int| 0 <= i2 < docs@.len() ==> doc_loads((#[trigger] docs@[i2]).1@),
                docs_rel(docs@, loaded),
                forall|k: int| 0 <= k < j ==> first_eq((#[trigger] raw_filters@[k])@) is Some,
                forall|k: int|
                    0 <= k < j ==> (first_eq((#[trigger] raw_filters@[k])@) matches Some(p)
                        && filters@[k].spec_field() == raw_filters@[k]@.take(p)
                        && filters@[k].spec_value() == raw_filters@[k]@.skip(p + 1)),
            decreases raw_filters@.len() - j,
        {
            match Filter::from_str(&raw_filters[j]) {
                Ok(f) => {
                    filters.push(f);
                },
                Err(err) => {
                    return Err(err);
                },
            }
            j += 1;
        }
        let mut out: Vec<Experiment> = Vec::new();
        let ghost mut done: int = 0;
        let mut rest = experiments;
        while rest.len() > 0
            invariant
                0 <= done <= loaded.len(),
                rest@ == loaded.skip(done),
                out@ == filtered(loaded.take(done), raw_filters@),
                docs_rel(docs@, loaded),
                forall|i2: int| 0 <= i2 < docs@.len() ==> doc_loads((#[trigger] docs@[i2]).1@),
                filters@.len() == raw_filters@.len(),
                forall|k: int| 0 <= k < raw_filters@.len() ==> first_eq(
                    (#[trigger] raw_filters@[k])@,
                ) is Some,
                forall|k: int|
                    0 <= k < raw_filters@.len() ==> (first_eq((#[trigger] raw_filters@[k])@)
                        matches Some(p) && filters@[k].spec_field() == raw_filters@[k]@.take(p)
                        && filters@[k].spec_value() == raw_filters@[k]@.skip(p + 1)),
            decreases rest@.len(),
        {
            let e = rest.remove(0);
            proof {
                assert(e == loaded[done]);
                assert(rest@ =~= loaded.skip(done + 1));
            }
            let mut pass = true;
            let mut f: usize = 0;
            while f < filters.len()
                invariant
                    f <= filters@.len(),
                    filters@.len() == raw_filters@.len(),
                    forall|k: int|
                        0 <= k < raw_filters@.len() ==> (first_eq((#[trigger] raw_filters@[k])@)
                            matches Some(p) && filters@[k].spec_field() == raw_filters@[k]@.take(p)
                            && filters@[k].spec_value() == raw_filters@[k]@.skip(p + 1)),
                    pass <==> (forall|x: int|
                        0 <= x < f ==> token_matches((#[trigger] raw_filters@[x])@, e)),
                decreases filters@.len() - f,
            {
                if !filters[f].test(&e) {
                    proof {
                        assert(!token_matches(raw_filters@[f as int]@, e));
                    }
                    pass = false;
                }
                f += 1;
            }
            proof {
                assert(loaded.take(done + 1).drop_last() =~= loaded.take(done));
                assert(loaded.take(done + 1).last() == e);
            }
            if pass {
                assert(all_tokens_match(raw_filters@, e));
                out.push(e);
            } else {
                let ghost x = choose|x: int|
                    0 <= x < raw_filters@.len() && !token_matches(raw_filters@[x]@, e);
                assert(!all_tokens_match(raw_filters@, e));
            }
            proof {
                done = done + 1;
            }
        }
        proof {
            assert(loaded.skip(done).len() == 0);
            assert(loaded.take(done) =~= loaded);
        }
        Ok(out)
    }
}

} // verus!
