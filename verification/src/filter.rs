use vstd::prelude::*;

use crate::error::SakeError;
use crate::record::Experiment;
use crate::strutil::str_equal;
use crate::value::{canonical, value_to_string, JsonValue};

verus! {

/// A boolean test over a record, built from a user-supplied filter token.
/// The single variant today is string equality against the canonical form
/// of the resolved field; the tagged shape leaves room for further kinds.
#[derive(Debug)]
pub enum Filter {
    Equal { field: String, value: String },
}

/// The position of the first `=` in a token, if any.
pub open spec fn first_eq(s: Seq<char>) -> Option<int>
    decreases s.len(),
{
    if s.len() == 0 {
        None
    } else if s[0] == '=' {
        Some(0int)
    } else {
        match first_eq(s.skip(1)) {
            Some(i) => Some(i + 1),
            None => None,
        }
    }
}

/// If nothing before position `j` is `=` and position `j` is, the first `=`
/// stands at `j`.
proof fn lemma_first_eq_at(s: Seq<char>, j: int)
    requires
        0 <= j < s.len(),
        s[j] == '=',
        forall|i: int| 0 <= i < j ==> s[i] != '=',
    ensures
        first_eq(s) == Some(j),
    decreases j,
{
    if j > 0 {
        lemma_first_eq_at(s.skip(1), j - 1);
    }
}

/// If no position holds `=`, there is no first `=`.
proof fn lemma_first_eq_none(s: Seq<char>)
    requires
        forall|i: int| 0 <= i < s.len() ==> s[i] != '=',
    ensures
        first_eq(s) is None,
    decreases s.len(),
{
    if s.len() > 0 {
        lemma_first_eq_none(s.skip(1));
    }
}

/// Whether the record `e` satisfies an equality filter: `field` must
/// resolve somewhere in the record (closed world: an unknown field never
/// passes) and the resolved value's canonical form must equal `literal`.
pub open spec fn filter_matches(field: Seq<char>, literal: Seq<char>, e: Experiment) -> bool {
    match e.resolve(field) {
        Some(v) => canonical(v) == Some(literal),
        None => false,
    }
}

impl Filter {
    /// The field a filter tests.
    pub open spec fn spec_field(self) -> Seq<char> {
        match self {
            Filter::Equal { field, .. } => field@,
        }
    }

    /// The literal a filter compares against.
    pub open spec fn spec_value(self) -> Seq<char> {
        match self {
            Filter::Equal { value, .. } => value@,
        }
    }

    /// Parses a raw `field=value` token, splitting on the first `=`: the
    /// left side (possibly empty) becomes the field, everything after the
    /// first `=` (further `=` included) the literal. A token with no `=`
    /// is malformed.
    pub fn from_str(value: &String) -> (r: Result<Filter, SakeError>)
        ensures
            r is Ok <==> first_eq(value@) is Some,
            (r matches Ok(f) ==> (f matches Filter::Equal { field, value: literal }
                && first_eq(value@) matches Some(i) && field@ == value@.take(i) && literal@
                == value@.skip(i + 1))),
            (r matches Err(e) ==> (e matches SakeError::MalformedFilter { token } && token@
                == value@)),
    {
        let s = value.as_str();
        let n = s.unicode_len();
        let mut i: usize = 0;
        while i < n
            invariant
                i <= n,
                n == s@.len(),
                s@ == value@,
                forall|j: int| 0 <= j < i ==> s@[j] != '=',
            decreases n - i,
        {
            if s.get_char(i) == '=' {
                proof {
                    lemma_first_eq_at(s@, i as int);
                }
                let field = s.substring_char(0, i).to_owned();
                let literal = s.substring_char(i + 1, n).to_owned();
                return Ok(Filter::Equal { field, value: literal });
            }
            i += 1;
        }
        proof {
            lemma_first_eq_none(s@);
        }
        Err(SakeError::MalformedFilter { token: value.clone() })
    }

    /// Evaluates this filter against a record via field resolution.
    pub fn test(&self, expe: &Experiment) -> (r: bool)
        ensures
            r == filter_matches(self.spec_field(), self.spec_value(), *expe),
    {
        match self {
            Filter::Equal { field, value } => {
                match expe.find_field(field.as_str()) {
                    Some(found) => match value_to_string(found) {
                        Some(s) => str_equal(s.as_str(), value.as_str()),
                        None => false,
                    },
                    None => false,
                }
            },
        }
    }
}

/// Closed world: a filter on a field that resolves nowhere in the record
/// never matches, whatever the literal.
pub proof fn lemma_unknown_field_never_matches(field: Seq<char>, literal: Seq<char>, e: Experiment)
    requires
        e.resolve(field) is None,
    ensures
        !filter_matches(field, literal, e),
{
}

/// The boolean asymmetry of canonical forms: a field that resolves to
/// `false` never matches any literal, while one that resolves to `true`
/// matches exactly the literal text `true`.
pub proof fn lemma_bool_canonical_asymmetry(field: Seq<char>, literal: Seq<char>, e: Experiment)
    ensures
        e.resolve(field) == Some(JsonValue::Bool(false)) ==> !filter_matches(field, literal, e),
        e.resolve(field) == Some(JsonValue::Bool(true)) ==> (filter_matches(field, literal, e) <==> literal
            == "true"@),
{
}

} // verus!

