//! Rule metadata and builder API.
//!
//! [`RuleDefinition`] pairs a JSON-Logic rule with governance metadata:
//! name, version, tags, description, and required context keys.

use vstd::prelude::*;
use serde_json::Value;
use crate::error::ValidationError;
use crate::json::{is_json_object, map_contains_key, object_entries, value_as_object};

verus! {

/// A rule definition with metadata for decision systems.
///
/// This wraps a JSON-Logic rule blob with identifying information:
/// name, version, tags, and optional description. The metadata is
/// carried alongside the rule for governance, audit, and traceability.
#[derive(Debug, Clone, PartialEq)]
pub struct RuleDefinition {
    /// Unique name identifying this rule.
    pub name: String,
    /// The JSON-Logic rule blob.
    pub logic: Value,
    /// Optional semantic version for this rule.
    pub version: Option<String>,
    /// Optional human-readable description.
    pub description: Option<String>,
    /// Tags for categorization and filtering.
    pub tags: Vec<String>,
    /// Context keys that must be present for this rule to execute.
    pub required_context_keys: Vec<String>,
}

/// The required keys that a context with keys `present` lacks, in the order
/// in which they are required.
pub open spec fn missing_keys_of(required: Seq<String>, present: Set<Seq<char>>) -> Seq<String> {
    required.filter(|k: String| !present.contains(k@))
}

/// Validation reports exactly the absent keys: every key it reports is a
/// required key that the context lacks, and every required key that the
/// context lacks is reported.
pub proof fn lemma_missing_keys_exact(required: Seq<String>, present: Set<Seq<char>>)
    ensures
        forall|i: int| #![trigger missing_keys_of(required, present)[i]]
            0 <= i < missing_keys_of(required, present).len() ==> {
                &&& required.contains(missing_keys_of(required, present)[i])
                &&& !present.contains(missing_keys_of(required, present)[i]@)
            },
        forall|i: int| 0 <= i < required.len() && !present.contains(required[i]@)
            ==> missing_keys_of(required, present).contains(#[trigger] required[i]),
    decreases required.len(),
{
    broadcast use vstd::seq_lib::group_filter_ensures;
    let pred = |k: String| !present.contains(k@);
    let missing = missing_keys_of(required, present);
    if required.len() > 0 {
        let init = required.drop_last();
        lemma_missing_keys_exact(init, present);
        reveal_with_fuel(Seq::<_>::filter, 1);
        let sub = missing_keys_of(init, present);
        assert forall|i: int| 0 <= i < missing.len() implies required.contains(#[trigger] missing[i]) by {
            if i < sub.len() {
                assert(missing[i] == sub[i]);
                let j: int = choose|j: int| 0 <= j < init.len() && init[j] == sub[i];
                assert(required[j] == init[j]);
            } else {
                assert(missing[i] == required.last());
            }
        }
        assert forall|i: int| 0 <= i < missing.len() implies !present.contains((#[trigger] missing[i])@) by {
            assert(pred(missing[i]));
        }
    }
}

/// Validation is monotone in the keys a context has: with more keys
/// present, the missing keys are those missing before that are still absent
/// (a subsequence of them, in the same order), so a context that passes
/// keeps passing when keys are added.
pub proof fn lemma_missing_keys_monotone(required: Seq<String>, fewer: Set<Seq<char>>, more: Set<Seq<char>>)
    requires
        fewer.subset_of(more),
    ensures
        missing_keys_of(required, more) == missing_keys_of(required, fewer).filter(|k: String| !more.contains(k@)),
        missing_keys_of(required, fewer).len() == 0 ==> missing_keys_of(required, more).len() == 0,
    decreases required.len(),
{
    let still = |k: String| !more.contains(k@);
    if required.len() > 0 {
        let init = required.drop_last();
        let x = required.last();
        lemma_missing_keys_monotone(init, fewer, more);
        reveal_with_fuel(Seq::<_>::filter, 1);
        let before = missing_keys_of(init, fewer);
        if !fewer.contains(x@) {
            assert(missing_keys_of(required, fewer) == before.push(x));
            assert(before.push(x).drop_last() =~= before);
        } else {
            assert(!still(x));
        }
    }
    broadcast use vstd::seq_lib::group_filter_ensures;
}

/// The two rules agree on everything but, possibly, the fields a builder sets.
pub open spec fn same_identity(a: RuleDefinition, b: RuleDefinition) -> bool {
    a.name == b.name && a.logic == b.logic
}

impl RuleDefinition {
    /// The keys that `context` lacks for this rule, or `None` when the
    /// context passes: a rule with no required keys accepts every context; a
    /// context that is not a JSON object lacks every required key; an object
    /// lacks the required keys it has no entry for.
    pub open spec fn missing_keys(&self, context: Value) -> Option<Seq<String>> {
        if self.required_context_keys@.len() == 0 {
            None
        } else if !is_json_object(context) {
            Some(self.required_context_keys@)
        } else {
            let missing = missing_keys_of(self.required_context_keys@, object_entries(context).dom());
            if missing.len() == 0 {
                None
            } else {
                Some(missing)
            }
        }
    }

    /// Validation depends on the context's keys alone, and is monotone in
    /// them: for two object contexts where the second has every key of the
    /// first, a pass on the first is a pass on the second, and the keys the
    /// second lacks are those the first lacks that are still absent, in the
    /// same order.
    pub proof fn lemma_validation_monotone(&self, fewer: Value, more: Value)
        requires
            is_json_object(fewer),
            is_json_object(more),
            object_entries(fewer).dom().subset_of(object_entries(more).dom()),
        ensures
            self.missing_keys(fewer) is None ==> self.missing_keys(more) is None,
            self.missing_keys(more) matches Some(m) ==> self.missing_keys(fewer) matches Some(f)
                && m == f.filter(|k: String| !object_entries(more).dom().contains(k@)),
            object_entries(fewer).dom() == object_entries(more).dom()
                ==> self.missing_keys(fewer) == self.missing_keys(more),
    {
        let req = self.required_context_keys@;
        let p1 = object_entries(fewer).dom();
        let p2 = object_entries(more).dom();
        lemma_missing_keys_monotone(req, p1, p2);
        if req.len() > 0 && missing_keys_of(req, p1).len() == 0 {
            assert(missing_keys_of(req, p2).len() == 0);
        }
    }

    /// What validation decides, in terms of the context's entries: it passes
    /// only when the context is a JSON object holding an entry for every
    /// required key; a failure names this rule and lists required keys, each
    /// of which the context lacks, and lists every required key it lacks; a
    /// context that is not an object (such as `null`) fails with all the
    /// required keys, whenever there are any.
    pub proof fn lemma_validation_outcome(&self, context: Value, r: Result<(), ValidationError>)
        requires
            match r {
                Ok(()) => self.missing_keys(context) is None,
                Err(e) => {
                    &&& e.rule_name@ == self.name@
                    &&& self.missing_keys(context) == Some(e.missing_keys@)
                },
            },
        ensures
            r is Ok ==> forall|i: int| 0 <= i < self.required_context_keys@.len() ==>
                is_json_object(context)
                && object_entries(context).contains_key((#[trigger] self.required_context_keys@[i])@),
            r matches Err(e) ==> {
                &&& e.rule_name@ == self.name@
                &&& e.missing_keys@.len() > 0
                &&& forall|i: int| #![trigger e.missing_keys@[i]] 0 <= i < e.missing_keys@.len() ==> {
                    &&& self.required_context_keys@.contains(e.missing_keys@[i])
                    &&& !(is_json_object(context) && object_entries(context).contains_key(e.missing_keys@[i]@))
                }
                &&& forall|i: int| 0 <= i < self.required_context_keys@.len()
                    && !(is_json_object(context) && object_entries(context).contains_key((#[trigger] self.required_context_keys@[i])@))
                    ==> e.missing_keys@.contains(self.required_context_keys@[i])
            },
            self.required_context_keys@.len() > 0 && !is_json_object(context) ==>
                (r matches Err(e) && e.missing_keys@ == self.required_context_keys@),
    {
        let req = self.required_context_keys@;
        if req.len() > 0 && is_json_object(context) {
            let present = object_entries(context).dom();
            lemma_missing_keys_exact(req, present);
            let missing = missing_keys_of(req, present);
            assert forall|i: int| 0 <= i < req.len() && !present.contains(req[i]@) implies missing.len() > 0 by {
                assert(missing.contains(req[i]));
            }
        }
        if req.len() > 0 && !is_json_object(context) {
            assert forall|i: int| 0 <= i < req.len() implies req.contains(#[trigger] req[i]) by {}
        }
    }

    /// Create a new rule definition with a name and logic.
    pub fn new(name: &str, logic: Value) -> (r: Self)
        ensures
            r.name@ == name@,
            r.logic == logic,
            r.version is None,
            r.description is None,
            r.tags@.len() == 0,
            r.required_context_keys@.len() == 0,
    {
        RuleDefinition {
            name: name.to_owned(),
            logic,
            version: None,
            description: None,
            tags: Vec::new(),
            required_context_keys: Vec::new(),
        }
    }

    /// Builder: set the version.
    pub fn with_version(self, version: &str) -> (r: Self)
        ensures
            r.version matches Some(v) && v@ == version@,
            same_identity(r, self),
            r.description == self.description,
            r.tags == self.tags,
            r.required_context_keys == self.required_context_keys,
    {
        let mut r = self;
        r.version = Some(version.to_owned());
        r
    }

    /// Builder: set the description.
    pub fn with_description(self, description: &str) -> (r: Self)
        ensures
            r.description matches Some(d) && d@ == description@,
            same_identity(r, self),
            r.version == self.version,
            r.tags == self.tags,
            r.required_context_keys == self.required_context_keys,
    {
        let mut r = self;
        r.description = Some(description.to_owned());
        r
    }

    /// Builder: set tags.
    pub fn with_tags(self, tags: Vec<String>) -> (r: Self)
        ensures
            r.tags == tags,
            same_identity(r, self),
            r.version == self.version,
            r.description == self.description,
            r.required_context_keys == self.required_context_keys,
    {
        let mut r = self;
        r.tags = tags;
        r
    }

    /// Builder: declare which context keys are required.
    pub fn with_required_keys(self, keys: Vec<String>) -> (r: Self)
        ensures
            r.required_context_keys == keys,
            same_identity(r, self),
            r.version == self.version,
            r.description == self.description,
            r.tags == self.tags,
    {
        let mut r = self;
        r.required_context_keys = keys;
        r
    }

    /// Validate that a parsed JSON context contains all required keys.
    ///
    /// Returns `Ok(())` when all keys are present, or a [`ValidationError`]
    /// naming this rule and listing every missing key.
    pub fn validate_context(&self, context: &Value) -> (r: Result<(), ValidationError>)
        ensures
            match r {
                Ok(()) => self.missing_keys(*context) is None,
                Err(e) => {
                    &&& e.rule_name@ == self.name@
                    &&& self.missing_keys(*context) == Some(e.missing_keys@)
                },
            },
            r is Ok ==> forall|i: int| 0 <= i < self.required_context_keys@.len() ==>
                is_json_object(*context)
                && object_entries(*context).contains_key((#[trigger] self.required_context_keys@[i])@),
            r matches Err(e) ==> e.missing_keys@.len() > 0 && forall|i: int| #![trigger e.missing_keys@[i]]
                0 <= i < e.missing_keys@.len() ==> {
                    &&& self.required_context_keys@.contains(e.missing_keys@[i])
                    &&& !(is_json_object(*context) && object_entries(*context).contains_key(e.missing_keys@[i]@))
                },
            self.required_context_keys@.len() > 0 && !is_json_object(*context) ==>
                (r matches Err(e) && e.missing_keys@ == self.required_context_keys@),
    {
        let r = self.check_context(context);
        proof {
            self.lemma_validation_outcome(*context, r);
        }
        r
    }

    /// Finds the required keys that `context` lacks.
    fn check_context(&self, context: &Value) -> (r: Result<(), ValidationError>)
        ensures
            match r {
                Ok(()) => self.missing_keys(*context) is None,
                Err(e) => {
                    &&& e.rule_name@ == self.name@
                    &&& self.missing_keys(*context) == Some(e.missing_keys@)
                },
            },
    {
        let required = &self.required_context_keys;
        if required.len() == 0 {
            return Ok(());
        }
        let obj = match value_as_object(context) {
            Some(o) => o,
            None => {
                return Err(ValidationError::new(self.name.as_str(), required.clone()));
            },
        };
        let ghost present = object_entries(*context).dom();
        let ghost keep = |k: String| !present.contains(k@);
        let mut missing: Vec<String> = Vec::new();
        let n: usize = required.len();
        let mut i: usize = 0;
        while i < n
            invariant
                n == required.len(),
                i <= n,
                *context == crate::json::json_object(*obj),
                present == crate::json::json_entries(*obj).dom(),
                keep == (|k: String| !present.contains(k@)),
                missing@ == required@.take(i as int).filter(keep),
            decreases n - i,
        {
            proof {
                reveal_with_fuel(Seq::<_>::filter, 1);
            }
            if !map_contains_key(obj, required[i].as_str()) {
                missing.push(required[i].clone());
            }
            assert(required@.take(i + 1).drop_last() =~= required@.take(i as int));
            i = i + 1;
        }
        assert(required@.take(n as int) =~= required@);
        if missing.len() == 0 {
            Ok(())
        } else {
            Err(ValidationError::new(self.name.as_str(), missing))
        }
    }
}

} // verus!
