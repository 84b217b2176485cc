//! A named collection of rule definitions.
//!
//! Rules are kept in the order they were added; an index maps each name to
//! the position of the last rule bearing it, so that a lookup by name finds
//! that rule. Loading rule sets from JSON or YAML text is done by the
//! application layer, which hands the parsed rules to [`RuleStore::from_rules`].

use vstd::prelude::*;
use vstd::hash_map::StringHashMap;
use crate::metadata::RuleDefinition;

verus! {

/// The position of the last rule named `name`, if any rule bears that name.
pub open spec fn last_position(rules: Seq<RuleDefinition>, name: Seq<char>) -> Option<int>
    decreases rules.len(),
{
    if rules.len() == 0 {
        None
    } else if rules.last().name@ == name {
        Some(rules.len() - 1)
    } else {
        last_position(rules.drop_last(), name)
    }
}

/// The rule that a lookup of `name` finds: the last rule bearing it.
pub open spec fn lookup(rules: Seq<RuleDefinition>, name: Seq<char>) -> Option<RuleDefinition> {
    match last_position(rules, name) {
        Some(i) => Some(rules[i]),
        None => None,
    }
}

/// The rules after adding `rule`: it takes the place of the rule a lookup of
/// its name finds, or is appended when no rule bears its name.
pub open spec fn inserted(rules: Seq<RuleDefinition>, rule: RuleDefinition) -> Seq<RuleDefinition> {
    match last_position(rules, rule.name@) {
        Some(i) => rules.update(i, rule),
        None => rules.push(rule),
    }
}

/// `last_position` points at a rule of that name with no later namesake;
/// `None` means no rule bears the name.
pub proof fn lemma_last_position(rules: Seq<RuleDefinition>, name: Seq<char>)
    ensures
        match last_position(rules, name) {
            Some(i) => {
                &&& 0 <= i < rules.len()
                &&& rules[i].name@ == name
                &&& forall|j: int| i < j < rules.len() ==> #[trigger] rules[j].name@ != name
            },
            None => forall|j: int| 0 <= j < rules.len() ==> #[trigger] rules[j].name@ != name,
        },
    decreases rules.len(),
{
    if rules.len() > 0 {
        let init = rules.drop_last();
        lemma_last_position(init, name);
        assert forall|j: int| 0 <= j < init.len() implies #[trigger] rules[j] == init[j] by {}
        if rules.last().name@ != name {
            match last_position(init, name) {
                Some(i) => {
                    assert forall|j: int| i < j < rules.len() implies #[trigger] rules[j].name@ != name by {
                        if j < init.len() {
                            assert(rules[j] == init[j]);
                        }
                    }
                },
                None => {
                    assert forall|j: int| 0 <= j < rules.len() implies #[trigger] rules[j].name@ != name by {
                        if j < init.len() {
                            assert(rules[j] == init[j]);
                        }
                    }
                },
            }
        }
    }
}

/// Appending a rule makes it the one found for its name and changes nothing
/// for other names.
proof fn lemma_last_position_push(rules: Seq<RuleDefinition>, rule: RuleDefinition, name: Seq<char>)
    ensures
        last_position(rules.push(rule), name) == if rule.name@ == name {
            Some(rules.len() as int)
        } else {
            last_position(rules, name)
        },
{
    assert(rules.push(rule).drop_last() =~= rules);
}

/// Replacing a rule by one of the same name changes no lookup position.
proof fn lemma_last_position_update(rules: Seq<RuleDefinition>, i: int, rule: RuleDefinition, name: Seq<char>)
    requires
        0 <= i < rules.len(),
        rules[i].name@ == rule.name@,
    ensures
        last_position(rules.update(i, rule), name) == last_position(rules, name),
    decreases rules.len(),
{
    let u = rules.update(i, rule);
    if i == rules.len() - 1 {
        assert(u.drop_last() =~= rules.drop_last());
    } else {
        assert(u.drop_last() =~= rules.drop_last().update(i, rule));
        lemma_last_position_update(rules.drop_last(), i, rule, name);
    }
}

/// After adding a rule, a lookup of its name finds that rule.
pub proof fn lemma_insert_then_lookup(rules: Seq<RuleDefinition>, rule: RuleDefinition)
    ensures
        lookup(inserted(rules, rule), rule.name@) == Some(rule),
{
    lemma_last_position(rules, rule.name@);
    match last_position(rules, rule.name@) {
        Some(i) => lemma_last_position_update(rules, i, rule, rule.name@),
        None => lemma_last_position_push(rules, rule, rule.name@),
    }
}

/// Adding a rule changes no lookup of another name.
pub proof fn lemma_insert_keeps_other_names(rules: Seq<RuleDefinition>, rule: RuleDefinition, name: Seq<char>)
    requires
        name != rule.name@,
    ensures
        lookup(inserted(rules, rule), name) == lookup(rules, name),
{
    lemma_last_position(rules, rule.name@);
    lemma_last_position(rules, name);
    match last_position(rules, rule.name@) {
        Some(i) => {
            lemma_last_position_update(rules, i, rule, name);
            if let Some(j) = last_position(rules, name) {
                assert(j != i);
            }
        },
        None => lemma_last_position_push(rules, rule, name),
    }
}

/// Adding a rule whose name is already in the store replaces a rule, so the
/// count stays; a new name adds one rule.
pub proof fn lemma_insert_len(rules: Seq<RuleDefinition>, rule: RuleDefinition)
    ensures
        inserted(rules, rule).len() == if lookup(rules, rule.name@) is Some {
            rules.len()
        } else {
            rules.len() + 1
        },
{
    lemma_last_position(rules, rule.name@);
}

/// Adding the same rule twice leaves the store as adding it once: a name is
/// never duplicated by insertion.
pub proof fn lemma_insert_twice(rules: Seq<RuleDefinition>, rule: RuleDefinition)
    ensures
        inserted(inserted(rules, rule), rule) == inserted(rules, rule),
{
    let once = inserted(rules, rule);
    lemma_last_position(rules, rule.name@);
    match last_position(rules, rule.name@) {
        Some(i) => {
            lemma_last_position_update(rules, i, rule, rule.name@);
            assert(once.update(i, rule) =~= once);
        },
        None => {
            lemma_last_position_push(rules, rule, rule.name@);
            assert(once.update(rules.len() as int, rule) =~= once);
        },
    }
}

/// A named collection of [`RuleDefinition`] objects.
pub struct RuleStore {
    rules: Vec<RuleDefinition>,
    index: StringHashMap<usize>,
}

impl View for RuleStore {
    type V = Seq<RuleDefinition>;

    /// The rules of the store, in the order they were added.
    closed spec fn view(&self) -> Seq<RuleDefinition> {
        self.rules@
    }
}

impl RuleStore {
    /// The index holds exactly the names of the rules, each mapped to the
    /// position of the last rule bearing it.
    pub closed spec fn wf(&self) -> bool {
        forall|k: Seq<char>| #[trigger] self.index@.contains_key(k) ==
            (last_position(self.rules@, k) is Some) && (self.index@.contains_key(k) ==>
            last_position(self.rules@, k) == Some(self.index@[k] as int))
    }

    /// Create an empty rule store.
    pub fn new() -> (s: Self)
        ensures
            s.wf(),
            s@ == Seq::<RuleDefinition>::empty(),
    {
        RuleStore { rules: Vec::new(), index: StringHashMap::new() }
    }

    /// A store holding `rules` in the given order; a lookup of a name finds
    /// the last of them bearing it.
    pub fn from_rules(rules: Vec<RuleDefinition>) -> (s: Self)
        ensures
            s.wf(),
            s@ == rules@,
    {
        let mut index: StringHashMap<usize> = StringHashMap::new();
        let n: usize = rules.len();
        let mut i: usize = 0;
        while i < n
            invariant
                n == rules@.len(),
                i <= n,
                forall|k: Seq<char>| #[trigger] index@.contains_key(k) ==
                    (last_position(rules@.take(i as int), k) is Some) && (index@.contains_key(k) ==>
                    last_position(rules@.take(i as int), k) == Some(index@[k] as int)),
            decreases n - i,
        {
            let ghost before = rules@.take(i as int);
            index.insert(rules[i].name.clone(), i);
            proof {
                assert(rules@.take(i + 1) =~= before.push(rules@[i as int]));
                assert forall|k: Seq<char>| #[trigger] index@.contains_key(k) ==
                    (last_position(rules@.take(i + 1), k) is Some) && (index@.contains_key(k) ==>
                    last_position(rules@.take(i + 1), k) == Some(index@[k] as int)) by {
                    lemma_last_position_push(before, rules@[i as int], k);
                }
            }
            i = i + 1;
        }
        assert(rules@.take(n as int) =~= rules@);
        RuleStore { rules, index }
    }

    /// Retrieve a rule by name: the last rule bearing it, or `None` when no
    /// rule in the store has that name.
    pub fn get(&self, name: &str) -> (r: Option<&RuleDefinition>)
        requires
            self.wf(),
        ensures
            match lookup(self@, name@) {
                Some(rule) => r matches Some(x) && *x == rule,
                None => r is None,
            },
    {
        match self.index.get(name) {
            Some(i) => {
                proof {
                    assert(self.index@.contains_key(name@));
                    lemma_last_position(self.rules@, name@);
                }
                Some(&self.rules[*i])
            },
            None => {
                assert(!self.index@.contains_key(name@));
                None
            },
        }
    }

    /// All rules in the store, in the order they were added.
    pub fn all(&self) -> (r: &[RuleDefinition])
        ensures
            r@ == self@,
    {
        self.rules.as_slice()
    }

    /// Number of rules in the store.
    pub fn len(&self) -> (n: usize)
        ensures
            n == self@.len(),
    {
        self.rules.len()
    }

    /// Returns `true` if the store contains no rules.
    pub fn is_empty(&self) -> (b: bool)
        ensures
            b == (self@.len() == 0),
    {
        self.rules.len() == 0
    }

    /// Add a rule to the store: it replaces the rule found under its name,
    /// or is appended when no rule bears that name.
    pub fn insert(&mut self, rule: RuleDefinition)
        requires
            old(self).wf(),
        ensures
            final(self).wf(),
            final(self)@ == inserted(old(self)@, rule),
    {
        let ghost rules0 = self.rules@;
        match self.index.get(rule.name.as_str()) {
            Some(i) => {
                let idx: usize = *i;
                proof {
                    assert(self.index@.contains_key(rule.name@));
                    lemma_last_position(rules0, rule.name@);
                }
                self.rules.set(idx, rule);
                proof {
                    assert forall|k: Seq<char>| #[trigger] self.index@.contains_key(k) ==
                        (last_position(self.rules@, k) is Some) && (self.index@.contains_key(k) ==>
                        last_position(self.rules@, k) == Some(self.index@[k] as int)) by {
                        lemma_last_position_update(rules0, idx as int, rule, k);
                    }
                }
            },
            None => {
                proof {
                    assert(!self.index@.contains_key(rule.name@));
                }
                let idx: usize = self.rules.len();
                self.index.insert(rule.name.clone(), idx);
                self.rules.push(rule);
                proof {
                    assert forall|k: Seq<char>| #[trigger] self.index@.contains_key(k) ==
                        (last_position(self.rules@, k) is Some) && (self.index@.contains_key(k) ==>
                        last_position(self.rules@, k) == Some(self.index@[k] as int)) by {
                        lemma_last_position_push(rules0, rule, k);
                    }
                }
            },
        }
    }
}

impl Default for RuleStore {
    /// An empty rule store.
    fn default() -> (s: Self)
        ensures
            s.wf(),
            s@ == Seq::<RuleDefinition>::empty(),
    {
        RuleStore::new()
    }
}

} // verus!
