//! Floating-point results. The pass computes none itself: the caller supplies
//! the results it knows, and the pass names the first one it lacks.

use vstd::prelude::*;

verus! {

/// An arithmetic operation on floating-point literals.
#[derive(Clone, Copy, Debug, PartialEq, Eq, Structural)]
pub enum FloatOp {
    Add,
    Sub,
    Mul,
    Div,
    Neg,
}

/// An operation with the texts of its operands. `Neg` has one operand, `left`,
/// and an empty `right`.
#[derive(Debug, PartialEq, Eq)]
pub struct FloatQuery {
    pub op: FloatOp,
    pub left: String,
    pub right: String,
}

/// What a [`FloatQuery`] denotes.
pub ghost struct FloatKey {
    pub op: FloatOp,
    pub left: Seq<char>,
    pub right: Seq<char>,
}

impl View for FloatQuery {
    type V = FloatKey;

    open spec fn view(&self) -> FloatKey {
        FloatKey { op: self.op, left: self.left@, right: self.right@ }
    }
}

/// A query with the text of its result.
#[derive(Debug, PartialEq, Eq)]
pub struct FloatFact {
    pub query: FloatQuery,
    pub result: String,
}

/// The results that the caller has supplied. A later fact on a query hides the
/// earlier ones.
#[derive(Debug, PartialEq, Eq)]
pub struct FloatTable {
    pub facts: Vec<FloatFact>,
}

/// What a table denotes: a map from a query to the text of its result.
pub type FloatResults = Map<FloatKey, Seq<char>>;

/// The map that the first `n` facts of a list make.
pub open spec fn results_of(facts: Seq<FloatFact>, n: nat) -> FloatResults
    decreases n,
{
    if n == 0 || n > facts.len() {
        Map::empty()
    } else {
        results_of(facts, (n - 1) as nat).insert(facts[n - 1].query@, facts[n - 1].result@)
    }
}

/// The map of a list does not depend on what follows the facts it counts.
pub proof fn lemma_results_prefix(a: Seq<FloatFact>, b: Seq<FloatFact>, n: nat)
    requires
        n <= a.len(),
        n <= b.len(),
        forall|i: int| 0 <= i < n ==> a[i] == b[i],
    ensures
        results_of(a, n) == results_of(b, n),
    decreases n,
{
    if n > 0 {
        lemma_results_prefix(a, b, (n - 1) as nat);
    }
}

impl View for FloatTable {
    type V = FloatResults;

    open spec fn view(&self) -> FloatResults {
        results_of(self.facts@, self.facts@.len())
    }
}

impl FloatTable {
    /// The table that knows no result.
    pub fn new() -> (r: FloatTable)
        ensures
            r@ == Map::<FloatKey, Seq<char>>::empty(),
    {
        FloatTable { facts: Vec::new() }
    }

    /// Records that `query` gives `result`, hiding any earlier fact on it.
    pub fn record(&mut self, query: FloatQuery, result: String)
        ensures
            final(self)@ == old(self)@.insert(query@, result@),
    {
        let ghost before = self.facts@;
        self.facts.push(FloatFact { query, result });
        proof {
            lemma_results_prefix(self.facts@, before, before.len());
        }
    }

    /// The result recorded for an operation on two texts, if any.
    pub fn lookup(&self, op: FloatOp, left: &String, right: &String) -> (r: Option<String>)
        ensures
            r is Some == self@.contains_key(FloatKey { op, left: left@, right: right@ }),
            r matches Some(text) ==> text@ == self@[FloatKey { op, left: left@, right: right@ }],
    {
        let ghost key = FloatKey { op, left: left@, right: right@ };
        let mut i: usize = self.facts.len();
        while i > 0
            invariant
                i <= self.facts.len(),
                key == (FloatKey { op, left: left@, right: right@ }),
                self@.contains_key(key) == results_of(self.facts@, i as nat).contains_key(key),
                self@.contains_key(key) ==> self@[key] == results_of(self.facts@, i as nat)[key],
            decreases i,
        {
            i -= 1;
            let f = &self.facts[i];
            if f.query.op == op && f.query.left == *left && f.query.right == *right {
                assert(f.query@ == key);
                return Some(f.result.clone());
            }
            assert(f.query@ != key);
        }
        None
    }
}

} // verus!
