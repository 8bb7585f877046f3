//! The environment: the names that are known to hold a constant, each with the
//! constant's text.

use crate::text::node_text;
use crate::tree::{Tree, TreeView};
use vstd::prelude::*;

verus! {

/// What an environment denotes: a map from a name to the text of its constant.
pub type Bindings = Map<Seq<char>, Seq<char>>;

/// One name with the text bound to it.
#[derive(Debug, PartialEq, Eq)]
pub struct Binding {
    pub name: String,
    pub value: String,
}

/// A list of bindings in the order they were made. A later binding of a name
/// hides the earlier ones.
#[derive(Debug, PartialEq, Eq)]
pub struct Env {
    pub entries: Vec<Binding>,
}

/// The map that the first `n` bindings of a list make.
pub open spec fn bindings_of(entries: Seq<Binding>, n: nat) -> Bindings
    decreases n,
{
    if n == 0 || n > entries.len() {
        Map::empty()
    } else {
        bindings_of(entries, (n - 1) as nat).insert(
            entries[n - 1].name@,
            entries[n - 1].value@,
        )
    }
}

/// The map of a list does not depend on what follows the bindings it counts.
pub proof fn lemma_bindings_prefix(a: Seq<Binding>, b: Seq<Binding>, n: nat)
    requires
        n <= a.len(),
        n <= b.len(),
        forall|i: int| 0 <= i < n ==> a[i] == b[i],
    ensures
        bindings_of(a, n) == bindings_of(b, n),
    decreases n,
{
    if n > 0 {
        lemma_bindings_prefix(a, b, (n - 1) as nat);
    }
}

impl View for Env {
    type V = Bindings;

    open spec fn view(&self) -> Bindings {
        bindings_of(self.entries@, self.entries@.len())
    }
}

impl Env {
    /// The environment that binds nothing.
    pub fn new() -> (r: Env)
        ensures
            r@ == Map::<Seq<char>, Seq<char>>::empty(),
    {
        Env { entries: Vec::new() }
    }

    /// A copy of this environment, binding for binding.
    pub fn copy(&self) -> (r: Env)
        ensures
            r@ == self@,
            r.entries@ == self.entries@,
    {
        let mut entries: Vec<Binding> = Vec::new();
        let mut i: usize = 0;
        while i < self.entries.len()
            invariant
                i <= self.entries.len(),
                entries@ == self.entries@.take(i as int),
            decreases self.entries.len() - i,
        {
            let b = &self.entries[i];
            entries.push(Binding { name: b.name.clone(), value: b.value.clone() });
            i += 1;
            assert(entries@ =~= self.entries@.take(i as int));
        }
        assert(entries@ =~= self.entries@);
        Env { entries }
    }
}

/// Looks up the text bound to `x`, if any.
pub fn find(x: &str, env: &Env) -> (r: Option<String>)
    ensures
        r is Some == env@.contains_key(x@),
        r matches Some(text) ==> text@ == env@[x@],
{
    let key = x.to_owned();
    let mut i: usize = env.entries.len();
    while i > 0
        invariant
            i <= env.entries.len(),
            env@.contains_key(x@) == bindings_of(env.entries@, i as nat).contains_key(x@),
            env@.contains_key(x@) ==> env@[x@] == bindings_of(env.entries@, i as nat)[x@],
            key@ == x@,
        decreases i,
    {
        i -= 1;
        let b = &env.entries[i];
        if b.name == key {
            return Some(b.value.clone());
        }
    }
    None
}

/// Tells whether `x` is bound.
pub fn in_env(x: &str, env: &Env) -> (r: bool)
    ensures
        r == env@.contains_key(x@),
{
    find(x, env).is_some()
}

/// The text that a simple node carries.
pub open spec fn text_of(t: TreeView) -> Seq<char>
    recommends
        t is Simple,
{
    t->Simple_value
}

/// The environment `env` with `var` bound to the text of the simple node
/// `value`, hiding any earlier binding of `var`.
pub fn add_var(var: String, value: &Tree, env: &Env) -> (r: Env)
    requires
        value@ is Simple,
    ensures
        r@ == env@.insert(var@, text_of(value@)),
{
    let text = match value {
        Tree::Simple { kind, value } => node_text(*kind, value),
        _ => vstd::pervasive::unreached(),
    };
    let mut updated = env.copy();
    updated.entries.push(Binding { name: var, value: text });
    proof {
        lemma_bindings_prefix(updated.entries@, env.entries@, env.entries@.len());
    }
    updated
}

} // verus!
