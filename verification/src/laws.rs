//! Laws of the folding pass, each proved from the definitions of the pass.

use crate::env::Bindings;
use crate::eval::{
    binary_spec, branch_spec, exact, float_op, float_result, int_result, is_arith, literal, Fault,
};
use crate::floats::{FloatKey, FloatResults};
use crate::fold::{fold_list_spec, fold_spec, transform_spec};
use crate::text::{bool_text, bool_value, decimal_text, decimal_value};
use crate::tree::{BinaryOp, SimpleKind, TreeView};
use aleph_syntax_tree::syntax::AlephTree;
use vstd::prelude::*;

verus! {

/// A binary node over two subtrees.
pub open spec fn binary(op: BinaryOp, left: TreeView, right: TreeView) -> TreeView {
    TreeView::Binary { op, left: Box::new(left), right: Box::new(right) }
}

/// A conditional over three subtrees.
pub open spec fn conditional(c: TreeView, t: TreeView, e: TreeView) -> TreeView {
    TreeView::If { condition: Box::new(c), then_branch: Box::new(t), els: Box::new(e) }
}

/// The texts `true` and `false` stand for the two booleans.
pub proof fn lemma_bool_texts()
    ensures
        bool_value("true"@) == Some(true),
        bool_value("false"@) == Some(false),
        bool_value(bool_text(true)) == Some(true),
        bool_value(bool_text(false)) == Some(false),
{
    reveal_strlit("true");
    reveal_strlit("false");
    assert("true"@.len() != "false"@.len());
}

/// A literal folds to itself and leaves the environment as it was. An
/// identifier that nothing binds does so too.
pub proof fn lemma_literal_unchanged(
    kind: SimpleKind,
    value: Seq<char>,
    env: Bindings,
    floats: FloatResults,
)
    requires
        kind != SimpleKind::Ident || !env.contains_key(value),
    ensures
        fold_spec(literal(kind, value), env, floats) == Ok::<(TreeView, Bindings), Fault>(
            (literal(kind, value), env),
        ),
{
}

/// Arithmetic on two integer literals gives the integer literal of the exact
/// result, where that result is defined and fits in 64 bits; the environment
/// stays as it was.
pub proof fn lemma_int_literals(
    op: BinaryOp,
    a: Seq<char>,
    b: Seq<char>,
    x: i64,
    y: i64,
    env: Bindings,
    floats: FloatResults,
)
    requires
        is_arith(op),
        decimal_value(a) == Some(x),
        decimal_value(b) == Some(y),
        !(op == BinaryOp::Div && y == 0),
        i64::MIN <= exact(op, x as int, y as int) <= i64::MAX,
    ensures
        fold_spec(binary(op, literal(SimpleKind::Int, a), literal(SimpleKind::Int, b)), env, floats)
            == Ok::<(TreeView, Bindings), Fault>(
            (literal(SimpleKind::Int, decimal_text(exact(op, x as int, y as int) as i64)), env),
        ),
{
    lemma_literal_unchanged(SimpleKind::Int, a, env, floats);
    lemma_literal_unchanged(SimpleKind::Int, b, env, floats);
    assert(int_result(op, x, y) == Some(exact(op, x as int, y as int) as i64));
}

/// Integer arithmetic that divides by zero, or whose exact result does not fit
/// in 64 bits, stops the fold with an arithmetic fault.
pub proof fn lemma_int_fault(
    op: BinaryOp,
    a: Seq<char>,
    b: Seq<char>,
    x: i64,
    y: i64,
    env: Bindings,
    floats: FloatResults,
)
    requires
        is_arith(op),
        decimal_value(a) == Some(x),
        decimal_value(b) == Some(y),
        (op == BinaryOp::Div && y == 0) || exact(op, x as int, y as int) < i64::MIN || exact(
            op,
            x as int,
            y as int,
        ) > i64::MAX,
    ensures
        fold_spec(binary(op, literal(SimpleKind::Int, a), literal(SimpleKind::Int, b)), env, floats)
            == Err::<(TreeView, Bindings), Fault>(Fault::ArithmeticFault),
{
    lemma_literal_unchanged(SimpleKind::Int, a, env, floats);
    lemma_literal_unchanged(SimpleKind::Int, b, env, floats);
    assert(int_result(op, x, y) is None);
}

/// Arithmetic on two number literals of which one at least is a float gives a
/// float literal: the one that the table holds for the operation on the two
/// texts. Where the table holds none, the fold stops and asks for it.
pub proof fn lemma_float_promotion(
    op: BinaryOp,
    lk: SimpleKind,
    a: Seq<char>,
    rk: SimpleKind,
    b: Seq<char>,
    env: Bindings,
    floats: FloatResults,
)
    requires
        is_arith(op),
        lk == SimpleKind::Int || lk == SimpleKind::Float,
        rk == SimpleKind::Int || rk == SimpleKind::Float,
        lk == SimpleKind::Float || rk == SimpleKind::Float,
    ensures
        ({
            let key = FloatKey { op: float_op(op), left: a, right: b };
            fold_spec(binary(op, literal(lk, a), literal(rk, b)), env, floats) == (if floats.contains_key(
                key,
            ) {
                Ok::<(TreeView, Bindings), Fault>((literal(SimpleKind::Float, floats[key]), env))
            } else {
                Err::<(TreeView, Bindings), Fault>(Fault::FloatPending(key))
            })
        }),
{
    let l = literal(lk, a);
    let r = literal(rk, b);
    lemma_literal_unchanged(lk, a, env, floats);
    lemma_literal_unchanged(rk, b, env, floats);
    assert(binary_spec(op, l, r, floats) == float_result(floats, float_op(op), a, b));
}

/// `And` and `Or` on two boolean literals give the literal of the conjunction
/// and of the disjunction.
pub proof fn lemma_bool_literals(op: BinaryOp, a: bool, b: bool, env: Bindings, floats: FloatResults)
    requires
        op == BinaryOp::And || op == BinaryOp::Or,
    ensures
        fold_spec(
            binary(op, literal(SimpleKind::Bool, bool_text(a)), literal(SimpleKind::Bool, bool_text(b))),
            env,
            floats,
        ) == Ok::<(TreeView, Bindings), Fault>(
            (
                literal(
                    SimpleKind::Bool,
                    bool_text(
                        if op == BinaryOp::And {
                            a && b
                        } else {
                            a || b
                        },
                    ),
                ),
                env,
            ),
        ),
{
    lemma_bool_texts();
    lemma_literal_unchanged(SimpleKind::Bool, bool_text(a), env, floats);
    lemma_literal_unchanged(SimpleKind::Bool, bool_text(b), env, floats);
}

/// A constant bound by a `Let` reaches the statement that follows it: a read
/// of the variable there becomes an `Int` literal of the constant's text. The
/// `Let` keeps its body as it is.
pub proof fn lemma_constant_reaches_next(
    x: Seq<char>,
    pointer: Seq<char>,
    kind: SimpleKind,
    value: Seq<char>,
    body: TreeView,
    env: Bindings,
    floats: FloatResults,
)
    requires
        kind == SimpleKind::Int || kind == SimpleKind::Float || kind == SimpleKind::Bool,
        !env.contains_key(value),
    ensures
        ({
            let binding = TreeView::Let {
                var: x,
                is_pointer: pointer,
                value: Box::new(literal(kind, value)),
                expr: Box::new(body),
            };
            let read = TreeView::Var { var: x, is_pointer: pointer };
            fold_spec(
                TreeView::Stmts { expr1: Box::new(binding), expr2: Box::new(read) },
                env,
                floats,
            ) == Ok::<(TreeView, Bindings), Fault>(
                (
                    TreeView::Stmts {
                        expr1: Box::new(binding),
                        expr2: Box::new(literal(SimpleKind::Int, value)),
                    },
                    env.insert(x, value),
                ),
            )
        }),
{
    let binding = TreeView::Let {
        var: x,
        is_pointer: pointer,
        value: Box::new(literal(kind, value)),
        expr: Box::new(body),
    };
    let read = TreeView::Var { var: x, is_pointer: pointer };
    lemma_literal_unchanged(kind, value, env, floats);
    assert(fold_spec(binding, env, floats) == Ok::<(TreeView, Bindings), Fault>(
        (binding, env.insert(x, value)),
    ));
    assert(fold_spec(read, env.insert(x, value), floats) == Ok::<(TreeView, Bindings), Fault>(
        (literal(SimpleKind::Int, value), env.insert(x, value)),
    ));
}

/// A conditional on the literal `true` folds to what its first branch folds
/// to, where the second branch folds without a fault. The environment is the
/// one that the second branch leaves.
pub proof fn lemma_true_branch(
    a: TreeView,
    b: TreeView,
    env: Bindings,
    floats: FloatResults,
)
    requires
        fold_spec(a, env, floats) is Ok,
        fold_spec(b, fold_spec(a, env, floats)->Ok_0.1, floats) is Ok,
    ensures
        fold_spec(conditional(literal(SimpleKind::Bool, "true"@), a, b), env, floats) is Ok,
        fold_spec(conditional(literal(SimpleKind::Bool, "true"@), a, b), env, floats)->Ok_0.0
            == fold_spec(a, env, floats)->Ok_0.0,
{
    lemma_bool_texts();
    lemma_literal_unchanged(SimpleKind::Bool, "true"@, env, floats);
}

/// A conditional on the literal `false` folds to what its second branch folds
/// to, where the first branch folds without a fault and leaves the environment
/// as it found it.
pub proof fn lemma_false_branch(
    a: TreeView,
    b: TreeView,
    env: Bindings,
    floats: FloatResults,
)
    requires
        fold_spec(a, env, floats) is Ok,
        fold_spec(a, env, floats)->Ok_0.1 == env,
    ensures
        fold_spec(conditional(literal(SimpleKind::Bool, "false"@), a, b), env, floats) == fold_spec(
            b,
            env,
            floats,
        ),
{
    lemma_bool_texts();
    lemma_literal_unchanged(SimpleKind::Bool, "false"@, env, floats);
}

/// A comparison of two identifiers that nothing binds folds to `true` where
/// the two names are the same text, and stays a comparison where they differ:
/// it never folds to `false`.
pub proof fn lemma_ident_comparison(
    op: BinaryOp,
    a: Seq<char>,
    b: Seq<char>,
    env: Bindings,
    floats: FloatResults,
)
    requires
        op == BinaryOp::Eq || op == BinaryOp::LE,
        !env.contains_key(a),
        !env.contains_key(b),
    ensures
        ({
            let node = binary(op, literal(SimpleKind::Ident, a), literal(SimpleKind::Ident, b));
            fold_spec(node, env, floats) == Ok::<(TreeView, Bindings), Fault>(
                (
                    if a == b {
                        literal(SimpleKind::Bool, "true"@)
                    } else {
                        node
                    },
                    env,
                ),
            )
        }),
{
    lemma_literal_unchanged(SimpleKind::Ident, a, env, floats);
    lemma_literal_unchanged(SimpleKind::Ident, b, env, floats);
}

/// A comparison with an identifier among its two simple operands never
/// evaluates to the literal `false`.
pub proof fn lemma_ident_never_false(
    op: BinaryOp,
    lk: SimpleKind,
    a: Seq<char>,
    rk: SimpleKind,
    b: Seq<char>,
    floats: FloatResults,
)
    requires
        op == BinaryOp::Eq || op == BinaryOp::LE,
        lk == SimpleKind::Ident || rk == SimpleKind::Ident,
    ensures
        binary_spec(op, literal(lk, a), literal(rk, b), floats) != Ok::<TreeView, Fault>(
            literal(SimpleKind::Bool, "false"@),
        ),
{
    reveal_strlit("true");
    reveal_strlit("false");
    assert("true"@.len() != "false"@.len());
}

/// A tree that the pass leaves as it is, is left as it is by a second pass
/// too: the pass applied to its own result gives that result again.
pub proof fn lemma_fixpoint_stays(t: TreeView, floats: FloatResults)
    requires
        transform_spec(t, floats) == Ok::<TreeView, Fault>(t),
    ensures
        transform_spec(transform_spec(t, floats)->Ok_0, floats) == transform_spec(t, floats),
{
}

/// Where neither branch of a conditional changes the environment, what follows
/// the conditional in a sequence is folded under the environment that the
/// condition left: no binding of a branch reaches it.
pub proof fn lemma_branches_do_not_leak(
    c: TreeView,
    a: TreeView,
    b: TreeView,
    next: TreeView,
    env: Bindings,
    floats: FloatResults,
)
    requires
        fold_spec(c, env, floats) is Ok,
        ({
            let e1 = fold_spec(c, env, floats)->Ok_0.1;
            &&& fold_spec(a, e1, floats) is Ok
            &&& fold_spec(a, e1, floats)->Ok_0.1 == e1
            &&& fold_spec(b, e1, floats) is Ok
            &&& fold_spec(b, e1, floats)->Ok_0.1 == e1
        }),
    ensures
        ({
            let e1 = fold_spec(c, env, floats)->Ok_0.1;
            let first = branch_spec(
                fold_spec(c, env, floats)->Ok_0.0,
                fold_spec(a, e1, floats)->Ok_0.0,
                fold_spec(b, e1, floats)->Ok_0.0,
            );
            let seq = TreeView::Stmts {
                expr1: Box::new(conditional(c, a, b)),
                expr2: Box::new(next),
            };
            fold_spec(seq, env, floats) == (match fold_spec(next, e1, floats) {
                Err(e) => Err::<(TreeView, Bindings), Fault>(e),
                Ok((x, e2)) => Ok::<(TreeView, Bindings), Fault>(
                    (TreeView::Stmts { expr1: Box::new(first), expr2: Box::new(x) }, e2),
                ),
            })
        }),
{
    let e1 = fold_spec(c, env, floats)->Ok_0.1;
    assert(fold_spec(conditional(c, a, b), env, floats) == Ok::<(TreeView, Bindings), Fault>(
        (
            branch_spec(
                fold_spec(c, env, floats)->Ok_0.0,
                fold_spec(a, e1, floats)->Ok_0.0,
                fold_spec(b, e1, floats)->Ok_0.0,
            ),
            e1,
        ),
    ));
}

/// A node of a kind that the pass does not rewrite is handed back unchanged,
/// and so is the environment.
pub proof fn lemma_opaque_unchanged(node: AlephTree, env: Bindings, floats: FloatResults)
    ensures
        fold_spec(TreeView::Other(node), env, floats) == Ok::<(TreeView, Bindings), Fault>(
            (TreeView::Other(node), env),
        ),
{
}

/// Whether a tree holds no `Let`, as far as the pass looks into it.
pub open spec fn let_free(t: TreeView) -> bool
    decreases t,
{
    match t {
        TreeView::Simple { .. } => true,
        TreeView::Var { .. } => true,
        TreeView::Let { .. } => false,
        TreeView::Unary { op, expr } => let_free(*expr),
        TreeView::Binary { op, left, right } => let_free(*left) && let_free(*right),
        TreeView::If { condition, then_branch, els } => let_free(*condition) && let_free(
            *then_branch,
        ) && let_free(*els),
        TreeView::Stmts { expr1, expr2 } => let_free(*expr1) && let_free(*expr2),
        TreeView::App { object_name, fun, param_list } => forall|i: int|
            0 <= i < param_list.len() ==> let_free(#[trigger] param_list[i]),
        TreeView::Other(_) => true,
    }
}

/// Whether folding `t` under `env` gives `t` and `env` again.
pub open spec fn settled(t: TreeView, env: Bindings, floats: FloatResults) -> bool {
    fold_spec(t, env, floats) == Ok::<(TreeView, Bindings), Fault>((t, env))
}

/// A list of settled trees folds to itself.
pub proof fn lemma_settled_list(ps: Seq<TreeView>, env: Bindings, floats: FloatResults, k: nat)
    requires
        k <= ps.len(),
        forall|i: int| 0 <= i < k ==> settled(#[trigger] ps[i], env, floats),
    ensures
        fold_list_spec(ps, env, floats, k) == Ok::<(Seq<TreeView>, Bindings), Fault>(
            (ps.take(k as int), env),
        ),
    decreases k,
{
    if k > 0 {
        lemma_settled_list(ps, env, floats, (k - 1) as nat);
        assert(settled(ps[k - 1], env, floats));
        assert(ps.take(k - 1).push(ps[k - 1]) =~= ps.take(k as int));
    } else {
        assert(ps.take(0) =~= Seq::<TreeView>::empty());
    }
}

/// One pass settles a list of trees without `Let`: the environment is left as
/// it was, and each tree of the result holds no `Let` and is settled.
pub proof fn lemma_list_settles(list: Seq<TreeView>, env: Bindings, floats: FloatResults, n: nat)
    requires
        n <= list.len(),
        forall|i: int| 0 <= i < list.len() ==> let_free(#[trigger] list[i]),
        fold_list_spec(list, env, floats, n) is Ok,
    ensures
        ({
            let r = fold_list_spec(list, env, floats, n)->Ok_0;
            &&& r.1 == env
            &&& r.0.len() == n
            &&& forall|i: int|
                0 <= i < n ==> let_free(#[trigger] r.0[i]) && settled(r.0[i], env, floats)
        }),
    decreases list, n,
{
    if n > 0 {
        lemma_list_settles(list, env, floats, (n - 1) as nat);
        assert(let_free(list[n - 1]));
        lemma_one_pass_settles(list[n - 1], env, floats);
    }
}

/// One pass settles a tree without `Let`: it leaves the environment as it was,
/// and a second pass under that environment changes nothing.
pub proof fn lemma_one_pass_settles(t: TreeView, env: Bindings, floats: FloatResults)
    requires
        let_free(t),
        fold_spec(t, env, floats) is Ok,
    ensures
        fold_spec(t, env, floats)->Ok_0.1 == env,
        let_free(fold_spec(t, env, floats)->Ok_0.0),
        settled(fold_spec(t, env, floats)->Ok_0.0, env, floats),
    decreases t, 0nat,
{
    match t {
        TreeView::Unary { op, expr } => {
            lemma_one_pass_settles(*expr, env, floats);
        },
        TreeView::Binary { op, left, right } => {
            lemma_one_pass_settles(*left, env, floats);
            lemma_one_pass_settles(*right, env, floats);
        },
        TreeView::If { condition, then_branch, els } => {
            lemma_one_pass_settles(*condition, env, floats);
            lemma_one_pass_settles(*then_branch, env, floats);
            lemma_one_pass_settles(*els, env, floats);
        },
        TreeView::Stmts { expr1, expr2 } => {
            lemma_one_pass_settles(*expr1, env, floats);
            lemma_one_pass_settles(*expr2, env, floats);
        },
        TreeView::App { object_name, fun, param_list } => {
            lemma_list_settles(param_list, env, floats, param_list.len());
            let ps = fold_list_spec(param_list, env, floats, param_list.len())->Ok_0.0;
            lemma_settled_list(ps, env, floats, ps.len());
            assert(ps.take(ps.len() as int) =~= ps);
        },
        _ => {},
    }
}

/// The pass is idempotent on trees without `Let`: applied to its own result,
/// it gives that result again.
pub proof fn lemma_idempotent_without_let(t: TreeView, floats: FloatResults)
    requires
        let_free(t),
        transform_spec(t, floats) is Ok,
    ensures
        transform_spec(transform_spec(t, floats)->Ok_0, floats) == transform_spec(t, floats),
{
    lemma_one_pass_settles(t, Map::empty(), floats);
}

} // verus!
