//! The folding pass: one descent through the tree, with the environment
//! handed from each part to the part that follows it.

use crate::env::{add_var, find, text_of, Bindings, Env};
use crate::eval::{
    binary_spec, branch_spec, eval_binary, eval_branch, eval_unary, literal, unary_spec, Fault,
    FoldError,
};
use crate::floats::{FloatResults, FloatTable};
use crate::tree::{is_simple, list_view, SimpleKind, Tree, TreeView};
use vstd::prelude::*;

verus! {

/// The outcome of folding one tree: the new tree and the environment after it.
pub type Folded = Result<(TreeView, Bindings), Fault>;

/// The outcome of folding a list of trees in order.
pub type FoldedList = Result<(Seq<TreeView>, Bindings), Fault>;

/// What a name stands for: an `Int` literal of the text bound to it, or `kept`
/// where nothing is bound to it.
pub open spec fn resolve(name: Seq<char>, kept: TreeView, env: Bindings) -> TreeView {
    if env.contains_key(name) {
        literal(SimpleKind::Int, env[name])
    } else {
        kept
    }
}

/// The value that a `Let` records at once, if it does: a simple value whose
/// text is itself bound stands for the `Int` literal bound to it, and any other
/// simple value but a string literal stands for itself.
pub open spec fn recorded(v: TreeView, env: Bindings) -> Option<TreeView> {
    match v {
        TreeView::Simple { kind, value } => if env.contains_key(value) {
            Some(literal(SimpleKind::Int, env[value]))
        } else if kind != SimpleKind::Text {
            Some(v)
        } else {
            None
        },
        _ => None,
    }
}

/// The tree and the environment that folding `t` under `env` gives, or the
/// fault that stops it.
pub open spec fn fold_spec(t: TreeView, env: Bindings, floats: FloatResults) -> Folded
    decreases t, 0nat,
{
    match t {
        TreeView::Simple { kind, value } => if kind == SimpleKind::Ident {
            Ok((resolve(value, t, env), env))
        } else {
            Ok((t, env))
        },
        TreeView::Var { var, is_pointer } => Ok((resolve(var, t, env), env)),
        TreeView::Let { var, is_pointer, value, expr } => match fold_spec(*value, env, floats) {
            Err(e) => Err(e),
            Ok((v, e1)) => match recorded(v, e1) {
                Some(known) => Ok(
                    (
                        TreeView::Let { var, is_pointer, value: Box::new(known), expr },
                        env.insert(var, text_of(v)),
                    ),
                ),
                None => {
                    let inner = if v is Simple {
                        e1.insert(var, text_of(v))
                    } else {
                        e1
                    };
                    match fold_spec(*expr, inner, floats) {
                        Err(e) => Err(e),
                        Ok((x, e2)) => Ok(
                            (
                                TreeView::Let {
                                    var,
                                    is_pointer,
                                    value: Box::new(v),
                                    expr: Box::new(x),
                                },
                                e2,
                            ),
                        ),
                    }
                },
            },
        },
        TreeView::Unary { op, expr } => match fold_spec(*expr, env, floats) {
            Err(e) => Err(e),
            Ok((x, e1)) => match unary_spec(op, x, floats) {
                Err(e) => Err(e),
                Ok(r) => Ok((r, e1)),
            },
        },
        TreeView::Binary { op, left, right } => match fold_spec(*left, env, floats) {
            Err(e) => Err(e),
            Ok((l, e1)) => match fold_spec(*right, e1, floats) {
                Err(e) => Err(e),
                Ok((r, e2)) => match binary_spec(op, l, r, floats) {
                    Err(e) => Err(e),
                    Ok(x) => Ok((x, e2)),
                },
            },
        },
        TreeView::If { condition, then_branch, els } => match fold_spec(*condition, env, floats) {
            Err(e) => Err(e),
            Ok((c, e1)) => match fold_spec(*then_branch, e1, floats) {
                Err(e) => Err(e),
                Ok((a, e2)) => match fold_spec(*els, e2, floats) {
                    Err(e) => Err(e),
                    Ok((b, e3)) => Ok((branch_spec(c, a, b), e3)),
                },
            },
        },
        TreeView::Stmts { expr1, expr2 } => match fold_spec(*expr1, env, floats) {
            Err(e) => Err(e),
            Ok((a, e1)) => match fold_spec(*expr2, e1, floats) {
                Err(e) => Err(e),
                Ok((b, e2)) => Ok(
                    (TreeView::Stmts { expr1: Box::new(a), expr2: Box::new(b) }, e2),
                ),
            },
        },
        TreeView::App { object_name, fun, param_list } => match fold_list_spec(
            param_list,
            env,
            floats,
            param_list.len(),
        ) {
            Err(e) => Err(e),
            Ok((ps, e1)) => Ok((TreeView::App { object_name, fun, param_list: ps }, e1)),
        },
        TreeView::Other(_) => Ok((t, env)),
    }
}

/// The trees and the environment that folding the first `n` trees of `list`
/// gives, each under the environment that the one before it left.
pub open spec fn fold_list_spec(
    list: Seq<TreeView>,
    env: Bindings,
    floats: FloatResults,
    n: nat,
) -> FoldedList
    decreases list, n,
{
    if n == 0 || n > list.len() {
        Ok((Seq::empty(), env))
    } else {
        match fold_list_spec(list, env, floats, (n - 1) as nat) {
            Err(e) => Err(e),
            Ok((done, e1)) => match fold_spec(list[n - 1], e1, floats) {
                Err(e) => Err(e),
                Ok((x, e2)) => Ok((done.push(x), e2)),
            },
        }
    }
}

/// The tree that the pass makes of `t`, starting with nothing bound.
pub open spec fn transform_spec(t: TreeView, floats: FloatResults) -> Result<TreeView, Fault> {
    match fold_spec(t, Map::empty(), floats) {
        Err(e) => Err(e),
        Ok((x, _)) => Ok(x),
    }
}

/// Whether an exec outcome denotes a given outcome of folding a tree.
pub open spec fn folds_to(r: Result<(Tree, Env), FoldError>, s: Folded) -> bool {
    match r {
        Ok((t, e)) => s == Ok::<(TreeView, Bindings), Fault>((t@, e@)),
        Err(e) => s == Err::<(TreeView, Bindings), Fault>(e@),
    }
}

/// Whether an exec outcome denotes a given outcome of folding a list.
pub open spec fn list_folds_to(r: Result<(Vec<Box<Tree>>, Env), FoldError>, s: FoldedList) -> bool {
    match r {
        Ok((l, e)) => s == Ok::<(Seq<TreeView>, Bindings), Fault>((list_view(l@), e@)),
        Err(e) => s == Err::<(Seq<TreeView>, Bindings), Fault>(e@),
    }
}

/// A fault among the first `i` trees of a list is the fault of any longer part.
pub proof fn lemma_fault_stays(
    list: Seq<TreeView>,
    env: Bindings,
    floats: FloatResults,
    i: nat,
    n: nat,
)
    requires
        1 <= i <= n <= list.len(),
        fold_list_spec(list, env, floats, i) is Err,
    ensures
        fold_list_spec(list, env, floats, n) == fold_list_spec(list, env, floats, i),
    decreases n,
{
    if i < n {
        lemma_fault_stays(list, env, floats, i, (n - 1) as nat);
    }
}

/// The list in the opposite order.
fn reversed(list: Vec<Box<Tree>>) -> (r: Vec<Box<Tree>>)
    ensures
        r.len() == list.len(),
        forall|j: int| 0 <= j < r.len() ==> r@[j] == list@[list.len() - 1 - j],
{
    let ghost orig = list@;
    let mut rest = list;
    let mut r: Vec<Box<Tree>> = Vec::new();
    while rest.len() > 0
        invariant
            rest@ == orig.take(rest.len() as int),
            rest.len() <= orig.len(),
            r.len() + rest.len() == orig.len(),
            forall|j: int| 0 <= j < r.len() ==> r@[j] == orig[orig.len() - 1 - j],
        decreases rest.len(),
    {
        let item = rest.pop().unwrap();
        r.push(item);
        assert(rest@ =~= orig.take(rest.len() as int));
    }
    r
}

/// Folds the trees of a list from first to last, each under the environment
/// that the one before it left.
pub fn constant_folding_list(ast_list: Vec<Box<Tree>>, env: &Env, floats: &FloatTable) -> (r:
    Result<(Vec<Box<Tree>>, Env), FoldError>)
    ensures
        list_folds_to(
            r,
            fold_list_spec(list_view(ast_list@), env@, floats@, ast_list@.len()),
        ),
    decreases ast_list, 1nat,
{
    broadcast use vstd::std_specs::vec::axiom_vec_index_decreases;

    let ghost orig = ast_list@;
    let ghost views = list_view(orig);
    let n = ast_list.len();
    let mut stack = reversed(ast_list);
    let mut out: Vec<Box<Tree>> = Vec::new();
    let mut cur = env.copy();
    let mut i: usize = 0;
    assert(list_view(out@) =~= Seq::<TreeView>::empty());
    while i < n
        invariant
            i <= n,
            n == orig.len(),
            orig == ast_list@,
            views == list_view(orig),
            stack.len() == n - i,
            forall|j: int| 0 <= j < stack.len() ==> stack@[j] == orig[n - 1 - j],
            fold_list_spec(views, env@, floats@, i as nat) == Ok::<
                (Seq<TreeView>, Bindings),
                Fault,
            >((list_view(out@), cur@)),
        decreases n - i,
    {
        let item = stack.pop().unwrap();
        assert(item == ast_list@[i as int]);
        assert(decreases_to!(ast_list => ast_list[i as int]));
        assert(views[i as int] == item@);
        let ghost before = list_view(out@);
        match constant_folding(*item, &cur, floats) {
            Err(e) => {
                proof {
                    assert(fold_list_spec(views, env@, floats@, (i + 1) as nat) == Err::<
                        (Seq<TreeView>, Bindings),
                        Fault,
                    >(e@));
                    lemma_fault_stays(views, env@, floats@, (i + 1) as nat, n as nat);
                }
                return Err(e);
            },
            Ok((t, e2)) => {
                out.push(Box::new(t));
                cur = e2;
                i += 1;
                assert(list_view(out@) =~= before.push(t@));
            },
        }
    }
    Ok((out, cur))
}

/// Folds `ast` under `env`: evaluates operators on literals, replaces names
/// that `env` binds, records the constants that `Let` binds, and collapses
/// conditionals on a literal condition. Returns the new tree with the
/// environment that holds after it.
pub fn constant_folding(ast: Tree, env: &Env, floats: &FloatTable) -> (r: Result<
    (Tree, Env),
    FoldError,
>)
    ensures
        folds_to(r, fold_spec(ast@, env@, floats@)),
    decreases ast, 0nat,
{
    match ast {
        Tree::Simple { kind, value } => {
            if kind == SimpleKind::Ident {
                match find(value.as_str(), env) {
                    Some(bound) => Ok((Tree::Simple { kind: SimpleKind::Int, value: bound }, env.copy())),
                    None => Ok((Tree::Simple { kind, value }, env.copy())),
                }
            } else {
                Ok((Tree::Simple { kind, value }, env.copy()))
            }
        },
        Tree::Var { var, is_pointer } => match find(var.as_str(), env) {
            Some(bound) => Ok((Tree::Simple { kind: SimpleKind::Int, value: bound }, env.copy())),
            None => Ok((Tree::Var { var, is_pointer }, env.copy())),
        },
        Tree::Let { var, is_pointer, value, expr } => {
            match constant_folding(*value, env, floats) {
                Err(e) => Err(e),
                Ok((v, e1)) => {
                    let known = match &v {
                        Tree::Simple { kind, value } => match find(value.as_str(), &e1) {
                            Some(bound) => Some(Tree::Simple { kind: SimpleKind::Int, value: bound }),
                            None => if *kind != SimpleKind::Text {
                                Some(Tree::Simple { kind: *kind, value: value.clone() })
                            } else {
                                None
                            },
                        },
                        _ => None,
                    };
                    assert(match known {
                        Some(k) => recorded(v@, e1@) == Some(k@),
                        None => recorded(v@, e1@) is None,
                    });
                    match known {
                        Some(k) => {
                            let extended = add_var(var.clone(), &v, env);
                            Ok((Tree::Let { var, is_pointer, value: Box::new(k), expr }, extended))
                        },
                        None => {
                            let inner = if is_simple(&v) {
                                add_var(var.clone(), &v, &e1)
                            } else {
                                e1
                            };
                            match constant_folding(*expr, &inner, floats) {
                                Err(e) => Err(e),
                                Ok((x, e2)) => Ok(
                                    (
                                        Tree::Let {
                                            var,
                                            is_pointer,
                                            value: Box::new(v),
                                            expr: Box::new(x),
                                        },
                                        e2,
                                    ),
                                ),
                            }
                        },
                    }
                },
            }
        },
        Tree::Unary { op, expr } => match constant_folding(*expr, env, floats) {
            Err(e) => Err(e),
            Ok((x, e1)) => match eval_unary(op, x, floats) {
                Err(e) => Err(e),
                Ok(r) => Ok((r, e1)),
            },
        },
        Tree::Binary { op, left, right } => match constant_folding(*left, env, floats) {
            Err(e) => Err(e),
            Ok((l, e1)) => match constant_folding(*right, &e1, floats) {
                Err(e) => Err(e),
                Ok((r, e2)) => match eval_binary(op, l, r, floats) {
                    Err(e) => Err(e),
                    Ok(x) => Ok((x, e2)),
                },
            },
        },
        Tree::If { condition, then_branch, els } => match constant_folding(*condition, env, floats) {
            Err(e) => Err(e),
            Ok((c, e1)) => match constant_folding(*then_branch, &e1, floats) {
                Err(e) => Err(e),
                Ok((a, e2)) => match constant_folding(*els, &e2, floats) {
                    Err(e) => Err(e),
                    Ok((b, e3)) => Ok((eval_branch(c, a, b), e3)),
                },
            },
        },
        Tree::Stmts { expr1, expr2 } => match constant_folding(*expr1, env, floats) {
            Err(e) => Err(e),
            Ok((a, e1)) => match constant_folding(*expr2, &e1, floats) {
                Err(e) => Err(e),
                Ok((b, e2)) => Ok((Tree::Stmts { expr1: Box::new(a), expr2: Box::new(b) }, e2)),
            },
        },
        Tree::App { object_name, fun, param_list } => {
            assert(ast@->App_param_list =~= list_view(param_list@));
            match constant_folding_list(param_list, env, floats) {
                Err(e) => Err(e),
                Ok((ps, e1)) => {
                    let r = Tree::App { object_name, fun, param_list: ps };
                    assert(r@->App_param_list =~= list_view(ps@));
                    Ok((r, e1))
                },
            }
        },
        Tree::Other(node) => Ok((Tree::Other(node), env.copy())),
    }
}

/// Folds a whole tree, starting with nothing bound.
pub fn transform(ast: Tree, floats: &FloatTable) -> (r: Result<Tree, FoldError>)
    ensures
        crate::eval::denotes(r, transform_spec(ast@, floats@)),
{
    let env = Env::new();
    match constant_folding(ast, &env, floats) {
        Err(e) => Err(e),
        Ok((x, _)) => Ok(x),
    }
}

} // verus!
