//! Evaluating one operator on operands that are already folded.

use crate::floats::{FloatKey, FloatOp, FloatQuery, FloatResults, FloatTable};
use crate::text::{
    bool_string, bool_text, bool_value, decimal_text, decimal_value, int_text, parse_bool,
    parse_int, text_at_most, text_le,
};
use crate::tree::{BinaryOp, SimpleKind, Tree, TreeView, UnaryOp};
use vstd::prelude::*;

verus! {

/// Why a fold stopped.
#[derive(Debug, PartialEq, Eq)]
pub enum FoldError {
    /// A literal's text is not of the kind that its tag says.
    MalformedLiteral,
    /// An integer division by zero, or an integer result outside 64 bits.
    ArithmeticFault,
    /// A floating-point result that the table does not hold.
    FloatPending(FloatQuery),
}

/// What a [`FoldError`] denotes.
pub ghost enum Fault {
    MalformedLiteral,
    ArithmeticFault,
    FloatPending(FloatKey),
}

impl View for FoldError {
    type V = Fault;

    open spec fn view(&self) -> Fault {
        match self {
            FoldError::MalformedLiteral => Fault::MalformedLiteral,
            FoldError::ArithmeticFault => Fault::ArithmeticFault,
            FoldError::FloatPending(q) => Fault::FloatPending(q@),
        }
    }
}

/// Whether an exec outcome denotes a given outcome.
pub open spec fn denotes(r: Result<Tree, FoldError>, s: Result<TreeView, Fault>) -> bool {
    match r {
        Ok(t) => s == Ok::<TreeView, Fault>(t@),
        Err(e) => s == Err::<TreeView, Fault>(e@),
    }
}

/// A literal node.
pub open spec fn literal(kind: SimpleKind, value: Seq<char>) -> TreeView {
    TreeView::Simple { kind, value }
}

/// The quotient of two integers, rounded towards zero.
pub open spec fn quotient(a: int, b: int) -> int
    recommends
        b != 0,
{
    if a >= 0 && b > 0 {
        a / b
    } else if a < 0 && b < 0 {
        (-a) / (-b)
    } else if a < 0 {
        -((-a) / b)
    } else {
        -(a / (-b))
    }
}

/// Whether an operator is one of the four of arithmetic.
pub open spec fn is_arith(op: BinaryOp) -> bool {
    op == BinaryOp::Add || op == BinaryOp::Sub || op == BinaryOp::Mul || op == BinaryOp::Div
}

/// The exact result of an arithmetic operator on two integers; for another
/// operator, and for a division by zero, zero.
pub open spec fn exact(op: BinaryOp, a: int, b: int) -> int {
    match op {
        BinaryOp::Add => a + b,
        BinaryOp::Sub => a - b,
        BinaryOp::Mul => a * b,
        BinaryOp::Div => if b == 0 {
            0
        } else {
            quotient(a, b)
        },
        _ => 0,
    }
}

/// The result of an arithmetic operator on two 64-bit integers: the exact
/// result where it is defined and fits, else nothing.
pub open spec fn int_result(op: BinaryOp, a: i64, b: i64) -> Option<i64> {
    if !is_arith(op) || (op == BinaryOp::Div && b == 0) || exact(op, a as int, b as int) < i64::MIN
        || exact(op, a as int, b as int) > i64::MAX {
        None
    } else {
        Some(exact(op, a as int, b as int) as i64)
    }
}

/// Computes an arithmetic operator on two integers, without overflow.
pub fn eval_int(op: BinaryOp, a: i64, b: i64) -> (r: Option<i64>)
    ensures
        r == int_result(op, a, b),
{
    match op {
        BinaryOp::Add => a.checked_add(b),
        BinaryOp::Sub => a.checked_sub(b),
        BinaryOp::Mul => a.checked_mul(b),
        BinaryOp::Div => a.checked_div(b),
        _ => None,
    }
}

/// The floating-point operation that stands for an arithmetic operator.
pub open spec fn float_op(op: BinaryOp) -> FloatOp {
    match op {
        BinaryOp::Add => FloatOp::Add,
        BinaryOp::Sub => FloatOp::Sub,
        BinaryOp::Mul => FloatOp::Mul,
        _ => FloatOp::Div,
    }
}

/// The float literal that the table gives for an operation, or the fault that
/// asks for it.
pub open spec fn float_result(
    floats: FloatResults,
    op: FloatOp,
    left: Seq<char>,
    right: Seq<char>,
) -> Result<TreeView, Fault> {
    let key = FloatKey { op, left, right };
    if floats.contains_key(key) {
        Ok(literal(SimpleKind::Float, floats[key]))
    } else {
        Err(Fault::FloatPending(key))
    }
}

/// A unary operator on a folded operand: negation of a number, inversion of a
/// boolean; any other operand is kept under the operator.
pub open spec fn unary_spec(op: UnaryOp, x: TreeView, floats: FloatResults) -> Result<
    TreeView,
    Fault,
> {
    let kept = TreeView::Unary { op, expr: Box::new(x) };
    match x {
        TreeView::Simple { kind, value } => {
            if op == UnaryOp::Neg && kind == SimpleKind::Int {
                match decimal_value(value) {
                    None => Err(Fault::MalformedLiteral),
                    Some(a) => if a == i64::MIN {
                        Err(Fault::ArithmeticFault)
                    } else {
                        Ok(literal(SimpleKind::Int, decimal_text((-a) as i64)))
                    },
                }
            } else if op == UnaryOp::Neg && kind == SimpleKind::Float {
                float_result(floats, FloatOp::Neg, value, Seq::empty())
            } else if op == UnaryOp::Not && kind == SimpleKind::Bool {
                match bool_value(value) {
                    None => Err(Fault::MalformedLiteral),
                    Some(b) => Ok(literal(SimpleKind::Bool, bool_text(!b))),
                }
            } else {
                Ok(kept)
            }
        },
        _ => Ok(kept),
    }
}

/// An arithmetic operator on two literal texts of kind `Int`.
pub open spec fn int_arith_spec(op: BinaryOp, l: Seq<char>, r: Seq<char>) -> Result<
    TreeView,
    Fault,
> {
    match (decimal_value(l), decimal_value(r)) {
        (Some(a), Some(b)) => match int_result(op, a, b) {
            Some(c) => Ok(literal(SimpleKind::Int, decimal_text(c))),
            None => Err(Fault::ArithmeticFault),
        },
        _ => Err(Fault::MalformedLiteral),
    }
}

/// `And` or `Or` on two literal texts of kind `Bool`.
pub open spec fn logic_spec(op: BinaryOp, l: Seq<char>, r: Seq<char>) -> Result<TreeView, Fault> {
    match (bool_value(l), bool_value(r)) {
        (Some(a), Some(b)) => Ok(
            literal(
                SimpleKind::Bool,
                bool_text(
                    if op == BinaryOp::And {
                        a && b
                    } else {
                        a || b
                    },
                ),
            ),
        ),
        _ => Err(Fault::MalformedLiteral),
    }
}

/// A binary operator on two folded operands.
///
/// Arithmetic on two `Int` literals is integer arithmetic; where one of two
/// number literals is a `Float`, the result is the table's. `And` and `Or` work
/// on two `Bool` literals. `Eq` and `LE` work on two simple nodes: with an
/// identifier among them the result is `true` where the two texts are equal,
/// and the node is kept where they differ; two literals are compared by their
/// texts. Any other pair of operands is kept under the operator.
pub open spec fn binary_spec(op: BinaryOp, l: TreeView, r: TreeView, floats: FloatResults) -> Result<
    TreeView,
    Fault,
> {
    let kept = TreeView::Binary { op, left: Box::new(l), right: Box::new(r) };
    match (l, r) {
        (
            TreeView::Simple { kind: lk, value: lv },
            TreeView::Simple { kind: rk, value: rv },
        ) => {
            if is_arith(op) {
                if lk == SimpleKind::Int && rk == SimpleKind::Int {
                    int_arith_spec(op, lv, rv)
                } else if (lk == SimpleKind::Int || lk == SimpleKind::Float) && (rk
                    == SimpleKind::Int || rk == SimpleKind::Float) {
                    float_result(floats, float_op(op), lv, rv)
                } else {
                    Ok(kept)
                }
            } else if op == BinaryOp::And || op == BinaryOp::Or {
                if lk == SimpleKind::Bool && rk == SimpleKind::Bool {
                    logic_spec(op, lv, rv)
                } else {
                    Ok(kept)
                }
            } else if lk == SimpleKind::Ident || rk == SimpleKind::Ident {
                if lv == rv {
                    Ok(literal(SimpleKind::Bool, bool_text(true)))
                } else {
                    Ok(kept)
                }
            } else if op == BinaryOp::Eq {
                Ok(literal(SimpleKind::Bool, bool_text(lv == rv)))
            } else {
                Ok(literal(SimpleKind::Bool, bool_text(text_le(lv, rv))))
            }
        },
        _ => Ok(kept),
    }
}

/// A conditional on three folded parts: the branch that a literal condition
/// `true` or `false` takes, else the conditional itself.
pub open spec fn branch_spec(c: TreeView, t: TreeView, e: TreeView) -> TreeView {
    let kept = TreeView::If {
        condition: Box::new(c),
        then_branch: Box::new(t),
        els: Box::new(e),
    };
    match c {
        TreeView::Simple { kind, value } => if kind != SimpleKind::Ident && bool_value(value)
            == Some(true) {
            t
        } else if kind != SimpleKind::Ident && bool_value(value) == Some(false) {
            e
        } else {
            kept
        },
        _ => kept,
    }
}

/// Looks a floating-point result up and makes a literal of it, or asks for it.
pub fn eval_float(floats: &FloatTable, op: FloatOp, left: String, right: String) -> (r: Result<
    Tree,
    FoldError,
>)
    ensures
        denotes(r, float_result(floats@, op, left@, right@)),
{
    match floats.lookup(op, &left, &right) {
        Some(text) => Ok(Tree::Simple { kind: SimpleKind::Float, value: text }),
        None => Err(FoldError::FloatPending(FloatQuery { op, left, right })),
    }
}

/// Evaluates a unary operator on a folded operand.
pub fn eval_unary(op: UnaryOp, operand: Tree, floats: &FloatTable) -> (r: Result<Tree, FoldError>)
    ensures
        denotes(r, unary_spec(op, operand@, floats@)),
{
    match operand {
        Tree::Simple { kind, value } => {
            if op == UnaryOp::Neg && kind == SimpleKind::Int {
                match parse_int(&value) {
                    None => Err(FoldError::MalformedLiteral),
                    Some(a) => if a == i64::MIN {
                        Err(FoldError::ArithmeticFault)
                    } else {
                        Ok(Tree::Simple { kind: SimpleKind::Int, value: int_text(-a) })
                    },
                }
            } else if op == UnaryOp::Neg && kind == SimpleKind::Float {
                eval_float(floats, FloatOp::Neg, value, String::new())
            } else if op == UnaryOp::Not && kind == SimpleKind::Bool {
                match parse_bool(&value) {
                    None => Err(FoldError::MalformedLiteral),
                    Some(b) => Ok(Tree::Simple { kind: SimpleKind::Bool, value: bool_string(!b) }),
                }
            } else {
                Ok(Tree::Unary { op, expr: Box::new(Tree::Simple { kind, value }) })
            }
        },
        other => Ok(Tree::Unary { op, expr: Box::new(other) }),
    }
}

/// Evaluates an arithmetic operator on the texts of two `Int` literals.
pub fn eval_int_arith(op: BinaryOp, left: &String, right: &String) -> (r: Result<Tree, FoldError>)
    ensures
        denotes(r, int_arith_spec(op, left@, right@)),
{
    let a = parse_int(left);
    let b = parse_int(right);
    match (a, b) {
        (Some(a), Some(b)) => match eval_int(op, a, b) {
            Some(c) => Ok(Tree::Simple { kind: SimpleKind::Int, value: int_text(c) }),
            None => Err(FoldError::ArithmeticFault),
        },
        _ => Err(FoldError::MalformedLiteral),
    }
}

/// Evaluates `And` or `Or` on the texts of two `Bool` literals.
pub fn eval_logic(op: BinaryOp, left: &String, right: &String) -> (r: Result<Tree, FoldError>)
    ensures
        denotes(r, logic_spec(op, left@, right@)),
{
    let a = parse_bool(left);
    let b = parse_bool(right);
    match (a, b) {
        (Some(a), Some(b)) => {
            let v = if op == BinaryOp::And {
                a && b
            } else {
                a || b
            };
            Ok(Tree::Simple { kind: SimpleKind::Bool, value: bool_string(v) })
        },
        _ => Err(FoldError::MalformedLiteral),
    }
}

/// Puts two simple operands back under a binary operator.
fn keep_binary(op: BinaryOp, lk: SimpleKind, lv: String, rk: SimpleKind, rv: String) -> (r: Tree)
    ensures
        r@ == (TreeView::Binary {
            op,
            left: Box::new(literal(lk, lv@)),
            right: Box::new(literal(rk, rv@)),
        }),
{
    let left = Tree::Simple { kind: lk, value: lv };
    let right = Tree::Simple { kind: rk, value: rv };
    assert(left@ == literal(lk, lv@) && right@ == literal(rk, rv@));
    Tree::Binary { op, left: Box::new(left), right: Box::new(right) }
}

/// Evaluates a binary operator on two folded operands.
pub fn eval_binary(op: BinaryOp, left: Tree, right: Tree, floats: &FloatTable) -> (r: Result<
    Tree,
    FoldError,
>)
    ensures
        denotes(r, binary_spec(op, left@, right@, floats@)),
{
    match (left, right) {
        (Tree::Simple { kind: lk, value: lv }, Tree::Simple { kind: rk, value: rv }) => {
            let arith = op == BinaryOp::Add || op == BinaryOp::Sub || op == BinaryOp::Mul || op
                == BinaryOp::Div;
            let numbers = (lk == SimpleKind::Int || lk == SimpleKind::Float) && (rk
                == SimpleKind::Int || rk == SimpleKind::Float);
            if arith {
                if lk == SimpleKind::Int && rk == SimpleKind::Int {
                    eval_int_arith(op, &lv, &rv)
                } else if numbers {
                    let fop = match op {
                        BinaryOp::Add => FloatOp::Add,
                        BinaryOp::Sub => FloatOp::Sub,
                        BinaryOp::Mul => FloatOp::Mul,
                        _ => FloatOp::Div,
                    };
                    eval_float(floats, fop, lv, rv)
                } else {
                    Ok(keep_binary(op, lk, lv, rk, rv))
                }
            } else if op == BinaryOp::And || op == BinaryOp::Or {
                if lk == SimpleKind::Bool && rk == SimpleKind::Bool {
                    eval_logic(op, &lv, &rv)
                } else {
                    Ok(keep_binary(op, lk, lv, rk, rv))
                }
            } else if lk == SimpleKind::Ident || rk == SimpleKind::Ident {
                if lv == rv {
                    Ok(Tree::Simple { kind: SimpleKind::Bool, value: bool_string(true) })
                } else {
                    Ok(keep_binary(op, lk, lv, rk, rv))
                }
            } else if op == BinaryOp::Eq {
                Ok(Tree::Simple { kind: SimpleKind::Bool, value: bool_string(lv == rv) })
            } else {
                Ok(Tree::Simple { kind: SimpleKind::Bool, value: bool_string(text_at_most(&lv, &rv)) })
            }
        },
        (l, r) => Ok(Tree::Binary { op, left: Box::new(l), right: Box::new(r) }),
    }
}

/// Picks the branch of a conditional whose three parts are folded.
pub fn eval_branch(condition: Tree, then_branch: Tree, els: Tree) -> (r: Tree)
    ensures
        r@ == branch_spec(condition@, then_branch@, els@),
{
    match condition {
        Tree::Simple { kind, value } => {
            let known = if kind == SimpleKind::Ident {
                None
            } else {
                parse_bool(&value)
            };
            match known {
                Some(true) => then_branch,
                Some(false) => els,
                None => Tree::If {
                    condition: Box::new(Tree::Simple { kind, value }),
                    then_branch: Box::new(then_branch),
                    els: Box::new(els),
                },
            }
        },
        other => Tree::If {
            condition: Box::new(other),
            then_branch: Box::new(then_branch),
            els: Box::new(els),
        },
    }
}

} // verus!
