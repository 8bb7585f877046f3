//! The expression tree that the folding pass rewrites, and its mathematical view.

use aleph_syntax_tree::syntax::AlephTree;
use vstd::prelude::*;

verus! {

/// The syntax tree of the `aleph_syntax_tree` crate. A value of it is carried
/// through unread: the pass keeps nodes it does not rewrite in this form.
#[verifier::external_type_specification]
#[verifier::external_body]
pub struct ExAlephTree(AlephTree);

/// The kinds of simple node: the four literals and the identifier.
#[derive(Clone, Copy, Debug, PartialEq, Eq, Structural)]
pub enum SimpleKind {
    Int,
    Float,
    Bool,
    Text,
    Ident,
}

/// The operators of one operand.
#[derive(Clone, Copy, Debug, PartialEq, Eq, Structural)]
pub enum UnaryOp {
    Neg,
    Not,
}

/// The operators of two operands.
#[derive(Clone, Copy, Debug, PartialEq, Eq, Structural)]
pub enum BinaryOp {
    Add,
    Sub,
    Mul,
    Div,
    And,
    Or,
    Eq,
    LE,
}

/// A node of the expression tree. A literal keeps its value as text.
#[derive(Debug, PartialEq)]
#[allow(inconsistent_fields)]
pub enum Tree {
    /// A literal or an identifier.
    Simple { kind: SimpleKind, value: String },
    /// A read of a variable.
    Var { var: String, is_pointer: String },
    /// Binds `var` to `value` for `expr`.
    Let { var: String, is_pointer: String, value: Box<Tree>, expr: Box<Tree> },
    Unary { op: UnaryOp, expr: Box<Tree> },
    Binary { op: BinaryOp, left: Box<Tree>, right: Box<Tree> },
    If { condition: Box<Tree>, then_branch: Box<Tree>, els: Box<Tree> },
    /// `expr1` followed by `expr2`.
    Stmts { expr1: Box<Tree>, expr2: Box<Tree> },
    /// A call; only the arguments are expressions to fold.
    App { object_name: String, fun: Box<Tree>, param_list: Vec<Box<Tree>> },
    /// A node of any other kind, which the pass hands back as it is.
    Other(AlephTree),
}

/// What a [`Tree`] denotes: the same shape, with sequences of characters for text.
#[allow(inconsistent_fields)]
pub ghost enum TreeView {
    Simple { kind: SimpleKind, value: Seq<char> },
    Var { var: Seq<char>, is_pointer: Seq<char> },
    Let { var: Seq<char>, is_pointer: Seq<char>, value: Box<TreeView>, expr: Box<TreeView> },
    Unary { op: UnaryOp, expr: Box<TreeView> },
    Binary { op: BinaryOp, left: Box<TreeView>, right: Box<TreeView> },
    If { condition: Box<TreeView>, then_branch: Box<TreeView>, els: Box<TreeView> },
    Stmts { expr1: Box<TreeView>, expr2: Box<TreeView> },
    App { object_name: Seq<char>, fun: Box<TreeView>, param_list: Seq<TreeView> },
    Other(AlephTree),
}

impl Tree {
    /// What this tree denotes.
    pub open spec fn denote(&self) -> TreeView
        decreases self,
    {
        match self {
            Tree::Simple { kind, value } => TreeView::Simple { kind: *kind, value: value@ },
            Tree::Var { var, is_pointer } => TreeView::Var { var: var@, is_pointer: is_pointer@ },
            Tree::Let { var, is_pointer, value, expr } => TreeView::Let {
                var: var@,
                is_pointer: is_pointer@,
                value: Box::new(value.denote()),
                expr: Box::new(expr.denote()),
            },
            Tree::Unary { op, expr } => TreeView::Unary { op: *op, expr: Box::new(expr.denote()) },
            Tree::Binary { op, left, right } => TreeView::Binary {
                op: *op,
                left: Box::new(left.denote()),
                right: Box::new(right.denote()),
            },
            Tree::If { condition, then_branch, els } => TreeView::If {
                condition: Box::new(condition.denote()),
                then_branch: Box::new(then_branch.denote()),
                els: Box::new(els.denote()),
            },
            Tree::Stmts { expr1, expr2 } => TreeView::Stmts {
                expr1: Box::new(expr1.denote()),
                expr2: Box::new(expr2.denote()),
            },
            Tree::App { object_name, fun, param_list } => TreeView::App {
                object_name: object_name@,
                fun: Box::new(fun.denote()),
                param_list: Seq::new(
                    param_list.len() as nat,
                    |i: int|
                        if 0 <= i < param_list.len() {
                            param_list[i].denote()
                        } else {
                            TreeView::Other(arbitrary())
                        },
                ),
            },
            Tree::Other(node) => TreeView::Other(*node),
        }
    }
}

impl View for Tree {
    type V = TreeView;

    open spec fn view(&self) -> TreeView {
        self.denote()
    }
}

/// Whether a node is simple: a literal or an identifier.
pub open spec fn simple(t: TreeView) -> bool {
    t is Simple
}

/// The view of a list of subtrees, element by element.
pub open spec fn list_view(list: Seq<Box<Tree>>) -> Seq<TreeView> {
    Seq::new(list.len(), |i: int| list[i].denote())
}

/// Tells whether `ast` is a literal or an identifier.
pub fn is_simple(ast: &Tree) -> (r: bool)
    ensures
        r == simple(ast@),
{
    match ast {
        Tree::Simple { .. } => true,
        _ => false,
    }
}

} // verus!
