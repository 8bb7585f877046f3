//! Constant folding over an expression tree: literal arithmetic and boolean
//! operators are evaluated, names bound to known constants are substituted,
//! and conditionals on a literal condition collapse to the branch taken.
//!
//! - [`tree`]: the tree and what it denotes.
//! - [`env`]: the environment of known constants.
//! - [`text`]: reading, writing and comparing the text of literals.
//! - [`floats`]: the floating-point results that the caller supplies.
//! - [`eval`]: one operator on folded operands, and the faults.
//! - [`fold`]: the pass itself.
//! - [`laws`]: what holds of the pass.

pub mod tree;
pub mod text;
pub mod env;
pub mod floats;
pub mod eval;
pub mod fold;
pub mod laws;

pub use crate::env::{add_var, find, in_env, Env};
pub use crate::eval::FoldError;
pub use crate::floats::{FloatOp, FloatQuery, FloatTable};
pub use crate::fold::{constant_folding, constant_folding_list, transform};
pub use crate::tree::{is_simple, BinaryOp, SimpleKind, Tree, UnaryOp};
