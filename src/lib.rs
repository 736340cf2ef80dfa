//! Verified scripting bridge between a dynamically typed script runtime and
//! a symbolic geometry kernel.
//!
//! The library models the values that scripts build (kernel trees and a
//! closed set of shape variants), the operators and functions that combine
//! them, the capture of drawn shapes, and the decisions of one run of a
//! script.  The runtime's own object protocol is wired to these functions
//! by a thin embedding layer.
//!
//! - `kernel`: kernel trees, each with a record of the constructors that
//!   built it.
//! - `shapes`: the closed set of shape variants and their lowering to trees.
//! - `dispatch`: coercion of script values, operators and math functions.
//! - `builtins`: the shape constructors that scripts call.
//! - `capture`: the shapes drawn during a run, with their colors.
//! - `engine`: the decisions that begin and end a run.

mod builtins;
mod capture;
mod dispatch;
mod engine;
mod error;
mod kernel;
mod shapes;

pub use builtins::{
    circle, difference, intersection, inverse, number_of, scale, sphere, translate, union,
    CIRCLE_SIG, SPHERE_SIG, TRANSFORM_SIG,
};
pub use capture::{
    clamp_channel, draw_accepts, is_channel, is_draw_color, is_product, rounded, to_u8, white, DrawShape,
    ScriptContext, DRAW_SIG,
};
pub use dispatch::{
    apply_binary, apply_unary, axes, bare_tree, binary_fn, binary_method, binary_op, binary_op_rhs,
    binary_term, compare_op, exponent_of, lemma_right_hand_promotion, maybe_tree, negate, operand_term, power,
    remap_xyz, rhs_term, unary_fn, unary_method, Operand, Relation, BAN_MSG, BINARY_SIG, INTEGER,
    METHOD_SIG, NUMBER, REMAP_ARITY_SIG, REMAP_SIG, TREE_OR_NUMBER, UNARY_SIG,
};
pub use engine::{
    begin_run, classify, engine_error, finish_eval, finish_run,
    lemma_runs_are_independent, lemma_timeout_is_reported, EngineError, EngineSettings, RunFailure, DEFAULT_EXECUTION_LIMIT,
    TREE,
};
pub use error::ScriptError;
pub use kernel::{terms, Axis, BinaryOp, KTree, Term, TreeObject, UnaryOp};
pub use shapes::{
    KCircle, KDifference, KIntersection, KInverse, KMove, KScale, KSphere, KUnion, Shape, Sphere,
};
