//! Operators and math functions over script values.
//!
//! A script value reaches the library as an [`Operand`]: a number, a shape,
//! or something else.  Numbers are promoted to constant trees in the position
//! they occupy, shapes are lowered to their trees, and anything else is
//! refused with an error that names what was expected.

use crate::error::ScriptError;
use crate::kernel::{
    kernel_abs, kernel_acos, kernel_add, kernel_and, kernel_asin, kernel_atan, kernel_atan2,
    kernel_ceil, kernel_compare, kernel_constant, kernel_cos, kernel_div, kernel_exp,
    kernel_floor, kernel_ln, kernel_max, kernel_min, kernel_modulo, kernel_mul, kernel_neg,
    kernel_not, kernel_or, kernel_pow, kernel_remap_xyz, kernel_round, kernel_sin, kernel_sqrt,
    kernel_square, kernel_sub, kernel_tan, kernel_x, kernel_y, kernel_z, Axis, BinaryOp, KTree,
    Term, UnaryOp,
};
use crate::shapes::Shape;
use koto::runtime::KNumber;
use vstd::prelude::*;

verus! {

/// What a value must be where a tree is expected.
pub const TREE_OR_NUMBER: &'static str = "Tree|Number";

/// What the left operand must be when a shape stands on the right.
pub const NUMBER: &'static str = "Number";

/// What an exponent must be.
pub const INTEGER: &'static str = "Integer";

/// Why relational operators are refused on trees.
pub const BAN_MSG: &'static str = "cannot compare Tree types during function tracing";

/// Signature of the one-argument math functions.
pub const UNARY_SIG: &'static str = "1 argument: Tree | Number";

/// Signature of the two-argument math functions.
pub const BINARY_SIG: &'static str = "2 arguments: Tree|Number, Tree|Number";

/// Signature of the two-argument methods on a shape.
pub const METHOD_SIG: &'static str = "1 argument: Tree|Number";

/// Signature of `remap_xyz`, when the count of arguments is wrong.
pub const REMAP_ARITY_SIG: &'static str = "3 arguments: |x, y, z|";

/// Signature of `remap_xyz`, when an argument is not a tree.
pub const REMAP_SIG: &'static str = "|x, y, z|";

/// A value handed over by a script.
pub enum Operand {
    Number(KNumber),
    Shape(Shape),
    /// Any other value; none of the library's operations accept it.
    Other,
}

/// The tree that a value coerces to, if it coerces at all.
pub open spec fn operand_term(v: Operand) -> Option<Term> {
    match v {
        Operand::Number(n) => Some(Term::Constant(n)),
        Operand::Shape(s) => Some(s.term()),
        Operand::Other => None,
    }
}

/// The tree of `a OP b`, with both operands coerced in their own positions,
/// if both coerce.
pub open spec fn binary_term(op: BinaryOp, a: Operand, b: Operand) -> Option<Term> {
    match (operand_term(a), operand_term(b)) {
        (Some(ta), Some(tb)) => Some(Term::Binary(op, Box::new(ta), Box::new(tb))),
        _ => None,
    }
}

/// The tree of `lhs OP rhs` when the runtime asks the shape on the right:
/// defined only for a number on the left, which stays on the left.
pub open spec fn rhs_term(op: BinaryOp, rhs: Shape, lhs: Operand) -> Option<Term> {
    match lhs {
        Operand::Number(n) => Some(Term::Binary(op, Box::new(Term::Constant(n)), Box::new(rhs.term()))),
        _ => None,
    }
}

/// Right-hand dispatch keeps the written order: `n OP shape`, answered by the
/// shape on the right, builds the same tree as the free function called with
/// `n` and `shape` in that order.
pub proof fn lemma_right_hand_promotion(op: BinaryOp, n: KNumber, shape: Shape)
    ensures
        rhs_term(op, shape, Operand::Number(n)) == binary_term(
            op,
            Operand::Number(n),
            Operand::Shape(shape),
        ),
        rhs_term(op, shape, Operand::Number(n)) == Some(
            Term::Binary(op, Box::new(Term::Constant(n)), Box::new(shape.term())),
        ),
{
}

/// The relational operators, none of which is defined on trees.
#[derive(Clone, Copy, Debug, PartialEq, Eq, Structural)]
pub enum Relation {
    Less,
    LessOrEqual,
    Greater,
    GreaterOrEqual,
    Equal,
    NotEqual,
}

/// Coerces a value to a tree: a number becomes a constant leaf, a shape its
/// lowered tree; anything else gives `None`.
pub fn maybe_tree(v: &Operand) -> (r: Option<KTree>)
    ensures
        r is Some <==> operand_term(*v) is Some,
        r is Some ==> r->0@ == operand_term(*v)->0,
{
    match v {
        Operand::Number(n) => Some(kernel_constant(*n)),
        Operand::Shape(s) => Some(s.to_tree()),
        Operand::Other => None,
    }
}

/// Applies a unary kernel operation.
pub fn apply_unary(op: UnaryOp, a: &KTree) -> (r: KTree)
    ensures
        r@ == Term::Unary(op, Box::new(a@)),
{
    match op {
        UnaryOp::Neg => kernel_neg(a),
        UnaryOp::Abs => kernel_abs(a),
        UnaryOp::Sqrt => kernel_sqrt(a),
        UnaryOp::Square => kernel_square(a),
        UnaryOp::Sin => kernel_sin(a),
        UnaryOp::Cos => kernel_cos(a),
        UnaryOp::Tan => kernel_tan(a),
        UnaryOp::Asin => kernel_asin(a),
        UnaryOp::Acos => kernel_acos(a),
        UnaryOp::Atan => kernel_atan(a),
        UnaryOp::Exp => kernel_exp(a),
        UnaryOp::Ln => kernel_ln(a),
        UnaryOp::Not => kernel_not(a),
        UnaryOp::Ceil => kernel_ceil(a),
        UnaryOp::Floor => kernel_floor(a),
        UnaryOp::Round => kernel_round(a),
    }
}

/// Applies a binary kernel operation, keeping the order of the operands.
pub fn apply_binary(op: BinaryOp, a: &KTree, b: &KTree) -> (r: KTree)
    ensures
        r@ == Term::Binary(op, Box::new(a@), Box::new(b@)),
{
    match op {
        BinaryOp::Add => kernel_add(a, b),
        BinaryOp::Sub => kernel_sub(a, b),
        BinaryOp::Mul => kernel_mul(a, b),
        BinaryOp::Div => kernel_div(a, b),
        BinaryOp::Mod => kernel_modulo(a, b),
        BinaryOp::Min => kernel_min(a, b),
        BinaryOp::Max => kernel_max(a, b),
        BinaryOp::Compare => kernel_compare(a, b),
        BinaryOp::And => kernel_and(a, b),
        BinaryOp::Or => kernel_or(a, b),
        BinaryOp::Atan2 => kernel_atan2(a, b),
    }
}

impl KTree {
    /// The tree of the `x` axis.
    pub fn x() -> (r: KTree)
        ensures
            r@ == Term::Axis(Axis::X),
    {
        kernel_x()
    }

    /// The tree of the `y` axis.
    pub fn y() -> (r: KTree)
        ensures
            r@ == Term::Axis(Axis::Y),
    {
        kernel_y()
    }

    /// The tree of the `z` axis.
    pub fn z() -> (r: KTree)
        ensures
            r@ == Term::Axis(Axis::Z),
    {
        kernel_z()
    }

    /// Replaces this tree with `self OP rhs`, the value on the right promoted
    /// as in [`binary_op`].  On an error the tree is left as it was.
    pub fn binary_assign(&mut self, op: BinaryOp, rhs: &Operand) -> (r: Result<(), ScriptError>)
        ensures
            operand_term(*rhs) is Some ==> r is Ok && final(self)@ == Term::Binary(
                op,
                Box::new(old(self)@),
                Box::new(operand_term(*rhs)->0),
            ),
            operand_term(*rhs) is None ==> r is Err && r->Err_0.is_type_mismatch(
                TREE_OR_NUMBER@,
            ) && final(self)@ == old(self)@,
    {
        match maybe_tree(rhs) {
            Some(t) => {
                let next = apply_binary(op, self, &t);
                *self = next;
                Ok(())
            },
            None => Err(ScriptError::TypeMismatch(TREE_OR_NUMBER.to_owned())),
        }
    }

    /// Replaces this tree with itself raised to an integer power, the
    /// exponent checked as in [`power`].  On an error the tree is left as it
    /// was.
    pub fn power_assign(&mut self, exponent: &Operand) -> (r: Result<(), ScriptError>)
        ensures
            exponent_of(*exponent) is Some ==> r is Ok && final(self)@ == Term::Power(
                Box::new(old(self)@),
                exponent_of(*exponent)->0,
            ),
            exponent_of(*exponent) is None ==> r is Err && r->Err_0.is_type_mismatch(INTEGER@)
                && final(self)@ == old(self)@,
    {
        if let Operand::Number(KNumber::I64(e)) = exponent {
            if *e != i64::MIN {
                let next = kernel_pow(self, *e);
                *self = next;
                return Ok(());
            }
        }
        Err(ScriptError::TypeMismatch(INTEGER.to_owned()))
    }
}

/// The three axis trees, in the order `x`, `y`, `z`.
pub fn axes() -> (r: (KTree, KTree, KTree))
    ensures
        r.0@ == Term::Axis(Axis::X),
        r.1@ == Term::Axis(Axis::Y),
        r.2@ == Term::Axis(Axis::Z),
{
    (kernel_x(), kernel_y(), kernel_z())
}

/// `-shape`.
pub fn negate(shape: &Shape) -> (r: KTree)
    ensures
        r@ == Term::Unary(UnaryOp::Neg, Box::new(shape.term())),
{
    apply_unary(UnaryOp::Neg, &shape.to_tree())
}

/// `lhs OP rhs` with a shape on the left: the value on the right is coerced,
/// a number becoming a constant on the right.
pub fn binary_op(op: BinaryOp, lhs: &Shape, rhs: &Operand) -> (r: Result<KTree, ScriptError>)
    ensures
        operand_term(*rhs) is Some ==> r is Ok && r->Ok_0@ == Term::Binary(
            op,
            Box::new(lhs.term()),
            Box::new(operand_term(*rhs)->0),
        ),
        operand_term(*rhs) is None ==> r is Err && r->Err_0.is_type_mismatch(TREE_OR_NUMBER@),
{
    match maybe_tree(rhs) {
        Some(t) => Ok(apply_binary(op, &lhs.to_tree(), &t)),
        None => Err(ScriptError::TypeMismatch(TREE_OR_NUMBER.to_owned())),
    }
}

/// `lhs OP rhs` where the runtime could not apply the operator for the value
/// on the left and asks the shape on the right: only a number on the left is
/// accepted, and it becomes a constant on the left.
pub fn binary_op_rhs(op: BinaryOp, rhs: &Shape, lhs: &Operand) -> (r: Result<KTree, ScriptError>)
    ensures
        rhs_term(op, *rhs, *lhs) is Some ==> r is Ok && r->Ok_0@ == rhs_term(op, *rhs, *lhs)->0,
        rhs_term(op, *rhs, *lhs) is None ==> r is Err && r->Err_0.is_type_mismatch(NUMBER@),
{
    match lhs {
        Operand::Number(n) => Ok(apply_binary(op, &kernel_constant(*n), &rhs.to_tree())),
        _ => Err(ScriptError::TypeMismatch(NUMBER.to_owned())),
    }
}

/// The exponent that a value gives: an integer, other than the least `i64`,
/// whose negation does not fit.
pub open spec fn exponent_of(v: Operand) -> Option<i64> {
    match v {
        Operand::Number(KNumber::I64(e)) => if e != i64::MIN {
            Some(e)
        } else {
            None
        },
        _ => None,
    }
}

/// `base ^ exponent`: the exponent must be an integer.
pub fn power(base: &Shape, exponent: &Operand) -> (r: Result<KTree, ScriptError>)
    ensures
        exponent_of(*exponent) is Some ==> r is Ok && r->Ok_0@ == Term::Power(
            Box::new(base.term()),
            exponent_of(*exponent)->0,
        ),
        exponent_of(*exponent) is None ==> r is Err && r->Err_0.is_type_mismatch(INTEGER@),
{
    if let Operand::Number(KNumber::I64(e)) = exponent {
        if *e != i64::MIN {
            return Ok(kernel_pow(&base.to_tree(), *e));
        }
    }
    Err(ScriptError::TypeMismatch(INTEGER.to_owned()))
}

/// A relational operator with a shape on one side: always refused, whatever
/// the other side holds.
pub fn compare_op(_rel: Relation, _lhs: &Shape, _rhs: &Operand) -> (r: Result<bool, ScriptError>)
    ensures
        r is Err && r->Err_0.is_unsupported(BAN_MSG@),
{
    Err(ScriptError::UnsupportedOperation(BAN_MSG.to_owned()))
}

/// A one-argument math function called as a free function.
pub fn unary_fn(op: UnaryOp, args: &[Operand]) -> (r: Result<KTree, ScriptError>)
    ensures
        args@.len() == 1 && operand_term(args@[0]) is Some ==> r is Ok && r->Ok_0@ == Term::Unary(
            op,
            Box::new(operand_term(args@[0])->0),
        ),
        !(args@.len() == 1 && operand_term(args@[0]) is Some) ==> r is Err
            && r->Err_0.is_invalid_arguments(UNARY_SIG@),
{
    if args.len() != 1 {
        return Err(ScriptError::InvalidArguments(UNARY_SIG.to_owned()));
    }
    match maybe_tree(&args[0]) {
        Some(t) => Ok(apply_unary(op, &t)),
        None => Err(ScriptError::InvalidArguments(UNARY_SIG.to_owned())),
    }
}

/// A two-argument math function called as a free function; either argument
/// may be a number, which is promoted in its own position.
pub fn binary_fn(op: BinaryOp, args: &[Operand]) -> (r: Result<KTree, ScriptError>)
    ensures
        args@.len() == 2 && binary_term(op, args@[0], args@[1]) is Some ==> r is Ok && r->Ok_0@
            == binary_term(op, args@[0], args@[1])->0,
        !(args@.len() == 2 && binary_term(op, args@[0], args@[1]) is Some) ==> r is Err
            && r->Err_0.is_invalid_arguments(BINARY_SIG@),
{
    if args.len() != 2 {
        return Err(ScriptError::InvalidArguments(BINARY_SIG.to_owned()));
    }
    match (maybe_tree(&args[0]), maybe_tree(&args[1])) {
        (Some(a), Some(b)) => Ok(apply_binary(op, &a, &b)),
        _ => Err(ScriptError::InvalidArguments(BINARY_SIG.to_owned())),
    }
}

/// A one-argument math function called as a method of a shape.
pub fn unary_method(op: UnaryOp, receiver: &Shape) -> (r: KTree)
    ensures
        r@ == Term::Unary(op, Box::new(receiver.term())),
{
    apply_unary(op, &receiver.to_tree())
}

/// A two-argument math function called as a method of a shape: the receiver
/// is the left operand.
pub fn binary_method(op: BinaryOp, receiver: &Shape, args: &[Operand]) -> (r: Result<
    KTree,
    ScriptError,
>)
    ensures
        args@.len() == 1 && operand_term(args@[0]) is Some ==> r is Ok && r->Ok_0@ == Term::Binary(
            op,
            Box::new(receiver.term()),
            Box::new(operand_term(args@[0])->0),
        ),
        !(args@.len() == 1 && operand_term(args@[0]) is Some) ==> r is Err
            && r->Err_0.is_invalid_arguments(METHOD_SIG@),
{
    if args.len() != 1 {
        return Err(ScriptError::InvalidArguments(METHOD_SIG.to_owned()));
    }
    match maybe_tree(&args[0]) {
        Some(t) => Ok(apply_binary(op, &receiver.to_tree(), &t)),
        None => Err(ScriptError::InvalidArguments(METHOD_SIG.to_owned())),
    }
}

/// The tree that a value holds, if it is a bare tree.
pub open spec fn bare_tree(v: Operand) -> Option<Term> {
    match v {
        Operand::Shape(Shape::Tree(t)) => Some(t@),
        _ => None,
    }
}

/// `receiver.remap_xyz(x, y, z)`: the receiver with its axes replaced by
/// three bare trees; numbers and shape variants are refused.
pub fn remap_xyz(receiver: &Shape, args: &[Operand]) -> (r: Result<KTree, ScriptError>)
    ensures
        args@.len() == 3 && bare_tree(args@[0]) is Some && bare_tree(args@[1]) is Some
            && bare_tree(args@[2]) is Some ==> r is Ok && r->Ok_0@ == Term::Remap(
            Box::new(receiver.term()),
            Box::new(bare_tree(args@[0])->0),
            Box::new(bare_tree(args@[1])->0),
            Box::new(bare_tree(args@[2])->0),
        ),
        args@.len() != 3 ==> r is Err && r->Err_0.is_invalid_arguments(REMAP_ARITY_SIG@),
        args@.len() == 3 && !(bare_tree(args@[0]) is Some && bare_tree(args@[1]) is Some
            && bare_tree(args@[2]) is Some) ==> r is Err && r->Err_0.is_invalid_arguments(
            REMAP_SIG@,
        ),
{
    if args.len() != 3 {
        return Err(ScriptError::InvalidArguments(REMAP_ARITY_SIG.to_owned()));
    }
    match (&args[0], &args[1], &args[2]) {
        (
            Operand::Shape(Shape::Tree(x)),
            Operand::Shape(Shape::Tree(y)),
            Operand::Shape(Shape::Tree(z)),
        ) => Ok(kernel_remap_xyz(&receiver.to_tree(), x, y, z)),
        _ => Err(ScriptError::InvalidArguments(REMAP_SIG.to_owned())),
    }
}

} // verus!
