//! The shape constructors that scripts call, with their argument checks.

use crate::dispatch::{maybe_tree, operand_term, Operand, BINARY_SIG, UNARY_SIG};
use crate::error::ScriptError;
use crate::kernel::Term;
use crate::shapes::{
    KCircle, KDifference, KIntersection, KInverse, KMove, KScale, KSphere, KUnion, Shape,
};
use koto::runtime::KNumber;
use vstd::prelude::*;

verus! {

/// Signature of `circle`.
pub const CIRCLE_SIG: &'static str = "1 or 3 arguments: Number[, Number, Number]";

/// Signature of `sphere`.
pub const SPHERE_SIG: &'static str = "1 or 4 arguments: Number[, Number, Number, Number]";

/// Signature of `move` and `scale`.
pub const TRANSFORM_SIG: &'static str = "4 arguments: Tree|Number, Number, Number, Number";

/// The number that a value holds, if it is a number.
pub open spec fn number_of(v: Operand) -> Option<KNumber> {
    match v {
        Operand::Number(n) => Some(n),
        _ => None,
    }
}

/// The origin's coordinate.
pub open spec fn zero() -> KNumber {
    KNumber::I64(0)
}

/// `circle(radius)` or `circle(radius, x, y)`; the center defaults to the
/// origin.
pub fn circle(args: &[Operand]) -> (r: Result<Shape, ScriptError>)
    ensures
        args@.len() == 1 && number_of(args@[0]) is Some ==> r is Ok && r->Ok_0.term()
            == Term::Circle(number_of(args@[0])->0, zero(), zero()),
        args@.len() == 3 && number_of(args@[0]) is Some && number_of(args@[1]) is Some
            && number_of(args@[2]) is Some ==> r is Ok && r->Ok_0.term() == Term::Circle(
            number_of(args@[0])->0,
            number_of(args@[1])->0,
            number_of(args@[2])->0,
        ),
        !(args@.len() == 1 && number_of(args@[0]) is Some) && !(args@.len() == 3 && number_of(
            args@[0],
        ) is Some && number_of(args@[1]) is Some && number_of(args@[2]) is Some) ==> r is Err
            && r->Err_0.is_invalid_arguments(CIRCLE_SIG@),
        r is Ok ==> r->Ok_0 is Circle,
{
    if args.len() == 1 {
        if let Operand::Number(radius) = &args[0] {
            return Ok(Shape::Circle(KCircle::new(*radius, KNumber::I64(0), KNumber::I64(0))));
        }
    } else if args.len() == 3 {
        if let (Operand::Number(radius), Operand::Number(x), Operand::Number(y)) = (
            &args[0],
            &args[1],
            &args[2],
        ) {
            return Ok(Shape::Circle(KCircle::new(*radius, *x, *y)));
        }
    }
    Err(ScriptError::InvalidArguments(CIRCLE_SIG.to_owned()))
}

/// `sphere(radius)` or `sphere(radius, x, y, z)`; the center defaults to the
/// origin.
pub fn sphere(args: &[Operand]) -> (r: Result<Shape, ScriptError>)
    ensures
        args@.len() == 1 && number_of(args@[0]) is Some ==> r is Ok && r->Ok_0.term()
            == Term::Sphere(number_of(args@[0])->0, zero(), zero(), zero()),
        args@.len() == 4 && number_of(args@[0]) is Some && number_of(args@[1]) is Some
            && number_of(args@[2]) is Some && number_of(args@[3]) is Some ==> r is Ok
            && r->Ok_0.term() == Term::Sphere(
            number_of(args@[0])->0,
            number_of(args@[1])->0,
            number_of(args@[2])->0,
            number_of(args@[3])->0,
        ),
        !(args@.len() == 1 && number_of(args@[0]) is Some) && !(args@.len() == 4 && number_of(
            args@[0],
        ) is Some && number_of(args@[1]) is Some && number_of(args@[2]) is Some && number_of(
            args@[3],
        ) is Some) ==> r is Err && r->Err_0.is_invalid_arguments(SPHERE_SIG@),
        r is Ok ==> r->Ok_0 is Sphere,
{
    if args.len() == 1 {
        if let Operand::Number(radius) = &args[0] {
            return Ok(
                Shape::Sphere(
                    KSphere::new(*radius, KNumber::I64(0), KNumber::I64(0), KNumber::I64(0)),
                ),
            );
        }
    } else if args.len() == 4 {
        if let (
            Operand::Number(radius),
            Operand::Number(x),
            Operand::Number(y),
            Operand::Number(z),
        ) = (&args[0], &args[1], &args[2], &args[3]) {
            return Ok(Shape::Sphere(KSphere::new(*radius, *x, *y, *z)));
        }
    }
    Err(ScriptError::InvalidArguments(SPHERE_SIG.to_owned()))
}

/// Both arguments of a two-shape constructor coerce.
pub open spec fn two_shapes(args: Seq<Operand>) -> bool {
    args.len() == 2 && operand_term(args[0]) is Some && operand_term(args[1]) is Some
}

/// `union(a, b)`.
pub fn union(args: &[Operand]) -> (r: Result<Shape, ScriptError>)
    ensures
        two_shapes(args@) ==> r is Ok && r->Ok_0 is Union && r->Ok_0.term() == Term::Union(
            seq![operand_term(args@[0])->0, operand_term(args@[1])->0],
        ),
        !two_shapes(args@) ==> r is Err && r->Err_0.is_invalid_arguments(BINARY_SIG@),
{
    if args.len() == 2 {
        if let (Some(a), Some(b)) = (maybe_tree(&args[0]), maybe_tree(&args[1])) {
            return Ok(Shape::Union(KUnion::new(a, b)));
        }
    }
    Err(ScriptError::InvalidArguments(BINARY_SIG.to_owned()))
}

/// `intersection(a, b)`.
pub fn intersection(args: &[Operand]) -> (r: Result<Shape, ScriptError>)
    ensures
        two_shapes(args@) ==> r is Ok && r->Ok_0 is Intersection && r->Ok_0.term()
            == Term::Intersection(seq![operand_term(args@[0])->0, operand_term(args@[1])->0]),
        !two_shapes(args@) ==> r is Err && r->Err_0.is_invalid_arguments(BINARY_SIG@),
{
    if args.len() == 2 {
        if let (Some(a), Some(b)) = (maybe_tree(&args[0]), maybe_tree(&args[1])) {
            return Ok(Shape::Intersection(KIntersection::new(a, b)));
        }
    }
    Err(ScriptError::InvalidArguments(BINARY_SIG.to_owned()))
}

/// `difference(shape, cutout)`.
pub fn difference(args: &[Operand]) -> (r: Result<Shape, ScriptError>)
    ensures
        two_shapes(args@) ==> r is Ok && r->Ok_0 is Difference && r->Ok_0.term()
            == Term::Difference(
            Box::new(operand_term(args@[0])->0),
            Box::new(operand_term(args@[1])->0),
        ),
        !two_shapes(args@) ==> r is Err && r->Err_0.is_invalid_arguments(BINARY_SIG@),
{
    if args.len() == 2 {
        if let (Some(a), Some(b)) = (maybe_tree(&args[0]), maybe_tree(&args[1])) {
            return Ok(Shape::Difference(KDifference::new(a, b)));
        }
    }
    Err(ScriptError::InvalidArguments(BINARY_SIG.to_owned()))
}

/// `inverse(shape)`.
pub fn inverse(args: &[Operand]) -> (r: Result<Shape, ScriptError>)
    ensures
        args@.len() == 1 && operand_term(args@[0]) is Some ==> r is Ok && r->Ok_0 is Inverse
            && r->Ok_0.term() == Term::Inverse(Box::new(operand_term(args@[0])->0)),
        !(args@.len() == 1 && operand_term(args@[0]) is Some) ==> r is Err
            && r->Err_0.is_invalid_arguments(UNARY_SIG@),
{
    if args.len() == 1 {
        if let Some(a) = maybe_tree(&args[0]) {
            return Ok(Shape::Inverse(KInverse::new(a)));
        }
    }
    Err(ScriptError::InvalidArguments(UNARY_SIG.to_owned()))
}

/// A shape and three numbers, as `move` and `scale` take them.
pub open spec fn shape_and_vector(args: Seq<Operand>) -> bool {
    args.len() == 4 && operand_term(args[0]) is Some && number_of(args[1]) is Some && number_of(
        args[2],
    ) is Some && number_of(args[3]) is Some
}

/// `move(shape, dx, dy, dz)`.
pub fn translate(args: &[Operand]) -> (r: Result<Shape, ScriptError>)
    ensures
        shape_and_vector(args@) ==> r is Ok && r->Ok_0 is Move && r->Ok_0.term() == Term::Move(
            Box::new(operand_term(args@[0])->0),
            number_of(args@[1])->0,
            number_of(args@[2])->0,
            number_of(args@[3])->0,
        ),
        !shape_and_vector(args@) ==> r is Err && r->Err_0.is_invalid_arguments(TRANSFORM_SIG@),
{
    if args.len() == 4 {
        if let (Operand::Number(x), Operand::Number(y), Operand::Number(z)) = (
            &args[1],
            &args[2],
            &args[3],
        ) {
            if let Some(a) = maybe_tree(&args[0]) {
                return Ok(Shape::Move(KMove::new(a, *x, *y, *z)));
            }
        }
    }
    Err(ScriptError::InvalidArguments(TRANSFORM_SIG.to_owned()))
}

/// `scale(shape, sx, sy, sz)`.
pub fn scale(args: &[Operand]) -> (r: Result<Shape, ScriptError>)
    ensures
        shape_and_vector(args@) ==> r is Ok && r->Ok_0 is Scale && r->Ok_0.term() == Term::Scale(
            Box::new(operand_term(args@[0])->0),
            number_of(args@[1])->0,
            number_of(args@[2])->0,
            number_of(args@[3])->0,
        ),
        !shape_and_vector(args@) ==> r is Err && r->Err_0.is_invalid_arguments(TRANSFORM_SIG@),
{
    if args.len() == 4 {
        if let (Operand::Number(x), Operand::Number(y), Operand::Number(z)) = (
            &args[1],
            &args[2],
            &args[3],
        ) {
            if let Some(a) = maybe_tree(&args[0]) {
                return Ok(Shape::Scale(KScale::new(a, *x, *y, *z)));
            }
        }
    }
    Err(ScriptError::InvalidArguments(TRANSFORM_SIG.to_owned()))
}

} // verus!
