//! The geometry kernel's expression trees, as this library sees them.
//!
//! A kernel `Tree` is opaque.  Each [`KTree`] carries, beside the kernel's
//! tree, a ghost [`Term`] that records which kernel constructors built it.
//! Every `KTree` is made by one of the trusted constructors of this module,
//! each of which makes exactly one kernel call, or is a copy of another.

use fidget::context::Tree;
use fidget::shapes::types::{Vec2, Vec3};
use fidget::shapes::{Circle, Difference, Intersection, Inverse, Move, Scale, Sphere, Union};
use koto::runtime::KNumber;
use vstd::prelude::*;

verus! {

/// fidget's expression tree, carried without looking inside.
#[verifier::external_type_specification]
#[verifier::external_body]
pub struct ExTree(fidget::context::Tree);

/// koto's number, an integer or a float; the library reads only which of the
/// two it is and the integer's value.
#[verifier::external_type_specification]
pub struct ExKNumber(koto::runtime::KNumber);

/// One of the three coordinate axes.
#[derive(Clone, Copy, Debug, PartialEq, Eq, Structural)]
pub enum Axis {
    X,
    Y,
    Z,
}

/// The kernel's unary operations that scripts can reach.
#[derive(Clone, Copy, Debug, PartialEq, Eq, Structural)]
pub enum UnaryOp {
    Neg,
    Abs,
    Sqrt,
    Square,
    Sin,
    Cos,
    Tan,
    Asin,
    Acos,
    Atan,
    Exp,
    Ln,
    Not,
    Ceil,
    Floor,
    Round,
}

/// The kernel's binary operations that scripts can reach.
#[derive(Clone, Copy, Debug, PartialEq, Eq, Structural)]
pub enum BinaryOp {
    Add,
    Sub,
    Mul,
    Div,
    Mod,
    Min,
    Max,
    Compare,
    And,
    Or,
    Atan2,
}

/// The kernel constructors that built a tree.
pub enum Term {
    Axis(Axis),
    Constant(KNumber),
    Unary(UnaryOp, Box<Term>),
    Binary(BinaryOp, Box<Term>, Box<Term>),
    Power(Box<Term>, i64),
    Remap(Box<Term>, Box<Term>, Box<Term>, Box<Term>),
    Circle(KNumber, KNumber, KNumber),
    Sphere(KNumber, KNumber, KNumber, KNumber),
    Union(Seq<Term>),
    Intersection(Seq<Term>),
    Difference(Box<Term>, Box<Term>),
    Inverse(Box<Term>),
    Move(Box<Term>, KNumber, KNumber, KNumber),
    Scale(Box<Term>, KNumber, KNumber, KNumber),
}

/// A kernel tree together with the record of how it was built.
pub struct KTree {
    tree: Tree,
    term: Ghost<Term>,
}

/// The tree wrapper under the name that script models use.
pub type TreeObject = KTree;

impl View for KTree {
    type V = Term;

    closed spec fn view(&self) -> Term {
        self.term@
    }
}


/// Relies on the derived `Clone` of fidget's `Tree`, which copies the shared
/// handle to the same node.
pub assume_specification[ <fidget::context::Tree as Clone>::clone ](
    t: &fidget::context::Tree,
) -> (r: fidget::context::Tree)
    ensures
        r == *t,
;

impl KTree {
    /// A second handle to the same kernel tree.
    pub fn clone(&self) -> (r: KTree)
        ensures
            r@ == self@,
            r.kernel_tree() == self.kernel_tree(),
    {
        KTree { tree: self.tree.clone(), term: self.term }
    }

    /// The kernel tree held.
    pub closed spec fn kernel_tree(&self) -> Tree {
        self.tree
    }

    /// The kernel tree itself.
    pub fn inner(&self) -> (r: Tree)
        ensures
            r == self.kernel_tree(),
    {
        self.tree.clone()
    }
}

/// Relies on fidget's `Tree::x`: the input node of the `x` axis.
#[verifier::external_body]
pub(crate) fn kernel_x() -> (r: KTree)
    ensures
        r@ == Term::Axis(Axis::X),
{
    KTree { tree: Tree::x(), term: Ghost(Term::Axis(Axis::X)) }
}

/// Relies on fidget's `Tree::y`: the input node of the `y` axis.
#[verifier::external_body]
pub(crate) fn kernel_y() -> (r: KTree)
    ensures
        r@ == Term::Axis(Axis::Y),
{
    KTree { tree: Tree::y(), term: Ghost(Term::Axis(Axis::Y)) }
}

/// Relies on fidget's `Tree::z`: the input node of the `z` axis.
#[verifier::external_body]
pub(crate) fn kernel_z() -> (r: KTree)
    ensures
        r@ == Term::Axis(Axis::Z),
{
    KTree { tree: Tree::z(), term: Ghost(Term::Axis(Axis::Z)) }
}

/// Relies on fidget's `Tree::constant`: a constant leaf holding the number,
/// converted by koto's `From<KNumber>` for the kernel's float type.
#[verifier::external_body]
pub(crate) fn kernel_constant(n: KNumber) -> (r: KTree)
    ensures
        r@ == Term::Constant(n),
{
    KTree { tree: Tree::constant(n.into()), term: Ghost(Term::Constant(n)) }
}

/// Relies on fidget's `Tree::pow`: `a` raised to the integer power `n`.  The
/// call negates a negative `n`, so the least `i64` is left out.
#[verifier::external_body]
pub(crate) fn kernel_pow(a: &KTree, n: i64) -> (r: KTree)
    requires
        n != i64::MIN,
    ensures
        r@ == Term::Power(Box::new(a@), n),
{
    KTree { tree: a.tree.pow(n), term: Ghost(Term::Power(Box::new(a@), n)) }
}

/// Relies on fidget's `Tree::remap_xyz`: `a` with its axes replaced by `x`, `y`
/// and `z`.
#[verifier::external_body]
pub(crate) fn kernel_remap_xyz(a: &KTree, x: &KTree, y: &KTree, z: &KTree) -> (r: KTree)
    ensures
        r@ == Term::Remap(Box::new(a@), Box::new(x@), Box::new(y@), Box::new(z@)),
{
    KTree {
        tree: a.tree.remap_xyz(x.tree.clone(), y.tree.clone(), z.tree.clone()),
        term: Ghost(Term::Remap(Box::new(a@), Box::new(x@), Box::new(y@), Box::new(z@))),
    }
}

/// Relies on fidget's `From<Circle> for Tree`: the distance field of the circle
/// with this radius and center.
#[verifier::external_body]
pub(crate) fn kernel_circle(radius: KNumber, x: KNumber, y: KNumber) -> (r: KTree)
    ensures
        r@ == Term::Circle(radius, x, y),
{
    let circle = Circle { center: Vec2::new(x.into(), y.into()), radius: radius.into() };
    KTree { tree: Tree::from(circle), term: Ghost(Term::Circle(radius, x, y)) }
}

/// Relies on fidget's `From<Sphere> for Tree`: the distance field of the sphere
/// with this radius and center.
#[verifier::external_body]
pub(crate) fn kernel_sphere(radius: KNumber, x: KNumber, y: KNumber, z: KNumber) -> (r: KTree)
    ensures
        r@ == Term::Sphere(radius, x, y, z),
{
    let sphere = Sphere {
        center: Vec3::new(x.into(), y.into(), z.into()),
        radius: radius.into(),
    };
    KTree { tree: Tree::from(sphere), term: Ghost(Term::Sphere(radius, x, y, z)) }
}

/// The terms of a list of trees, in order.
pub open spec fn terms(ts: Seq<KTree>) -> Seq<Term> {
    ts.map_values(|t: KTree| t@)
}

/// Relies on fidget's `From<Union> for Tree`: the union of the inputs, in order.
#[verifier::external_body]
pub(crate) fn kernel_union(input: &Vec<KTree>) -> (r: KTree)
    ensures
        r@ == Term::Union(terms(input@)),
{
    let union = Union { input: input.iter().map(|t| t.tree.clone()).collect() };
    KTree { tree: Tree::from(union), term: Ghost(Term::Union(terms(input@))) }
}

/// Relies on fidget's `From<Intersection> for Tree`: the intersection of the
/// inputs, in order.
#[verifier::external_body]
pub(crate) fn kernel_intersection(input: &Vec<KTree>) -> (r: KTree)
    ensures
        r@ == Term::Intersection(terms(input@)),
{
    let intersection = Intersection { input: input.iter().map(|t| t.tree.clone()).collect() };
    KTree { tree: Tree::from(intersection), term: Ghost(Term::Intersection(terms(input@))) }
}

/// Relies on fidget's `From<Difference> for Tree`: `shape` with `cutout` taken
/// away.
#[verifier::external_body]
pub(crate) fn kernel_difference(shape: &KTree, cutout: &KTree) -> (r: KTree)
    ensures
        r@ == Term::Difference(Box::new(shape@), Box::new(cutout@)),
{
    let difference = Difference { shape: shape.tree.clone(), cutout: cutout.tree.clone() };
    KTree {
        tree: Tree::from(difference),
        term: Ghost(Term::Difference(Box::new(shape@), Box::new(cutout@))),
    }
}

/// Relies on fidget's `From<Inverse> for Tree`: the complement of `shape`.
#[verifier::external_body]
pub(crate) fn kernel_inverse(shape: &KTree) -> (r: KTree)
    ensures
        r@ == Term::Inverse(Box::new(shape@)),
{
    let inverse = Inverse { shape: shape.tree.clone() };
    KTree { tree: Tree::from(inverse), term: Ghost(Term::Inverse(Box::new(shape@))) }
}

/// Relies on fidget's `From<Move> for Tree`: `shape` moved by the offset.
#[verifier::external_body]
pub(crate) fn kernel_move(shape: &KTree, x: KNumber, y: KNumber, z: KNumber) -> (r: KTree)
    ensures
        r@ == Term::Move(Box::new(shape@), x, y, z),
{
    let moved = Move { shape: shape.tree.clone(), offset: Vec3::new(x.into(), y.into(), z.into()) };
    KTree { tree: Tree::from(moved), term: Ghost(Term::Move(Box::new(shape@), x, y, z)) }
}

/// Relies on fidget's `From<Scale> for Tree`: `shape` scaled by the factors, one
/// for each axis.
#[verifier::external_body]
pub(crate) fn kernel_scale(shape: &KTree, x: KNumber, y: KNumber, z: KNumber) -> (r: KTree)
    ensures
        r@ == Term::Scale(Box::new(shape@), x, y, z),
{
    let scaled = Scale { shape: shape.tree.clone(), scale: Vec3::new(x.into(), y.into(), z.into()) };
    KTree { tree: Tree::from(scaled), term: Ghost(Term::Scale(Box::new(shape@), x, y, z)) }
}

/// Relies on fidget's `Tree::neg`: a new node applying `Neg` to `a`.
#[verifier::external_body]
pub(crate) fn kernel_neg(a: &KTree) -> (r: KTree)
    ensures
        r@ == Term::Unary(UnaryOp::Neg, Box::new(a@)),
{
    KTree { tree: a.tree.neg(), term: Ghost(Term::Unary(UnaryOp::Neg, Box::new(a@))) }
}

/// Relies on fidget's `Tree::abs`: a new node applying `Abs` to `a`.
#[verifier::external_body]
pub(crate) fn kernel_abs(a: &KTree) -> (r: KTree)
    ensures
        r@ == Term::Unary(UnaryOp::Abs, Box::new(a@)),
{
    KTree { tree: a.tree.abs(), term: Ghost(Term::Unary(UnaryOp::Abs, Box::new(a@))) }
}

/// Relies on fidget's `Tree::sqrt`: a new node applying `Sqrt` to `a`.
#[verifier::external_body]
pub(crate) fn kernel_sqrt(a: &KTree) -> (r: KTree)
    ensures
        r@ == Term::Unary(UnaryOp::Sqrt, Box::new(a@)),
{
    KTree { tree: a.tree.sqrt(), term: Ghost(Term::Unary(UnaryOp::Sqrt, Box::new(a@))) }
}

/// Relies on fidget's `Tree::square`: a new node applying `Square` to `a`.
#[verifier::external_body]
pub(crate) fn kernel_square(a: &KTree) -> (r: KTree)
    ensures
        r@ == Term::Unary(UnaryOp::Square, Box::new(a@)),
{
    KTree { tree: a.tree.square(), term: Ghost(Term::Unary(UnaryOp::Square, Box::new(a@))) }
}

/// Relies on fidget's `Tree::sin`: a new node applying `Sin` to `a`.
#[verifier::external_body]
pub(crate) fn kernel_sin(a: &KTree) -> (r: KTree)
    ensures
        r@ == Term::Unary(UnaryOp::Sin, Box::new(a@)),
{
    KTree { tree: a.tree.sin(), term: Ghost(Term::Unary(UnaryOp::Sin, Box::new(a@))) }
}

/// Relies on fidget's `Tree::cos`: a new node applying `Cos` to `a`.
#[verifier::external_body]
pub(crate) fn kernel_cos(a: &KTree) -> (r: KTree)
    ensures
        r@ == Term::Unary(UnaryOp::Cos, Box::new(a@)),
{
    KTree { tree: a.tree.cos(), term: Ghost(Term::Unary(UnaryOp::Cos, Box::new(a@))) }
}

/// Relies on fidget's `Tree::tan`: a new node applying `Tan` to `a`.
#[verifier::external_body]
pub(crate) fn kernel_tan(a: &KTree) -> (r: KTree)
    ensures
        r@ == Term::Unary(UnaryOp::Tan, Box::new(a@)),
{
    KTree { tree: a.tree.tan(), term: Ghost(Term::Unary(UnaryOp::Tan, Box::new(a@))) }
}

/// Relies on fidget's `Tree::asin`: a new node applying `Asin` to `a`.
#[verifier::external_body]
pub(crate) fn kernel_asin(a: &KTree) -> (r: KTree)
    ensures
        r@ == Term::Unary(UnaryOp::Asin, Box::new(a@)),
{
    KTree { tree: a.tree.asin(), term: Ghost(Term::Unary(UnaryOp::Asin, Box::new(a@))) }
}

/// Relies on fidget's `Tree::acos`: a new node applying `Acos` to `a`.
#[verifier::external_body]
pub(crate) fn kernel_acos(a: &KTree) -> (r: KTree)
    ensures
        r@ == Term::Unary(UnaryOp::Acos, Box::new(a@)),
{
    KTree { tree: a.tree.acos(), term: Ghost(Term::Unary(UnaryOp::Acos, Box::new(a@))) }
}

/// Relies on fidget's `Tree::atan`: a new node applying `Atan` to `a`.
#[verifier::external_body]
pub(crate) fn kernel_atan(a: &KTree) -> (r: KTree)
    ensures
        r@ == Term::Unary(UnaryOp::Atan, Box::new(a@)),
{
    KTree { tree: a.tree.atan(), term: Ghost(Term::Unary(UnaryOp::Atan, Box::new(a@))) }
}

/// Relies on fidget's `Tree::exp`: a new node applying `Exp` to `a`.
#[verifier::external_body]
pub(crate) fn kernel_exp(a: &KTree) -> (r: KTree)
    ensures
        r@ == Term::Unary(UnaryOp::Exp, Box::new(a@)),
{
    KTree { tree: a.tree.exp(), term: Ghost(Term::Unary(UnaryOp::Exp, Box::new(a@))) }
}

/// Relies on fidget's `Tree::ln`: a new node applying `Ln` to `a`.
#[verifier::external_body]
pub(crate) fn kernel_ln(a: &KTree) -> (r: KTree)
    ensures
        r@ == Term::Unary(UnaryOp::Ln, Box::new(a@)),
{
    KTree { tree: a.tree.ln(), term: Ghost(Term::Unary(UnaryOp::Ln, Box::new(a@))) }
}

/// Relies on fidget's `Tree::not`: a new node applying `Not` to `a`.
#[verifier::external_body]
pub(crate) fn kernel_not(a: &KTree) -> (r: KTree)
    ensures
        r@ == Term::Unary(UnaryOp::Not, Box::new(a@)),
{
    KTree { tree: a.tree.not(), term: Ghost(Term::Unary(UnaryOp::Not, Box::new(a@))) }
}

/// Relies on fidget's `Tree::ceil`: a new node applying `Ceil` to `a`.
#[verifier::external_body]
pub(crate) fn kernel_ceil(a: &KTree) -> (r: KTree)
    ensures
        r@ == Term::Unary(UnaryOp::Ceil, Box::new(a@)),
{
    KTree { tree: a.tree.ceil(), term: Ghost(Term::Unary(UnaryOp::Ceil, Box::new(a@))) }
}

/// Relies on fidget's `Tree::floor`: a new node applying `Floor` to `a`.
#[verifier::external_body]
pub(crate) fn kernel_floor(a: &KTree) -> (r: KTree)
    ensures
        r@ == Term::Unary(UnaryOp::Floor, Box::new(a@)),
{
    KTree { tree: a.tree.floor(), term: Ghost(Term::Unary(UnaryOp::Floor, Box::new(a@))) }
}

/// Relies on fidget's `Tree::round`: a new node applying `Round` to `a`.
#[verifier::external_body]
pub(crate) fn kernel_round(a: &KTree) -> (r: KTree)
    ensures
        r@ == Term::Unary(UnaryOp::Round, Box::new(a@)),
{
    KTree { tree: a.tree.round(), term: Ghost(Term::Unary(UnaryOp::Round, Box::new(a@))) }
}

/// Relies on fidget's the `Add` operator on `Tree`: a new node applying `Add` to `a` and `b`, in that order.
#[verifier::external_body]
pub(crate) fn kernel_add(a: &KTree, b: &KTree) -> (r: KTree)
    ensures
        r@ == Term::Binary(BinaryOp::Add, Box::new(a@), Box::new(b@)),
{
    KTree {
        tree: a.tree.clone() + b.tree.clone(),
        term: Ghost(Term::Binary(BinaryOp::Add, Box::new(a@), Box::new(b@))),
    }
}

/// Relies on fidget's the `Sub` operator on `Tree`: a new node applying `Sub` to `a` and `b`, in that order.
#[verifier::external_body]
pub(crate) fn kernel_sub(a: &KTree, b: &KTree) -> (r: KTree)
    ensures
        r@ == Term::Binary(BinaryOp::Sub, Box::new(a@), Box::new(b@)),
{
    KTree {
        tree: a.tree.clone() - b.tree.clone(),
        term: Ghost(Term::Binary(BinaryOp::Sub, Box::new(a@), Box::new(b@))),
    }
}

/// Relies on fidget's the `Mul` operator on `Tree`: a new node applying `Mul` to `a` and `b`, in that order.
#[verifier::external_body]
pub(crate) fn kernel_mul(a: &KTree, b: &KTree) -> (r: KTree)
    ensures
        r@ == Term::Binary(BinaryOp::Mul, Box::new(a@), Box::new(b@)),
{
    KTree {
        tree: a.tree.clone() * b.tree.clone(),
        term: Ghost(Term::Binary(BinaryOp::Mul, Box::new(a@), Box::new(b@))),
    }
}

/// Relies on fidget's the `Div` operator on `Tree`: a new node applying `Div` to `a` and `b`, in that order.
#[verifier::external_body]
pub(crate) fn kernel_div(a: &KTree, b: &KTree) -> (r: KTree)
    ensures
        r@ == Term::Binary(BinaryOp::Div, Box::new(a@), Box::new(b@)),
{
    KTree {
        tree: a.tree.clone() / b.tree.clone(),
        term: Ghost(Term::Binary(BinaryOp::Div, Box::new(a@), Box::new(b@))),
    }
}

/// Relies on fidget's `Tree::modulo`: a new node applying `Mod` to `a` and `b`, in that order.
#[verifier::external_body]
pub(crate) fn kernel_modulo(a: &KTree, b: &KTree) -> (r: KTree)
    ensures
        r@ == Term::Binary(BinaryOp::Mod, Box::new(a@), Box::new(b@)),
{
    KTree {
        tree: a.tree.modulo(b.tree.clone()),
        term: Ghost(Term::Binary(BinaryOp::Mod, Box::new(a@), Box::new(b@))),
    }
}

/// Relies on fidget's `Tree::min`: a new node applying `Min` to `a` and `b`, in that order.
#[verifier::external_body]
pub(crate) fn kernel_min(a: &KTree, b: &KTree) -> (r: KTree)
    ensures
        r@ == Term::Binary(BinaryOp::Min, Box::new(a@), Box::new(b@)),
{
    KTree {
        tree: a.tree.min(b.tree.clone()),
        term: Ghost(Term::Binary(BinaryOp::Min, Box::new(a@), Box::new(b@))),
    }
}

/// Relies on fidget's `Tree::max`: a new node applying `Max` to `a` and `b`, in that order.
#[verifier::external_body]
pub(crate) fn kernel_max(a: &KTree, b: &KTree) -> (r: KTree)
    ensures
        r@ == Term::Binary(BinaryOp::Max, Box::new(a@), Box::new(b@)),
{
    KTree {
        tree: a.tree.max(b.tree.clone()),
        term: Ghost(Term::Binary(BinaryOp::Max, Box::new(a@), Box::new(b@))),
    }
}

/// Relies on fidget's `Tree::compare`: a new node applying `Compare` to `a` and `b`, in that order.
#[verifier::external_body]
pub(crate) fn kernel_compare(a: &KTree, b: &KTree) -> (r: KTree)
    ensures
        r@ == Term::Binary(BinaryOp::Compare, Box::new(a@), Box::new(b@)),
{
    KTree {
        tree: a.tree.compare(b.tree.clone()),
        term: Ghost(Term::Binary(BinaryOp::Compare, Box::new(a@), Box::new(b@))),
    }
}

/// Relies on fidget's `Tree::and`: a new node applying `And` to `a` and `b`, in that order.
#[verifier::external_body]
pub(crate) fn kernel_and(a: &KTree, b: &KTree) -> (r: KTree)
    ensures
        r@ == Term::Binary(BinaryOp::And, Box::new(a@), Box::new(b@)),
{
    KTree {
        tree: a.tree.and(b.tree.clone()),
        term: Ghost(Term::Binary(BinaryOp::And, Box::new(a@), Box::new(b@))),
    }
}

/// Relies on fidget's `Tree::or`: a new node applying `Or` to `a` and `b`, in that order.
#[verifier::external_body]
pub(crate) fn kernel_or(a: &KTree, b: &KTree) -> (r: KTree)
    ensures
        r@ == Term::Binary(BinaryOp::Or, Box::new(a@), Box::new(b@)),
{
    KTree {
        tree: a.tree.or(b.tree.clone()),
        term: Ghost(Term::Binary(BinaryOp::Or, Box::new(a@), Box::new(b@))),
    }
}

/// Relies on fidget's `Tree::atan2`: a new node applying `Atan2` to `a` and `b`, in that order.
#[verifier::external_body]
pub(crate) fn kernel_atan2(a: &KTree, b: &KTree) -> (r: KTree)
    ensures
        r@ == Term::Binary(BinaryOp::Atan2, Box::new(a@), Box::new(b@)),
{
    KTree {
        tree: a.tree.atan2(b.tree.clone()),
        term: Ghost(Term::Binary(BinaryOp::Atan2, Box::new(a@), Box::new(b@))),
    }
}

} // verus!
