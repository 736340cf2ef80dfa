//! The closed set of shape variants that scripts construct.
//!
//! Each variant keeps the arguments it was built from and lowers to a kernel
//! tree through the matching kernel constructor.

use crate::kernel::{
    kernel_circle, kernel_difference, kernel_intersection, kernel_inverse, kernel_move,
    kernel_scale, kernel_sphere, kernel_union, terms, KTree, Term,
};
use koto::runtime::KNumber;
use vstd::prelude::*;

verus! {

/// Copies a list of trees, keeping each one's term.
fn clone_trees(ts: &Vec<KTree>) -> (r: Vec<KTree>)
    ensures
        terms(r@) == terms(ts@),
{
    let mut r: Vec<KTree> = Vec::new();
    let mut i: usize = 0;
    while i < ts.len()
        invariant
            i <= ts.len(),
            r@.len() == i,
            forall|j: int| 0 <= j < i ==> #[trigger] r@[j]@ == ts@[j]@,
        decreases ts.len() - i,
    {
        r.push(ts[i].clone());
        i = i + 1;
    }
    assert(terms(r@) =~= terms(ts@));
    r
}

/// A 2D circle of the given radius and center.
pub struct KCircle {
    pub radius: KNumber,
    pub x: KNumber,
    pub y: KNumber,
}

impl KCircle {
    /// The circle with this radius, centered on `(x, y)`.
    pub fn new(radius: KNumber, x: KNumber, y: KNumber) -> (r: KCircle)
        ensures
            r.radius == radius,
            r.x == x,
            r.y == y,
    {
        KCircle { radius, x, y }
    }

    /// The tree that the circle lowers to.
    pub open spec fn term(&self) -> Term {
        Term::Circle(self.radius, self.x, self.y)
    }

    /// Lowers the circle to a kernel tree.
    pub fn to_tree(&self) -> (r: KTree)
        ensures
            r@ == self.term(),
    {
        kernel_circle(self.radius, self.x, self.y)
    }
}

/// A 3D sphere of the given radius and center.
pub struct KSphere {
    pub radius: KNumber,
    pub x: KNumber,
    pub y: KNumber,
    pub z: KNumber,
}

impl KSphere {
    /// The sphere with this radius, centered on `(x, y, z)`.
    pub fn new(radius: KNumber, x: KNumber, y: KNumber, z: KNumber) -> (r: KSphere)
        ensures
            r.radius == radius,
            r.x == x,
            r.y == y,
            r.z == z,
    {
        KSphere { radius, x, y, z }
    }

    /// The tree that the sphere lowers to.
    pub open spec fn term(&self) -> Term {
        Term::Sphere(self.radius, self.x, self.y, self.z)
    }

    /// Lowers the sphere to a kernel tree.
    pub fn to_tree(&self) -> (r: KTree)
        ensures
            r@ == self.term(),
    {
        kernel_sphere(self.radius, self.x, self.y, self.z)
    }
}

/// The union of an ordered list of shapes.
pub struct KUnion {
    pub input: Vec<KTree>,
}

impl KUnion {
    /// The union of `a` and `b`, in that order.
    pub fn new(a: KTree, b: KTree) -> (r: KUnion)
        ensures
            terms(r.input@) == seq![a@, b@],
    {
        let input = vec![a, b];
        assert(terms(input@) =~= seq![a@, b@]);
        KUnion { input }
    }

    /// The tree that the union lowers to.
    pub open spec fn term(&self) -> Term {
        Term::Union(terms(self.input@))
    }

    /// Lowers the union to a kernel tree.
    pub fn to_tree(&self) -> (r: KTree)
        ensures
            r@ == self.term(),
    {
        kernel_union(&self.input)
    }
}

/// The intersection of an ordered list of shapes.
pub struct KIntersection {
    pub input: Vec<KTree>,
}

impl KIntersection {
    /// The intersection of `a` and `b`, in that order.
    pub fn new(a: KTree, b: KTree) -> (r: KIntersection)
        ensures
            terms(r.input@) == seq![a@, b@],
    {
        let input = vec![a, b];
        assert(terms(input@) =~= seq![a@, b@]);
        KIntersection { input }
    }

    /// The tree that the intersection lowers to.
    pub open spec fn term(&self) -> Term {
        Term::Intersection(terms(self.input@))
    }

    /// Lowers the intersection to a kernel tree.
    pub fn to_tree(&self) -> (r: KTree)
        ensures
            r@ == self.term(),
    {
        kernel_intersection(&self.input)
    }
}

/// A shape with a cutout taken away from it.
pub struct KDifference {
    pub shape: KTree,
    pub cutout: KTree,
}

impl KDifference {
    /// `shape` without `cutout`.
    pub fn new(shape: KTree, cutout: KTree) -> (r: KDifference)
        ensures
            r.shape@ == shape@,
            r.cutout@ == cutout@,
    {
        KDifference { shape, cutout }
    }

    /// The tree that the difference lowers to.
    pub open spec fn term(&self) -> Term {
        Term::Difference(Box::new(self.shape@), Box::new(self.cutout@))
    }

    /// Lowers the difference to a kernel tree.
    pub fn to_tree(&self) -> (r: KTree)
        ensures
            r@ == self.term(),
    {
        kernel_difference(&self.shape, &self.cutout)
    }
}

/// The complement of a shape.
pub struct KInverse {
    pub shape: KTree,
}

impl KInverse {
    /// The complement of `shape`.
    pub fn new(shape: KTree) -> (r: KInverse)
        ensures
            r.shape@ == shape@,
    {
        KInverse { shape }
    }

    /// The tree that the inverse lowers to.
    pub open spec fn term(&self) -> Term {
        Term::Inverse(Box::new(self.shape@))
    }

    /// Lowers the inverse to a kernel tree.
    pub fn to_tree(&self) -> (r: KTree)
        ensures
            r@ == self.term(),
    {
        kernel_inverse(&self.shape)
    }
}

/// A shape moved by an offset.
pub struct KMove {
    pub shape: KTree,
    pub x: KNumber,
    pub y: KNumber,
    pub z: KNumber,
}

impl KMove {
    /// `shape` moved by `(x, y, z)`.
    pub fn new(shape: KTree, x: KNumber, y: KNumber, z: KNumber) -> (r: KMove)
        ensures
            r.shape@ == shape@,
            r.x == x,
            r.y == y,
            r.z == z,
    {
        KMove { shape, x, y, z }
    }

    /// The tree that the moved shape lowers to.
    pub open spec fn term(&self) -> Term {
        Term::Move(Box::new(self.shape@), self.x, self.y, self.z)
    }

    /// Lowers the moved shape to a kernel tree.
    pub fn to_tree(&self) -> (r: KTree)
        ensures
            r@ == self.term(),
    {
        kernel_move(&self.shape, self.x, self.y, self.z)
    }
}

/// A shape scaled by one factor for each axis.
pub struct KScale {
    pub shape: KTree,
    pub x: KNumber,
    pub y: KNumber,
    pub z: KNumber,
}

impl KScale {
    /// `shape` scaled by `(x, y, z)`.
    pub fn new(shape: KTree, x: KNumber, y: KNumber, z: KNumber) -> (r: KScale)
        ensures
            r.shape@ == shape@,
            r.x == x,
            r.y == y,
            r.z == z,
    {
        KScale { shape, x, y, z }
    }

    /// The tree that the scaled shape lowers to.
    pub open spec fn term(&self) -> Term {
        Term::Scale(Box::new(self.shape@), self.x, self.y, self.z)
    }

    /// Lowers the scaled shape to a kernel tree.
    pub fn to_tree(&self) -> (r: KTree)
        ensures
            r@ == self.term(),
    {
        kernel_scale(&self.shape, self.x, self.y, self.z)
    }
}

/// The sphere under its shorter name.
pub type Sphere = KSphere;

/// A value that a script can treat as a shape: a bare tree or one of the
/// shape variants.
pub enum Shape {
    Tree(KTree),
    Circle(KCircle),
    Sphere(KSphere),
    Union(KUnion),
    Intersection(KIntersection),
    Difference(KDifference),
    Inverse(KInverse),
    Move(KMove),
    Scale(KScale),
}

impl Shape {
    /// The tree that the shape lowers to.
    pub open spec fn term(&self) -> Term {
        match self {
            Shape::Tree(t) => t@,
            Shape::Circle(c) => c.term(),
            Shape::Sphere(s) => s.term(),
            Shape::Union(u) => u.term(),
            Shape::Intersection(i) => i.term(),
            Shape::Difference(d) => d.term(),
            Shape::Inverse(i) => i.term(),
            Shape::Move(m) => m.term(),
            Shape::Scale(s) => s.term(),
        }
    }

    /// Lowers the shape to a kernel tree; the shape itself is left as it is.
    pub fn to_tree(&self) -> (r: KTree)
        ensures
            r@ == self.term(),
    {
        match self {
            Shape::Tree(t) => t.clone(),
            Shape::Circle(c) => c.to_tree(),
            Shape::Sphere(s) => s.to_tree(),
            Shape::Union(u) => u.to_tree(),
            Shape::Intersection(i) => i.to_tree(),
            Shape::Difference(d) => d.to_tree(),
            Shape::Inverse(i) => i.to_tree(),
            Shape::Move(m) => m.to_tree(),
            Shape::Scale(s) => s.to_tree(),
        }
    }

    /// A copy of the shape, which lowers to the same tree.
    pub fn clone(&self) -> (r: Shape)
        ensures
            r.term() == self.term(),
            r.kind_name() == self.kind_name(),
    {
        match self {
            Shape::Tree(t) => Shape::Tree(t.clone()),
            Shape::Circle(c) => Shape::Circle(KCircle { radius: c.radius, x: c.x, y: c.y }),
            Shape::Sphere(s) => Shape::Sphere(KSphere { radius: s.radius, x: s.x, y: s.y, z: s.z }),
            Shape::Union(u) => Shape::Union(KUnion { input: clone_trees(&u.input) }),
            Shape::Intersection(i) => Shape::Intersection(
                KIntersection { input: clone_trees(&i.input) },
            ),
            Shape::Difference(d) => Shape::Difference(
                KDifference { shape: d.shape.clone(), cutout: d.cutout.clone() },
            ),
            Shape::Inverse(i) => Shape::Inverse(KInverse { shape: i.shape.clone() }),
            Shape::Move(m) => Shape::Move(KMove { shape: m.shape.clone(), x: m.x, y: m.y, z: m.z }),
            Shape::Scale(s) => Shape::Scale(
                KScale { shape: s.shape.clone(), x: s.x, y: s.y, z: s.z },
            ),
        }
    }

    /// The name that scripts see for the shape's type.
    pub open spec fn kind_name(&self) -> Seq<char> {
        match self {
            Shape::Tree(_) => "Tree"@,
            Shape::Circle(_) => "Circle"@,
            Shape::Sphere(_) => "Sphere"@,
            Shape::Union(_) => "Union"@,
            Shape::Intersection(_) => "Intersection"@,
            Shape::Difference(_) => "Difference"@,
            Shape::Inverse(_) => "Inverse"@,
            Shape::Move(_) => "Move"@,
            Shape::Scale(_) => "Scale"@,
        }
    }

    /// The name that scripts see for the shape's type.
    pub fn name(&self) -> (r: &'static str)
        ensures
            r@ == self.kind_name(),
    {
        match self {
            Shape::Tree(_) => "Tree",
            Shape::Circle(_) => "Circle",
            Shape::Sphere(_) => "Sphere",
            Shape::Union(_) => "Union",
            Shape::Intersection(_) => "Intersection",
            Shape::Difference(_) => "Difference",
            Shape::Inverse(_) => "Inverse",
            Shape::Move(_) => "Move",
            Shape::Scale(_) => "Scale",
        }
    }
}

} // verus!
