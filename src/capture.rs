//! The shapes that a script draws, in the order it draws them.

use crate::builtins::number_of;
use crate::dispatch::{maybe_tree, operand_term, Operand};
use crate::error::ScriptError;
use crate::kernel::KTree;
use koto::runtime::KNumber;
use vstd::prelude::*;

verus! {

/// Signature of `draw`.
pub const DRAW_SIG: &'static str = "1 or 4 arguments: Tree|Number[, Number, Number, Number]";

/// `r` is a result that koto's multiplication of `a` by `b` may give.  A
/// relation, not a function: a float product that is not a number may differ
/// in sign and payload from one call to the next.
pub uninterp spec fn is_product(a: KNumber, b: KNumber, r: KNumber) -> bool;

/// The integer that koto's rounding of a number gives.
pub uninterp spec fn rounded(n: KNumber) -> i64;

/// Relies on koto's `Mul for KNumber`: the product of the two numbers, an
/// integer only when both are integers.
#[verifier::external_body]
fn number_mul(a: KNumber, b: KNumber) -> (r: KNumber)
    ensures
        is_product(a, b, r),
        r is I64 <==> (a is I64 && b is I64),
{
    a * b
}

/// Relies on koto's `KNumber::round`: the nearest integer, halves away from
/// zero, held as an integer; an integer is returned as it is.
pub assume_specification[ koto::runtime::KNumber::round ](n: koto::runtime::KNumber) -> (r:
    koto::runtime::KNumber)
    ensures
        r == koto::runtime::KNumber::I64(rounded(n)),
        n is I64 ==> r == n,
;

/// An integer held to the range of a color channel.
pub open spec fn clamp_channel(k: int) -> u8 {
    if k <= 0 {
        0
    } else if k >= 255 {
        255
    } else {
        k as u8
    }
}

/// `c` is the channel value of a color component given on the unit scale:
/// an integer at most zero gives 0 and one at least one gives 255; a float
/// is scaled to 255, rounded, and held to the channel's range.
pub open spec fn is_channel(n: KNumber, c: u8) -> bool {
    match n {
        KNumber::I64(i) => c == if i <= 0 {
            0u8
        } else {
            255u8
        },
        _ => exists|p: KNumber| is_product(n, KNumber::I64(255), p) && c == clamp_channel(
            rounded(p) as int,
        ),
    }
}

/// Converts one color component to its channel value.
pub fn to_u8(n: KNumber) -> (r: u8)
    ensures
        is_channel(n, r),
{
    match n {
        KNumber::I64(i) => if i <= 0 {
            0
        } else {
            255
        },
        _ => {
            let scaled = number_mul(n, KNumber::I64(255));
            match scaled.round() {
                KNumber::I64(k) => if k <= 0 {
                    0
                } else if k >= 255 {
                    255
                } else {
                    k as u8
                },
                _ => 0,
            }
        },
    }
}

/// A shape to render, with its color.
pub struct DrawShape {
    /// Tree to render.
    pub tree: KTree,
    /// Color to draw the shape in, as red, green and blue.
    pub color_rgb: [u8; 3],
}

/// Opaque white, the color of a shape drawn without one.
pub open spec fn white() -> Seq<u8> {
    seq![255u8, 255u8, 255u8]
}

/// The shapes that a script drew since the last clear.
pub struct ScriptContext {
    /// The drawn shapes, in the order of the calls.
    pub shapes: Vec<DrawShape>,
}

impl ScriptContext {
    /// An empty context.
    pub fn new() -> (r: ScriptContext)
        ensures
            r.shapes@.len() == 0,
    {
        ScriptContext { shapes: Vec::new() }
    }

    /// Forgets every drawn shape.
    pub fn clear(&mut self)
        ensures
            final(self).shapes@.len() == 0,
    {
        self.shapes.clear();
    }

    /// Appends a shape with its color.
    pub fn push(&mut self, tree: KTree, color_rgb: [u8; 3])
        ensures
            final(self).shapes@.len() == old(self).shapes@.len() + 1,
            final(self).shapes@.drop_last() == old(self).shapes@,
            final(self).shapes@.last().tree@ == tree@,
            final(self).shapes@.last().color_rgb@ == color_rgb@,
    {
        self.shapes.push(DrawShape { tree, color_rgb });
        assert(self.shapes@.drop_last() =~= old(self).shapes@);
    }

    /// `draw(shape)` or `draw(shape, r, g, b)`: appends the shape, white when
    /// no color is given.  On an error nothing is appended.
    pub fn draw(&mut self, args: &[Operand]) -> (r: Result<(), ScriptError>)
        ensures
            draw_accepts(args@) ==> r is Ok && final(self).shapes@.len() == old(self).shapes@.len()
                + 1 && final(self).shapes@.drop_last() == old(self).shapes@
                && final(self).shapes@.last().tree@ == operand_term(args@[0])->0
                && is_draw_color(args@, final(self).shapes@.last().color_rgb@),
            !draw_accepts(args@) ==> r is Err && r->Err_0.is_invalid_arguments(DRAW_SIG@)
                && final(self).shapes@ == old(self).shapes@,
    {
        if args.len() == 1 {
            if let Some(tree) = maybe_tree(&args[0]) {
                self.push(tree, [255u8, 255u8, 255u8]);
                return Ok(());
            }
        } else if args.len() == 4 {
            if let (Operand::Number(red), Operand::Number(green), Operand::Number(blue)) = (
                &args[1],
                &args[2],
                &args[3],
            ) {
                if let Some(tree) = maybe_tree(&args[0]) {
                    self.push(tree, [to_u8(*red), to_u8(*green), to_u8(*blue)]);
                    return Ok(());
                }
            }
        }
        Err(ScriptError::InvalidArguments(DRAW_SIG.to_owned()))
    }

    /// Moves the drawn shapes out, leaving the context empty.
    pub fn take(&mut self) -> (r: ScriptContext)
        ensures
            r.shapes@ == old(self).shapes@,
            final(self).shapes@.len() == 0,
    {
        let mut shapes: Vec<DrawShape> = Vec::new();
        std::mem::swap(&mut shapes, &mut self.shapes);
        ScriptContext { shapes }
    }
}

/// `draw` accepts these arguments.
pub open spec fn draw_accepts(args: Seq<Operand>) -> bool {
    ||| args.len() == 1 && operand_term(args[0]) is Some
    ||| args.len() == 4 && operand_term(args[0]) is Some && number_of(args[1]) is Some
        && number_of(args[2]) is Some && number_of(args[3]) is Some
}

/// `color` is a color that `draw` may give a shape for these arguments:
/// white without color arguments, else the channel value of each.
pub open spec fn is_draw_color(args: Seq<Operand>, color: Seq<u8>) -> bool {
    if args.len() == 4 {
        &&& color.len() == 3
        &&& is_channel(number_of(args[1])->0, color[0])
        &&& is_channel(number_of(args[2])->0, color[1])
        &&& is_channel(number_of(args[3])->0, color[2])
    } else {
        color == white()
    }
}

} // verus!
