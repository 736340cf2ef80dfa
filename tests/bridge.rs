use fidget::context::Tree;
use fidget::shape::EzShape;
use fidget::vm::VmShape;
use fidget_koto::{
    apply_binary, apply_unary, axes, binary_fn, binary_method, binary_op, binary_op_rhs,
    compare_op, maybe_tree, negate, power, remap_xyz, unary_fn, unary_method, BinaryOp, KTree,
    Operand, Relation, ScriptError, Shape, UnaryOp,
};
use koto::runtime::KNumber;

fn sample(t: &KTree, x: f32, y: f32, z: f32) -> f32 {
    let shape = VmShape::from(t.inner());
    let mut eval = VmShape::new_point_eval();
    let tape = shape.ez_point_tape();
    eval.eval(&tape, x, y, z).unwrap().0
}

fn integer(i: i64) -> Operand {
    Operand::Number(KNumber::I64(i))
}

fn float(f: f64) -> Operand {
    Operand::Number(KNumber::F64(f))
}

fn tree(t: KTree) -> Operand {
    Operand::Shape(Shape::Tree(t))
}

const POINTS: [(f32, f32, f32); 4] = [
    (0.0, 0.0, 0.0),
    (1.5, -2.0, 3.0),
    (-7.0, 0.25, 10.0),
    (5.0, 5.0, -5.0),
];

#[test]
fn constant_operands_sample_to_their_arithmetic() {
    let cases: [(BinaryOp, f32); 6] = [
        (BinaryOp::Add, 5.5),
        (BinaryOp::Sub, -1.5),
        (BinaryOp::Mul, 7.0),
        (BinaryOp::Div, 2.0 / 3.5),
        (BinaryOp::Min, 2.0),
        (BinaryOp::Max, 3.5),
    ];
    for (op, expected) in cases {
        let t = binary_fn(op, &[integer(2), float(3.5)]).unwrap();
        for (x, y, z) in POINTS {
            assert_eq!(sample(&t, x, y, z), expected, "{:?}", op);
        }
    }
}

#[test]
fn tree_minus_itself_samples_to_zero() {
    let (x, y, z) = axes();
    let t = apply_binary(BinaryOp::Add, &apply_binary(BinaryOp::Mul, &x, &y), &apply_unary(UnaryOp::Sin, &z));
    let diff = binary_op(BinaryOp::Sub, &Shape::Tree(t.clone()), &tree(t)).unwrap();
    for (px, py, pz) in POINTS {
        assert_eq!(sample(&diff, px, py, pz), 0.0);
    }
}

#[test]
fn number_minus_tree_keeps_the_number_on_the_left() {
    let t = binary_op_rhs(BinaryOp::Sub, &Shape::Tree(KTree::x()), &integer(2)).unwrap();
    assert_eq!(sample(&t, 5.0, 0.0, 0.0), -3.0);
    assert!(t.inner() == Tree::constant(2.0) - Tree::x());
    assert!(t.inner() != Tree::x() - Tree::constant(2.0));
    let other = binary_op(BinaryOp::Add, &Shape::Tree(negate(&Shape::Tree(KTree::x()))), &integer(2)).unwrap();
    assert_eq!(sample(&other, 5.0, 0.0, 0.0), -3.0);
}

#[test]
fn right_hand_dispatch_matches_free_function() {
    for op in [BinaryOp::Sub, BinaryOp::Div, BinaryOp::Mod, BinaryOp::Atan2] {
        let a = binary_op_rhs(op, &Shape::Tree(KTree::y()), &float(1.25)).unwrap();
        let b = binary_fn(op, &[float(1.25), tree(KTree::y())]).unwrap();
        assert!(a.inner() == b.inner(), "{:?}", op);
    }
}

#[test]
fn right_hand_dispatch_needs_a_number() {
    match binary_op_rhs(BinaryOp::Add, &Shape::Tree(KTree::x()), &Operand::Other) {
        Err(ScriptError::TypeMismatch(m)) => assert_eq!(m, "Number"),
        _ => panic!("expected a type mismatch"),
    }
}

#[test]
fn relational_operators_are_refused() {
    let relations = [
        Relation::Less,
        Relation::LessOrEqual,
        Relation::Greater,
        Relation::GreaterOrEqual,
        Relation::Equal,
        Relation::NotEqual,
    ];
    for rel in relations {
        match compare_op(rel, &Shape::Tree(KTree::x()), &tree(KTree::y())) {
            Err(ScriptError::UnsupportedOperation(m)) => {
                assert_eq!(m, "cannot compare Tree types during function tracing")
            }
            _ => panic!("expected an unsupported operation"),
        }
    }
}

#[test]
fn unary_ops_build_the_kernel_nodes() {
    let x = Tree::x();
    let cases: [(UnaryOp, Tree); 16] = [
        (UnaryOp::Neg, x.neg()),
        (UnaryOp::Abs, x.abs()),
        (UnaryOp::Sqrt, x.sqrt()),
        (UnaryOp::Square, x.square()),
        (UnaryOp::Sin, x.sin()),
        (UnaryOp::Cos, x.cos()),
        (UnaryOp::Tan, x.tan()),
        (UnaryOp::Asin, x.asin()),
        (UnaryOp::Acos, x.acos()),
        (UnaryOp::Atan, x.atan()),
        (UnaryOp::Exp, x.exp()),
        (UnaryOp::Ln, x.ln()),
        (UnaryOp::Not, x.not()),
        (UnaryOp::Ceil, x.ceil()),
        (UnaryOp::Floor, x.floor()),
        (UnaryOp::Round, x.round()),
    ];
    for (op, expected) in cases {
        let t = apply_unary(op, &KTree::x());
        assert!(t.inner() == expected, "{:?}", op);
        assert!(t.inner() != Tree::x(), "{:?}", op);
    }
}

#[test]
fn binary_ops_build_the_kernel_nodes() {
    let (x, y) = (Tree::x(), Tree::y());
    let cases: [(BinaryOp, Tree); 11] = [
        (BinaryOp::Add, x.clone() + y.clone()),
        (BinaryOp::Sub, x.clone() - y.clone()),
        (BinaryOp::Mul, x.clone() * y.clone()),
        (BinaryOp::Div, x.clone() / y.clone()),
        (BinaryOp::Mod, x.modulo(y.clone())),
        (BinaryOp::Min, x.min(y.clone())),
        (BinaryOp::Max, x.max(y.clone())),
        (BinaryOp::Compare, x.compare(y.clone())),
        (BinaryOp::And, x.and(y.clone())),
        (BinaryOp::Or, x.or(y.clone())),
        (BinaryOp::Atan2, x.atan2(y.clone())),
    ];
    for (op, expected) in cases {
        let t = apply_binary(op, &KTree::x(), &KTree::y());
        assert!(t.inner() == expected, "{:?}", op);
        let swapped = apply_binary(op, &KTree::y(), &KTree::x());
        assert!(swapped.inner() != expected, "{:?}", op);
    }
}

#[test]
fn axes_are_x_y_z() {
    let (x, y, z) = axes();
    assert!(x.inner() == Tree::x());
    assert!(y.inner() == Tree::y());
    assert!(z.inner() == Tree::z());
    assert!(KTree::z().inner() == Tree::z());
}

#[test]
fn numbers_coerce_to_constants() {
    let t = maybe_tree(&float(0.5)).unwrap();
    assert!(t.inner() == Tree::constant(0.5));
    assert_eq!(sample(&t, 1.0, 2.0, 3.0), 0.5);
    assert!(maybe_tree(&Operand::Other).is_none());
}

#[test]
fn unary_function_checks_its_arguments() {
    let t = unary_fn(UnaryOp::Abs, &[integer(-3)]).unwrap();
    assert_eq!(sample(&t, 0.0, 0.0, 0.0), 3.0);
    for args in [vec![], vec![integer(1), integer(2)], vec![Operand::Other]] {
        match unary_fn(UnaryOp::Abs, &args) {
            Err(ScriptError::InvalidArguments(m)) => assert_eq!(m, "1 argument: Tree | Number"),
            _ => panic!("expected invalid arguments"),
        }
    }
}

#[test]
fn binary_function_checks_its_arguments() {
    for args in [vec![integer(1)], vec![integer(1), Operand::Other], vec![Operand::Other, integer(1)]] {
        match binary_fn(BinaryOp::Min, &args) {
            Err(ScriptError::InvalidArguments(m)) => {
                assert_eq!(m, "2 arguments: Tree|Number, Tree|Number")
            }
            _ => panic!("expected invalid arguments"),
        }
    }
}

#[test]
fn methods_take_the_receiver_on_the_left() {
    let t = binary_method(BinaryOp::Max, &Shape::Tree(KTree::x()), &[integer(1)]).unwrap();
    assert!(t.inner() == Tree::x().max(Tree::constant(1.0)));
    match binary_method(BinaryOp::Max, &Shape::Tree(KTree::x()), &[]) {
        Err(ScriptError::InvalidArguments(m)) => assert_eq!(m, "1 argument: Tree|Number"),
        _ => panic!("expected invalid arguments"),
    }
    let s = unary_method(UnaryOp::Square, &Shape::Tree(KTree::y()));
    assert!(s.inner() == Tree::y().square());
}

#[test]
fn power_needs_an_integer_exponent() {
    let t = power(&Shape::Tree(KTree::x()), &integer(3)).unwrap();
    assert!(t.inner() == Tree::x().pow(3));
    assert_eq!(sample(&t, 2.0, 0.0, 0.0), 8.0);
    match power(&Shape::Tree(KTree::x()), &float(2.5)) {
        Err(ScriptError::TypeMismatch(m)) => assert_eq!(m, "Integer"),
        _ => panic!("expected a type mismatch"),
    }
    let inverse = power(&Shape::Tree(KTree::x()), &integer(-2)).unwrap();
    assert_eq!(sample(&inverse, 2.0, 0.0, 0.0), 0.25);
    assert!(power(&Shape::Tree(KTree::x()), &integer(i64::MIN)).is_err());
    assert!(power(&Shape::Tree(KTree::x()), &Operand::Other).is_err());
}

#[test]
fn compound_assignment_replaces_the_tree() {
    let mut t = KTree::x();
    t.binary_assign(BinaryOp::Mul, &integer(4)).unwrap();
    assert!(t.inner() == Tree::x() * Tree::constant(4.0));
    t.power_assign(&integer(2)).unwrap();
    assert_eq!(sample(&t, 1.5, 0.0, 0.0), 36.0);
    let before = t.inner();
    assert!(t.binary_assign(BinaryOp::Add, &Operand::Other).is_err());
    assert!(t.power_assign(&float(0.5)).is_err());
    assert!(t.inner() == before);
}

#[test]
fn remap_replaces_the_axes() {
    let t = remap_xyz(
        &Shape::Tree(KTree::x()),
        &[tree(KTree::y()), tree(KTree::z()), tree(KTree::x())],
    )
    .unwrap();
    assert!(t.inner() == Tree::x().remap_xyz(Tree::y(), Tree::z(), Tree::x()));
    assert_eq!(sample(&t, 1.0, 7.0, 2.0), 7.0);
    match remap_xyz(&Shape::Tree(KTree::x()), &[tree(KTree::y())]) {
        Err(ScriptError::InvalidArguments(m)) => assert_eq!(m, "3 arguments: |x, y, z|"),
        _ => panic!("expected invalid arguments"),
    }
    let not_trees = [
        vec![tree(KTree::y()), integer(0), tree(KTree::z())],
        vec![
            tree(KTree::y()),
            Operand::Shape(fidget_koto::circle(&[integer(1)]).unwrap()),
            tree(KTree::z()),
        ],
        vec![Operand::Other, tree(KTree::y()), tree(KTree::z())],
    ];
    for args in not_trees {
        match remap_xyz(&Shape::Tree(KTree::x()), &args) {
            Err(ScriptError::InvalidArguments(m)) => assert_eq!(m, "|x, y, z|"),
            _ => panic!("expected invalid arguments"),
        }
    }
}
