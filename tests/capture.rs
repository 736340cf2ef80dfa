use fidget::context::Tree;
use fidget_koto::{
    begin_run, circle, finish_eval, finish_run, to_u8, EngineError, EngineSettings, KTree, Operand,
    RunFailure, ScriptContext, ScriptError, Shape, DEFAULT_EXECUTION_LIMIT,
};
use koto::runtime::KNumber;

fn float(f: f64) -> Operand {
    Operand::Number(KNumber::F64(f))
}

fn tree(t: KTree) -> Operand {
    Operand::Shape(Shape::Tree(t))
}

fn unit_circle() -> Operand {
    Operand::Shape(circle(&[Operand::Number(KNumber::I64(1))]).unwrap())
}

#[test]
fn draw_without_color_is_white() {
    let mut ctx = ScriptContext::new();
    begin_run(&mut ctx);
    ctx.draw(&[unit_circle()]).unwrap();
    let out = finish_run(&mut ctx, Ok(()), None).unwrap();
    assert_eq!(out.shapes.len(), 1);
    assert_eq!(out.shapes[0].color_rgb, [255, 255, 255]);
    assert!(ctx.shapes.is_empty());
}

#[test]
fn draw_color_clamps_and_rounds() {
    let mut ctx = ScriptContext::new();
    ctx.draw(&[unit_circle(), float(2.0), float(-1.0), float(0.5)]).unwrap();
    assert_eq!(ctx.shapes.len(), 1);
    assert_eq!(ctx.shapes[0].color_rgb, [255, 0, 128]);
}

#[test]
fn channel_values() {
    assert_eq!(to_u8(KNumber::I64(0)), 0);
    assert_eq!(to_u8(KNumber::I64(-4)), 0);
    assert_eq!(to_u8(KNumber::I64(1)), 255);
    assert_eq!(to_u8(KNumber::I64(9)), 255);
    assert_eq!(to_u8(KNumber::F64(0.25)), 64);
    assert_eq!(to_u8(KNumber::F64(1.0)), 255);
    assert_eq!(to_u8(KNumber::F64(0.0)), 0);
    assert_eq!(to_u8(KNumber::F64(0.1)), 26);
}

#[test]
fn draw_rejects_bad_arguments() {
    let mut ctx = ScriptContext::new();
    let sig = "1 or 4 arguments: Tree|Number[, Number, Number, Number]";
    for args in [vec![], vec![Operand::Other], vec![unit_circle(), float(1.0), float(1.0)], vec![unit_circle(), float(1.0), float(1.0), Operand::Other]] {
        match ctx.draw(&args) {
            Err(ScriptError::InvalidArguments(m)) => assert_eq!(m, sig),
            _ => panic!("expected invalid arguments"),
        }
    }
    assert!(ctx.shapes.is_empty());
}

#[test]
fn draws_keep_their_order() {
    let mut ctx = ScriptContext::new();
    ctx.draw(&[tree(KTree::x())]).unwrap();
    ctx.draw(&[tree(KTree::y())]).unwrap();
    ctx.draw(&[Operand::Number(KNumber::I64(3))]).unwrap();
    assert!(ctx.shapes[0].tree.inner() == Tree::x());
    assert!(ctx.shapes[1].tree.inner() == Tree::y());
    assert!(ctx.shapes[2].tree.inner() == Tree::constant(3.0));
    ctx.clear();
    assert!(ctx.shapes.is_empty());
}

#[test]
fn second_run_sees_only_its_own_shapes() {
    let mut ctx = ScriptContext::new();
    begin_run(&mut ctx);
    ctx.draw(&[tree(KTree::x())]).unwrap();
    let first = finish_run(&mut ctx, Ok(()), None).unwrap();
    begin_run(&mut ctx);
    ctx.draw(&[tree(KTree::y())]).unwrap();
    let second = finish_run(&mut ctx, Ok(()), None).unwrap();
    assert_eq!(first.shapes.len(), 1);
    assert_eq!(second.shapes.len(), 1);
    assert!(first.shapes[0].tree.inner() == Tree::x());
    assert!(second.shapes[0].tree.inner() == Tree::y());
}

#[test]
fn timeout_discards_the_partial_capture() {
    let mut ctx = ScriptContext::new();
    begin_run(&mut ctx);
    ctx.draw(&[tree(KTree::x())]).unwrap();
    match finish_run(&mut ctx, Err(RunFailure::Timeout), None) {
        Err(EngineError::TimeoutError) => {}
        _ => panic!("expected a timeout"),
    }
    assert!(ctx.shapes.is_empty());
    begin_run(&mut ctx);
    let next = finish_run(&mut ctx, Ok(()), None).unwrap();
    assert!(next.shapes.is_empty());
}

#[test]
fn failures_are_classified() {
    let mut ctx = ScriptContext::new();
    match finish_run(&mut ctx, Err(RunFailure::Compile("bad token".to_string())), None) {
        Err(EngineError::CompileError(m)) => assert_eq!(m, "bad token"),
        _ => panic!("expected a compile error"),
    }
    let raised = ScriptError::UnsupportedOperation("no".to_string());
    match finish_run(&mut ctx, Err(RunFailure::Runtime("stopped".to_string())), Some(raised)) {
        Err(EngineError::Script(ScriptError::UnsupportedOperation(m))) => assert_eq!(m, "no"),
        _ => panic!("expected the raised error"),
    }
    match finish_run(&mut ctx, Err(RunFailure::Runtime("stopped".to_string())), None) {
        Err(e) => {
            assert_eq!(e.message(), "stopped");
            assert!(matches!(e, EngineError::RuntimeError(_)));
        }
        _ => panic!("expected a runtime error"),
    }
}

#[test]
fn eval_needs_a_tree() {
    let t = finish_eval(Ok(tree(KTree::x())), None).unwrap();
    assert!(t.inner() == Tree::x());
    let n = finish_eval(Ok(Operand::Number(KNumber::I64(2))), None).unwrap();
    assert!(n.inner() == Tree::constant(2.0));
    match finish_eval(Ok(Operand::Other), None) {
        Err(EngineError::Script(ScriptError::TypeMismatch(m))) => assert_eq!(m, "Tree"),
        _ => panic!("expected a type mismatch"),
    }
    match finish_eval(Err(RunFailure::Timeout), None) {
        Err(EngineError::TimeoutError) => {}
        _ => panic!("expected a timeout"),
    }
}

#[test]
fn settings_defaults() {
    let s = EngineSettings::default();
    assert!(s.default_imports);
    assert_eq!(s.execution_limit_secs, DEFAULT_EXECUTION_LIMIT);
    let s = EngineSettings::new_without_default_imports();
    assert!(!s.default_imports);
    let s = EngineSettings::new(true, 7);
    assert_eq!(s.execution_limit_secs, 7);
}
