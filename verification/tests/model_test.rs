use choco_solver::{
    BoolVar, Call, Constraint, Handle, IntVar, Model, Solution, Solver, SolverError,
};

fn h(a: usize) -> Handle {
    Handle::new(a)
}

#[test]
fn model_creation_calls() {
    assert_eq!(Model::new_call(None), Call::CreateModel);
    assert_eq!(Model::new_call(Some("TestModel")), Call::CreateNamedModel { name: "TestModel".to_string() });
    let m = Model::created(8);
    assert_eq!(m.handle, h(8));
    assert_eq!(m.name_call(), Call::ModelName { model: h(8) });
    assert_eq!(m.solver_call(), Call::ModelSolver { model: h(8) });
    let s = m.solver(96);
    assert_eq!(s.handle, h(96));
    assert_eq!(s.model, h(8));
}

#[test]
fn int_var_creation_calls() {
    let m = Model::created(8);
    let model = h(8);
    assert_eq!(m.int_var_call(3, None), Call::IntVarConstant { model, value: 3 });
    assert_eq!(
        m.int_var_call(3, Some("c")),
        Call::IntVarConstantNamed { model, name: "c".to_string(), value: 3 }
    );
    assert_eq!(m.int_var_values_call(h(64), None), Call::IntVarValues { model, values: h(64) });
    assert_eq!(
        m.int_var_values_call(h(64), Some("odd")),
        Call::IntVarValuesNamed { model, name: "odd".to_string(), values: h(64) }
    );
    assert_eq!(m.int_var_bounded_call(-100, 100, None, None), Call::IntVarRange { model, lb: -100, ub: 100 });
    assert_eq!(
        m.int_var_bounded_call(0, 10, Some("x"), None),
        Call::IntVarRangeNamed { model, name: "x".to_string(), lb: 0, ub: 10 }
    );
    assert_eq!(
        m.int_var_bounded_call(0, 10, None, Some(true)),
        Call::IntVarRangeBounded { model, lb: 0, ub: 10, bounded: true }
    );
    assert_eq!(
        m.int_var_bounded_call(0, 10, Some("e"), Some(false)),
        Call::IntVarRangeBoundedNamed { model, name: "e".to_string(), lb: 0, ub: 10, bounded: false }
    );
}

#[test]
fn bool_var_creation_calls() {
    let model = h(8);
    assert_eq!(BoolVar::new_call(model, None, None), Call::BoolVar { model });
    assert_eq!(BoolVar::new_call(model, Some(true), None), Call::BoolVarFixed { model, value: 1 });
    assert_eq!(BoolVar::new_call(model, Some(false), None), Call::BoolVarFixed { model, value: 0 });
    assert_eq!(BoolVar::new_call(model, None, Some("b")), Call::BoolVarNamed { model, name: "b".to_string() });
    assert_eq!(
        BoolVar::new_call(model, Some(true), Some("b")),
        Call::BoolVarFixedNamed { model, name: "b".to_string(), value: 1 }
    );
    let b = BoolVar::created(24, model);
    assert_eq!(b.int_var.handle, h(24));
    assert_eq!(b.constant_operand_call(false), Call::BoolVarFixed { model, value: 0 });
    assert_eq!(b.not_view_call(), Call::NotView { var: h(24) });
}

#[test]
fn int_var_to_bool_var() {
    let v = IntVar { handle: h(16), model: h(8) };
    assert_eq!(BoolVar::try_from_int_var(v, 0, 1), Ok(BoolVar { int_var: v }));
    assert_eq!(BoolVar::try_from_int_var(v, 0, 2), Err(SolverError::BoolVarConversionError));
    assert_eq!(BoolVar::try_from_int_var(v, 1, 1), Err(SolverError::BoolVarConversionError));
    let back: IntVar = BoolVar { int_var: v }.into();
    assert_eq!(back, v);
}

#[test]
fn bool_var_reification_calls() {
    let b = BoolVar { int_var: IntVar { handle: h(24), model: h(8) } };
    let c = Constraint { handle: h(40), model: h(8) };
    let d = Constraint { handle: h(48), model: h(8) };
    assert_eq!(
        b.if_then_else_call(&c, &d),
        Call::IfThenElseBool { model: h(8), cond: h(24), then_c: h(40), else_c: h(48) }
    );
    assert_eq!(b.if_then_call(&c), Call::IfThenBool { model: h(8), cond: h(24), then_c: h(40) });
    assert_eq!(b.if_only_if_call(&d), Call::Reification { model: h(8), boolvar: h(24), constraint: h(48) });
    let bs = [b, BoolVar { int_var: IntVar { handle: h(32), model: h(9) } }];
    assert_eq!(BoolVar::and_call(&bs, h(99)), Call::AndBoolVars { model: h(8), boolvars: h(99) });
    assert_eq!(BoolVar::or_call(&bs, h(99)), Call::OrBoolVars { model: h(8), boolvars: h(99) });
}

#[test]
fn solver_calls() {
    let s = Solver { handle: h(96), model: h(8) };
    assert_eq!(s.set_time_limit_call(50), Call::LimitTime { solver: h(96), ms: 50 });
    assert_eq!(s.find_solution_call(h(104)), Call::FindSolution { solver: h(96), criteria: h(104) });
    assert_eq!(s.propagate_call(), Call::Propagate { solver: h(96) });
    assert_eq!(Solver::propagation_result(1), Ok(()));
    assert_eq!(Solver::propagation_result(0), Err(SolverError::FoundContradiction));
    assert_eq!(Solver::solution_from(0), None);
    assert_eq!(Solver::solution_from(112), Some(Solution { handle: h(112) }));
}

#[test]
fn solution_reads() {
    let sol = Solution { handle: h(112) };
    let v = IntVar { handle: h(16), model: h(8) };
    let b = BoolVar { int_var: IntVar { handle: h(24), model: h(8) } };
    assert_eq!(sol.get_int_var_call(&v), Call::SolutionValue { solution: h(112), var: h(16) });
    assert_eq!(sol.get_bool_var_call(&b), Call::SolutionValue { solution: h(112), var: h(24) });
    assert_eq!(Solution::bool_value(0), Some(false));
    assert_eq!(Solution::bool_value(1), Some(true));
    assert_eq!(Solution::bool_value(-3), Some(true));
}
