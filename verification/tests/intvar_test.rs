use choco_solver::{
    ArithmeticOperator, BoolVar, Bounds, Call, EqualityOperator, Handle, IntOrIntVar, IntVar, Operator,
    ShiftedRelation,
};

fn h(a: usize) -> Handle {
    Handle::new(a)
}

fn var(a: usize) -> IntVar {
    IntVar { handle: h(a), model: h(8) }
}

fn boolvar(a: usize) -> BoolVar {
    BoolVar { int_var: var(a) }
}

#[test]
fn reify_with_constant_uses_strict_relations() {
    let x = var(16);
    let b = boolvar(24);
    let model = h(8);
    assert_eq!(
        x.reify_call(EqualityOperator::Eq, IntOrIntVar::Int(1), &b),
        Call::ReifyVarConstant { rel: ShiftedRelation::Eq, model, x: h(16), c: 1, b: h(24) }
    );
    assert_eq!(
        x.reify_call(EqualityOperator::Neq, IntOrIntVar::Int(1), &b),
        Call::ReifyVarConstant { rel: ShiftedRelation::Ne, model, x: h(16), c: 1, b: h(24) }
    );
    assert_eq!(
        x.reify_call(EqualityOperator::Leq, IntOrIntVar::Int(5), &b),
        Call::ReifyVarConstant { rel: ShiftedRelation::Lt, model, x: h(16), c: 6, b: h(24) }
    );
    assert_eq!(
        x.reify_call(EqualityOperator::Geq, IntOrIntVar::Int(5), &b),
        Call::ReifyVarConstant { rel: ShiftedRelation::Gt, model, x: h(16), c: 4, b: h(24) }
    );
    assert_eq!(
        x.reify_call(EqualityOperator::Lt, IntOrIntVar::Int(-3), &b),
        Call::ReifyVarConstant { rel: ShiftedRelation::Lt, model, x: h(16), c: -3, b: h(24) }
    );
    assert_eq!(
        x.reify_call(EqualityOperator::Gt, IntOrIntVar::Int(0), &b),
        Call::ReifyVarConstant { rel: ShiftedRelation::Gt, model, x: h(16), c: 0, b: h(24) }
    );
}

#[test]
fn reify_with_variable() {
    let x = var(16);
    let y = var(32);
    let b = boolvar(24);
    assert_eq!(
        x.reify_call(EqualityOperator::Leq, IntOrIntVar::IntVar(y), &b),
        Call::ReifyVarVar { rel: EqualityOperator::Leq, model: h(8), x: h(16), y: h(32), b: h(24) }
    );
    assert_eq!(
        x.reify_shifted_call(ShiftedRelation::Gt, &y, 3, &b),
        Call::ReifyVarShifted { rel: ShiftedRelation::Gt, model: h(8), x: h(16), y: h(32), c: 3, b: h(24) }
    );
}

#[test]
fn arithm_dispatch() {
    let x = var(16);
    let y = var(32);
    assert_eq!(
        x.arithm_call(EqualityOperator::Eq, IntOrIntVar::Int(32)),
        Call::ArithmConstant { model: h(8), x: h(16), op: EqualityOperator::Eq, c: 32 }
    );
    assert_eq!(
        x.arithm_call(EqualityOperator::Lt, IntOrIntVar::IntVar(y)),
        Call::ArithmVar { model: h(8), x: h(16), op: EqualityOperator::Lt, y: h(32) }
    );
    assert_eq!(x.arithm2_operand_call(IntOrIntVar::Int(4)), Some(Call::IntVarConstant { model: h(8), value: 4 }));
    assert_eq!(x.arithm2_operand_call(IntOrIntVar::IntVar(y)), None);
    let eq = Operator::Relation(EqualityOperator::Eq);
    let sum = Operator::Arithmetic(ArithmeticOperator::Sum);
    assert_eq!(
        x.arithm2_call(eq, h(32), sum, IntOrIntVar::Int(10)),
        Call::Arithm2Constant { model: h(8), x: h(16), op1: eq, y: h(32), op2: sum, c: 10 }
    );
    assert_eq!(
        x.arithm2_call(sum, h(32), eq, IntOrIntVar::IntVar(var(40))),
        Call::Arithm2Var { model: h(8), x: h(16), op1: sum, y: h(32), op2: eq, z: h(40) }
    );
}

#[test]
fn operator_results() {
    let x = var(16);
    let r = var(48);
    assert_eq!(
        x.result_var_call(Bounds { lb: 3, ub: 15 }),
        Call::IntVarRange { model: h(8), lb: 3, ub: 15 }
    );
    assert_eq!(
        x.link_result_call(ArithmeticOperator::Mul, h(32), &r),
        Call::Arithm2Var {
            model: h(8),
            x: h(16),
            op1: Operator::Arithmetic(ArithmeticOperator::Mul),
            y: h(32),
            op2: Operator::Relation(EqualityOperator::Eq),
            z: h(48),
        }
    );
    assert_eq!(x.offset_view_call(5), Call::OffsetView { var: h(16), offset: 5 });
    assert_eq!(x.minus_constant_view_call(5), Call::OffsetView { var: h(16), offset: -5 });
    assert_eq!(x.scale_view_call(3), Call::ScaleView { var: h(16), scale: 3 });
    assert_eq!(x.minus_view_call(), Call::MinusView { var: h(16) });
}

#[test]
fn views_and_queries() {
    let x = var(16);
    assert_eq!(x.lb_call(), Call::LowerBound { var: h(16) });
    assert_eq!(x.ub_call(), Call::UpperBound { var: h(16) });
    assert_eq!(x.value_call(true), Some(Call::Value { var: h(16) }));
    assert_eq!(x.value_call(false), None);
    assert_eq!(x.domain_values_call(true), Some(Call::DomainValues { var: h(16) }));
    assert_eq!(x.domain_values_call(false), None);
    assert_eq!(x.eq_view_call(2), Call::EqView { var: h(16), value: 2 });
    assert_eq!(x.ne_view_call(2), Call::NeView { var: h(16), value: 2 });
    assert_eq!(x.le_view_call(2), Call::LeView { var: h(16), value: 2 });
    assert_eq!(x.ge_view_call(2), Call::GeView { var: h(16), value: 2 });
    let v = x.boolean_view(80);
    assert_eq!(v.int_var.handle, h(80));
    assert_eq!(v.int_var.model, h(8));
    let w = IntVar::created(88, h(8));
    assert_eq!(w.handle.addr(), 88);
}

#[test]
fn value_constraints() {
    let x = var(16);
    let y = var(32);
    let model = h(8);
    assert_eq!(x.member_table_call(h(64)), Call::MemberTable { model, var: h(16), table: h(64) });
    assert_eq!(x.member_bounds_call(1, 4), Call::MemberBounds { model, var: h(16), lb: 1, ub: 4 });
    assert_eq!(x.not_member_table_call(h(64)), Call::NotMemberTable { model, var: h(16), table: h(64) });
    assert_eq!(x.not_member_bounds_call(1, 4), Call::NotMemberBounds { model, var: h(16), lb: 1, ub: 4 });
    assert_eq!(x.abs_call(&y), Call::Absolute { model, x: h(16), y: h(32) });
    assert_eq!(x.square_call(&y), Call::Square { model, x: h(16), y: h(32) });
    assert_eq!(x.pow_call(3, &y), Call::Pow { model, x: h(16), c: 3, y: h(32) });
    assert_eq!(x.max_call(h(64)), Call::Max { model, x: h(16), vars: h(64) });
    assert_eq!(x.min_call(h(64)), Call::Min { model, x: h(16), vars: h(64) });
    assert_eq!(x.among_call(h(64), h(72)), Call::Among { model, n: h(16), vars: h(64), values: h(72) });
}

#[test]
fn modulo_dispatch() {
    let x = var(16);
    let model = h(8);
    assert_eq!(
        x.modulo_call(IntOrIntVar::IntVar(var(32)), IntOrIntVar::IntVar(var(40))),
        Call::ModVar { model, x: h(16), modulo: h(32), res: h(40) }
    );
    assert_eq!(
        x.modulo_call(IntOrIntVar::Int(3), IntOrIntVar::Int(1)),
        Call::ModConstant { model, x: h(16), modulo: 3, res: 1 }
    );
    assert_eq!(
        x.modulo_call(IntOrIntVar::Int(3), IntOrIntVar::IntVar(var(40))),
        Call::ModConstantVar { model, x: h(16), modulo: 3, res: h(40) }
    );
}

#[test]
fn global_constraints_use_first_model() {
    let vars = [IntVar { handle: h(16), model: h(8) }, IntVar { handle: h(24), model: h(9) }];
    let n = var(32);
    let a = h(64);
    assert_eq!(IntVar::all_different_call(&vars, a), Call::AllDifferent { model: h(8), vars: a });
    assert_eq!(IntVar::all_different_except_0_call(&vars, a), Call::AllDifferentExcept0 { model: h(8), vars: a });
    assert_eq!(IntVar::all_equal_call(&vars, a), Call::AllEqual { model: h(8), vars: a });
    assert_eq!(IntVar::not_all_equal_call(&vars, a), Call::NotAllEqual { model: h(8), vars: a });
    assert_eq!(
        IntVar::at_least_n_value_call(&vars, a, &n, true),
        Call::AtLeastNValues { model: h(8), vars: a, n_values: h(32), ac: true }
    );
    assert_eq!(
        IntVar::at_most_n_value_call(&vars, a, &n, false),
        Call::AtMostNValues { model: h(8), vars: a, n_values: h(32), strong: false }
    );
}

#[test]
fn reify_with_constant_at_the_ends_of_the_range() {
    let x = var(16);
    let b = boolvar(24);
    let model = h(8);
    assert_eq!(
        x.reify_call(EqualityOperator::Leq, IntOrIntVar::Int(i32::MAX), &b),
        Call::ReifyVarVar { rel: EqualityOperator::Leq, model, x: h(16), y: h(16), b: h(24) }
    );
    assert_eq!(
        x.reify_call(EqualityOperator::Geq, IntOrIntVar::Int(i32::MIN), &b),
        Call::ReifyVarVar { rel: EqualityOperator::Geq, model, x: h(16), y: h(16), b: h(24) }
    );
    assert_eq!(
        x.reify_call(EqualityOperator::Leq, IntOrIntVar::Int(i32::MAX - 1), &b),
        Call::ReifyVarConstant { rel: ShiftedRelation::Lt, model, x: h(16), c: i32::MAX, b: h(24) }
    );
    assert_eq!(
        x.reify_call(EqualityOperator::Geq, IntOrIntVar::Int(i32::MIN + 1), &b),
        Call::ReifyVarConstant { rel: ShiftedRelation::Gt, model, x: h(16), c: i32::MIN, b: h(24) }
    );
    assert_eq!(
        x.reify_call(EqualityOperator::Lt, IntOrIntVar::Int(i32::MAX), &b),
        Call::ReifyVarConstant { rel: ShiftedRelation::Lt, model, x: h(16), c: i32::MAX, b: h(24) }
    );
    assert_eq!(
        x.reify_call(EqualityOperator::Geq, IntOrIntVar::Int(i32::MAX), &b),
        Call::ReifyVarConstant { rel: ShiftedRelation::Gt, model, x: h(16), c: i32::MAX - 1, b: h(24) }
    );
}

#[test]
fn variable_query_calls() {
    let x = var(16);
    assert_eq!(x.name_call(), Call::VariableName { var: h(16) });
    assert_eq!(x.is_instantiated_call(), Call::IsInstantiated { var: h(16) });
    assert_eq!(x.is_view_call(), Call::IsView { var: h(16) });
    assert_eq!(x.has_enumerated_domain_call(), Call::HasEnumeratedDomain { var: h(16) });
    let b = boolvar(24);
    assert_eq!(b.int_var.is_view_call(), Call::IsView { var: h(24) });
}
