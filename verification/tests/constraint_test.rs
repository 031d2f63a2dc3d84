use choco_solver::{
    ArithmeticOperator, Call, Constraint, ConstraintStatus, ESat, EqualityOperator, Handle, Operator,
    SolverError,
};

fn h(a: usize) -> Handle {
    Handle::new(a)
}

#[test]
fn equality_operator_c_strings() {
    assert_eq!(EqualityOperator::Eq.to_cstr(), b"=\0".to_vec());
    assert_eq!(EqualityOperator::Neq.to_cstr(), b"!=\0".to_vec());
    assert_eq!(EqualityOperator::Lt.to_cstr(), b"<\0".to_vec());
    assert_eq!(EqualityOperator::Leq.to_cstr(), b"<=\0".to_vec());
    assert_eq!(EqualityOperator::Gt.to_cstr(), b">\0".to_vec());
    assert_eq!(EqualityOperator::Geq.to_cstr(), b">=\0".to_vec());
}

#[test]
fn arithmetic_operator_c_strings() {
    assert_eq!(ArithmeticOperator::Sum.to_cstr(), b"+\0".to_vec());
    assert_eq!(ArithmeticOperator::Sub.to_cstr(), b"-\0".to_vec());
    assert_eq!(ArithmeticOperator::Mul.to_cstr(), b"*\0".to_vec());
    assert_eq!(ArithmeticOperator::Div.to_cstr(), b"/\0".to_vec());
    assert_eq!(Operator::Arithmetic(ArithmeticOperator::Div).to_cstr(), b"/\0".to_vec());
    assert_eq!(Operator::Relation(EqualityOperator::Geq).to_cstr(), b">=\0".to_vec());
}

#[test]
fn status_codes() {
    assert_eq!(ConstraintStatus::try_from(0), Ok(ConstraintStatus::FREE));
    assert_eq!(ConstraintStatus::try_from(1), Ok(ConstraintStatus::POSTED));
    assert_eq!(ConstraintStatus::try_from(2), Ok(ConstraintStatus::REIFIED));
    assert_eq!(ConstraintStatus::try_from(3), Err(()));
    assert_eq!(ConstraintStatus::try_from(-1), Err(()));
    assert_eq!(Constraint::status_from_code(2), ConstraintStatus::REIFIED);
}

#[test]
fn satisfaction_codes() {
    assert_eq!(ESat::from_code(0), ESat::False);
    assert_eq!(ESat::from_code(1), ESat::True);
    assert_eq!(ESat::from_code(2), ESat::Undefined);
    assert_eq!(ESat::from_code(-5), ESat::Undefined);
}

#[test]
fn post_only_free_constraints() {
    let c = Constraint { handle: h(40), model: h(8) };
    assert_eq!(c.post_call(ConstraintStatus::FREE), Ok(Call::Post { constraint: h(40) }));
    assert_eq!(c.post_call(ConstraintStatus::POSTED), Err(SolverError::NotFreeConstraint));
    assert_eq!(c.post_call(ConstraintStatus::REIFIED), Err(SolverError::NotFreeConstraint));
}

#[test]
fn constraint_reification_calls() {
    let c = Constraint { handle: h(40), model: h(8) };
    let d = Constraint { handle: h(48), model: h(8) };
    let e = Constraint { handle: h(56), model: h(8) };
    assert_eq!(c.reify_call(), Call::Reify { constraint: h(40) });
    let b = c.reified(64);
    assert_eq!(b.int_var.handle, h(64));
    assert_eq!(b.int_var.model, h(8));
    assert_eq!(c.reify_with_call(&b), Call::ReifyWith { constraint: h(40), boolvar: h(64) });
    assert_eq!(c.implies_call(&b), Call::Implies { constraint: h(40), boolvar: h(64) });
    assert_eq!(c.implied_by_call(&b), Call::ImpliedBy { constraint: h(40), boolvar: h(64) });
    assert_eq!(
        c.if_then_else_call(&d, &e),
        Call::IfThenElse { model: h(8), cond: h(40), then_c: h(48), else_c: h(56) }
    );
    assert_eq!(c.if_then_call(&d), Call::IfThen { model: h(8), cond: h(40), then_c: h(48) });
    assert_eq!(c.if_only_if_call(&e), Call::IfOnlyIf { model: h(8), cond: h(40), other: h(56) });
    assert_eq!(c.is_satisfied_call(), Call::IsSatisfied { constraint: h(40) });
    assert_eq!(c.status_call(), Call::Status { constraint: h(40) });
}

#[test]
fn constraint_created_keeps_model() {
    let c = Constraint::created(72, h(8));
    assert_eq!(c.handle.addr(), 72);
    assert_eq!(c.model, h(8));
}

#[test]
fn logic_over_constraints_uses_first_model() {
    let cs = [Constraint { handle: h(40), model: h(8) }, Constraint { handle: h(48), model: h(16) }];
    assert_eq!(Constraint::and_call(&cs, h(99)), Call::AndConstraints { model: h(8), constraints: h(99) });
    assert_eq!(Constraint::or_call(&cs, h(99)), Call::OrConstraints { model: h(8), constraints: h(99) });
}

#[test]
fn solver_error_messages() {
    assert_eq!(
        SolverError::NotFreeConstraint.message(),
        "Tried to post a not free constraint or reified constraint"
    );
    assert_eq!(SolverError::FoundContradiction.message(), "Found contradiction while propagating");
    assert_eq!(
        SolverError::BoolVarConversionError.message(),
        "Cannot be converted to BoolVar: domain is not [0,1]"
    );
    assert_eq!(SolverError::Unknown.message(), "unknown data store error");
}
