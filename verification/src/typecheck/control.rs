//! The typing rules for the conditional and for the connectives `&&` and
//! `||`, which pass capabilities from their tests to what the tests guard.

use vstd::prelude::*;
use crate::capability::CapabilitySet;
use crate::expr::{Expr, ExprKind, SpecExpr, SpecExprKind};
use crate::typecheck::answer::{
    add_error, add_errors, annotated, expect, expect_type, Answer, SpecAnswer,
};
use crate::type_order::sorted_types;
use crate::types::{lub, types_view, SpecType, Type, ValidationMode};
use crate::validation_errors::{LubContext, SpecErrorKind, SpecTypeError, TypeError};

verus! {

/// The type of a boolean operand as a type of booleans.
pub open spec fn as_boolean(t: SpecType) -> SpecType {
    match t {
        SpecType::True => SpecType::True,
        SpecType::False => SpecType::False,
        _ => SpecType::Boolean,
    }
}

/// The answer for `if test then .. else ..` at `e`, where `c`, `t` and `f`
/// are the answers for the test and the branches, the first branch checked
/// with what the test establishes. A test that is always true makes the
/// conditional its first branch, one that is always false its second, and
/// the errors of the other branch do not count. Otherwise the branches must
/// have a least upper bound, which is the type of the conditional.
pub open spec fn if_answer(
    mode: ValidationMode,
    e: SpecExpr,
    test: SpecExpr,
    c: SpecAnswer,
    t: SpecAnswer,
    f: SpecAnswer,
) -> SpecAnswer {
    let kind = SpecExprKind::If {
        test_expr: Box::new(c.typed),
        then_expr: Box::new(t.typed),
        else_expr: Box::new(f.typed),
    };
    let checked = c.errors + expect(mode, test, SpecType::Boolean, c.ty(), None);
    match c.ty() {
        SpecType::True => SpecAnswer {
            typed: annotated(e, kind, t.ty()),
            caps: c.caps.union(t.caps),
            errors: checked + t.errors,
        },
        SpecType::False => SpecAnswer {
            typed: annotated(e, kind, f.ty()),
            caps: f.caps,
            errors: checked + f.errors,
        },
        _ => match lub(t.ty(), f.ty(), mode) {
            Ok(ty) => SpecAnswer {
                typed: annotated(e, kind, ty),
                caps: c.caps.union(t.caps).intersect(f.caps),
                errors: checked + t.errors + f.errors,
            },
            Err(hint) => SpecAnswer {
                typed: annotated(e, kind, SpecType::Never),
                caps: c.caps.union(t.caps).intersect(f.caps),
                errors: (checked + t.errors + f.errors).push(
                    SpecTypeError::on(
                        e,
                        SpecErrorKind::IncompatibleTypes {
                            types: sorted_types(seq![t.ty(), f.ty()]),
                            hint,
                            context: LubContext::Conditional,
                        },
                    ),
                ),
            },
        },
    }
}

/// The answer for `left && right` at `e`, where `l` and `r` are the answers
/// for the operands, the right one checked with what the left establishes.
/// After a left operand that is always false the result is false and the
/// right operand does not count; after one that is always true the result
/// is the right operand.
pub open spec fn and_answer(
    mode: ValidationMode,
    e: SpecExpr,
    left: SpecExpr,
    right: SpecExpr,
    l: SpecAnswer,
    r: SpecAnswer,
) -> SpecAnswer {
    let kind = SpecExprKind::And { left: Box::new(l.typed), right: Box::new(r.typed) };
    let checked = l.errors + expect(mode, left, SpecType::Boolean, l.ty(), None);
    let both = checked + r.errors + expect(mode, right, SpecType::Boolean, r.ty(), None);
    match l.ty() {
        SpecType::False => SpecAnswer {
            typed: annotated(e, kind, SpecType::False),
            caps: Set::empty(),
            errors: checked,
        },
        SpecType::True => SpecAnswer {
            typed: annotated(e, kind, as_boolean(r.ty())),
            caps: l.caps.union(r.caps),
            errors: both,
        },
        _ => SpecAnswer {
            typed: annotated(e, kind, SpecType::Boolean),
            caps: l.caps.union(r.caps),
            errors: both,
        },
    }
}

/// The answer for `left || right` at `e`, where `l` and `r` are the answers
/// for the operands. After a left operand that is always true the result is
/// true and the right operand does not count; after one that is always false
/// the result is the right operand. Otherwise only what both operands
/// establish is known.
pub open spec fn or_answer(
    mode: ValidationMode,
    e: SpecExpr,
    left: SpecExpr,
    right: SpecExpr,
    l: SpecAnswer,
    r: SpecAnswer,
) -> SpecAnswer {
    let kind = SpecExprKind::Or { left: Box::new(l.typed), right: Box::new(r.typed) };
    let checked = l.errors + expect(mode, left, SpecType::Boolean, l.ty(), None);
    let both = checked + r.errors + expect(mode, right, SpecType::Boolean, r.ty(), None);
    match l.ty() {
        SpecType::True => SpecAnswer {
            typed: annotated(e, kind, SpecType::True),
            caps: l.caps,
            errors: checked,
        },
        SpecType::False => SpecAnswer {
            typed: annotated(e, kind, as_boolean(r.ty())),
            caps: r.caps,
            errors: both,
        },
        _ => SpecAnswer {
            typed: annotated(e, kind, SpecType::Boolean),
            caps: l.caps.intersect(r.caps),
            errors: both,
        },
    }
}

/// The type of a boolean operand as a type of booleans.
pub fn to_boolean(t: Type) -> (out: Type)
    ensures
        out@ == as_boolean(t@),
{
    match t {
        Type::True => Type::True,
        Type::False => Type::False,
        _ => Type::Boolean,
    }
}

/// The answer for `if test then .. else ..` at `e`, where `c`, `t` and `f`
/// are the answers for the test and the branches.
pub fn check_if(mode: ValidationMode, e: &Expr, test: &Expr, c: Answer, t: Answer, f: Answer) -> (out:
    Answer)
    ensures
        out@ == if_answer(mode, e@, test@, c@, t@, f@),
{
    let ty_c = c.ty();
    let ty_t = t.ty();
    let ty_f = f.ty();
    let Answer { typed: typed_c, caps: caps_c, errors } = c;
    let Answer { typed: typed_t, caps: caps_t, errors: errors_t } = t;
    let Answer { typed: typed_f, caps: caps_f, errors: errors_f } = f;
    let mut errors = errors;
    expect_type(mode, test, Type::Boolean, &ty_c, None, &mut errors);
    let kind = ExprKind::If {
        test_expr: Box::new(typed_c),
        then_expr: Box::new(typed_t),
        else_expr: Box::new(typed_f),
    };
    match ty_c {
        Type::True => {
            add_errors(&mut errors, errors_t);
            Answer::new(e, kind, ty_t, caps_c.union(&caps_t), errors)
        },
        Type::False => {
            add_errors(&mut errors, errors_f);
            Answer::new(e, kind, ty_f, caps_f, errors)
        },
        _ => {
            add_errors(&mut errors, errors_t);
            add_errors(&mut errors, errors_f);
            let caps = caps_c.union(&caps_t).intersect(&caps_f);
            match Type::least_upper_bound(&ty_t, &ty_f, mode) {
                Ok(ty) => Answer::new(e, kind, ty, caps, errors),
                Err(hint) => {
                    let mut types: Vec<Type> = Vec::new();
                    types.push(ty_t);
                    types.push(ty_f);
                    assert(types_view(types@) =~= seq![ty_t@, ty_f@]);
                    add_error(
                        &mut errors,
                        TypeError::incompatible_types(
                            e.clone(),
                            types,
                            hint,
                            LubContext::Conditional,
                        ),
                    );
                    Answer::new(e, kind, Type::Never, caps, errors)
                },
            }
        },
    }
}

/// The answer for `left && right` at `e`, where `l` and `r` are the answers
/// for the operands.
pub fn check_and(mode: ValidationMode, e: &Expr, left: &Expr, right: &Expr, l: Answer, r: Answer) -> (out:
    Answer)
    ensures
        out@ == and_answer(mode, e@, left@, right@, l@, r@),
{
    let ty_l = l.ty();
    let ty_r = r.ty();
    let Answer { typed: typed_l, caps: caps_l, errors } = l;
    let Answer { typed: typed_r, caps: caps_r, errors: errors_r } = r;
    let mut errors = errors;
    expect_type(mode, left, Type::Boolean, &ty_l, None, &mut errors);
    let kind = ExprKind::And { left: Box::new(typed_l), right: Box::new(typed_r) };
    match ty_l {
        Type::False => Answer::new(e, kind, Type::False, CapabilitySet::new(), errors),
        Type::True => {
            add_errors(&mut errors, errors_r);
            expect_type(mode, right, Type::Boolean, &ty_r, None, &mut errors);
            Answer::new(e, kind, to_boolean(ty_r), caps_l.union(&caps_r), errors)
        },
        _ => {
            add_errors(&mut errors, errors_r);
            expect_type(mode, right, Type::Boolean, &ty_r, None, &mut errors);
            Answer::new(e, kind, Type::Boolean, caps_l.union(&caps_r), errors)
        },
    }
}

/// The answer for `left || right` at `e`, where `l` and `r` are the answers
/// for the operands.
pub fn check_or(mode: ValidationMode, e: &Expr, left: &Expr, right: &Expr, l: Answer, r: Answer) -> (out:
    Answer)
    ensures
        out@ == or_answer(mode, e@, left@, right@, l@, r@),
{
    let ty_l = l.ty();
    let ty_r = r.ty();
    let Answer { typed: typed_l, caps: caps_l, errors } = l;
    let Answer { typed: typed_r, caps: caps_r, errors: errors_r } = r;
    let mut errors = errors;
    expect_type(mode, left, Type::Boolean, &ty_l, None, &mut errors);
    let kind = ExprKind::Or { left: Box::new(typed_l), right: Box::new(typed_r) };
    match ty_l {
        Type::True => Answer::new(e, kind, Type::True, caps_l, errors),
        Type::False => {
            add_errors(&mut errors, errors_r);
            expect_type(mode, right, Type::Boolean, &ty_r, None, &mut errors);
            Answer::new(e, kind, to_boolean(ty_r), caps_r, errors)
        },
        _ => {
            add_errors(&mut errors, errors_r);
            expect_type(mode, right, Type::Boolean, &ty_r, None, &mut errors);
            Answer::new(e, kind, Type::Boolean, caps_l.intersect(&caps_r), errors)
        },
    }
}

} // verus!
