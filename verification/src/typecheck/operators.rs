//! The typing rules for the operators: negation, arithmetic, comparison,
//! equality, `in`, the `contains` family, `like` and `is`.

use vstd::prelude::*;
use crate::expr::{
    BinaryOp, Expr, ExprKind, Literal, SpecExpr, SpecExprKind, SpecLiteral, UnaryOp,
};
use crate::schema::{SpecSchema, ValidatorSchema};
use crate::text::{has_string, opt_text};
use crate::typecheck::answer::{
    add_error, add_errors, answer, errors_view, expect, expect_type, unexpected, Answer,
    SpecAnswer,
};
use crate::type_order::sorted_types;
use crate::types::{lub, types_view, EntityLUB, SpecType, Type, ValidationMode};
use crate::validation_errors::{
    LubContext, SpecErrorKind, SpecTypeError, TypeError, UnexpectedTypeHelp,
};

verus! {

/// The type of `!e` for `e` of type `t`.
pub open spec fn negated(t: SpecType) -> SpecType {
    match t {
        SpecType::True => SpecType::False,
        SpecType::False => SpecType::True,
        _ => SpecType::Boolean,
    }
}

/// The answer for `op arg` at `e`, where `a` is the answer for `arg`: the
/// operand of `!` must be a boolean, that of `-` a long.
pub open spec fn unary_answer(
    mode: ValidationMode,
    e: SpecExpr,
    op: UnaryOp,
    arg: SpecExpr,
    a: SpecAnswer,
) -> SpecAnswer {
    let kind = SpecExprKind::UnaryApp { op, arg: Box::new(a.typed) };
    match op {
        UnaryOp::Not => answer(
            e,
            kind,
            negated(a.ty()),
            a.errors + expect(mode, arg, SpecType::Boolean, a.ty(), None),
        ),
        UnaryOp::Neg => answer(
            e,
            kind,
            SpecType::Long,
            a.errors + expect(mode, arg, SpecType::Long, a.ty(), None),
        ),
    }
}

/// The answer for `arg like pattern` at `e`: the operand must be a string.
pub open spec fn like_answer(
    mode: ValidationMode,
    e: SpecExpr,
    arg: SpecExpr,
    pattern: Seq<char>,
    a: SpecAnswer,
) -> SpecAnswer {
    answer(
        e,
        SpecExprKind::Like { expr: Box::new(a.typed), pattern },
        SpecType::Boolean,
        a.errors + expect(
            mode,
            arg,
            SpecType::String,
            a.ty(),
            Some(UnexpectedTypeHelp::TryUsingLike),
        ),
    )
}

/// The type of `e is name` for `e` of one of the entity types `names`.
pub open spec fn type_test(names: Seq<Seq<char>>, name: Seq<char>) -> SpecType {
    if names == seq![name] {
        SpecType::True
    } else if !names.contains(name) {
        SpecType::False
    } else {
        SpecType::Boolean
    }
}

/// The answer for `arg is entity_type` at `e`: the operand must be an
/// entity, and the test is decided where its type decides it.
pub open spec fn is_answer(
    e: SpecExpr,
    arg: SpecExpr,
    entity_type: Seq<char>,
    a: SpecAnswer,
) -> SpecAnswer {
    let kind = SpecExprKind::Is { expr: Box::new(a.typed), entity_type };
    match a.ty() {
        SpecType::Entity(names) => answer(e, kind, type_test(names, entity_type), a.errors),
        SpecType::ActionEntity(names) => answer(e, kind, type_test(names, entity_type), a.errors),
        SpecType::AnyEntity => answer(e, kind, SpecType::Boolean, a.errors),
        SpecType::Never => answer(e, kind, SpecType::Boolean, a.errors),
        t => answer(
            e,
            kind,
            SpecType::Boolean,
            a.errors.push(
                unexpected(
                    arg,
                    seq![SpecType::AnyEntity],
                    t,
                    Some(UnexpectedTypeHelp::TypeTestNotSupported),
                ),
            ),
        ),
    }
}

/// The errors of two types that need a least upper bound in `context` and
/// have none.
pub open spec fn compatible(
    mode: ValidationMode,
    e: SpecExpr,
    a: SpecType,
    b: SpecType,
    context: LubContext,
) -> Seq<SpecTypeError> {
    match lub(a, b, mode) {
        Ok(_) => Seq::empty(),
        Err(hint) => seq![
            SpecTypeError::on(
                e,
                SpecErrorKind::IncompatibleTypes { types: sorted_types(seq![a, b]), hint, context },
            ),
        ],
    }
}

/// The type of `a == b`: decided where both are entity literals.
pub open spec fn equality_type(a: SpecExpr, b: SpecExpr) -> SpecType {
    match (a.kind, b.kind) {
        (
            SpecExprKind::Lit(SpecLiteral::EntityUID(x)),
            SpecExprKind::Lit(SpecLiteral::EntityUID(y)),
        ) => if x == y {
            SpecType::True
        } else {
            SpecType::False
        },
        _ => SpecType::Boolean,
    }
}

/// What to try where an operand of arithmetic is no long.
pub open spec fn arithmetic_help(op: BinaryOp, t: SpecType) -> Option<UnexpectedTypeHelp> {
    match t {
        SpecType::String => if op == BinaryOp::Add {
            Some(UnexpectedTypeHelp::ConcatenationNotSupported)
        } else {
            None
        },
        SpecType::SetOf(_) => Some(UnexpectedTypeHelp::SetOperationsNotSupported),
        _ => None,
    }
}

/// Whether values of type `t` can stand where an entity is needed.
pub open spec fn is_entity_like(t: SpecType) -> bool {
    t is Entity || t is ActionEntity || t is AnyEntity || t is Never
}

/// The entity type on the right of `in`: the type of the operand, or of its
/// elements where it is a set.
pub open spec fn in_target(t: SpecType) -> Option<SpecType> {
    if is_entity_like(t) {
        Some(t)
    } else {
        match t {
            SpecType::SetOf(x) => if is_entity_like(*x) {
                Some(*x)
            } else {
                None
            },
            _ => None,
        }
    }
}

/// The names of an entity type, where it has names.
pub open spec fn entity_names_of(t: SpecType) -> Option<Seq<Seq<char>>> {
    match t {
        SpecType::Entity(names) => Some(names),
        SpecType::ActionEntity(names) => Some(names),
        _ => None,
    }
}

/// Whether an entity of type `child` can be `ancestor` itself or one of its
/// descendants.
pub open spec fn may_be_descendant(schema: SpecSchema, child: Seq<char>, ancestor: Seq<char>) -> bool {
    child == ancestor || match schema.get_entity_type(ancestor) {
        Some(d) => d.descendants.contains(child),
        None => false,
    }
}

/// Whether an entity of one of the types `l` can be a descendant of, or be,
/// an entity of one of the types `r`.
pub open spec fn hierarchy_permits(schema: SpecSchema, l: Seq<Seq<char>>, r: Seq<Seq<char>>) -> bool {
    exists|i: int, j: int|
        0 <= i < l.len() && 0 <= j < r.len() && may_be_descendant(schema, #[trigger] l[i], #[trigger] r[j])
}

/// The first of a list of names.
pub open spec fn first_name(names: Seq<Seq<char>>) -> Option<Seq<char>> {
    if names.len() > 0 {
        Some(names[0])
    } else {
        None
    }
}

/// The errors of `a in b` that the entity hierarchy gives rise to: under
/// strict validation, entity types on both sides of which no left one can be
/// a descendant of a right one.
pub open spec fn hierarchy_errors(
    schema: SpecSchema,
    mode: ValidationMode,
    e: SpecExpr,
    ta: SpecType,
    tb: SpecType,
) -> Seq<SpecTypeError> {
    match (mode, entity_names_of(ta), in_target(tb)) {
        (ValidationMode::Strict, Some(l), Some(target)) => match entity_names_of(target) {
            Some(r) => if hierarchy_permits(schema, l, r) {
                Seq::empty()
            } else {
                seq![
                    SpecTypeError::at(
                        e,
                        SpecErrorKind::HierarchyNotRespected {
                            in_lhs: first_name(l),
                            in_rhs: first_name(r),
                        },
                    ),
                ]
            },
            None => Seq::empty(),
        },
        _ => Seq::empty(),
    }
}

/// What to try where the left operand of `in` is no entity.
pub open spec fn in_help(t: SpecType) -> Option<UnexpectedTypeHelp> {
    match t {
        SpecType::SetOf(_) => Some(UnexpectedTypeHelp::TryUsingContains),
        _ => None,
    }
}

/// The errors of the operands of `a in b` themselves.
pub open spec fn in_operand_errors(a: SpecExpr, b: SpecExpr, ta: SpecType, tb: SpecType) -> Seq<
    SpecTypeError,
> {
    let left = if is_entity_like(ta) {
        Seq::empty()
    } else {
        seq![unexpected(a, seq![SpecType::AnyEntity], ta, in_help(ta))]
    };
    let right = if in_target(tb) is Some {
        Seq::empty()
    } else {
        seq![
            unexpected(
                b,
                seq![SpecType::AnyEntity, SpecType::SetOf(Box::new(SpecType::AnyEntity))],
                tb,
                None,
            ),
        ]
    };
    left + right
}

/// What to try where the left operand of `contains` is no set.
pub open spec fn contains_help(t: SpecType) -> Option<UnexpectedTypeHelp> {
    match t {
        SpecType::String => Some(UnexpectedTypeHelp::TryUsingLike),
        SpecType::Entity(_) => Some(UnexpectedTypeHelp::TryUsingIn),
        SpecType::ActionEntity(_) => Some(UnexpectedTypeHelp::TryUsingIn),
        SpecType::AnyEntity => Some(UnexpectedTypeHelp::TryUsingIn),
        SpecType::Record { .. } => Some(UnexpectedTypeHelp::TryUsingHas),
        _ => None,
    }
}

/// The type of sets of anything, as errors name it.
pub open spec fn any_set() -> SpecType {
    SpecType::SetOf(Box::new(SpecType::Never))
}

/// The errors of `a.contains(b)`: `a` must be a set whose elements are
/// compatible with `b`.
pub open spec fn contains_errors(
    mode: ValidationMode,
    e: SpecExpr,
    a: SpecExpr,
    ta: SpecType,
    tb: SpecType,
) -> Seq<SpecTypeError> {
    match ta {
        SpecType::SetOf(x) => match lub(*x, tb, mode) {
            Ok(_) => Seq::empty(),
            Err(hint) => seq![
                SpecTypeError::on(
                    e,
                    SpecErrorKind::IncompatibleTypes {
                        types: sorted_types(seq![ta, tb]),
                        hint,
                        context: LubContext::Contains,
                    },
                ),
            ],
        },
        SpecType::Never => Seq::empty(),
        _ => seq![unexpected(a, seq![any_set()], ta, contains_help(ta))],
    }
}

/// Whether values of type `t` can stand where a set is needed.
pub open spec fn is_set_like(t: SpecType) -> bool {
    t is SetOf || t is Never
}

/// The errors of `a.containsAll(b)` and `a.containsAny(b)`: both must be
/// sets, with compatible elements.
pub open spec fn contains_all_errors(
    mode: ValidationMode,
    e: SpecExpr,
    a: SpecExpr,
    b: SpecExpr,
    ta: SpecType,
    tb: SpecType,
) -> Seq<SpecTypeError> {
    let left = if is_set_like(ta) {
        Seq::empty()
    } else {
        seq![unexpected(a, seq![any_set()], ta, contains_help(ta))]
    };
    let right = if is_set_like(tb) {
        Seq::empty()
    } else {
        seq![unexpected(b, seq![any_set()], tb, Some(UnexpectedTypeHelp::TryUsingSingleContains))]
    };
    let both = if ta is SetOf && tb is SetOf {
        compatible(mode, e, ta, tb, LubContext::ContainsAnyAll)
    } else {
        Seq::empty()
    };
    left + right + both
}

/// The type of `a op b`.
pub open spec fn binary_type(op: BinaryOp, a: SpecExpr, b: SpecExpr) -> SpecType {
    match op {
        BinaryOp::Eq => equality_type(a, b),
        BinaryOp::Add => SpecType::Long,
        BinaryOp::Sub => SpecType::Long,
        BinaryOp::Mul => SpecType::Long,
        _ => SpecType::Boolean,
    }
}

/// The errors of `a op b` beyond those of `a` and `b`.
pub open spec fn binary_errors(
    schema: SpecSchema,
    mode: ValidationMode,
    e: SpecExpr,
    op: BinaryOp,
    a: SpecExpr,
    b: SpecExpr,
    ta: SpecType,
    tb: SpecType,
) -> Seq<SpecTypeError> {
    match op {
        BinaryOp::Eq => compatible(mode, e, ta, tb, LubContext::Equality),
        BinaryOp::Less => expect(mode, a, SpecType::Long, ta, None) + expect(
            mode,
            b,
            SpecType::Long,
            tb,
            None,
        ),
        BinaryOp::LessEq => expect(mode, a, SpecType::Long, ta, None) + expect(
            mode,
            b,
            SpecType::Long,
            tb,
            None,
        ),
        BinaryOp::Add => expect(mode, a, SpecType::Long, ta, arithmetic_help(op, ta)) + expect(
            mode,
            b,
            SpecType::Long,
            tb,
            arithmetic_help(op, tb),
        ),
        BinaryOp::Sub => expect(mode, a, SpecType::Long, ta, arithmetic_help(op, ta)) + expect(
            mode,
            b,
            SpecType::Long,
            tb,
            arithmetic_help(op, tb),
        ),
        BinaryOp::Mul => expect(mode, a, SpecType::Long, ta, arithmetic_help(op, ta)) + expect(
            mode,
            b,
            SpecType::Long,
            tb,
            arithmetic_help(op, tb),
        ),
        BinaryOp::In => in_operand_errors(a, b, ta, tb) + hierarchy_errors(schema, mode, e, ta, tb),
        BinaryOp::Contains => contains_errors(mode, e, a, ta, tb),
        BinaryOp::ContainsAll => contains_all_errors(mode, e, a, b, ta, tb),
        BinaryOp::ContainsAny => contains_all_errors(mode, e, a, b, ta, tb),
    }
}

/// The answer for `a op b` at `e`, where `x` and `y` are the answers for `a`
/// and `b`.
pub open spec fn binary_answer(
    schema: SpecSchema,
    mode: ValidationMode,
    e: SpecExpr,
    op: BinaryOp,
    a: SpecExpr,
    b: SpecExpr,
    x: SpecAnswer,
    y: SpecAnswer,
) -> SpecAnswer {
    answer(
        e,
        SpecExprKind::BinaryApp { op, arg1: Box::new(x.typed), arg2: Box::new(y.typed) },
        binary_type(op, a, b),
        x.errors + y.errors + binary_errors(schema, mode, e, op, a, b, x.ty(), y.ty()),
    )
}

/// The answer for `op arg` at `e`, where `a` is the answer for `arg`.
pub fn check_unary(mode: ValidationMode, e: &Expr, op: UnaryOp, arg: &Expr, a: Answer) -> (out:
    Answer)
    ensures
        out@ == unary_answer(mode, e@, op, arg@, a@),
{
    let ty_a = a.ty();
    let Answer { typed, caps: _, errors } = a;
    let mut errors = errors;
    let kind = ExprKind::UnaryApp { op, arg: Box::new(typed) };
    match op {
        UnaryOp::Not => {
            expect_type(mode, arg, Type::Boolean, &ty_a, None, &mut errors);
            let ty = match ty_a {
                Type::True => Type::False,
                Type::False => Type::True,
                _ => Type::Boolean,
            };
            Answer::plain(e, kind, ty, errors)
        },
        UnaryOp::Neg => {
            expect_type(mode, arg, Type::Long, &ty_a, None, &mut errors);
            Answer::plain(e, kind, Type::Long, errors)
        },
    }
}

/// The answer for `arg like pattern` at `e`, where `a` is the answer for
/// `arg`.
pub fn check_like(mode: ValidationMode, e: &Expr, arg: &Expr, pattern: &String, a: Answer) -> (out:
    Answer)
    ensures
        out@ == like_answer(mode, e@, arg@, pattern@, a@),
{
    let ty_a = a.ty();
    let Answer { typed, caps: _, errors } = a;
    let mut errors = errors;
    expect_type(
        mode,
        arg,
        Type::String,
        &ty_a,
        Some(UnexpectedTypeHelp::TryUsingLike),
        &mut errors,
    );
    Answer::plain(
        e,
        ExprKind::Like { expr: Box::new(typed), pattern: pattern.clone() },
        Type::Boolean,
        errors,
    )
}

/// The type of `e is name` for `e` of one of the entity types `names`.
pub fn check_type_test(names: &EntityLUB, name: &String) -> (out: Type)
    ensures
        out@ == type_test(names@, name@),
{
    if names.names.len() == 1 && names.names[0] == *name {
        assert(names@ =~= seq![name@]);
        Type::True
    } else if !names.contains(name) {
        assert(names@ != seq![name@]) by {
            if names@ == seq![name@] {
                assert(names@.len() == 1);
                assert(names@[0] == name@);
                assert(names.names@[0]@ == name@);
            }
        }
        Type::False
    } else {
        assert(names@ != seq![name@]) by {
            if names@ == seq![name@] {
                assert(names@.len() == 1);
                assert(names@[0] == name@);
                assert(names.names@[0]@ == name@);
            }
        }
        Type::Boolean
    }
}

/// The answer for `arg is entity_type` at `e`, where `a` is the answer for
/// `arg`.
pub fn check_is(e: &Expr, arg: &Expr, entity_type: &String, a: Answer) -> (out: Answer)
    ensures
        out@ == is_answer(e@, arg@, entity_type@, a@),
{
    let ty_a = a.ty();
    let Answer { typed, caps: _, errors } = a;
    let mut errors = errors;
    let kind = ExprKind::Is { expr: Box::new(typed), entity_type: entity_type.clone() };
    match &ty_a {
        Type::Entity(names) => Answer::plain(e, kind, check_type_test(names, entity_type), errors),
        Type::ActionEntity(names) => Answer::plain(
            e,
            kind,
            check_type_test(names, entity_type),
            errors,
        ),
        Type::AnyEntity => Answer::plain(e, kind, Type::Boolean, errors),
        Type::Never => Answer::plain(e, kind, Type::Boolean, errors),
        _ => {
            let mut expected: Vec<Type> = Vec::new();
            expected.push(Type::AnyEntity);
            assert(types_view(expected@) =~= seq![SpecType::AnyEntity]);
            let err = TypeError::expected_one_of_types(
                arg.clone(),
                expected,
                ty_a.clone(),
                Some(UnexpectedTypeHelp::TypeTestNotSupported),
            );
            add_error(&mut errors, err);
            Answer::plain(e, kind, Type::Boolean, errors)
        },
    }
}

/// Adds to `errors` the error of `ta` and `tb` having no least upper bound,
/// if they have none.
pub fn check_compatible(
    mode: ValidationMode,
    e: &Expr,
    ta: &Type,
    tb: &Type,
    context: LubContext,
    errors: &mut Vec<TypeError>,
)
    ensures
        errors_view(final(errors)@) == errors_view(old(errors)@) + compatible(
            mode,
            e@,
            ta@,
            tb@,
            context,
        ),
{
    match Type::least_upper_bound(ta, tb, mode) {
        Ok(_) => {
            assert(errors_view(errors@) + Seq::<SpecTypeError>::empty() =~= errors_view(errors@));
        },
        Err(hint) => {
            let mut types: Vec<Type> = Vec::new();
            types.push(ta.clone());
            types.push(tb.clone());
            assert(types_view(types@) =~= seq![ta@, tb@]);
            let err = TypeError::incompatible_types(e.clone(), types, hint, context);
            let ghost before = errors_view(errors@);
            add_error(errors, err);
            assert(before.push(err@) =~= before + seq![err@]);
        },
    }
}

/// The type of `a == b`.
pub fn check_equality_type(a: &Expr, b: &Expr) -> (out: Type)
    ensures
        out@ == equality_type(a@, b@),
{
    match (&a.expr_kind, &b.expr_kind) {
        (ExprKind::Lit(Literal::EntityUID(x)), ExprKind::Lit(Literal::EntityUID(y))) => {
            if x.same_as(y) {
                Type::True
            } else {
                Type::False
            }
        },
        _ => Type::Boolean,
    }
}

/// What to try where an operand of arithmetic is no long.
pub fn arithmetic_advice(op: BinaryOp, t: &Type) -> (out: Option<UnexpectedTypeHelp>)
    ensures
        out == arithmetic_help(op, t@),
{
    match t {
        Type::String => match op {
            BinaryOp::Add => Some(UnexpectedTypeHelp::ConcatenationNotSupported),
            _ => None,
        },
        Type::SetOf(_) => Some(UnexpectedTypeHelp::SetOperationsNotSupported),
        _ => None,
    }
}

/// Whether values of type `t` can stand where an entity is needed.
pub fn entity_like(t: &Type) -> (out: bool)
    ensures
        out == is_entity_like(t@),
{
    match t {
        Type::Entity(_) => true,
        Type::ActionEntity(_) => true,
        Type::AnyEntity => true,
        Type::Never => true,
        _ => false,
    }
}

/// The entity type on the right of `in`.
pub fn in_target_of(t: &Type) -> (out: Option<&Type>)
    ensures
        out matches Some(x) ==> in_target(t@) == Some(x@),
        out is None ==> in_target(t@) is None,
{
    if entity_like(t) {
        Some(t)
    } else {
        match t {
            Type::SetOf(x) => {
                let x: &Type = x;
                if entity_like(x) {
                    Some(x)
                } else {
                    None
                }
            },
            _ => None,
        }
    }
}

/// The names of an entity type, where it has names.
pub fn names_of(t: &Type) -> (out: Option<&EntityLUB>)
    ensures
        out matches Some(n) ==> entity_names_of(t@) == Some(n@),
        out is None ==> entity_names_of(t@) is None,
{
    match t {
        Type::Entity(names) => Some(names),
        Type::ActionEntity(names) => Some(names),
        _ => None,
    }
}

/// Whether an entity of type `child` can be `ancestor` itself or one of its
/// descendants.
pub fn descends(schema: &ValidatorSchema, child: &String, ancestor: &String) -> (out: bool)
    ensures
        out == may_be_descendant(schema@, child@, ancestor@),
{
    if *child == *ancestor {
        return true;
    }
    match schema.get_entity_type(ancestor) {
        Some(d) => has_string(&d.descendants, child),
        None => false,
    }
}

/// Whether an entity of one of the types `l` can be a descendant of, or be,
/// an entity of one of the types `r`.
pub fn permits(schema: &ValidatorSchema, l: &EntityLUB, r: &EntityLUB) -> (out: bool)
    ensures
        out == hierarchy_permits(schema@, l@, r@),
{
    let mut i: usize = 0;
    while i < l.names.len()
        invariant
            i <= l.names.len(),
            forall|x: int, y: int|
                0 <= x < i && 0 <= y < r@.len() ==> !may_be_descendant(
                    schema@,
                    #[trigger] l@[x],
                    #[trigger] r@[y],
                ),
        decreases l.names.len() - i,
    {
        let mut j: usize = 0;
        while j < r.names.len()
            invariant
                i < l.names.len(),
                j <= r.names.len(),
                forall|x: int, y: int|
                    0 <= x < i && 0 <= y < r@.len() ==> !may_be_descendant(
                        schema@,
                        #[trigger] l@[x],
                        #[trigger] r@[y],
                    ),
                forall|y: int|
                    0 <= y < j ==> !may_be_descendant(schema@, l@[i as int], #[trigger] r@[y]),
            decreases r.names.len() - j,
        {
            if descends(schema, &l.names[i], &r.names[j]) {
                assert(may_be_descendant(schema@, l@[i as int], r@[j as int]));
                return true;
            }
            j += 1;
        }
        i += 1;
    }
    false
}

/// The first of the names.
pub fn first_of(names: &EntityLUB) -> (out: Option<String>)
    ensures
        opt_text(out) == first_name(names@),
{
    if names.names.len() > 0 {
        Some(names.names[0].clone())
    } else {
        None
    }
}

/// Adds to `errors` the errors of `a in b` that the entity hierarchy gives
/// rise to.
pub fn check_hierarchy(
    schema: &ValidatorSchema,
    mode: ValidationMode,
    e: &Expr,
    ta: &Type,
    tb: &Type,
    errors: &mut Vec<TypeError>,
)
    ensures
        errors_view(final(errors)@) == errors_view(old(errors)@) + hierarchy_errors(
            schema@,
            mode,
            e@,
            ta@,
            tb@,
        ),
{
    let ghost before = errors_view(errors@);
    assert(before + Seq::<SpecTypeError>::empty() =~= before);
    match mode {
        ValidationMode::Strict => {},
        ValidationMode::Permissive => {
            return ;
        },
    }
    let l = match names_of(ta) {
        Some(l) => l,
        None => {
            return ;
        },
    };
    let target = match in_target_of(tb) {
        Some(t) => t,
        None => {
            return ;
        },
    };
    let r = match names_of(target) {
        Some(r) => r,
        None => {
            return ;
        },
    };
    if !permits(schema, l, r) {
        let err = TypeError::hierarchy_not_respected(e.clone(), first_of(l), first_of(r));
        add_error(errors, err);
        assert(before.push(err@) =~= before + seq![err@]);
    }
}

/// What to try where the left operand of `contains` is no set.
pub fn contains_advice(t: &Type) -> (out: Option<UnexpectedTypeHelp>)
    ensures
        out == contains_help(t@),
{
    match t {
        Type::String => Some(UnexpectedTypeHelp::TryUsingLike),
        Type::Entity(_) => Some(UnexpectedTypeHelp::TryUsingIn),
        Type::ActionEntity(_) => Some(UnexpectedTypeHelp::TryUsingIn),
        Type::AnyEntity => Some(UnexpectedTypeHelp::TryUsingIn),
        Type::Record { .. } => Some(UnexpectedTypeHelp::TryUsingHas),
        _ => None,
    }
}

/// Adds to `errors` the error that `e`, of type `actual`, is none of
/// `expected`.
pub fn add_unexpected(
    e: &Expr,
    expected: Vec<Type>,
    actual: &Type,
    help: Option<UnexpectedTypeHelp>,
    errors: &mut Vec<TypeError>,
)
    ensures
        errors_view(final(errors)@) == errors_view(old(errors)@) + seq![
            unexpected(e@, types_view(expected@), actual@, help),
        ],
{
    let err = TypeError::expected_one_of_types(e.clone(), expected, actual.clone(), help);
    let ghost before = errors_view(errors@);
    add_error(errors, err);
    assert(before.push(err@) =~= before + seq![err@]);
}

/// The one-element list of the type of sets of anything.
fn any_set_list() -> (out: Vec<Type>)
    ensures
        types_view(out@) == seq![any_set()],
{
    let mut out: Vec<Type> = Vec::new();
    out.push(Type::set(Type::Never));
    assert(types_view(out@) =~= seq![any_set()]);
    out
}

/// Adds to `errors` the errors of `a op b` beyond those of `a` and `b`.
pub fn check_binary_errors(
    schema: &ValidatorSchema,
    mode: ValidationMode,
    e: &Expr,
    op: BinaryOp,
    a: &Expr,
    b: &Expr,
    ta: &Type,
    tb: &Type,
    errors: &mut Vec<TypeError>,
)
    ensures
        errors_view(final(errors)@) == errors_view(old(errors)@) + binary_errors(
            schema@,
            mode,
            e@,
            op,
            a@,
            b@,
            ta@,
            tb@,
        ),
{
    let ghost before = errors_view(errors@);
    let ghost none = Seq::<SpecTypeError>::empty();
    assert(before + none =~= before);
    match op {
        BinaryOp::Eq => check_compatible(mode, e, ta, tb, LubContext::Equality, errors),
        BinaryOp::Less | BinaryOp::LessEq => {
            expect_type(mode, a, Type::Long, ta, None, errors);
            expect_type(mode, b, Type::Long, tb, None, errors);
            assert(before + expect(mode, a@, SpecType::Long, ta@, None) + expect(
                mode,
                b@,
                SpecType::Long,
                tb@,
                None,
            ) =~= before + (expect(mode, a@, SpecType::Long, ta@, None) + expect(
                mode,
                b@,
                SpecType::Long,
                tb@,
                None,
            )));
        },
        BinaryOp::Add | BinaryOp::Sub | BinaryOp::Mul => {
            let ha = arithmetic_advice(op, ta);
            let hb = arithmetic_advice(op, tb);
            expect_type(mode, a, Type::Long, ta, ha, errors);
            expect_type(mode, b, Type::Long, tb, hb, errors);
            assert(before + expect(mode, a@, SpecType::Long, ta@, ha) + expect(
                mode,
                b@,
                SpecType::Long,
                tb@,
                hb,
            ) =~= before + (expect(mode, a@, SpecType::Long, ta@, ha) + expect(
                mode,
                b@,
                SpecType::Long,
                tb@,
                hb,
            )));
        },
        BinaryOp::In => {
            if !entity_like(ta) {
                let mut expected: Vec<Type> = Vec::new();
                expected.push(Type::AnyEntity);
                assert(types_view(expected@) =~= seq![SpecType::AnyEntity]);
                let help = match ta {
                    Type::SetOf(_) => Some(UnexpectedTypeHelp::TryUsingContains),
                    _ => None,
                };
                add_unexpected(a, expected, ta, help, errors);
            }
            if in_target_of(tb).is_none() {
                let mut expected: Vec<Type> = Vec::new();
                expected.push(Type::AnyEntity);
                expected.push(Type::set(Type::AnyEntity));
                assert(types_view(expected@) =~= seq![
                    SpecType::AnyEntity,
                    SpecType::SetOf(Box::new(SpecType::AnyEntity)),
                ]);
                add_unexpected(b, expected, tb, None, errors);
            }
            assert(errors_view(errors@) =~= before + in_operand_errors(a@, b@, ta@, tb@));
            check_hierarchy(schema, mode, e, ta, tb, errors);
            assert(before + in_operand_errors(a@, b@, ta@, tb@) + hierarchy_errors(
                schema@,
                mode,
                e@,
                ta@,
                tb@,
            ) =~= before + (in_operand_errors(a@, b@, ta@, tb@) + hierarchy_errors(
                schema@,
                mode,
                e@,
                ta@,
                tb@,
            )));
        },
        BinaryOp::Contains => {
            match ta {
                Type::SetOf(x) => {
                    match Type::least_upper_bound(x, tb, mode) {
                        Ok(_) => {},
                        Err(hint) => {
                            let mut types: Vec<Type> = Vec::new();
                            types.push(ta.clone());
                            types.push(tb.clone());
                            assert(types_view(types@) =~= seq![ta@, tb@]);
                            let err = TypeError::incompatible_types(
                                e.clone(),
                                types,
                                hint,
                                LubContext::Contains,
                            );
                            add_error(errors, err);
                            assert(before.push(err@) =~= before + seq![err@]);
                        },
                    }
                },
                Type::Never => {},
                _ => {
                    add_unexpected(a, any_set_list(), ta, contains_advice(ta), errors);
                },
            }
        },
        BinaryOp::ContainsAll | BinaryOp::ContainsAny => {
            let left_set = match ta {
                Type::SetOf(_) => true,
                _ => false,
            };
            let right_set = match tb {
                Type::SetOf(_) => true,
                _ => false,
            };
            let left_never = match ta {
                Type::Never => true,
                _ => false,
            };
            let right_never = match tb {
                Type::Never => true,
                _ => false,
            };
            if !left_set && !left_never {
                add_unexpected(a, any_set_list(), ta, contains_advice(ta), errors);
            }
            if !right_set && !right_never {
                add_unexpected(
                    b,
                    any_set_list(),
                    tb,
                    Some(UnexpectedTypeHelp::TryUsingSingleContains),
                    errors,
                );
            }
            if left_set && right_set {
                check_compatible(mode, e, ta, tb, LubContext::ContainsAnyAll, errors);
            }
            assert(errors_view(errors@) =~= before + contains_all_errors(
                mode,
                e@,
                a@,
                b@,
                ta@,
                tb@,
            ));
        },
    }
}

/// The answer for `a op b` at `e`, where `x` and `y` are the answers for `a`
/// and `b`.
pub fn check_binary(
    schema: &ValidatorSchema,
    mode: ValidationMode,
    e: &Expr,
    op: BinaryOp,
    a: &Expr,
    b: &Expr,
    x: Answer,
    y: Answer,
) -> (out: Answer)
    ensures
        out@ == binary_answer(schema@, mode, e@, op, a@, b@, x@, y@),
{
    let ta = x.ty();
    let tb = y.ty();
    let Answer { typed: typed_a, caps: _, errors } = x;
    let Answer { typed: typed_b, caps: _, errors: errors_b } = y;
    let mut errors = errors;
    add_errors(&mut errors, errors_b);
    check_binary_errors(schema, mode, e, op, a, b, &ta, &tb, &mut errors);
    let ty = match op {
        BinaryOp::Eq => check_equality_type(a, b),
        BinaryOp::Add => Type::Long,
        BinaryOp::Sub => Type::Long,
        BinaryOp::Mul => Type::Long,
        _ => Type::Boolean,
    };
    Answer::plain(
        e,
        ExprKind::BinaryApp { op, arg1: Box::new(typed_a), arg2: Box::new(typed_b) },
        ty,
        errors,
    )
}

} // verus!
