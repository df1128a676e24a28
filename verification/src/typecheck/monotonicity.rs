//! Laws of type inference: what is known where an expression stands bears
//! on its errors alone, and knowing more never adds an error; and the
//! outcome of typechecking is a function of what is checked.

use vstd::prelude::*;
use crate::expr::{BinaryOp, CallStyle, SpecExpr, SpecExprKind, UnaryOp};
use crate::policy::Template;
use crate::request_env::SpecRequestEnv;
use crate::schema::{SpecSchema, ValidatorSchema};
use crate::typecheck::answer::{expect, SpecAnswer};
use crate::typecheck::attributes::{get_attr_answer, has_attr_answer};
use crate::typecheck::collections::{
    call_answer, call_errors, function_count, function_index, list_types, set_answer,
    SpecListAnswer,
};
use crate::typecheck::control::{and_answer, if_answer, or_answer};
use crate::typecheck::infer::{infer, infer_entries, infer_list};
use crate::typecheck::operators::{
    binary_answer, binary_errors, is_answer, like_answer, unary_answer,
};
use crate::typecheck::{policy_errors, policy_warnings};
use crate::types::{SpecType, ValidationMode};
use crate::validation_errors::{SpecErrorKind, SpecTypeError, UnexpectedTypeHelp};

verus! {

/// Every error of `a` is an error of `b`.
pub open spec fn within(a: Seq<SpecTypeError>, b: Seq<SpecTypeError>) -> bool {
    forall|x: SpecTypeError| a.contains(x) ==> b.contains(x)
}

/// The answer `hi` differs from `lo` at most in lacking some of its errors.
pub open spec fn refines(hi: SpecAnswer, lo: SpecAnswer) -> bool {
    hi.typed == lo.typed && hi.caps == lo.caps && within(hi.errors, lo.errors)
}

/// An error is in two lists in a row exactly if it is in one of them.
proof fn contains_add(a: Seq<SpecTypeError>, b: Seq<SpecTypeError>, x: SpecTypeError)
    ensures
        (a + b).contains(x) <==> a.contains(x) || b.contains(x),
{
    if (a + b).contains(x) {
        let i = choose|i: int| 0 <= i < (a + b).len() && (a + b)[i] == x;
        if i < a.len() {
            assert(a[i] == x);
        } else {
            assert(b[i - a.len()] == x);
        }
    }
    if a.contains(x) {
        let i = choose|i: int| 0 <= i < a.len() && a[i] == x;
        assert((a + b)[i] == x);
    }
    if b.contains(x) {
        let i = choose|i: int| 0 <= i < b.len() && b[i] == x;
        assert((a + b)[a.len() + i] == x);
    }
}

/// Lists in a row are within lists in a row that they are within one by one.
proof fn within_add(
    a1: Seq<SpecTypeError>,
    b1: Seq<SpecTypeError>,
    a2: Seq<SpecTypeError>,
    b2: Seq<SpecTypeError>,
)
    requires
        within(a1, b1),
        within(a2, b2),
    ensures
        within(a1 + a2, b1 + b2),
{
    assert forall|x: SpecTypeError| (a1 + a2).contains(x) implies (b1 + b2).contains(x) by {
        contains_add(a1, a2, x);
        contains_add(b1, b2, x);
    }
}

/// A list stays within another when both get one more error, or the other
/// alone.
proof fn within_push(a: Seq<SpecTypeError>, b: Seq<SpecTypeError>, x: SpecTypeError)
    requires
        within(a, b),
    ensures
        within(a.push(x), b.push(x)),
        within(a, b.push(x)),
{
    assert(a.push(x) =~= a + seq![x]);
    assert(b.push(x) =~= b + seq![x]);
    within_add(a, b, seq![x], seq![x]);
    assert forall|y: SpecTypeError| a.contains(y) implies b.push(x).contains(y) by {
        contains_add(b, seq![x], y);
    }
}

/// Knowing more where the expressions of a list stand changes neither their
/// types nor adds an error.
pub proof fn list_monotonicity(
    schema: SpecSchema,
    mode: ValidationMode,
    env: SpecRequestEnv,
    caps: Set<(SpecExpr, Seq<char>)>,
    more: Set<(SpecExpr, Seq<char>)>,
    es: Seq<SpecExpr>,
    n: nat,
)
    requires
        caps.subset_of(more),
    ensures
        infer_list(schema, mode, env, more, es, n).typed == infer_list(
            schema,
            mode,
            env,
            caps,
            es,
            n,
        ).typed,
        within(
            infer_list(schema, mode, env, more, es, n).errors,
            infer_list(schema, mode, env, caps, es, n).errors,
        ),
    decreases es, n,
{
    if n == 0 || n > es.len() {
    } else {
        list_monotonicity(schema, mode, env, caps, more, es, (n - 1) as nat);
        capability_monotonicity(schema, mode, env, caps, more, es[n - 1]);
        within_add(
            infer_list(schema, mode, env, more, es, (n - 1) as nat).errors,
            infer_list(schema, mode, env, caps, es, (n - 1) as nat).errors,
            infer(schema, mode, env, more, es[n - 1]).errors,
            infer(schema, mode, env, caps, es[n - 1]).errors,
        );
    }
}

/// Knowing more where the values of a record literal stand changes neither
/// their types nor adds an error.
pub proof fn entries_monotonicity(
    schema: SpecSchema,
    mode: ValidationMode,
    env: SpecRequestEnv,
    caps: Set<(SpecExpr, Seq<char>)>,
    more: Set<(SpecExpr, Seq<char>)>,
    es: Seq<(Seq<char>, SpecExpr)>,
    n: nat,
)
    requires
        caps.subset_of(more),
    ensures
        infer_entries(schema, mode, env, more, es, n).typed == infer_entries(
            schema,
            mode,
            env,
            caps,
            es,
            n,
        ).typed,
        within(
            infer_entries(schema, mode, env, more, es, n).errors,
            infer_entries(schema, mode, env, caps, es, n).errors,
        ),
    decreases es, n,
{
    if n == 0 || n > es.len() {
    } else {
        entries_monotonicity(schema, mode, env, caps, more, es, (n - 1) as nat);
        capability_monotonicity(schema, mode, env, caps, more, es[n - 1].1);
        within_add(
            infer_entries(schema, mode, env, more, es, (n - 1) as nat).errors,
            infer_entries(schema, mode, env, caps, es, (n - 1) as nat).errors,
            infer(schema, mode, env, more, es[n - 1].1).errors,
            infer(schema, mode, env, caps, es[n - 1].1).errors,
        );
    }
}

/// The rule for the conditional keeps refinement.
proof fn if_refines(
    mode: ValidationMode,
    e: SpecExpr,
    test: SpecExpr,
    c2: SpecAnswer,
    c: SpecAnswer,
    t2: SpecAnswer,
    t: SpecAnswer,
    f2: SpecAnswer,
    f: SpecAnswer,
)
    requires
        refines(c2, c),
        refines(t2, t),
        refines(f2, f),
    ensures
        refines(if_answer(mode, e, test, c2, t2, f2), if_answer(mode, e, test, c, t, f)),
{
    let hi = if_answer(mode, e, test, c2, t2, f2);
    let lo = if_answer(mode, e, test, c, t, f);
    let local = expect(mode, test, SpecType::Boolean, c.ty(), None);
    within_add(c2.errors, c.errors, local, local);
    within_add(c2.errors + local, c.errors + local, t2.errors, t.errors);
    within_add(c2.errors + local, c.errors + local, f2.errors, f.errors);
    within_add(c2.errors + local + t2.errors, c.errors + local + t.errors, f2.errors, f.errors);
    if hi.errors.len() == (c2.errors + local + t2.errors + f2.errors).len() + 1 {
        within_push(
            c2.errors + local + t2.errors + f2.errors,
            c.errors + local + t.errors + f.errors,
            hi.errors.last(),
        );
    }
}

/// The rules for `&&` and `||` keep refinement.
proof fn and_refines(
    mode: ValidationMode,
    e: SpecExpr,
    left: SpecExpr,
    right: SpecExpr,
    l2: SpecAnswer,
    l: SpecAnswer,
    r2: SpecAnswer,
    r: SpecAnswer,
)
    requires
        refines(l2, l),
        refines(r2, r),
    ensures
        refines(and_answer(mode, e, left, right, l2, r2), and_answer(mode, e, left, right, l, r)),
        refines(or_answer(mode, e, left, right, l2, r2), or_answer(mode, e, left, right, l, r)),
{
    let local_l = expect(mode, left, SpecType::Boolean, l.ty(), None);
    let local_r = expect(mode, right, SpecType::Boolean, r.ty(), None);
    within_add(l2.errors, l.errors, local_l, local_l);
    within_add(l2.errors + local_l, l.errors + local_l, r2.errors, r.errors);
    within_add(
        l2.errors + local_l + r2.errors,
        l.errors + local_l + r.errors,
        local_r,
        local_r,
    );
}

/// The rules for the forms with one operand keep refinement.
proof fn unary_refines(
    mode: ValidationMode,
    e: SpecExpr,
    op: UnaryOp,
    arg: SpecExpr,
    pattern: Seq<char>,
    a2: SpecAnswer,
    a: SpecAnswer,
)
    requires
        refines(a2, a),
    ensures
        refines(unary_answer(mode, e, op, arg, a2), unary_answer(mode, e, op, arg, a)),
        refines(like_answer(mode, e, arg, pattern, a2), like_answer(mode, e, arg, pattern, a)),
        refines(is_answer(e, arg, pattern, a2), is_answer(e, arg, pattern, a)),
{
    let not = expect(mode, arg, SpecType::Boolean, a.ty(), None);
    let neg = expect(mode, arg, SpecType::Long, a.ty(), None);
    let like = expect(mode, arg, SpecType::String, a.ty(), Some(UnexpectedTypeHelp::TryUsingLike));
    within_add(a2.errors, a.errors, not, not);
    within_add(a2.errors, a.errors, neg, neg);
    within_add(a2.errors, a.errors, like, like);
    let lo = is_answer(e, arg, pattern, a);
    if lo.errors.len() == a.errors.len() + 1 {
        within_push(a2.errors, a.errors, lo.errors.last());
    }
}

/// The rule for the operators with two operands keeps refinement.
proof fn binary_refines(
    schema: SpecSchema,
    mode: ValidationMode,
    e: SpecExpr,
    op: BinaryOp,
    a: SpecExpr,
    b: SpecExpr,
    x2: SpecAnswer,
    x: SpecAnswer,
    y2: SpecAnswer,
    y: SpecAnswer,
)
    requires
        refines(x2, x),
        refines(y2, y),
    ensures
        refines(
            binary_answer(schema, mode, e, op, a, b, x2, y2),
            binary_answer(schema, mode, e, op, a, b, x, y),
        ),
{
    let local = binary_errors(schema, mode, e, op, a, b, x.ty(), y.ty());
    within_add(x2.errors, x.errors, y2.errors, y.errors);
    within_add(x2.errors + y2.errors, x.errors + y.errors, local, local);
}

/// The rules for attribute access and `has` keep refinement, the former
/// where more is known for the refining answer.
proof fn attr_refines(
    schema: SpecSchema,
    env: SpecRequestEnv,
    caps: Set<(SpecExpr, Seq<char>)>,
    more: Set<(SpecExpr, Seq<char>)>,
    e: SpecExpr,
    child: SpecExpr,
    attr: Seq<char>,
    a2: SpecAnswer,
    a: SpecAnswer,
)
    requires
        caps.subset_of(more),
        refines(a2, a),
    ensures
        refines(
            get_attr_answer(schema, env, more, e, child, attr, a2),
            get_attr_answer(schema, env, caps, e, child, attr, a),
        ),
        refines(
            has_attr_answer(schema, e, child, attr, a2),
            has_attr_answer(schema, e, child, attr, a),
        ),
{
    let lo = get_attr_answer(schema, env, caps, e, child, attr, a);
    if lo.errors.len() == a.errors.len() + 1 {
        within_push(a2.errors, a.errors, lo.errors.last());
    }
    let lo = has_attr_answer(schema, e, child, attr, a);
    if lo.errors.len() == a.errors.len() + 1 {
        within_push(a2.errors, a.errors, lo.errors.last());
    }
}

/// The rules for calls and set literals keep refinement.
proof fn list_refines(
    schema: SpecSchema,
    mode: ValidationMode,
    e: SpecExpr,
    fn_name: Seq<char>,
    style: CallStyle,
    given: Seq<SpecExpr>,
    a2: SpecListAnswer,
    a: SpecListAnswer,
)
    requires
        a2.typed == a.typed,
        within(a2.errors, a.errors),
    ensures
        refines(
            call_answer(schema, mode, e, fn_name, style, given, a2),
            call_answer(schema, mode, e, fn_name, style, given, a),
        ),
        refines(set_answer(mode, e, a2), set_answer(mode, e, a)),
{
    let count = function_count(schema, fn_name, schema.functions.len());
    let f = schema.functions[function_index(schema, fn_name, 0) as int];
    if count == 0 {
        within_push(
            a2.errors,
            a.errors,
            SpecTypeError::on(e, SpecErrorKind::UndefinedFunction { name: fn_name }),
        );
    } else if count > 1 {
        within_push(
            a2.errors,
            a.errors,
            SpecTypeError::on(e, SpecErrorKind::MultiplyDefinedFunction { name: fn_name }),
        );
    } else if given.len() != f.argument_types.len() {
        within_push(
            a2.errors,
            a.errors,
            SpecTypeError::on(
                e,
                SpecErrorKind::WrongNumberArguments {
                    expected: f.argument_types.len(),
                    actual: given.len(),
                },
            ),
        );
    } else {
        let local = call_errors(mode, e, f, style, given, list_types(a.typed));
        within_add(a2.errors, a.errors, local, local);
    }
    let lo = set_answer(mode, e, a);
    if lo.errors.len() == a.errors.len() + 1 {
        within_push(a2.errors, a.errors, lo.errors.last());
    }
}

/// Adding capabilities never introduces an error, and removing them never
/// removes one: where more is known, an expression has the same types on
/// its nodes, establishes the same, and every error it has it also has
/// where less is known.
pub proof fn capability_monotonicity(
    schema: SpecSchema,
    mode: ValidationMode,
    env: SpecRequestEnv,
    caps: Set<(SpecExpr, Seq<char>)>,
    more: Set<(SpecExpr, Seq<char>)>,
    e: SpecExpr,
)
    requires
        caps.subset_of(more),
    ensures
        refines(infer(schema, mode, env, more, e), infer(schema, mode, env, caps, e)),
    decreases e, 0nat,
{
    match e.kind {
        SpecExprKind::Lit(_) => {},
        SpecExprKind::Var(_) => {},
        SpecExprKind::Slot(_) => {},
        SpecExprKind::If { test_expr, then_expr, else_expr } => {
            capability_monotonicity(schema, mode, env, caps, more, *test_expr);
            let c = infer(schema, mode, env, caps, *test_expr);
            let c2 = infer(schema, mode, env, more, *test_expr);
            assert(caps.union(c.caps).subset_of(more.union(c2.caps)));
            capability_monotonicity(
                schema,
                mode,
                env,
                caps.union(c.caps),
                more.union(c2.caps),
                *then_expr,
            );
            capability_monotonicity(schema, mode, env, caps, more, *else_expr);
            if_refines(
                mode,
                e,
                *test_expr,
                c2,
                c,
                infer(schema, mode, env, more.union(c2.caps), *then_expr),
                infer(schema, mode, env, caps.union(c.caps), *then_expr),
                infer(schema, mode, env, more, *else_expr),
                infer(schema, mode, env, caps, *else_expr),
            );
        },
        SpecExprKind::And { left, right } => {
            capability_monotonicity(schema, mode, env, caps, more, *left);
            let l = infer(schema, mode, env, caps, *left);
            let l2 = infer(schema, mode, env, more, *left);
            assert(caps.union(l.caps).subset_of(more.union(l2.caps)));
            capability_monotonicity(
                schema,
                mode,
                env,
                caps.union(l.caps),
                more.union(l2.caps),
                *right,
            );
            and_refines(
                mode,
                e,
                *left,
                *right,
                l2,
                l,
                infer(schema, mode, env, more.union(l2.caps), *right),
                infer(schema, mode, env, caps.union(l.caps), *right),
            );
        },
        SpecExprKind::Or { left, right } => {
            capability_monotonicity(schema, mode, env, caps, more, *left);
            capability_monotonicity(schema, mode, env, caps, more, *right);
            and_refines(
                mode,
                e,
                *left,
                *right,
                infer(schema, mode, env, more, *left),
                infer(schema, mode, env, caps, *left),
                infer(schema, mode, env, more, *right),
                infer(schema, mode, env, caps, *right),
            );
        },
        SpecExprKind::UnaryApp { op, arg } => {
            capability_monotonicity(schema, mode, env, caps, more, *arg);
            unary_refines(
                mode,
                e,
                op,
                *arg,
                Seq::empty(),
                infer(schema, mode, env, more, *arg),
                infer(schema, mode, env, caps, *arg),
            );
        },
        SpecExprKind::BinaryApp { op, arg1, arg2 } => {
            capability_monotonicity(schema, mode, env, caps, more, *arg1);
            capability_monotonicity(schema, mode, env, caps, more, *arg2);
            binary_refines(
                schema,
                mode,
                e,
                op,
                *arg1,
                *arg2,
                infer(schema, mode, env, more, *arg1),
                infer(schema, mode, env, caps, *arg1),
                infer(schema, mode, env, more, *arg2),
                infer(schema, mode, env, caps, *arg2),
            );
        },
        SpecExprKind::ExtensionFunctionApp { fn_name, style, args } => {
            list_monotonicity(schema, mode, env, caps, more, args, args.len());
            list_refines(
                schema,
                mode,
                e,
                fn_name,
                style,
                args,
                infer_list(schema, mode, env, more, args, args.len()),
                infer_list(schema, mode, env, caps, args, args.len()),
            );
        },
        SpecExprKind::GetAttr { expr, attr } => {
            capability_monotonicity(schema, mode, env, caps, more, *expr);
            attr_refines(
                schema,
                env,
                caps,
                more,
                e,
                *expr,
                attr,
                infer(schema, mode, env, more, *expr),
                infer(schema, mode, env, caps, *expr),
            );
        },
        SpecExprKind::HasAttr { expr, attr } => {
            capability_monotonicity(schema, mode, env, caps, more, *expr);
            attr_refines(
                schema,
                env,
                caps,
                more,
                e,
                *expr,
                attr,
                infer(schema, mode, env, more, *expr),
                infer(schema, mode, env, caps, *expr),
            );
        },
        SpecExprKind::Like { expr, pattern } => {
            capability_monotonicity(schema, mode, env, caps, more, *expr);
            unary_refines(
                mode,
                e,
                UnaryOp::Not,
                *expr,
                pattern,
                infer(schema, mode, env, more, *expr),
                infer(schema, mode, env, caps, *expr),
            );
        },
        SpecExprKind::Is { expr, entity_type } => {
            capability_monotonicity(schema, mode, env, caps, more, *expr);
            unary_refines(
                mode,
                e,
                UnaryOp::Not,
                *expr,
                entity_type,
                infer(schema, mode, env, more, *expr),
                infer(schema, mode, env, caps, *expr),
            );
        },
        SpecExprKind::SetLit(elems) => {
            list_monotonicity(schema, mode, env, caps, more, elems, elems.len());
            list_refines(
                schema,
                mode,
                e,
                Seq::empty(),
                CallStyle::FunctionStyle,
                elems,
                infer_list(schema, mode, env, more, elems, elems.len()),
                infer_list(schema, mode, env, caps, elems, elems.len()),
            );
        },
        SpecExprKind::Record(entries) => {
            entries_monotonicity(schema, mode, env, caps, more, entries, entries.len());
        },
    }
}

/// Typechecking is deterministic: schemas and policies that denote the same
/// values have the same errors and the same warnings, and their conditions
/// the same types on their nodes under every environment.
pub proof fn typechecking_is_deterministic(
    schema: ValidatorSchema,
    same_schema: ValidatorSchema,
    policy: Template,
    same_policy: Template,
    mode: ValidationMode,
    env: SpecRequestEnv,
)
    requires
        schema@ == same_schema@,
        policy@ == same_policy@,
    ensures
        policy_errors(schema@, mode, policy@) == policy_errors(same_schema@, mode, same_policy@),
        policy_warnings(schema@, mode, policy@) == policy_warnings(
            same_schema@,
            mode,
            same_policy@,
        ),
        infer(schema@, mode, env, Set::empty(), policy@.condition) == infer(
            same_schema@,
            mode,
            env,
            Set::empty(),
            same_policy@.condition,
        ),
{
}

} // verus!
