//! Type inference: the type of every node of an expression, what the
//! expression establishes, and the errors in it, by the typing rule of each
//! form of expression.

use vstd::prelude::*;
use crate::capability::CapabilitySet;
use crate::expr::{
    entries_view, exprs_view, list_views, Expr, ExprKind, SpecExpr, SpecExprKind,
};
use crate::request_env::{RequestEnv, SpecRequestEnv};
use crate::schema::{SpecSchema, ValidatorSchema};
use crate::typecheck::answer::{add_errors, answer, errors_view, Answer, SpecAnswer};
use crate::typecheck::attributes::{
    check_get_attr, check_has_attr, get_attr_answer, has_attr_answer,
};
use crate::typecheck::collections::{
    call_answer, check_call, check_record, check_set, record_answer, set_answer, EntriesAnswer,
    ListAnswer, SpecEntriesAnswer, SpecListAnswer,
};
use crate::typecheck::control::{
    and_answer, check_and, check_if, check_or, if_answer, or_answer,
};
use crate::typecheck::leaves::{
    check_literal, check_slot, check_var, literal_answer, slot_type, var_type,
};
use crate::typecheck::operators::{
    binary_answer, check_binary, check_is, check_like, check_unary, is_answer, like_answer,
    unary_answer,
};
use crate::types::ValidationMode;
use crate::validation_errors::{SpecTypeError, TypeError};

verus! {

/// The answer for the first `n` expressions of a list, each checked with
/// what is known in `caps`.
pub open spec fn infer_list(
    schema: SpecSchema,
    mode: ValidationMode,
    env: SpecRequestEnv,
    caps: Set<(SpecExpr, Seq<char>)>,
    es: Seq<SpecExpr>,
    n: nat,
) -> SpecListAnswer
    decreases es, n,
{
    if n == 0 || n > es.len() {
        SpecListAnswer { typed: Seq::empty(), errors: Seq::empty() }
    } else {
        let before = infer_list(schema, mode, env, caps, es, (n - 1) as nat);
        let a = infer(schema, mode, env, caps, es[n - 1]);
        SpecListAnswer { typed: before.typed.push(a.typed), errors: before.errors + a.errors }
    }
}

/// The answer for the values of the first `n` entries of a record literal,
/// each checked with what is known in `caps`.
pub open spec fn infer_entries(
    schema: SpecSchema,
    mode: ValidationMode,
    env: SpecRequestEnv,
    caps: Set<(SpecExpr, Seq<char>)>,
    es: Seq<(Seq<char>, SpecExpr)>,
    n: nat,
) -> SpecEntriesAnswer
    decreases es, n,
{
    if n == 0 || n > es.len() {
        SpecEntriesAnswer { typed: Seq::empty(), errors: Seq::empty() }
    } else {
        let before = infer_entries(schema, mode, env, caps, es, (n - 1) as nat);
        let a = infer(schema, mode, env, caps, es[n - 1].1);
        SpecEntriesAnswer {
            typed: before.typed.push((es[n - 1].0, a.typed)),
            errors: before.errors + a.errors,
        }
    }
}

/// The answer for the expression `e` in requests of the environment `env`,
/// at a place where `caps` is known: the parts of `e` are checked first, from
/// left to right, and the rule for the form of `e` makes the answer for `e`
/// from theirs.
pub open spec fn infer(
    schema: SpecSchema,
    mode: ValidationMode,
    env: SpecRequestEnv,
    caps: Set<(SpecExpr, Seq<char>)>,
    e: SpecExpr,
) -> SpecAnswer
    decreases e, 0nat,
{
    match e.kind {
        SpecExprKind::Lit(l) => literal_answer(schema, e, l),
        SpecExprKind::Var(v) => answer(e, SpecExprKind::Var(v), var_type(env, v), Seq::empty()),
        SpecExprKind::Slot(s) => answer(e, SpecExprKind::Slot(s), slot_type(env, s), Seq::empty()),
        SpecExprKind::If { test_expr, then_expr, else_expr } => {
            let c = infer(schema, mode, env, caps, *test_expr);
            let t = infer(schema, mode, env, caps.union(c.caps), *then_expr);
            let f = infer(schema, mode, env, caps, *else_expr);
            if_answer(mode, e, *test_expr, c, t, f)
        },
        SpecExprKind::And { left, right } => {
            let l = infer(schema, mode, env, caps, *left);
            let r = infer(schema, mode, env, caps.union(l.caps), *right);
            and_answer(mode, e, *left, *right, l, r)
        },
        SpecExprKind::Or { left, right } => {
            let l = infer(schema, mode, env, caps, *left);
            let r = infer(schema, mode, env, caps, *right);
            or_answer(mode, e, *left, *right, l, r)
        },
        SpecExprKind::UnaryApp { op, arg } => unary_answer(
            mode,
            e,
            op,
            *arg,
            infer(schema, mode, env, caps, *arg),
        ),
        SpecExprKind::BinaryApp { op, arg1, arg2 } => binary_answer(
            schema,
            mode,
            e,
            op,
            *arg1,
            *arg2,
            infer(schema, mode, env, caps, *arg1),
            infer(schema, mode, env, caps, *arg2),
        ),
        SpecExprKind::ExtensionFunctionApp { fn_name, style, args } => call_answer(
            schema,
            mode,
            e,
            fn_name,
            style,
            args,
            infer_list(schema, mode, env, caps, args, args.len()),
        ),
        SpecExprKind::GetAttr { expr, attr } => get_attr_answer(
            schema,
            env,
            caps,
            e,
            *expr,
            attr,
            infer(schema, mode, env, caps, *expr),
        ),
        SpecExprKind::HasAttr { expr, attr } => has_attr_answer(
            schema,
            e,
            *expr,
            attr,
            infer(schema, mode, env, caps, *expr),
        ),
        SpecExprKind::Like { expr, pattern } => like_answer(
            mode,
            e,
            *expr,
            pattern,
            infer(schema, mode, env, caps, *expr),
        ),
        SpecExprKind::Is { expr, entity_type } => is_answer(
            e,
            *expr,
            entity_type,
            infer(schema, mode, env, caps, *expr),
        ),
        SpecExprKind::SetLit(elems) => set_answer(
            mode,
            e,
            infer_list(schema, mode, env, caps, elems, elems.len()),
        ),
        SpecExprKind::Record(entries) => record_answer(
            e,
            infer_entries(schema, mode, env, caps, entries, entries.len()),
        ),
    }
}

/// The answer for a list of expressions, each checked with what is known in
/// `caps`.
pub fn check_list(
    schema: &ValidatorSchema,
    mode: ValidationMode,
    env: &RequestEnv,
    caps: &CapabilitySet,
    es: &Vec<Expr>,
) -> (out: ListAnswer)
    ensures
        out@ == infer_list(schema@, mode, env@, caps@, exprs_view(es@), es@.len()),
        out@.typed.len() == es@.len(),
    decreases es,
{
    let ghost ev = exprs_view(es@);
    let mut typed: Vec<Expr> = Vec::new();
    let mut errors: Vec<TypeError> = Vec::new();
    let mut i: usize = 0;
    proof {
        assert(exprs_view(typed@) =~= Seq::<SpecExpr>::empty());
        assert(errors_view(errors@) =~= Seq::<SpecTypeError>::empty());
    }
    while i < es.len()
        invariant
            i <= es.len(),
            ev == exprs_view(es@),
            typed@.len() == i,
            (SpecListAnswer { typed: exprs_view(typed@), errors: errors_view(errors@) })
                == infer_list(schema@, mode, env@, caps@, ev, i as nat),
        decreases es.len() - i,
    {
        let ghost before = exprs_view(typed@);
        let a = check(schema, mode, env, caps, &es[i]);
        let Answer { typed: t, caps: _, errors: more } = a;
        typed.push(t);
        add_errors(&mut errors, more);
        assert(exprs_view(typed@) =~= before.push(t@));
        i += 1;
    }
    ListAnswer { typed, errors }
}

/// The answer for the values of a record literal, each checked with what is
/// known in `caps`.
pub fn check_entries(
    schema: &ValidatorSchema,
    mode: ValidationMode,
    env: &RequestEnv,
    caps: &CapabilitySet,
    es: &Vec<(String, Expr)>,
) -> (out: EntriesAnswer)
    ensures
        out@ == infer_entries(schema@, mode, env@, caps@, entries_view(es@), es@.len()),
    decreases es,
{
    let ghost ev = entries_view(es@);
    let mut typed: Vec<(String, Expr)> = Vec::new();
    let mut errors: Vec<TypeError> = Vec::new();
    let mut i: usize = 0;
    proof {
        assert(entries_view(typed@) =~= Seq::<(Seq<char>, SpecExpr)>::empty());
        assert(errors_view(errors@) =~= Seq::<SpecTypeError>::empty());
    }
    while i < es.len()
        invariant
            i <= es.len(),
            ev == entries_view(es@),
            (SpecEntriesAnswer { typed: entries_view(typed@), errors: errors_view(errors@) })
                == infer_entries(schema@, mode, env@, caps@, ev, i as nat),
        decreases es.len() - i,
    {
        let ghost before = entries_view(typed@);
        let a = check(schema, mode, env, caps, &es[i].1);
        let Answer { typed: t, caps: _, errors: more } = a;
        let name = es[i].0.clone();
        typed.push((name, t));
        add_errors(&mut errors, more);
        assert(entries_view(typed@) =~= before.push((name@, t@)));
        i += 1;
    }
    EntriesAnswer { typed, errors }
}

/// The answer for the expression `e` in requests of the environment `env`,
/// at a place where `caps` is known.
pub fn check(
    schema: &ValidatorSchema,
    mode: ValidationMode,
    env: &RequestEnv,
    caps: &CapabilitySet,
    e: &Expr,
) -> (out: Answer)
    ensures
        out@ == infer(schema@, mode, env@, caps@, e@),
    decreases e,
{
    proof {
        list_views(e.expr_kind);
    }
    match &e.expr_kind {
        ExprKind::Lit(l) => check_literal(schema, e, l),
        ExprKind::Var(v) => {
            let errors: Vec<TypeError> = Vec::new();
            assert(errors_view(errors@) =~= Seq::<SpecTypeError>::empty());
            Answer::plain(e, ExprKind::Var(*v), check_var(env, *v), errors)
        },
        ExprKind::Slot(s) => {
            let errors: Vec<TypeError> = Vec::new();
            assert(errors_view(errors@) =~= Seq::<SpecTypeError>::empty());
            Answer::plain(e, ExprKind::Slot(*s), check_slot(env, *s), errors)
        },
        ExprKind::If { test_expr, then_expr, else_expr } => {
            let c = check(schema, mode, env, caps, test_expr);
            let guarded = caps.union(&c.caps);
            let t = check(schema, mode, env, &guarded, then_expr);
            let f = check(schema, mode, env, caps, else_expr);
            check_if(mode, e, test_expr, c, t, f)
        },
        ExprKind::And { left, right } => {
            let l = check(schema, mode, env, caps, left);
            let guarded = caps.union(&l.caps);
            let r = check(schema, mode, env, &guarded, right);
            check_and(mode, e, left, right, l, r)
        },
        ExprKind::Or { left, right } => {
            let l = check(schema, mode, env, caps, left);
            let r = check(schema, mode, env, caps, right);
            check_or(mode, e, left, right, l, r)
        },
        ExprKind::UnaryApp { op, arg } => {
            let a = check(schema, mode, env, caps, arg);
            check_unary(mode, e, *op, arg, a)
        },
        ExprKind::BinaryApp { op, arg1, arg2 } => {
            let x = check(schema, mode, env, caps, arg1);
            let y = check(schema, mode, env, caps, arg2);
            check_binary(schema, mode, e, *op, arg1, arg2, x, y)
        },
        ExprKind::ExtensionFunctionApp { fn_name, style, args } => {
            let answers = check_list(schema, mode, env, caps, args);
            check_call(schema, mode, e, fn_name, *style, args, answers)
        },
        ExprKind::GetAttr { expr, attr } => {
            let a = check(schema, mode, env, caps, expr);
            check_get_attr(schema, env, caps, e, expr, attr, a)
        },
        ExprKind::HasAttr { expr, attr } => {
            let a = check(schema, mode, env, caps, expr);
            check_has_attr(schema, e, expr, attr, a)
        },
        ExprKind::Like { expr, pattern } => {
            let a = check(schema, mode, env, caps, expr);
            check_like(mode, e, expr, pattern, a)
        },
        ExprKind::Is { expr, entity_type } => {
            let a = check(schema, mode, env, caps, expr);
            check_is(e, expr, entity_type, a)
        },
        ExprKind::SetLit(elems) => {
            let answers = check_list(schema, mode, env, caps, elems);
            check_set(mode, e, answers)
        },
        ExprKind::Record(entries) => {
            let answers = check_entries(schema, mode, env, caps, entries);
            check_record(e, answers)
        },
    }
}

} // verus!
