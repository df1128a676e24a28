//! A law of type inference: the answer for an expression is the expression
//! itself with a type on every node.

use vstd::prelude::*;
use crate::expr::{
    shape, shape_entries, shape_list, BinaryOp, CallStyle, SpecExpr, SpecExprKind, UnaryOp,
};
use crate::request_env::SpecRequestEnv;
use crate::schema::SpecSchema;
use crate::typecheck::answer::SpecAnswer;
use crate::typecheck::attributes::{get_attr_answer, has_attr_answer};
use crate::typecheck::collections::{
    call_answer, record_answer, set_answer, SpecEntriesAnswer, SpecListAnswer,
};
use crate::typecheck::control::{and_answer, if_answer, or_answer};
use crate::typecheck::infer::{infer, infer_entries, infer_list};
use crate::typecheck::operators::{binary_answer, is_answer, like_answer, unary_answer};
use crate::types::ValidationMode;

verus! {

/// Whether the expression carries a type on every node.
pub open spec fn fully_typed(e: SpecExpr) -> bool
    decreases e,
{
    &&& e.data is Some
    &&& match e.kind {
        SpecExprKind::Lit(_) => true,
        SpecExprKind::Var(_) => true,
        SpecExprKind::Slot(_) => true,
        SpecExprKind::If { test_expr, then_expr, else_expr } => fully_typed(*test_expr)
            && fully_typed(*then_expr) && fully_typed(*else_expr),
        SpecExprKind::And { left, right } => fully_typed(*left) && fully_typed(*right),
        SpecExprKind::Or { left, right } => fully_typed(*left) && fully_typed(*right),
        SpecExprKind::UnaryApp { arg, .. } => fully_typed(*arg),
        SpecExprKind::BinaryApp { arg1, arg2, .. } => fully_typed(*arg1) && fully_typed(*arg2),
        SpecExprKind::ExtensionFunctionApp { args, .. } => forall|i: int|
            0 <= i < args.len() ==> fully_typed(#[trigger] args[i]),
        SpecExprKind::GetAttr { expr, .. } => fully_typed(*expr),
        SpecExprKind::HasAttr { expr, .. } => fully_typed(*expr),
        SpecExprKind::Like { expr, .. } => fully_typed(*expr),
        SpecExprKind::Is { expr, .. } => fully_typed(*expr),
        SpecExprKind::SetLit(elems) => forall|i: int|
            0 <= i < elems.len() ==> fully_typed(#[trigger] elems[i]),
        SpecExprKind::Record(entries) => forall|i: int|
            0 <= i < entries.len() ==> fully_typed((#[trigger] entries[i]).1),
    }
}

/// Whether `typed` is the expression `e` with a type on every node: it has
/// the shape of `e`, stands where `e` stands, and is typed throughout.
pub open spec fn annotates(typed: SpecExpr, e: SpecExpr) -> bool {
    shape(typed) == shape(e) && typed.source_loc == e.source_loc && fully_typed(typed)
}

/// The answers for a list of expressions are the expressions with a type on
/// every node.
pub proof fn list_is_annotated(
    schema: SpecSchema,
    mode: ValidationMode,
    env: SpecRequestEnv,
    caps: Set<(SpecExpr, Seq<char>)>,
    es: Seq<SpecExpr>,
    n: nat,
)
    requires
        n <= es.len(),
    ensures
        infer_list(schema, mode, env, caps, es, n).typed.len() == n,
        forall|i: int|
            0 <= i < n ==> annotates(
                #[trigger] infer_list(schema, mode, env, caps, es, n).typed[i],
                es[i],
            ),
        shape_list(infer_list(schema, mode, env, caps, es, n).typed, n) == shape_list(es, n),
    decreases es, n,
{
    if n > 0 {
        list_is_annotated(schema, mode, env, caps, es, (n - 1) as nat);
        answer_is_annotated(schema, mode, env, caps, es[n - 1]);
        let before = infer_list(schema, mode, env, caps, es, (n - 1) as nat).typed;
        let out = infer_list(schema, mode, env, caps, es, n).typed;
        shape_list_prefix(out, before, (n - 1) as nat);
    }
}

/// The shapes of the first expressions of a list are those of a list that
/// starts alike.
pub proof fn shape_list_prefix(a: Seq<SpecExpr>, b: Seq<SpecExpr>, n: nat)
    requires
        n <= a.len(),
        n <= b.len(),
        forall|i: int| 0 <= i < n ==> a[i] == b[i],
    ensures
        shape_list(a, n) == shape_list(b, n),
    decreases n,
{
    if n > 0 {
        shape_list_prefix(a, b, (n - 1) as nat);
    }
}

/// The entries of a record literal with the shapes of their first values
/// are those of a list that starts alike.
pub proof fn shape_entries_prefix(
    a: Seq<(Seq<char>, SpecExpr)>,
    b: Seq<(Seq<char>, SpecExpr)>,
    n: nat,
)
    requires
        n <= a.len(),
        n <= b.len(),
        forall|i: int| 0 <= i < n ==> a[i] == b[i],
    ensures
        shape_entries(a, n) == shape_entries(b, n),
    decreases n,
{
    if n > 0 {
        shape_entries_prefix(a, b, (n - 1) as nat);
    }
}

/// The answers for the values of a record literal are the values with a
/// type on every node, under the names of their entries.
pub proof fn entries_are_annotated(
    schema: SpecSchema,
    mode: ValidationMode,
    env: SpecRequestEnv,
    caps: Set<(SpecExpr, Seq<char>)>,
    es: Seq<(Seq<char>, SpecExpr)>,
    n: nat,
)
    requires
        n <= es.len(),
    ensures
        infer_entries(schema, mode, env, caps, es, n).typed.len() == n,
        forall|i: int|
            0 <= i < n ==> (#[trigger] infer_entries(schema, mode, env, caps, es, n).typed[i]).0
                == es[i].0 && annotates(
                infer_entries(schema, mode, env, caps, es, n).typed[i].1,
                es[i].1,
            ),
        shape_entries(infer_entries(schema, mode, env, caps, es, n).typed, n) == shape_entries(
            es,
            n,
        ),
    decreases es, n,
{
    if n > 0 {
        entries_are_annotated(schema, mode, env, caps, es, (n - 1) as nat);
        answer_is_annotated(schema, mode, env, caps, es[n - 1].1);
        let before = infer_entries(schema, mode, env, caps, es, (n - 1) as nat).typed;
        let out = infer_entries(schema, mode, env, caps, es, n).typed;
        shape_entries_prefix(out, before, (n - 1) as nat);
    }
}

/// The rules for the forms with one part give the form with that part
/// annotated.
proof fn one_part_annotated(
    schema: SpecSchema,
    mode: ValidationMode,
    env: SpecRequestEnv,
    caps: Set<(SpecExpr, Seq<char>)>,
    e: SpecExpr,
    child: SpecExpr,
    text: Seq<char>,
    op: UnaryOp,
    a: SpecAnswer,
)
    requires
        annotates(a.typed, child),
    ensures
        e.kind == (SpecExprKind::UnaryApp { op, arg: Box::new(child) }) ==> annotates(
            unary_answer(mode, e, op, child, a).typed,
            e,
        ),
        e.kind == (SpecExprKind::Like { expr: Box::new(child), pattern: text }) ==> annotates(
            like_answer(mode, e, child, text, a).typed,
            e,
        ),
        e.kind == (SpecExprKind::Is { expr: Box::new(child), entity_type: text }) ==> annotates(
            is_answer(e, child, text, a).typed,
            e,
        ),
        e.kind == (SpecExprKind::GetAttr { expr: Box::new(child), attr: text }) ==> annotates(
            get_attr_answer(schema, env, caps, e, child, text, a).typed,
            e,
        ),
        e.kind == (SpecExprKind::HasAttr { expr: Box::new(child), attr: text }) ==> annotates(
            has_attr_answer(schema, e, child, text, a).typed,
            e,
        ),
{
}

/// The rules for the forms with two parts give the form with both parts
/// annotated.
proof fn two_parts_annotated(
    schema: SpecSchema,
    mode: ValidationMode,
    e: SpecExpr,
    left: SpecExpr,
    right: SpecExpr,
    op: BinaryOp,
    l: SpecAnswer,
    r: SpecAnswer,
)
    requires
        annotates(l.typed, left),
        annotates(r.typed, right),
    ensures
        e.kind == (SpecExprKind::And { left: Box::new(left), right: Box::new(right) })
            ==> annotates(and_answer(mode, e, left, right, l, r).typed, e),
        e.kind == (SpecExprKind::Or { left: Box::new(left), right: Box::new(right) })
            ==> annotates(or_answer(mode, e, left, right, l, r).typed, e),
        e.kind == (SpecExprKind::BinaryApp { op, arg1: Box::new(left), arg2: Box::new(right) })
            ==> annotates(binary_answer(schema, mode, e, op, left, right, l, r).typed, e),
{
}

/// The rule for the conditional gives the conditional with its parts
/// annotated.
proof fn conditional_annotated(
    mode: ValidationMode,
    e: SpecExpr,
    test: SpecExpr,
    then: SpecExpr,
    otherwise: SpecExpr,
    c: SpecAnswer,
    t: SpecAnswer,
    f: SpecAnswer,
)
    requires
        annotates(c.typed, test),
        annotates(t.typed, then),
        annotates(f.typed, otherwise),
        e.kind == (SpecExprKind::If {
            test_expr: Box::new(test),
            then_expr: Box::new(then),
            else_expr: Box::new(otherwise),
        }),
    ensures
        annotates(if_answer(mode, e, test, c, t, f).typed, e),
{
}

/// The rules for the forms with a list of parts give the form with the
/// parts annotated.
proof fn list_form_annotated(
    schema: SpecSchema,
    mode: ValidationMode,
    e: SpecExpr,
    fn_name: Seq<char>,
    style: CallStyle,
    given: Seq<SpecExpr>,
    a: SpecListAnswer,
)
    requires
        a.typed.len() == given.len(),
        forall|i: int| 0 <= i < given.len() ==> annotates(#[trigger] a.typed[i], given[i]),
        shape_list(a.typed, given.len()) == shape_list(given, given.len()),
    ensures
        e.kind == (SpecExprKind::ExtensionFunctionApp { fn_name, style, args: given })
            ==> annotates(call_answer(schema, mode, e, fn_name, style, given, a).typed, e),
        e.kind == SpecExprKind::SetLit(given) ==> annotates(set_answer(mode, e, a).typed, e),
{
}

/// The rule for the record literal gives the literal with its values
/// annotated.
proof fn record_annotated(e: SpecExpr, given: Seq<(Seq<char>, SpecExpr)>, a: SpecEntriesAnswer)
    requires
        e.kind == SpecExprKind::Record(given),
        a.typed.len() == given.len(),
        forall|i: int|
            0 <= i < given.len() ==> (#[trigger] a.typed[i]).0 == given[i].0 && annotates(
                a.typed[i].1,
                given[i].1,
            ),
        shape_entries(a.typed, given.len()) == shape_entries(given, given.len()),
    ensures
        annotates(record_answer(e, a).typed, e),
{
}

/// The answer for an expression is the expression with a type on every
/// node: it has the shape of the expression, stands where the expression
/// stands, and carries a type throughout, whether or not the expression
/// typechecks.
#[verifier::spinoff_prover]
#[verifier::rlimit(50)]
pub proof fn answer_is_annotated(
    schema: SpecSchema,
    mode: ValidationMode,
    env: SpecRequestEnv,
    caps: Set<(SpecExpr, Seq<char>)>,
    e: SpecExpr,
)
    ensures
        annotates(infer(schema, mode, env, caps, e).typed, e),
    decreases e, 0nat,
{
    match e.kind {
        SpecExprKind::Lit(_) => {},
        SpecExprKind::Var(_) => {},
        SpecExprKind::Slot(_) => {},
        SpecExprKind::If { test_expr, then_expr, else_expr } => {
            answer_is_annotated(schema, mode, env, caps, *test_expr);
            let c = infer(schema, mode, env, caps, *test_expr);
            answer_is_annotated(schema, mode, env, caps.union(c.caps), *then_expr);
            answer_is_annotated(schema, mode, env, caps, *else_expr);
            conditional_annotated(
                mode,
                e,
                *test_expr,
                *then_expr,
                *else_expr,
                c,
                infer(schema, mode, env, caps.union(c.caps), *then_expr),
                infer(schema, mode, env, caps, *else_expr),
            );
        },
        SpecExprKind::And { left, right } => {
            answer_is_annotated(schema, mode, env, caps, *left);
            let l = infer(schema, mode, env, caps, *left);
            answer_is_annotated(schema, mode, env, caps.union(l.caps), *right);
            two_parts_annotated(
                schema,
                mode,
                e,
                *left,
                *right,
                BinaryOp::Eq,
                l,
                infer(schema, mode, env, caps.union(l.caps), *right),
            );
        },
        SpecExprKind::Or { left, right } => {
            answer_is_annotated(schema, mode, env, caps, *left);
            answer_is_annotated(schema, mode, env, caps, *right);
            two_parts_annotated(
                schema,
                mode,
                e,
                *left,
                *right,
                BinaryOp::Eq,
                infer(schema, mode, env, caps, *left),
                infer(schema, mode, env, caps, *right),
            );
        },
        SpecExprKind::UnaryApp { op, arg } => {
            answer_is_annotated(schema, mode, env, caps, *arg);
            one_part_annotated(
                schema,
                mode,
                env,
                caps,
                e,
                *arg,
                Seq::empty(),
                op,
                infer(schema, mode, env, caps, *arg),
            );
        },
        SpecExprKind::BinaryApp { op, arg1, arg2 } => {
            answer_is_annotated(schema, mode, env, caps, *arg1);
            answer_is_annotated(schema, mode, env, caps, *arg2);
            two_parts_annotated(
                schema,
                mode,
                e,
                *arg1,
                *arg2,
                op,
                infer(schema, mode, env, caps, *arg1),
                infer(schema, mode, env, caps, *arg2),
            );
        },
        SpecExprKind::ExtensionFunctionApp { fn_name, style, args } => {
            list_is_annotated(schema, mode, env, caps, args, args.len());
            list_form_annotated(
                schema,
                mode,
                e,
                fn_name,
                style,
                args,
                infer_list(schema, mode, env, caps, args, args.len()),
            );
        },
        SpecExprKind::GetAttr { expr, attr } => {
            answer_is_annotated(schema, mode, env, caps, *expr);
            one_part_annotated(
                schema,
                mode,
                env,
                caps,
                e,
                *expr,
                attr,
                UnaryOp::Not,
                infer(schema, mode, env, caps, *expr),
            );
        },
        SpecExprKind::HasAttr { expr, attr } => {
            answer_is_annotated(schema, mode, env, caps, *expr);
            one_part_annotated(
                schema,
                mode,
                env,
                caps,
                e,
                *expr,
                attr,
                UnaryOp::Not,
                infer(schema, mode, env, caps, *expr),
            );
        },
        SpecExprKind::Like { expr, pattern } => {
            answer_is_annotated(schema, mode, env, caps, *expr);
            one_part_annotated(
                schema,
                mode,
                env,
                caps,
                e,
                *expr,
                pattern,
                UnaryOp::Not,
                infer(schema, mode, env, caps, *expr),
            );
        },
        SpecExprKind::Is { expr, entity_type } => {
            answer_is_annotated(schema, mode, env, caps, *expr);
            one_part_annotated(
                schema,
                mode,
                env,
                caps,
                e,
                *expr,
                entity_type,
                UnaryOp::Not,
                infer(schema, mode, env, caps, *expr),
            );
        },
        SpecExprKind::SetLit(elems) => {
            list_is_annotated(schema, mode, env, caps, elems, elems.len());
            list_form_annotated(
                schema,
                mode,
                e,
                Seq::empty(),
                CallStyle::FunctionStyle,
                elems,
                infer_list(schema, mode, env, caps, elems, elems.len()),
            );
        },
        SpecExprKind::Record(entries) => {
            entries_are_annotated(schema, mode, env, caps, entries, entries.len());
            record_annotated(
                e,
                entries,
                infer_entries(schema, mode, env, caps, entries, entries.len()),
            );
        },
    }
}

} // verus!
