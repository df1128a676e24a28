//! What typechecking an expression yields, and the steps shared by the
//! typing rules.

use vstd::prelude::*;
use crate::capability::CapabilitySet;
use crate::expr::{clone_loc, Expr, ExprKind, SpecExpr, SpecExprKind};
use crate::type_order::sorted_types;
use crate::types::{subtype, types_view, SpecType, Type, ValidationMode};
use crate::validation_errors::{
    SpecErrorKind, SpecTypeError, TypeError, UnexpectedTypeHelp,
};

verus! {

/// A list of type errors as mathematical values.
pub open spec fn errors_view(errors: Seq<TypeError>) -> Seq<SpecTypeError> {
    Seq::new(errors.len(), |i: int| errors[i]@)
}

/// The view of a list of errors with one more is the view with one more.
pub proof fn errors_view_push(errors: Seq<TypeError>, e: TypeError)
    ensures
        errors_view(errors.push(e)) == errors_view(errors).push(e@),
{
    assert(errors_view(errors.push(e)) =~= errors_view(errors).push(e@));
}

/// The view of two lists of errors in a row is the two views in a row.
pub proof fn errors_view_add(a: Seq<TypeError>, b: Seq<TypeError>)
    ensures
        errors_view(a + b) == errors_view(a) + errors_view(b),
{
    assert(errors_view(a + b) =~= errors_view(a) + errors_view(b));
}

/// What typechecking an expression yields, as a mathematical value.
pub struct SpecAnswer {
    /// The expression with a type on each node.
    pub typed: SpecExpr,
    /// What is known once the expression has evaluated to `true`.
    pub caps: Set<(SpecExpr, Seq<char>)>,
    /// The errors found, in the order of the expression.
    pub errors: Seq<SpecTypeError>,
}

impl SpecAnswer {
    /// The type inferred for the expression.
    pub open spec fn ty(self) -> SpecType {
        match self.typed.data {
            Some(t) => t,
            None => SpecType::Never,
        }
    }

    /// Whether the expression typechecks.
    pub open spec fn ok(self) -> bool {
        self.errors.len() == 0
    }
}

/// What typechecking an expression yields.
#[derive(Debug)]
pub struct Answer {
    /// The expression with a type on each node.
    pub typed: Expr,
    /// What is known once the expression has evaluated to `true`.
    pub caps: CapabilitySet,
    /// The errors found, in the order of the expression.
    pub errors: Vec<TypeError>,
}

impl View for Answer {
    type V = SpecAnswer;

    open spec fn view(&self) -> SpecAnswer {
        SpecAnswer { typed: self.typed@, caps: self.caps@, errors: errors_view(self.errors@) }
    }
}

/// The expression `e` with its parts replaced by `kind` and typed `ty`.
pub open spec fn annotated(e: SpecExpr, kind: SpecExprKind, ty: SpecType) -> SpecExpr {
    SpecExpr { kind, source_loc: e.source_loc, data: Some(ty) }
}

/// The answer for an expression of type `ty` that establishes nothing.
pub open spec fn answer(
    e: SpecExpr,
    kind: SpecExprKind,
    ty: SpecType,
    errors: Seq<SpecTypeError>,
) -> SpecAnswer {
    SpecAnswer { typed: annotated(e, kind, ty), caps: Set::empty(), errors }
}

/// The error for an expression whose type is none of the expected ones.
pub open spec fn unexpected(
    e: SpecExpr,
    expected: Seq<SpecType>,
    actual: SpecType,
    help: Option<UnexpectedTypeHelp>,
) -> SpecTypeError {
    SpecTypeError::on(
        e,
        SpecErrorKind::UnexpectedType { expected: sorted_types(expected), actual, help },
    )
}

/// The errors of demanding that `e`, of type `actual`, be of a subtype of
/// `expected`.
pub open spec fn expect(
    mode: ValidationMode,
    e: SpecExpr,
    expected: SpecType,
    actual: SpecType,
    help: Option<UnexpectedTypeHelp>,
) -> Seq<SpecTypeError> {
    if subtype(actual, expected, mode) {
        Seq::empty()
    } else {
        seq![unexpected(e, seq![expected], actual, help)]
    }
}

impl Answer {
    /// The type inferred for the expression.
    pub fn ty(&self) -> (out: Type)
        ensures
            out@ == self@.ty(),
    {
        match &self.typed.data {
            Some(t) => t.clone(),
            None => Type::Never,
        }
    }

    /// Whether the expression typechecks.
    pub fn ok(&self) -> (out: bool)
        ensures
            out == self@.ok(),
    {
        self.errors.len() == 0
    }

    /// The answer for `e` with parts `kind`, of type `ty`, with the given
    /// capabilities and errors.
    pub fn new(e: &Expr, kind: ExprKind, ty: Type, caps: CapabilitySet, errors: Vec<TypeError>) -> (out:
        Answer)
        ensures
            out@ == (SpecAnswer {
                typed: annotated(e@, kind@, ty@),
                caps: caps@,
                errors: errors_view(errors@),
            }),
    {
        Answer {
            typed: Expr { expr_kind: kind, source_loc: clone_loc(&e.source_loc), data: Some(ty) },
            caps,
            errors,
        }
    }

    /// The answer for `e` with parts `kind`, of type `ty`, that establishes
    /// nothing.
    pub fn plain(e: &Expr, kind: ExprKind, ty: Type, errors: Vec<TypeError>) -> (out: Answer)
        ensures
            out@ == answer(e@, kind@, ty@, errors_view(errors@)),
    {
        Answer::new(e, kind, ty, CapabilitySet::new(), errors)
    }
}

/// Adds to `errors` the errors of demanding that `e`, of type `actual`, be
/// of a subtype of `expected`.
pub fn expect_type(
    mode: ValidationMode,
    e: &Expr,
    expected: Type,
    actual: &Type,
    help: Option<UnexpectedTypeHelp>,
    errors: &mut Vec<TypeError>,
)
    ensures
        errors_view(final(errors)@) == errors_view(old(errors)@) + expect(
            mode,
            e@,
            expected@,
            actual@,
            help,
        ),
{
    if !Type::is_subtype(actual, &expected, mode) {
        let mut types: Vec<Type> = Vec::new();
        types.push(expected);
        assert(types_view(types@) =~= seq![expected@]);
        let err = TypeError::expected_one_of_types(e.clone(), types, actual.clone(), help);
        proof {
            errors_view_push(errors@, err);
            assert(errors_view(errors@).push(err@) =~= errors_view(errors@) + seq![err@]);
        }
        errors.push(err);
    } else {
        assert(errors_view(errors@) + Seq::<SpecTypeError>::empty() =~= errors_view(errors@));
    }
}

/// Moves the errors of `more` behind those of `errors`.
pub fn add_errors(errors: &mut Vec<TypeError>, more: Vec<TypeError>)
    ensures
        errors_view(final(errors)@) == errors_view(old(errors)@) + errors_view(more@),
{
    let mut more = more;
    proof {
        errors_view_add(errors@, more@);
    }
    errors.append(&mut more);
}

/// Adds `err` to `errors`.
pub fn add_error(errors: &mut Vec<TypeError>, err: TypeError)
    ensures
        errors_view(final(errors)@) == errors_view(old(errors)@).push(err@),
{
    proof {
        errors_view_push(errors@, err);
    }
    errors.push(err);
}

} // verus!
