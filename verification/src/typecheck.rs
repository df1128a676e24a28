//! The typechecker: infers a type for every node of a policy expression
//! under a request environment and reports the type errors it finds; and
//! checks a policy under every environment that its scope admits.

pub mod annotation;
pub mod answer;
pub mod attributes;
pub mod collections;
pub mod control;
pub mod infer;
pub mod leaves;
pub mod monotonicity;
pub mod operators;
pub mod test_utils;

use vstd::prelude::*;
use crate::capability::CapabilitySet;
use crate::expr::{
    clone_loc, loc_view, same_loc, EntityType, EntityUID, Expr, Loc, SpecEntityType,
    SpecEntityUID, SpecExpr, SpecLoc,
};
use crate::policy::{PolicyID, SpecTemplate, Template};
use crate::request_env::{
    envs_view, in_would_fix_principal, in_would_fix_resource, policy_envs, policy_request_envs,
    would_in_fix_principal, would_in_fix_resource, RequestEnv, SpecRequestEnv,
};
use crate::schema::{SpecSchema, ValidatorSchema};
use crate::typecheck::answer::{
    add_errors, errors_view, errors_view_push, expect, expect_type, Answer,
};
use crate::typecheck::infer::{check, infer};
use crate::types::{
    attributes_view, OpenTag, SpecAttribute, SpecType, Type, ValidationMode,
};
use crate::validation_errors::{
    same_error, SpecErrorKind, SpecTypeError, TypeError,
};

verus! {

/// The outcome of typechecking an expression.
#[derive(Debug)]
pub enum TypecheckAnswer {
    /// The expression typechecks.
    TypecheckSuccess {
        /// The expression with a type on each node.
        expr_type: Expr,
        /// What is known once the expression has evaluated to `true`.
        expr_capability: CapabilitySet,
    },
    /// The expression does not typecheck.
    TypecheckFail {
        /// The expression with a type on each node, of which some stand in
        /// for types that could not be inferred.
        expr_recovery_type: Expr,
    },
}

/// What the typechecker warns of.
#[derive(Debug, Clone, Copy, PartialEq, Eq, Hash, Structural)]
pub enum ValidationWarningKind {
    /// The condition of the policy is false for every request.
    ImpossiblePolicy,
}

/// A warning about a policy.
#[derive(Debug, PartialEq, Eq, Hash)]
pub struct ValidationWarning {
    /// Where in the source the policy stands.
    pub location: Option<Loc>,
    /// What the warning is about.
    pub kind: ValidationWarningKind,
}

/// A warning as a mathematical value.
pub struct SpecWarning {
    pub location: Option<SpecLoc>,
    pub kind: ValidationWarningKind,
}

impl View for ValidationWarning {
    type V = SpecWarning;

    open spec fn view(&self) -> SpecWarning {
        SpecWarning { location: loc_view(self.location), kind: self.kind }
    }
}

impl ValidationWarning {
    /// The warning that the policy whose condition stands at `location` is
    /// false for every request.
    pub fn impossible_policy(location: Option<Loc>) -> (out: ValidationWarning)
        ensures
            out@ == (SpecWarning {
                location: loc_view(location),
                kind: ValidationWarningKind::ImpossiblePolicy,
            }),
    {
        ValidationWarning { location, kind: ValidationWarningKind::ImpossiblePolicy }
    }

    /// Whether both are the same warning.
    pub fn same_as(&self, other: &ValidationWarning) -> (same: bool)
        ensures
            same == (self@ == other@),
    {
        self.kind == other.kind && same_loc(&self.location, &other.location)
    }

    /// The text of the warning.
    pub fn to_string(&self) -> (out: String)
        ensures
            out@
                == "policy is impossible: the policy expression evaluates to false for all valid requests"@,
    {
        String::from_str(
            "policy is impossible: the policy expression evaluates to false for all valid requests",
        )
    }
}

/// A list of warnings as mathematical values.
pub open spec fn warnings_view(warnings: Seq<ValidationWarning>) -> Seq<SpecWarning> {
    Seq::new(warnings.len(), |i: int| warnings[i]@)
}

/// The index of the first of `errors` at or after `from` that counts as one
/// with `e`, or the number of errors if there is none.
pub open spec fn known_index(errors: Seq<SpecTypeError>, e: SpecTypeError, from: nat) -> nat
    decreases errors.len() - from,
{
    if from < errors.len() && !same_error(errors[from as int], e) {
        known_index(errors, e, from + 1)
    } else {
        from
    }
}

/// Whether one of `errors` counts as one with `e`.
pub open spec fn is_known(errors: Seq<SpecTypeError>, e: SpecTypeError) -> bool {
    known_index(errors, e, 0) < errors.len()
}

/// The errors `acc` and behind them those of the first `n` of `more` that do
/// not count as one with an error before them.
pub open spec fn merged_errors(acc: Seq<SpecTypeError>, more: Seq<SpecTypeError>, n: nat) -> Seq<
    SpecTypeError,
>
    decreases n,
{
    if n == 0 || n > more.len() {
        acc
    } else {
        let before = merged_errors(acc, more, (n - 1) as nat);
        if is_known(before, more[n - 1]) {
            before
        } else {
            before.push(more[n - 1])
        }
    }
}

/// No two of the errors count as one.
pub open spec fn each_once(errors: Seq<SpecTypeError>) -> bool {
    forall|i: int, j: int|
        0 <= i < j < errors.len() ==> !same_error(#[trigger] errors[i], #[trigger] errors[j])
}

/// An error is known exactly if it counts as one with one of the errors.
pub proof fn known_index_found(errors: Seq<SpecTypeError>, e: SpecTypeError, from: nat)
    requires
        from <= errors.len(),
    ensures
        from <= known_index(errors, e, from) <= errors.len(),
        known_index(errors, e, from) < errors.len() ==> same_error(
            errors[known_index(errors, e, from) as int],
            e,
        ),
        forall|k: int|
            from <= k < known_index(errors, e, from) ==> !same_error(#[trigger] errors[k], e),
    decreases errors.len() - from,
{
    if from < errors.len() && !same_error(errors[from as int], e) {
        known_index_found(errors, e, from + 1);
    }
}

/// Merging reports every error once: if no two of the errors `acc` count as
/// one, no two of the merged errors do; every merged error is one of `acc`
/// or of `more`; and every error of `acc` and of the first `n` of `more`
/// counts as one with a merged error.
pub proof fn merged_errors_each_once(acc: Seq<SpecTypeError>, more: Seq<SpecTypeError>, n: nat)
    requires
        n <= more.len(),
        each_once(acc),
    ensures
        each_once(merged_errors(acc, more, n)),
        forall|x: SpecTypeError|
            merged_errors(acc, more, n).contains(x) ==> acc.contains(x) || more.contains(x),
        forall|i: int| 0 <= i < acc.len() ==> merged_errors(acc, more, n)[i] == acc[i],
        acc.len() <= merged_errors(acc, more, n).len(),
        forall|k: int| 0 <= k < n ==> is_known(merged_errors(acc, more, n), #[trigger] more[k]),
    decreases n,
{
    if n > 0 {
        merged_errors_each_once(acc, more, (n - 1) as nat);
        let before = merged_errors(acc, more, (n - 1) as nat);
        let out = merged_errors(acc, more, n);
        let e = more[n - 1];
        known_index_found(before, e, 0);
        assert forall|x: SpecTypeError| out.contains(x) implies acc.contains(x) || more.contains(
            x,
        ) by {
            let j = choose|j: int| 0 <= j < out.len() && out[j] == x;
            if j < before.len() {
                assert(before[j] == x);
                assert(before.contains(x));
            } else {
                assert(more[n - 1] == x);
            }
        }
        assert forall|k: int| 0 <= k < n implies is_known(out, #[trigger] more[k]) by {
            let x = more[k];
            if k < n - 1 {
                known_index_found(before, x, 0);
                let at = known_index(before, x, 0) as int;
                assert(same_error(out[at], x));
            } else if is_known(before, e) {
            } else {
                assert(same_error(out[before.len() as int], x));
            }
            known_index_found(out, x, 0);
        }
    }
}

/// The errors of a policy are reported once each: no two of them are of the
/// same kind, with the same details, in the same place.
pub proof fn policy_errors_each_once(schema: SpecSchema, mode: ValidationMode, t: SpecTemplate)
    ensures
        each_once(policy_errors(schema, mode, t)),
{
    let envs = policy_envs(schema, t);
    condition_errors_each_once(schema, mode, t.condition, envs, envs.len());
}

/// The errors of a condition under several environments are reported once
/// each.
proof fn condition_errors_each_once(
    schema: SpecSchema,
    mode: ValidationMode,
    condition: SpecExpr,
    envs: Seq<SpecRequestEnv>,
    n: nat,
)
    requires
        n <= envs.len(),
    ensures
        each_once(condition_errors(schema, mode, condition, envs, n)),
    decreases n,
{
    if n > 0 {
        condition_errors_each_once(schema, mode, condition, envs, (n - 1) as nat);
        let found = condition_errors_under(schema, mode, condition, envs[n - 1]);
        merged_errors_each_once(
            condition_errors(schema, mode, condition, envs, (n - 1) as nat),
            found,
            found.len(),
        );
    }
}

/// The errors of the condition `condition` of a policy under the environment
/// `env`: those of the expression, and that of not being a boolean.
pub open spec fn condition_errors_under(
    schema: SpecSchema,
    mode: ValidationMode,
    condition: SpecExpr,
    env: SpecRequestEnv,
) -> Seq<SpecTypeError> {
    let a = infer(schema, mode, env, Set::empty(), condition);
    a.errors + expect(mode, condition, SpecType::Boolean, a.ty(), None)
}

/// The errors of the condition `condition` under the first `n` of `envs`,
/// each error once.
pub open spec fn condition_errors(
    schema: SpecSchema,
    mode: ValidationMode,
    condition: SpecExpr,
    envs: Seq<SpecRequestEnv>,
    n: nat,
) -> Seq<SpecTypeError>
    decreases n,
{
    if n == 0 || n > envs.len() {
        Seq::empty()
    } else {
        let found = condition_errors_under(schema, mode, condition, envs[n - 1]);
        merged_errors(
            condition_errors(schema, mode, condition, envs, (n - 1) as nat),
            found,
            found.len(),
        )
    }
}

/// Whether the condition is of type `False` under each of the first `n` of
/// `envs`.
pub open spec fn always_false(
    schema: SpecSchema,
    mode: ValidationMode,
    condition: SpecExpr,
    envs: Seq<SpecRequestEnv>,
    n: nat,
) -> bool
    decreases n,
{
    if n == 0 || n > envs.len() {
        true
    } else {
        always_false(schema, mode, condition, envs, (n - 1) as nat) && infer(
            schema,
            mode,
            envs[n - 1],
            Set::empty(),
            condition,
        ).ty() == SpecType::False
    }
}

/// The error of a policy whose scope admits no environment.
pub open spec fn no_environment(schema: SpecSchema, t: SpecTemplate) -> SpecTypeError {
    SpecTypeError::bare(
        SpecErrorKind::InvalidActionApplication {
            would_in_fix_principal: would_in_fix_principal(schema, t),
            would_in_fix_resource: would_in_fix_resource(schema, t),
        },
    )
}

/// The errors of the policy `t`: those of its condition, which must be a
/// boolean, under every environment that its scope admits, each once; or, if
/// its scope admits none, that.
pub open spec fn policy_errors(schema: SpecSchema, mode: ValidationMode, t: SpecTemplate) -> Seq<
    SpecTypeError,
> {
    let envs = policy_envs(schema, t);
    if envs.len() == 0 {
        seq![no_environment(schema, t)]
    } else {
        condition_errors(schema, mode, t.condition, envs, envs.len())
    }
}

/// Whether the policy `t` typechecks.
pub open spec fn policy_typechecks(schema: SpecSchema, mode: ValidationMode, t: SpecTemplate) -> bool {
    policy_errors(schema, mode, t).len() == 0
}

/// Whether the policy `t` typechecks and its condition is false under every
/// environment that its scope admits.
pub open spec fn policy_is_impossible(schema: SpecSchema, mode: ValidationMode, t: SpecTemplate) -> bool {
    let envs = policy_envs(schema, t);
    policy_typechecks(schema, mode, t) && always_false(schema, mode, t.condition, envs, envs.len())
}

/// The warnings of the policy `t`.
pub open spec fn policy_warnings(schema: SpecSchema, mode: ValidationMode, t: SpecTemplate) -> Seq<
    SpecWarning,
> {
    if policy_is_impossible(schema, mode, t) {
        seq![
            SpecWarning {
                location: t.condition.source_loc,
                kind: ValidationWarningKind::ImpossiblePolicy,
            },
        ]
    } else {
        Seq::empty()
    }
}

/// The warnings `acc` and behind them those of `more`, of which there is at
/// most one, that are not among `acc`.
pub open spec fn merged_warnings(acc: Seq<SpecWarning>, more: Seq<SpecWarning>) -> Seq<SpecWarning> {
    if more.len() == 0 || acc.contains(more[0]) {
        acc
    } else {
        acc.push(more[0])
    }
}

/// The environment that expressions are typechecked under where no policy
/// gives one: a principal of type `Principal` asks for `Action::"action"` on
/// a resource of type `Resource`, with an empty context.
pub open spec fn placeholder_env() -> SpecRequestEnv {
    SpecRequestEnv::DeclaredAction {
        principal: SpecEntityType::Specified("Principal"@),
        action: SpecEntityUID { ty: SpecEntityType::Specified("Action"@), eid: "action"@ },
        resource: SpecEntityType::Specified("Resource"@),
        context: SpecType::Record { attrs: Seq::<SpecAttribute>::empty(), open: false },
        principal_slot: None,
        resource_slot: None,
    }
}

/// Whether one of `errors` counts as one with `e`.
pub fn knows(errors: &Vec<TypeError>, e: &TypeError) -> (out: bool)
    ensures
        out == is_known(errors_view(errors@), e@),
{
    let ghost ev = errors_view(errors@);
    let mut k: usize = 0;
    while k < errors.len()
        invariant
            k <= errors.len(),
            ev == errors_view(errors@),
            known_index(ev, e@, k as nat) == known_index(ev, e@, 0),
        decreases errors.len() - k,
    {
        assert(ev[k as int] == errors@[k as int]@);
        if errors[k].same_kind_and_location(e) {
            return true;
        }
        k += 1;
    }
    false
}

/// Whether `w` is one of `warnings`.
pub fn has_warning(warnings: &Vec<ValidationWarning>, w: &ValidationWarning) -> (out: bool)
    ensures
        out == warnings_view(warnings@).contains(w@),
{
    let mut k: usize = 0;
    while k < warnings.len()
        invariant
            k <= warnings.len(),
            forall|j: int| 0 <= j < k ==> warnings@[j]@ != w@,
        decreases warnings.len() - k,
    {
        if warnings[k].same_as(w) {
            assert(warnings_view(warnings@)[k as int] == w@);
            return true;
        }
        k += 1;
    }
    false
}

/// Copies into `acc` those of `more` that do not count as one with an error
/// before them.
pub fn merge_errors(acc: &mut Vec<TypeError>, more: &Vec<TypeError>)
    ensures
        errors_view(final(acc)@) == merged_errors(
            errors_view(old(acc)@),
            errors_view(more@),
            more@.len(),
        ),
{
    let ghost given = errors_view(acc@);
    let ghost mv = errors_view(more@);
    let mut i: usize = 0;
    while i < more.len()
        invariant
            i <= more.len(),
            mv == errors_view(more@),
            errors_view(acc@) == merged_errors(given, mv, i as nat),
        decreases more.len() - i,
    {
        assert(mv[i as int] == more@[i as int]@);
        if !knows(acc, &more[i]) {
            let err = more[i].clone();
            proof {
                errors_view_push(acc@, err);
            }
            acc.push(err);
        }
        i += 1;
    }
}

/// A typechecker for the policies that are checked against one schema.
#[derive(Debug)]
pub struct Typechecker<'a> {
    /// The schema.
    pub schema: &'a ValidatorSchema,
    /// How strictly policies are checked.
    pub mode: ValidationMode,
    /// The name of the policy that is checked.
    pub policy_id: PolicyID,
}

impl<'a> Typechecker<'a> {
    /// A typechecker for the policy `policy_id` against `schema`.
    pub fn new(schema: &'a ValidatorSchema, mode: ValidationMode, policy_id: PolicyID) -> (out:
        Typechecker<'a>)
        ensures
            out.schema == schema,
            out.mode == mode,
            out.policy_id == policy_id,
    {
        Typechecker { schema, mode, policy_id }
    }

    /// Typechecks `e` in requests of the environment `request_env`, at a
    /// place where `prior_capability` is known, and adds the errors found
    /// to `type_errors`.
    pub fn typecheck(
        &self,
        request_env: &RequestEnv,
        prior_capability: &CapabilitySet,
        e: &Expr,
        type_errors: &mut Vec<TypeError>,
    ) -> (out: TypecheckAnswer)
        ensures
            ({
                let a = infer(self.schema@, self.mode, request_env@, prior_capability@, e@);
                &&& errors_view(final(type_errors)@) == errors_view(old(type_errors)@) + a.errors
                &&& a.ok() ==> (out matches TypecheckAnswer::TypecheckSuccess {
                    expr_type,
                    expr_capability,
                } && expr_type@ == a.typed && expr_capability@ == a.caps)
                &&& !a.ok() ==> (out matches TypecheckAnswer::TypecheckFail { expr_recovery_type }
                    && expr_recovery_type@ == a.typed)
            }),
    {
        let a = check(self.schema, self.mode, request_env, prior_capability, e);
        let ok = a.ok();
        let Answer { typed, caps, errors } = a;
        add_errors(type_errors, errors);
        if ok {
            TypecheckAnswer::TypecheckSuccess { expr_type: typed, expr_capability: caps }
        } else {
            TypecheckAnswer::TypecheckFail { expr_recovery_type: typed }
        }
    }

    /// The environment that expressions are typechecked under where no
    /// policy gives one.
    pub fn placeholder_request_env() -> (out: RequestEnv)
        ensures
            out@ == placeholder_env(),
    {
        let context = Type::record_with_attributes(Vec::new(), OpenTag::ClosedAttributes);
        assert(context@ == (SpecType::Record {
            attrs: Seq::<SpecAttribute>::empty(),
            open: false,
        })) by {
            assert(attributes_view(Seq::empty()) =~= Seq::<SpecAttribute>::empty());
        }
        RequestEnv::DeclaredAction {
            principal: EntityType::Specified(String::from_str("Principal")),
            action: EntityUID::with_eid_and_type("Action", "action"),
            resource: EntityType::Specified(String::from_str("Resource")),
            context,
            principal_slot: None,
            resource_slot: None,
        }
    }

    /// Typechecks an expression that stands in no policy, and merges the
    /// errors found into `unique_type_errors`.
    pub fn typecheck_expr(&self, e: &Expr, unique_type_errors: &mut Vec<TypeError>) -> (out:
        TypecheckAnswer)
        ensures
            ({
                let a = infer(
                    self.schema@,
                    self.mode,
                    placeholder_env(),
                    Set::<(SpecExpr, Seq<char>)>::empty(),
                    e@,
                );
                &&& errors_view(final(unique_type_errors)@) == merged_errors(
                    errors_view(old(unique_type_errors)@),
                    a.errors,
                    a.errors.len(),
                )
                &&& a.ok() ==> (out matches TypecheckAnswer::TypecheckSuccess {
                    expr_type,
                    expr_capability,
                } && expr_type@ == a.typed && expr_capability@ == a.caps)
                &&& !a.ok() ==> (out matches TypecheckAnswer::TypecheckFail { expr_recovery_type }
                    && expr_recovery_type@ == a.typed)
            }),
    {
        let request_env = Self::placeholder_request_env();
        let mut type_errors: Vec<TypeError> = Vec::new();
        assert(errors_view(type_errors@) =~= Seq::<SpecTypeError>::empty());
        let ans = self.typecheck(&request_env, &CapabilitySet::new(), e, &mut type_errors);
        proof {
            let a = infer(
                self.schema@,
                self.mode,
                placeholder_env(),
                Set::<(SpecExpr, Seq<char>)>::empty(),
                e@,
            );
            assert(Seq::<SpecTypeError>::empty() + a.errors =~= a.errors);
            assert(errors_view(type_errors@).len() == type_errors@.len());
        }
        merge_errors(unique_type_errors, &type_errors);
        ans
    }

    /// The answer for the condition of `t` under each environment that the
    /// scope of `t` admits.
    pub fn typecheck_by_request_env(&self, t: &Template) -> (out: Vec<(RequestEnv, Answer)>)
        ensures
            out@.len() == policy_envs(self.schema@, t@).len(),
            forall|i: int|
                0 <= i < out@.len() ==> (#[trigger] out@[i]).0@ == policy_envs(self.schema@, t@)[i]
                    && out@[i].1@ == infer(
                    self.schema@,
                    self.mode,
                    policy_envs(self.schema@, t@)[i],
                    Set::<(SpecExpr, Seq<char>)>::empty(),
                    t@.condition,
                ),
    {
        let envs = policy_request_envs(self.schema, t);
        let ghost ev = policy_envs(self.schema@, t@);
        assert(envs_view(envs@).len() == envs@.len());
        let mut out: Vec<(RequestEnv, Answer)> = Vec::new();
        let mut i: usize = 0;
        while i < envs.len()
            invariant
                i <= envs.len(),
                ev == envs_view(envs@),
                out@.len() == i,
                forall|j: int|
                    0 <= j < i ==> (#[trigger] out@[j]).0@ == ev[j] && out@[j].1@ == infer(
                        self.schema@,
                        self.mode,
                        ev[j],
                        Set::<(SpecExpr, Seq<char>)>::empty(),
                        t@.condition,
                    ),
            decreases envs.len() - i,
        {
            assert(ev[i as int] == envs@[i as int]@);
            let a = check(self.schema, self.mode, &envs[i], &CapabilitySet::new(), &t.condition);
            out.push((envs[i].clone(), a));
            i += 1;
        }
        out
    }

    /// The errors of the policy `t`, each once, and whether its condition is
    /// false under every environment.
    pub fn check_policy(&self, t: &Template) -> (out: (Vec<TypeError>, bool))
        ensures
            errors_view(out.0@) == policy_errors(self.schema@, self.mode, t@),
            out.1 == policy_is_impossible(self.schema@, self.mode, t@),
    {
        let envs = policy_request_envs(self.schema, t);
        let ghost ev = policy_envs(self.schema@, t@);
        assert(envs_view(envs@).len() == envs@.len());
        let mut errors: Vec<TypeError> = Vec::new();
        assert(errors_view(errors@) =~= Seq::<SpecTypeError>::empty());
        if envs.len() == 0 {
            let err = TypeError::invalid_action_application(
                in_would_fix_principal(self.schema, t),
                in_would_fix_resource(self.schema, t),
            );
            errors.push(err);
            assert(errors_view(errors@) =~= seq![err@]);
            return (errors, false);
        }
        let mut all_false = true;
        let mut i: usize = 0;
        while i < envs.len()
            invariant
                i <= envs.len(),
                ev == envs_view(envs@),
                errors_view(errors@) == condition_errors(
                    self.schema@,
                    self.mode,
                    t@.condition,
                    ev,
                    i as nat,
                ),
                all_false == always_false(self.schema@, self.mode, t@.condition, ev, i as nat),
            decreases envs.len() - i,
        {
            assert(ev[i as int] == envs@[i as int]@);
            let a = check(self.schema, self.mode, &envs[i], &CapabilitySet::new(), &t.condition);
            let ty = a.ty();
            let is_false = match ty {
                Type::False => true,
                _ => false,
            };
            all_false = all_false && is_false;
            let mut found = a.errors;
            expect_type(self.mode, &t.condition, Type::Boolean, &ty, None, &mut found);
            assert(errors_view(found@).len() == found@.len());
            merge_errors(&mut errors, &found);
            i += 1;
        }
        assert(errors_view(errors@).len() == errors@.len());
        let impossible = errors.len() == 0 && all_false;
        (errors, impossible)
    }

    /// Typechecks the policy `t` under every environment that its scope
    /// admits. The errors found are merged into `type_errors` and the
    /// warnings into `warnings`; the policy typechecks if there is no error.
    pub fn typecheck_policy(
        &self,
        t: &Template,
        type_errors: &mut Vec<TypeError>,
        warnings: &mut Vec<ValidationWarning>,
    ) -> (typechecked: bool)
        ensures
            typechecked == policy_typechecks(self.schema@, self.mode, t@),
            errors_view(final(type_errors)@) == merged_errors(
                errors_view(old(type_errors)@),
                policy_errors(self.schema@, self.mode, t@),
                policy_errors(self.schema@, self.mode, t@).len(),
            ),
            warnings_view(final(warnings)@) == merged_warnings(
                warnings_view(old(warnings)@),
                policy_warnings(self.schema@, self.mode, t@),
            ),
    {
        let (errors, impossible) = self.check_policy(t);
        assert(errors_view(errors@).len() == errors@.len());
        let typechecked = errors.len() == 0;
        merge_errors(type_errors, &errors);
        if impossible {
            let warning = ValidationWarning::impossible_policy(clone_loc(&t.condition.source_loc));
            let ghost wv = warnings_view(warnings@);
            if !has_warning(warnings, &warning) {
                warnings.push(warning);
                assert(warnings_view(warnings@) =~= wv.push(warning@));
            }
        }
        typechecked
    }
}

} // verus!
