//! Helpers for checking that expressions and policies typecheck, or fail to
//! typecheck, as expected. Each check comes as a test that reports its
//! verdict, and as an assertion that may be made only where the test holds.

use vstd::prelude::*;
use vstd::string::StringSliceAdditionalSpecFns;
use crate::expr::{Expr, Loc, SpecExpr};
use crate::policy::{PolicyID, Template};
use crate::schema::{NamespaceDefinition, SpecSchema, ValidatorSchema};
use crate::text::opt_text;
use crate::typecheck::answer::{errors_view, unexpected, SpecAnswer};
use crate::typecheck::infer::infer;
use crate::typecheck::{
    merged_errors, merged_warnings, placeholder_env, policy_errors, policy_typechecks,
    policy_warnings, warnings_view, SpecWarning, TypecheckAnswer, Typechecker, ValidationWarning,
};
use crate::types::{subtype, types_view, SpecType, Type, ValidationMode};
use crate::validation_errors::{SpecTypeError, TypeError, UnexpectedTypeHelp};

verus! {

/// The name under which an expression that stands in no policy is checked.
pub fn expr_id_placeholder() -> (out: PolicyID)
    ensures
        out@ == "expr"@,
{
    PolicyID::from_string("expr")
}

/// Whether the bytes `snippet` stand in `src` at the offset `i`.
pub open spec fn occurs_at(src: Seq<u8>, snippet: Seq<u8>, i: int) -> bool {
    0 <= i && i + snippet.len() <= src.len() && src.subrange(i, i + snippet.len()) == snippet
}

/// Whether `i` is the first offset at which the bytes `snippet` stand in
/// `src`.
pub open spec fn first_occurrence(src: Seq<u8>, snippet: Seq<u8>, i: int) -> bool {
    occurs_at(src, snippet, i) && forall|j: int| 0 <= j < i ==> !occurs_at(src, snippet, j)
}

/// The offset of the first occurrence of `snippet` in `src`.
///
/// Trusted: `str::find` with a string as the pattern, which std documents to
/// return the byte index of the first match, and nothing if there is none.
#[verifier::external_body]
fn find(src: &str, snippet: &str) -> (out: Option<usize>)
    ensures
        out matches Some(i) ==> first_occurrence(src.spec_bytes(), snippet.spec_bytes(), i as int),
        out is None ==> forall|j: int| !occurs_at(src.spec_bytes(), snippet.spec_bytes(), j),
{
    src.find(snippet)
}

/// The location of the first occurrence of `snippet` in `src`.
pub fn get_loc(src: &str, snippet: &str) -> (out: Option<Loc>)
    requires
        exists|i: int| occurs_at(src.spec_bytes(), snippet.spec_bytes(), i),
    ensures
        out matches Some(loc) && first_occurrence(
            src.spec_bytes(),
            snippet.spec_bytes(),
            loc.start as int,
        ) && loc.end == loc.start + snippet.spec_bytes().len() && loc.src@ == src@,
{
    let src_len = src.as_bytes().len();
    let snippet_len = snippet.as_bytes().len();
    let start = find(src, snippet).unwrap();
    assert(start + snippet_len <= src_len);
    let end = start + snippet_len;
    Some(Loc::new(start, end, String::from_str(src)))
}

impl TypeError {
    /// The error for an expression that is not of the one type expected.
    pub fn expected_type(
        on_expr: Expr,
        expected: Type,
        actual: Type,
        help: Option<UnexpectedTypeHelp>,
    ) -> (out: Self)
        ensures
            out@ == unexpected(on_expr@, seq![expected@], actual@, help),
    {
        let mut types: Vec<Type> = Vec::new();
        types.push(expected);
        assert(types_view(types@) =~= seq![expected@]);
        TypeError::expected_one_of_types(on_expr, types, actual, help)
    }
}

/// The entity type name that a text denotes, if it denotes one, as
/// `cedar_policy_core` reads and prints names.
pub uninterp spec fn parsed_name(text: Seq<char>) -> Option<Seq<char>>;

/// Reads an entity type name.
///
/// Trusted: `str::parse` for `cedar_policy_core::ast::Name`, whose result,
/// printed again, depends on the text alone.
#[verifier::external_body]
fn parse_name(text: &str) -> (out: Option<String>)
    ensures
        opt_text(out) == parsed_name(text@),
{
    match text.parse::<cedar_policy_core::ast::Name>() {
        Ok(name) => Some(name.to_string()),
        Err(_) => None,
    }
}

impl Type {
    /// The type of entities of the entity type that `name` denotes.
    pub fn named_entity_reference_from_str(name: &str) -> (out: Type)
        requires
            parsed_name(name@) is Some,
        ensures
            out@ == SpecType::Entity(seq![parsed_name(name@)->Some_0]),
    {
        Type::named_entity_reference(parse_name(name).unwrap())
    }

    /// The type of entities of the entity type that `name` denotes, if it
    /// denotes one.
    pub fn try_named_entity_reference_from_str(name: &str) -> (out: Option<Type>)
        ensures
            parsed_name(name@) is Some ==> (out matches Some(t) && t@ == SpecType::Entity(
                seq![parsed_name(name@)->Some_0],
            )),
            parsed_name(name@) is None ==> out is None,
    {
        if parse_name(name).is_some() {
            Some(Type::named_entity_reference_from_str(name))
        } else {
            None
        }
    }
}

/// Whether each of the two types is a subtype of the other.
pub open spec fn types_eq(a: SpecType, b: SpecType) -> bool {
    subtype(a, b, ValidationMode::Permissive) && subtype(b, a, ValidationMode::Permissive)
}

/// Whether `expected` and `actual` are the same type in that each is a
/// subtype of the other. The schema is not consulted.
pub fn types_are_equal(schema: &ValidatorSchema, expected: &Type, actual: &Type) -> (holds: bool)
    ensures
        holds == types_eq(expected@, actual@),
{
    Type::is_subtype(expected, actual, ValidationMode::Permissive) && Type::is_subtype(
        actual,
        expected,
        ValidationMode::Permissive,
    )
}

/// Whether every member of either list is a member of the other.
pub open spec fn same_members<T>(a: Seq<T>, b: Seq<T>) -> bool {
    forall|x: T| a.contains(x) <==> b.contains(x)
}

/// Whether `e` is one of `errors`.
pub fn has_error(errors: &Vec<TypeError>, e: &TypeError) -> (out: bool)
    ensures
        out == errors_view(errors@).contains(e@),
{
    let mut k: usize = 0;
    while k < errors.len()
        invariant
            k <= errors.len(),
            forall|j: int| 0 <= j < k ==> errors@[j]@ != e@,
        decreases errors.len() - k,
    {
        if errors[k].same_as(e) {
            assert(errors_view(errors@)[k as int] == e@);
            return true;
        }
        k += 1;
    }
    false
}

/// Whether every one of `a` is one of `b`.
pub fn errors_within(a: &Vec<TypeError>, b: &Vec<TypeError>) -> (out: bool)
    ensures
        out == (forall|x: SpecTypeError|
            errors_view(a@).contains(x) ==> errors_view(b@).contains(x)),
{
    let mut i: usize = 0;
    while i < a.len()
        invariant
            i <= a.len(),
            forall|j: int| 0 <= j < i ==> errors_view(b@).contains(#[trigger] errors_view(a@)[j]),
        decreases a.len() - i,
    {
        if !has_error(b, &a[i]) {
            assert(errors_view(a@)[i as int] == a@[i as int]@);
            assert(errors_view(a@).contains(a@[i as int]@));
            return false;
        }
        assert(errors_view(a@)[i as int] == a@[i as int]@);
        i += 1;
    }
    assert forall|x: SpecTypeError| errors_view(a@).contains(x) implies errors_view(b@).contains(
        x,
    ) by {
        let j = choose|j: int| 0 <= j < errors_view(a@).len() && errors_view(a@)[j] == x;
        assert(errors_view(b@).contains(errors_view(a@)[j]));
    }
    true
}

/// Whether the errors expected are exactly those found.
pub fn type_errors_are(expected: Vec<TypeError>, actual: &Vec<TypeError>) -> (holds:
    bool)
    ensures
        holds == same_members(errors_view(expected@), errors_view(actual@)),
{
    errors_within(&expected, actual) && errors_within(actual, &expected)
}

/// Whether every one of `a` is one of `b`.
pub fn warnings_within(a: &Vec<ValidationWarning>, b: &Vec<ValidationWarning>) -> (out: bool)
    ensures
        out == (forall|x: SpecWarning|
            warnings_view(a@).contains(x) ==> warnings_view(b@).contains(x)),
{
    let mut i: usize = 0;
    while i < a.len()
        invariant
            i <= a.len(),
            forall|j: int|
                0 <= j < i ==> warnings_view(b@).contains(#[trigger] warnings_view(a@)[j]),
        decreases a.len() - i,
    {
        assert(warnings_view(a@)[i as int] == a@[i as int]@);
        if !crate::typecheck::has_warning(b, &a[i]) {
            assert(warnings_view(a@).contains(a@[i as int]@));
            return false;
        }
        i += 1;
    }
    assert forall|x: SpecWarning| warnings_view(a@).contains(x) implies warnings_view(
        b@,
    ).contains(x) by {
        let j = choose|j: int| 0 <= j < warnings_view(a@).len() && warnings_view(a@)[j] == x;
        assert(warnings_view(b@).contains(warnings_view(a@)[j]));
    }
    true
}

/// Whether the warnings expected are exactly those found.
pub fn warnings_are(
    expected: Vec<ValidationWarning>,
    actual: &Vec<ValidationWarning>,
) -> (holds: bool)
    ensures
        holds == same_members(warnings_view(expected@), warnings_view(actual@)),
{
    warnings_within(&expected, actual) && warnings_within(actual, &expected)
}

/// The ways in which a schema is given to the checks below.
pub trait SchemaProvider: Sized {
    /// The schema that is given.
    spec fn provided(self) -> SpecSchema;

    /// Produces the schema.
    fn schema(self) -> (out: ValidatorSchema)
        ensures
            out@ == self.provided(),
    ;
}

impl SchemaProvider for ValidatorSchema {
    open spec fn provided(self) -> SpecSchema {
        self@
    }

    fn schema(self) -> (out: ValidatorSchema) {
        self
    }
}

impl SchemaProvider for NamespaceDefinition {
    open spec fn provided(self) -> SpecSchema {
        SpecSchema {
            entities: Seq::new(self.entity_types@.len(), |i: int| self.entity_types@[i]@),
            actions: Seq::new(self.actions@.len(), |i: int| self.actions@[i]@),
            functions: Seq::empty(),
        }
    }

    fn schema(self) -> (out: ValidatorSchema) {
        let out = ValidatorSchema {
            entity_types: self.entity_types,
            action_ids: self.actions,
            extension_functions: Vec::new(),
        };
        assert(out@ == self.provided()) by {
            assert(out@.entities =~= self.provided().entities);
            assert(out@.actions =~= self.provided().actions);
            assert(out@.functions =~= self.provided().functions);
        }
        out
    }
}

/// Whether `policy` typechecks under strict validation, and then also under
/// permissive validation.
pub fn does_policy_typecheck<S: SchemaProvider>(schema: S, policy: Template) -> (holds: bool)
    ensures
        holds == (policy_typechecks(schema.provided(), ValidationMode::Strict, policy@)
            && policy_typechecks(schema.provided(), ValidationMode::Permissive, policy@)),
{
    does_policy_typecheck_for_mode(schema, policy, ValidationMode::Strict)
}

/// Whether `policy` typechecks under `mode`, and then also under permissive
/// validation: what a complete schema accepts must not be rejected when
/// checked as against a partial one.
pub fn does_policy_typecheck_for_mode<S: SchemaProvider>(
    schema: S,
    policy: Template,
    mode: ValidationMode,
) -> (holds: bool)
    ensures
        holds == (policy_typechecks(schema.provided(), mode, policy@) && policy_typechecks(
            schema.provided(),
            ValidationMode::Permissive,
            policy@,
        )),
{
    let schema = schema.schema();
    let mut typechecker = Typechecker::new(&schema, mode, expr_id_placeholder());
    let mut type_errors: Vec<TypeError> = Vec::new();
    let mut warnings: Vec<ValidationWarning> = Vec::new();
    assert(errors_view(type_errors@) =~= Seq::<SpecTypeError>::empty());
    let typechecked = typechecker.typecheck_policy(&policy, &mut type_errors, &mut warnings);
    if !typechecked {
        return false;
    }
    assert(errors_view(type_errors@) =~= Seq::<SpecTypeError>::empty());
    typechecker.mode = ValidationMode::Permissive;
    let typechecked = typechecker.typecheck_policy(&policy, &mut type_errors, &mut warnings);
    typechecked
}

/// Whether `policy` fails to typecheck under strict validation with exactly
/// the errors expected.
pub fn does_policy_typecheck_fail<S: SchemaProvider>(
    schema: S,
    policy: Template,
    expected_type_errors: Vec<TypeError>,
) -> (holds: bool)
    ensures
        holds == (!policy_typechecks(schema.provided(), ValidationMode::Strict, policy@)
            && same_members(
            errors_view(expected_type_errors@),
            policy_errors(schema.provided(), ValidationMode::Strict, policy@),
        )),
{
    does_policy_typecheck_fail_for_mode(
        schema,
        policy,
        expected_type_errors,
        ValidationMode::Strict,
    )
}

/// Whether `policy` typechecks under strict validation with exactly the
/// warnings expected.
pub fn does_policy_typecheck_warn<S: SchemaProvider>(
    schema: S,
    policy: Template,
    expected_warnings: Vec<ValidationWarning>,
) -> (holds: bool)
    ensures
        holds == (policy_typechecks(schema.provided(), ValidationMode::Strict, policy@)
            && same_members(
            warnings_view(expected_warnings@),
            policy_warnings(schema.provided(), ValidationMode::Strict, policy@),
        )),
{
    does_policy_typecheck_warn_for_mode(
        schema,
        policy,
        expected_warnings,
        ValidationMode::Strict,
    )
}

/// Whether `policy` fails to typecheck under `mode` with exactly the errors
/// expected.
pub fn does_policy_typecheck_fail_for_mode<S: SchemaProvider>(
    schema: S,
    policy: Template,
    expected_type_errors: Vec<TypeError>,
    mode: ValidationMode,
) -> (holds: bool)
    ensures
        holds == (!policy_typechecks(schema.provided(), mode, policy@) && same_members(
            errors_view(expected_type_errors@),
            policy_errors(schema.provided(), mode, policy@),
        )),
{
    let schema = schema.schema();
    let typechecker = Typechecker::new(&schema, mode, policy.id().clone());
    let (errors, _) = typechecker.check_policy(&policy);
    assert(errors_view(errors@).len() == errors@.len());
    let typechecked = errors.len() == 0;
    type_errors_are(expected_type_errors, &errors) && !typechecked
}

/// Whether `policy` typechecks under `mode` with exactly the warnings
/// expected.
pub fn does_policy_typecheck_warn_for_mode<S: SchemaProvider>(
    schema: S,
    policy: Template,
    expected_warnings: Vec<ValidationWarning>,
    mode: ValidationMode,
) -> (holds: bool)
    ensures
        holds == (policy_typechecks(schema.provided(), mode, policy@) && same_members(
            warnings_view(expected_warnings@),
            policy_warnings(schema.provided(), mode, policy@),
        )),
{
    let schema = schema.schema();
    let typechecker = Typechecker::new(&schema, mode, policy.id().clone());
    let mut type_errors: Vec<TypeError> = Vec::new();
    let mut warnings: Vec<ValidationWarning> = Vec::new();
    assert(warnings_view(warnings@) =~= Seq::<SpecWarning>::empty());
    let typechecked = typechecker.typecheck_policy(&policy, &mut type_errors, &mut warnings);
    proof {
        let found = policy_warnings(schema@, mode, policy@);
        let merged = merged_warnings(Seq::<SpecWarning>::empty(), found);
        assert(merged =~= found);
    }
    warnings_are(expected_warnings, &warnings) && typechecked
}

/// The answer for an expression that stands in no policy.
pub open spec fn expr_answer(schema: SpecSchema, mode: ValidationMode, e: SpecExpr) -> SpecAnswer {
    infer(schema, mode, placeholder_env(), Set::<(SpecExpr, Seq<char>)>::empty(), e)
}

/// Whether `expr` typechecks under strict validation, with the type
/// `expected`.
pub fn does_typecheck<S: SchemaProvider>(schema: S, expr: Expr, expected: Type) -> (holds: bool)
    ensures
        holds == (expr_answer(schema.provided(), ValidationMode::Strict, expr@).ok() && types_eq(
            expected@,
            expr_answer(schema.provided(), ValidationMode::Strict, expr@).ty(),
        )),
{
    does_typecheck_for_mode(schema, expr, expected, ValidationMode::Strict)
}

/// Whether `expr` typechecks under `mode`, with the type `expected`.
pub fn does_typecheck_for_mode<S: SchemaProvider>(
    schema: S,
    expr: Expr,
    expected: Type,
    mode: ValidationMode,
) -> (holds: bool)
    ensures
        holds == (expr_answer(schema.provided(), mode, expr@).ok() && types_eq(
            expected@,
            expr_answer(schema.provided(), mode, expr@).ty(),
        )),
{
    let schema = schema.schema();
    let typechecker = Typechecker::new(&schema, mode, expr_id_placeholder());
    let mut type_errors: Vec<TypeError> = Vec::new();
    let actual = typechecker.typecheck_expr(&expr, &mut type_errors);
    match actual {
        TypecheckAnswer::TypecheckSuccess { expr_type, .. } => {
            let ty = match expr_type.data {
                Some(t) => t,
                None => Type::Never,
            };
            types_are_equal(typechecker.schema, &expected, &ty)
        },
        TypecheckAnswer::TypecheckFail { .. } => false,
    }
}

/// What is expected of the type that stands in for the type of an
/// expression that does not typecheck: that there is none, or that it is
/// the given type.
pub open spec fn recovery_as_expected(expected: Option<Type>, actual: Option<SpecType>) -> bool {
    match (expected, actual) {
        (None, None) => true,
        (Some(e), Some(a)) => types_eq(e@, a),
        _ => false,
    }
}

/// Whether `expr` fails to typecheck under strict validation with exactly
/// the errors expected, and with `expected_ty` standing in for its type.
pub fn does_typecheck_fail<S: SchemaProvider>(
    schema: S,
    expr: Expr,
    expected_ty: Option<Type>,
    expected_type_errors: Vec<TypeError>,
) -> (holds: bool)
    ensures
        ({
            let a = expr_answer(schema.provided(), ValidationMode::Strict, expr@);
            holds == (!a.ok() && recovery_as_expected(expected_ty, a.typed.data) && same_members(
                errors_view(expected_type_errors@),
                merged_errors(Seq::empty(), a.errors, a.errors.len()),
            ))
        }),
{
    does_typecheck_fail_for_mode(
        schema,
        expr,
        expected_ty,
        expected_type_errors,
        ValidationMode::Strict,
    )
}

/// Whether `expr` fails to typecheck under `mode` with exactly the errors
/// expected, and with `expected_ty` standing in for its type.
pub fn does_typecheck_fail_for_mode<S: SchemaProvider>(
    schema: S,
    expr: Expr,
    expected_ty: Option<Type>,
    expected_type_errors: Vec<TypeError>,
    mode: ValidationMode,
) -> (holds: bool)
    ensures
        ({
            let a = expr_answer(schema.provided(), mode, expr@);
            holds == (!a.ok() && recovery_as_expected(expected_ty, a.typed.data) && same_members(
                errors_view(expected_type_errors@),
                merged_errors(Seq::empty(), a.errors, a.errors.len()),
            ))
        }),
{
    let schema = schema.schema();
    let typechecker = Typechecker::new(&schema, mode, expr_id_placeholder());
    let mut type_errors: Vec<TypeError> = Vec::new();
    assert(errors_view(type_errors@) =~= Seq::<SpecTypeError>::empty());
    let actual = typechecker.typecheck_expr(&expr, &mut type_errors);
    match actual {
        TypecheckAnswer::TypecheckFail { expr_recovery_type } => {
            let as_expected = match (&expected_ty, &expr_recovery_type.data) {
                (None, None) => true,
                (Some(expected_ty), Some(actual_ty)) => types_are_equal(
                    typechecker.schema,
                    expected_ty,
                    actual_ty,
                ),
                _ => false,
            };
            as_expected && type_errors_are(expected_type_errors, &type_errors)
        },
        TypecheckAnswer::TypecheckSuccess { .. } => false,
    }
}

/// The schema without entity types or actions.
pub fn empty_schema_file() -> (out: NamespaceDefinition)
    ensures
        out.entity_types@.len() == 0,
        out.actions@.len() == 0,
{
    NamespaceDefinition::new(Vec::new(), Vec::new())
}

/// The schema without entity types, actions or extension functions.
pub open spec fn empty_schema() -> SpecSchema {
    SpecSchema { entities: Seq::empty(), actions: Seq::empty(), functions: Seq::empty() }
}

/// What the empty namespace provides is the empty schema.
pub proof fn empty_schema_provided(n: NamespaceDefinition)
    requires
        n.entity_types@.len() == 0,
        n.actions@.len() == 0,
    ensures
        n.provided() == empty_schema(),
{
    assert(n.provided().entities =~= empty_schema().entities);
    assert(n.provided().actions =~= empty_schema().actions);
    assert(n.provided().functions =~= empty_schema().functions);
}

/// Whether `expr` typechecks against the empty schema, with the type
/// `expected`.
pub fn does_typecheck_empty_schema(expr: Expr, expected: Type) -> (holds: bool)
    ensures
        holds == (expr_answer(empty_schema(), ValidationMode::Strict, expr@).ok() && types_eq(
            expected@,
            expr_answer(empty_schema(), ValidationMode::Strict, expr@).ty(),
        )),
{
    let schema = empty_schema_file();
    proof {
        empty_schema_provided(schema);
    }
    does_typecheck(schema, expr, expected)
}

/// Whether `expr` typechecks against the empty schema under permissive
/// validation, with the type `expected`.
pub fn does_typecheck_empty_schema_permissive(expr: Expr, expected: Type) -> (holds: bool)
    ensures
        holds == (expr_answer(empty_schema(), ValidationMode::Permissive, expr@).ok() && types_eq(
            expected@,
            expr_answer(empty_schema(), ValidationMode::Permissive, expr@).ty(),
        )),
{
    let schema = empty_schema_file();
    proof {
        empty_schema_provided(schema);
    }
    does_typecheck_for_mode(schema, expr, expected, ValidationMode::Permissive)
}

/// Whether `expr` fails to typecheck against the empty schema with exactly
/// the errors expected, and with `expected` standing in for its type.
pub fn does_typecheck_fail_empty_schema(
    expr: Expr,
    expected: Type,
    type_errors: Vec<TypeError>,
) -> (holds: bool)
    ensures
        ({
            let a = expr_answer(empty_schema(), ValidationMode::Strict, expr@);
            holds == (!a.ok() && recovery_as_expected(Some(expected), a.typed.data)
                && same_members(
                errors_view(type_errors@),
                merged_errors(Seq::empty(), a.errors, a.errors.len()),
            ))
        }),
{
    let schema = empty_schema_file();
    proof {
        empty_schema_provided(schema);
    }
    does_typecheck_fail(schema, expr, Some(expected), type_errors)
}

/// Whether `expr` fails to typecheck against the empty schema with exactly
/// the errors expected, and with nothing standing in for its type. The
/// typechecker gives every expression a type, also one that fails to
/// typecheck, so this holds of no expression.
pub fn does_typecheck_fail_empty_schema_without_type(
    expr: Expr,
    type_errors: Vec<TypeError>,
) -> (holds: bool)
    ensures
        ({
            let a = expr_answer(empty_schema(), ValidationMode::Strict, expr@);
            holds == (!a.ok() && recovery_as_expected(None, a.typed.data) && same_members(
                errors_view(type_errors@),
                merged_errors(Seq::empty(), a.errors, a.errors.len()),
            ))
        }),
{
    let schema = empty_schema_file();
    proof {
        empty_schema_provided(schema);
    }
    does_typecheck_fail(schema, expr, None, type_errors)
}

/// Marks the end of an assertion whose test has held.
fn passed(verdict: bool)
    requires
        verdict,
{
    if !verdict {
        vstd::pervasive::unreached::<()>()
    }
}

/// Asserts that `expected` and `actual` are the same type in that each is a
/// subtype of the other. The schema is not consulted.
pub fn assert_types_eq(schema: &ValidatorSchema, expected: &Type, actual: &Type)
    requires
        types_eq(expected@, actual@),
{
    passed(types_are_equal(schema, expected, actual))
}

/// Asserts that the errors expected are exactly those found.
pub fn assert_expected_type_errors(expected: Vec<TypeError>, actual: &Vec<TypeError>)
    requires
        same_members(errors_view(expected@), errors_view(actual@)),
{
    passed(type_errors_are(expected, actual))
}

/// Asserts that the warnings expected are exactly those found.
pub fn assert_expected_warnings(expected: Vec<ValidationWarning>, actual: &Vec<ValidationWarning>)
    requires
        same_members(warnings_view(expected@), warnings_view(actual@)),
{
    passed(warnings_are(expected, actual))
}

/// Asserts that `policy` typechecks under strict validation, and then also
/// under permissive validation.
pub fn assert_policy_typechecks<S: SchemaProvider>(schema: S, policy: Template)
    requires
        policy_typechecks(schema.provided(), ValidationMode::Strict, policy@),
        policy_typechecks(schema.provided(), ValidationMode::Permissive, policy@),
{
    assert_policy_typechecks_for_mode(schema, policy, ValidationMode::Strict)
}

/// Asserts that `policy` typechecks under `mode`, and then also under
/// permissive validation.
pub fn assert_policy_typechecks_for_mode<S: SchemaProvider>(
    schema: S,
    policy: Template,
    mode: ValidationMode,
)
    requires
        policy_typechecks(schema.provided(), mode, policy@),
        policy_typechecks(schema.provided(), ValidationMode::Permissive, policy@),
{
    passed(does_policy_typecheck_for_mode(schema, policy, mode))
}

/// Asserts that `policy` fails to typecheck under strict validation with
/// exactly the errors expected.
pub fn assert_policy_typecheck_fails<S: SchemaProvider>(
    schema: S,
    policy: Template,
    expected_type_errors: Vec<TypeError>,
)
    requires
        !policy_typechecks(schema.provided(), ValidationMode::Strict, policy@),
        same_members(
            errors_view(expected_type_errors@),
            policy_errors(schema.provided(), ValidationMode::Strict, policy@),
        ),
{
    assert_policy_typecheck_fails_for_mode(
        schema,
        policy,
        expected_type_errors,
        ValidationMode::Strict,
    )
}

/// Asserts that `policy` typechecks under strict validation with exactly the
/// warnings expected.
pub fn assert_policy_typecheck_warns<S: SchemaProvider>(
    schema: S,
    policy: Template,
    expected_warnings: Vec<ValidationWarning>,
)
    requires
        policy_typechecks(schema.provided(), ValidationMode::Strict, policy@),
        same_members(
            warnings_view(expected_warnings@),
            policy_warnings(schema.provided(), ValidationMode::Strict, policy@),
        ),
{
    assert_policy_typecheck_warns_for_mode(
        schema,
        policy,
        expected_warnings,
        ValidationMode::Strict,
    )
}

/// Asserts that `policy` fails to typecheck under `mode` with exactly the
/// errors expected.
pub fn assert_policy_typecheck_fails_for_mode<S: SchemaProvider>(
    schema: S,
    policy: Template,
    expected_type_errors: Vec<TypeError>,
    mode: ValidationMode,
)
    requires
        !policy_typechecks(schema.provided(), mode, policy@),
        same_members(
            errors_view(expected_type_errors@),
            policy_errors(schema.provided(), mode, policy@),
        ),
{
    passed(does_policy_typecheck_fail_for_mode(schema, policy, expected_type_errors, mode))
}

/// Asserts that `policy` typechecks under `mode` with exactly the warnings
/// expected.
pub fn assert_policy_typecheck_warns_for_mode<S: SchemaProvider>(
    schema: S,
    policy: Template,
    expected_warnings: Vec<ValidationWarning>,
    mode: ValidationMode,
)
    requires
        policy_typechecks(schema.provided(), mode, policy@),
        same_members(
            warnings_view(expected_warnings@),
            policy_warnings(schema.provided(), mode, policy@),
        ),
{
    passed(does_policy_typecheck_warn_for_mode(schema, policy, expected_warnings, mode))
}

/// Whether the expression `e` typechecks under `mode`, with the type
/// `expected`.
pub open spec fn typechecks_as(
    schema: SpecSchema,
    mode: ValidationMode,
    e: SpecExpr,
    expected: SpecType,
) -> bool {
    expr_answer(schema, mode, e).ok() && types_eq(expected, expr_answer(schema, mode, e).ty())
}

/// Whether the expression `e` fails to typecheck under `mode` with exactly
/// the errors `errors`, and with `expected` standing in for its type.
pub open spec fn fails_as(
    schema: SpecSchema,
    mode: ValidationMode,
    e: SpecExpr,
    expected: Option<Type>,
    errors: Seq<SpecTypeError>,
) -> bool {
    let a = expr_answer(schema, mode, e);
    !a.ok() && recovery_as_expected(expected, a.typed.data) && same_members(
        errors,
        merged_errors(Seq::empty(), a.errors, a.errors.len()),
    )
}

/// Asserts that `expr` typechecks under strict validation, with the type
/// `expected`.
pub fn assert_typechecks<S: SchemaProvider>(schema: S, expr: Expr, expected: Type)
    requires
        typechecks_as(schema.provided(), ValidationMode::Strict, expr@, expected@),
{
    assert_typechecks_for_mode(schema, expr, expected, ValidationMode::Strict)
}

/// Asserts that `expr` typechecks under `mode`, with the type `expected`.
pub fn assert_typechecks_for_mode<S: SchemaProvider>(
    schema: S,
    expr: Expr,
    expected: Type,
    mode: ValidationMode,
)
    requires
        typechecks_as(schema.provided(), mode, expr@, expected@),
{
    passed(does_typecheck_for_mode(schema, expr, expected, mode))
}

/// Asserts that `expr` fails to typecheck under strict validation with
/// exactly the errors expected, and with `expected_ty` standing in for its
/// type.
pub fn assert_typecheck_fails<S: SchemaProvider>(
    schema: S,
    expr: Expr,
    expected_ty: Option<Type>,
    expected_type_errors: Vec<TypeError>,
)
    requires
        fails_as(
            schema.provided(),
            ValidationMode::Strict,
            expr@,
            expected_ty,
            errors_view(expected_type_errors@),
        ),
{
    assert_typecheck_fails_for_mode(
        schema,
        expr,
        expected_ty,
        expected_type_errors,
        ValidationMode::Strict,
    )
}

/// Asserts that `expr` fails to typecheck under `mode` with exactly the
/// errors expected, and with `expected_ty` standing in for its type.
pub fn assert_typecheck_fails_for_mode<S: SchemaProvider>(
    schema: S,
    expr: Expr,
    expected_ty: Option<Type>,
    expected_type_errors: Vec<TypeError>,
    mode: ValidationMode,
)
    requires
        fails_as(schema.provided(), mode, expr@, expected_ty, errors_view(expected_type_errors@)),
{
    passed(does_typecheck_fail_for_mode(schema, expr, expected_ty, expected_type_errors, mode))
}

/// Asserts that `expr` typechecks against the empty schema, with the type
/// `expected`.
pub fn assert_typechecks_empty_schema(expr: Expr, expected: Type)
    requires
        typechecks_as(empty_schema(), ValidationMode::Strict, expr@, expected@),
{
    passed(does_typecheck_empty_schema(expr, expected))
}

/// Asserts that `expr` typechecks against the empty schema under permissive
/// validation, with the type `expected`.
pub fn assert_typechecks_empty_schema_permissive(expr: Expr, expected: Type)
    requires
        typechecks_as(empty_schema(), ValidationMode::Permissive, expr@, expected@),
{
    passed(does_typecheck_empty_schema_permissive(expr, expected))
}

/// Asserts that `expr` fails to typecheck against the empty schema with
/// exactly the errors expected, and with `expected` standing in for its
/// type.
pub fn assert_typecheck_fails_empty_schema(expr: Expr, expected: Type, type_errors: Vec<TypeError>)
    requires
        fails_as(
            empty_schema(),
            ValidationMode::Strict,
            expr@,
            Some(expected),
            errors_view(type_errors@),
        ),
{
    passed(does_typecheck_fail_empty_schema(expr, expected, type_errors))
}

/// Asserts that `expr` fails to typecheck against the empty schema with
/// exactly the errors expected, and with nothing standing in for its type.
/// The typechecker gives every expression a type, also one that fails to
/// typecheck, so this can be asserted of no expression.
pub fn assert_typecheck_fails_empty_schema_without_type(expr: Expr, type_errors: Vec<TypeError>)
    requires
        fails_as(empty_schema(), ValidationMode::Strict, expr@, None, errors_view(type_errors@)),
{
    passed(does_typecheck_fail_empty_schema_without_type(expr, type_errors))
}

} // verus!
