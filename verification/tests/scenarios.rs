use cedar_policy_validator::capability::CapabilitySet;
use cedar_policy_validator::expr::{
    EntityUID, Expr, ExprBuilder, ExprKind, Literal, Var,
};
use cedar_policy_validator::policy::{
    ActionConstraint, EntityReference, PolicyID, PrincipalOrResourceConstraint, Template,
};
use cedar_policy_validator::schema::{ValidatorActionId, ValidatorEntityType, ValidatorSchema};
use cedar_policy_validator::typecheck::test_utils::{
    assert_policy_typecheck_fails, assert_policy_typechecks,
};
use cedar_policy_validator::typecheck::{Typechecker, ValidationWarning};
use cedar_policy_validator::types::{
    AttributeType, EntityLUB, OpenTag, Type, ValidationMode,
};
use cedar_policy_validator::validation_errors::{
    AttributeAccess, LubContext, LubHelp, TypeError, ValidationErrorKind,
};

fn attr(name: &str, ty: Type, required: bool) -> (String, AttributeType) {
    (
        name.to_string(),
        AttributeType {
            attr_type: ty,
            is_required: required,
        },
    )
}

fn entity_type(
    name: &str,
    descendants: &[&str],
    attributes: Vec<(String, AttributeType)>,
) -> ValidatorEntityType {
    ValidatorEntityType {
        name: name.to_string(),
        descendants: descendants.iter().map(|s| s.to_string()).collect(),
        attributes,
        open_attributes: false,
    }
}

fn view_action() -> ValidatorActionId {
    ValidatorActionId {
        name: EntityUID::with_eid_and_type("Action", "View"),
        principals: vec!["User".to_string()],
        resources: vec!["Doc".to_string()],
        descendants: vec![],
        context: Type::record_with_attributes(vec![], OpenTag::ClosedAttributes),
        attributes: vec![],
    }
}

fn schema(user_attrs: Vec<(String, AttributeType)>) -> ValidatorSchema {
    ValidatorSchema {
        entity_types: vec![
            entity_type("User", &[], user_attrs),
            entity_type("Doc", &[], vec![]),
        ],
        action_ids: vec![view_action()],
        extension_functions: vec![],
    }
}

fn age_schema() -> ValidatorSchema {
    schema(vec![attr("age", Type::Long, true)])
}

fn nickname_schema() -> ValidatorSchema {
    schema(vec![attr("nickname", Type::String, false)])
}

fn permit_when(condition: Expr) -> Template {
    Template::new(
        PolicyID::from_string("policy0"),
        PrincipalOrResourceConstraint::Any,
        ActionConstraint::Any,
        PrincipalOrResourceConstraint::Any,
        condition,
    )
}

fn principal() -> Expr {
    ExprBuilder::new().var(Var::Principal)
}

fn principal_attr(name: &str) -> Expr {
    ExprBuilder::new().get_attr(principal(), name.to_string())
}

fn long(n: i64) -> Expr {
    ExprBuilder::new().val(Literal::Long(n))
}

fn string(s: &str) -> Expr {
    ExprBuilder::new().val(Literal::String(s.to_string()))
}

fn user_access(attr: &str) -> AttributeAccess {
    AttributeAccess::EntityLUB(
        EntityLUB::single_entity("User".to_string()),
        vec![attr.to_string()],
    )
}

#[test]
fn a_comparison_with_a_required_attribute_typechecks() {
    let condition = ExprBuilder::new().greater(principal_attr("age"), long(18));
    assert_policy_typechecks(age_schema(), permit_when(condition.clone()));

    let schema = age_schema();
    let typechecker = Typechecker::new(&schema, ValidationMode::Strict, PolicyID::from_string("policy0"));
    let answers = typechecker.typecheck_by_request_env(&permit_when(condition));
    assert_eq!(answers.len(), 1);
    let (_, answer) = &answers[0];
    assert!(answer.ok());
    assert_eq!(answer.typed.data, Some(Type::Boolean));
    let ExprKind::BinaryApp { arg1, arg2, .. } = &answer.typed.expr_kind else {
        panic!("the condition is a comparison");
    };
    assert_eq!(arg1.data, Some(Type::Long));
    assert_eq!(arg2.data, Some(Type::Long));
    let ExprKind::GetAttr { expr, .. } = &arg2.expr_kind else {
        panic!("the operand is an attribute access");
    };
    assert_eq!(expr.data, Some(Type::named_entity_reference("User".to_string())));
}

#[test]
fn a_misspelt_attribute_is_reported_with_a_suggestion() {
    let condition = principal_attr("agee");
    let expected = TypeError::unsafe_attribute_access(
        condition.clone(),
        user_access("agee"),
        Some("age".to_string()),
        false,
    );
    assert_eq!(
        expected.help(),
        Some("did you mean `age`?".to_string())
    );
    assert_eq!(
        expected.to_string(),
        "attribute `agee` for entity type User not found"
    );
    assert_policy_typecheck_fails(
        age_schema(),
        permit_when(condition.clone()),
        vec![expected]
    );

    let schema = age_schema();
    let typechecker = Typechecker::new(&schema, ValidationMode::Strict, PolicyID::from_string("policy0"));
    let mut errors = vec![];
    let mut warnings: Vec<ValidationWarning> = vec![];
    assert!(!typechecker.typecheck_policy(&permit_when(condition.clone()), &mut errors, &mut warnings));
    assert_eq!(errors.len(), 1);
    assert!(matches!(errors[0].kind, ValidationErrorKind::UnsafeAttributeAccess(_)));
    assert_eq!(errors[0].on_expr, Some(condition));
    assert!(warnings.is_empty());
}

#[test]
fn an_optional_attribute_needs_a_guard() {
    let access = || ExprBuilder::new().is_eq(principal_attr("nickname"), string("bob"));
    let expected =
        TypeError::unsafe_optional_attribute_access(principal_attr("nickname"), user_access("nickname"));
    assert_eq!(
        expected.help(),
        Some("try testing for the attribute with `e has nickname && ..`".to_string())
    );
    assert_policy_typecheck_fails(
        nickname_schema(),
        permit_when(access()),
        vec![expected]
    );

    let guarded = ExprBuilder::new().and(
        ExprBuilder::new().has_attr(principal(), "nickname".to_string()),
        access(),
    );
    assert_policy_typechecks(nickname_schema(), permit_when(guarded));
}

#[test]
fn a_guard_on_another_expression_does_not_help() {
    let guarded = ExprBuilder::new().and(
        ExprBuilder::new().has_attr(ExprBuilder::new().var(Var::Resource), "nickname".to_string()),
        ExprBuilder::new().is_eq(principal_attr("nickname"), string("bob")),
    );
    let schema = ValidatorSchema {
        entity_types: vec![
            entity_type("User", &[], vec![attr("nickname", Type::String, false)]),
            entity_type("Doc", &[], vec![attr("nickname", Type::String, false)]),
        ],
        action_ids: vec![view_action()],
        extension_functions: vec![],
    };
    let typechecker = Typechecker::new(&schema, ValidationMode::Strict, PolicyID::from_string("policy0"));
    let (errors, _) = typechecker.check_policy(&permit_when(guarded));
    assert_eq!(errors.len(), 1);
    assert!(matches!(
        errors[0].kind,
        ValidationErrorKind::UnsafeOptionalAttributeAccess(_)
    ));
}

#[test]
fn a_scope_that_no_action_applies_to_is_reported_with_the_fix() {
    let with_hierarchy = ValidatorSchema {
        entity_types: vec![
            entity_type("User", &[], vec![]),
            entity_type("Doc", &[], vec![]),
            entity_type("Admin", &["User"], vec![]),
        ],
        action_ids: vec![view_action()],
        extension_functions: vec![],
    };
    let policy = || {
        Template::new(
            PolicyID::from_string("policy0"),
            PrincipalOrResourceConstraint::Eq(EntityReference::EUID(
                EntityUID::with_eid_and_type("Admin", "a"),
            )),
            ActionConstraint::Eq(EntityUID::with_eid_and_type("Action", "View")),
            PrincipalOrResourceConstraint::Any,
            ExprBuilder::new().val(Literal::Bool(true)),
        )
    };
    assert_policy_typecheck_fails(
        with_hierarchy,
        policy(),
        vec![TypeError::invalid_action_application(true, false)]
    );

    let without_hierarchy = ValidatorSchema {
        entity_types: vec![
            entity_type("User", &[], vec![]),
            entity_type("Doc", &[], vec![]),
            entity_type("Admin", &[], vec![]),
        ],
        action_ids: vec![view_action()],
        extension_functions: vec![],
    };
    assert_policy_typecheck_fails(
        without_hierarchy,
        policy(),
        vec![TypeError::invalid_action_application(false, false)]
    );
}

#[test]
fn a_set_of_incompatible_elements_is_reported() {
    let condition = ExprBuilder::new().set(vec![long(1), string("x")]);
    let expected = TypeError::incompatible_types(
        condition.clone(),
        vec![Type::Long, Type::String],
        LubHelp::NoHelp,
        LubContext::SetElements,
    );
    assert_eq!(
        expected.to_string(),
        "the types Long and String are not compatible"
    );
    assert_policy_typecheck_fails(
        age_schema(),
        permit_when(condition),
        vec![expected]
    );
}

#[test]
fn a_conditional_with_incompatible_branches_is_reported() {
    let condition = ExprBuilder::new().ite(
        ExprBuilder::new().is_eq(principal(), ExprBuilder::new().var(Var::Resource)),
        long(1),
        string("x"),
    );
    let schema = age_schema();
    let typechecker = Typechecker::new(&schema, ValidationMode::Permissive, PolicyID::from_string("policy0"));
    let (errors, impossible) = typechecker.check_policy(&permit_when(condition.clone()));
    assert!(!impossible);
    let expected = || {
        TypeError::incompatible_types(
            condition.clone(),
            vec![Type::Long, Type::String],
            LubHelp::NoHelp,
            LubContext::Conditional,
        )
    };
    assert_eq!(errors, vec![expected()]);
    assert_eq!(
        expected().help(),
        Some(
            "both branches of a conditional must have compatible types. Types must be exactly equal to be compatible"
                .to_string()
        )
    );

    let strict = Typechecker::new(&schema, ValidationMode::Strict, PolicyID::from_string("policy0"));
    let (errors, _) = strict.check_policy(&permit_when(condition.clone()));
    assert_eq!(errors.len(), 2);
    assert!(errors.contains(&expected()));
}

#[test]
fn typechecking_twice_gives_the_same_outcome() {
    let condition = ExprBuilder::new().and(
        principal_attr("agee"),
        ExprBuilder::new().set(vec![long(1), string("x")]),
    );
    let schema = age_schema();
    let typechecker = Typechecker::new(&schema, ValidationMode::Strict, PolicyID::from_string("policy0"));
    let policy = permit_when(condition);
    let first = typechecker.check_policy(&policy);
    let second = typechecker.check_policy(&policy);
    assert_eq!(first, second);
    let a = typechecker.typecheck_by_request_env(&policy);
    let b = typechecker.typecheck_by_request_env(&policy);
    assert_eq!(a.len(), b.len());
    for (x, y) in a.iter().zip(b.iter()) {
        assert_eq!(x.0, y.0);
        assert_eq!(x.1.typed, y.1.typed);
        assert_eq!(x.1.errors, y.1.errors);
    }
}

#[test]
fn more_capabilities_never_add_errors() {
    let schema = nickname_schema();
    let env = Typechecker::placeholder_request_env();
    let user_env = {
        let typechecker =
            Typechecker::new(&schema, ValidationMode::Strict, PolicyID::from_string("p"));
        let policy = permit_when(ExprBuilder::new().val(Literal::Bool(true)));
        let mut answers = typechecker.typecheck_by_request_env(&policy);
        answers.remove(0).0
    };
    assert_ne!(env, user_env);
    let typechecker = Typechecker::new(&schema, ValidationMode::Strict, PolicyID::from_string("p"));
    let e = ExprBuilder::new().is_eq(principal_attr("nickname"), principal_attr("agee"));
    let none = CapabilitySet::new();
    let some = CapabilitySet::singleton(&principal(), "nickname".to_string());
    let mut with_none = vec![];
    let mut with_some = vec![];
    typechecker.typecheck(&user_env, &none, &e, &mut with_none);
    typechecker.typecheck(&user_env, &some, &e, &mut with_some);
    assert_eq!(with_none.len(), 2);
    assert_eq!(with_some.len(), 1);
    for err in &with_some {
        assert!(with_none.contains(err));
    }
}

#[test]
fn what_follows_a_test_that_is_always_false_does_not_count() {
    let guarded = ExprBuilder::new().and(
        ExprBuilder::new().has_attr(ExprBuilder::new().var(Var::Resource), "nickname".to_string()),
        ExprBuilder::new().is_eq(principal_attr("nickname"), string("bob")),
    );
    let schema = nickname_schema();
    let typechecker = Typechecker::new(&schema, ValidationMode::Strict, PolicyID::from_string("policy0"));
    let (errors, impossible) = typechecker.check_policy(&permit_when(guarded));
    assert!(errors.is_empty());
    assert!(impossible);
}
