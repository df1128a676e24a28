use cedar_policy_validator::expr::{
    BinaryOp, EntityType, EntityUID, Expr, ExprBuilder, Literal, Loc, Var,
};
use cedar_policy_validator::policy::{
    ActionConstraint, EntityReference, PolicyID, PrincipalOrResourceConstraint, Template,
};
use cedar_policy_validator::request_env::{
    all_request_envs, in_would_fix_principal, in_would_fix_resource, policy_request_envs,
    RequestEnv,
};
use cedar_policy_validator::schema::{ValidatorActionId, ValidatorEntityType, ValidatorSchema};
use cedar_policy_validator::typecheck::test_utils::{
    assert_expected_type_errors, assert_expected_warnings, assert_policy_typecheck_fails,
    assert_policy_typecheck_fails_for_mode, assert_policy_typecheck_warns,
    assert_policy_typecheck_warns_for_mode, assert_policy_typechecks,
    assert_policy_typechecks_for_mode, does_policy_typecheck, does_policy_typecheck_fail,
    does_policy_typecheck_warn, type_errors_are, warnings_are,
};
use cedar_policy_validator::typecheck::{Typechecker, ValidationWarning};
use cedar_policy_validator::types::{AttributeType, OpenTag, Type, ValidationMode};
use cedar_policy_validator::validation_errors::{LubContext, LubHelp, TypeError};

fn attr(name: &str, ty: Type, required: bool) -> (String, AttributeType) {
    (
        name.to_string(),
        AttributeType {
            attr_type: ty,
            is_required: required,
        },
    )
}

fn entity_type(name: &str, descendants: &[&str]) -> ValidatorEntityType {
    ValidatorEntityType {
        name: name.to_string(),
        descendants: descendants.iter().map(|s| s.to_string()).collect(),
        attributes: vec![attr("name", Type::String, true)],
        open_attributes: false,
    }
}

fn action(id: &str, principals: &[&str], resources: &[&str], members: &[&str]) -> ValidatorActionId {
    ValidatorActionId {
        name: EntityUID::with_eid_and_type("Action", id),
        principals: principals.iter().map(|s| s.to_string()).collect(),
        resources: resources.iter().map(|s| s.to_string()).collect(),
        descendants: members
            .iter()
            .map(|m| EntityUID::with_eid_and_type("Action", m))
            .collect(),
        context: Type::record_with_attributes(
            vec![attr("id", Type::String, true)],
            OpenTag::ClosedAttributes,
        ),
        attributes: vec![],
    }
}

fn library() -> ValidatorSchema {
    ValidatorSchema {
        entity_types: vec![
            entity_type("User", &[]),
            entity_type("Admin", &[]),
            entity_type("Group", &["User", "Admin"]),
            entity_type("Book", &[]),
            entity_type("Shelf", &["Book"]),
            entity_type("Library", &["Shelf", "Book"]),
        ],
        action_ids: vec![
            action("read", &["User", "Admin"], &["Book"], &[]),
            action("shelve", &["Admin"], &["Book", "Shelf"], &[]),
            action("any", &[], &[], &["read", "shelve"]),
        ],
        extension_functions: vec![],
    }
}

fn triple(env: &RequestEnv) -> (String, String, String) {
    match env {
        RequestEnv::DeclaredAction {
            principal: EntityType::Specified(p),
            action,
            resource: EntityType::Specified(r),
            ..
        } => (p.clone(), action.eid.clone(), r.clone()),
        _ => panic!("not an environment of the schema"),
    }
}

fn triples(envs: &[RequestEnv]) -> Vec<(String, String, String)> {
    envs.iter().map(triple).collect()
}

fn t(p: &str, a: &str, r: &str) -> (String, String, String) {
    (p.to_string(), a.to_string(), r.to_string())
}

fn euid(ty: &str, id: &str) -> EntityReference {
    EntityReference::EUID(EntityUID::with_eid_and_type(ty, id))
}

fn policy(
    principal: PrincipalOrResourceConstraint,
    action: ActionConstraint,
    resource: PrincipalOrResourceConstraint,
    condition: Expr,
) -> Template {
    Template::new(PolicyID::from_string("p"), principal, action, resource, condition)
}

fn yes() -> Expr {
    ExprBuilder::new().val(Literal::Bool(true))
}

fn scoped(
    principal: PrincipalOrResourceConstraint,
    action: ActionConstraint,
    resource: PrincipalOrResourceConstraint,
) -> Vec<(String, String, String)> {
    triples(&policy_request_envs(
        &library(),
        &policy(principal, action, resource, yes()),
    ))
}

#[test]
fn every_principal_and_resource_of_every_action_makes_an_environment() {
    let envs = all_request_envs(&library());
    assert_eq!(
        triples(&envs),
        vec![
            t("User", "read", "Book"),
            t("Admin", "read", "Book"),
            t("Admin", "shelve", "Book"),
            t("Admin", "shelve", "Shelf"),
        ]
    );
    match &envs[0] {
        RequestEnv::DeclaredAction {
            context,
            principal_slot,
            resource_slot,
            ..
        } => {
            assert_eq!(
                context,
                &Type::record_with_attributes(
                    vec![attr("id", Type::String, true)],
                    OpenTag::ClosedAttributes
                )
            );
            assert_eq!(principal_slot, &None);
            assert_eq!(resource_slot, &None);
        }
        _ => panic!("not an environment of the schema"),
    }
    assert!(all_request_envs(&ValidatorSchema::empty()).is_empty());
}

#[test]
fn the_scope_of_a_policy_narrows_its_environments() {
    let any = || PrincipalOrResourceConstraint::Any;
    assert_eq!(scoped(any(), ActionConstraint::Any, any()).len(), 4);
    assert_eq!(
        scoped(
            PrincipalOrResourceConstraint::Eq(euid("User", "u")),
            ActionConstraint::Any,
            any()
        ),
        vec![t("User", "read", "Book")]
    );
    assert_eq!(
        scoped(
            PrincipalOrResourceConstraint::Is("Admin".to_string()),
            ActionConstraint::Any,
            PrincipalOrResourceConstraint::Is("Book".to_string()),
        ),
        vec![t("Admin", "read", "Book"), t("Admin", "shelve", "Book")]
    );
    assert_eq!(
        scoped(
            PrincipalOrResourceConstraint::In(euid("Group", "g")),
            ActionConstraint::Eq(EntityUID::with_eid_and_type("Action", "read")),
            any()
        ),
        vec![t("User", "read", "Book"), t("Admin", "read", "Book")]
    );
    assert_eq!(
        scoped(
            PrincipalOrResourceConstraint::In(euid("User", "u")),
            ActionConstraint::Any,
            PrincipalOrResourceConstraint::In(euid("Shelf", "s")),
        ),
        vec![t("User", "read", "Book")]
    );
    assert_eq!(
        scoped(
            PrincipalOrResourceConstraint::IsIn("User".to_string(), euid("Group", "g")),
            ActionConstraint::Any,
            any()
        ),
        vec![t("User", "read", "Book")]
    );
    assert_eq!(
        scoped(
            PrincipalOrResourceConstraint::IsIn("User".to_string(), euid("Book", "b")),
            ActionConstraint::Any,
            any()
        ),
        vec![]
    );
    assert_eq!(
        scoped(
            PrincipalOrResourceConstraint::Eq(EntityReference::Slot),
            ActionConstraint::In(vec![EntityUID::with_eid_and_type("Action", "shelve")]),
            PrincipalOrResourceConstraint::In(EntityReference::Slot),
        ),
        vec![t("Admin", "shelve", "Book"), t("Admin", "shelve", "Shelf")]
    );
    assert_eq!(
        scoped(
            any(),
            ActionConstraint::In(vec![EntityUID::with_eid_and_type("Action", "any")]),
            any()
        )
        .len(),
        4
    );
    assert_eq!(
        scoped(
            any(),
            ActionConstraint::In(vec![
                EntityUID::with_eid_and_type("Action", "nothing"),
                EntityUID::with_eid_and_type("Action", "read")
            ]),
            PrincipalOrResourceConstraint::Is("Shelf".to_string()),
        ),
        vec![]
    );
    assert_eq!(scoped(any(), ActionConstraint::In(vec![]), any()), vec![]);
}

#[test]
fn a_policy_without_an_environment_says_whether_in_would_help() {
    let check = |p: PrincipalOrResourceConstraint, r: PrincipalOrResourceConstraint| {
        let schema = library();
        let template = policy(p, ActionConstraint::Any, r, yes());
        assert!(policy_request_envs(&schema, &template).is_empty());
        let typechecker =
            Typechecker::new(&schema, ValidationMode::Strict, PolicyID::from_string("p"));
        let (errors, impossible) = typechecker.check_policy(&template);
        assert!(!impossible);
        assert_eq!(errors.len(), 1);
        let fix = (
            in_would_fix_principal(&schema, &template),
            in_would_fix_resource(&schema, &template),
        );
        assert_eq!(
            errors[0],
            TypeError::invalid_action_application(fix.0, fix.1)
        );
        fix
    };
    let any = || PrincipalOrResourceConstraint::Any;
    let eq = |ty: &str| PrincipalOrResourceConstraint::Eq(euid(ty, "x"));
    assert_eq!(check(eq("Group"), any()), (true, false));
    assert_eq!(check(any(), eq("Library")), (false, true));
    assert_eq!(check(eq("Book"), any()), (false, false));
    assert_eq!(check(eq("Group"), eq("Library")), (false, false));
    assert_eq!(check(eq("Group"), eq("User")), (false, false));
    assert_eq!(
        check(PrincipalOrResourceConstraint::Is("Group".to_string()), any()),
        (false, false)
    );
}

#[test]
fn the_errors_of_all_environments_are_reported_once_each() {
    let e = ExprBuilder::new().is_eq(
        ExprBuilder::new().var(Var::Principal),
        ExprBuilder::new().val(Literal::EntityUID(EntityUID::with_eid_and_type("User", "u"))),
    );
    let template = policy(
        PrincipalOrResourceConstraint::Any,
        ActionConstraint::Any,
        PrincipalOrResourceConstraint::Any,
        e.clone(),
    );
    let schema = library();
    let typechecker = Typechecker::new(&schema, ValidationMode::Strict, PolicyID::from_string("p"));
    let by_env = typechecker.typecheck_by_request_env(&template);
    assert_eq!(by_env.len(), 4);
    assert_eq!(by_env.iter().filter(|(_, a)| !a.ok()).count(), 3);
    let (errors, _) = typechecker.check_policy(&template);
    assert_eq!(
        errors,
        vec![TypeError::incompatible_types(
            e,
            vec![
                Type::named_entity_reference("Admin".to_string()),
                Type::named_entity_reference("User".to_string())
            ],
            LubHelp::EntityType,
            LubContext::Equality,
        )]
    );
    let mut known = vec![];
    let mut warnings = vec![];
    assert!(!typechecker.typecheck_policy(&template, &mut known, &mut warnings));
    assert!(!typechecker.typecheck_policy(&template, &mut known, &mut warnings));
    assert_eq!(known, errors);
    assert!(warnings.is_empty());
}

#[test]
fn errors_count_as_one_by_kind_and_location() {
    let schema = library();
    let typechecker = Typechecker::new(&schema, ValidationMode::Strict, PolicyID::from_string("e"));
    let at = |start| Loc::new(start, start + 1, "[] && []".to_string());
    let set = |start| ExprBuilder::new().with_source_loc(at(start)).set(vec![]);
    let both = ExprBuilder::new().binary_app(
        BinaryOp::Eq,
        set(0),
        set(6),
    );
    let mut errors = vec![];
    typechecker.typecheck_expr(&both, &mut errors);
    assert_eq!(errors.len(), 2);
    let same = ExprBuilder::new().binary_app(
        BinaryOp::Eq,
        set(0),
        set(0),
    );
    let mut errors = vec![];
    typechecker.typecheck_expr(&same, &mut errors);
    assert_eq!(errors.len(), 1);
    assert!(errors[0].same_kind_and_location(&TypeError::empty_set_forbidden(set(0))));
    assert!(!errors[0].same_kind_and_location(&TypeError::empty_set_forbidden(set(6))));
}

#[test]
fn the_condition_of_a_policy_must_be_a_boolean() {
    let one = ExprBuilder::new().val(Literal::Long(1));
    let template = || {
        policy(
            PrincipalOrResourceConstraint::Any,
            ActionConstraint::Any,
            PrincipalOrResourceConstraint::Any,
            ExprBuilder::new().val(Literal::Long(1)),
        )
    };
    assert_policy_typecheck_fails(
        library(),
        template(),
        vec![TypeError::expected_type(one.clone(), Type::Boolean, Type::Long, None)]
    );
    assert!(!does_policy_typecheck_fail(library(), template(), vec![]));
    assert!(!does_policy_typecheck(library(), template()));
    assert_policy_typecheck_fails_for_mode(
        library(),
        template(),
        vec![TypeError::expected_type(one, Type::Boolean, Type::Long, None)],
        ValidationMode::Permissive,
    );
}

#[test]
fn a_policy_that_is_always_false_gets_a_warning() {
    let at = Loc::new(5, 10, "when false".to_string());
    let never = || {
        policy(
            PrincipalOrResourceConstraint::Any,
            ActionConstraint::Any,
            PrincipalOrResourceConstraint::Any,
            ExprBuilder::new()
                .with_source_loc(Loc::new(5, 10, "when false".to_string()))
                .val(Literal::Bool(false)),
        )
    };
    let warning = || ValidationWarning::impossible_policy(Some(at.clone()));
    assert_eq!(
        warning().to_string(),
        "policy is impossible: the policy expression evaluates to false for all valid requests"
    );
    assert_policy_typecheck_warns(library(), never(), vec![warning()]);
    assert_policy_typecheck_warns_for_mode(
        library(),
        never(),
        vec![warning()],
        ValidationMode::Permissive
    );
    assert!(!does_policy_typecheck_warn(library(), never(), vec![]));
    assert!(!does_policy_typecheck_warn(
        library(),
        never(),
        vec![ValidationWarning::impossible_policy(None)]
    ));
    assert_policy_typechecks(library(), never());

    let schema = library();
    let typechecker = Typechecker::new(&schema, ValidationMode::Strict, PolicyID::from_string("p"));
    let mut errors = vec![];
    let mut warnings = vec![];
    assert!(typechecker.typecheck_policy(&never(), &mut errors, &mut warnings));
    assert!(typechecker.typecheck_policy(&never(), &mut errors, &mut warnings));
    assert!(errors.is_empty());
    assert_eq!(warnings, vec![warning()]);

    let sometimes = policy(
        PrincipalOrResourceConstraint::Any,
        ActionConstraint::Any,
        PrincipalOrResourceConstraint::Any,
        ExprBuilder::new().is_entity_type(ExprBuilder::new().var(Var::Principal), "User".to_string()),
    );
    assert_policy_typecheck_warns(library(), sometimes, vec![]);
    let user_only = policy(
        PrincipalOrResourceConstraint::Is("User".to_string()),
        ActionConstraint::Any,
        PrincipalOrResourceConstraint::Any,
        ExprBuilder::new().is_entity_type(ExprBuilder::new().var(Var::Principal), "Admin".to_string()),
    );
    assert_policy_typecheck_warns(
        library(),
        user_only,
        vec![ValidationWarning::impossible_policy(None)]
    );
}

#[test]
fn expected_errors_and_warnings_are_compared_as_sets() {
    let a = || TypeError::unspecified_entity("a".to_string());
    let b = || TypeError::unspecified_entity("b".to_string());
    assert_expected_type_errors(vec![], &vec![]);
    assert_expected_type_errors(vec![a(), b()], &vec![b(), a()]);
    assert_expected_type_errors(vec![a(), a(), b()], &vec![b(), a()]);
    assert!(!type_errors_are(vec![a()], &vec![b(), a()]));
    assert!(!type_errors_are(vec![a(), b()], &vec![a()]));
    let w = |n| ValidationWarning::impossible_policy(Some(Loc::new(n, n, "s".to_string())));
    assert_expected_warnings(vec![w(1), w(2)], &vec![w(2), w(1)]);
    assert!(!warnings_are(vec![w(1)], &vec![w(2)]));
    assert!(!warnings_are(vec![], &vec![w(2)]));
}

#[test]
fn what_typechecks_under_strict_validation_is_checked_under_permissive_too() {
    let fine = || {
        policy(
            PrincipalOrResourceConstraint::Any,
            ActionConstraint::Any,
            PrincipalOrResourceConstraint::Any,
            ExprBuilder::new().like(
                ExprBuilder::new().get_attr(ExprBuilder::new().var(Var::Principal), "name".to_string()),
                "a*".to_string(),
            ),
        )
    };
    assert_policy_typechecks(library(), fine());
    assert_policy_typechecks_for_mode(
        library(),
        fine(),
        ValidationMode::Permissive
    );
    let strict_only_failure = || {
        policy(
            PrincipalOrResourceConstraint::Any,
            ActionConstraint::Any,
            PrincipalOrResourceConstraint::Any,
            ExprBuilder::new().is_in(
                ExprBuilder::new().var(Var::Principal),
                ExprBuilder::new().var(Var::Resource),
            ),
        )
    };
    assert!(!does_policy_typecheck(library(), strict_only_failure()));
    assert_policy_typechecks_for_mode(
        library(),
        strict_only_failure(),
        ValidationMode::Permissive
    );
    assert_eq!(fine().id(), &PolicyID::from_string("p"));
    assert_eq!(fine().condition(), &fine().condition);
}
