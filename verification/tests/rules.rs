use cedar_policy_validator::capability::CapabilitySet;
use cedar_policy_validator::expr::{
    BinaryOp, CallStyle, EntityType, EntityUID, Expr, ExprBuilder, ExprKind, Literal, Loc,
    SlotId, Var,
};
use cedar_policy_validator::request_env::RequestEnv;
use cedar_policy_validator::schema::{
    ExtensionFunctionType, ValidatorActionId, ValidatorEntityType, ValidatorSchema,
};
use cedar_policy_validator::typecheck::infer::check;
use cedar_policy_validator::typecheck::answer::Answer;
use cedar_policy_validator::types::{
    AttributeType, EntityLUB, OpenTag, Type, ValidationMode,
};
use cedar_policy_validator::validation_errors::{
    AttributeAccess, LubContext, LubHelp, TypeError, UnexpectedTypeHelp,
};

fn attr(name: &str, ty: Type, required: bool) -> (String, AttributeType) {
    (
        name.to_string(),
        AttributeType {
            attr_type: ty,
            is_required: required,
        },
    )
}

fn entity(name: &str) -> Type {
    Type::named_entity_reference(name.to_string())
}

fn test_schema() -> ValidatorSchema {
    ValidatorSchema {
        entity_types: vec![
            ValidatorEntityType {
                name: "User".to_string(),
                descendants: vec![],
                attributes: vec![
                    attr("age", Type::Long, true),
                    attr("name", Type::String, true),
                    attr("nickname", Type::String, false),
                    attr(
                        "address",
                        Type::record_with_attributes(
                            vec![attr("street", Type::String, true), attr("zip", Type::Long, false)],
                            OpenTag::ClosedAttributes,
                        ),
                        true,
                    ),
                ],
                open_attributes: false,
            },
            ValidatorEntityType {
                name: "Group".to_string(),
                descendants: vec!["User".to_string(), "Group".to_string()],
                attributes: vec![attr("name", Type::String, true), attr("age", Type::String, true)],
                open_attributes: false,
            },
            ValidatorEntityType {
                name: "Doc".to_string(),
                descendants: vec![],
                attributes: vec![],
                open_attributes: true,
            },
        ],
        action_ids: vec![
            ValidatorActionId {
                name: EntityUID::with_eid_and_type("Action", "view"),
                principals: vec!["User".to_string()],
                resources: vec!["Doc".to_string()],
                descendants: vec![],
                context: Type::record_with_attributes(
                    vec![attr("ip", Type::Extension("ipaddr".to_string()), true)],
                    OpenTag::ClosedAttributes,
                ),
                attributes: vec![attr("level", Type::Long, true)],
            },
            ValidatorActionId {
                name: EntityUID::with_eid_and_type("Action", "edit"),
                principals: vec!["User".to_string()],
                resources: vec!["Doc".to_string()],
                descendants: vec![],
                context: Type::record_with_attributes(vec![], OpenTag::ClosedAttributes),
                attributes: vec![attr("level", Type::Long, true)],
            },
        ],
        extension_functions: vec![
            ExtensionFunctionType {
                name: "ip".to_string(),
                style: CallStyle::FunctionStyle,
                argument_types: vec![Type::String],
                return_type: Type::Extension("ipaddr".to_string()),
                is_constructor: true,
            },
            ExtensionFunctionType {
                name: "isInRange".to_string(),
                style: CallStyle::MethodStyle,
                argument_types: vec![
                    Type::Extension("ipaddr".to_string()),
                    Type::Extension("ipaddr".to_string()),
                ],
                return_type: Type::Boolean,
                is_constructor: false,
            },
            ExtensionFunctionType {
                name: "twice".to_string(),
                style: CallStyle::FunctionStyle,
                argument_types: vec![],
                return_type: Type::Long,
                is_constructor: false,
            },
            ExtensionFunctionType {
                name: "twice".to_string(),
                style: CallStyle::FunctionStyle,
                argument_types: vec![],
                return_type: Type::Long,
                is_constructor: false,
            },
        ],
    }
}

fn test_env() -> RequestEnv {
    RequestEnv::DeclaredAction {
        principal: EntityType::Specified("User".to_string()),
        action: EntityUID::with_eid_and_type("Action", "view"),
        resource: EntityType::Specified("Doc".to_string()),
        context: Type::record_with_attributes(
            vec![attr("ip", Type::Extension("ipaddr".to_string()), true)],
            OpenTag::ClosedAttributes,
        ),
        principal_slot: Some(EntityType::Specified("Group".to_string())),
        resource_slot: None,
    }
}

fn infer_in(mode: ValidationMode, e: &Expr) -> Answer {
    check(&test_schema(), mode, &test_env(), &CapabilitySet::new(), e)
}

fn infer(e: &Expr) -> Answer {
    infer_in(ValidationMode::Strict, e)
}

fn types_as(e: &Expr, ty: Type) {
    let a = infer(e);
    assert_eq!(a.errors, vec![], "{:?}", e);
    assert!(a.ok());
    assert_eq!(a.ty(), ty, "{:?}", e);
}

fn fails_as(e: &Expr, ty: Type, errors: Vec<TypeError>) {
    let a = infer(e);
    assert_eq!(a.errors, errors, "{:?}", e);
    assert!(!a.ok());
    assert_eq!(a.ty(), ty, "{:?}", e);
}

fn b() -> ExprBuilder {
    ExprBuilder::new()
}

fn var(v: Var) -> Expr {
    b().var(v)
}

fn long(n: i64) -> Expr {
    b().val(Literal::Long(n))
}

fn text(s: &str) -> Expr {
    b().val(Literal::String(s.to_string()))
}

fn boolean(v: bool) -> Expr {
    b().val(Literal::Bool(v))
}

fn uid(ty: &str, id: &str) -> Expr {
    b().val(Literal::EntityUID(EntityUID::with_eid_and_type(ty, id)))
}

fn get(e: Expr, a: &str) -> Expr {
    b().get_attr(e, a.to_string())
}

fn has(e: Expr, a: &str) -> Expr {
    b().has_attr(e, a.to_string())
}

fn unknown_bool() -> Expr {
    b().less(long(1), get(var(Var::Principal), "age"))
}

#[test]
fn literals_have_their_types() {
    types_as(&boolean(true), Type::True);
    types_as(&boolean(false), Type::False);
    types_as(&long(-3), Type::Long);
    types_as(&text("x"), Type::String);
    types_as(&uid("User", "alice"), entity("User"));
    types_as(
        &uid("Action", "view"),
        Type::ActionEntity(EntityLUB::single_entity("Action".to_string())),
    );
}

#[test]
fn unknown_entities_in_literals_are_reported() {
    fails_as(
        &uid("Usr", "alice"),
        Type::Never,
        vec![TypeError::unrecognized_entity_type(
            "Usr".to_string(),
            Some("User".to_string()),
        )],
    );
    fails_as(
        &uid("Spaceship", "alice"),
        Type::Never,
        vec![TypeError::unrecognized_entity_type("Spaceship".to_string(), None)],
    );
    fails_as(
        &uid("Action", "vew"),
        Type::Never,
        vec![TypeError::unrecognized_action_id(
            "Action::\"vew\"".to_string(),
            Some("Action::\"view\"".to_string()),
        )],
    );
    let unspecified = b().val(Literal::EntityUID(EntityUID {
        ty: EntityType::Unspecified,
        eid: "x".to_string(),
    }));
    fails_as(
        &unspecified,
        Type::Never,
        vec![TypeError::unspecified_entity("x".to_string())],
    );
}

#[test]
fn variables_and_slots_have_the_types_of_the_environment() {
    types_as(&var(Var::Principal), entity("User"));
    types_as(&var(Var::Resource), entity("Doc"));
    types_as(
        &var(Var::Action),
        Type::ActionEntity(EntityLUB::single_entity("Action".to_string())),
    );
    types_as(
        &var(Var::Context),
        Type::record_with_attributes(
            vec![attr("ip", Type::Extension("ipaddr".to_string()), true)],
            OpenTag::ClosedAttributes,
        ),
    );
    types_as(&b().slot(SlotId::Principal), entity("Group"));
    types_as(&b().slot(SlotId::Resource), Type::AnyEntity);
}

#[test]
fn without_a_declared_action_nothing_is_known_of_the_request() {
    let schema = test_schema();
    let env = RequestEnv::UndeclaredAction;
    let caps = CapabilitySet::new();
    let ty = |e: Expr| check(&schema, ValidationMode::Strict, &env, &caps, &e).ty();
    assert_eq!(ty(var(Var::Principal)), Type::AnyEntity);
    assert_eq!(ty(var(Var::Action)), Type::AnyEntity);
    assert_eq!(ty(var(Var::Resource)), Type::AnyEntity);
    assert_eq!(
        ty(var(Var::Context)),
        Type::record_with_attributes(vec![], OpenTag::OpenAttributes)
    );
    assert_eq!(ty(b().slot(SlotId::Principal)), Type::AnyEntity);
    assert_eq!(env.action_entity_uid(), None);
    assert_eq!(
        test_env().action_entity_uid(),
        Some(&EntityUID::with_eid_and_type("Action", "view"))
    );
}

#[test]
fn attribute_access_gives_the_declared_type() {
    types_as(&get(var(Var::Principal), "age"), Type::Long);
    types_as(&get(get(var(Var::Principal), "address"), "street"), Type::String);
    types_as(
        &get(var(Var::Context), "ip"),
        Type::Extension("ipaddr".to_string()),
    );
    types_as(&get(var(Var::Action), "level"), Type::Long);
    types_as(
        &get(b().record(vec![("k".to_string(), long(1))]), "k"),
        Type::Long,
    );
}

#[test]
fn attribute_access_errors_say_what_was_accessed() {
    let e = get(get(var(Var::Principal), "address"), "zip");
    fails_as(
        &e,
        Type::Long,
        vec![TypeError::unsafe_optional_attribute_access(
            e.clone(),
            AttributeAccess::EntityLUB(
                EntityLUB::single_entity("User".to_string()),
                vec!["zip".to_string(), "address".to_string()],
            ),
        )],
    );
    let e = get(var(Var::Context), "ipp");
    fails_as(
        &e,
        Type::Never,
        vec![TypeError::unsafe_attribute_access(
            e.clone(),
            AttributeAccess::Context(
                EntityUID::with_eid_and_type("Action", "view"),
                vec!["ipp".to_string()],
            ),
            Some("ip".to_string()),
            false,
        )],
    );
    let e = get(var(Var::Resource), "owner");
    fails_as(
        &e,
        Type::Never,
        vec![TypeError::unsafe_attribute_access(
            e.clone(),
            AttributeAccess::EntityLUB(
                EntityLUB::single_entity("Doc".to_string()),
                vec!["owner".to_string()],
            ),
            None,
            true,
        )],
    );
    let e = get(b().slot(SlotId::Resource), "owner");
    fails_as(
        &e,
        Type::Never,
        vec![TypeError::unsafe_attribute_access(
            e.clone(),
            AttributeAccess::Other(vec!["owner".to_string()]),
            None,
            true,
        )],
    );
    let e = get(long(1), "owner");
    fails_as(
        &e,
        Type::Never,
        vec![TypeError::expected_one_of_types(
            long(1),
            vec![
                Type::AnyEntity,
                Type::record_with_attributes(vec![], OpenTag::OpenAttributes),
            ],
            Type::Long,
            None,
        )],
    );
}

#[test]
fn an_error_in_a_part_is_reported_once() {
    let missing = get(var(Var::Principal), "agee");
    let e = b().less(get(missing.clone(), "x"), long(1));
    let a = infer(&e);
    assert_eq!(a.errors.len(), 1);
    assert_eq!(a.errors[0].on_expr, Some(missing));
    assert_eq!(a.ty(), Type::Boolean);
}

#[test]
fn attributes_of_several_entity_types_must_agree() {
    let schema = test_schema();
    let env = test_env();
    let caps = CapabilitySet::new();
    let either = b().ite(unknown_bool(), uid("User", "a"), uid("Group", "g"));
    let name = get(either.clone(), "name");
    let a = check(&schema, ValidationMode::Permissive, &env, &caps, &name);
    assert_eq!(a.errors, vec![]);
    assert_eq!(a.ty(), Type::String);
    let age = get(either.clone(), "age");
    let a = check(&schema, ValidationMode::Permissive, &env, &caps, &age);
    assert_eq!(
        a.errors,
        vec![TypeError::unsafe_attribute_access(
            age.clone(),
            AttributeAccess::EntityLUB(
                EntityLUB::single_entity("Group".to_string())
                    .union(&EntityLUB::single_entity("User".to_string())),
                vec!["age".to_string()],
            ),
            Some("age".to_string()),
            false,
        )]
    );
    assert_eq!(a.ty(), Type::Never);
    let or_doc = b().ite(unknown_bool(), uid("User", "a"), uid("Doc", "d"));
    let a = check(&schema, ValidationMode::Permissive, &env, &caps, &get(or_doc, "age"));
    assert_eq!(a.errors.len(), 1);
    assert_eq!(
        a.errors[0].help(),
        Some(
            "did you mean `age`? (there may also be additional attributes that the validator is not able to reason about)"
                .to_string()
        )
    );
    let strict = check(&schema, ValidationMode::Strict, &env, &caps, &either);
    assert_eq!(
        strict.errors,
        vec![TypeError::incompatible_types(
            either,
            vec![entity("User"), entity("Group")],
            LubHelp::EntityType,
            LubContext::Conditional,
        )]
    );
}

#[test]
fn has_is_decided_where_the_type_decides_it() {
    types_as(&has(var(Var::Principal), "age"), Type::True);
    types_as(&has(var(Var::Principal), "nickname"), Type::Boolean);
    types_as(&has(var(Var::Principal), "agee"), Type::False);
    types_as(&has(var(Var::Resource), "owner"), Type::Boolean);
    types_as(&has(b().slot(SlotId::Resource), "owner"), Type::Boolean);
    types_as(&has(var(Var::Context), "ip"), Type::True);
    types_as(&has(var(Var::Context), "mask"), Type::False);
    fails_as(
        &has(text("x"), "len"),
        Type::Boolean,
        vec![TypeError::expected_one_of_types(
            text("x"),
            vec![
                Type::AnyEntity,
                Type::record_with_attributes(vec![], OpenTag::OpenAttributes),
            ],
            Type::String,
            None,
        )],
    );
}

#[test]
fn has_establishes_the_presence_of_an_optional_attribute() {
    let a = infer(&has(var(Var::Principal), "nickname"));
    assert!(a.caps.contains(&var(Var::Principal), &"nickname".to_string()));
    assert!(!a.caps.contains(&var(Var::Resource), &"nickname".to_string()));
    assert!(!a.caps.contains(&var(Var::Principal), &"age".to_string()));
    let a = infer(&has(var(Var::Principal), "age"));
    assert!(!a.caps.contains(&var(Var::Principal), &"age".to_string()));
    let nick = || get(var(Var::Principal), "nickname");
    types_as(
        &b().and(has(var(Var::Principal), "nickname"), b().is_eq(nick(), text("bob"))),
        Type::Boolean,
    );
    types_as(
        &b().ite(has(var(Var::Principal), "nickname"), nick(), text("none")),
        Type::String,
    );
    let e = b().ite(has(var(Var::Principal), "nickname"), text("none"), nick());
    assert_eq!(infer(&e).errors.len(), 1);
    let e = b().or(has(var(Var::Principal), "nickname"), b().is_eq(nick(), text("bob")));
    assert_eq!(infer(&e).errors.len(), 1);
    let e = b().and(
        b().not(has(var(Var::Principal), "nickname")),
        b().is_eq(nick(), text("bob")),
    );
    assert_eq!(infer(&e).errors.len(), 1);
}

#[test]
fn capabilities_are_keyed_by_the_shape_of_the_expression() {
    let here = Loc::new(0, 9, "principal".to_string());
    let located = b().with_source_loc(here).var(Var::Principal);
    let typed = ExprBuilder::with_data(Some(Type::Long)).var(Var::Principal);
    let caps = CapabilitySet::singleton(&located, "nickname".to_string());
    assert!(caps.contains(&var(Var::Principal), &"nickname".to_string()));
    assert!(caps.contains(&typed, &"nickname".to_string()));
    assert!(!caps.contains(&var(Var::Resource), &"nickname".to_string()));
    assert_eq!(located.shape_only(), var(Var::Principal));
    assert!(!located.same_as(&var(Var::Principal)));
}

#[test]
fn what_both_operands_of_or_establish_is_known_after_it() {
    let nick = || has(var(Var::Principal), "nickname");
    let zip = || has(get(var(Var::Principal), "address"), "zip");
    let a = infer(&b().or(nick(), nick()));
    assert!(a.caps.contains(&var(Var::Principal), &"nickname".to_string()));
    let a = infer(&b().or(nick(), zip()));
    assert!(!a.caps.contains(&var(Var::Principal), &"nickname".to_string()));
    let a = infer(&b().and(nick(), zip()));
    assert!(a.caps.contains(&var(Var::Principal), &"nickname".to_string()));
    assert!(a
        .caps
        .contains(&get(var(Var::Principal), "address"), &"zip".to_string()));
    let a = infer(&b().not(nick()));
    assert!(!a.caps.contains(&var(Var::Principal), &"nickname".to_string()));
    let a = infer(&b().ite(unknown_bool(), nick(), nick()));
    assert!(a.caps.contains(&var(Var::Principal), &"nickname".to_string()));
    let a = infer(&b().ite(unknown_bool(), nick(), zip()));
    assert!(!a.caps.contains(&var(Var::Principal), &"nickname".to_string()));
    let a = infer(&b().ite(boolean(true), nick(), zip()));
    assert!(a.caps.contains(&var(Var::Principal), &"nickname".to_string()));
    let a = infer(&b().ite(boolean(false), nick(), zip()));
    assert!(!a.caps.contains(&var(Var::Principal), &"nickname".to_string()));
}

#[test]
fn connectives_fold_singleton_booleans() {
    types_as(&b().and(boolean(true), unknown_bool()), Type::Boolean);
    types_as(&b().and(boolean(true), boolean(true)), Type::True);
    types_as(&b().and(boolean(true), boolean(false)), Type::False);
    types_as(&b().and(boolean(false), unknown_bool()), Type::False);
    types_as(&b().and(boolean(false), long(1)), Type::False);
    types_as(&b().and(unknown_bool(), boolean(false)), Type::Boolean);
    types_as(&b().or(boolean(true), long(1)), Type::True);
    types_as(&b().or(boolean(false), boolean(false)), Type::False);
    types_as(&b().or(boolean(false), unknown_bool()), Type::Boolean);
    types_as(&b().or(unknown_bool(), boolean(true)), Type::Boolean);
    types_as(&b().not(boolean(true)), Type::False);
    types_as(&b().not(boolean(false)), Type::True);
    types_as(&b().not(unknown_bool()), Type::Boolean);
    fails_as(
        &b().and(long(1), boolean(true)),
        Type::Boolean,
        vec![TypeError::expected_type(long(1), Type::Boolean, Type::Long, None)],
    );
    fails_as(
        &b().or(boolean(false), text("x")),
        Type::Boolean,
        vec![TypeError::expected_type(text("x"), Type::Boolean, Type::String, None)],
    );
    fails_as(
        &b().not(text("x")),
        Type::Boolean,
        vec![TypeError::expected_type(text("x"), Type::Boolean, Type::String, None)],
    );
}

#[test]
fn a_conditional_is_its_live_branch_or_the_bound_of_both() {
    types_as(&b().ite(boolean(true), long(1), text("x")), Type::Long);
    types_as(&b().ite(boolean(false), long(1), text("x")), Type::String);
    types_as(&b().ite(unknown_bool(), boolean(true), boolean(false)), Type::Boolean);
    types_as(
        &b().ite(boolean(true), long(1), get(var(Var::Principal), "agee")),
        Type::Long,
    );
    let e = b().ite(long(1), long(1), long(2));
    fails_as(
        &e,
        Type::Long,
        vec![TypeError::expected_type(long(1), Type::Boolean, Type::Long, None)],
    );
}

#[test]
fn arithmetic_and_comparison_take_longs() {
    types_as(&b().binary_app(BinaryOp::Add, long(1), long(2)), Type::Long);
    types_as(&b().binary_app(BinaryOp::Sub, long(1), long(2)), Type::Long);
    types_as(
        &b().binary_app(BinaryOp::Mul, long(2), get(var(Var::Principal), "age")),
        Type::Long,
    );
    types_as(&b().neg(long(1)), Type::Long);
    types_as(&b().less(long(1), long(2)), Type::Boolean);
    types_as(&b().binary_app(BinaryOp::LessEq, long(1), long(2)), Type::Boolean);
    fails_as(
        &b().binary_app(BinaryOp::Add, text("a"), text("b")),
        Type::Long,
        vec![
            TypeError::expected_type(
                text("a"),
                Type::Long,
                Type::String,
                Some(UnexpectedTypeHelp::ConcatenationNotSupported),
            ),
            TypeError::expected_type(
                text("b"),
                Type::Long,
                Type::String,
                Some(UnexpectedTypeHelp::ConcatenationNotSupported),
            ),
        ],
    );
    let set = || b().set(vec![long(1)]);
    fails_as(
        &b().binary_app(BinaryOp::Sub, set(), long(1)),
        Type::Long,
        vec![TypeError::expected_type(
            set(),
            Type::Long,
            Type::set(Type::Long),
            Some(UnexpectedTypeHelp::SetOperationsNotSupported),
        )],
    );
    fails_as(
        &b().binary_app(BinaryOp::Sub, long(1), text("b")),
        Type::Long,
        vec![TypeError::expected_type(text("b"), Type::Long, Type::String, None)],
    );
    fails_as(
        &b().neg(boolean(true)),
        Type::Long,
        vec![TypeError::expected_type(boolean(true), Type::Long, Type::True, None)],
    );
    fails_as(
        &b().less(long(1), text("b")),
        Type::Boolean,
        vec![TypeError::expected_type(text("b"), Type::Long, Type::String, None)],
    );
}

#[test]
fn equality_needs_compatible_operands() {
    types_as(&b().is_eq(long(1), long(2)), Type::Boolean);
    types_as(&b().is_eq(boolean(true), boolean(false)), Type::Boolean);
    types_as(&b().is_eq(uid("User", "a"), uid("User", "a")), Type::True);
    types_as(&b().is_eq(uid("User", "a"), uid("User", "b")), Type::False);
    types_as(&b().is_eq(var(Var::Principal), uid("User", "a")), Type::Boolean);
    let e = b().is_eq(long(1), text("x"));
    fails_as(
        &e,
        Type::Boolean,
        vec![TypeError::incompatible_types(
            e.clone(),
            vec![Type::Long, Type::String],
            LubHelp::NoHelp,
            LubContext::Equality,
        )],
    );
    let e = b().is_eq(var(Var::Principal), var(Var::Resource));
    fails_as(
        &e,
        Type::Boolean,
        vec![TypeError::incompatible_types(
            e.clone(),
            vec![entity("User"), entity("Doc")],
            LubHelp::EntityType,
            LubContext::Equality,
        )],
    );
    assert_eq!(infer_in(ValidationMode::Permissive, &e).errors, vec![]);
    let e = b().is_eq(var(Var::Principal), var(Var::Context));
    assert_eq!(
        infer(&e).errors,
        vec![TypeError::incompatible_types(
            e.clone(),
            vec![
                entity("User"),
                Type::record_with_attributes(
                    vec![attr("ip", Type::Extension("ipaddr".to_string()), true)],
                    OpenTag::ClosedAttributes
                )
            ],
            LubHelp::EntityRecord,
            LubContext::Equality,
        )]
    );
}

#[test]
fn membership_must_respect_the_hierarchy_under_strict_validation() {
    types_as(&b().is_in(var(Var::Principal), uid("Group", "g")), Type::Boolean);
    types_as(&b().is_in(var(Var::Principal), uid("User", "u")), Type::Boolean);
    types_as(
        &b().is_in(var(Var::Principal), b().set(vec![uid("Group", "g"), uid("Group", "h")])),
        Type::Boolean,
    );
    types_as(&b().is_in(var(Var::Principal), b().slot(SlotId::Resource)), Type::Boolean);
    types_as(&b().is_in(var(Var::Action), uid("Action", "edit")), Type::Boolean);
    let here = Loc::new(0, 5, "a in b".to_string());
    let e = b()
        .with_source_loc(here.clone())
        .is_in(var(Var::Principal), uid("Doc", "d"));
    let a = infer(&e);
    assert_eq!(
        a.errors,
        vec![TypeError::hierarchy_not_respected(
            e.clone(),
            Some("User".to_string()),
            Some("Doc".to_string())
        )]
    );
    assert_eq!(a.errors[0].source_loc(), Some(&here));
    assert_eq!(a.errors[0].on_expr, None);
    assert_eq!(a.ty(), Type::Boolean);
    assert_eq!(infer_in(ValidationMode::Permissive, &e).errors, vec![]);
    let e = b().is_in(uid("Group", "g"), var(Var::Principal));
    assert_eq!(infer(&e).errors.len(), 1);
}

#[test]
fn membership_takes_entities() {
    fails_as(
        &b().is_in(long(1), uid("Group", "g")),
        Type::Boolean,
        vec![TypeError::expected_type(long(1), Type::AnyEntity, Type::Long, None)],
    );
    let set = || b().set(vec![uid("User", "a")]);
    fails_as(
        &b().is_in(set(), uid("Group", "g")),
        Type::Boolean,
        vec![TypeError::expected_type(
            set(),
            Type::AnyEntity,
            Type::set(entity("User")),
            Some(UnexpectedTypeHelp::TryUsingContains),
        )],
    );
    fails_as(
        &b().is_in(var(Var::Principal), text("g")),
        Type::Boolean,
        vec![TypeError::expected_one_of_types(
            text("g"),
            vec![Type::AnyEntity, Type::set(Type::AnyEntity)],
            Type::String,
            None,
        )],
    );
}

#[test]
fn contains_takes_a_set_and_a_compatible_element() {
    let longs = || b().set(vec![long(1), long(2)]);
    types_as(&b().binary_app(BinaryOp::Contains, longs(), long(3)), Type::Boolean);
    types_as(
        &b().binary_app(BinaryOp::ContainsAll, longs(), b().set(vec![long(3)])),
        Type::Boolean,
    );
    types_as(
        &b().binary_app(BinaryOp::ContainsAny, longs(), longs()),
        Type::Boolean,
    );
    let e = b().binary_app(BinaryOp::Contains, longs(), text("x"));
    fails_as(
        &e,
        Type::Boolean,
        vec![TypeError::incompatible_types(
            e.clone(),
            vec![Type::set(Type::Long), Type::String],
            LubHelp::NoHelp,
            LubContext::Contains,
        )],
    );
    fails_as(
        &b().binary_app(BinaryOp::Contains, text("abc"), text("a")),
        Type::Boolean,
        vec![TypeError::expected_type(
            text("abc"),
            Type::set(Type::Never),
            Type::String,
            Some(UnexpectedTypeHelp::TryUsingLike),
        )],
    );
    fails_as(
        &b().binary_app(BinaryOp::Contains, var(Var::Principal), text("a")),
        Type::Boolean,
        vec![TypeError::expected_type(
            var(Var::Principal),
            Type::set(Type::Never),
            entity("User"),
            Some(UnexpectedTypeHelp::TryUsingIn),
        )],
    );
    fails_as(
        &b().binary_app(BinaryOp::Contains, var(Var::Context), text("a")),
        Type::Boolean,
        vec![TypeError::expected_type(
            var(Var::Context),
            Type::set(Type::Never),
            test_env_context(),
            Some(UnexpectedTypeHelp::TryUsingHas),
        )],
    );
    fails_as(
        &b().binary_app(BinaryOp::ContainsAll, longs(), long(1)),
        Type::Boolean,
        vec![TypeError::expected_type(
            long(1),
            Type::set(Type::Never),
            Type::Long,
            Some(UnexpectedTypeHelp::TryUsingSingleContains),
        )],
    );
    let e = b().binary_app(BinaryOp::ContainsAny, longs(), b().set(vec![text("x")]));
    fails_as(
        &e,
        Type::Boolean,
        vec![TypeError::incompatible_types(
            e.clone(),
            vec![Type::set(Type::Long), Type::set(Type::String)],
            LubHelp::NoHelp,
            LubContext::ContainsAnyAll,
        )],
    );
}

fn test_env_context() -> Type {
    Type::record_with_attributes(
        vec![attr("ip", Type::Extension("ipaddr".to_string()), true)],
        OpenTag::ClosedAttributes,
    )
}

#[test]
fn like_takes_a_string() {
    types_as(&b().like(text("abc"), "a*".to_string()), Type::Boolean);
    types_as(
        &b().like(get(var(Var::Principal), "name"), "a*".to_string()),
        Type::Boolean,
    );
    fails_as(
        &b().like(long(1), "a*".to_string()),
        Type::Boolean,
        vec![TypeError::expected_type(
            long(1),
            Type::String,
            Type::Long,
            Some(UnexpectedTypeHelp::TryUsingLike),
        )],
    );
}

#[test]
fn a_type_test_is_decided_where_the_type_decides_it() {
    types_as(
        &b().is_entity_type(var(Var::Principal), "User".to_string()),
        Type::True,
    );
    types_as(
        &b().is_entity_type(var(Var::Principal), "Group".to_string()),
        Type::False,
    );
    types_as(
        &b().is_entity_type(b().slot(SlotId::Resource), "Group".to_string()),
        Type::Boolean,
    );
    let either = b().ite(unknown_bool(), uid("User", "a"), uid("Group", "g"));
    let e = b().is_entity_type(either, "Group".to_string());
    let a = infer_in(ValidationMode::Permissive, &e);
    assert_eq!(a.errors, vec![]);
    assert_eq!(a.ty(), Type::Boolean);
    fails_as(
        &b().is_entity_type(long(1), "User".to_string()),
        Type::Boolean,
        vec![TypeError::expected_type(
            long(1),
            Type::AnyEntity,
            Type::Long,
            Some(UnexpectedTypeHelp::TypeTestNotSupported),
        )],
    );
}

#[test]
fn set_literals_join_their_elements() {
    types_as(&b().set(vec![long(1)]), Type::set(Type::Long));
    types_as(
        &b().set(vec![boolean(true), boolean(false), boolean(true)]),
        Type::set(Type::Boolean),
    );
    types_as(
        &b().set(vec![b().set(vec![boolean(true)]), b().set(vec![unknown_bool()])]),
        Type::set(Type::set(Type::Boolean)),
    );
    let here = Loc::new(2, 4, "x []".to_string());
    let e = b().with_source_loc(here.clone()).set(vec![]);
    let a = infer(&e);
    assert_eq!(a.errors, vec![TypeError::empty_set_forbidden(e.clone())]);
    assert_eq!(a.errors[0].source_loc(), Some(&here));
    assert_eq!(a.ty(), Type::set(Type::Never));
    let e = b().set(vec![long(1), text("x"), long(2), boolean(true)]);
    fails_as(
        &e,
        Type::Never,
        vec![TypeError::incompatible_types(
            e.clone(),
            vec![Type::Long, Type::String, Type::True],
            LubHelp::NoHelp,
            LubContext::SetElements,
        )],
    );
}

#[test]
fn record_literals_are_closed_records_of_required_attributes() {
    let e = b().record(vec![
        ("b".to_string(), text("x")),
        ("a".to_string(), long(1)),
    ]);
    types_as(
        &e,
        Type::record_with_attributes(
            vec![attr("a", Type::Long, true), attr("b", Type::String, true)],
            OpenTag::ClosedAttributes,
        ),
    );
    types_as(
        &b().record(vec![]),
        Type::record_with_attributes(vec![], OpenTag::ClosedAttributes),
    );
    let e = b().record(vec![("a".to_string(), get(var(Var::Principal), "agee"))]);
    assert_eq!(infer(&e).errors.len(), 1);
}

fn call(name: &str, style: CallStyle, args: Vec<Expr>) -> Expr {
    b().call_extension_fn(name.to_string(), style, args)
}

#[test]
fn calls_of_extension_functions_are_checked_against_their_signatures() {
    let ip = || call("ip", CallStyle::FunctionStyle, vec![text("10.0.0.1")]);
    types_as(&ip(), Type::Extension("ipaddr".to_string()));
    types_as(
        &call("isInRange", CallStyle::MethodStyle, vec![get(var(Var::Context), "ip"), ip()]),
        Type::Boolean,
    );
    let e = call("ipp", CallStyle::FunctionStyle, vec![text("10.0.0.1")]);
    fails_as(
        &e,
        Type::Never,
        vec![TypeError::undefined_extension(e.clone(), "ipp".to_string())],
    );
    let e = call("twice", CallStyle::FunctionStyle, vec![]);
    fails_as(
        &e,
        Type::Never,
        vec![TypeError::multiply_defined_extension(e.clone(), "twice".to_string())],
    );
    let e = call("ip", CallStyle::FunctionStyle, vec![text("a"), text("b")]);
    fails_as(
        &e,
        Type::Extension("ipaddr".to_string()),
        vec![TypeError::wrong_number_args(e.clone(), 1, 2)],
    );
    let e = call("ip", CallStyle::MethodStyle, vec![text("a")]);
    fails_as(
        &e,
        Type::Extension("ipaddr".to_string()),
        vec![TypeError::wrong_call_style(
            e.clone(),
            CallStyle::FunctionStyle,
            CallStyle::MethodStyle,
        )],
    );
    let e = call("ip", CallStyle::FunctionStyle, vec![long(1)]);
    fails_as(
        &e,
        Type::Extension("ipaddr".to_string()),
        vec![TypeError::expected_type(long(1), Type::String, Type::Long, None)],
    );
    let name = || get(var(Var::Principal), "name");
    let e = call("ip", CallStyle::FunctionStyle, vec![name()]);
    fails_as(
        &e,
        Type::Extension("ipaddr".to_string()),
        vec![TypeError::non_lit_ext_constructor(e.clone())],
    );
    let e = call("isInRange", CallStyle::FunctionStyle, vec![long(1), get(var(Var::Principal), "agee")]);
    let a = infer(&e);
    assert_eq!(a.errors.len(), 3);
    assert_eq!(a.ty(), Type::Boolean);
}

fn typed_all(e: &Expr) -> bool {
    e.data.is_some()
        && match &e.expr_kind {
            ExprKind::Lit(_) | ExprKind::Var(_) | ExprKind::Slot(_) => true,
            ExprKind::If {
                test_expr,
                then_expr,
                else_expr,
            } => typed_all(test_expr) && typed_all(then_expr) && typed_all(else_expr),
            ExprKind::And { left, right } | ExprKind::Or { left, right } => {
                typed_all(left) && typed_all(right)
            }
            ExprKind::UnaryApp { arg, .. } => typed_all(arg),
            ExprKind::BinaryApp { arg1, arg2, .. } => typed_all(arg1) && typed_all(arg2),
            ExprKind::ExtensionFunctionApp { args, .. } => args.iter().all(typed_all),
            ExprKind::GetAttr { expr, .. }
            | ExprKind::HasAttr { expr, .. }
            | ExprKind::Like { expr, .. }
            | ExprKind::Is { expr, .. } => typed_all(expr),
            ExprKind::SetLit(elems) => elems.iter().all(typed_all),
            ExprKind::Record(entries) => entries.iter().all(|(_, v)| typed_all(v)),
        }
}

#[test]
fn every_node_of_the_answer_carries_a_type() {
    let here = Loc::new(1, 2, "src".to_string());
    let e = b().with_source_loc(here.clone()).ite(
        b().and(boolean(false), get(long(1), "x")),
        b().set(vec![b().record(vec![("k".to_string(), b().neg(text("x")))])]),
        call("nothing", CallStyle::FunctionStyle, vec![b().like(long(1), "*".to_string())]),
    );
    let a = infer(&e);
    assert!(typed_all(&a.typed));
    assert_eq!(a.typed.shape_only(), e.shape_only());
    assert_eq!(a.typed.source_loc, Some(here));
}

#[test]
fn the_type_of_an_attribute_is_what_all_the_types_declare_alike() {
    let schema = test_schema();
    let user = entity("User");
    let found = |t: &Type, a: &str| t.attribute_type(&schema, &a.to_string());
    assert_eq!(
        found(&user, "age"),
        Some(AttributeType {
            attr_type: Type::Long,
            is_required: true
        })
    );
    assert_eq!(
        found(&user, "nickname"),
        Some(AttributeType {
            attr_type: Type::String,
            is_required: false
        })
    );
    assert_eq!(found(&user, "agee"), None);
    let either = Type::Entity(
        EntityLUB::single_entity("User".to_string())
            .union(&EntityLUB::single_entity("Group".to_string())),
    );
    assert_eq!(
        found(&either, "name"),
        Some(AttributeType {
            attr_type: Type::String,
            is_required: true
        })
    );
    assert_eq!(found(&either, "age"), None);
    assert_eq!(found(&either, "nickname"), None);
    assert_eq!(found(&entity("Spaceship"), "age"), None);
    assert_eq!(found(&Type::AnyEntity, "age"), None);
    assert_eq!(found(&Type::Long, "age"), None);
    let record = Type::record_with_attributes(
        vec![attr("zip", Type::Long, false)],
        OpenTag::OpenAttributes,
    );
    assert_eq!(
        found(&record, "zip"),
        Some(AttributeType {
            attr_type: Type::Long,
            is_required: false
        })
    );
    assert_eq!(found(&record, "street"), None);
    let action = Type::ActionEntity(EntityLUB::single_entity("Action".to_string()));
    assert_eq!(
        found(&action, "level"),
        Some(AttributeType {
            attr_type: Type::Long,
            is_required: true
        })
    );
    assert_eq!(found(&action, "name"), None);
}
