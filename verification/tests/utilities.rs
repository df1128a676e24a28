use cedar_policy_validator::expr::{
    CallStyle, EntityType, EntityUID, Expr, ExprBuilder, Literal, Loc, Var,
};
use cedar_policy_validator::fuzzy_match::{chars_of, fuzzy_search, levenshtein};
use cedar_policy_validator::policy::PolicyID;
use cedar_policy_validator::schema::{NamespaceDefinition, ValidatorEntityType, ValidatorSchema};
use cedar_policy_validator::text::{
    clone_strings, has_string, reversed, same_strings, surround, write_item,
};
use cedar_policy_validator::typecheck::test_utils::{
    assert_typecheck_fails, assert_typecheck_fails_empty_schema, assert_typecheck_fails_for_mode,
    assert_typechecks, assert_typechecks_empty_schema, assert_typechecks_empty_schema_permissive,
    assert_typechecks_for_mode, assert_types_eq, does_typecheck_empty_schema,
    does_typecheck_fail, does_typecheck_fail_empty_schema,
    does_typecheck_fail_empty_schema_without_type, does_typecheck_fail_for_mode,
    empty_schema_file, expr_id_placeholder, get_loc, types_are_equal, SchemaProvider,
};
use cedar_policy_validator::typecheck::{TypecheckAnswer, Typechecker};
use cedar_policy_validator::types::{EntityLUB, OpenTag, Type, ValidationMode};
use cedar_policy_validator::validation_errors::{
    AttributeAccess, LubContext, LubHelp, TypeError,
};

fn strings(items: &[&str]) -> Vec<String> {
    items.iter().map(|s| s.to_string()).collect()
}

fn distance(a: &str, b: &str) -> usize {
    levenshtein(&chars_of(a), &chars_of(b))
}

#[test]
fn edit_distances() {
    assert_eq!(distance("", ""), 0);
    assert_eq!(distance("", "abc"), 3);
    assert_eq!(distance("abc", ""), 3);
    assert_eq!(distance("age", "age"), 0);
    assert_eq!(distance("agee", "age"), 1);
    assert_eq!(distance("kitten", "sitting"), 3);
    assert_eq!(distance("flaw", "lawn"), 2);
    assert_eq!(distance("é", "e"), 1);
    assert_eq!(chars_of("añb"), vec!['a', 'ñ', 'b']);
}

#[test]
fn the_closest_known_name_is_suggested_if_it_is_close() {
    let known = strings(&["name", "age", "ago", "address"]);
    assert_eq!(fuzzy_search(&"agee".to_string(), &known), Some("age".to_string()));
    assert_eq!(fuzzy_search(&"agx".to_string(), &known), Some("age".to_string()));
    assert_eq!(fuzzy_search(&"ag".to_string(), &known), Some("age".to_string()));
    assert_eq!(fuzzy_search(&"adress".to_string(), &known), Some("address".to_string()));
    assert_eq!(fuzzy_search(&"ago".to_string(), &known), Some("ago".to_string()));
    assert_eq!(fuzzy_search(&"department".to_string(), &known), None);
    assert_eq!(fuzzy_search(&"abcdefg".to_string(), &strings(&["abcd"])), Some("abcd".to_string()));
    assert_eq!(fuzzy_search(&"abcdefgh".to_string(), &strings(&["abcd"])), None);
    assert_eq!(fuzzy_search(&"x".to_string(), &vec![]), None);
    let long = "a".repeat(300);
    let longer = "a".repeat(303);
    let longest = "a".repeat(304);
    assert_eq!(fuzzy_search(&long, &vec![longest.clone(), longer.clone()]), Some(longer));
    assert_eq!(fuzzy_search(&long, &vec![longest]), None);
}

#[test]
fn string_helpers() {
    let items = strings(&["a", "b", "c"]);
    assert_eq!(reversed(&items), strings(&["c", "b", "a"]));
    assert_eq!(reversed(&vec![]), Vec::<String>::new());
    assert_eq!(clone_strings(&items), items);
    assert!(same_strings(&items, &strings(&["a", "b", "c"])));
    assert!(!same_strings(&items, &strings(&["a", "b"])));
    assert!(!same_strings(&items, &strings(&["a", "b", "d"])));
    assert!(has_string(&items, &"b".to_string()));
    assert!(!has_string(&items, &"d".to_string()));
    assert_eq!(surround("<", "x", ">"), "<x>");
    let mut out = "ab".to_string();
    assert_eq!(write_item(&mut out, &"cd".to_string()), Ok(()));
    assert_eq!(out, "abcd");
}

#[test]
fn a_snippet_is_located_at_its_first_occurrence() {
    let src = "permit(principal, action, resource) when { principal.age > 18 };";
    assert_eq!(
        get_loc(src, "principal"),
        Some(Loc::new(7, 16, src.to_string()))
    );
    assert_eq!(
        get_loc(src, "principal.age"),
        Some(Loc::new(43, 56, src.to_string()))
    );
    assert_eq!(get_loc(src, ""), Some(Loc::new(0, 0, src.to_string())));
    assert_eq!(get_loc(src, src), Some(Loc::new(0, src.len(), src.to_string())));
    assert_eq!(get_loc("añb b", "b"), Some(Loc::new(3, 4, "añb b".to_string())));
}

#[test]
fn expressions_outside_policies_are_checked_under_a_placeholder_name_and_environment() {
    assert_eq!(expr_id_placeholder(), PolicyID::from_string("expr"));
    assert_eq!(expr_id_placeholder().id, "expr");
    let schema = ValidatorSchema::empty();
    let typechecker = Typechecker::new(&schema, ValidationMode::Strict, expr_id_placeholder());
    let mut errors = vec![];
    let ty = |e: Expr, errors: &mut Vec<TypeError>| match typechecker.typecheck_expr(&e, errors) {
        TypecheckAnswer::TypecheckSuccess { expr_type, .. } => expr_type.data,
        TypecheckAnswer::TypecheckFail { .. } => None,
    };
    assert_eq!(
        ty(ExprBuilder::new().var(Var::Principal), &mut errors),
        Some(Type::named_entity_reference("Principal".to_string()))
    );
    assert_eq!(
        ty(ExprBuilder::new().var(Var::Resource), &mut errors),
        Some(Type::named_entity_reference("Resource".to_string()))
    );
    assert_eq!(
        ty(ExprBuilder::new().var(Var::Action), &mut errors),
        Some(Type::ActionEntity(EntityLUB::single_entity("Action".to_string())))
    );
    assert_eq!(
        ty(ExprBuilder::new().var(Var::Context), &mut errors),
        Some(Type::record_with_attributes(vec![], OpenTag::ClosedAttributes))
    );
    assert!(errors.is_empty());
    let foo = ExprBuilder::new().get_attr(ExprBuilder::new().var(Var::Context), "foo".to_string());
    assert_eq!(ty(foo.clone(), &mut errors), None);
    assert_eq!(
        errors,
        vec![TypeError::unsafe_attribute_access(
            foo,
            AttributeAccess::Context(
                EntityUID::with_eid_and_type("Action", "action"),
                strings(&["foo"])
            ),
            None,
            false
        )]
    );
}

#[test]
fn a_type_named_by_a_text() {
    assert_eq!(
        Type::named_entity_reference_from_str("User"),
        Type::named_entity_reference("User".to_string())
    );
    assert_eq!(
        Type::named_entity_reference_from_str(" Org :: User "),
        Type::named_entity_reference("Org::User".to_string())
    );
    assert_eq!(
        Type::try_named_entity_reference_from_str("A::B::C"),
        Some(Type::named_entity_reference("A::B::C".to_string()))
    );
    assert_eq!(Type::try_named_entity_reference_from_str("not a name"), None);
    assert_eq!(Type::try_named_entity_reference_from_str(""), None);
    assert_eq!(Type::try_named_entity_reference_from_str("A::"), None);
    assert_eq!(Type::try_named_entity_reference_from_str("if"), None);
}

#[test]
fn types_are_equal_if_each_is_a_subtype_of_the_other() {
    let schema = ValidatorSchema::empty();
    let user = Type::named_entity_reference("User".to_string());
    assert_types_eq(&schema, &Type::Long, &Type::Long);
    assert_types_eq(&schema, &user, &user);
    assert!(!types_are_equal(&schema, &Type::True, &Type::Boolean));
    assert!(!types_are_equal(&schema, &Type::Boolean, &Type::True));
    assert!(!types_are_equal(&schema, &user, &Type::AnyEntity));
    assert!(!types_are_equal(&schema, &Type::Long, &Type::String));
}

#[test]
fn a_schema_is_provided_in_more_than_one_way() {
    assert_eq!(empty_schema_file(), NamespaceDefinition::new(vec![], vec![]));
    assert_eq!(empty_schema_file().schema(), ValidatorSchema::empty());
    let user = || ValidatorEntityType {
        name: "User".to_string(),
        descendants: vec![],
        attributes: vec![],
        open_attributes: false,
    };
    let given = NamespaceDefinition::new(vec![user()], vec![]).schema();
    assert_eq!(given.entity_types, vec![user()]);
    assert!(given.action_ids.is_empty());
    assert!(given.extension_functions.is_empty());
    assert_eq!(given.get_entity_type(&"User".to_string()), Some(&user()));
    assert_eq!(given.get_entity_type(&"Usr".to_string()), None);
    assert_eq!(
        given.get_action_id(&EntityUID::with_eid_and_type("Action", "view")),
        None
    );
    let same = ValidatorSchema {
        entity_types: vec![user()],
        action_ids: vec![],
        extension_functions: vec![],
    };
    assert_eq!(same.schema(), given);
}

fn one() -> Expr {
    ExprBuilder::new().val(Literal::Long(1))
}

fn sum_with_text() -> Expr {
    ExprBuilder::new().binary_app(
        cedar_policy_validator::expr::BinaryOp::Sub,
        one(),
        ExprBuilder::new().val(Literal::Bool(true)),
    )
}

fn sum_error() -> TypeError {
    TypeError::expected_type(
        ExprBuilder::new().val(Literal::Bool(true)),
        Type::Long,
        Type::True,
        None,
    )
}

#[test]
fn an_expression_typechecks_with_the_expected_type() {
    assert_typechecks_empty_schema(one(), Type::Long);
    assert!(!does_typecheck_empty_schema(one(), Type::String));
    assert!(!does_typecheck_empty_schema(sum_with_text(), Type::Long));
    assert_typechecks(ValidatorSchema::empty(), one(), Type::Long);
    assert_typechecks_for_mode(
        empty_schema_file(),
        one(),
        Type::Long,
        ValidationMode::Permissive
    );
    let principal_or_resource = || {
        ExprBuilder::new().ite(
            ExprBuilder::new().less(one(), one()),
            ExprBuilder::new().var(Var::Principal),
            ExprBuilder::new().var(Var::Resource),
        )
    };
    let either = Type::Entity(
        EntityLUB::single_entity("Principal".to_string())
            .union(&EntityLUB::single_entity("Resource".to_string())),
    );
    assert_typechecks_empty_schema_permissive(
        principal_or_resource(),
        either.clone()
    );
    assert!(!does_typecheck_empty_schema(principal_or_resource(), either));
}

#[test]
fn an_expression_fails_to_typecheck_with_the_expected_errors() {
    assert_typecheck_fails_empty_schema(
        sum_with_text(),
        Type::Long,
        vec![sum_error()]
    );
    assert!(!does_typecheck_fail_empty_schema(
        sum_with_text(),
        Type::String,
        vec![sum_error()]
    ));
    assert!(!does_typecheck_fail_empty_schema(
        sum_with_text(),
        Type::Long,
        vec![]
    ));
    assert!(!does_typecheck_fail_empty_schema(one(), Type::Long, vec![]));
    assert!(!does_typecheck_fail_empty_schema_without_type(
        sum_with_text(),
        vec![sum_error()]
    ));
    assert_typecheck_fails(
        empty_schema_file(),
        sum_with_text(),
        Some(Type::Long),
        vec![sum_error(), sum_error()]
    );
    assert!(!does_typecheck_fail(
        empty_schema_file(),
        sum_with_text(),
        None,
        vec![sum_error()]
    ));
    let mixed = ExprBuilder::new().ite(
        ExprBuilder::new().less(one(), one()),
        ExprBuilder::new().var(Var::Principal),
        ExprBuilder::new().var(Var::Resource),
    );
    let error = TypeError::incompatible_types(
        mixed.clone(),
        vec![
            Type::named_entity_reference("Principal".to_string()),
            Type::named_entity_reference("Resource".to_string()),
        ],
        LubHelp::EntityType,
        LubContext::Conditional,
    );
    assert_typecheck_fails_for_mode(
        empty_schema_file(),
        mixed.clone(),
        Some(Type::Never),
        vec![error],
        ValidationMode::Strict
    );
    assert!(!does_typecheck_fail_for_mode(
        empty_schema_file(),
        mixed,
        Some(Type::Never),
        vec![],
        ValidationMode::Permissive
    ));
}

#[test]
fn call_styles_and_entity_types_read_in_messages() {
    assert_eq!(CallStyle::FunctionStyle.to_string(), "function-style");
    assert_eq!(CallStyle::MethodStyle.to_string(), "method-style");
    assert_eq!(EntityType::Specified("A::B".to_string()).to_string(), "A::B");
    assert_eq!(EntityType::Unspecified.to_string(), "<Unspecified>");
    assert_eq!(
        EntityUID::with_eid_and_type("A", "b").entity_type(),
        &EntityType::Specified("A".to_string())
    );
}
